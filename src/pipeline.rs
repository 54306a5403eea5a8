//! Render pipelines: their shader units, the layouts derived from those
//! units, and the graphics-API handles that are replaced as a whole on every
//! recompilation.
use vstd::prelude::*;
use crate::descriptor::{all_supported, merge_prefix, BindingLayout, LayoutBinding, LayoutError, ReflectedBinding, ShaderStage};
use crate::layout::{vertex_layout, ReflectedInput, VertexLayout, MAX_VERTEX_INPUTS};

verus! {

/// One shader of a pipeline configuration: its source and its stage.
#[derive(Clone, Debug)]
pub struct ShaderConfiguration {
    pub resource: String,
    pub kind: ShaderStage,
}

/// A pipeline configuration: the pipeline's name and its shaders.
#[derive(Clone, Debug)]
pub struct PipelineConfiguration {
    pub name: String,
    pub shader: Vec<ShaderConfiguration>,
}

/// One shader stage of a pipeline. `module` is the handle of the compiled
/// shader module, absent until the first successful compilation.
#[derive(Clone, Debug)]
pub struct ShaderModule {
    pub shader_source_path: String,
    pub kind: ShaderStage,
    /// The intermediate binary of the last successful compilation.
    pub shader_ir_code: Vec<u8>,
    pub vulkan_shader_module: Option<u64>,
}

impl ShaderModule {
    /// A shader unit for the source at `path`, not yet compiled.
    pub fn new(path: &String, kind: ShaderStage) -> (r: ShaderModule)
        ensures
            r.shader_source_path@ == path@,
            r.kind == kind,
            r.shader_ir_code@.len() == 0,
            r.vulkan_shader_module is None,
    {
        ShaderModule {
            shader_source_path: path.clone(),
            kind,
            shader_ir_code: Vec::new(),
            vulkan_shader_module: None,
        }
    }

    /// Records a successful compilation into `ir_code`, whose module handle
    /// `module` has already been created. Returns the previous module handle,
    /// which the caller destroys now that its replacement exists.
    pub fn install(&mut self, ir_code: Vec<u8>, module: u64) -> (retired: Option<u64>)
        ensures
            final(self).shader_source_path == old(self).shader_source_path,
            final(self).kind == old(self).kind,
            final(self).shader_ir_code@ == ir_code@,
            final(self).vulkan_shader_module == Some(module),
            retired == old(self).vulkan_shader_module,
    {
        let retired = self.vulkan_shader_module;
        self.shader_ir_code = ir_code;
        self.vulkan_shader_module = Some(module);
        retired
    }
}

/// The graphics-API objects of a compiled pipeline: the pipeline, its
/// layout, and one descriptor set layout per descriptor set, in ascending set number.
#[derive(Clone, Debug)]
pub struct PipelineHandles {
    pub pipeline: u64,
    pub layout: u64,
    pub set_layouts: Vec<u64>,
}

/// Why a pipeline operation failed.
#[derive(Clone, Copy, PartialEq, Eq, Structural, Debug)]
pub enum PipelineError {
    /// The configuration names no vertex shader.
    NoVertexShader,
    /// The pipeline has not been compiled yet.
    NotCompiled,
    /// The descriptor set index is past the pipeline's descriptor sets.
    InvalidSetIndex,
}

/// A render pipeline. `vulkan_pipeline` and the layouts are present exactly
/// when the pipeline has been compiled, and always come from the same
/// compilation.
#[derive(Clone, Debug)]
pub struct RenderPipeline {
    pub name: String,
    pub shader_modules: Vec<ShaderModule>,
    /// Index of the unit whose inputs define the vertex layout.
    pub vertex_shader: usize,
    pub vertex_layout: Option<VertexLayout>,
    pub binding_layout: BindingLayout,
    pub vulkan_pipeline: Option<PipelineHandles>,
}

/// Index of the first vertex-stage shader of `shaders`, or -1.
pub open spec fn first_vertex_shader(shaders: Seq<ShaderConfiguration>) -> int
    decreases shaders.len(),
{
    if shaders.len() == 0 {
        -1
    } else if first_vertex_shader(shaders.drop_last()) >= 0 {
        first_vertex_shader(shaders.drop_last())
    } else if shaders.last().kind == ShaderStage::Vertex {
        shaders.len() - 1
    } else {
        -1
    }
}

proof fn lemma_first_vertex_shader(shaders: Seq<ShaderConfiguration>)
    ensures
        -1 <= first_vertex_shader(shaders) < shaders.len(),
        first_vertex_shader(shaders) >= 0 ==> shaders[first_vertex_shader(shaders)].kind == ShaderStage::Vertex,
        forall|i: int| 0 <= i < shaders.len() && (first_vertex_shader(shaders) < 0 || i < first_vertex_shader(shaders))
            ==> (#[trigger] shaders[i]).kind != ShaderStage::Vertex,
    decreases shaders.len(),
{
    if shaders.len() > 0 {
        lemma_first_vertex_shader(shaders.drop_last());
        assert forall|i: int| 0 <= i < shaders.len() - 1 implies #[trigger] shaders[i] == shaders.drop_last()[i] by {}
    }
}


/// Why the layouts of a pipeline could not be derived.
#[derive(Clone, Copy, PartialEq, Eq, Structural, Debug)]
pub enum ShaderError {
    /// The vertex shader declares more inputs than a layout can address.
    TooManyInputs,
    /// A binding uses a descriptor kind that no layout can hold.
    Layout(LayoutError),
}

/// The resource binding layout of the first `n` shader units: unit `i`'s
/// reflected bindings `reflected[i]` merged in after those of the units
/// before it.
pub open spec fn merged_units(units: Seq<ShaderModule>, reflected: Seq<Vec<ReflectedBinding>>, n: int) -> (nat, Seq<LayoutBinding>)
    decreases n,
{
    if n <= 0 || n > units.len() || n > reflected.len() {
        (0, Seq::empty())
    } else {
        let (count, bindings) = merged_units(units, reflected, n - 1);
        let rs = reflected[n - 1]@;
        merge_prefix(count, bindings, units[n - 1].kind, rs, rs.len() as int)
    }
}

/// Every unit's reflected bindings have kinds that a layout can hold.
pub open spec fn units_supported(reflected: Seq<Vec<ReflectedBinding>>) -> bool {
    forall|i: int| 0 <= i < reflected.len() ==> all_supported(#[trigger] reflected[i]@)
}

impl RenderPipeline {
    /// `vertex_shader` designates a vertex-stage unit, and a compiled
    /// pipeline has one descriptor set layout per set of its binding layout.
    pub open spec fn wf(&self) -> bool {
        &&& self.vertex_shader < self.shader_modules@.len()
        &&& self.shader_modules@[self.vertex_shader as int].kind == ShaderStage::Vertex
        &&& self.vulkan_pipeline is Some ==> self.vulkan_pipeline->0.set_layouts@.len() == self.binding_layout.set_count
    }

    /// Derives the layouts of the pipeline from what reflection reported for
    /// its units' current binaries: `inputs`, the input variables of the
    /// vertex unit, give the vertex input layout; `reflected[i]`, the
    /// descriptor bindings of unit `i`, are merged in unit order into the
    /// resource binding layout. Fails exactly when the vertex unit has more
    /// inputs than a layout addresses, or a binding has a kind no layout
    /// can hold.
    pub fn derive_layouts(&self, inputs: &Vec<ReflectedInput>, reflected: &Vec<Vec<ReflectedBinding>>) -> (r: Result<(VertexLayout, BindingLayout), ShaderError>)
        requires
            reflected@.len() == self.shader_modules@.len(),
        ensures
            r is Ok <==> inputs@.len() <= MAX_VERTEX_INPUTS && units_supported(reflected@),
            (r matches Err(ShaderError::TooManyInputs)) <==> inputs@.len() > MAX_VERTEX_INPUTS,
            r is Ok ==> r->Ok_0.0.derived_from(inputs@),
            r is Ok ==> r->Ok_0.1.wf()
                && r->Ok_0.1.spec_pair() == merged_units(self.shader_modules@, reflected@, reflected@.len() as int),
    {
        if inputs.len() > MAX_VERTEX_INPUTS {
            return Err(ShaderError::TooManyInputs);
        }
        let vertex = vertex_layout(inputs);
        let mut bindings = BindingLayout::new();
        assert(bindings.spec_pair() =~= merged_units(self.shader_modules@, reflected@, 0));
        let mut i: usize = 0;
        while i < reflected.len()
            invariant
                reflected@.len() == self.shader_modules@.len(),
                inputs@.len() <= MAX_VERTEX_INPUTS,
                i <= reflected@.len(),
                bindings.wf(),
                bindings.spec_pair() == merged_units(self.shader_modules@, reflected@, i as int),
                forall|k: int| 0 <= k < i ==> all_supported(#[trigger] reflected@[k]@),
            decreases reflected@.len() - i,
        {
            let kind = self.shader_modules[i].kind;
            match bindings.merged_with(kind, &reflected[i]) {
                Ok(merged) => {
                    bindings = merged;
                },
                Err(e) => {
                    return Err(ShaderError::Layout(e));
                },
            }
            i = i + 1;
        }
        Ok((vertex, bindings))
    }

    /// Every unit's stage and path follow the configuration, in order, and
    /// `vertex_shader` designates the first vertex unit.
    pub open spec fn configured_by(&self, config: PipelineConfiguration) -> bool {
        &&& self.name@ == config.name@
        &&& self.shader_modules@.len() == config.shader@.len()
        &&& forall|i: int| 0 <= i < config.shader@.len() ==> {
            &&& (#[trigger] self.shader_modules@[i]).kind == config.shader@[i].kind
            &&& self.shader_modules@[i].shader_source_path@ == config.shader@[i].resource@
        }
        &&& self.vertex_shader == first_vertex_shader(config.shader@)
    }

    /// A pipeline built from `config`, with one uncompiled unit per shader
    /// and no layouts or handles. Fails when no shader is a vertex shader.
    pub fn new(config: &PipelineConfiguration) -> (r: Result<RenderPipeline, PipelineError>)
        ensures
            r is Ok <==> first_vertex_shader(config.shader@) >= 0,
            r is Err ==> r->Err_0 == PipelineError::NoVertexShader,
            r is Ok ==> r->Ok_0.configured_by(*config),
            r is Ok ==> r->Ok_0.wf(),
            r is Ok ==> r->Ok_0.vulkan_pipeline is None && r->Ok_0.vertex_layout is None,
            r is Ok ==> forall|i: int| 0 <= i < r->Ok_0.shader_modules@.len()
                ==> (#[trigger] r->Ok_0.shader_modules@[i]).vulkan_shader_module is None,
    {
        let mut shader_modules: Vec<ShaderModule> = Vec::new();
        let mut vertex_shader: Option<usize> = None;
        let mut i: usize = 0;
        while i < config.shader.len()
            invariant
                i <= config.shader@.len(),
                shader_modules@.len() == i,
                forall|k: int| 0 <= k < i ==> {
                    &&& (#[trigger] shader_modules@[k]).kind == config.shader@[k].kind
                    &&& shader_modules@[k].shader_source_path@ == config.shader@[k].resource@
                    &&& shader_modules@[k].vulkan_shader_module is None
                },
                vertex_shader is Some ==> vertex_shader->0 == first_vertex_shader(config.shader@.subrange(0, i as int)),
                vertex_shader is None ==> first_vertex_shader(config.shader@.subrange(0, i as int)) == -1,
            decreases config.shader@.len() - i,
        {
            let shader = &config.shader[i];
            proof {
                assert(config.shader@.subrange(0, i + 1).drop_last() == config.shader@.subrange(0, i as int));
            }
            if vertex_shader.is_none() && matches!(shader.kind, ShaderStage::Vertex) {
                vertex_shader = Some(i);
            }
            shader_modules.push(ShaderModule::new(&shader.resource, shader.kind));
            i = i + 1;
        }
        assert(config.shader@.subrange(0, i as int) == config.shader@);
        proof {
            lemma_first_vertex_shader(config.shader@);
        }
        match vertex_shader {
            None => Err(PipelineError::NoVertexShader),
            Some(v) => Ok(RenderPipeline {
                name: config.name.clone(),
                shader_modules,
                vertex_shader: v,
                vertex_layout: None,
                binding_layout: BindingLayout::new(),
                vulkan_pipeline: None,
            }),
        }
    }

    /// The pipeline after installing a new compilation, and the handles it
    /// hands back.
    pub open spec fn spec_install(self, handles: PipelineHandles, vertex_layout: VertexLayout, binding_layout: BindingLayout) -> (RenderPipeline, Option<PipelineHandles>) {
        (RenderPipeline {
            vulkan_pipeline: Some(handles),
            vertex_layout: Some(vertex_layout),
            binding_layout,
            ..self
        }, self.vulkan_pipeline)
    }

    /// Replaces the compiled state as a whole with a new compilation whose
    /// handles already exist. Returns the handles of the previous
    /// compilation, if any, which the caller destroys only now.
    pub fn install(&mut self, handles: PipelineHandles, vertex_layout: VertexLayout, binding_layout: BindingLayout) -> (retired: Option<PipelineHandles>)
        requires
            handles.set_layouts@.len() == binding_layout.set_count,
        ensures
            old(self).wf() ==> final(self).wf(),
            (*final(self), retired) == old(self).spec_install(handles, vertex_layout, binding_layout),
            final(self).name == old(self).name,
            final(self).shader_modules == old(self).shader_modules,
            final(self).vertex_shader == old(self).vertex_shader,
            final(self).vulkan_pipeline == Some(handles),
            final(self).vertex_layout == Some(vertex_layout),
            final(self).binding_layout == binding_layout,
            retired == old(self).vulkan_pipeline,
    {
        let retired = self.vulkan_pipeline.take();
        self.vulkan_pipeline = Some(handles);
        self.vertex_layout = Some(vertex_layout);
        self.binding_layout = binding_layout;
        retired
    }

    /// The descriptor set layout handle and the bindings of the descriptor set
    /// at `set_index`. Fails with `NotCompiled` before the first compilation
    /// and with `InvalidSetIndex` when the pipeline has no such set.
    pub fn descriptor_group(&self, set_index: usize) -> (r: Result<(u64, Vec<LayoutBinding>), PipelineError>)
        ensures
            self.vulkan_pipeline is None ==> r == Err::<(u64, Vec<LayoutBinding>), PipelineError>(PipelineError::NotCompiled),
            self.vulkan_pipeline is Some ==> (r is Err <==> set_index >= self.vulkan_pipeline->0.set_layouts@.len()
                || set_index >= self.binding_layout.set_count),
            r is Err && self.vulkan_pipeline is Some ==> r->Err_0 == PipelineError::InvalidSetIndex,
            r is Ok ==> r->Ok_0.0 == self.vulkan_pipeline->0.set_layouts@[set_index as int],
            r is Ok ==> r->Ok_0.1@ == self.binding_layout.spec_group(set_index as int),
    {
        match &self.vulkan_pipeline {
            None => Err(PipelineError::NotCompiled),
            Some(h) => {
                if set_index >= h.set_layouts.len() || set_index as u64 >= self.binding_layout.set_count() {
                    Err(PipelineError::InvalidSetIndex)
                } else {
                    Ok((h.set_layouts[set_index], self.binding_layout.group(set_index as u64)))
                }
            },
        }
    }
}

/// Recompiling keeps exactly one pipeline handle and one layout handle
/// reachable, never a destroyed one. Model the device's live pipeline and
/// layout handles as sets. The new handles are created first, while the
/// pipeline still holds the old ones; the pipeline then switches to the new
/// ones; the handles it hands back are destroyed last. At each step the
/// handles the pipeline holds are live, and at the end the only live
/// pipeline and layout handles are the ones it holds.
pub proof fn lemma_recompile_keeps_one_live(
    before: RenderPipeline,
    created: PipelineHandles,
    vertex_layout: VertexLayout,
    binding_layout: BindingLayout,
)
    requires
        before.vulkan_pipeline is Some,
        created.pipeline != before.vulkan_pipeline->0.pipeline,
        created.layout != before.vulkan_pipeline->0.layout,
    ensures
        ({
            let held = before.vulkan_pipeline->0;
            let live_pipelines = set![held.pipeline, created.pipeline];
            let live_layouts = set![held.layout, created.layout];
            let (after, retired) = before.spec_install(created, vertex_layout, binding_layout);
            let now = after.vulkan_pipeline->0;
            &&& live_pipelines.contains(held.pipeline) && live_layouts.contains(held.layout)
            &&& live_pipelines.contains(now.pipeline) && live_layouts.contains(now.layout)
            &&& retired is Some
            &&& live_pipelines.remove(retired->0.pipeline) == set![now.pipeline]
            &&& live_layouts.remove(retired->0.layout) == set![now.layout]
        }),
{
    let held = before.vulkan_pipeline->0;
    assert(set![held.pipeline, created.pipeline].remove(held.pipeline) =~= set![created.pipeline]);
    assert(set![held.layout, created.layout].remove(held.layout) =~= set![created.layout]);
}

} // verus!
