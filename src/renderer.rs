//! The renderer's own state: its pipelines by name, the builders queued for
//! the frame, the frame controller, and the decisions that tie them
//! together (draw resolution, reloads, descriptor set allocation).
use vstd::prelude::*;
use crate::batch::{batch_fits, batch_runs, draws, index_bytes, run, run_starts, runs_fit, spec_index_bytes, BatchError, DrawBatch};
use crate::builder::spec_vertices_bytes;
use crate::builder::BufferBuilder;
use crate::descriptor::{DescriptorType, LayoutBinding};
use crate::frame::{AcquireOutcome, FrameAction, FrameController, FrameError, FrameStage, PresentOutcome, Swapchain};
use crate::pipeline::{PipelineConfiguration, PipelineError, RenderPipeline};

verus! {

/// Why a renderer operation failed.
#[derive(Clone, Copy, PartialEq, Eq, Structural, Debug)]
pub enum RenderError {
    /// No pipeline has the requested name.
    PipelineNotFound,
    /// The pipeline refused the request.
    Pipeline(PipelineError),
    /// A batch holds more vertices than 16-bit indices reach.
    TooManyVertices,
}

/// One draw of a frame: a batch and the index of the pipeline it binds.
#[derive(Clone, Debug)]
pub struct DrawCall {
    pub pipeline: usize,
    pub batch: DrawBatch,
    /// The vertex buffer contents: the batch's vertices encoded by its format.
    pub vertex_bytes: Vec<u8>,
    /// The index buffer contents: the batch's 16-bit indices.
    pub index_bytes: Vec<u8>,
}

/// `c`'s buffer contents encode its batch: the vertex bytes hold the
/// vertices in order, one vertex size each, and the index bytes hold the
/// indices in order, two bytes each.
pub open spec fn buffers_encode(c: DrawCall) -> bool {
    &&& c.vertex_bytes@ == spec_vertices_bytes(c.batch.vertex_format, c.batch.vertices@)
    &&& c.vertex_bytes@.len() == c.batch.vertices@.len() * c.batch.vertex_format.spec_vertex_size()
    &&& c.index_bytes@ == spec_index_bytes(c.batch.indices@)
    &&& c.index_bytes@.len() == 2 * c.batch.indices@.len()
}

/// One step of a reload: recompile an existing pipeline from a
/// configuration, or create a pipeline from it and append it to the
/// renderer's pipelines.
#[derive(Clone, Copy, PartialEq, Eq, Structural, Debug)]
pub enum ReloadStep {
    Recompile { pipeline: usize, config: usize },
    Create { config: usize },
}

/// The renderer: pipelines keyed by name, the builders queued for the
/// current frame in submission order, and the frame controller.
#[derive(Clone, Debug)]
pub struct GameRenderer {
    pub pipelines: Vec<RenderPipeline>,
    pub queued_buffer_builder: Vec<BufferBuilder>,
    pub frame: FrameController,
}

/// The names of `ps`, in order.
pub open spec fn pipeline_names(ps: Seq<RenderPipeline>) -> Seq<Seq<char>> {
    ps.map_values(|p: RenderPipeline| p.name@)
}

/// The contents of each string of `v`.
pub open spec fn string_views(v: Seq<String>) -> Seq<Seq<char>> {
    v.map_values(|s: String| s@)
}

proof fn lemma_string_views_push(v: Seq<String>, s: String)
    ensures
        string_views(v.push(s)) == string_views(v).push(s@),
{
    assert(string_views(v.push(s)) =~= string_views(v).push(s@));
}

/// Index of the first of `names` equal to `name`, or -1.
pub open spec fn first_named(names: Seq<Seq<char>>, name: Seq<char>) -> int
    decreases names.len(),
{
    if names.len() == 0 {
        -1
    } else if first_named(names.drop_last(), name) >= 0 {
        first_named(names.drop_last(), name)
    } else if names.last() == name {
        names.len() - 1
    } else {
        -1
    }
}

proof fn lemma_first_named(names: Seq<Seq<char>>, name: Seq<char>)
    ensures
        -1 <= first_named(names, name) < names.len(),
        first_named(names, name) >= 0 ==> names[first_named(names, name)] == name,
        forall|i: int| 0 <= i < names.len() && (first_named(names, name) < 0 || i < first_named(names, name))
            ==> #[trigger] names[i] != name,
    decreases names.len(),
{
    if names.len() > 0 {
        lemma_first_named(names.drop_last(), name);
        assert forall|i: int| 0 <= i < names.len() - 1 implies #[trigger] names[i] == names.drop_last()[i] by {}
    }
}

/// The names after the first `n` reload steps for `configs`, starting from
/// `names`, and those steps: a configuration whose name is already present
/// recompiles the first pipeline of that name, any other creates a pipeline
/// that is appended.
pub open spec fn reload_prefix(names: Seq<Seq<char>>, configs: Seq<PipelineConfiguration>, n: int) -> (Seq<Seq<char>>, Seq<ReloadStep>)
    decreases n,
{
    if n <= 0 || n > configs.len() {
        (names, Seq::empty())
    } else {
        let (ns, steps) = reload_prefix(names, configs, n - 1);
        let j = first_named(ns, configs[n - 1].name@);
        if j >= 0 {
            (ns, steps.push(ReloadStep::Recompile { pipeline: j as usize, config: (n - 1) as usize }))
        } else {
            (ns.push(configs[n - 1].name@), steps.push(ReloadStep::Create { config: (n - 1) as usize }))
        }
    }
}

/// What allocating a descriptor set needs: the set layout handle and the
/// bindings of the set, kept with the allocated set for later writes.
#[derive(Clone, Debug)]
pub struct DescriptorSetRequest {
    pub layout: u64,
    pub bindings: Vec<LayoutBinding>,
}

/// An allocated descriptor set, with the bindings of the set it was
/// allocated for.
#[derive(Clone, Debug)]
pub struct DescriptorSet {
    pub vk_descriptor_set: u64,
    pub binding_types: Vec<LayoutBinding>,
}

impl GameRenderer {
    /// A renderer without pipelines or queued builders, whose swapchain is
    /// still to be built.
    pub fn new() -> (r: GameRenderer)
        ensures
            r.pipelines@.len() == 0,
            r.queued_buffer_builder@.len() == 0,
            r.frame == FrameController::new_spec(),
    {
        GameRenderer { pipelines: Vec::new(), queued_buffer_builder: Vec::new(), frame: FrameController::new() }
    }

    /// Index of the first pipeline named `name`.
    pub fn pipeline_index(&self, name: &str) -> (r: Option<usize>)
        ensures
            r is Some <==> first_named(pipeline_names(self.pipelines@), name@) >= 0,
            r is Some ==> r->0 == first_named(pipeline_names(self.pipelines@), name@),
    {
        let ghost names = pipeline_names(self.pipelines@);
        let wanted = name.to_owned();
        let mut i: usize = 0;
        while i < self.pipelines.len()
            invariant
                i <= self.pipelines@.len(),
                names == pipeline_names(self.pipelines@),
                wanted@ == name@,
                forall|k: int| 0 <= k < i ==> #[trigger] names[k] != name@,
            decreases self.pipelines@.len() - i,
        {
            assert(names[i as int] == self.pipelines@[i as int].name@);
            if self.pipelines[i].name == wanted {
                proof {
                    lemma_first_named(names, name@);
                }
                return Some(i);
            }
            i = i + 1;
        }
        proof {
            lemma_first_named(names, name@);
        }
        None
    }

    /// The first pipeline named `name`, if any.
    pub fn find_pipeline(&self, name: &str) -> (r: Option<&RenderPipeline>)
        ensures
            r is Some <==> first_named(pipeline_names(self.pipelines@), name@) >= 0,
            r is Some ==> *r->0 == self.pipelines@[first_named(pipeline_names(self.pipelines@), name@)],
    {
        proof {
            lemma_first_named(pipeline_names(self.pipelines@), name@);
        }
        match self.pipeline_index(name) {
            Some(i) => Some(&self.pipelines[i]),
            None => None,
        }
    }

    /// Appends a pipeline.
    pub fn add_pipeline(&mut self, pipeline: RenderPipeline)
        ensures
            final(self).pipelines@ == old(self).pipelines@.push(pipeline),
            final(self).queued_buffer_builder == old(self).queued_buffer_builder,
            final(self).frame == old(self).frame,
    {
        self.pipelines.push(pipeline);
    }

    /// Turns the queued builders into the frame's draws: runs of adjacent
    /// builders that can share a draw become one batch each, in submission
    /// order, and each batch is paired with the first pipeline of its name.
    /// The queue is empty afterwards. Fails when a batch holds more vertices
    /// than 16-bit indices reach, or names a pipeline that does not exist.
    pub fn queue_buffer_builder(&mut self) -> (r: Result<Vec<DrawCall>, RenderError>)
        requires
            forall|i: int| 0 <= i < old(self).queued_buffer_builder@.len()
                ==> (#[trigger] old(self).queued_buffer_builder@[i]).wf(),
        ensures
            final(self).queued_buffer_builder@.len() == 0,
            final(self).pipelines == old(self).pipelines,
            final(self).frame == old(self).frame,
            ({
                let q = old(self).queued_buffer_builder@;
                let names = pipeline_names(old(self).pipelines@);
                &&& !runs_fit(q) ==> r == Err::<Vec<DrawCall>, RenderError>(RenderError::TooManyVertices)
                &&& runs_fit(q) ==> (r is Ok <==> forall|k: int| 0 <= k < run_starts(q).len()
                    ==> first_named(names, #[trigger] run(q, k)[0].pipeline@) >= 0)
                &&& runs_fit(q) && r is Err ==> r->Err_0 == RenderError::PipelineNotFound
                &&& r is Ok ==> r->Ok_0@.len() == run_starts(q).len()
                &&& r is Ok ==> forall|k: int| 0 <= k < r->Ok_0@.len() ==> {
                    &&& draws((#[trigger] r->Ok_0@[k]).batch, run(q, k))
                    &&& r->Ok_0@[k].pipeline == first_named(names, run(q, k)[0].pipeline@)
                    &&& buffers_encode(r->Ok_0@[k])
                }
            }),
    {
        let ghost q = self.queued_buffer_builder@;
        let mut queue: Vec<BufferBuilder> = Vec::new();
        std::mem::swap(&mut queue, &mut self.queued_buffer_builder);
        let mut batches = match batch_runs(&queue) {
            Ok(batches) => batches,
            Err(BatchError::TooManyVertices) => return Err(RenderError::TooManyVertices),
        };
        let ghost all = batches@;
        let total = batches.len();
        let mut calls: Vec<DrawCall> = Vec::new();
        let mut k: usize = 0;
        while batches.len() > 0
            invariant
                q == queue@,
                q == old(self).queued_buffer_builder@,
                all.len() == total,
                runs_fit(q),
                all.len() == run_starts(q).len(),
                forall|j: int| 0 <= j < all.len() ==> draws(#[trigger] all[j], run(q, j)),
                forall|j: int| 0 <= j < all.len() ==> batch_fits(#[trigger] all[j]),
                k <= all.len(),
                batches@ == all.subrange(k as int, all.len() as int),
                calls@.len() == k,
                self.pipelines == old(self).pipelines,
                self.frame == old(self).frame,
                self.queued_buffer_builder@.len() == 0,
                forall|j: int| 0 <= j < k ==> {
                    &&& draws((#[trigger] calls@[j]).batch, run(q, j))
                    &&& calls@[j].pipeline == first_named(pipeline_names(self.pipelines@), run(q, j)[0].pipeline@)
                    &&& buffers_encode(calls@[j])
                },
                forall|j: int| 0 <= j < k ==> first_named(pipeline_names(self.pipelines@), #[trigger] run(q, j)[0].pipeline@) >= 0,
            decreases batches@.len(),
        {
            assert(k < all.len());
            let batch = batches.remove(0);
            assert(batch == all[k as int]);
            assert(draws(all[k as int], run(q, k as int)));
            match self.pipeline_index(batch.pipeline.as_str()) {
                Some(p) => {
                    assert(batch_fits(all[k as int]));
                    let vertex_bytes = batch.vertex_format.vertex_bytes(&batch.vertices);
                    let index_bytes = index_bytes(&batch.indices);
                    calls.push(DrawCall { pipeline: p, batch, vertex_bytes, index_bytes });
                },
                None => {
                    assert(first_named(pipeline_names(self.pipelines@), run(q, k as int)[0].pipeline@) < 0);
                    return Err(RenderError::PipelineNotFound);
                },
            }
            k = k + 1;
            assert(batches@ =~= all.subrange(k as int, all.len() as int));
        }
        Ok(calls)
    }

    /// The steps that reload the pipelines from `configs`, in order: a
    /// configuration whose name a pipeline already has recompiles the first
    /// such pipeline; any other creates a pipeline, appended after the
    /// existing ones, which later configurations of the same name recompile.
    pub fn reload_plan(&self, configs: &Vec<PipelineConfiguration>) -> (r: Vec<ReloadStep>)
        ensures
            r@ == reload_prefix(pipeline_names(self.pipelines@), configs@, configs@.len() as int).1,
    {
        let mut names: Vec<String> = Vec::new();
        let mut i: usize = 0;
        while i < self.pipelines.len()
            invariant
                i <= self.pipelines@.len(),
                string_views(names@) == pipeline_names(self.pipelines@).subrange(0, i as int),
            decreases self.pipelines@.len() - i,
        {
            let ghost before = names@;
            let copy = self.pipelines[i].name.clone();
            assert(copy@ == pipeline_names(self.pipelines@)[i as int]);
            names.push(copy);
            assert(names@ == before.push(copy));
            proof {
                lemma_string_views_push(before, copy);
            }
            assert(string_views(names@) =~= pipeline_names(self.pipelines@).subrange(0, i + 1));
            i = i + 1;
        }
        assert(pipeline_names(self.pipelines@).subrange(0, i as int) == pipeline_names(self.pipelines@));
        let ghost start = pipeline_names(self.pipelines@);
        let mut steps: Vec<ReloadStep> = Vec::new();
        let mut c: usize = 0;
        while c < configs.len()
            invariant
                c <= configs@.len(),
                (string_views(names@), steps@) == reload_prefix(start, configs@, c as int),
            decreases configs@.len() - c,
        {
            let name = &configs[c].name;
            let ghost ns = string_views(names@);
            let mut found: Option<usize> = None;
            let mut j: usize = 0;
            while j < names.len()
                invariant
                    j <= names@.len(),
                    ns == string_views(names@),
                    found is None ==> forall|k: int| 0 <= k < j ==> #[trigger] ns[k] != name@,
                    found is Some ==> found->0 == first_named(ns, name@),
                decreases names@.len() - j,
            {
                if found.is_none() && names[j] == *name {
                    assert(ns[j as int] == name@);
                    proof {
                        lemma_first_named(ns, name@);
                    }
                    found = Some(j);
                }
                j = j + 1;
            }
            proof {
                lemma_first_named(ns, name@);
            }
            match found {
                Some(p) => {
                    steps.push(ReloadStep::Recompile { pipeline: p, config: c });
                },
                None => {
                    let copy = name.clone();
                    proof {
                        lemma_string_views_push(names@, copy);
                    }
                    names.push(copy);
                    assert(string_views(names@) =~= ns.push(name@));
                    steps.push(ReloadStep::Create { config: c });
                },
            }
            c = c + 1;
        }
        steps
    }
}

impl GameRenderer {
    /// Starts a frame from the outcome of image acquisition (see
    /// `FrameController::begin`).
    pub fn begin(&mut self, outcome: AcquireOutcome) -> (r: Result<FrameAction, FrameError>)
        requires
            old(self).frame.wf(),
            old(self).frame.stage == FrameStage::Idle,
        ensures
            (final(self).frame, r) == old(self).frame.spec_begin(outcome),
            final(self).pipelines == old(self).pipelines,
            final(self).queued_buffer_builder == old(self).queued_buffer_builder,
    {
        self.frame.begin(outcome)
    }

    /// Ends a frame from the outcome of presentation (see
    /// `FrameController::end`).
    pub fn end(&mut self, outcome: PresentOutcome) -> (r: Result<FrameAction, FrameError>)
        requires
            old(self).frame.wf(),
            old(self).frame.stage == FrameStage::Recording,
        ensures
            (final(self).frame, r) == old(self).frame.spec_end(outcome),
            final(self).pipelines == old(self).pipelines,
            final(self).queued_buffer_builder == old(self).queued_buffer_builder,
    {
        self.frame.end(outcome)
    }

    /// Installs the rebuilt `swapchain` and, when `recompile_pipelines` is
    /// set, plans the reload of the pipelines from `configs`. Returns the
    /// previous swapchain, to be destroyed now, and the reload steps (none
    /// when not recompiling).
    pub fn reload(&mut self, swapchain: Swapchain, recompile_pipelines: bool, configs: &Vec<PipelineConfiguration>) -> (r: (Option<Swapchain>, Vec<ReloadStep>))
        requires
            swapchain.images@.len() == swapchain.image_views@.len(),
        ensures
            (final(self).frame, r.0) == old(self).frame.spec_recreate(swapchain),
            final(self).frame.wf(),
            final(self).pipelines == old(self).pipelines,
            final(self).queued_buffer_builder == old(self).queued_buffer_builder,
            recompile_pipelines ==> r.1@ == reload_prefix(pipeline_names(old(self).pipelines@), configs@, configs@.len() as int).1,
            !recompile_pipelines ==> r.1@.len() == 0,
    {
        let retired = self.frame.recreate(swapchain);
        let steps = if recompile_pipelines { self.reload_plan(configs) } else { Vec::new() };
        (retired, steps)
    }
}

impl BufferBuilder {
    /// Hands the builder over to the renderer, behind the builders already
    /// queued for this frame.
    pub fn build(self, renderer: &mut GameRenderer)
        ensures
            final(renderer).queued_buffer_builder@ == old(renderer).queued_buffer_builder@.push(self),
            final(renderer).pipelines == old(renderer).pipelines,
            final(renderer).frame == old(renderer).frame,
    {
        renderer.queued_buffer_builder.push(self);
    }
}

impl DescriptorSet {
    /// What allocating set `set_index` of the pipeline named `pipeline`
    /// takes. Fails with `PipelineNotFound` when no pipeline has that name,
    /// and with the pipeline's error when it is not compiled or has no such
    /// set.
    pub fn allocate(renderer: &GameRenderer, pipeline: &str, set_index: usize) -> (r: Result<DescriptorSetRequest, RenderError>)
        ensures
            ({
                let j = first_named(pipeline_names(renderer.pipelines@), pipeline@);
                let p = renderer.pipelines@[j];
                &&& j < 0 ==> r == Err::<DescriptorSetRequest, RenderError>(RenderError::PipelineNotFound)
                &&& j >= 0 && p.vulkan_pipeline is None ==> r == Err::<DescriptorSetRequest, RenderError>(
                    RenderError::Pipeline(PipelineError::NotCompiled))
                &&& j >= 0 && p.vulkan_pipeline is Some ==> {
                    let in_range = set_index < p.vulkan_pipeline->0.set_layouts@.len()
                        && set_index < p.binding_layout.set_count;
                    &&& !in_range ==> r == Err::<DescriptorSetRequest, RenderError>(
                        RenderError::Pipeline(PipelineError::InvalidSetIndex))
                    &&& in_range ==> r is Ok && r->Ok_0.layout == p.vulkan_pipeline->0.set_layouts@[set_index as int]
                        && r->Ok_0.bindings@ == p.binding_layout.spec_group(set_index as int)
                }
            }),
    {
        let found = match renderer.find_pipeline(pipeline) {
            Some(p) => p,
            None => return Err(RenderError::PipelineNotFound),
        };
        match found.descriptor_group(set_index) {
            Ok((layout, bindings)) => Ok(DescriptorSetRequest { layout, bindings }),
            Err(e) => Err(RenderError::Pipeline(e)),
        }
    }

    /// The descriptor set allocated for `request`, with handle `raw`.
    pub fn new(request: DescriptorSetRequest, raw: u64) -> (r: DescriptorSet)
        ensures
            r.vk_descriptor_set == raw,
            r.binding_types == request.bindings,
    {
        DescriptorSet { vk_descriptor_set: raw, binding_types: request.bindings }
    }

    /// The descriptor type of binding `binding` of the set, to write a
    /// resource into it; `None` when the set has no such binding.
    pub fn binding_type(&self, binding: u32) -> (r: Option<DescriptorType>)
        ensures
            r is None ==> forall|i: int| 0 <= i < self.binding_types@.len()
                ==> (#[trigger] self.binding_types@[i]).binding != binding,
            r is Some ==> exists|i: int| 0 <= i < self.binding_types@.len()
                && (#[trigger] self.binding_types@[i]).binding == binding
                && self.binding_types@[i].descriptor_type == r->0,
    {
        let mut i: usize = 0;
        while i < self.binding_types.len()
            invariant
                i <= self.binding_types@.len(),
                forall|k: int| 0 <= k < i ==> (#[trigger] self.binding_types@[k]).binding != binding,
            decreases self.binding_types@.len() - i,
        {
            if self.binding_types[i].binding == binding {
                return Some(self.binding_types[i].descriptor_type);
            }
            i = i + 1;
        }
        None
    }
}

} // verus!
