//! Resource binding layouts: the descriptor bindings that reflection finds in
//! each shader stage, merged into one layout per pipeline, grouped by
//! descriptor set.
use vstd::prelude::*;

verus! {

/// A shader stage that a pipeline is built from.
#[derive(Clone, Copy, PartialEq, Eq, Structural, Debug, Hash)]
pub enum ShaderStage {
    Vertex,
    Fragment,
}

/// The set of shader stages a binding is visible to.
#[derive(Clone, Copy, PartialEq, Eq, Structural, Debug, Hash)]
pub struct StageFlags {
    pub vertex: bool,
    pub fragment: bool,
}

impl StageFlags {
    /// The flags of a single stage.
    pub open spec fn spec_of(stage: ShaderStage) -> StageFlags {
        StageFlags { vertex: stage == ShaderStage::Vertex, fragment: stage == ShaderStage::Fragment }
    }

    /// The stages of both flag sets.
    pub open spec fn spec_union(self, other: StageFlags) -> StageFlags {
        StageFlags { vertex: self.vertex || other.vertex, fragment: self.fragment || other.fragment }
    }

    /// The flags of a single stage.
    pub fn of(stage: ShaderStage) -> (r: StageFlags)
        ensures
            r == Self::spec_of(stage),
    {
        StageFlags {
            vertex: matches!(stage, ShaderStage::Vertex),
            fragment: matches!(stage, ShaderStage::Fragment),
        }
    }

    /// The stages of both flag sets.
    pub fn union(&self, other: &StageFlags) -> (r: StageFlags)
        ensures
            r == self.spec_union(*other),
    {
        StageFlags { vertex: self.vertex || other.vertex, fragment: self.fragment || other.fragment }
    }
}

/// A descriptor kind in the reflection vocabulary.
#[derive(Clone, Copy, PartialEq, Eq, Structural, Debug, Hash)]
pub enum ReflectedDescriptorKind {
    Undefined,
    Sampler,
    CombinedImageSampler,
    SampledImage,
    StorageImage,
    UniformTexelBuffer,
    StorageTexelBuffer,
    UniformBuffer,
    StorageBuffer,
    UniformBufferDynamic,
    StorageBufferDynamic,
    InputAttachment,
    AccelerationStructure,
}

/// A descriptor type in the binding vocabulary of the graphics API.
#[derive(Clone, Copy, PartialEq, Eq, Structural, Debug, Hash)]
pub enum DescriptorType {
    Sampler,
    CombinedImageSampler,
    SampledImage,
    StorageImage,
    UniformTexelBuffer,
    StorageTexelBuffer,
    UniformBuffer,
    StorageBuffer,
    UniformBufferDynamic,
    StorageBufferDynamic,
    InputAttachment,
    AccelerationStructure,
}

impl ReflectedDescriptorKind {
    /// The binding-vocabulary type of this kind; an undefined kind has none.
    pub open spec fn spec_descriptor_type(self) -> Option<DescriptorType> {
        match self {
            ReflectedDescriptorKind::Undefined => None,
            ReflectedDescriptorKind::Sampler => Some(DescriptorType::Sampler),
            ReflectedDescriptorKind::CombinedImageSampler => Some(DescriptorType::CombinedImageSampler),
            ReflectedDescriptorKind::SampledImage => Some(DescriptorType::SampledImage),
            ReflectedDescriptorKind::StorageImage => Some(DescriptorType::StorageImage),
            ReflectedDescriptorKind::UniformTexelBuffer => Some(DescriptorType::UniformTexelBuffer),
            ReflectedDescriptorKind::StorageTexelBuffer => Some(DescriptorType::StorageTexelBuffer),
            ReflectedDescriptorKind::UniformBuffer => Some(DescriptorType::UniformBuffer),
            ReflectedDescriptorKind::StorageBuffer => Some(DescriptorType::StorageBuffer),
            ReflectedDescriptorKind::UniformBufferDynamic => Some(DescriptorType::UniformBufferDynamic),
            ReflectedDescriptorKind::StorageBufferDynamic => Some(DescriptorType::StorageBufferDynamic),
            ReflectedDescriptorKind::InputAttachment => Some(DescriptorType::InputAttachment),
            ReflectedDescriptorKind::AccelerationStructure => Some(DescriptorType::AccelerationStructure),
        }
    }

    /// The binding-vocabulary type of this kind, or `None` for the undefined
    /// kind, which no layout can hold.
    pub fn descriptor_type(&self) -> (r: Option<DescriptorType>)
        ensures
            r == self.spec_descriptor_type(),
    {
        match self {
            ReflectedDescriptorKind::Undefined => None,
            ReflectedDescriptorKind::Sampler => Some(DescriptorType::Sampler),
            ReflectedDescriptorKind::CombinedImageSampler => Some(DescriptorType::CombinedImageSampler),
            ReflectedDescriptorKind::SampledImage => Some(DescriptorType::SampledImage),
            ReflectedDescriptorKind::StorageImage => Some(DescriptorType::StorageImage),
            ReflectedDescriptorKind::UniformTexelBuffer => Some(DescriptorType::UniformTexelBuffer),
            ReflectedDescriptorKind::StorageTexelBuffer => Some(DescriptorType::StorageTexelBuffer),
            ReflectedDescriptorKind::UniformBuffer => Some(DescriptorType::UniformBuffer),
            ReflectedDescriptorKind::StorageBuffer => Some(DescriptorType::StorageBuffer),
            ReflectedDescriptorKind::UniformBufferDynamic => Some(DescriptorType::UniformBufferDynamic),
            ReflectedDescriptorKind::StorageBufferDynamic => Some(DescriptorType::StorageBufferDynamic),
            ReflectedDescriptorKind::InputAttachment => Some(DescriptorType::InputAttachment),
            ReflectedDescriptorKind::AccelerationStructure => Some(DescriptorType::AccelerationStructure),
        }
    }
}

impl DescriptorType {
    /// The graphics API's code for this descriptor type.
    pub open spec fn spec_vulkan_code(self) -> i32 {
        match self {
            DescriptorType::Sampler => 0,
            DescriptorType::CombinedImageSampler => 1,
            DescriptorType::SampledImage => 2,
            DescriptorType::StorageImage => 3,
            DescriptorType::UniformTexelBuffer => 4,
            DescriptorType::StorageTexelBuffer => 5,
            DescriptorType::UniformBuffer => 6,
            DescriptorType::StorageBuffer => 7,
            DescriptorType::UniformBufferDynamic => 8,
            DescriptorType::StorageBufferDynamic => 9,
            DescriptorType::InputAttachment => 10,
            DescriptorType::AccelerationStructure => 1000165000,
        }
    }

    /// The graphics API's code for this descriptor type.
    pub fn vulkan_code(&self) -> (r: i32)
        ensures
            r == self.spec_vulkan_code(),
    {
        match self {
            DescriptorType::Sampler => 0,
            DescriptorType::CombinedImageSampler => 1,
            DescriptorType::SampledImage => 2,
            DescriptorType::StorageImage => 3,
            DescriptorType::UniformTexelBuffer => 4,
            DescriptorType::StorageTexelBuffer => 5,
            DescriptorType::UniformBuffer => 6,
            DescriptorType::StorageBuffer => 7,
            DescriptorType::UniformBufferDynamic => 8,
            DescriptorType::StorageBufferDynamic => 9,
            DescriptorType::InputAttachment => 10,
            DescriptorType::AccelerationStructure => 1000165000,
        }
    }
}

/// One descriptor binding of a shader, as reflection reports it.
#[derive(Clone, Copy, PartialEq, Eq, Structural, Debug, Hash)]
pub struct ReflectedBinding {
    /// The descriptor set the binding belongs to.
    pub set: u32,
    /// The binding index inside that set.
    pub binding: u32,
    pub kind: ReflectedDescriptorKind,
    /// Array size of the binding.
    pub count: u32,
}

/// One binding of a merged resource binding layout.
#[derive(Clone, Copy, PartialEq, Eq, Structural, Debug, Hash)]
pub struct LayoutBinding {
    pub set: u32,
    pub binding: u32,
    pub descriptor_type: DescriptorType,
    pub count: u32,
    /// The stages that use the binding.
    pub stages: StageFlags,
}

/// A resource binding layout: one descriptor set per set number from 0 to
/// `set_count - 1`, in ascending order, so that a set's position in the
/// pipeline layout is its set number; a number no shader uses gets an empty
/// set. `bindings` holds each (set, binding) pair once.
#[derive(Clone, Debug)]
pub struct BindingLayout {
    pub set_count: u64,
    pub bindings: Vec<LayoutBinding>,
}

/// Why a resource binding layout could not be built.
#[derive(Clone, Copy, PartialEq, Eq, Structural, Debug)]
pub enum LayoutError {
    /// A shader uses a descriptor kind that no layout can hold; the
    /// binding is reported.
    UnsupportedDescriptorKind { set: u32, binding: u32 },
}

/// Index of the binding of `bs` with the given set and binding numbers, or -1.
pub open spec fn find_binding(bs: Seq<LayoutBinding>, set: u32, binding: u32) -> int
    decreases bs.len(),
{
    if bs.len() == 0 {
        -1
    } else if bs.last().set == set && bs.last().binding == binding {
        bs.len() - 1
    } else {
        find_binding(bs.drop_last(), set, binding)
    }
}

/// The layout after adding binding `b`: a (set, binding) pair already present
/// gains `b`'s stages, a new one is appended, and the set count grows to
/// cover `b`'s set number.
pub open spec fn add_binding(count: nat, bs: Seq<LayoutBinding>, b: LayoutBinding) -> (nat, Seq<LayoutBinding>) {
    let count2 = if b.set + 1 > count { (b.set + 1) as nat } else { count };
    let j = find_binding(bs, b.set, b.binding);
    let bs2 = if j >= 0 {
        bs.update(j, LayoutBinding { stages: bs[j].stages.spec_union(b.stages), ..bs[j] })
    } else {
        bs.push(b)
    };
    (count2, bs2)
}

/// The layout binding a reflected binding of `stage` contributes.
pub open spec fn contribution(r: ReflectedBinding, stage: ShaderStage) -> LayoutBinding {
    LayoutBinding {
        set: r.set,
        binding: r.binding,
        descriptor_type: r.kind.spec_descriptor_type().unwrap(),
        count: r.count,
        stages: StageFlags::spec_of(stage),
    }
}

/// The layout `(count, bs)` after adding the first `n` reflected bindings of
/// a shader of `stage`, one after another.
pub open spec fn merge_prefix(count: nat, bs: Seq<LayoutBinding>, stage: ShaderStage, rs: Seq<ReflectedBinding>, n: int) -> (nat, Seq<LayoutBinding>)
    decreases n,
{
    if n <= 0 || n > rs.len() {
        (count, bs)
    } else {
        let prev = merge_prefix(count, bs, stage, rs, n - 1);
        add_binding(prev.0, prev.1, contribution(rs[n - 1], stage))
    }
}

/// Every reflected binding has a kind that a layout can hold.
pub open spec fn all_supported(rs: Seq<ReflectedBinding>) -> bool {
    forall|i: int| 0 <= i < rs.len() ==> (#[trigger] rs[i]).kind.spec_descriptor_type().is_some()
}

/// The most descriptor sets a layout can count: one past the largest set
/// number.
pub const MAX_SET_COUNT: u64 = 0x1_0000_0000;

/// Each (set, binding) pair appears once and every binding's set number is
/// below the set count.
pub open spec fn layout_wf(count: nat, bs: Seq<LayoutBinding>) -> bool {
    &&& count <= MAX_SET_COUNT
    &&& forall|i: int, j: int| 0 <= i < j < bs.len() ==>
        !(#[trigger] bs[i].set == #[trigger] bs[j].set && bs[i].binding == bs[j].binding)
    &&& forall|i: int| 0 <= i < bs.len() ==> (#[trigger] bs[i].set) < count
}

proof fn lemma_find_binding(bs: Seq<LayoutBinding>, set: u32, binding: u32)
    ensures
        -1 <= find_binding(bs, set, binding) < bs.len(),
        find_binding(bs, set, binding) >= 0 ==> bs[find_binding(bs, set, binding)].set == set
            && bs[find_binding(bs, set, binding)].binding == binding,
        find_binding(bs, set, binding) < 0 ==> forall|i: int| 0 <= i < bs.len() ==>
            !(#[trigger] bs[i].set == set && bs[i].binding == binding),
    decreases bs.len(),
{
    if bs.len() > 0 {
        lemma_find_binding(bs.drop_last(), set, binding);
        assert forall|i: int| 0 <= i < bs.len() - 1 implies #[trigger] bs[i] == bs.drop_last()[i] by {}
    }
}

proof fn lemma_add_binding_wf(count: nat, bs: Seq<LayoutBinding>, b: LayoutBinding)
    requires
        layout_wf(count, bs),
    ensures
        layout_wf(add_binding(count, bs, b).0, add_binding(count, bs, b).1),
        b.set < add_binding(count, bs, b).0,
        count <= add_binding(count, bs, b).0,
{
    lemma_find_binding(bs, b.set, b.binding);
}

impl BindingLayout {
    /// The layout as its set count and binding list.
    pub open spec fn spec_pair(&self) -> (nat, Seq<LayoutBinding>) {
        (self.set_count as nat, self.bindings@)
    }

    /// Each (set, binding) pair appears once and every binding's set number
    /// is below the set count.
    pub open spec fn wf(&self) -> bool {
        layout_wf(self.set_count as nat, self.bindings@)
    }

    /// An empty layout.
    pub fn new() -> (r: BindingLayout)
        ensures
            r.set_count == 0,
            r.bindings@.len() == 0,
            r.wf(),
    {
        BindingLayout { set_count: 0, bindings: Vec::new() }
    }

    /// Position of the binding with the given set and binding numbers.
    fn binding_position(&self, set: u32, binding: u32) -> (r: Option<usize>)
        ensures
            r is Some <==> find_binding(self.bindings@, set, binding) >= 0,
            r is Some ==> r->0 == find_binding(self.bindings@, set, binding),
    {
        let mut i: usize = self.bindings.len();
        assert(self.bindings@.subrange(0, i as int) == self.bindings@);
        while i > 0
            invariant
                i <= self.bindings@.len(),
                find_binding(self.bindings@, set, binding) == find_binding(self.bindings@.subrange(0, i as int), set, binding),
            decreases i,
        {
            let b = self.bindings[i - 1];
            if b.set == set && b.binding == binding {
                return Some(i - 1);
            }
            assert(self.bindings@.subrange(0, i as int).drop_last() == self.bindings@.subrange(0, i - 1));
            i = i - 1;
        }
        None
    }

    /// Adds one layout binding: a (set, binding) pair already present gains
    /// the new binding's stages, a new one is appended.
    fn add(&mut self, b: LayoutBinding)
        ensures
            final(self).spec_pair() == add_binding(old(self).set_count as nat, old(self).bindings@, b),
    {
        let needed = b.set as u64 + 1;
        if needed > self.set_count {
            self.set_count = needed;
        }
        proof {
            lemma_find_binding(self.bindings@, b.set, b.binding);
        }
        match self.binding_position(b.set, b.binding) {
            Some(j) => {
                let existing = self.bindings[j];
                let merged = LayoutBinding { stages: existing.stages.union(&b.stages), ..existing };
                self.bindings.set(j, merged);
            },
            None => {
                self.bindings.push(b);
            },
        }
    }

    /// This layout with the reflected bindings of a shader of `stage` merged
    /// in, in order: bindings that share a set and binding number with one
    /// already present add their stage to it, others are appended, and the
    /// set count grows to cover every set number. Fails, naming the first
    /// such binding, when a binding has a kind that no layout can hold.
    pub fn merged_with(&self, stage: ShaderStage, reflected: &Vec<ReflectedBinding>) -> (r: Result<BindingLayout, LayoutError>)
        requires
            self.wf(),
        ensures
            r is Ok <==> all_supported(reflected@),
            r is Ok ==> r->Ok_0.spec_pair()
                == merge_prefix(self.set_count as nat, self.bindings@, stage, reflected@, reflected@.len() as int),
            r is Ok ==> r->Ok_0.wf(),
            r matches Err(LayoutError::UnsupportedDescriptorKind { set, binding }) ==> exists|i: int|
                0 <= i < reflected@.len() && reflected@[i].set == set && reflected@[i].binding == binding
                && reflected@[i].kind == ReflectedDescriptorKind::Undefined,
    {
        let mut i: usize = 0;
        while i < reflected.len()
            invariant
                i <= reflected@.len(),
                forall|k: int| 0 <= k < i ==> (#[trigger] reflected@[k]).kind.spec_descriptor_type().is_some(),
            decreases reflected@.len() - i,
        {
            let r = reflected[i];
            if r.kind.descriptor_type().is_none() {
                return Err(LayoutError::UnsupportedDescriptorKind { set: r.set, binding: r.binding });
            }
            i = i + 1;
        }
        let mut out = BindingLayout { set_count: self.set_count, bindings: self.bindings.clone() };
        assert(out.bindings@ =~= self.bindings@);
        let mut i: usize = 0;
        while i < reflected.len()
            invariant
                i <= reflected@.len(),
                all_supported(reflected@),
                self.wf(),
                out.spec_pair() == merge_prefix(self.set_count as nat, self.bindings@, stage, reflected@, i as int),
                out.wf(),
            decreases reflected@.len() - i,
        {
            let r = reflected[i];
            let descriptor_type = match r.kind.descriptor_type() {
                Some(t) => t,
                None => {
                    assert(reflected@[i as int].kind.spec_descriptor_type().is_some());
                    return Err(LayoutError::UnsupportedDescriptorKind { set: r.set, binding: r.binding });
                },
            };
            let b = LayoutBinding {
                set: r.set,
                binding: r.binding,
                descriptor_type,
                count: r.count,
                stages: StageFlags::of(stage),
            };
            proof {
                lemma_add_binding_wf(out.set_count as nat, out.bindings@, b);
            }
            out.add(b);
            i = i + 1;
        }
        Ok(out)
    }

    /// The bindings of descriptor set number `set`, in layout order.
    pub open spec fn spec_group(&self, set: int) -> Seq<LayoutBinding> {
        self.bindings@.filter(|b: LayoutBinding| b.set == set)
    }

    /// The bindings of descriptor set number `set` (empty for a set no
    /// shader uses).
    pub fn group(&self, set: u64) -> (r: Vec<LayoutBinding>)
        ensures
            r@ == self.spec_group(set as int),
    {
        let mut r: Vec<LayoutBinding> = Vec::new();
        let mut i: usize = 0;
        while i < self.bindings.len()
            invariant
                i <= self.bindings@.len(),
                r@ == self.bindings@.subrange(0, i as int).filter(|b: LayoutBinding| b.set == set as int),
            decreases self.bindings@.len() - i,
        {
            let b = self.bindings[i];
            proof {
                let pred = |b: LayoutBinding| b.set == set as int;
                assert(self.bindings@.subrange(0, i + 1) == self.bindings@.subrange(0, i as int).push(b));
                self.bindings@.subrange(0, i as int).lemma_filter_push(b, pred);
            }
            if b.set as u64 == set {
                r.push(b);
            }
            i = i + 1;
        }
        assert(self.bindings@.subrange(0, self.bindings@.len() as int) == self.bindings@);
        r
    }

    /// Number of descriptor sets the layout describes: one past the largest
    /// set number used.
    pub fn set_count(&self) -> (r: u64)
        ensures
            r == self.set_count,
    {
        self.set_count
    }
}

/// Some binding of `bs` has set number `set` and binding number `binding`.
pub open spec fn has_pair(bs: Seq<LayoutBinding>, set: u32, binding: u32) -> bool {
    exists|j: int| 0 <= j < bs.len() && (#[trigger] bs[j]).set == set && bs[j].binding == binding
}

/// Descriptor sets are ordered by set number: after merging, every set
/// number a shader reflected has its own position, equal to that number,
/// below the set count, and each (set, binding) pair appears once.
pub proof fn lemma_merge_orders_sets_by_number(layout: BindingLayout, stage: ShaderStage, rs: Seq<ReflectedBinding>)
    requires
        layout.wf(),
        all_supported(rs),
    ensures
        ({
            let (count, bs) = merge_prefix(layout.set_count as nat, layout.bindings@, stage, rs, rs.len() as int);
            &&& layout_wf(count, bs)
            &&& forall|i: int| 0 <= i < rs.len() ==> (#[trigger] rs[i]).set < count
            &&& forall|i: int| 0 <= i < rs.len() ==> has_pair(bs, (#[trigger] rs[i]).set, rs[i].binding)
        }),
{
    lemma_merge_prefix_covers(layout.set_count as nat, layout.bindings@, stage, rs, rs.len() as int);
}

proof fn lemma_merge_prefix_covers(count: nat, bs: Seq<LayoutBinding>, stage: ShaderStage, rs: Seq<ReflectedBinding>, n: int)
    requires
        layout_wf(count, bs),
        0 <= n <= rs.len(),
    ensures
        ({
            let (c2, bs2) = merge_prefix(count, bs, stage, rs, n);
            &&& layout_wf(c2, bs2)
            &&& count <= c2
            &&& forall|i: int| 0 <= i < n ==> (#[trigger] rs[i]).set < c2
            &&& forall|i: int| 0 <= i < n ==> has_pair(bs2, (#[trigger] rs[i]).set, rs[i].binding)
        }),
    decreases n,
{
    if n > 0 {
        lemma_merge_prefix_covers(count, bs, stage, rs, n - 1);
        let (c1, bs1) = merge_prefix(count, bs, stage, rs, n - 1);
        let b = contribution(rs[n - 1], stage);
        lemma_add_binding_wf(c1, bs1, b);
        lemma_find_binding(bs1, b.set, b.binding);
        let (c2, bs2) = add_binding(c1, bs1, b);
        let jb = find_binding(bs1, b.set, b.binding);
        assert forall|i: int| 0 <= i < n implies has_pair(bs2, (#[trigger] rs[i]).set, rs[i].binding) by {
            if i == n - 1 {
                if jb >= 0 {
                    assert(bs2[jb].set == rs[i].set && bs2[jb].binding == rs[i].binding);
                } else {
                    assert(bs2[bs1.len() as int] == b);
                }
            } else {
                let j = choose|j: int| 0 <= j < bs1.len() && (#[trigger] bs1[j]).set == rs[i].set
                    && bs1[j].binding == rs[i].binding;
                assert(bs2[j].set == bs1[j].set && bs2[j].binding == bs1[j].binding);
            }
        }
    }
}

} // verus!
