//! Vertex input layouts derived from the input variables that reflection
//! finds in a compiled vertex shader.
use vstd::prelude::*;
use vstd::seq_lib::to_multiset_insert;

verus! {

/// The scalar format of a reflected shader input, in the reflection
/// vocabulary.
#[derive(Clone, Copy, PartialEq, Eq, Structural, Debug, Hash)]
pub enum InputFormat {
    Undefined,
    R32Uint,
    R32Sint,
    R32Sfloat,
    R32G32Uint,
    R32G32Sint,
    R32G32Sfloat,
    R32G32B32Uint,
    R32G32B32Sint,
    R32G32B32Sfloat,
    R32G32B32A32Uint,
    R32G32B32A32Sint,
    R32G32B32A32Sfloat,
}

impl InputFormat {
    /// Byte size of one value of this format; an undefined format takes no
    /// space.
    pub open spec fn spec_size(self) -> nat {
        match self {
            InputFormat::Undefined => 0,
            InputFormat::R32Uint | InputFormat::R32Sint | InputFormat::R32Sfloat => 4,
            InputFormat::R32G32Uint | InputFormat::R32G32Sint | InputFormat::R32G32Sfloat => 8,
            InputFormat::R32G32B32Uint | InputFormat::R32G32B32Sint
            | InputFormat::R32G32B32Sfloat => 12,
            InputFormat::R32G32B32A32Uint | InputFormat::R32G32B32A32Sint
            | InputFormat::R32G32B32A32Sfloat => 16,
        }
    }

    /// The graphics API's format code that vertex attributes of this format
    /// are declared with.
    pub open spec fn spec_vulkan_format(self) -> i32 {
        match self {
            InputFormat::Undefined => 0,
            InputFormat::R32Uint => 98,
            InputFormat::R32Sint => 99,
            InputFormat::R32Sfloat => 100,
            InputFormat::R32G32Uint => 101,
            InputFormat::R32G32Sint => 102,
            InputFormat::R32G32Sfloat => 103,
            InputFormat::R32G32B32Uint => 104,
            InputFormat::R32G32B32Sint => 105,
            InputFormat::R32G32B32Sfloat => 106,
            InputFormat::R32G32B32A32Uint => 107,
            InputFormat::R32G32B32A32Sint => 108,
            InputFormat::R32G32B32A32Sfloat => 109,
        }
    }

    /// Byte size of one value of this format (0 for an undefined format).
    pub fn size(&self) -> (r: u32)
        ensures
            r == self.spec_size(),
    {
        match self {
            InputFormat::Undefined => 0,
            InputFormat::R32Uint | InputFormat::R32Sint | InputFormat::R32Sfloat => 4,
            InputFormat::R32G32Uint | InputFormat::R32G32Sint | InputFormat::R32G32Sfloat => 8,
            InputFormat::R32G32B32Uint | InputFormat::R32G32B32Sint
            | InputFormat::R32G32B32Sfloat => 12,
            InputFormat::R32G32B32A32Uint | InputFormat::R32G32B32A32Sint
            | InputFormat::R32G32B32A32Sfloat => 16,
        }
    }

    /// The graphics API's format code for this format.
    pub fn vulkan_format(&self) -> (r: i32)
        ensures
            r == self.spec_vulkan_format(),
    {
        match self {
            InputFormat::Undefined => 0,
            InputFormat::R32Uint => 98,
            InputFormat::R32Sint => 99,
            InputFormat::R32Sfloat => 100,
            InputFormat::R32G32Uint => 101,
            InputFormat::R32G32Sint => 102,
            InputFormat::R32G32Sfloat => 103,
            InputFormat::R32G32B32Uint => 104,
            InputFormat::R32G32B32Sint => 105,
            InputFormat::R32G32B32Sfloat => 106,
            InputFormat::R32G32B32A32Uint => 107,
            InputFormat::R32G32B32A32Sint => 108,
            InputFormat::R32G32B32A32Sfloat => 109,
        }
    }
}

/// One input variable of a vertex shader, as reflection reports it.
#[derive(Clone, Copy, PartialEq, Eq, Structural, Debug, Hash)]
pub struct ReflectedInput {
    pub location: u32,
    pub format: InputFormat,
}

/// One attribute of a vertex input layout.
#[derive(Clone, Copy, PartialEq, Eq, Structural, Debug, Hash)]
pub struct VertexAttribute {
    pub location: u32,
    pub format: InputFormat,
    /// Byte offset of the attribute inside one vertex.
    pub offset: u32,
}

impl VertexAttribute {
    /// The reflected input this attribute was laid out from.
    pub open spec fn input(self) -> ReflectedInput {
        ReflectedInput { location: self.location, format: self.format }
    }
}

/// A vertex input layout: the attributes in ascending location order and the
/// byte stride of one vertex.
#[derive(Clone, Debug)]
pub struct VertexLayout {
    pub attributes: Vec<VertexAttribute>,
    pub stride: u32,
}

/// The most inputs a layout is computed for; their offsets then fit in 32 bits.
pub const MAX_VERTEX_INPUTS: usize = 0x0fff_ffff;

/// Inputs appear in ascending location order.
pub open spec fn sorted_by_location(s: Seq<ReflectedInput>) -> bool {
    forall|i: int, j: int| 0 <= i < j < s.len() ==> s[i].location <= s[j].location
}

/// The total byte size of the first `n` inputs of `s`.
pub open spec fn span(s: Seq<ReflectedInput>, n: int) -> nat
    decreases n,
{
    if n <= 0 || n > s.len() {
        0
    } else {
        span(s, n - 1) + s[n - 1].format.spec_size()
    }
}

/// The inputs that the attributes of a layout were laid out from, in order.
pub open spec fn inputs_of(attributes: Seq<VertexAttribute>) -> Seq<ReflectedInput> {
    attributes.map_values(|a: VertexAttribute| a.input())
}

/// The attributes and stride describe `inputs` packed back to back in
/// `inputs`'s own order.
pub open spec fn packs(attributes: Seq<VertexAttribute>, stride: nat, inputs: Seq<ReflectedInput>) -> bool {
    &&& inputs_of(attributes) == inputs
    &&& forall|i: int| 0 <= i < attributes.len() ==> #[trigger] attributes[i].offset == span(inputs, i)
    &&& stride == span(inputs, inputs.len() as int)
}

impl VertexLayout {
    /// `self` is the layout derived from the reflected `inputs`: its attributes
    /// are those inputs in ascending location order, packed back to back.
    pub open spec fn derived_from(&self, inputs: Seq<ReflectedInput>) -> bool {
        let ordered = inputs_of(self.attributes@);
        &&& sorted_by_location(ordered)
        &&& ordered.to_multiset() == inputs.to_multiset()
        &&& packs(self.attributes@, self.stride as nat, ordered)
    }
}

proof fn lemma_span_bound(s: Seq<ReflectedInput>, n: int)
    ensures
        span(s, n) <= 16 * (if n < 0 { 0 } else { n }),
    decreases n,
{
    if n > 0 && n <= s.len() {
        lemma_span_bound(s, n - 1);
    }
}

/// Orders the inputs by ascending location (an insertion sort that keeps
/// inputs of equal location in their reflected order).
pub fn sort_by_location(inputs: &Vec<ReflectedInput>) -> (r: Vec<ReflectedInput>)
    ensures
        sorted_by_location(r@),
        r@.to_multiset() == inputs@.to_multiset(),
{
    let mut r: Vec<ReflectedInput> = Vec::new();
    let mut i: usize = 0;
    assert(r@ =~= inputs@.subrange(0, 0));
    while i < inputs.len()
        invariant
            i <= inputs@.len(),
            sorted_by_location(r@),
            r@.to_multiset() == inputs@.subrange(0, i as int).to_multiset(),
        decreases inputs@.len() - i,
    {
        let x = inputs[i];
        let mut p: usize = r.len();
        while p > 0 && r[p - 1].location > x.location
            invariant
                p <= r@.len(),
                forall|k: int| p <= k < r@.len() ==> r@[k].location > x.location,
            decreases p,
        {
            p = p - 1;
        }
        proof {
            to_multiset_insert(r@, p as int, x);
            assert(inputs@.subrange(0, i + 1) == inputs@.subrange(0, i as int).push(x));
            vstd::seq_lib::to_multiset_build(inputs@.subrange(0, i as int), x);
        }
        let ghost before = r@;
        r.insert(p, x);
        assert forall|a: int, b: int| 0 <= a < b < r@.len() implies r@[a].location <= r@[b].location by {
            if b < p {
            } else if b == p {
                assert(r@[a] == before[a]);
                if p > 0 {
                    assert(before[p - 1].location <= x.location);
                    assert(before[a].location <= before[p - 1].location);
                }
            } else if a < p {
                assert(r@[b] == before[b - 1]);
            } else if a == p {
                assert(r@[b] == before[b - 1]);
            } else {
                assert(r@[a] == before[a - 1]);
                assert(r@[b] == before[b - 1]);
            }
        }
        i = i + 1;
    }
    assert(inputs@.subrange(0, inputs@.len() as int) == inputs@);
    r
}

/// Lays the inputs out back to back in the order given: each attribute's
/// offset is the total size of the inputs before it, and the stride is the
/// total size of all of them.
pub fn pack_inputs(inputs: &Vec<ReflectedInput>) -> (r: VertexLayout)
    requires
        inputs@.len() <= MAX_VERTEX_INPUTS,
    ensures
        packs(r.attributes@, r.stride as nat, inputs@),
{
    let mut attributes: Vec<VertexAttribute> = Vec::new();
    let mut offset: u32 = 0;
    let mut i: usize = 0;
    while i < inputs.len()
        invariant
            i <= inputs@.len() <= MAX_VERTEX_INPUTS,
            attributes@.len() == i,
            offset == span(inputs@, i as int),
            forall|k: int| 0 <= k < i ==> #[trigger] attributes@[k].input() == inputs@[k],
            forall|k: int| 0 <= k < i ==> #[trigger] attributes@[k].offset == span(inputs@, k),
        decreases inputs@.len() - i,
    {
        let input = inputs[i];
        attributes.push(VertexAttribute { location: input.location, format: input.format, offset });
        proof {
            lemma_span_bound(inputs@, i + 1);
            assert(span(inputs@, i + 1) == offset + input.format.spec_size());
        }
        offset = offset + input.format.size();
        i = i + 1;
    }
    assert(inputs_of(attributes@) =~= inputs@);
    VertexLayout { attributes, stride: offset }
}

/// The vertex input layout of a vertex shader whose reflected inputs are
/// `inputs`: the inputs sorted by location, each placed right after the
/// previous one, with the stride covering them all.
pub fn vertex_layout(inputs: &Vec<ReflectedInput>) -> (r: VertexLayout)
    requires
        inputs@.len() <= MAX_VERTEX_INPUTS,
    ensures
        r.derived_from(inputs@),
        r.attributes@.len() == inputs@.len(),
{
    let sorted = sort_by_location(inputs);
    proof {
        vstd::seq_lib::to_multiset_len(sorted@);
        vstd::seq_lib::to_multiset_len(inputs@);
    }
    pack_inputs(&sorted)
}

/// A derived vertex layout has one attribute per reflected input. Its first
/// attribute starts at offset 0, each following attribute starts where the
/// previous one ends, and the last one ends at the stride. When no input has
/// an undefined format the offsets strictly increase.
pub proof fn lemma_layout_is_packed(layout: VertexLayout, inputs: Seq<ReflectedInput>)
    requires
        layout.derived_from(inputs),
    ensures
        layout.attributes@.len() == inputs.len(),
        layout.attributes@.len() > 0 ==> layout.attributes@[0].offset == 0,
        forall|i: int| 0 <= i < layout.attributes@.len() - 1 ==>
            #[trigger] layout.attributes@[i + 1].offset
                == layout.attributes@[i].offset + layout.attributes@[i].format.spec_size(),
        layout.attributes@.len() > 0 ==> layout.stride == layout.attributes@.last().offset
            + layout.attributes@.last().format.spec_size(),
        layout.attributes@.len() == 0 ==> layout.stride == 0,
        (forall|k: int| 0 <= k < inputs.len() ==> #[trigger] inputs[k].format != InputFormat::Undefined)
            ==> forall|i: int, j: int| 0 <= i < j < layout.attributes@.len()
                ==> layout.attributes@[i].offset < layout.attributes@[j].offset,
{
    let attrs = layout.attributes@;
    let ordered = inputs_of(attrs);
    vstd::seq_lib::to_multiset_len(ordered);
    vstd::seq_lib::to_multiset_len(inputs);
    assert forall|i: int| 0 <= i < attrs.len() - 1 implies #[trigger] attrs[i + 1].offset
        == attrs[i].offset + attrs[i].format.spec_size() by {
        assert(ordered[i] == attrs[i].input());
    }
    if attrs.len() > 0 {
        assert(ordered[attrs.len() - 1] == attrs[attrs.len() - 1].input());
    }
    if forall|k: int| 0 <= k < inputs.len() ==> #[trigger] inputs[k].format != InputFormat::Undefined {
        assert forall|k: int| 0 <= k < attrs.len() implies #[trigger] attrs[k].format.spec_size() > 0 by {
            assert(ordered[k] == attrs[k].input());
            assert(inputs.to_multiset().count(ordered[k]) > 0) by {
                vstd::seq_lib::to_multiset_contains(ordered, ordered[k]);
            }
            vstd::seq_lib::to_multiset_contains(inputs, ordered[k]);
            let w = choose|w: int| 0 <= w < inputs.len() && inputs[w] == ordered[k];
            assert(inputs[w].format != InputFormat::Undefined);
        }
        assert forall|i: int, j: int| 0 <= i < j < attrs.len() implies attrs[i].offset
            < attrs[j].offset by {
            lemma_span_increases(ordered, i, j);
            assert(ordered[i] == attrs[i].input());
        }
    }
}

proof fn lemma_span_increases(s: Seq<ReflectedInput>, i: int, j: int)
    requires
        0 <= i < j <= s.len(),
        forall|k: int| 0 <= k < s.len() ==> #[trigger] s[k].format.spec_size() > 0,
    ensures
        span(s, i) < span(s, j),
    decreases j - i,
{
    if j == i + 1 {
        assert(s[i].format.spec_size() > 0);
    } else {
        lemma_span_increases(s, i, j - 1);
        assert(s[j - 1].format.spec_size() > 0);
    }
}

/// The reflected inputs declare pairwise distinct locations.
pub open spec fn distinct_locations(s: Seq<ReflectedInput>) -> bool {
    forall|i: int, j: int| 0 <= i < j < s.len() ==> s[i].location != s[j].location
}

/// When the reflected inputs declare distinct locations, as a valid vertex
/// shader does, the attributes of the derived layout have strictly
/// increasing locations.
pub proof fn lemma_layout_locations_increase(layout: VertexLayout, inputs: Seq<ReflectedInput>)
    requires
        layout.derived_from(inputs),
        distinct_locations(inputs),
    ensures
        forall|i: int, j: int| 0 <= i < j < layout.attributes@.len()
            ==> layout.attributes@[i].location < layout.attributes@[j].location,
{
    let attrs = layout.attributes@;
    let ordered = inputs_of(attrs);
    assert(inputs.no_duplicates());
    inputs.lemma_multiset_has_no_duplicates();
    ordered.lemma_multiset_has_no_duplicates_conv();
    assert forall|i: int, j: int| 0 <= i < j < attrs.len() implies attrs[i].location < attrs[j].location by {
        assert(ordered[i] == attrs[i].input() && ordered[j] == attrs[j].input());
        assert(ordered[i] != ordered[j]);
        if attrs[i].location == attrs[j].location {
            vstd::seq_lib::to_multiset_contains(ordered, ordered[i]);
            vstd::seq_lib::to_multiset_contains(ordered, ordered[j]);
            vstd::seq_lib::to_multiset_contains(inputs, ordered[i]);
            vstd::seq_lib::to_multiset_contains(inputs, ordered[j]);
            let a = choose|a: int| 0 <= a < inputs.len() && inputs[a] == ordered[i];
            let b = choose|b: int| 0 <= b < inputs.len() && inputs[b] == ordered[j];
            assert(a != b);
            if a < b {
                assert(inputs[a].location != inputs[b].location);
            } else {
                assert(inputs[b].location != inputs[a].location);
            }
        }
    }
}

} // verus!
