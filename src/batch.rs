//! Geometry batching: the queued buffer builders of a frame are split into
//! maximal runs of adjacent builders that can share a draw, and each run
//! becomes one vertex list and one synthesized index list.
use vstd::prelude::*;
use crate::builder::{batch_eq, BufferBuilder, Vertex};
use crate::format::{Topology, VertexFormat};

verus! {

/// The most vertices one batch may hold: its indices are 16-bit.
pub const MAX_BATCH_VERTICES: usize = 0x1_0000;

/// One draw: the concatenated vertices of a run of builders and the indices
/// that draw their primitives.
#[derive(Clone, Debug)]
pub struct DrawBatch {
    pub pipeline: String,
    pub texture: Option<u64>,
    pub vertex_format: VertexFormat,
    pub topology: Topology,
    pub vertices: Vec<Vertex>,
    pub indices: Vec<u16>,
}

/// Every vertex of the draw has the attributes of its vertex format.
pub open spec fn batch_fits(d: DrawBatch) -> bool {
    forall|i: int| 0 <= i < d.vertices@.len() ==> (#[trigger] d.vertices@[i]).fits(d.vertex_format)
}

/// Why a queue of builders could not be batched.
#[derive(Clone, Copy, PartialEq, Eq, Structural, Debug)]
pub enum BatchError {
    /// A run of builders holds more vertices than 16-bit indices can reach.
    TooManyVertices,
}

/// Builder `i` of `q` starts a new run: it is the first, or it cannot share a
/// draw with the builder before it.
pub open spec fn starts_run(q: Seq<BufferBuilder>, i: int) -> bool {
    i == 0 || !batch_eq(q[i - 1], q[i])
}

/// The positions among the first `n` builders of `q` at which a run starts.
pub open spec fn starts_upto(q: Seq<BufferBuilder>, n: int) -> Seq<int> {
    Seq::new(n as nat, |i: int| i).filter(|i: int| starts_run(q, i))
}

/// The positions of `q` at which a run starts, in ascending order.
pub open spec fn run_starts(q: Seq<BufferBuilder>) -> Seq<int> {
    starts_upto(q, q.len() as int)
}

/// The run of `q` with number `k`.
pub open spec fn run(q: Seq<BufferBuilder>, k: int) -> Seq<BufferBuilder> {
    let s = run_starts(q);
    let end = if k + 1 < s.len() { s[k + 1] } else { q.len() as int };
    q.subrange(s[k], end)
}

/// The vertices of a run of builders, concatenated in order.
pub open spec fn run_vertices(r: Seq<BufferBuilder>) -> Seq<Vertex>
    decreases r.len(),
{
    if r.len() == 0 {
        Seq::empty()
    } else {
        run_vertices(r.drop_last()) + r.last().vertices@
    }
}

/// The indices of `k` consecutive primitives of topology `t` whose first
/// vertex is `base`.
pub open spec fn primitive_indices(t: Topology, base: int, k: nat) -> Seq<int>
    decreases k,
{
    if k == 0 {
        Seq::empty()
    } else {
        primitive_indices(t, base, (k - 1) as nat) + t.spec_indices(base + (k - 1) * t.spec_vertex_count())
    }
}

/// The indices of a run of builders: for each builder, one index pattern per
/// complete primitive, offset by the number of vertices before it in the run.
pub open spec fn run_indices(r: Seq<BufferBuilder>) -> Seq<int>
    decreases r.len(),
{
    if r.len() == 0 {
        Seq::empty()
    } else {
        let b = r.last();
        run_indices(r.drop_last()) + primitive_indices(
            b.topology,
            run_vertices(r.drop_last()).len() as int,
            b.vertices@.len() / b.topology.spec_vertex_count(),
        )
    }
}

/// `d` is the draw of the nonempty run `r`.
pub open spec fn draws(d: DrawBatch, r: Seq<BufferBuilder>) -> bool {
    &&& d.pipeline@ == r[0].pipeline@
    &&& d.texture == r[0].texture
    &&& d.vertex_format == r[0].vertex_format
    &&& d.topology == r[0].topology
    &&& d.vertices@ == run_vertices(r)
    &&& d.indices@.map_values(|i: u16| i as int) == run_indices(r)
}

/// Every run of `q` holds at most `MAX_BATCH_VERTICES` vertices.
pub open spec fn runs_fit(q: Seq<BufferBuilder>) -> bool {
    forall|k: int| 0 <= k < run_starts(q).len() ==> (#[trigger] run_vertices(run(q, k))).len() <= MAX_BATCH_VERTICES
}

proof fn lemma_starts_upto_step(q: Seq<BufferBuilder>, n: int)
    requires
        0 <= n,
    ensures
        starts_upto(q, n + 1) == if starts_run(q, n) { starts_upto(q, n).push(n) } else { starts_upto(q, n) },
{
    let pred = |i: int| starts_run(q, i);
    assert(Seq::new((n + 1) as nat, |i: int| i) == Seq::new(n as nat, |i: int| i).push(n));
    Seq::new(n as nat, |i: int| i).lemma_filter_push(n, pred);
}

proof fn lemma_run_vertices_push(r: Seq<BufferBuilder>, b: BufferBuilder)
    ensures
        run_vertices(r.push(b)) == run_vertices(r) + b.vertices@,
        run_indices(r.push(b)) == run_indices(r) + primitive_indices(
            b.topology,
            run_vertices(r).len() as int,
            b.vertices@.len() / b.topology.spec_vertex_count(),
        ),
{
    assert(r.push(b).drop_last() == r);
}

proof fn lemma_run_vertices_grow(q: Seq<BufferBuilder>, s: int, e: int, f: int)
    requires
        0 <= s <= e <= f <= q.len(),
    ensures
        run_vertices(q.subrange(s, e)).len() <= run_vertices(q.subrange(s, f)).len(),
    decreases f - e,
{
    if e < f {
        lemma_run_vertices_grow(q, s, e, f - 1);
        assert(q.subrange(s, f) == q.subrange(s, f - 1).push(q[f - 1]));
        lemma_run_vertices_push(q.subrange(s, f - 1), q[f - 1]);
    }
}

/// Positions in `s` strictly increase and lie in `[0, n)`, starting at 0 when
/// nonempty.
pub open spec fn ascending_below(s: Seq<int>, n: int) -> bool {
    &&& forall|a: int, b: int| 0 <= a < b < s.len() ==> s[a] < s[b]
    &&& forall|a: int| 0 <= a < s.len() ==> 0 <= #[trigger] s[a] < n
    &&& s.len() > 0 ==> s[0] == 0
}

proof fn lemma_starts_shape(q: Seq<BufferBuilder>, n: int)
    requires
        0 <= n <= q.len(),
    ensures
        ascending_below(starts_upto(q, n), n),
        n > 0 ==> starts_upto(q, n).len() > 0,
    decreases n,
{
    if n > 0 {
        lemma_starts_shape(q, n - 1);
        lemma_starts_upto_step(q, n - 1);
        if n == 1 {
            assert(starts_run(q, 0));
        }
    }
}

/// Appends the indices of the complete primitives of `b`, whose first
/// vertex sits at `base` in the batch.
fn push_primitive_indices(indices: &mut Vec<u16>, t: Topology, base: usize, count: usize)
    requires
        base + count <= MAX_BATCH_VERTICES,
    ensures
        final(indices)@.map_values(|i: u16| i as int) == old(indices)@.map_values(|i: u16| i as int)
            + primitive_indices(t, base as int, count as nat / t.spec_vertex_count()),
{
    let vc = t.vertex_count();
    let k = count / vc;
    let mut p: usize = 0;
    while p < k
        invariant
            vc == t.spec_vertex_count(),
            k == count as nat / t.spec_vertex_count(),
            p <= k,
            base + count <= MAX_BATCH_VERTICES,
            indices@.map_values(|i: u16| i as int) == old(indices)@.map_values(|i: u16| i as int)
                + primitive_indices(t, base as int, p as nat),
        decreases k - p,
    {
        assert(p * vc + vc <= count) by (nonlinear_arith)
            requires p < k, k == count / vc, vc > 0;
        let offset = base + p * vc;
        let mut idx = t.indices(offset as u16);
        let ghost before = indices@;
        let ghost added = idx@;
        indices.append(&mut idx);
        assert(indices@.map_values(|i: u16| i as int) =~= before.map_values(|i: u16| i as int)
            + added.map_values(|i: u16| i as int));
        assert(primitive_indices(t, base as int, (p + 1) as nat) == primitive_indices(t, base as int, p as nat)
            + t.spec_indices(base + p * t.spec_vertex_count()));
        p = p + 1;
    }
}

/// Appends the vertices of `b` to `vertices`.
fn push_vertices(vertices: &mut Vec<Vertex>, b: &BufferBuilder)
    ensures
        final(vertices)@ == old(vertices)@ + b.vertices@,
{
    let mut i: usize = 0;
    while i < b.vertices.len()
        invariant
            i <= b.vertices@.len(),
            vertices@ == old(vertices)@ + b.vertices@.subrange(0, i as int),
        decreases b.vertices@.len() - i,
    {
        vertices.push(b.vertices[i]);
        assert(b.vertices@.subrange(0, i + 1) == b.vertices@.subrange(0, i as int).push(b.vertices@[i as int]));
        i = i + 1;
    }
    assert(b.vertices@.subrange(0, b.vertices@.len() as int) == b.vertices@);
}

/// An empty draw with the state of `b`.
fn empty_batch(b: &BufferBuilder) -> (r: DrawBatch)
    ensures
        r.pipeline@ == b.pipeline@,
        r.texture == b.texture,
        r.vertex_format == b.vertex_format,
        r.topology == b.topology,
        r.vertices@.len() == 0,
        r.indices@.len() == 0,
{
    DrawBatch {
        pipeline: b.pipeline.clone(),
        texture: b.texture,
        vertex_format: b.vertex_format,
        topology: b.topology,
        vertices: Vec::new(),
        indices: Vec::new(),
    }
}

/// Splits `queue` into maximal runs of adjacent builders that can share a
/// draw, in submission order, and turns each run into one draw: its
/// builders' vertices concatenated, and for each builder one index pattern
/// per complete primitive, offset by the vertices before it in the run.
/// Builders that can share a draw but are not adjacent stay in separate
/// draws. Fails when a run holds more vertices than 16-bit indices reach.
pub fn batch_runs(queue: &Vec<BufferBuilder>) -> (r: Result<Vec<DrawBatch>, BatchError>)
    requires
        forall|i: int| 0 <= i < queue@.len() ==> (#[trigger] queue@[i]).wf(),
    ensures
        r is Ok ==> forall|k: int| 0 <= k < r->Ok_0@.len() ==> batch_fits(#[trigger] r->Ok_0@[k]),
        r is Ok <==> runs_fit(queue@),
        r is Ok ==> r->Ok_0@.len() == run_starts(queue@).len(),
        r is Ok ==> forall|k: int| 0 <= k < r->Ok_0@.len() ==> draws(#[trigger] r->Ok_0@[k], run(queue@, k)),
{
    let ghost q = queue@;
    let mut done: Vec<DrawBatch> = Vec::new();
    if queue.len() == 0 {
        assert(run_starts(q) =~= Seq::<int>::empty());
        return Ok(done);
    }
    let mut current = empty_batch(&queue[0]);
    let mut start: usize = 0;
    let mut i: usize = 0;
    proof {
        assert(starts_upto(q, 0) =~= Seq::<int>::empty());
    }
    while i < queue.len()
        invariant
            q == queue@,
            q.len() > 0,
            i <= q.len(),
            start <= i,
            start < q.len(),
            i == 0 ==> start == 0 && done@.len() == 0,
            i > 0 ==> starts_upto(q, i as int).len() == done@.len() + 1,
            i > 0 ==> starts_upto(q, i as int).last() == start,
            ascending_below(starts_upto(q, i as int), i as int),
            forall|k: int| 0 <= k < done@.len() ==> #[trigger] draws(done@[k],
                q.subrange(starts_upto(q, i as int)[k], starts_upto(q, i as int)[k + 1])),
            forall|k: int| 0 <= k < done@.len() ==> (#[trigger] run_vertices(
                q.subrange(starts_upto(q, i as int)[k], starts_upto(q, i as int)[k + 1]))).len()
                <= MAX_BATCH_VERTICES,
            current.pipeline@ == q[start as int].pipeline@,
            current.texture == q[start as int].texture,
            current.vertex_format == q[start as int].vertex_format,
            current.topology == q[start as int].topology,
            current.vertices@ == run_vertices(q.subrange(start as int, i as int)),
            current.indices@.map_values(|x: u16| x as int) == run_indices(q.subrange(start as int, i as int)),
            current.vertices@.len() <= MAX_BATCH_VERTICES,
            forall|j: int| 0 <= j < q.len() ==> (#[trigger] q[j]).wf(),
            i > 0 ==> start < i,
            i > 0 ==> q[i - 1].vertex_format == current.vertex_format,
            batch_fits(current),
            forall|k: int| 0 <= k < done@.len() ==> batch_fits(#[trigger] done@[k]),
        decreases q.len() - i,
    {
        let ghost s_before = starts_upto(q, i as int);
        proof {
            lemma_starts_upto_step(q, i as int);
            lemma_starts_shape(q, i + 1);
        }
        if i > 0 && !queue[i - 1].batches_with(&queue[i]) {
            let mut finished = empty_batch(&queue[i]);
            std::mem::swap(&mut current, &mut finished);
            done.push(finished);
            start = i;
            proof {
                let s = starts_upto(q, i + 1);
                assert(s == s_before.push(i as int));
                assert forall|k: int| 0 <= k < done@.len() implies #[trigger] draws(done@[k],
                    q.subrange(s[k], s[k + 1])) by {
                    if k < done@.len() - 1 {
                        assert(s[k] == s_before[k] && s[k + 1] == s_before[k + 1]);
                    } else {
                        assert(s[k] == s_before.last());
                    }
                }
                assert forall|k: int| 0 <= k < done@.len() implies (#[trigger] run_vertices(
                    q.subrange(s[k], s[k + 1]))).len() <= MAX_BATCH_VERTICES by {
                    if k < done@.len() - 1 {
                        assert(s[k] == s_before[k] && s[k + 1] == s_before[k + 1]);
                    } else {
                        assert(s[k] == s_before.last());
                    }
                }
                assert(q.subrange(start as int, i as int) =~= Seq::<BufferBuilder>::empty());
            }
        } else {
            proof {
                if i == 0 {
                    assert(starts_run(q, 0));
                    assert(starts_upto(q, 1) == seq![0int]);
                    assert(q.subrange(0, 0) =~= Seq::<BufferBuilder>::empty());
                }
            }
        }
        let b = &queue[i];
        proof {
            assert(starts_upto(q, i + 1).last() == start);
            assert(q.subrange(start as int, i + 1) == q.subrange(start as int, i as int).push(q[i as int]));
            lemma_run_vertices_push(q.subrange(start as int, i as int), q[i as int]);
        }
        if b.vertices.len() > MAX_BATCH_VERTICES - current.vertices.len() {
            proof {
                let s = starts_upto(q, q.len() as int);
                lemma_starts_shape(q, q.len() as int);
                lemma_starts_prefix(q, i + 1, q.len() as int);
                let k = starts_upto(q, i + 1).len() - 1;
                assert(s[k] == start);
                let end = if k + 1 < s.len() { s[k + 1] } else { q.len() as int };
                if k + 1 < s.len() {
                    lemma_next_start_after(q, i + 1, k + 1);
                }
                lemma_run_vertices_grow(q, start as int, i + 1, end);
                assert(run(q, k) == q.subrange(start as int, end));
                assert(!runs_fit(q));
            }
            return Err(BatchError::TooManyVertices);
        }
        let base = current.vertices.len();
        let ghost before = current.vertices@;
        assert(b.vertex_format == current.vertex_format);
        push_vertices(&mut current.vertices, b);
        assert forall|v: int| 0 <= v < current.vertices@.len() implies (#[trigger] current.vertices@[v]).fits(
            current.vertex_format) by {
            if v >= before.len() {
                assert(current.vertices@[v] == b.vertices@[v - before.len()]);
            } else {
                assert(current.vertices@[v] == before[v]);
            }
        }
        push_primitive_indices(&mut current.indices, b.topology, base, b.vertices.len());
        i = i + 1;
    }
    done.push(current);
    proof {
        let s = starts_upto(q, q.len() as int);
        assert forall|k: int| 0 <= k < done@.len() implies draws(#[trigger] done@[k], run(q, k)) by {
        }
        assert forall|k: int| 0 <= k < s.len() implies (#[trigger] run_vertices(run(q, k))).len()
            <= MAX_BATCH_VERTICES by {
        }
    }
    Ok(done)
}

proof fn lemma_starts_prefix(q: Seq<BufferBuilder>, n: int, m: int)
    requires
        0 <= n <= m <= q.len(),
    ensures
        starts_upto(q, n).len() <= starts_upto(q, m).len(),
        forall|k: int| 0 <= k < starts_upto(q, n).len() ==> starts_upto(q, m)[k] == #[trigger] starts_upto(q, n)[k],
    decreases m - n,
{
    if n < m {
        lemma_starts_prefix(q, n, m - 1);
        lemma_starts_upto_step(q, m - 1);
    }
}

proof fn lemma_next_start_after(q: Seq<BufferBuilder>, n: int, k: int)
    requires
        0 < n <= q.len(),
        k == starts_upto(q, n).len(),
        k < starts_upto(q, q.len() as int).len(),
    ensures
        starts_upto(q, q.len() as int)[k] >= n,
    decreases q.len() - n,
{
    lemma_starts_upto_step(q, n);
    if n < q.len() {
        if starts_run(q, n) {
            lemma_starts_prefix(q, n + 1, q.len() as int);
            assert(starts_upto(q, n + 1)[k] == n);
        } else {
            lemma_next_start_after(q, n + 1, k);
        }
    } else {
    }
}

/// The positions among the first `n` builders of `q` where the builder
/// cannot share a draw with the one before it.
pub open spec fn transitions_upto(q: Seq<BufferBuilder>, n: int) -> Seq<int> {
    Seq::new(n as nat, |i: int| i).filter(|i: int| i > 0 && !batch_eq(q[i - 1], q[i]))
}

/// The number of draws is one more than the number of adjacent pairs of
/// builders that cannot share a draw (none for an empty queue): draws follow
/// the transitions in submission order, not the number of builders.
pub proof fn lemma_draw_count(q: Seq<BufferBuilder>)
    ensures
        q.len() == 0 ==> run_starts(q).len() == 0,
        q.len() > 0 ==> run_starts(q).len() == transitions_upto(q, q.len() as int).len() + 1,
{
    lemma_draw_count_upto(q, q.len() as int);
}

proof fn lemma_draw_count_upto(q: Seq<BufferBuilder>, n: int)
    requires
        0 <= n <= q.len(),
    ensures
        n == 0 ==> starts_upto(q, n).len() == 0,
        n > 0 ==> starts_upto(q, n).len() == transitions_upto(q, n).len() + 1,
    decreases n,
{
    if n == 0 {
        assert(starts_upto(q, 0) =~= Seq::<int>::empty());
    } else {
        lemma_draw_count_upto(q, n - 1);
        lemma_starts_upto_step(q, n - 1);
        let pred = |i: int| i > 0 && !batch_eq(q[i - 1], q[i]);
        assert(Seq::new(n as nat, |i: int| i) == Seq::new((n - 1) as nat, |i: int| i).push(n - 1));
        Seq::new((n - 1) as nat, |i: int| i).lemma_filter_push(n - 1, pred);
        if n == 1 {
            assert(transitions_upto(q, 0) =~= Seq::<int>::empty());
        }
    }
}

/// Builders submitted as `a1, a2, b, a3`, where `a1`, `a2` and `a3` can
/// share a draw with one another and `b` cannot share one with `a1`, give
/// exactly three draws, in submission order: `a1` and `a2`, then `b`, then
/// `a3`, which is not merged with the first run.
pub proof fn lemma_no_merge_across_runs(a1: BufferBuilder, a2: BufferBuilder, b: BufferBuilder, a3: BufferBuilder)
    requires
        batch_eq(a1, a2),
        batch_eq(a2, a3),
        !batch_eq(a1, b),
    ensures
        run_starts(seq![a1, a2, b, a3]).len() == 3,
        run(seq![a1, a2, b, a3], 0) == seq![a1, a2],
        run(seq![a1, a2, b, a3], 1) == seq![b],
        run(seq![a1, a2, b, a3], 2) == seq![a3],
{
    let q = seq![a1, a2, b, a3];
    lemma_starts_upto_step(q, 0);
    lemma_starts_upto_step(q, 1);
    lemma_starts_upto_step(q, 2);
    lemma_starts_upto_step(q, 3);
    assert(starts_upto(q, 0) =~= Seq::<int>::empty());
    assert(starts_run(q, 0));
    assert(!starts_run(q, 1));
    assert(starts_run(q, 2));
    assert(starts_run(q, 3));
    assert(run_starts(q) =~= seq![0int, 2, 3]);
    assert(q.subrange(0, 2) =~= seq![a1, a2]);
    assert(q.subrange(2, 3) =~= seq![b]);
    assert(q.subrange(3, 4) =~= seq![a3]);
}

/// A run of `k` quad builders of four vertices each draws with exactly `6k`
/// indices, the largest of which is `4k - 1`.
pub proof fn lemma_quad_run_indices(r: Seq<BufferBuilder>)
    requires
        r.len() > 0,
        forall|i: int| 0 <= i < r.len() ==> (#[trigger] r[i]).topology == Topology::Quad
            && r[i].vertices@.len() == 4,
    ensures
        run_indices(r).len() == 6 * r.len(),
        forall|i: int| 0 <= i < run_indices(r).len() ==> #[trigger] run_indices(r)[i] <= 4 * r.len() - 1,
        exists|i: int| 0 <= i < run_indices(r).len() && #[trigger] run_indices(r)[i] == 4 * r.len() - 1,
    decreases r.len(),
{
    lemma_quad_run_vertices(r);
    let prev = r.drop_last();
    let b = r.last();
    lemma_quad_run_vertices(prev);
    let base = run_vertices(prev).len() as int;
    assert(b.vertices@.len() / b.topology.spec_vertex_count() == 1);
    assert(primitive_indices(Topology::Quad, base, 1) =~= Topology::Quad.spec_indices(base)) by {
        assert(primitive_indices(Topology::Quad, base, 0) =~= Seq::<int>::empty());
    }
    let tail = Topology::Quad.spec_indices(base);
    assert(tail =~= seq![base, base + 1, base + 3, base + 3, base + 1, base + 2]);
    if prev.len() > 0 {
        lemma_quad_run_indices(prev);
        assert forall|j: int| 0 <= j < prev.len() implies (#[trigger] prev[j]).topology == Topology::Quad
            && prev[j].vertices@.len() == 4 by {
            assert(prev[j] == r[j]);
        }
    } else {
        assert(run_indices(prev) =~= Seq::<int>::empty());
    }
    let all = run_indices(r);
    assert(all == run_indices(prev) + tail);
    assert(all[run_indices(prev).len() + 2int] == 4 * r.len() - 1);
}

proof fn lemma_quad_run_vertices(r: Seq<BufferBuilder>)
    requires
        forall|i: int| 0 <= i < r.len() ==> (#[trigger] r[i]).vertices@.len() == 4,
    ensures
        run_vertices(r).len() == 4 * r.len(),
    decreases r.len(),
{
    if r.len() > 0 {
        assert forall|j: int| 0 <= j < r.drop_last().len() implies (#[trigger] r.drop_last()[j]).vertices@.len() == 4 by {
            assert(r.drop_last()[j] == r[j]);
        }
        lemma_quad_run_vertices(r.drop_last());
    }
}

/// The little-endian bytes of a 16-bit index.
pub open spec fn le16(v: u16) -> Seq<u8> {
    seq![v as u8, (v >> 8) as u8]
}

/// The index buffer contents for `indices`: each index little-endian, in
/// order.
pub open spec fn spec_index_bytes(indices: Seq<u16>) -> Seq<u8>
    decreases indices.len(),
{
    if indices.len() == 0 {
        Seq::empty()
    } else {
        spec_index_bytes(indices.drop_last()) + le16(indices.last())
    }
}

/// The index buffer contents for `indices`: two little-endian bytes per
/// index, in order.
pub fn index_bytes(indices: &Vec<u16>) -> (r: Vec<u8>)
    ensures
        r@ == spec_index_bytes(indices@),
        r@.len() == 2 * indices@.len(),
{
    let mut r: Vec<u8> = Vec::new();
    let mut i: usize = 0;
    assert(indices@.subrange(0, 0) =~= Seq::<u16>::empty());
    while i < indices.len()
        invariant
            i <= indices@.len(),
            r@ == spec_index_bytes(indices@.subrange(0, i as int)),
            r@.len() == 2 * i,
        decreases indices@.len() - i,
    {
        let v = indices[i];
        let ghost before = r@;
        r.push(v as u8);
        r.push((v >> 8) as u8);
        assert(indices@.subrange(0, i + 1).drop_last() == indices@.subrange(0, i as int));
        assert(r@ =~= before + le16(v));
        i = i + 1;
    }
    assert(indices@.subrange(0, i as int) == indices@);
    r
}

} // verus!
