//! Quad batching: a stream of quads becomes a list of bounded batches, each a
//! vertex list and an index list that one indexed draw call can consume.

use vstd::prelude::*;

use crate::component::Vector4;

verus! {

/// The largest number of quads one batch can hold: the index count of a
/// batch, six per quad, has to fit the 32-bit count of an indexed draw.
pub const MAX_BATCH_QUADS: u32 = 715_827_882;

/// The largest number of quads for which a new batch reserves room up front.
pub const MAX_RESERVED_QUADS: u32 = 65_536;

/// One corner of a quad as the vertex shader reads it: a homogeneous position
/// and an RGBA color.
#[derive(Clone, Copy, Debug, PartialEq, Eq, Structural)]
pub struct Vertex {
    pub pos: Vector4,
    pub color: Vector4,
}

/// A quad ready to be drawn: the positions of its four corners, scaled and
/// moved to where the quad stands, and its color.
#[derive(Clone, Copy, Debug)]
pub struct Quad {
    pub corners: [Vector4; 4],
    pub color: Vector4,
}

/// The four vertices that a quad with the given corner positions contributes,
/// all of one color.
pub open spec fn quad_vertices(corners: Seq<Vector4>, color: Vector4) -> Seq<Vertex>
    recommends
        corners.len() == 4,
{
    Seq::new(4, |i: int| Vertex { pos: corners[i], color })
}

/// The index pattern of one quad, two triangles over its four vertices:
/// `0, 1, 2, 2, 3, 0`.
pub open spec fn quad_index_offset(k: int) -> int {
    if k == 0 {
        0
    } else if k == 1 {
        1
    } else if k == 2 {
        2
    } else if k == 3 {
        2
    } else if k == 4 {
        3
    } else {
        0
    }
}

/// The index list of a batch of `quads` quads: the pattern of one quad,
/// repeated, each time offset by the number of vertices before that quad.
pub open spec fn batch_indices(quads: nat) -> Seq<u32> {
    Seq::new(6 * quads, |i: int| (4 * (i / 6) + quad_index_offset(i % 6)) as u32)
}

/// How many quads a batcher made with `max_quads` puts into one batch.
/// A limit of zero behaves as a limit of one; no batch grows past
/// `MAX_BATCH_QUADS`.
pub open spec fn batch_capacity(max_quads: u32) -> nat {
    if max_quads == 0 {
        1
    } else if max_quads > MAX_BATCH_QUADS {
        MAX_BATCH_QUADS as nat
    } else {
        max_quads as nat
    }
}

/// What a batch holds.
pub ghost struct BatchView {
    pub vertices: Seq<Vertex>,
    pub indices: Seq<u32>,
}

/// The geometry of one batch.
#[derive(Debug)]
pub struct QuadBatchData {
    vertices: Vec<Vertex>,
    indices: Vec<u32>,
}

impl View for QuadBatchData {
    type V = BatchView;

    closed spec fn view(&self) -> BatchView {
        BatchView { vertices: self.vertices@, indices: self.indices@ }
    }
}

/// The number of elements to reserve for `max_quads` quads of `per_quad`
/// elements each.
fn reserve_hint(max_quads: u32, per_quad: usize) -> (n: usize)
    requires
        per_quad <= 6,
    ensures
        n == per_quad * (if max_quads > MAX_RESERVED_QUADS {
            MAX_RESERVED_QUADS
        } else {
            max_quads
        }),
{
    let quads: u32 = if max_quads > MAX_RESERVED_QUADS {
        MAX_RESERVED_QUADS
    } else {
        max_quads
    };
    assert(per_quad * quads <= 6 * 65_536) by (nonlinear_arith)
        requires
            per_quad <= 6,
            quads <= 65_536,
    ;
    per_quad * (quads as usize)
}

impl QuadBatchData {
    /// The number of quads in the batch.
    pub open spec fn quads(&self) -> nat {
        self@.vertices.len() / 4
    }

    /// Four vertices and six indices per quad, and the indices follow the
    /// quad pattern.
    pub open spec fn wf(&self) -> bool {
        &&& self@.vertices.len() % 4 == 0
        &&& self.quads() <= MAX_BATCH_QUADS
        &&& self@.indices == batch_indices(self.quads())
    }

    /// An empty batch with room reserved for `max_quads` quads.
    pub fn new(max_quads: u32) -> (batch: Self)
        ensures
            batch.wf(),
            batch@.vertices == Seq::<Vertex>::empty(),
            batch@.indices == Seq::<u32>::empty(),
    {
        let batch = QuadBatchData {
            vertices: Vec::with_capacity(reserve_hint(max_quads, 4)),
            indices: Vec::with_capacity(reserve_hint(max_quads, 6)),
        };
        assert(batch@.indices =~= batch_indices(0));
        batch
    }

    /// Appends one quad: its four vertices, and six indices that point at them.
    pub fn add(&mut self, corners: [Vector4; 4], color: Vector4)
        requires
            old(self).wf(),
            old(self).quads() < MAX_BATCH_QUADS,
        ensures
            final(self).wf(),
            final(self)@.vertices == old(self)@.vertices + quad_vertices(corners@, color),
            final(self).quads() == old(self).quads() + 1,
    {
        let base: u32 = self.vertices.len() as u32;
        self.indices.push(base);
        self.indices.push(base + 1);
        self.indices.push(base + 2);
        self.indices.push(base + 2);
        self.indices.push(base + 3);
        self.indices.push(base);
        self.vertices.push(Vertex { pos: corners[0], color });
        self.vertices.push(Vertex { pos: corners[1], color });
        self.vertices.push(Vertex { pos: corners[2], color });
        self.vertices.push(Vertex { pos: corners[3], color });
        proof {
            let q = old(self).quads();
            assert(self@.vertices =~= old(self)@.vertices + quad_vertices(corners@, color));
            assert(self.quads() == q + 1);
            assert(self@.indices =~= batch_indices(q + 1));
        }
    }

    /// A batch of `q` quads has `4 * q` vertices and `6 * q` indices, and the
    /// six indices of its quad number `k` are `b, b+1, b+2, b+2, b+3, b`,
    /// where `b = 4 * k` is the number of vertices before that quad.
    pub proof fn law_geometry(&self)
        requires
            self.wf(),
        ensures
            self@.vertices.len() == 4 * self.quads(),
            self@.indices.len() == 6 * self.quads(),
            forall|k: int, m: int|
                0 <= k < self.quads() && 0 <= m < 6 ==> #[trigger] self@.indices[6 * k + m] == 4 * k
                    + quad_index_offset(m),
    {
        assert forall|k: int, m: int| 0 <= k < self.quads() && 0 <= m < 6 implies
            #[trigger] self@.indices[6 * k + m] == 4 * k + quad_index_offset(m) by {
            let i = 6 * k + m;
            assert(i / 6 == k && i % 6 == m);
            assert(0 <= i < 6 * self.quads());
        }
    }

    /// The vertices, four per quad.
    pub fn vertices(&self) -> (v: &Vec<Vertex>)
        ensures
            v@ == self@.vertices,
    {
        &self.vertices
    }

    /// The indices, six per quad.
    pub fn indices(&self) -> (v: &Vec<u32>)
        ensures
            v@ == self@.indices,
    {
        &self.indices
    }

    /// The number of quads in the batch.
    pub fn quad_count(&self) -> (n: usize)
        ensures
            n == self.quads(),
    {
        self.vertices.len() / 4
    }
}

/// The number of batches that `quads` quads fill at `capacity` quads per
/// batch: the quotient, rounded up.
pub open spec fn batch_count(quads: nat, capacity: nat) -> nat
    recommends
        capacity > 0,
{
    if quads == 0 {
        0
    } else {
        ((quads - 1) / (capacity as int) + 1) as nat
    }
}

/// The number of quads in batch `j` of `quads` quads at `capacity` quads per
/// batch: a full load, or for the last batch what is left.
pub open spec fn batch_len(quads: nat, capacity: nat, j: int) -> nat {
    if (j + 1) * capacity <= quads {
        capacity
    } else {
        (quads - j * capacity) as nat
    }
}

/// What batch `j` holds when `vertices`, four per quad, are cut into batches
/// of `capacity` quads.
pub open spec fn batch_at(vertices: Seq<Vertex>, capacity: nat, j: int) -> BatchView {
    let len = batch_len(vertices.len() / 4, capacity, j);
    BatchView {
        vertices: vertices.subrange(4 * capacity * j, 4 * capacity * j + 4 * len),
        indices: batch_indices(len),
    }
}

/// The vertices of a list of batches, one batch after the other.
pub open spec fn all_vertices(batches: Seq<QuadBatchData>) -> Seq<Vertex>
    decreases batches.len(),
{
    if batches.len() == 0 {
        Seq::empty()
    } else {
        all_vertices(batches.drop_last()) + batches.last()@.vertices
    }
}

/// Gathers quads into batches of at most `max_quads` quads each. Only the
/// last batch accepts quads; the batches before it are full.
#[derive(Debug)]
pub struct QuadBatcher {
    max_quads: u32,
    quad_count: u32,
    current_batch: usize,
    batches: Vec<QuadBatchData>,
}

impl View for QuadBatcher {
    type V = Seq<Vertex>;

    /// Every vertex added since the batcher was made or last cleared, in the
    /// order of the calls: four per quad.
    open spec fn view(&self) -> Seq<Vertex> {
        all_vertices(self.layout())
    }
}

/// What can be seen of a batcher from outside.
pub ghost struct BatcherState {
    pub max_quads: u32,
    pub quad_count: nat,
    pub current_batch: nat,
    pub batches: Seq<BatchView>,
}

/// The state of a batcher without batches.
pub open spec fn fresh_state(max_quads: u32) -> BatcherState {
    BatcherState { max_quads, quad_count: 0, current_batch: 0, batches: Seq::empty() }
}

impl QuadBatcher {
    /// The limit the batcher was made with.
    pub closed spec fn limit(&self) -> u32 {
        self.max_quads
    }

    /// The number of quads per full batch.
    pub open spec fn capacity(&self) -> nat {
        batch_capacity(self.limit())
    }

    /// The batches, first to last.
    pub closed spec fn layout(&self) -> Seq<QuadBatchData> {
        self.batches@
    }

    /// The number of quads in the last batch; zero while there is no batch.
    pub closed spec fn open_quads(&self) -> nat {
        self.quad_count as nat
    }

    /// The position of the last batch; zero while there is no batch.
    pub closed spec fn open_batch(&self) -> nat {
        self.current_batch as nat
    }

    /// Every batch is well formed, every batch but the last is full, and the
    /// last one holds between one quad and a full load.
    pub open spec fn wf(&self) -> bool {
        let batches = self.layout();
        &&& forall|j: int| 0 <= j < batches.len() ==> (#[trigger] batches[j]).wf()
        &&& forall|j: int|
            0 <= j < batches.len() - 1 ==> (#[trigger] batches[j]).quads() == self.capacity()
        &&& if batches.len() == 0 {
            self.open_quads() == 0 && self.open_batch() == 0
        } else {
            &&& self.open_batch() == batches.len() - 1
            &&& batches.last().quads() == self.open_quads()
            &&& 1 <= self.open_quads() <= self.capacity()
        }
    }

    /// A batcher without batches.
    pub fn new(max_quads: u32) -> (batcher: Self)
        ensures
            batcher.wf(),
            batcher.limit() == max_quads,
            batcher@ == Seq::<Vertex>::empty(),
            batcher.state() == fresh_state(max_quads),
    {
        let batcher = QuadBatcher {
            max_quads,
            quad_count: 0,
            current_batch: 0,
            batches: Vec::new(),
        };
        assert(batcher.state().batches =~= Seq::<BatchView>::empty());
        batcher
    }

    fn batch_size(&self) -> (c: u32)
        ensures
            c == self.capacity(),
    {
        if self.max_quads == 0 {
            1
        } else if self.max_quads > MAX_BATCH_QUADS {
            MAX_BATCH_QUADS
        } else {
            self.max_quads
        }
    }

    /// Adds one quad, given by the positions of its four corners and its
    /// color. It goes into the last batch, or into a new one where there is
    /// none yet or the last one is full.
    pub fn add_quad(&mut self, corners: [Vector4; 4], color: Vector4)
        requires
            old(self).wf(),
        ensures
            final(self).wf(),
            final(self).limit() == old(self).limit(),
            final(self)@ == old(self)@ + quad_vertices(corners@, color),
            old(self).layout().len() == 0 || old(self).open_quads() == old(self).capacity() ==> {
                &&& final(self).layout().len() == old(self).layout().len() + 1
                &&& final(self).layout().drop_last() == old(self).layout()
                &&& final(self).layout().last()@.vertices == quad_vertices(corners@, color)
                &&& final(self).open_quads() == 1
            },
            old(self).layout().len() > 0 && old(self).open_quads() < old(self).capacity() ==> {
                &&& final(self).layout().len() == old(self).layout().len()
                &&& final(self).layout().drop_last() == old(self).layout().drop_last()
                &&& final(self).layout().last()@.vertices == old(self).layout().last()@.vertices
                    + quad_vertices(corners@, color)
                &&& final(self).open_quads() == old(self).open_quads() + 1
            },
    {
        let is_batch_full = !self.batches.is_empty() && self.quad_count >= self.batch_size();
        if is_batch_full {
            self.current_batch = self.batches.len();
            self.quad_count = 0;
        }
        if is_batch_full || self.batches.is_empty() {
            self.batches.push(QuadBatchData::new(self.max_quads));
            proof {
                assert(self.batches@.drop_last() =~= old(self).batches@);
            }
        }
        let ghost before = self.batches@;
        self.batches[self.current_batch].add(corners, color);
        self.quad_count += 1;
        proof {
            assert(self.batches@.drop_last() =~= before.drop_last());
            assert(all_vertices(before) == old(self)@);
            assert(self@ == all_vertices(before.drop_last()) + self.batches@.last()@.vertices);
        }
    }

    /// Drops every batch.
    pub fn clear(&mut self)
        requires
            old(self).wf(),
        ensures
            final(self).wf(),
            final(self).limit() == old(self).limit(),
            final(self)@ == Seq::<Vertex>::empty(),
            final(self).state() == fresh_state(old(self).limit()),
    {
        self.quad_count = 0;
        self.current_batch = 0;
        self.batches.clear();
        assert(self.state().batches =~= Seq::<BatchView>::empty());
    }

    /// Hands out the batches and leaves the batcher without any.
    pub fn take_batches(&mut self) -> (batches: Vec<QuadBatchData>)
        requires
            old(self).wf(),
        ensures
            batches@ == old(self).layout(),
            final(self).wf(),
            final(self).limit() == old(self).limit(),
            final(self)@ == Seq::<Vertex>::empty(),
            final(self).state() == fresh_state(old(self).limit()),
    {
        let mut batches: Vec<QuadBatchData> = Vec::new();
        core::mem::swap(&mut self.batches, &mut batches);
        self.quad_count = 0;
        self.current_batch = 0;
        assert(self.state().batches =~= Seq::<BatchView>::empty());
        batches
    }

    /// The limit the batcher was made with.
    pub fn max_quads(&self) -> (n: u32)
        ensures
            n == self.limit(),
    {
        self.max_quads
    }

    /// The number of quads in the last batch; zero while there is no batch.
    pub fn quad_count(&self) -> (n: u32)
        ensures
            n == self.open_quads(),
    {
        self.quad_count
    }

    /// The position of the last batch; zero while there is no batch.
    pub fn current_batch(&self) -> (n: usize)
        ensures
            n == self.open_batch(),
    {
        self.current_batch
    }

    /// The batches, first to last.
    pub fn batches(&self) -> (batches: &Vec<QuadBatchData>)
        ensures
            batches@ == self.layout(),
    {
        &self.batches
    }

    /// The limit, the counters and what each batch holds.
    pub open spec fn state(&self) -> BatcherState {
        BatcherState {
            max_quads: self.limit(),
            quad_count: self.open_quads(),
            current_batch: self.open_batch(),
            batches: Seq::new(self.layout().len(), |j: int| self.layout()[j]@),
        }
    }

    /// The number of quads added since the batcher was made or last cleared.
    pub open spec fn total_quads(&self) -> nat {
        self@.len() / 4
    }

    /// The batches are the vertices cut into runs of `capacity()` quads, in
    /// order: the view and the limit fix what every batch holds, how many
    /// batches there are and what the counters say.
    pub proof fn law_layout(&self)
        requires
            self.wf(),
        ensures
            self@.len() % 4 == 0,
            self.layout().len() == batch_count(self.total_quads(), self.capacity()),
            forall|j: int|
                0 <= j < self.layout().len() ==> (#[trigger] self.layout()[j])@ == batch_at(
                    self@,
                    self.capacity(),
                    j,
                ),
            self.layout().len() == 0 ==> self.open_quads() == 0 && self.open_batch() == 0,
            self.layout().len() > 0 ==> {
                &&& self.open_batch() == self.layout().len() - 1
                &&& self.open_quads() == batch_len(
                    self.total_quads(),
                    self.capacity(),
                    self.layout().len() - 1,
                )
            },
    {
        let batches = self.layout();
        let c = self.capacity();
        let count = batches.len() as int;
        if count == 0 {
            assert(self@ =~= Seq::<Vertex>::empty());
        } else {
            let open = self.open_quads();
            lemma_full_prefix(batches, c, count - 1);
            lemma_take_step(batches, count - 1);
            assert(batches.take(count) =~= batches);
            assert(batches[count - 1] == batches.last());
            let n = self.total_quads();
            assert(self@.len() == 4 * c * (count - 1) + 4 * open);
            assert(4 * c * (count - 1) + 4 * open == 4 * (c * (count - 1) + open))
                by (nonlinear_arith);
            assert(n == c * (count - 1) + open);
            assert((n - 1) / (c as int) == count - 1) by {
                vstd::arithmetic::div_mod::lemma_div_multiples_vanish_fancy(
                    count - 1,
                    open - 1,
                    c as int,
                );
            }
            assert forall|j: int| 0 <= j < count implies (#[trigger] batches[j])@ == batch_at(
                self@,
                c,
                j,
            ) by {
                lemma_full_prefix(batches, c, j);
                lemma_take_step(batches, j);
                lemma_prefix(batches, j + 1);
                let before = all_vertices(batches.take(j));
                let upto = all_vertices(batches.take(j + 1));
                assert(before.len() == 4 * c * j);
                assert(upto == before + batches[j]@.vertices);
                lemma_mul_le(j + 1, count - 1, c as int);
                if j < count - 1 {
                    assert((j + 1) * c <= n);
                    assert(batch_len(n, c, j) == c);
                } else {
                    assert((j + 1) * c == (count - 1) * c + c) by (nonlinear_arith)
                        requires
                            j == count - 1,
                    ;
                    assert(c * (count - 1) == (count - 1) * c) by (nonlinear_arith);
                    assert(j * c == (count - 1) * c);
                    assert(batch_len(n, c, j) == open);
                }
                assert(batches[j].quads() == batch_len(n, c, j));
                assert(4 * c * j + 4 * batch_len(n, c, j) == upto.len());
                let run = self@.subrange(4 * c * j, 4 * c * j + 4 * batch_len(n, c, j));
                assert(upto.len() <= self@.len());
                assert(run.len() == batches[j]@.vertices.len());
                assert forall|k: int| 0 <= k < run.len() implies run[k] == batches[j]@.vertices[k] by {
                    assert(upto[before.len() + k] == batches[j]@.vertices[k]);
                    assert(upto[before.len() + k] == self@[before.len() + k]);
                }
                assert(batches[j]@.vertices =~= run);
            }
            assert(c * (count - 1) == (count - 1) * c) by (nonlinear_arith);
            assert(count * c == (count - 1) * c + c) by (nonlinear_arith);
        }
    }

    /// After `n` quads at a limit of `k > 0` there are `n / k` batches,
    /// rounded up, and every batch but the last holds exactly `k` quads. A
    /// limit above `MAX_BATCH_QUADS` is only kept while no more quads than
    /// that were added.
    pub proof fn law_batch_capacity(&self)
        requires
            self.wf(),
            self.limit() > 0,
            self.limit() <= MAX_BATCH_QUADS || self.total_quads() <= MAX_BATCH_QUADS,
        ensures
            self.layout().len() == batch_count(self.total_quads(), self.limit() as nat),
            forall|j: int|
                0 <= j < self.layout().len() - 1 ==> (#[trigger] self.layout()[j]).quads()
                    == self.limit(),
            self.layout().len() > 0 ==> 1 <= self.layout().last().quads() <= self.limit(),
    {
        self.law_layout();
        if self.limit() > MAX_BATCH_QUADS {
            let n = self.total_quads();
            if n > 0 {
                vstd::arithmetic::div_mod::lemma_basic_div(n - 1, self.limit() as int);
                vstd::arithmetic::div_mod::lemma_basic_div(n - 1, MAX_BATCH_QUADS as int);
            }
        }
    }

    /// Two batchers with the same limit that were given the same vertices
    /// cannot be told apart: they hold the same batches and show the same
    /// counters. So a cleared batcher goes on exactly as a new one does.
    pub proof fn law_same_quads_same_state(&self, other: &QuadBatcher)
        requires
            self.wf(),
            other.wf(),
            self.limit() == other.limit(),
            self@ == other@,
        ensures
            self.state() == other.state(),
    {
        self.law_layout();
        other.law_layout();
        assert(self.state().batches =~= other.state().batches);
    }

    /// At one quad per batch, a quad added always opens a batch of its own,
    /// of four vertices and six indices, and leaves the batches before it as
    /// they were.
    pub proof fn law_one_quad_per_batch(
        &self,
        after: &QuadBatcher,
        corners: Seq<Vector4>,
        color: Vector4,
    )
        requires
            self.wf(),
            after.wf(),
            self.capacity() == 1,
            after.limit() == self.limit(),
            after@ == self@ + quad_vertices(corners, color),
        ensures
            after.layout().len() == self.layout().len() + 1,
            forall|j: int|
                0 <= j < self.layout().len() ==> (#[trigger] after.layout()[j])@
                    == self.layout()[j]@,
            after.layout().last()@.vertices == quad_vertices(corners, color),
            after.layout().last()@.vertices.len() == 4,
            after.layout().last()@.indices.len() == 6,
    {
        self.law_layout();
        after.law_layout();
        let n = self.total_quads() as int;
        assert(after.total_quads() == n + 1);
        assert(after.layout().len() == n + 1);
        assert(self.layout().len() == n);
        assert forall|j: int| 0 <= j < n implies (#[trigger] after.layout()[j])@
            == self.layout()[j]@ by {
            assert(batch_len(n as nat, 1, j) == 1);
            assert(batch_len((n + 1) as nat, 1, j) == 1);
            assert(after@.subrange(4 * j, 4 * j + 4) =~= self@.subrange(4 * j, 4 * j + 4));
        }
        assert(batch_len((n + 1) as nat, 1, n) == 1);
        assert(after@.subrange(4 * n, 4 * n + 4) =~= quad_vertices(corners, color));
    }
}

proof fn lemma_mul_le(a: int, b: int, c: int)
    requires
        c >= 0,
    ensures
        a <= b ==> a * c <= b * c,
{
    assert(a <= b ==> a * c <= b * c) by (nonlinear_arith)
        requires
            c >= 0,
    ;
}

proof fn lemma_take_step(batches: Seq<QuadBatchData>, m: int)
    requires
        0 <= m < batches.len(),
    ensures
        all_vertices(batches.take(m + 1)) == all_vertices(batches.take(m)) + batches[m]@.vertices,
{
    assert(batches.take(m + 1).drop_last() =~= batches.take(m));
    assert(batches.take(m + 1).last() == batches[m]);
}

proof fn lemma_full_prefix(batches: Seq<QuadBatchData>, c: nat, m: int)
    requires
        0 <= m <= batches.len(),
        forall|j: int| 0 <= j < m ==> (#[trigger] batches[j]).wf() && batches[j].quads() == c,
    ensures
        all_vertices(batches.take(m)).len() == 4 * c * m,
    decreases m,
{
    if m == 0 {
        assert(batches.take(0).len() == 0);
    } else {
        lemma_full_prefix(batches, c, m - 1);
        lemma_take_step(batches, m - 1);
        assert(batches[m - 1].wf());
        assert(4 * c * (m - 1) + 4 * c == 4 * c * m) by (nonlinear_arith);
    }
}

proof fn lemma_prefix(batches: Seq<QuadBatchData>, m: int)
    requires
        0 <= m <= batches.len(),
    ensures
        all_vertices(batches.take(m)).len() <= all_vertices(batches).len(),
        all_vertices(batches.take(m)) == all_vertices(batches).subrange(
            0,
            all_vertices(batches.take(m)).len() as int,
        ),
    decreases batches.len() - m,
{
    if m == batches.len() {
        assert(batches.take(m) =~= batches);
        assert(all_vertices(batches) =~= all_vertices(batches).subrange(
            0,
            all_vertices(batches).len() as int,
        ));
    } else {
        lemma_prefix(batches, m + 1);
        lemma_take_step(batches, m);
        assert(all_vertices(batches.take(m)) =~= all_vertices(batches).subrange(
            0,
            all_vertices(batches.take(m)).len() as int,
        ));
    }
}

} // verus!
