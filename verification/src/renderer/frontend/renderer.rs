//! The 2D render system: what drawing one frame's quads takes, step by step.
//! The caller carries the steps out on the device, in order, and stops at the
//! first that fails.

use vstd::prelude::*;

use super::batch::{BatchView, Quad, QuadBatchData, QuadBatcher, Vertex};
use super::batch::{batch_at, batch_capacity, batch_count, fresh_state, quad_vertices};
use crate::renderer::backend::buffer::Buffer;
use crate::renderer::backend::vk;

verus! {

/// The number of quads per batch of the render system.
pub const DEFAULT_MAX_QUADS: u32 = 2000;

/// The bytes of one vertex on the device: two vectors of four 32-bit floats.
pub const VERTEX_SIZE: u64 = 32;

/// The bytes of one index on the device.
pub const INDEX_SIZE: u64 = 4;

/// How the pipeline reads vertices from a vertex buffer.
#[derive(Debug)]
pub struct VertexInputDescription {
    pub bindings: Vec<vk::VertexInputBindingDescription>,
    pub attributes: Vec<vk::VertexInputAttributeDescription>,
}

impl Vertex {
    /// One binding of `VERTEX_SIZE` bytes per vertex, with two attributes
    /// of four floats each: the position at the start of the vertex, the
    /// color behind it.
    pub fn input_description() -> (description: VertexInputDescription)
        ensures
            description.bindings@ == seq![
                vk::VertexInputBindingDescription {
                    binding: 0,
                    stride: VERTEX_SIZE as u32,
                    input_rate: vk::VERTEX_INPUT_RATE_VERTEX,
                },
            ],
            description.attributes@ == seq![
                vk::VertexInputAttributeDescription {
                    location: 0,
                    binding: 0,
                    format: vk::FORMAT_R32G32B32A32_SFLOAT,
                    offset: 0,
                },
                vk::VertexInputAttributeDescription {
                    location: 1,
                    binding: 0,
                    format: vk::FORMAT_R32G32B32A32_SFLOAT,
                    offset: 16,
                },
            ],
    {
        let mut bindings: Vec<vk::VertexInputBindingDescription> = Vec::new();
        bindings.push(
            vk::VertexInputBindingDescription {
                binding: 0,
                stride: 32,
                input_rate: vk::VERTEX_INPUT_RATE_VERTEX,
            },
        );
        let mut attributes: Vec<vk::VertexInputAttributeDescription> = Vec::new();
        attributes.push(
            vk::VertexInputAttributeDescription {
                location: 0,
                binding: 0,
                format: vk::FORMAT_R32G32B32A32_SFLOAT,
                offset: 0,
            },
        );
        attributes.push(
            vk::VertexInputAttributeDescription {
                location: 1,
                binding: 0,
                format: vk::FORMAT_R32G32B32A32_SFLOAT,
                offset: 16,
            },
        );
        assert(bindings@ =~= seq![
            vk::VertexInputBindingDescription {
                binding: 0,
                stride: VERTEX_SIZE as u32,
                input_rate: vk::VERTEX_INPUT_RATE_VERTEX,
            },
        ]);
        assert(attributes@ =~= seq![
            vk::VertexInputAttributeDescription {
                location: 0,
                binding: 0,
                format: vk::FORMAT_R32G32B32A32_SFLOAT,
                offset: 0,
            },
            vk::VertexInputAttributeDescription {
                location: 1,
                binding: 0,
                format: vk::FORMAT_R32G32B32A32_SFLOAT,
                offset: 16,
            },
        ]);
        VertexInputDescription { bindings, attributes }
    }
}

/// The two buffers of a batch.
#[derive(Clone, Copy, Debug, PartialEq, Eq, Structural)]
pub enum BufferKind {
    Vertex,
    Index,
}

/// One step of drawing a frame's quads.
#[derive(Clone, Copy, Debug, PartialEq, Eq, Structural)]
pub enum RenderStep {
    /// Overwrite the whole uniform buffer with the view-projection matrix.
    UpdateUniformBuffer,
    /// The batch has no such buffer yet: create one of `size` bytes, host
    /// visible and host coherent.
    CreateBuffer { kind: BufferKind, batch: usize, size: u64 },
    /// The buffer of the batch is too small: wait for the device to be
    /// idle, destroy the buffer, and create one of `size` bytes in its place.
    ReplaceBuffer { kind: BufferKind, batch: usize, size: u64 },
    /// Copy the vertices of the batch into its vertex buffer.
    UploadVertices { batch: usize },
    /// Copy the indices of the batch into its index buffer.
    UploadIndices { batch: usize },
    /// Bind the descriptor set of the uniform buffer.
    BindDescriptorSets,
    /// Bind the pipeline that all batches share.
    BindPipeline,
    /// Bind the vertex buffer of the batch.
    BindVertexBuffer { batch: usize },
    /// Bind the index buffer of the batch, of 32-bit indices.
    BindIndexBuffer { batch: usize },
    /// Draw the bound batch with one indexed draw.
    DrawIndexed {
        index_count: u32,
        instance_count: u32,
        first_index: u32,
        vertex_offset: i32,
        first_instance: u32,
    },
}

/// One step of taking the render system down.
#[derive(Clone, Copy, Debug, PartialEq, Eq, Structural)]
pub enum DestroyStep {
    /// Wait until the device has finished all work that was submitted.
    WaitIdle,
    /// Destroy the buffer of the batch.
    DestroyBuffer { kind: BufferKind, batch: usize },
    DestroyPipeline,
    DestroyUniformBuffer,
    DestroyDescriptorSetLayouts,
    DestroyDescriptorPool,
    DestroyVertexShader,
    DestroyFragmentShader,
}

/// The steps that destroy the first `n` buffers of one kind, in order.
pub open spec fn buffer_destroys(kind: BufferKind, n: int) -> Seq<DestroyStep> {
    Seq::new(
        if n < 0 {
            0
        } else {
            n as nat
        },
        |j: int| DestroyStep::DestroyBuffer { kind, batch: j as usize },
    )
}

/// All the steps of taking down a render system of `buffers` buffers of
/// each kind: the wait for the device comes first, then the buffers go,
/// then what was made before them, last made first.
pub open spec fn destroy_steps(buffers: int) -> Seq<DestroyStep> {
    seq![DestroyStep::WaitIdle] + buffer_destroys(BufferKind::Vertex, buffers) + buffer_destroys(
        BufferKind::Index,
        buffers,
    ) + seq![
        DestroyStep::DestroyPipeline,
        DestroyStep::DestroyUniformBuffer,
        DestroyStep::DestroyDescriptorSetLayouts,
        DestroyStep::DestroyDescriptorPool,
        DestroyStep::DestroyVertexShader,
        DestroyStep::DestroyFragmentShader,
    ]
}

/// The vertices of a list of quads, quad after quad.
pub open spec fn quads_vertices(quads: Seq<Quad>) -> Seq<Vertex>
    decreases quads.len(),
{
    if quads.len() == 0 {
        Seq::empty()
    } else {
        quads_vertices(quads.drop_last()) + quad_vertices(quads.last().corners@, quads.last().color)
    }
}

/// The bytes that the vertices of a batch take on the device.
pub open spec fn vertex_bytes(batch: BatchView) -> int {
    VERTEX_SIZE * batch.vertices.len()
}

/// The bytes that the indices of a batch take on the device.
pub open spec fn index_bytes(batch: BatchView) -> int {
    INDEX_SIZE * batch.indices.len()
}

/// What it takes for batch `batch` to have a buffer of at least `needed`
/// bytes: nothing where it has one, else one step.
pub open spec fn ensure_steps(kind: BufferKind, batch: int, buffers: Seq<Buffer>, needed: int) -> Seq<
    RenderStep,
> {
    if batch >= buffers.len() {
        seq![RenderStep::CreateBuffer { kind, batch: batch as usize, size: needed as u64 }]
    } else if buffers[batch].size < needed {
        seq![RenderStep::ReplaceBuffer { kind, batch: batch as usize, size: needed as u64 }]
    } else {
        Seq::empty()
    }
}

/// The buffer of a batch after `ensure_steps`.
pub open spec fn ensured(batch: int, buffers: Seq<Buffer>, needed: int) -> Buffer {
    if batch < buffers.len() && buffers[batch].size >= needed {
        buffers[batch]
    } else {
        Buffer { size: needed as u64, destroyed: false }
    }
}

/// The steps that bring the geometry of batch `j` onto the device.
pub open spec fn upload_steps(
    vertex_buffers: Seq<Buffer>,
    index_buffers: Seq<Buffer>,
    batches: Seq<BatchView>,
    j: int,
) -> Seq<RenderStep> {
    ensure_steps(BufferKind::Vertex, j, vertex_buffers, vertex_bytes(batches[j])) + ensure_steps(
        BufferKind::Index,
        j,
        index_buffers,
        index_bytes(batches[j]),
    ) + seq![
        RenderStep::UploadVertices { batch: j as usize },
        RenderStep::UploadIndices { batch: j as usize },
    ]
}

/// The upload steps of the first `n` batches, batch after batch.
pub open spec fn uploads(
    vertex_buffers: Seq<Buffer>,
    index_buffers: Seq<Buffer>,
    batches: Seq<BatchView>,
    n: int,
) -> Seq<RenderStep>
    decreases n,
{
    if n <= 0 {
        Seq::empty()
    } else {
        uploads(vertex_buffers, index_buffers, batches, n - 1) + upload_steps(
            vertex_buffers,
            index_buffers,
            batches,
            n - 1,
        )
    }
}

/// The steps that draw batch `j`: its two buffers are bound, and all its
/// indices drawn at once.
pub open spec fn draw_steps(batches: Seq<BatchView>, j: int) -> Seq<RenderStep> {
    seq![
        RenderStep::BindVertexBuffer { batch: j as usize },
        RenderStep::BindIndexBuffer { batch: j as usize },
        RenderStep::DrawIndexed {
            index_count: batches[j].indices.len() as u32,
            instance_count: 1,
            first_index: 0,
            vertex_offset: 0,
            first_instance: 1,
        },
    ]
}

/// The draw steps of the first `n` batches, batch after batch.
pub open spec fn draws(batches: Seq<BatchView>, n: int) -> Seq<RenderStep>
    decreases n,
{
    if n <= 0 {
        Seq::empty()
    } else {
        draws(batches, n - 1) + draw_steps(batches, n - 1)
    }
}

/// All the steps of a frame: the uniform buffer is updated, every batch is
/// uploaded, the descriptor set and the pipeline are bound, and every batch
/// is drawn.
pub open spec fn render_steps(
    vertex_buffers: Seq<Buffer>,
    index_buffers: Seq<Buffer>,
    batches: Seq<BatchView>,
) -> Seq<RenderStep> {
    seq![RenderStep::UpdateUniformBuffer] + uploads(
        vertex_buffers,
        index_buffers,
        batches,
        batches.len() as int,
    ) + seq![RenderStep::BindDescriptorSets, RenderStep::BindPipeline] + draws(
        batches,
        batches.len() as int,
    )
}

/// The buffers after the upload steps of `needed.len()` batches: every
/// batch has a buffer that holds what it needs, and buffers beyond the
/// batches stay.
pub open spec fn buffers_after(buffers: Seq<Buffer>, needed: Seq<int>) -> Seq<Buffer> {
    Seq::new(
        if buffers.len() > needed.len() {
            buffers.len()
        } else {
            needed.len()
        },
        |j: int|
            if j < needed.len() {
                ensured(j, buffers, needed[j])
            } else {
                buffers[j]
            },
    )
}

/// The bytes that the vertices of each batch take.
pub open spec fn vertex_needs(batches: Seq<BatchView>) -> Seq<int> {
    Seq::new(batches.len(), |j: int| vertex_bytes(batches[j]))
}

/// The bytes that the indices of each batch take.
pub open spec fn index_needs(batches: Seq<BatchView>) -> Seq<int> {
    Seq::new(batches.len(), |j: int| index_bytes(batches[j]))
}

/// What each of a list of batches holds.
pub open spec fn batch_views(batches: Seq<QuadBatchData>) -> Seq<BatchView> {
    Seq::new(batches.len(), |j: int| batches[j]@)
}

/// The batches of a frame and the steps that draw them.
#[derive(Debug)]
pub struct RenderPlan {
    pub batches: Vec<QuadBatchData>,
    pub steps: Vec<RenderStep>,
}

/// Draws quads in batches: owns the batcher, and one vertex buffer and one
/// index buffer per batch, which live on from frame to frame.
#[derive(Debug)]
pub struct Renderer2DSystem {
    quad_batcher: QuadBatcher,
    vertex_buffers: Vec<Buffer>,
    index_buffers: Vec<Buffer>,
}

impl Renderer2DSystem {
    /// The batcher.
    pub closed spec fn batcher(&self) -> QuadBatcher {
        self.quad_batcher
    }

    /// The vertex buffers, one per batch that was ever drawn.
    pub closed spec fn vertex_store(&self) -> Seq<Buffer> {
        self.vertex_buffers@
    }

    /// The index buffers, one per batch that was ever drawn.
    pub closed spec fn index_store(&self) -> Seq<Buffer> {
        self.index_buffers@
    }

    /// The batcher is well formed, the batches that have a vertex buffer
    /// are those that have an index buffer, and no buffer was destroyed.
    pub open spec fn wf(&self) -> bool {
        &&& self.batcher().wf()
        &&& self.vertex_store().len() == self.index_store().len()
        &&& forall|j: int|
            0 <= j < self.vertex_store().len() ==> !(#[trigger] self.vertex_store()[j]).destroyed
        &&& forall|j: int|
            0 <= j < self.index_store().len() ==> !(#[trigger] self.index_store()[j]).destroyed
    }

    /// A render system without quads and without buffers.
    pub fn new() -> (system: Self)
        ensures
            system.wf(),
            system.batcher().state() == fresh_state(DEFAULT_MAX_QUADS),
            system.batcher()@ == Seq::<Vertex>::empty(),
            system.vertex_store() == Seq::<Buffer>::empty(),
            system.index_store() == Seq::<Buffer>::empty(),
    {
        Renderer2DSystem {
            quad_batcher: QuadBatcher::new(DEFAULT_MAX_QUADS),
            vertex_buffers: Vec::new(),
            index_buffers: Vec::new(),
        }
    }

    /// The batcher.
    pub fn quad_batcher(&self) -> (batcher: &QuadBatcher)
        ensures
            *batcher == self.batcher(),
    {
        &self.quad_batcher
    }

    /// The vertex buffers, by batch.
    pub fn vertex_buffers(&self) -> (buffers: &Vec<Buffer>)
        ensures
            buffers@ == self.vertex_store(),
    {
        &self.vertex_buffers
    }

    /// The index buffers, by batch.
    pub fn index_buffers(&self) -> (buffers: &Vec<Buffer>)
        ensures
            buffers@ == self.index_store(),
    {
        &self.index_buffers
    }

    fn add_quads(&mut self, quads: &Vec<Quad>)
        requires
            old(self).wf(),
        ensures
            final(self).wf(),
            final(self).batcher().limit() == old(self).batcher().limit(),
            final(self).batcher()@ == old(self).batcher()@ + quads_vertices(quads@),
            final(self).vertex_store() == old(self).vertex_store(),
            final(self).index_store() == old(self).index_store(),
    {
        let mut i: usize = 0;
        assert(quads_vertices(quads@.take(0)) =~= Seq::<Vertex>::empty());
        assert(self.batcher()@ =~= old(self).batcher()@ + quads_vertices(quads@.take(0)));
        while i < quads.len()
            invariant
                i <= quads@.len(),
                self.wf(),
                self.batcher().limit() == old(self).batcher().limit(),
                self.batcher()@ == old(self).batcher()@ + quads_vertices(quads@.take(i as int)),
                self.vertex_store() == old(self).vertex_store(),
                self.index_store() == old(self).index_store(),
            decreases quads@.len() - i,
        {
            let quad = quads[i];
            self.quad_batcher.add_quad(quad.corners, quad.color);
            proof {
                let upto = quads@.take(i + 1);
                assert(upto.drop_last() =~= quads@.take(i as int));
                assert(upto.last() == quads@[i as int]);
                assert(self.batcher()@ =~= old(self).batcher()@ + quads_vertices(upto));
            }
            i += 1;
        }
        assert(quads@.take(quads@.len() as int) =~= quads@);
    }

    fn ensure_buffer(
        buffers: &mut Vec<Buffer>,
        kind: BufferKind,
        batch: usize,
        needed: u64,
        steps: &mut Vec<RenderStep>,
    )
        requires
            batch <= old(buffers)@.len(),
            forall|j: int| 0 <= j < old(buffers)@.len() ==> !(#[trigger] old(buffers)@[j]).destroyed,
        ensures
            final(steps)@ == old(steps)@ + ensure_steps(kind, batch as int, old(buffers)@, needed as int),
            final(buffers)@ == if batch < old(buffers)@.len() {
                old(buffers)@.update(
                    batch as int,
                    ensured(batch as int, old(buffers)@, needed as int),
                )
            } else {
                old(buffers)@.push(ensured(batch as int, old(buffers)@, needed as int))
            },
    {
        if batch >= buffers.len() {
            steps.push(RenderStep::CreateBuffer { kind, batch, size: needed });
            buffers.push(Buffer::new(needed));
        } else if !buffers[batch].holds(needed) {
            steps.push(RenderStep::ReplaceBuffer { kind, batch, size: needed });
            let mut stale = buffers[batch];
            stale.destroy();
            buffers.set(batch, Buffer::new(needed));
        } else {
            assert(steps@ =~= old(steps)@ + Seq::<RenderStep>::empty());
            assert(buffers@ =~= old(buffers)@.update(batch as int, old(buffers)@[batch as int]));
        }
    }

    fn update_buffers(&mut self, steps: &mut Vec<RenderStep>)
        requires
            old(self).wf(),
        ensures
            final(self).wf(),
            final(self).batcher() == old(self).batcher(),
            final(steps)@ == old(steps)@ + uploads(
                old(self).vertex_store(),
                old(self).index_store(),
                old(self).batcher().state().batches,
                old(self).batcher().layout().len() as int,
            ),
            final(self).vertex_store() == buffers_after(
                old(self).vertex_store(),
                vertex_needs(old(self).batcher().state().batches),
            ),
            final(self).index_store() == buffers_after(
                old(self).index_store(),
                index_needs(old(self).batcher().state().batches),
            ),
    {
        let ghost views = self.batcher().state().batches;
        let ghost vertex_before = self.vertex_store();
        let ghost index_before = self.index_store();
        let count = self.quad_batcher.batches().len();
        let mut j: usize = 0;
        assert(steps@ =~= old(steps)@ + uploads(vertex_before, index_before, views, 0));
        while j < count
            invariant
                j <= count,
                count == views.len(),
                views == self.batcher().state().batches,
                self.batcher() == old(self).batcher(),
                self.batcher().wf(),
                vertex_before.len() == index_before.len(),
                steps@ == old(steps)@ + uploads(vertex_before, index_before, views, j as int),
                self.vertex_buffers@.len() == if vertex_before.len() > j {
                    vertex_before.len()
                } else {
                    j as nat
                },
                self.index_buffers@.len() == self.vertex_buffers@.len(),
                forall|k: int|
                    0 <= k < j ==> #[trigger] self.vertex_buffers@[k] == ensured(
                        k,
                        vertex_before,
                        vertex_bytes(views[k]),
                    ),
                forall|k: int|
                    j <= k < self.vertex_buffers@.len() ==> #[trigger] self.vertex_buffers@[k]
                        == vertex_before[k],
                forall|k: int|
                    0 <= k < j ==> #[trigger] self.index_buffers@[k] == ensured(
                        k,
                        index_before,
                        index_bytes(views[k]),
                    ),
                forall|k: int|
                    j <= k < self.index_buffers@.len() ==> #[trigger] self.index_buffers@[k]
                        == index_before[k],
                forall|k: int|
                    0 <= k < vertex_before.len() ==> !(#[trigger] vertex_before[k]).destroyed,
                forall|k: int|
                    0 <= k < index_before.len() ==> !(#[trigger] index_before[k]).destroyed,
            decreases count - j,
        {
            let batch = &self.quad_batcher.batches()[j];
            assert(batch.wf());
            assert(batch@ == views[j as int]);
            proof {
                batch.law_geometry();
            }
            let vertex_size: u64 = VERTEX_SIZE * (batch.vertices().len() as u64);
            let index_size: u64 = INDEX_SIZE * (batch.indices().len() as u64);
            let ghost steps_before = steps@;
            let ghost vertex_now = self.vertex_buffers@;
            let ghost index_now = self.index_buffers@;
            Self::ensure_buffer(&mut self.vertex_buffers, BufferKind::Vertex, j, vertex_size, steps);
            Self::ensure_buffer(&mut self.index_buffers, BufferKind::Index, j, index_size, steps);
            steps.push(RenderStep::UploadVertices { batch: j });
            steps.push(RenderStep::UploadIndices { batch: j });
            proof {
                assert(ensure_steps(BufferKind::Vertex, j as int, vertex_now, vertex_size as int)
                    == ensure_steps(
                    BufferKind::Vertex,
                    j as int,
                    vertex_before,
                    vertex_bytes(views[j as int]),
                ));
                assert(ensure_steps(BufferKind::Index, j as int, index_now, index_size as int)
                    == ensure_steps(
                    BufferKind::Index,
                    j as int,
                    index_before,
                    index_bytes(views[j as int]),
                ));
                assert(steps@ =~= steps_before + upload_steps(
                    vertex_before,
                    index_before,
                    views,
                    j as int,
                ));
                assert(steps@ =~= old(steps)@ + uploads(
                    vertex_before,
                    index_before,
                    views,
                    j + 1,
                ));
            }
            j += 1;
        }
        assert(self.vertex_buffers@ =~= buffers_after(vertex_before, vertex_needs(views)));
        assert(self.index_buffers@ =~= buffers_after(index_before, index_needs(views)));
    }

    fn record_draws(&self, steps: &mut Vec<RenderStep>)
        requires
            self.wf(),
        ensures
            final(steps)@ == old(steps)@ + seq![
                RenderStep::BindDescriptorSets,
                RenderStep::BindPipeline,
            ] + draws(
                self.batcher().state().batches,
                self.batcher().layout().len() as int,
            ),
    {
        let ghost views = self.batcher().state().batches;
        steps.push(RenderStep::BindDescriptorSets);
        steps.push(RenderStep::BindPipeline);
        let ghost base = steps@;
        assert(base =~= old(steps)@ + seq![
            RenderStep::BindDescriptorSets,
            RenderStep::BindPipeline,
        ]);
        let count = self.quad_batcher.batches().len();
        let mut j: usize = 0;
        assert(steps@ =~= base + draws(views, 0));
        while j < count
            invariant
                j <= count,
                count == views.len(),
                views == self.batcher().state().batches,
                self.batcher().wf(),
                steps@ == base + draws(views, j as int),
            decreases count - j,
        {
            let batch = &self.quad_batcher.batches()[j];
            assert(batch.wf());
            assert(batch@ == views[j as int]);
            proof {
                batch.law_geometry();
            }
            let index_count: u32 = batch.indices().len() as u32;
            steps.push(RenderStep::BindVertexBuffer { batch: j });
            steps.push(RenderStep::BindIndexBuffer { batch: j });
            steps.push(
                RenderStep::DrawIndexed {
                    index_count,
                    instance_count: 1,
                    first_index: 0,
                    vertex_offset: 0,
                    first_instance: 1,
                },
            );
            proof {
                assert(steps@ =~= base + draws(views, j as int) + draw_steps(views, j as int));
                assert(steps@ =~= base + draws(views, j + 1));
            }
            j += 1;
        }
    }

    /// Plans the drawing of one frame's quads. The quads join those that
    /// the batcher still holds; the batches that result are handed out with
    /// the steps that upload and draw them, and the batcher is left empty.
    /// Every batch then has a vertex buffer and an index buffer that hold
    /// its geometry.
    pub fn render(&mut self, quads: &Vec<Quad>) -> (plan: RenderPlan)
        requires
            old(self).wf(),
        ensures
            final(self).wf(),
            final(self).batcher().state() == fresh_state(old(self).batcher().limit()),
            final(self).batcher()@ == Seq::<Vertex>::empty(),
            ({
                let vertices = old(self).batcher()@ + quads_vertices(quads@);
                let capacity = old(self).batcher().capacity();
                let views = batch_views(plan.batches@);
                &&& plan.batches@.len() == batch_count(vertices.len() / 4, capacity)
                &&& forall|j: int|
                    0 <= j < plan.batches@.len() ==> (#[trigger] plan.batches@[j]).wf()
                        && plan.batches@[j]@ == batch_at(vertices, capacity, j)
                &&& plan.steps@ == render_steps(
                    old(self).vertex_store(),
                    old(self).index_store(),
                    views,
                )
                &&& final(self).vertex_store() == buffers_after(
                    old(self).vertex_store(),
                    vertex_needs(views),
                )
                &&& final(self).index_store() == buffers_after(
                    old(self).index_store(),
                    index_needs(views),
                )
                &&& forall|j: int|
                    0 <= j < plan.batches@.len() ==> {
                        &&& (#[trigger] final(self).vertex_store()[j]).size >= vertex_bytes(views[j])
                        &&& final(self).index_store()[j].size >= index_bytes(views[j])
                    }
            }),
    {
        let mut steps: Vec<RenderStep> = Vec::new();
        steps.push(RenderStep::UpdateUniformBuffer);
        assert(steps@ =~= seq![RenderStep::UpdateUniformBuffer]);
        self.add_quads(quads);
        let ghost views = self.batcher().state().batches;
        self.update_buffers(&mut steps);
        self.record_draws(&mut steps);
        proof {
            self.batcher().law_layout();
            assert forall|j: int| 0 <= j < views.len() implies {
                &&& (#[trigger] self.vertex_store()[j]).size >= vertex_bytes(views[j])
                &&& self.index_store()[j].size >= index_bytes(views[j])
            } by {
                self.batcher().layout()[j].law_geometry();
            }
        }
        let batches = self.quad_batcher.take_batches();
        assert(batch_views(batches@) =~= views);
        RenderPlan { batches, steps }
    }

    fn destroy_buffers(buffers: &mut Vec<Buffer>, kind: BufferKind, steps: &mut Vec<DestroyStep>)
        requires
            forall|j: int| 0 <= j < old(buffers)@.len() ==> !(#[trigger] old(buffers)@[j]).destroyed,
        ensures
            final(buffers)@ == Seq::<Buffer>::empty(),
            final(steps)@ == old(steps)@ + buffer_destroys(kind, old(buffers)@.len() as int),
    {
        let count = buffers.len();
        let mut j: usize = 0;
        assert(steps@ =~= old(steps)@ + buffer_destroys(kind, 0));
        while j < count
            invariant
                j <= count,
                count == buffers@.len(),
                buffers@ == old(buffers)@,
                forall|k: int| 0 <= k < buffers@.len() ==> !(#[trigger] buffers@[k]).destroyed,
                steps@ == old(steps)@ + buffer_destroys(kind, j as int),
            decreases count - j,
        {
            let mut buffer = buffers[j];
            buffer.destroy();
            steps.push(DestroyStep::DestroyBuffer { kind, batch: j });
            assert(steps@ =~= old(steps)@ + buffer_destroys(kind, j + 1));
            j += 1;
        }
        buffers.clear();
    }

    /// Takes the render system down: every buffer is destroyed, once, after
    /// the device has become idle. What is left holds no buffer.
    pub fn destroy(&mut self) -> (steps: Vec<DestroyStep>)
        requires
            old(self).wf(),
        ensures
            final(self).wf(),
            final(self).batcher() == old(self).batcher(),
            final(self).vertex_store() == Seq::<Buffer>::empty(),
            final(self).index_store() == Seq::<Buffer>::empty(),
            steps@ == destroy_steps(old(self).vertex_store().len() as int),
    {
        let mut steps: Vec<DestroyStep> = Vec::new();
        steps.push(DestroyStep::WaitIdle);
        Self::destroy_buffers(&mut self.vertex_buffers, BufferKind::Vertex, &mut steps);
        Self::destroy_buffers(&mut self.index_buffers, BufferKind::Index, &mut steps);
        steps.push(DestroyStep::DestroyPipeline);
        steps.push(DestroyStep::DestroyUniformBuffer);
        steps.push(DestroyStep::DestroyDescriptorSetLayouts);
        steps.push(DestroyStep::DestroyDescriptorPool);
        steps.push(DestroyStep::DestroyVertexShader);
        steps.push(DestroyStep::DestroyFragmentShader);
        assert(steps@ =~= destroy_steps(old(self).vertex_store().len() as int));
        steps
    }
}

} // verus!
