//! The user interface overlay: where the geometry of each draw list lies in
//! the buffers that all lists share, whether a buffer can be used again,
//! and which index ranges are drawn.

use vstd::prelude::*;

verus! {

/// The numbers of vertices and of indices of one draw list.
#[derive(Clone, Copy, Debug, PartialEq, Eq, Structural)]
pub struct DrawListSize {
    pub vertices: usize,
    pub indices: usize,
}

/// Where a draw list begins in the shared buffers.
#[derive(Clone, Copy, Debug, PartialEq, Eq, Structural)]
pub struct DrawListOffset {
    pub vertex_base: i32,
    pub index_base: u32,
}

/// The number of vertices of the first `n` draw lists.
pub open spec fn vertices_before(lists: Seq<DrawListSize>, n: int) -> int
    decreases n,
{
    if n <= 0 {
        0
    } else {
        vertices_before(lists, n - 1) + lists[n - 1].vertices
    }
}

/// The number of indices of the first `n` draw lists.
pub open spec fn indices_before(lists: Seq<DrawListSize>, n: int) -> int
    decreases n,
{
    if n <= 0 {
        0
    } else {
        indices_before(lists, n - 1) + lists[n - 1].indices
    }
}

proof fn lemma_counts_grow(lists: Seq<DrawListSize>, m: int, n: int)
    requires
        0 <= m <= n,
    ensures
        0 <= vertices_before(lists, m) <= vertices_before(lists, n),
        0 <= indices_before(lists, m) <= indices_before(lists, n),
    decreases n,
{
    if m < n {
        lemma_counts_grow(lists, m, n - 1);
    } else if n > 0 {
        lemma_counts_grow(lists, m - 1, n - 1);
    }
}

/// Where each draw list begins when the lists lie one behind the other:
/// at the number of vertices, and of indices, of the lists before it.
pub fn draw_list_offsets(lists: &Vec<DrawListSize>) -> (offsets: Vec<DrawListOffset>)
    requires
        vertices_before(lists@, lists@.len() as int) <= i32::MAX,
        indices_before(lists@, lists@.len() as int) <= u32::MAX,
    ensures
        offsets@.len() == lists@.len(),
        forall|j: int|
            0 <= j < lists@.len() ==> (#[trigger] offsets@[j]).vertex_base == vertices_before(
                lists@,
                j,
            ) && offsets@[j].index_base == indices_before(lists@, j),
{
    let mut offsets: Vec<DrawListOffset> = Vec::new();
    let mut vertex_count: i32 = 0;
    let mut index_count: u32 = 0;
    let mut i: usize = 0;
    while i < lists.len()
        invariant
            i <= lists@.len(),
            offsets@.len() == i,
            vertex_count == vertices_before(lists@, i as int),
            index_count == indices_before(lists@, i as int),
            vertices_before(lists@, lists@.len() as int) <= i32::MAX,
            indices_before(lists@, lists@.len() as int) <= u32::MAX,
            forall|j: int|
                0 <= j < i ==> (#[trigger] offsets@[j]).vertex_base == vertices_before(lists@, j)
                    && offsets@[j].index_base == indices_before(lists@, j),
        decreases lists@.len() - i,
    {
        offsets.push(DrawListOffset { vertex_base: vertex_count, index_base: index_count });
        proof {
            lemma_counts_grow(lists@, i + 1, lists@.len() as int);
            lemma_counts_grow(lists@, 0, i as int);
            assert(vertices_before(lists@, i + 1) == vertices_before(lists@, i as int)
                + lists@[i as int].vertices);
            assert(indices_before(lists@, i + 1) == indices_before(lists@, i as int)
                + lists@[i as int].indices);
        }
        vertex_count = vertex_count + lists[i].vertices as i32;
        index_count = index_count + lists[i].indices as u32;
        i += 1;
    }
    offsets
}

/// What is done with the buffer of a kind before new data is copied.
#[derive(Clone, Copy, Debug, PartialEq, Eq, Structural)]
pub enum BufferAction {
    /// There is no buffer yet: create one for the data.
    Create,
    /// The buffer holds fewer elements than the data has: create one for the
    /// data, then wait for the device to be idle and destroy the old one.
    Replace,
    /// The buffer holds the data.
    Reuse,
}

/// Whether the buffer, which holds `existing` elements where there is one,
/// can take `needed` elements.
pub fn buffer_action(existing: Option<usize>, needed: usize) -> (action: BufferAction)
    ensures
        action == match existing {
            None => BufferAction::Create,
            Some(size) => if size < needed {
                BufferAction::Replace
            } else {
                BufferAction::Reuse
            },
        },
{
    match existing {
        None => BufferAction::Create,
        Some(size) => {
            if size < needed {
                BufferAction::Replace
            } else {
                BufferAction::Reuse
            }
        },
    }
}

/// One command of a draw list: a number of indices, and whether its clip
/// rectangle meets the framebuffer.
#[derive(Clone, Copy, Debug, PartialEq, Eq, Structural)]
pub struct DrawCommand {
    pub count: usize,
    pub visible: bool,
}

/// One indexed draw of the overlay.
#[derive(Clone, Copy, Debug, PartialEq, Eq, Structural)]
pub struct IndexedDraw {
    pub index_count: u32,
    pub first_index: u32,
    pub vertex_offset: i32,
}

/// The number of indices of the first `n` commands.
pub open spec fn counts_before(commands: Seq<DrawCommand>, n: int) -> int
    decreases n,
{
    if n <= 0 {
        0
    } else {
        counts_before(commands, n - 1) + commands[n - 1].count
    }
}

/// The draws of the first `n` commands of a draw list that begins at
/// `offset`: one for every visible command, over the indices of that
/// command. The indices of a command that is not drawn are passed over.
pub open spec fn draws_of(commands: Seq<DrawCommand>, offset: DrawListOffset, n: int) -> Seq<
    IndexedDraw,
>
    decreases n,
{
    if n <= 0 {
        Seq::empty()
    } else if commands[n - 1].visible {
        draws_of(commands, offset, n - 1).push(
            IndexedDraw {
                index_count: commands[n - 1].count as u32,
                first_index: (offset.index_base + counts_before(commands, n - 1)) as u32,
                vertex_offset: offset.vertex_base,
            },
        )
    } else {
        draws_of(commands, offset, n - 1)
    }
}

proof fn lemma_command_counts_grow(commands: Seq<DrawCommand>, m: int, n: int)
    requires
        0 <= m <= n,
    ensures
        0 <= counts_before(commands, m) <= counts_before(commands, n),
    decreases n,
{
    if m < n {
        lemma_command_counts_grow(commands, m, n - 1);
    } else if n > 0 {
        lemma_command_counts_grow(commands, m - 1, n - 1);
    }
}

/// The draws of one draw list.
pub fn render_draw_list(commands: &Vec<DrawCommand>, offset: DrawListOffset) -> (draws: Vec<
    IndexedDraw,
>)
    requires
        offset.index_base + counts_before(commands@, commands@.len() as int) <= u32::MAX,
    ensures
        draws@ == draws_of(commands@, offset, commands@.len() as int),
{
    let mut draws: Vec<IndexedDraw> = Vec::new();
    let mut start: u32 = offset.index_base;
    let mut i: usize = 0;
    while i < commands.len()
        invariant
            i <= commands@.len(),
            start == offset.index_base + counts_before(commands@, i as int),
            offset.index_base + counts_before(commands@, commands@.len() as int) <= u32::MAX,
            draws@ == draws_of(commands@, offset, i as int),
        decreases commands@.len() - i,
    {
        proof {
            lemma_command_counts_grow(commands@, i + 1, commands@.len() as int);
            lemma_command_counts_grow(commands@, 0, i as int);
            assert(counts_before(commands@, i + 1) == counts_before(commands@, i as int)
                + commands@[i as int].count);
        }
        let command = commands[i];
        let count: u32 = command.count as u32;
        let end: u32 = start + count;
        if command.visible {
            draws.push(
                IndexedDraw {
                    index_count: count,
                    first_index: start,
                    vertex_offset: offset.vertex_base,
                },
            );
        }
        start = end;
        i += 1;
    }
    draws
}

} // verus!
