//! Per-frame draw lists: geometry and the ordered commands that draw it.
use vstd::prelude::*;

use crate::registry::TextureId;
use crate::scissor::{clamp_scissor, scissor_spec, ClipRect, Scissor};

verus! {

/// One draw call's worth of a draw list: the next `elem_count` indices of the list's
/// index buffer, drawn with one texture inside one clip rectangle.
#[derive(Clone, Copy, Debug, PartialEq, Eq, Structural)]
pub struct DrawCmd {
    pub elem_count: u32,
    pub texture_id: TextureId,
    pub clip_rect: ClipRect,
}

/// Why a draw list was refused.
#[derive(Clone, Copy, Debug, PartialEq, Eq, Structural)]
pub enum DrawListError {
    /// The index buffer holds more indices than a draw range can address.
    TooManyIndices,
    /// The commands' element counts do not add up to the index buffer's length.
    CommandsDoNotCoverIndices,
}

/// Sum of the element counts of `cmds`.
pub open spec fn elem_total(cmds: Seq<DrawCmd>) -> nat
    decreases cmds.len(),
{
    if cmds.len() == 0 {
        0
    } else {
        elem_total(cmds.drop_last()) + cmds.last().elem_count as nat
    }
}

/// Where the `i`-th of `cmds` starts in the index buffer: after all the commands before it.
pub open spec fn command_start(cmds: Seq<DrawCmd>, i: int) -> nat {
    elem_total(cmds.take(i))
}

/// The index range `[start, end)` that one command of a draw list covers.
#[derive(Clone, Copy, Debug, PartialEq, Eq, Structural)]
pub struct IndexRange {
    pub start: u32,
    pub end: u32,
}

/// One draw call: the index range to draw, the texture to sample, and the scissor
/// rectangle to draw inside.
#[derive(Clone, Copy, Debug, PartialEq, Eq, Structural)]
pub struct DrawCall {
    pub texture_id: TextureId,
    pub range: IndexRange,
    pub scissor: Scissor,
}

/// The draw call of the `j`-th of `cmds` in a framebuffer of `fb_width` by `fb_height`:
/// its texture, its index range, and its clip rectangle clamped to the framebuffer.
pub open spec fn draw_call_spec(cmds: Seq<DrawCmd>, j: int, fb_width: u16, fb_height: u16) -> DrawCall {
    DrawCall {
        texture_id: cmds[j].texture_id,
        range: IndexRange { start: command_start(cmds, j) as u32, end: command_start(cmds, j + 1) as u32 },
        scissor: scissor_spec(cmds[j].clip_rect, fb_width, fb_height),
    }
}

/// The largest index count that a draw list may hold.
pub const MAX_INDICES: usize = 0xffff_ffff;

/// A draw list as the GUI core emits it for one frame: a vertex buffer, an index
/// buffer, and commands that cover the index buffer in order, without gap or overlap.
/// The vertex type is the backend's business and is never looked into here.
pub struct DrawList<V> {
    vtx_buffer: Vec<V>,
    idx_buffer: Vec<u16>,
    cmd_buffer: Vec<DrawCmd>,
}

impl<V> DrawList<V> {
    pub closed spec fn vertices(&self) -> Seq<V> {
        self.vtx_buffer@
    }

    pub closed spec fn indices(&self) -> Seq<u16> {
        self.idx_buffer@
    }

    pub closed spec fn commands(&self) -> Seq<DrawCmd> {
        self.cmd_buffer@
    }

    /// The commands cover the index buffer exactly, and every range fits a `u32`.
    pub open spec fn wf(&self) -> bool {
        &&& elem_total(self.commands()) == self.indices().len()
        &&& self.indices().len() <= MAX_INDICES
    }

    #[verifier::type_invariant]
    closed spec fn inv(&self) -> bool {
        self.wf()
    }

    /// A draw list from its buffers. Refused when the commands' element counts do not
    /// add up to the number of indices, or when there are more indices than
    /// [`MAX_INDICES`].
    pub fn new(vtx_buffer: Vec<V>, idx_buffer: Vec<u16>, cmd_buffer: Vec<DrawCmd>) -> (r: Result<
        Self,
        DrawListError,
    >)
        ensures
            idx_buffer@.len() > MAX_INDICES ==> r == Err::<Self, _>(DrawListError::TooManyIndices),
            idx_buffer@.len() <= MAX_INDICES && elem_total(cmd_buffer@) != idx_buffer@.len()
                ==> r == Err::<Self, _>(DrawListError::CommandsDoNotCoverIndices),
            idx_buffer@.len() <= MAX_INDICES && elem_total(cmd_buffer@) == idx_buffer@.len()
                ==> r is Ok,
            r matches Ok(list) ==> list.vertices() == vtx_buffer@ && list.indices() == idx_buffer@
                && list.commands() == cmd_buffer@,
    {
        let len = idx_buffer.len();
        if len > MAX_INDICES {
            return Err(DrawListError::TooManyIndices);
        }
        let mut total: u64 = 0;
        let mut i: usize = 0;
        while i < cmd_buffer.len()
            invariant
                i <= cmd_buffer@.len(),
                total as nat == elem_total(cmd_buffer@.take(i as int)),
                total <= len,
                len == idx_buffer@.len(),
                len <= MAX_INDICES,
            decreases cmd_buffer@.len() - i,
        {
            proof {
                lemma_elem_total_take_step(cmd_buffer@, i as int);
            }
            total = total + cmd_buffer[i].elem_count as u64;
            if total > len as u64 {
                proof {
                    lemma_elem_total_take_monotone(cmd_buffer@, i as int + 1, cmd_buffer@.len() as int);
                    assert(cmd_buffer@.take(cmd_buffer@.len() as int) =~= cmd_buffer@);
                }
                return Err(DrawListError::CommandsDoNotCoverIndices);
            }
            i = i + 1;
        }
        assert(cmd_buffer@.take(cmd_buffer@.len() as int) =~= cmd_buffer@);
        if total != len as u64 {
            return Err(DrawListError::CommandsDoNotCoverIndices);
        }
        Ok(DrawList { vtx_buffer, idx_buffer, cmd_buffer })
    }

    pub fn vtx_buffer(&self) -> (r: &[V])
        ensures
            r@ == self.vertices(),
    {
        self.vtx_buffer.as_slice()
    }

    pub fn idx_buffer(&self) -> (r: &[u16])
        ensures
            r@ == self.indices(),
    {
        self.idx_buffer.as_slice()
    }

    pub fn cmd_buffer(&self) -> (r: &Vec<DrawCmd>)
        ensures
            r@ == self.commands(),
    {
        &self.cmd_buffer
    }

    /// The index range of each command, in order: the first starts at `0`, each one
    /// ends where the next starts, and the last ends at the index buffer's length.
    pub fn command_ranges(&self) -> (r: Vec<IndexRange>)
        ensures
            r@.len() == self.commands().len(),
            forall|i: int|
                0 <= i < r@.len() ==> #[trigger] r@[i].start == command_start(self.commands(), i)
                    && r@[i].end == command_start(self.commands(), i + 1),
    {
        proof {
            use_type_invariant(self);
        }
        let mut ranges: Vec<IndexRange> = Vec::new();
        let mut start: u32 = 0;
        let mut i: usize = 0;
        while i < self.cmd_buffer.len()
            invariant
                i <= self.commands().len(),
                self.wf(),
                ranges@.len() == i,
                start as nat == command_start(self.commands(), i as int),
                forall|j: int|
                    0 <= j < i ==> #[trigger] ranges@[j].start == command_start(self.commands(), j)
                        && ranges@[j].end == command_start(self.commands(), j + 1),
            decreases self.commands().len() - i,
        {
            proof {
                lemma_elem_total_take_step(self.commands(), i as int);
                lemma_elem_total_take_monotone(self.commands(), i as int + 1, self.commands().len() as int);
                assert(self.commands().take(self.commands().len() as int) =~= self.commands());
            }
            let end = start + self.cmd_buffer[i].elem_count;
            ranges.push(IndexRange { start, end });
            assert(ranges@[i as int].start == command_start(self.commands(), i as int));
            start = end;
            i = i + 1;
        }
        ranges
    }
    /// The draw calls of this list, one per command and in command order: each covers
    /// its command's index range, samples its command's texture, and has its command's
    /// clip rectangle clamped to a framebuffer of `fb_width` by `fb_height`.
    pub fn draw_calls(&self, fb_width: u16, fb_height: u16) -> (r: Vec<DrawCall>)
        ensures
            r@.len() == self.commands().len(),
            forall|j: int|
                0 <= j < r@.len() ==> {
                    &&& #[trigger] r@[j].texture_id == self.commands()[j].texture_id
                    &&& r@[j].range.start == command_start(self.commands(), j)
                    &&& r@[j].range.end == command_start(self.commands(), j + 1)
                    &&& r@[j].scissor == scissor_spec(self.commands()[j].clip_rect, fb_width, fb_height)
                },
            forall|j: int|
                0 <= j < r@.len() ==> #[trigger] r@[j] == draw_call_spec(self.commands(), j, fb_width, fb_height),
    {
        let ranges = self.command_ranges();
        let mut calls: Vec<DrawCall> = Vec::new();
        let mut j: usize = 0;
        while j < ranges.len()
            invariant
                j <= ranges@.len(),
                ranges@.len() == self.commands().len(),
                calls@.len() == j,
                forall|i: int|
                    0 <= i < ranges@.len() ==> #[trigger] ranges@[i].start == command_start(self.commands(), i)
                        && ranges@[i].end == command_start(self.commands(), i + 1),
                forall|i: int|
                    0 <= i < j ==> {
                        &&& #[trigger] calls@[i].texture_id == self.commands()[i].texture_id
                        &&& calls@[i].range.start == command_start(self.commands(), i)
                        &&& calls@[i].range.end == command_start(self.commands(), i + 1)
                        &&& calls@[i].scissor == scissor_spec(self.commands()[i].clip_rect, fb_width, fb_height)
                    },
                forall|i: int|
                    0 <= i < j ==> #[trigger] calls@[i] == draw_call_spec(self.commands(), i, fb_width, fb_height),
            decreases ranges@.len() - j,
        {
            let cmd = self.cmd_buffer[j];
            let range = ranges[j];
            assert(command_start(self.commands(), j as int) as u32 == range.start) by {
                assert(command_start(self.commands(), j as int) == range.start as nat);
            }
            assert(command_start(self.commands(), j as int + 1) as u32 == range.end) by {
                assert(command_start(self.commands(), j as int + 1) == range.end as nat);
            }
            let call = DrawCall {
                texture_id: cmd.texture_id,
                range,
                scissor: clamp_scissor(cmd.clip_rect, fb_width, fb_height),
            };
            calls.push(call);
            assert(calls@[j as int] == call);
            assert(call.range == draw_call_spec(self.commands(), j as int, fb_width, fb_height).range);
            j = j + 1;
        }
        calls
    }
}

/// Taking one more command adds its element count.
pub proof fn lemma_elem_total_take_step(cmds: Seq<DrawCmd>, i: int)
    requires
        0 <= i < cmds.len(),
    ensures
        elem_total(cmds.take(i + 1)) == elem_total(cmds.take(i)) + cmds[i].elem_count as nat,
{
    assert(cmds.take(i + 1).drop_last() =~= cmds.take(i));
}

/// Taking more commands never lowers the total.
pub proof fn lemma_elem_total_take_monotone(cmds: Seq<DrawCmd>, i: int, j: int)
    requires
        0 <= i <= j <= cmds.len(),
    ensures
        elem_total(cmds.take(i)) <= elem_total(cmds.take(j)),
    decreases j - i,
{
    if i < j {
        lemma_elem_total_take_step(cmds, j - 1);
        lemma_elem_total_take_monotone(cmds, i, j - 1);
    }
}

/// The commands of a draw list cover its index buffer: the first starts at `0`, each
/// one starts where the previous ended, and the element counts add up to the number
/// of indices, which is where the last one ends.
pub proof fn lemma_command_coverage<V>(list: DrawList<V>)
    requires
        list.wf(),
    ensures
        elem_total(list.commands()) == list.indices().len(),
        command_start(list.commands(), 0) == 0,
        command_start(list.commands(), list.commands().len() as int) == list.indices().len(),
        forall|i: int|
            0 <= i < list.commands().len() ==> #[trigger] command_start(list.commands(), i + 1)
                == command_start(list.commands(), i) + list.commands()[i].elem_count as nat,
{
    let cmds = list.commands();
    assert(cmds.take(0) =~= Seq::<DrawCmd>::empty());
    assert(cmds.take(cmds.len() as int) =~= cmds);
    assert forall|i: int| 0 <= i < cmds.len() implies #[trigger] command_start(cmds, i + 1)
        == command_start(cmds, i) + cmds[i].elem_count as nat by {
        lemma_elem_total_take_step(cmds, i);
    }
}

} // verus!
