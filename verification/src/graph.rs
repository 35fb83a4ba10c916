//! The graph builder and the per-frame executor.
//!
//! A builder accumulates task nodes in declaration order and freezes into a
//! graph once the device has handed over one command buffer and one signaled
//! fence per frame slot. The graph then steps through a fixed per-frame state
//! machine: acquire the slot (with a non-blocking fence check as the
//! backpressure mechanism), process each task's resolved resources into
//! batched barriers, and close the frame with at most one submission and at
//! most one presentation before rotating to the next slot.
//!
//! Everything the device does (the fence wait itself, command recording,
//! queue submission, presentation, the clock) happens outside; its outcomes
//! are handed in as plain values and the decisions taken on them are proved
//! here.

use vstd::prelude::*;

use crate::access::{BufferAccess, ImageAccess};
use crate::barrier::{
    buf_after, img_after, lemma_naive_seq_merges, merge_barriers, naive_barriers, qual_key_set,
    qual_merged, stage_key, ImageAspect, PipelineBarrier, Qualifier,
};
use crate::hazard::{Buffer, HazardTables, Image};

verus! {

/// How many frame slots (command buffer + fence pairs) may be in flight.
pub const MAX_FRAMES_IN_FLIGHT: usize = 2;

/// Opaque handle to a binary semaphore of the device collaborator.
pub type BinarySemaphore = u32;

/// Opaque handle to a swapchain of the device collaborator.
pub type Swapchain = u32;

/// Opaque handle to a recorded command buffer.
pub type CommandBuffer = u64;

/// Opaque handle to a fence gating one frame slot.
pub type Fence = u64;

/// A task's request to present the swapchain's last-acquired image.
#[derive(Clone, Copy, Debug, PartialEq, Eq, Structural)]
pub struct Present {
    pub wait_semaphore: BinarySemaphore,
}

/// A task's request to submit this frame's command buffer.
#[derive(Clone, Copy, Debug, PartialEq, Eq, Structural)]
pub struct Submit {
    pub wait_semaphore: Option<BinarySemaphore>,
    pub signal_semaphore: Option<BinarySemaphore>,
}

/// Setup failure: the device could not provide the per-slot command buffers
/// or fences when the graph was completed.
#[derive(Clone, Copy, Debug, PartialEq, Eq, Structural)]
pub enum Error {
    Creation,
}

/// Parameters for a new graph builder.
pub struct RenderGraphInfo<'a> {
    pub swapchain: Swapchain,
    pub debug_name: &'a str,
}

impl Default for RenderGraphInfo<'_> {
    fn default() -> (r: Self)
        ensures
            r.swapchain == u32::MAX,
            r.debug_name@ == "RenderGraphBuilder"@,
    {
        RenderGraphInfo { swapchain: u32::MAX, debug_name: "RenderGraphBuilder" }
    }
}

/// A declared resource of a task: the intended access, to be paired each
/// frame with the handle that the task's accessor resolves against the
/// caller's live context.
#[derive(Clone, Copy, Debug, PartialEq, Eq, Structural)]
pub enum Resource {
    Buffer(BufferAccess),
    Image(ImageAccess, ImageAspect),
}

/// The qualifier a declaration turns into once its accessor has yielded `handle`.
pub open spec fn spec_resolve(r: Resource, handle: u32) -> Qualifier {
    match r {
        Resource::Buffer(a) => Qualifier::Buffer(handle, a),
        Resource::Image(a, aspect) => Qualifier::Image(handle, a, aspect),
    }
}

/// Does `q` pair this declaration with some concrete handle?
pub open spec fn resolves_to(r: Resource, q: Qualifier) -> bool {
    match (r, q) {
        (Resource::Buffer(a), Qualifier::Buffer(_, qa)) => qa == a,
        (Resource::Image(a, aspect), Qualifier::Image(_, qa, qaspect)) => qa == a && qaspect
            == aspect,
        _ => false,
    }
}

impl Resource {
    /// Pair this declaration with the handle its accessor yielded this frame.
    pub fn resolve(&self, handle: u32) -> (q: Qualifier)
        ensures
            q == spec_resolve(*self, handle),
            resolves_to(*self, q),
    {
        match *self {
            Resource::Buffer(a) => Qualifier::Buffer(handle, a),
            Resource::Image(a, aspect) => Qualifier::Image(handle, a, aspect),
        }
    }
}

/// One GPU work unit as handed to `add`: its resource declarations in the
/// order they are resolved each frame. Its body, which records commands
/// against the frame's command buffer, lives with the embedding application.
pub struct Task {
    pub resources: Vec<Resource>,
}

/// A task frozen into the graph's ordered node list.
pub struct Node {
    pub resources: Vec<Resource>,
}

/// Accumulates tasks, in declaration order, until `complete` freezes them.
pub struct RenderGraphBuilder {
    pub swapchain: Swapchain,
    pub nodes: Vec<Node>,
    pub debug_name: String,
}

/// The graph state behind the per-frame lock: the frozen node list and the
/// frame-timing clock.
pub struct RenderGraphModify {
    pub current_instant: u64,
    pub last_instant: u64,
    pub nodes: Vec<Node>,
}

/// Where the executor stands inside the per-frame state machine.
#[derive(Clone, Copy, Debug, PartialEq, Eq, Structural)]
pub enum FramePhase {
    /// Between frames; `begin_frame` is the only legal step.
    Idle,
    /// Recording this frame; `next_task` tasks have been processed so far.
    Recording { next_task: usize },
}

/// Is the executor mid-frame?
pub open spec fn is_recording(phase: FramePhase) -> bool {
    match phase {
        FramePhase::Recording { .. } => true,
        FramePhase::Idle => false,
    }
}

/// How many tasks the current frame has processed (meaningful only while
/// recording).
pub open spec fn recording_next(phase: FramePhase) -> int {
    match phase {
        FramePhase::Recording { next_task } => next_task as int,
        FramePhase::Idle => 0,
    }
}

impl RenderGraphBuilder {
    /// A fresh builder with no tasks.
    pub fn new(info: &RenderGraphInfo<'_>) -> (b: Self)
        ensures
            b.swapchain == info.swapchain,
            b.nodes@.len() == 0,
            b.debug_name@ == info.debug_name@,
    {
        RenderGraphBuilder {
            swapchain: info.swapchain,
            nodes: Vec::new(),
            debug_name: info.debug_name.to_owned(),
        }
    }

    /// Append a task to the pending list. No validation happens here: a
    /// declaration that does not match what the task body does surfaces only
    /// as GPU-level misbehavior at execution time.
    pub fn add(&mut self, task: Task)
        ensures
            final(self).nodes@ == old(self).nodes@.push(Node { resources: task.resources }),
            final(self).swapchain == old(self).swapchain,
            final(self).debug_name == old(self).debug_name,
    {
        let Task { resources } = task;
        self.nodes.push(Node { resources });
    }

    /// Freeze the task list into a graph. The embedding application asks the
    /// device for one command buffer and one signaled fence per frame slot
    /// and hands the results in; if either allocation failed, or yielded the
    /// wrong count, the graph cannot be built and `Creation` is returned with
    /// no partial graph. `now` is the monotonic clock baseline for frame
    /// timing.
    pub fn complete(
        self,
        command_buffers: Option<Vec<CommandBuffer>>,
        fences: Option<Vec<Fence>>,
        now: u64,
    ) -> (r: Result<RenderGraph, Error>)
        ensures
            r is Ok <==> ((command_buffers matches Some(cb) && cb@.len() == MAX_FRAMES_IN_FLIGHT)
                && (fences matches Some(f) && f@.len() == MAX_FRAMES_IN_FLIGHT)),
            match r {
                Ok(g) => {
                    &&& g.wf()
                    &&& g.swapchain == self.swapchain
                    &&& g.modify.nodes == self.nodes
                    &&& Some(g.command_buffers) == command_buffers
                    &&& Some(g.fences) == fences
                    &&& g.current_frame == 0
                    &&& g.phase == FramePhase::Idle
                    &&& g.modify.current_instant == now
                    &&& g.modify.last_instant == now
                    &&& g.tables.images() == Map::<Image, ImageAccess>::empty()
                    &&& g.tables.buffers() == Map::<Buffer, BufferAccess>::empty()
                },
                Err(e) => e == Error::Creation,
            },
    {
        let RenderGraphBuilder { swapchain, nodes, .. } = self;
        match (command_buffers, fences) {
            (Some(cb), Some(f)) => {
                if cb.len() == MAX_FRAMES_IN_FLIGHT && f.len() == MAX_FRAMES_IN_FLIGHT {
                    Ok(
                        RenderGraph {
                            swapchain,
                            command_buffers: cb,
                            fences: f,
                            modify: RenderGraphModify {
                                current_instant: now,
                                last_instant: now,
                                nodes,
                            },
                            current_frame: 0,
                            tables: HazardTables::new(),
                            phase: FramePhase::Idle,
                        },
                    )
                } else {
                    Err(Error::Creation)
                }
            },
            _ => Err(Error::Creation),
        }
    }
}

/// The frozen, executable graph: the per-slot device handles, the frame
/// clock, the hazard tables of the frame being recorded, and the executor's
/// position in the per-frame state machine.
pub struct RenderGraph {
    pub swapchain: Swapchain,
    pub command_buffers: Vec<CommandBuffer>,
    pub fences: Vec<Fence>,
    pub modify: RenderGraphModify,
    pub current_frame: usize,
    pub tables: HazardTables,
    pub phase: FramePhase,
}

impl RenderGraph {
    /// Well-formedness: one command buffer and fence per slot, the slot index
    /// in range, the clock monotone, and the task cursor within the node list.
    pub open spec fn wf(self) -> bool {
        &&& self.command_buffers@.len() == MAX_FRAMES_IN_FLIGHT
        &&& self.fences@.len() == MAX_FRAMES_IN_FLIGHT
        &&& self.current_frame < MAX_FRAMES_IN_FLIGHT
        &&& self.modify.last_instant <= self.modify.current_instant
        &&& recording_next(self.phase) <= self.modify.nodes@.len()
    }

    /// The wall-clock delta between the two most recent successful frame
    /// starts.
    pub fn frame_time(&self) -> (t: u64)
        requires
            self.wf(),
        ensures
            t == self.modify.current_instant - self.modify.last_instant,
    {
        self.modify.current_instant - self.modify.last_instant
    }

    /// Acquire the current frame slot. The caller performs the zero-timeout
    /// wait on this slot's fence and hands the outcome in as
    /// `fence_signaled`, with `now` a fresh reading of its monotonic clock.
    ///
    /// Backpressure law: when the fence is not signaled the frame is dropped
    /// — the call mutates nothing at all (hazard tables, node list and the
    /// frame-timing clock included) and the caller must record and submit
    /// nothing. When it is signaled, the caller resets the fence and opens
    /// the slot's command buffer; here the clock advances, the hazard tables
    /// are cleared, and recording starts at the first task.
    pub fn begin_frame(&mut self, fence_signaled: bool, now: u64) -> (proceed: bool)
        requires
            old(self).wf(),
            old(self).phase == FramePhase::Idle,
            now >= old(self).modify.current_instant,
        ensures
            final(self).wf(),
            proceed == fence_signaled,
            !fence_signaled ==> *final(self) == *old(self),
            fence_signaled ==> {
                &&& final(self).phase == (FramePhase::Recording { next_task: 0 })
                &&& final(self).tables.images() == Map::<Image, ImageAccess>::empty()
                &&& final(self).tables.buffers() == Map::<Buffer, BufferAccess>::empty()
                &&& final(self).modify.last_instant == old(self).modify.current_instant
                &&& final(self).modify.current_instant == now
                &&& final(self).modify.nodes == old(self).modify.nodes
                &&& final(self).current_frame == old(self).current_frame
                &&& final(self).swapchain == old(self).swapchain
                &&& final(self).command_buffers == old(self).command_buffers
                &&& final(self).fences == old(self).fences
            },
    {
        if !fence_signaled {
            return false;
        }
        self.modify.last_instant = self.modify.current_instant;
        self.modify.current_instant = now;
        self.tables = HazardTables::new();
        self.phase = FramePhase::Recording { next_task: 0 };
        true
    }

    /// Process the next task in declaration order: derive one naive barrier
    /// per resolved resource against the hazard tables (advancing the tables
    /// entry by entry), then batch the naive barriers by their exact
    /// `(src_stage, dst_stage)` pair.
    ///
    /// `qualifiers` are the task's declarations resolved against the caller's
    /// live context, in declaration order; `sizes[i]` is the byte size the
    /// device reports for the buffer of qualifier `i` (ignored for images).
    ///
    /// The returned batches are exact: every batch holds precisely the naive
    /// barriers of its pair, in order; no two batches share a pair; and there
    /// are as many batches as distinct pairs, not as qualifiers. The caller
    /// emits each batch into the frame's command buffer and then runs the
    /// task body.
    pub fn run_task(&mut self, qualifiers: &Vec<Qualifier>, sizes: &Vec<u64>) -> (batches: Vec<
        PipelineBarrier,
    >)
        requires
            old(self).wf(),
            is_recording(old(self).phase),
            recording_next(old(self).phase) < old(self).modify.nodes@.len(),
            qualifiers@.len() == sizes@.len(),
            qualifiers@.len() == old(self).modify.nodes@[recording_next(
                old(self).phase,
            )].resources@.len(),
            forall|j: int|
                0 <= j < qualifiers@.len() ==> resolves_to(
                    old(self).modify.nodes@[recording_next(old(self).phase)].resources@[j],
                    #[trigger] qualifiers@[j],
                ),
        ensures
            final(self).wf(),
            final(self).phase == (FramePhase::Recording {
                next_task: (recording_next(old(self).phase) + 1) as usize,
            }),
            final(self).tables.images() == img_after(old(self).tables.images(), qualifiers@),
            final(self).tables.buffers() == buf_after(old(self).tables.buffers(), qualifiers@),
            final(self).modify == old(self).modify,
            final(self).current_frame == old(self).current_frame,
            final(self).swapchain == old(self).swapchain,
            final(self).command_buffers == old(self).command_buffers,
            final(self).fences == old(self).fences,
            forall|i: int, j: int|
                0 <= i < j < batches@.len() ==> stage_key(#[trigger] batches@[i]) != stage_key(
                    #[trigger] batches@[j],
                ),
            forall|i: int|
                0 <= i < batches@.len() ==> qual_key_set(
                    old(self).tables.images(),
                    old(self).tables.buffers(),
                    qualifiers@,
                    qualifiers@.len() as int,
                ).contains(stage_key(#[trigger] batches@[i])),
            forall|k: (u32, u32)|
                qual_key_set(
                    old(self).tables.images(),
                    old(self).tables.buffers(),
                    qualifiers@,
                    qualifiers@.len() as int,
                ).contains(k) ==> exists|i: int|
                    0 <= i < batches@.len() && stage_key(#[trigger] batches@[i]) == k,
            forall|i: int|
                0 <= i < batches@.len() ==> (#[trigger] batches@[i]).barriers@ == qual_merged(
                    old(self).tables.images(),
                    old(self).tables.buffers(),
                    qualifiers@,
                    sizes@,
                    qualifiers@.len() as int,
                    stage_key(batches@[i]),
                ),
            batches@.len() == qual_key_set(
                old(self).tables.images(),
                old(self).tables.buffers(),
                qualifiers@,
                qualifiers@.len() as int,
            ).len(),
    {
        let ghost m_img0 = self.tables.images();
        let ghost m_buf0 = self.tables.buffers();
        let naive = naive_barriers(&mut self.tables, qualifiers, sizes);
        proof {
            lemma_naive_seq_merges(
                m_img0,
                m_buf0,
                qualifiers@,
                sizes@,
                naive@,
                qualifiers@.len() as int,
            );
        }
        let batches = merge_barriers(naive);
        let total_tasks = self.modify.nodes.len();
        match self.phase {
            FramePhase::Recording { next_task } => {
                assert(next_task < total_tasks);
                self.phase = FramePhase::Recording { next_task: next_task + 1 };
            },
            FramePhase::Idle => {},
        }
        batches
    }

    /// A task body failed: abandon the rest of this frame (fail-fast). The
    /// recorded command buffer is left unsubmitted; the slot is re-acquired
    /// by a later frame once its fence would have signaled.
    pub fn abort_frame(&mut self)
        requires
            old(self).wf(),
            is_recording(old(self).phase),
        ensures
            final(self).wf(),
            final(self).phase == FramePhase::Idle,
            final(self).modify == old(self).modify,
            final(self).current_frame == old(self).current_frame,
            final(self).swapchain == old(self).swapchain,
            final(self).command_buffers == old(self).command_buffers,
            final(self).fences == old(self).fences,
            final(self).tables == old(self).tables,
    {
        self.phase = FramePhase::Idle;
    }

    /// Close out a fully recorded frame: decide the frame's single optional
    /// submission and single optional presentation from what the task bodies
    /// requested, then rotate to the next frame slot.
    ///
    /// A frame with no submit request must not touch the queue, and a frame
    /// with no present request must not present: each action comes back
    /// exactly when the matching request was made. A submission signals this
    /// slot's fence, so the next acquisition of this slot waits on exactly
    /// this frame's work.
    pub fn finish_frame(&mut self, submit: Option<Submit>, present: Option<Present>) -> (actions:
        FrameActions)
        requires
            old(self).wf(),
            is_recording(old(self).phase),
            recording_next(old(self).phase) == old(self).modify.nodes@.len(),
        ensures
            final(self).wf(),
            final(self).phase == FramePhase::Idle,
            final(self).current_frame == (old(self).current_frame + 1) % (
            MAX_FRAMES_IN_FLIGHT as int),
            final(self).modify == old(self).modify,
            final(self).swapchain == old(self).swapchain,
            final(self).command_buffers == old(self).command_buffers,
            final(self).fences == old(self).fences,
            actions.submit is Some <==> submit is Some,
            actions.present is Some <==> present is Some,
            match submit {
                Some(s) => actions.submit == Some(
                    SubmitAction {
                        wait_semaphore: s.wait_semaphore,
                        signal_semaphore: s.signal_semaphore,
                        command_buffer: old(self).command_buffers@[old(self).current_frame as int],
                        fence: old(self).fences@[old(self).current_frame as int],
                    },
                ),
                None => actions.submit is None,
            },
            match present {
                Some(p) => actions.present == Some(
                    PresentAction {
                        wait_semaphore: p.wait_semaphore,
                        swapchain: old(self).swapchain,
                    },
                ),
                None => actions.present is None,
            },
    {
        let submit_action = match submit {
            Some(s) => Some(
                SubmitAction {
                    wait_semaphore: s.wait_semaphore,
                    signal_semaphore: s.signal_semaphore,
                    command_buffer: self.command_buffers[self.current_frame],
                    fence: self.fences[self.current_frame],
                },
            ),
            None => None,
        };
        let present_action = match present {
            Some(p) => Some(
                PresentAction { wait_semaphore: p.wait_semaphore, swapchain: self.swapchain },
            ),
            None => None,
        };
        self.current_frame = (self.current_frame + 1) % MAX_FRAMES_IN_FLIGHT;
        self.phase = FramePhase::Idle;
        FrameActions { submit: submit_action, present: present_action }
    }
}

/// The frame's single submission, if a task requested one: the requests'
/// semaphores, this frame slot's command buffer, and this slot's fence.
#[derive(Clone, Copy, Debug, PartialEq, Eq)]
pub struct SubmitAction {
    pub wait_semaphore: Option<BinarySemaphore>,
    pub signal_semaphore: Option<BinarySemaphore>,
    pub command_buffer: CommandBuffer,
    pub fence: Fence,
}

/// The frame's single presentation, if a task requested one.
#[derive(Clone, Copy, Debug, PartialEq, Eq)]
pub struct PresentAction {
    pub wait_semaphore: BinarySemaphore,
    pub swapchain: Swapchain,
}

/// What the embedding application must do after the frame is closed.
#[derive(Clone, Copy, Debug, PartialEq, Eq)]
pub struct FrameActions {
    pub submit: Option<SubmitAction>,
    pub present: Option<PresentAction>,
}

/// The slot index after `k` further successful frames.
pub open spec fn rotated(c: int, k: nat) -> int
    decreases k,
{
    if k == 0 {
        c
    } else {
        (rotated(c, (k - 1) as nat) + 1) % (MAX_FRAMES_IN_FLIGHT as int)
    }
}

/// Law: frame-slot rotation is a pure modulo cycle — after
/// `MAX_FRAMES_IN_FLIGHT` consecutive successful frames the slot index equals
/// the value it had before them.
pub proof fn lemma_rotation_cycle(c: int)
    requires
        0 <= c < MAX_FRAMES_IN_FLIGHT,
    ensures
        rotated(c, MAX_FRAMES_IN_FLIGHT as nat) == c,
{
    assert(rotated(c, 0) == c);
    assert(rotated(c, 1) == (c + 1) % (MAX_FRAMES_IN_FLIGHT as int));
    assert(rotated(c, 2) == (rotated(c, 1) + 1) % (MAX_FRAMES_IN_FLIGHT as int));
}

} // verus!
