use vstd::prelude::*;

use crate::layout::MESH_VERTICES;

verus! {

/// Invocations per compute workgroup, fixed by the kernel.
pub const WORKGROUP_SIZE: u32 = 64;

/// Milliseconds that must pass between two throughput reports.
pub const REPORT_INTERVAL_MS: u64 = 1000;

/// Presentation queue depth: the only backpressure on frame submission. If
/// the device falls behind, submission stalls at this limit instead of
/// queueing without bound.
pub const MAX_FRAME_LATENCY: u32 = 2;

/// The two physical agent-state buffers. Which one plays which role
/// alternates every frame; the buffers themselves never move.
#[derive(Clone, Copy, Debug, PartialEq, Eq, Structural)]
pub enum BufferId {
    /// The first agent-state buffer.
    A,
    /// The second agent-state buffer.
    B,
}

/// The buffer holding the authoritative previous state on frame `frame`:
/// the one the compute pass reads and the render pass draws from.
pub open spec fn read_buffer(frame: nat) -> BufferId {
    if frame % 2 == 0 {
        BufferId::A
    } else {
        BufferId::B
    }
}

/// The buffer the compute pass writes on frame `frame`: always the one it
/// does not read.
pub open spec fn write_buffer(frame: nat) -> BufferId {
    if frame % 2 == 0 {
        BufferId::B
    } else {
        BufferId::A
    }
}

/// Workgroups needed to cover `n` invocations, `WORKGROUP_SIZE` at a time:
/// the least count whose coverage reaches `n`.
pub open spec fn workgroup_count(n: nat) -> nat {
    (n + 63) / 64
}

/// Workgroups dispatched for a population of `count`: they always cover the
/// whole population, the last group is never wholly past it, and an empty
/// population dispatches none.
pub fn workgroups_for(count: u32) -> (groups: u32)
    ensures
        groups == workgroup_count(count as nat),
        count <= WORKGROUP_SIZE * groups,
        count == 0 ==> groups == 0,
        count > 0 ==> WORKGROUP_SIZE * (groups - 1) < count,
{
    let wide: u64 = ((count as u64) + 63) / 64;
    wide as u32
}

/// Coverage has no gaps: every agent index below `n` lies inside one of the
/// dispatched workgroups, namely the one whose 64-wide span contains it.
pub proof fn lemma_workgroup_coverage(n: u32, i: u32)
    requires
        i < n,
    ensures
        (i as nat) / 64 < workgroup_count(n as nat),
        ((i as nat) / 64) * 64 <= i < ((i as nat) / 64) * 64 + 64,
{
}

/// Everything one frame's recording needs, fixed before the frame begins.
#[derive(Clone, Copy, Debug, PartialEq, Eq, Structural)]
pub struct FramePlan {
    /// Which prebuilt bind-group pair the compute pass binds.
    pub pair_index: usize,
    /// Buffer the compute pass reads: the previous frame's agent state.
    pub compute_read: BufferId,
    /// Buffer the compute pass writes: this frame's new agent state.
    pub compute_write: BufferId,
    /// Buffer the render pass draws its per-instance stream from.
    pub render_source: BufferId,
    /// Workgroups the compute dispatch issues.
    pub workgroups: u32,
    /// Instances the draw call covers: the whole population.
    pub instances: u32,
    /// Vertices per instance: the shared mesh.
    pub vertices: u32,
}

/// The plan of frame `frame` for a population of `population` agents.
pub open spec fn frame_plan(frame: nat, population: u32) -> FramePlan {
    FramePlan {
        pair_index: (frame % 2) as usize,
        compute_read: read_buffer(frame),
        compute_write: write_buffer(frame),
        render_source: read_buffer(frame),
        workgroups: workgroup_count(population as nat) as u32,
        instances: population,
        vertices: MESH_VERTICES,
    }
}

/// The central hazard-freedom fact: on every frame the render pass draws from
/// the very buffer the compute pass reads, that buffer is never the frame's
/// compute write target, and the roles swap exactly once per frame, starting
/// from buffer A read and buffer B written.
pub proof fn lemma_buffer_pair_alternation(frame: nat, population: u32)
    ensures
        frame_plan(frame, population).render_source == frame_plan(frame, population).compute_read,
        frame_plan(frame, population).compute_read != frame_plan(frame, population).compute_write,
        read_buffer(frame + 1) == write_buffer(frame),
        write_buffer(frame + 1) == read_buffer(frame),
        read_buffer(0) == BufferId::A,
        write_buffer(0) == BufferId::B,
{
}

/// The two bind-group pairs built once at startup, indexed by frame parity:
/// exactly (A read, B written) then (B read, A written), and nothing else.
pub fn bind_group_pairs() -> (pairs: Vec<(BufferId, BufferId)>)
    ensures
        pairs@.len() == 2,
        pairs@[0] == (BufferId::A, BufferId::B),
        pairs@[1] == (BufferId::B, BufferId::A),
{
    let mut pairs: Vec<(BufferId, BufferId)> = Vec::new();
    pairs.push((BufferId::A, BufferId::B));
    pairs.push((BufferId::B, BufferId::A));
    pairs
}

/// Every frame selects among the prebuilt pairs instead of building new ones:
/// its (read, write) pair is exactly the pair at its parity index.
pub proof fn lemma_plan_uses_prebuilt_pair(frame: nat, population: u32)
    ensures
        frame_plan(frame, population).pair_index == frame % 2,
        frame % 2 == 0 ==> (
        frame_plan(frame, population).compute_read,
        frame_plan(frame, population).compute_write,
        ) == (BufferId::A, BufferId::B),
        frame % 2 == 1 ==> (
        frame_plan(frame, population).compute_read,
        frame_plan(frame, population).compute_write,
        ) == (BufferId::B, BufferId::A),
{
}

/// How an attempt to acquire the presentation surface ended.
#[derive(Clone, Copy, Debug, PartialEq, Eq, Structural)]
pub enum AcquireOutcome {
    /// A frame target was acquired; the frame can proceed.
    Acquired,
    /// The surface was lost and must be rebuilt.
    Lost,
    /// The surface no longer matches the window and must be reconfigured.
    Outdated,
    /// The device ran out of memory.
    OutOfMemory,
    /// Any other acquisition failure.
    Other,
}

/// A failed frame, as surfaced to the orchestrator's caller.
#[derive(Clone, Copy, Debug, PartialEq, Eq, Structural)]
pub enum SurfaceFault {
    /// The surface was lost; reconfigure and retry next frame.
    Lost,
    /// The surface is outdated; reconfigure and retry next frame.
    Outdated,
    /// The device ran out of memory; fatal.
    OutOfMemory,
    /// An unclassified acquisition failure; fatal.
    Other,
}

/// Faults the caller recovers from by reconfiguring the surface and retrying
/// on the next frame; every other fault is fatal.
pub open spec fn recoverable_spec(f: SurfaceFault) -> bool {
    f == SurfaceFault::Lost || f == SurfaceFault::Outdated
}

impl SurfaceFault {
    /// Whether the caller should reconfigure and retry rather than abort.
    pub fn recoverable(&self) -> (r: bool)
        ensures
            r == recoverable_spec(*self),
    {
        match self {
            SurfaceFault::Lost => true,
            SurfaceFault::Outdated => true,
            SurfaceFault::OutOfMemory => false,
            SurfaceFault::Other => false,
        }
    }
}

/// The fault reported when acquisition ends in `a`; meaningful only for the
/// failed outcomes.
pub open spec fn fault_of(a: AcquireOutcome) -> SurfaceFault {
    match a {
        AcquireOutcome::Lost => SurfaceFault::Lost,
        AcquireOutcome::Outdated => SurfaceFault::Outdated,
        AcquireOutcome::OutOfMemory => SurfaceFault::OutOfMemory,
        _ => SurfaceFault::Other,
    }
}

/// Throughput bookkeeping. The frame counter doubles as the epoch selector:
/// its parity picks which buffer plays which role.
#[derive(Clone, Copy, Debug, PartialEq, Eq, Structural)]
pub struct Fps {
    /// Frames completed since startup.
    pub frame_num: u64,
    /// Value of `frame_num` when throughput was last reported.
    pub last_frame_num: u64,
    /// Clock reading, in milliseconds, when throughput was last reported.
    pub last_report_ms: u64,
}

/// One throughput observation: how many frames completed over how long; the
/// caller divides to obtain a rate.
#[derive(Clone, Copy, Debug, PartialEq, Eq, Structural)]
pub struct FpsReport {
    /// Frames completed since the previous report.
    pub frames: u64,
    /// Milliseconds elapsed since the previous report.
    pub elapsed_ms: u64,
}

/// The host-owned orchestration state: the presentation dimensions, the fixed
/// shape of the draw, and the frame counter. Per-agent data never appears
/// here — after the initial upload the host only selects roles and counts.
#[derive(Clone, Copy, Debug, PartialEq, Eq, Structural)]
pub struct State {
    /// Presentation surface width, in pixels.
    pub width: u32,
    /// Presentation surface height, in pixels.
    pub height: u32,
    /// Agents drawn each frame, fixed for the process lifetime.
    pub num_instances: u32,
    /// Vertices per drawn instance: the shared mesh.
    pub num_vertices: u32,
    /// Frame counter and throughput bookkeeping.
    pub fps: Fps,
}

/// Well-formedness of the orchestrator: throughput bookkeeping never runs
/// ahead of the frame counter, and the mesh size is the shared triangle's.
pub open spec fn wf(s: State) -> bool {
    s.fps.last_frame_num <= s.fps.frame_num && s.num_vertices == MESH_VERTICES
}

/// The state after a resize request: only the surface dimensions change, and
/// only when both are positive; a degenerate size leaves everything as it is.
pub open spec fn resized(s: State, new_width: u32, new_height: u32) -> State {
    if new_width > 0 && new_height > 0 {
        State { width: new_width, height: new_height, ..s }
    } else {
        s
    }
}

/// Resizing twice with identical dimensions is the same as resizing once:
/// nothing drifts on the second call — and a resize never touches the frame
/// counter, the population, or the buffer roles in the first place.
pub proof fn lemma_resize_idempotent(s: State, w: u32, h: u32)
    ensures
        resized(resized(s, w, h), w, h) == resized(s, w, h),
{
}

/// A resize with either dimension zero is a no-op: the whole orchestrator
/// state, surface dimensions included, stays exactly as it was.
pub proof fn lemma_resize_degenerate_noop(s: State, w: u32, h: u32)
    requires
        w == 0 || h == 0,
    ensures
        resized(s, w, h) == s,
{
}

/// What a successful frame hands back: the recording plan, and at most once
/// a second a throughput observation.
#[derive(Clone, Copy, Debug)]
pub struct FrameOutput {
    /// The plan this frame was recorded with.
    pub plan: FramePlan,
    /// The throughput observation, when the report interval has elapsed.
    pub report: Option<FpsReport>,
}

impl State {
    /// Fresh orchestrator for a surface of the given size and a fixed
    /// population, with the clock currently reading `now_ms`.
    pub fn new(width: u32, height: u32, population: u32, now_ms: u64) -> (s: State)
        ensures
            s.width == width,
            s.height == height,
            s.num_instances == population,
            s.num_vertices == MESH_VERTICES,
            s.fps.frame_num == 0,
            s.fps.last_frame_num == 0,
            s.fps.last_report_ms == now_ms,
            wf(s),
    {
        State {
            width,
            height,
            num_instances: population,
            num_vertices: MESH_VERTICES,
            fps: Fps { frame_num: 0, last_frame_num: 0, last_report_ms: now_ms },
        }
    }

    /// Reacts to a viewport change. Only the presentation dimensions are
    /// reconfigured, and only when both are positive; agent buffers, bind
    /// groups and pipelines are never touched. Returns whether the surface
    /// must be reconfigured.
    pub fn resize(&mut self, new_width: u32, new_height: u32) -> (reconfigure: bool)
        ensures
            *final(self) == resized(*old(self), new_width, new_height),
            reconfigure == (new_width > 0 && new_height > 0),
    {
        if new_width > 0 && new_height > 0 {
            self.width = new_width;
            self.height = new_height;
            true
        } else {
            false
        }
    }

    /// Window-event hook: no input affects the simulation, so nothing
    /// changes and no event is consumed.
    pub fn input(&mut self) -> (consumed: bool)
        ensures
            *final(self) == *old(self),
            !consumed,
    {
        false
    }

    /// Host-side per-frame update: all simulation work runs inside the
    /// compute kernel, so the host has nothing to advance here.
    pub fn update(&mut self)
        ensures
            *final(self) == *old(self),
    {
    }

    /// One frame. Given how surface acquisition went and the clock reading,
    /// either reports the fault — leaving every piece of state untouched,
    /// since a failed acquisition precedes any buffer access — or produces
    /// this frame's plan, advances the frame counter by exactly one, and
    /// updates the throughput bookkeeping, reporting once the interval has
    /// elapsed. The orchestrator itself never retries.
    pub fn render(&mut self, acquired: AcquireOutcome, now_ms: u64) -> (r: Result<
        FrameOutput,
        SurfaceFault,
    >)
        requires
            wf(*old(self)),
            old(self).fps.frame_num < u64::MAX,
            old(self).fps.last_report_ms <= now_ms,
        ensures
            wf(*final(self)),
            acquired != AcquireOutcome::Acquired ==> *final(self) == *old(self) && r == Err::<
                FrameOutput,
                SurfaceFault,
            >(fault_of(acquired)),
            acquired == AcquireOutcome::Acquired ==> {
                &&& r is Ok
                &&& (r matches Ok(out) ==> {
                    &&& out.plan == frame_plan(
                        old(self).fps.frame_num as nat,
                        old(self).num_instances,
                    )
                    &&& final(self).width == old(self).width
                    &&& final(self).height == old(self).height
                    &&& final(self).num_instances == old(self).num_instances
                    &&& final(self).num_vertices == old(self).num_vertices
                    &&& final(self).fps.frame_num == old(self).fps.frame_num + 1
                    &&& (if now_ms - old(self).fps.last_report_ms >= REPORT_INTERVAL_MS {
                        &&& (out.report matches Some(rep) && rep.frames == old(self).fps.frame_num
                            + 1 - old(self).fps.last_frame_num && rep.elapsed_ms == now_ms - old(
                            self,
                        ).fps.last_report_ms)
                        &&& final(self).fps.last_report_ms == now_ms
                        &&& final(self).fps.last_frame_num == old(self).fps.frame_num + 1
                    } else {
                        &&& out.report is None
                        &&& final(self).fps.last_report_ms == old(self).fps.last_report_ms
                        &&& final(self).fps.last_frame_num == old(self).fps.last_frame_num
                    })
                })
            },
    {
        match acquired {
            AcquireOutcome::Acquired => {},
            AcquireOutcome::Lost => {
                return Err(SurfaceFault::Lost);
            },
            AcquireOutcome::Outdated => {
                return Err(SurfaceFault::Outdated);
            },
            AcquireOutcome::OutOfMemory => {
                return Err(SurfaceFault::OutOfMemory);
            },
            AcquireOutcome::Other => {
                return Err(SurfaceFault::Other);
            },
        }
        let frame: u64 = self.fps.frame_num;
        let even: bool = frame % 2 == 0;
        let plan = FramePlan {
            pair_index: (frame % 2) as usize,
            compute_read: if even {
                BufferId::A
            } else {
                BufferId::B
            },
            compute_write: if even {
                BufferId::B
            } else {
                BufferId::A
            },
            render_source: if even {
                BufferId::A
            } else {
                BufferId::B
            },
            workgroups: workgroups_for(self.num_instances),
            instances: self.num_instances,
            vertices: self.num_vertices,
        };
        self.fps.frame_num = frame + 1;
        let elapsed: u64 = now_ms - self.fps.last_report_ms;
        let report: Option<FpsReport> = if elapsed >= REPORT_INTERVAL_MS {
            let frames: u64 = self.fps.frame_num - self.fps.last_frame_num;
            self.fps.last_report_ms = now_ms;
            self.fps.last_frame_num = self.fps.frame_num;
            Some(FpsReport { frames, elapsed_ms: elapsed })
        } else {
            None
        };
        Ok(FrameOutput { plan, report })
    }
}

} // verus!
