use vstd::prelude::*;

verus! {

/// How many frames the CPU may prepare while the GPU still works on earlier
/// ones; each has its own semaphores, fence and command buffer.
pub const MAX_FRAMES_IN_FLIGHT: usize = 2;

/// The command buffers allocated from the command pool: one per frame in
/// flight.
pub const COMMAND_BUFFER_COUNT: u32 = 2;

/// The steps of drawing one frame, in the order they run.
#[derive(Clone, Copy, Debug, PartialEq, Eq, Structural)]
pub enum FrameStep {
    /// Wait for the frame's fence: the GPU is done with its last use.
    WaitForFence,
    /// Acquire the next swapchain image.
    AcquireImage,
    /// Reset the frame's fence, now that work will be submitted.
    ResetFence,
    /// Reset the frame's command buffer.
    ResetCommandBuffer,
    /// Record the render pass that draws every sprite.
    RecordCommands,
    /// Submit the command buffer to the graphics queue.
    Submit,
    /// Present the image on the present queue.
    Present,
}

/// What follows a step.
#[derive(Clone, Copy, Debug, PartialEq, Eq, Structural)]
pub enum FrameProgress {
    /// Run this step next.
    Next(FrameStep),
    /// The frame was presented; the next frame slot is now current.
    Completed,
    /// A step failed: the frame is abandoned with that step's error and the
    /// current frame slot stays the same.
    Aborted,
}

/// The step after `step`, none after presenting.
pub open spec fn step_after(step: FrameStep) -> Option<FrameStep> {
    match step {
        FrameStep::WaitForFence => Some(FrameStep::AcquireImage),
        FrameStep::AcquireImage => Some(FrameStep::ResetFence),
        FrameStep::ResetFence => Some(FrameStep::ResetCommandBuffer),
        FrameStep::ResetCommandBuffer => Some(FrameStep::RecordCommands),
        FrameStep::RecordCommands => Some(FrameStep::Submit),
        FrameStep::Submit => Some(FrameStep::Present),
        FrameStep::Present => None,
    }
}

/// The frame slot after `frame`.
pub open spec fn next_frame(frame: nat) -> nat {
    (frame + 1) % (MAX_FRAMES_IN_FLIGHT as nat)
}

/// The frame slot and what follows, once `step` of a frame in slot `frame`
/// has run with the given outcome.
pub open spec fn step_transition(frame: nat, step: FrameStep, succeeded: bool) -> (nat, FrameProgress) {
    if !succeeded {
        (frame, FrameProgress::Aborted)
    } else {
        match step_after(step) {
            Some(next) => (frame, FrameProgress::Next(next)),
            None => (next_frame(frame), FrameProgress::Completed),
        }
    }
}

/// Runs the steps from `step` on with the given outcomes, one per step, and
/// stops when the frame completes or aborts or the outcomes run out.
pub open spec fn run_frame_steps(frame: nat, step: FrameStep, outcomes: Seq<bool>) -> (
    nat,
    FrameProgress,
)
    decreases outcomes.len(),
{
    if outcomes.len() == 0 {
        (frame, FrameProgress::Next(step))
    } else {
        let (f, progress) = step_transition(frame, step, outcomes[0]);
        match progress {
            FrameProgress::Next(next) => run_frame_steps(f, next, outcomes.drop_first()),
            _ => (f, progress),
        }
    }
}

/// The number of steps in a frame.
pub open spec fn steps_per_frame() -> nat {
    7
}

/// Keeps track of the frame slot in use and of the steps of `draw_frame`.
pub struct FrameScheduler {
    current_frame: usize,
}

impl FrameScheduler {
    #[verifier::type_invariant]
    spec fn slot_in_range(self) -> bool {
        self.current_frame < MAX_FRAMES_IN_FLIGHT
    }

    /// The frame slot in use.
    pub closed spec fn frame(self) -> nat {
        self.current_frame as nat
    }

    /// Starts with slot 0.
    pub fn new() -> (scheduler: FrameScheduler)
        ensures
            scheduler.frame() == 0,
    {
        FrameScheduler { current_frame: 0 }
    }

    /// The slot whose semaphores, fence and command buffer the next frame
    /// uses.
    pub fn current_frame(&self) -> (frame: usize)
        ensures
            frame == self.frame(),
            frame < MAX_FRAMES_IN_FLIGHT,
    {
        proof {
            use_type_invariant(self);
        }
        self.current_frame
    }

    /// The first step of every frame.
    pub fn first_step() -> (step: FrameStep)
        ensures
            step == FrameStep::WaitForFence,
    {
        FrameStep::WaitForFence
    }

    /// Records the outcome of a step of the current frame and says what
    /// follows; after a successful present the next slot becomes current.
    pub fn step_finished(&mut self, step: FrameStep, succeeded: bool) -> (progress: FrameProgress)
        ensures
            (final(self).frame(), progress) == step_transition(old(self).frame(), step, succeeded),
            final(self).frame() < MAX_FRAMES_IN_FLIGHT,
            !succeeded ==> progress == FrameProgress::Aborted && final(self).frame() == old(
                self,
            ).frame(),
            succeeded && step == FrameStep::Present ==> progress == FrameProgress::Completed
                && final(self).frame() == (old(self).frame() + 1) % (MAX_FRAMES_IN_FLIGHT as nat),
            succeeded && step != FrameStep::Present ==> progress is Next && progress->0 != step
                && final(self).frame() == old(self).frame(),
    {
        proof {
            use_type_invariant(&*self);
        }
        if !succeeded {
            return FrameProgress::Aborted;
        }
        match step {
            FrameStep::WaitForFence => FrameProgress::Next(FrameStep::AcquireImage),
            FrameStep::AcquireImage => FrameProgress::Next(FrameStep::ResetFence),
            FrameStep::ResetFence => FrameProgress::Next(FrameStep::ResetCommandBuffer),
            FrameStep::ResetCommandBuffer => FrameProgress::Next(FrameStep::RecordCommands),
            FrameStep::RecordCommands => FrameProgress::Next(FrameStep::Submit),
            FrameStep::Submit => FrameProgress::Next(FrameStep::Present),
            FrameStep::Present => {
                self.current_frame = (self.current_frame + 1) % MAX_FRAMES_IN_FLIGHT;
                FrameProgress::Completed
            },
        }
    }
}

/// Law of drawing a frame: when every step succeeds, the frame completes
/// after exactly the seven steps and the next slot becomes current; when a
/// step fails, the frame aborts at that step and the slot does not change.
pub proof fn law_frame_completes_or_aborts(frame: nat, outcomes: Seq<bool>)
    requires
        frame < MAX_FRAMES_IN_FLIGHT,
        outcomes.len() == steps_per_frame(),
    ensures
        (forall|i: int| 0 <= i < outcomes.len() ==> #[trigger] outcomes[i]) ==> run_frame_steps(
            frame,
            FrameStep::WaitForFence,
            outcomes,
        ) == (next_frame(frame), FrameProgress::Completed),
        (exists|i: int| 0 <= i < outcomes.len() && !#[trigger] outcomes[i]) ==> run_frame_steps(
            frame,
            FrameStep::WaitForFence,
            outcomes,
        ) == (frame, FrameProgress::Aborted),
{
    let o = outcomes;
    let o1 = o.drop_first();
    let o2 = o1.drop_first();
    let o3 = o2.drop_first();
    let o4 = o3.drop_first();
    let o5 = o4.drop_first();
    let o6 = o5.drop_first();
    let o7 = o6.drop_first();
    assert(o1[0] == o[1] && o2[0] == o[2] && o3[0] == o[3] && o4[0] == o[4] && o5[0] == o[5]
        && o6[0] == o[6]);
    assert(o7.len() == 0);
    if forall|i: int| 0 <= i < outcomes.len() ==> #[trigger] outcomes[i] {
        assert(o[0] && o[1] && o[2] && o[3] && o[4] && o[5] && o[6]);
        assert(run_frame_steps(frame, FrameStep::Present, o6) == (
            next_frame(frame),
            FrameProgress::Completed,
        ));
        assert(run_frame_steps(frame, FrameStep::Submit, o5) == run_frame_steps(
            frame,
            FrameStep::Present,
            o6,
        ));
        assert(run_frame_steps(frame, FrameStep::RecordCommands, o4) == run_frame_steps(
            frame,
            FrameStep::Submit,
            o5,
        ));
        assert(run_frame_steps(frame, FrameStep::ResetCommandBuffer, o3) == run_frame_steps(
            frame,
            FrameStep::RecordCommands,
            o4,
        ));
        assert(run_frame_steps(frame, FrameStep::ResetFence, o2) == run_frame_steps(
            frame,
            FrameStep::ResetCommandBuffer,
            o3,
        ));
        assert(run_frame_steps(frame, FrameStep::AcquireImage, o1) == run_frame_steps(
            frame,
            FrameStep::ResetFence,
            o2,
        ));
    }
    if exists|i: int| 0 <= i < outcomes.len() && !#[trigger] outcomes[i] {
        let k = choose|i: int| 0 <= i < outcomes.len() && !#[trigger] outcomes[i];
        let r6 = run_frame_steps(frame, FrameStep::Present, o6);
        let r5 = run_frame_steps(frame, FrameStep::Submit, o5);
        let r4 = run_frame_steps(frame, FrameStep::RecordCommands, o4);
        let r3 = run_frame_steps(frame, FrameStep::ResetCommandBuffer, o3);
        let r2 = run_frame_steps(frame, FrameStep::ResetFence, o2);
        let r1 = run_frame_steps(frame, FrameStep::AcquireImage, o1);
        if k == 6 {
            assert(r6 == (frame, FrameProgress::Aborted));
        }
        if k >= 5 {
            assert(r5 == (frame, FrameProgress::Aborted));
        }
        if k >= 4 {
            assert(r4 == (frame, FrameProgress::Aborted));
        }
        if k >= 3 {
            assert(r3 == (frame, FrameProgress::Aborted));
        }
        if k >= 2 {
            assert(r2 == (frame, FrameProgress::Aborted));
        }
        if k >= 1 {
            assert(r1 == (frame, FrameProgress::Aborted));
        }
    }
}

/// The frame slot after `n` completed frames from slot `frame`.
pub open spec fn slot_after_frames(frame: nat, n: nat) -> nat
    decreases n,
{
    if n == 0 {
        frame
    } else {
        next_frame(slot_after_frames(frame, (n - 1) as nat))
    }
}

/// Law of the frame slots: every slot stays below `MAX_FRAMES_IN_FLIGHT`,
/// and after `MAX_FRAMES_IN_FLIGHT` completed frames the same slot (with its
/// fence and semaphores) is in use again.
pub proof fn law_frame_slots_cycle(frame: nat, n: nat)
    requires
        frame < MAX_FRAMES_IN_FLIGHT,
    ensures
        slot_after_frames(frame, n) < MAX_FRAMES_IN_FLIGHT,
        slot_after_frames(frame, MAX_FRAMES_IN_FLIGHT as nat) == frame,
    decreases n,
{
    if n > 0 {
        law_frame_slots_cycle(frame, (n - 1) as nat);
    }
    reveal_with_fuel(slot_after_frames, 3);
}

} // verus!
