use vstd::prelude::*;
use crate::exec_core::{Core, PollStep, registers, spec_poll_step};
use crate::stack::all_zero;
use crate::status::EngineStatus;
use core::task::Waker;

verus! {

/// Where a unit of work stands between and during polls.
#[derive(Clone, Copy, Debug, PartialEq, Eq, Structural)]
pub enum Phase {
    /// Never polled: the entry routine has not been invoked.
    NotStarted,
    /// A poll is under way on the private stack.
    Running,
    /// A capture ended the last poll: the next one replays.
    Suspended,
    /// The entry routine's value was handed out.
    Done,
}

/// How a poll is to start running user code.
#[derive(Clone, Copy, Debug, PartialEq, Eq, Structural)]
pub enum Entry {
    /// First poll: invoke the entry routine.
    Invoke,
    /// Later poll: begin a replay of the captured stack.
    Replay,
}

/// Whether a poll may start in `p`.
pub open spec fn pollable(p: Phase) -> bool {
    p == Phase::NotStarted || p == Phase::Suspended
}

/// The phase a poll leaves behind, on the engine status read at its end.
pub open spec fn phase_after(status: EngineStatus) -> Phase {
    match status {
        EngineStatus::Normal => Phase::Done,
        EngineStatus::CapturingNow => Phase::Suspended,
        EngineStatus::ReplayingNow => Phase::Running,
    }
}

/// The externally polled unit of work: an execution core and its phase.
pub struct Coroutine {
    core: Core,
    phase: Phase,
}

impl Coroutine {
    pub closed spec fn spec_phase(&self) -> Phase {
        self.phase
    }

    pub closed spec fn stack_view(&self) -> Seq<u8> {
        self.core.stack_view()
    }

    /// The waker of the latest poll, if any.
    pub closed spec fn wake_target(&self) -> Option<Waker> {
        self.core.wake_target()
    }

    /// The resume flag is armed exactly while the work is suspended.
    pub closed spec fn wf(&self) -> bool {
        &&& self.core.wf()
        &&& self.core.resume_pending() == (self.phase == Phase::Suspended)
    }

    /// A unit of work with a zero-filled private stack of `size` bytes.
    pub fn new(size: usize) -> (r: Self)
        requires
            size <= isize::MAX,
        ensures
            r.wf(),
            r.wake_target() is None,
            r.spec_phase() == Phase::NotStarted,
            r.stack_view().len() == size,
            all_zero(r.stack_view()),
    {
        Coroutine { core: Core::new(size), phase: Phase::NotStarted }
    }

    pub fn phase(&self) -> (r: Phase)
        ensures
            r == self.spec_phase(),
    {
        self.phase
    }

    pub fn execution_core(&self) -> (r: &Core)
        ensures
            self.wf() ==> r.wf(),
            r.stack_view() == self.stack_view(),
            self.wf() ==> r.resume_pending() == (self.spec_phase() == Phase::Suspended),
    {
        &self.core
    }

    /// The private stack's bytes, for the stack-switch engine alone.
    pub fn stack_region_mut(&mut self) -> (r: &mut [u8])
        ensures
            r@ == old(self).stack_view(),
            final(r)@ == final(self).stack_view(),
            final(self).spec_phase() == old(self).spec_phase(),
            final(self).wake_target() == old(self).wake_target(),
    {
        self.core.stack_region_mut()
    }

    /// Starts a poll. Polling work that is done or already mid-poll breaks the
    /// contract and is ruled out.
    pub fn begin_poll(&mut self, waker: &Waker) -> (r: Entry)
        requires
            old(self).wf(),
            pollable(old(self).spec_phase()),
        ensures
            r == (if old(self).spec_phase() == Phase::NotStarted {
                Entry::Invoke
            } else {
                Entry::Replay
            }),
            final(self).spec_phase() == Phase::Running,
            final(self).wf(),
            final(self).stack_view() == old(self).stack_view(),
            registers(old(self).wake_target(), final(self).wake_target(), *waker),
    {
        let replay = self.core.poll_enter(waker);
        self.phase = Phase::Running;
        if replay {
            Entry::Replay
        } else {
            Entry::Invoke
        }
    }

    /// Ends a poll on the engine status read when user code handed control
    /// back: completion makes the work done, a capture suspends it.
    pub fn end_poll(&mut self, status: EngineStatus) -> (r: PollStep)
        requires
            old(self).wf(),
            old(self).spec_phase() == Phase::Running,
        ensures
            r == spec_poll_step(status),
            final(self).spec_phase() == phase_after(status),
            final(self).wf(),
            final(self).wake_target() == old(self).wake_target(),
            final(self).stack_view() == old(self).stack_view(),
    {
        let r = self.core.poll_exit(status);
        match r {
            PollStep::Ready => {
                self.phase = Phase::Done;
            },
            PollStep::EndCaptureAndPend => {
                self.phase = Phase::Suspended;
            },
            PollStep::Violation => {},
        }
        r
    }

    /// The waker for an inner operation awaited during this poll: the one
    /// the latest poll registered, which stays registered.
    pub fn inner_waker(&mut self) -> (r: Waker)
        requires
            old(self).wf(),
        ensures
            old(self).wake_target() is Some ==> r == old(self).wake_target().unwrap(),
            final(self).wake_target() == old(self).wake_target(),
            final(self).spec_phase() == old(self).spec_phase(),
            final(self).stack_view() == old(self).stack_view(),
            final(self).wf(),
    {
        self.core.inner_waker()
    }
}

/// A poll that hands out Ready leaves the work done, and done work admits
/// no further poll: a second Ready can never be handed out. A poll that
/// suspends leaves work that may be polled again.
pub proof fn lemma_no_poll_after_ready(status: EngineStatus)
    ensures
        spec_poll_step(status) == PollStep::Ready ==> !pollable(phase_after(status)),
        spec_poll_step(status) == PollStep::EndCaptureAndPend ==> pollable(phase_after(status)),
{
}

} // verus!
