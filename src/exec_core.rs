use vstd::prelude::*;
use crate::stack::{Stack, all_zero};
use crate::status::EngineStatus;
use atomic_waker::AtomicWaker;
use core::task::Waker;

verus! {

#[verifier::external_type_specification]
#[verifier::external_body]
pub struct ExWaker(Waker);

/// The core's wake slot: the waker registered by the latest poll, if any.
/// It is owned by one core and reached only through `&mut`, so no wake from
/// elsewhere empties it.
#[verifier::external_body]
pub struct WakeSlot {
    slot: AtomicWaker,
}

/// What the wake slot holds.
pub uninterp spec fn slot_waker(s: WakeSlot) -> Option<Waker>;

/// A registration of `w` leaves `w` in the slot, or keeps a waker already
/// there that wakes the same task.
pub open spec fn registers(before: Option<Waker>, after: Option<Waker>, w: Waker) -> bool {
    after == Some(w) || (before is Some && after == before)
}

impl WakeSlot {
    /// Relies on AtomicWaker::new: the slot starts empty.
    #[verifier::external_body]
    fn new() -> (r: Self)
        ensures
            slot_waker(r) is None,
    {
        WakeSlot { slot: AtomicWaker::new() }
    }

    /// Relies on AtomicWaker::register: stores (a clone of) `w`, unless the
    /// waker already held will wake the same task, in which case it stays.
    #[verifier::external_body]
    fn register(&mut self, w: &Waker)
        ensures
            registers(slot_waker(*old(self)), slot_waker(*final(self)), *w),
    {
        self.slot.register(w)
    }

    /// Relies on AtomicWaker::take: with no wake running concurrently it
    /// hands out the registered waker and leaves the slot empty.
    #[verifier::external_body]
    fn take(&mut self) -> (r: Option<Waker>)
        ensures
            r == slot_waker(*old(self)),
            slot_waker(*final(self)) is None,
    {
        self.slot.take()
    }
}

/// Relies on Waker::noop: a waker whose wake does nothing.
#[verifier::external_body]
fn noop_waker() -> Waker {
    Waker::noop().clone()
}

/// What `poll` does once the run of user code has handed control back.
#[derive(Clone, Copy, Debug, PartialEq, Eq, Structural)]
pub enum PollStep {
    /// The entry routine ran to completion: its value is ready.
    Ready,
    /// A capture reached the checkpoint: end it and report not-ready.
    EndCaptureAndPend,
    /// The engine reported replaying here, which its contract rules out.
    Violation,
}

/// What the nested-await adapter does on one turn of its loop.
#[derive(Clone, Copy, Debug, PartialEq, Eq, Structural)]
pub enum AwaitStep {
    /// A replay has reached the suspended await: end it and look again.
    EndReplay,
    /// Ordinary execution: poll the inner operation once.
    PollInner,
    /// The engine reported capturing here, which its contract rules out.
    Violation,
}

/// What the nested-await adapter does with the inner operation's answer.
#[derive(Clone, Copy, Debug, PartialEq, Eq, Structural)]
pub enum AfterInner {
    /// Hand the value back to the direct-style caller.
    Return,
    /// Begin capturing the stack into the core's region and unwind.
    BeginCapture,
}

pub open spec fn spec_poll_step(status: EngineStatus) -> PollStep {
    match status {
        EngineStatus::Normal => PollStep::Ready,
        EngineStatus::CapturingNow => PollStep::EndCaptureAndPend,
        EngineStatus::ReplayingNow => PollStep::Violation,
    }
}

pub open spec fn spec_await_step(status: EngineStatus) -> AwaitStep {
    match status {
        EngineStatus::ReplayingNow => AwaitStep::EndReplay,
        EngineStatus::Normal => AwaitStep::PollInner,
        EngineStatus::CapturingNow => AwaitStep::Violation,
    }
}

/// The nested-await adapter's decision on the engine status.
pub fn await_step(status: EngineStatus) -> (r: AwaitStep)
    ensures
        r == spec_await_step(status),
{
    match status {
        EngineStatus::ReplayingNow => AwaitStep::EndReplay,
        EngineStatus::Normal => AwaitStep::PollInner,
        EngineStatus::CapturingNow => AwaitStep::Violation,
    }
}

/// The nested-await adapter's decision on the inner operation's answer.
pub fn after_inner(ready: bool) -> (r: AfterInner)
    ensures
        r == (if ready { AfterInner::Return } else { AfterInner::BeginCapture }),
{
    if ready {
        AfterInner::Return
    } else {
        AfterInner::BeginCapture
    }
}

/// One unit of work's private stack, wake slot and resume flag.
pub struct Core {
    stack: Stack,
    waker: WakeSlot,
    needs_rewind: bool,
}

impl Core {
    pub closed spec fn stack_view(&self) -> Seq<u8> {
        self.stack@
    }

    /// The wake target: the waker of the latest poll.
    pub closed spec fn wake_target(&self) -> Option<Waker> {
        slot_waker(self.waker)
    }

    pub closed spec fn resume_pending(&self) -> bool {
        self.needs_rewind
    }

    pub closed spec fn wf(&self) -> bool {
        self.stack.wf()
    }

    /// A core with a zero-filled private stack of `size` bytes, an empty wake
    /// slot and no resume pending.
    pub fn new(size: usize) -> (r: Self)
        requires
            size <= isize::MAX,
        ensures
            r.wf(),
            r.wake_target() is None,
            r.stack_view().len() == size,
            all_zero(r.stack_view()),
            !r.resume_pending(),
    {
        Core { stack: Stack::zeroed(size), waker: WakeSlot::new(), needs_rewind: false }
    }

    pub fn stack(&self) -> (r: &Stack)
        ensures
            r@ == self.stack_view(),
            self.wf() ==> r.wf(),
    {
        &self.stack
    }

    /// The private stack's bytes, for the stack-switch engine alone.
    pub fn stack_region_mut(&mut self) -> (r: &mut [u8])
        ensures
            r@ == old(self).stack_view(),
            final(r)@ == final(self).stack_view(),
            final(self).resume_pending() == old(self).resume_pending(),
            final(self).wake_target() == old(self).wake_target(),
    {
        self.stack.region_mut()
    }

    pub fn is_resume_pending(&self) -> (r: bool)
        ensures
            r == self.resume_pending(),
    {
        self.needs_rewind
    }

    /// Opens a poll: registers `waker` as the one wake target, and tells
    /// whether a replay of the captured stack must begin. The resume flag is
    /// cleared either way.
    pub fn poll_enter(&mut self, waker: &Waker) -> (replay: bool)
        ensures
            replay == old(self).resume_pending(),
            !final(self).resume_pending(),
            registers(old(self).wake_target(), final(self).wake_target(), *waker),
            final(self).stack_view() == old(self).stack_view(),
            final(self).wf() == old(self).wf(),
    {
        self.waker.register(waker);
        let replay = self.needs_rewind;
        self.needs_rewind = false;
        replay
    }

    /// Closes a poll once user code has handed control back, on the engine
    /// status read at that point. A capture arms the next resume.
    pub fn poll_exit(&mut self, status: EngineStatus) -> (r: PollStep)
        ensures
            r == spec_poll_step(status),
            final(self).resume_pending() == (if status == EngineStatus::CapturingNow {
                true
            } else {
                old(self).resume_pending()
            }),
            final(self).wake_target() == old(self).wake_target(),
            final(self).stack_view() == old(self).stack_view(),
            final(self).wf() == old(self).wf(),
    {
        match status {
            EngineStatus::Normal => PollStep::Ready,
            EngineStatus::CapturingNow => {
                self.needs_rewind = true;
                PollStep::EndCaptureAndPend
            },
            EngineStatus::ReplayingNow => PollStep::Violation,
        }
    }

    /// The waker to hand an inner operation: the one registered by the latest
    /// poll, which stays registered for later awaits; one that does nothing
    /// if no poll has registered one.
    pub fn inner_waker(&mut self) -> (r: Waker)
        ensures
            old(self).wake_target() is Some ==> r == old(self).wake_target().unwrap(),
            final(self).wake_target() == old(self).wake_target(),
            final(self).resume_pending() == old(self).resume_pending(),
            final(self).stack_view() == old(self).stack_view(),
            final(self).wf() == old(self).wf(),
    {
        match self.waker.take() {
            Some(w) => {
                self.waker.register(&w);
                w
            },
            None => noop_waker(),
        }
    }
}

} // verus!
