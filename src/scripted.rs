use vstd::prelude::*;
use crate::coroutine::{Coroutine, Entry, Phase};
use crate::exec_core::{AfterInner, AwaitStep, PollStep, after_inner, await_step, registers};
use crate::stack::all_zero;
use crate::status::EngineStatus;
use core::task::Waker;

verus! {

/// An inner poll-style operation: answers not-ready `pending` more times,
/// then ready with `value`.
#[derive(Clone, Copy, Debug, PartialEq, Eq, Structural)]
pub struct InnerOp {
    pub pending: u64,
    pub value: u64,
}

/// How many not-ready answers the operations still have to give.
pub open spec fn pend_sum(s: Seq<InnerOp>) -> nat
    decreases s.len(),
{
    if s.len() == 0 {
        0
    } else {
        s.last().pending as nat + pend_sum(s.drop_last())
    }
}

/// The values the operations yield, in order.
pub open spec fn values_of(s: Seq<InnerOp>) -> Seq<u64> {
    s.map_values(|o: InnerOp| o.value)
}

proof fn lemma_pend_sum_zero(s: Seq<InnerOp>)
    ensures
        pend_sum(s) == 0 <==> forall|j: int| 0 <= j < s.len() ==> #[trigger] s[j].pending == 0,
    decreases s.len(),
{
    if s.len() > 0 {
        lemma_pend_sum_zero(s.drop_last());
        if pend_sum(s) == 0 {
            assert forall|j: int| 0 <= j < s.len() implies #[trigger] s[j].pending == 0 by {
                if j < s.len() - 1 {
                    assert(s.drop_last()[j] == s[j]);
                }
            };
        }
        if forall|j: int| 0 <= j < s.len() ==> #[trigger] s[j].pending == 0 {
            assert forall|j: int| 0 <= j < s.drop_last().len() implies
                #[trigger] s.drop_last()[j].pending == 0 by {
                assert(s.drop_last()[j] == s[j]);
            };
            assert(s[s.len() - 1].pending == 0);
        }
    }
}

proof fn lemma_pend_sum_step(s: Seq<InnerOp>, i: int)
    requires
        0 <= i < s.len(),
        s[i].pending > 0,
    ensures
        pend_sum(s.update(i, InnerOp { pending: (s[i].pending - 1) as u64, value: s[i].value }))
            == pend_sum(s) - 1,
    decreases s.len(),
{
    let t = s.update(i, InnerOp { pending: (s[i].pending - 1) as u64, value: s[i].value });
    if i == s.len() - 1 {
        assert(t.drop_last() =~= s.drop_last());
    } else {
        lemma_pend_sum_step(s.drop_last(), i);
        assert(t.drop_last() =~= s.drop_last().update(
            i,
            InnerOp { pending: (s[i].pending - 1) as u64, value: s[i].value },
        ));
    }
}

/// The frame of the entry routine as a capture records it: the next await
/// to run and the values its earlier awaits produced.
struct Frame {
    next: usize,
    got: Vec<u64>,
}

/// A unit of work whose entry routine awaits each operation of a script in
/// turn and returns the values they produced. A capture records the
/// routine's frame; a replay restores it and resumes inside the await that
/// suspended.
pub struct ScriptedWork {
    work: Coroutine,
    ops: Vec<InnerOp>,
    saved: Option<Frame>,
}

impl ScriptedWork {
    pub closed spec fn spec_phase(&self) -> Phase {
        self.work.spec_phase()
    }

    pub closed spec fn stack_view(&self) -> Seq<u8> {
        self.work.stack_view()
    }

    /// The waker of the latest poll, if any.
    pub closed spec fn wake_target(&self) -> Option<Waker> {
        self.work.wake_target()
    }

    /// The script as it stands: operations already awaited are at zero.
    pub closed spec fn ops_view(&self) -> Seq<InnerOp> {
        self.ops@
    }

    /// How many more polls answer not-ready before the ready one.
    pub open spec fn pending_left(&self) -> nat {
        pend_sum(self.ops_view())
    }

    pub closed spec fn wf(&self) -> bool {
        &&& self.work.wf()
        &&& self.spec_phase() != Phase::Running
        &&& self.spec_phase() == Phase::NotStarted ==> self.saved is None
        &&& self.spec_phase() == Phase::Suspended ==> {
            &&& self.saved is Some
            &&& self.saved.unwrap().next < self.ops@.len()
            &&& self.saved.unwrap().got@ == values_of(self.ops@).subrange(
                0,
                self.saved.unwrap().next as int,
            )
            &&& forall|j: int|
                0 <= j < self.saved.unwrap().next ==> #[trigger] self.ops@[j].pending == 0
        }
        &&& self.spec_phase() == Phase::Done ==> self.pending_left() == 0
    }

    /// A unit of work over `ops` with a zero-filled private stack of `size`
    /// bytes.
    pub fn new(size: usize, ops: Vec<InnerOp>) -> (r: Self)
        requires
            size <= isize::MAX,
        ensures
            r.wake_target() is None,
            r.wf(),
            r.spec_phase() == Phase::NotStarted,
            r.ops_view() == ops@,
            r.stack_view().len() == size,
            all_zero(r.stack_view()),
    {
        ScriptedWork { work: Coroutine::new(size), ops, saved: None }
    }

    pub fn phase(&self) -> (r: Phase)
        ensures
            r == self.spec_phase(),
    {
        self.work.phase()
    }

    pub fn is_resume_pending(&self) -> (r: bool)
        requires
            self.wf(),
        ensures
            r == (self.spec_phase() == Phase::Suspended),
    {
        self.work.execution_core().is_resume_pending()
    }

    pub fn stack_bytes(&self) -> (r: &[u8])
        ensures
            r@ == self.stack_view(),
    {
        self.work.execution_core().stack().as_bytes()
    }

    /// Polls once. Ready, with every value the script yields in order, when
    /// no operation has a not-ready answer left to give; otherwise not-ready,
    /// with one such answer used up and the work suspended.
    pub fn poll(&mut self, waker: &Waker) -> (r: Option<Vec<u64>>)
        requires
            old(self).wf(),
            old(self).spec_phase() != Phase::Done,
        ensures
            final(self).wf(),
            r is Some <==> old(self).pending_left() == 0,
            r is Some ==> r.unwrap()@ == values_of(old(self).ops_view()) && final(self).spec_phase()
                == Phase::Done,
            r is None ==> final(self).pending_left() == old(self).pending_left() - 1
                && final(self).spec_phase() == Phase::Suspended,
            values_of(final(self).ops_view()) == values_of(old(self).ops_view()),
            final(self).stack_view() == old(self).stack_view(),
            registers(old(self).wake_target(), final(self).wake_target(), *waker),
    {
        let ghost ops0 = self.ops@;
        proof {
            lemma_pend_sum_zero(ops0);
        }
        let entry = self.work.begin_poll(waker);
        let ghost target = self.work.wake_target();
        let mut status: EngineStatus;
        let mut i: usize;
        let mut got: Vec<u64>;
        match entry {
            Entry::Invoke => {
                status = EngineStatus::Normal;
                i = 0;
                got = Vec::new();
            },
            Entry::Replay => {
                status = EngineStatus::ReplayingNow;
                match self.saved.take() {
                    Some(f) => {
                        i = f.next;
                        got = f.got;
                    },
                    None => {
                        i = 0;
                        got = Vec::new();
                    },
                }
            },
        }
        let n = self.ops.len();
        let mut captured = false;
        while i < n && !captured
            invariant
                self.work.wf(),
                self.work.spec_phase() == Phase::Running,
                self.work.stack_view() == old(self).stack_view(),
                self.work.wake_target() == target,
                n == self.ops@.len(),
                n == ops0.len(),
                i <= n,
                captured ==> i < n,
                captured <==> status == EngineStatus::CapturingNow,
                status == EngineStatus::ReplayingNow ==> i < n,
                got@ == values_of(ops0).subrange(0, i as int),
                values_of(self.ops@) == values_of(ops0),
                forall|j: int| 0 <= j < i ==> #[trigger] self.ops@[j].pending == 0,
                forall|j: int| 0 <= j < i ==> #[trigger] ops0[j].pending == 0,
                !captured ==> self.ops@ == ops0,
                captured ==> ops0[i as int].pending > 0 && self.ops@ == ops0.update(
                    i as int,
                    InnerOp { pending: (ops0[i as int].pending - 1) as u64, value: ops0[i as int].value },
                ),
            decreases n - i + (if captured { 0int } else { 1int }),
        {
            let mut step = await_step(status);
            if step == AwaitStep::EndReplay {
                status = EngineStatus::Normal;
                step = await_step(status);
            }
            if step == AwaitStep::PollInner {
                let op = self.ops[i];
                let ready = op.pending == 0;
                if !ready {
                    self.ops.set(i, InnerOp { pending: op.pending - 1, value: op.value });
                }
                match after_inner(ready) {
                    AfterInner::Return => {
                        got.push(op.value);
                        assert(got@ =~= values_of(ops0).subrange(0, i + 1));
                        i = i + 1;
                    },
                    AfterInner::BeginCapture => {
                        assert(values_of(self.ops@) =~= values_of(ops0));
                        status = EngineStatus::CapturingNow;
                        captured = true;
                    },
                }
            }
        }
        if captured {
            proof {
                lemma_pend_sum_step(ops0, i as int);
            }
            self.saved = Some(Frame { next: i, got });
            let step = self.work.end_poll(status);
            assert(step == PollStep::EndCaptureAndPend);
            None
        } else {
            let step = self.work.end_poll(status);
            assert(step == PollStep::Ready);
            assert(got@ =~= values_of(ops0));
            Some(got)
        }
    }

    /// Polls until ready, as a scheduler would. Returns how many polls
    /// answered not-ready before the ready one, and the ready value.
    pub fn run_to_ready(&mut self, waker: &Waker) -> (r: (u64, Vec<u64>))
        requires
            old(self).wf(),
            old(self).spec_phase() != Phase::Done,
            old(self).pending_left() <= u64::MAX,
        ensures
            final(self).wf(),
            final(self).spec_phase() == Phase::Done,
            r.0 == old(self).pending_left(),
            r.1@ == values_of(old(self).ops_view()),
            final(self).stack_view() == old(self).stack_view(),
    {
        let ghost left0 = self.pending_left();
        let ghost values0 = values_of(self.ops_view());
        let mut pendings: u64 = 0;
        loop
            invariant
                self.wf(),
                self.spec_phase() != Phase::Done,
                pendings + self.pending_left() == left0,
                left0 <= u64::MAX,
                left0 == old(self).pending_left(),
                values0 == values_of(old(self).ops_view()),
                values_of(self.ops_view()) == values0,
                self.stack_view() == old(self).stack_view(),
            decreases self.pending_left(),
        {
            match self.poll(waker) {
                Some(v) => {
                    return (pendings, v);
                },
                None => {
                    pendings = pendings + 1;
                },
            }
        }
    }
}

/// A unit of work whose entry routine awaits nothing has no not-ready answer
/// to give, so its first poll is ready.
pub proof fn lemma_no_op_routine(w: ScriptedWork)
    requires
        w.ops_view().len() == 0,
    ensures
        w.pending_left() == 0,
{
}

/// A script whose operations are all ready at once completes on its first
/// poll: nothing is left to answer not-ready.
pub proof fn lemma_no_pending_awaits(ops: Seq<InnerOp>)
    requires
        forall|j: int| 0 <= j < ops.len() ==> #[trigger] ops[j].pending == 0,
    ensures
        pend_sum(ops) == 0,
{
    lemma_pend_sum_zero(ops);
}

/// A script of `N` awaits that each answer not-ready once gives exactly `N`
/// not-ready polls before the ready one.
pub proof fn lemma_each_pending_once(ops: Seq<InnerOp>)
    requires
        forall|j: int| 0 <= j < ops.len() ==> #[trigger] ops[j].pending == 1,
    ensures
        pend_sum(ops) == ops.len(),
    decreases ops.len(),
{
    if ops.len() > 0 {
        assert forall|j: int| 0 <= j < ops.drop_last().len() implies
            #[trigger] ops.drop_last()[j].pending == 1 by {
            assert(ops.drop_last()[j] == ops[j]);
        };
        lemma_each_pending_once(ops.drop_last());
        assert(ops[ops.len() - 1].pending == 1);
    }
}

} // verus!
