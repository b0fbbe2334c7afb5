use cortex_stack::coroutine::{Coroutine, Entry, Phase};
use cortex_stack::exec_core::{after_inner, await_step, AfterInner, AwaitStep, Core, PollStep};
use cortex_stack::scripted::{InnerOp, ScriptedWork};
use cortex_stack::stack::{fill_to, RawStack, Stack};
use cortex_stack::status::EngineStatus;
use std::sync::atomic::{AtomicUsize, Ordering};
use std::sync::Arc;
use std::task::{Wake, Waker};

struct Counter(AtomicUsize);

impl Wake for Counter {
    fn wake(self: Arc<Self>) {
        self.0.fetch_add(1, Ordering::SeqCst);
    }
}

fn counting_waker() -> (Arc<Counter>, Waker) {
    let c = Arc::new(Counter(AtomicUsize::new(0)));
    let w = Waker::from(c.clone());
    (c, w)
}

fn ready_at_once(value: u64) -> InnerOp {
    InnerOp { pending: 0, value }
}

#[test]
fn stack_new_fills_spare_capacity_with_zeros() {
    let mut a: Vec<u8> = Vec::with_capacity(32);
    a.extend_from_slice(&[1, 2, 3]);
    let s = Stack::new(a);
    assert!(s.len() >= 32);
    assert_eq!(&s.as_bytes()[..3], &[1, 2, 3]);
    assert!(s.as_bytes()[3..].iter().all(|b| *b == 0));
    assert_eq!(s.raw.start, 0);
    assert_eq!(s.raw.end, s.len());
}

#[test]
fn stack_zeroed_has_exact_length() {
    let s = Stack::zeroed(100);
    assert_eq!(s.len(), 100);
    assert_eq!(s.as_bytes().len(), 100);
    assert!(s.as_bytes().iter().all(|b| *b == 0));
    let empty = Stack::zeroed(0);
    assert_eq!(empty.len(), 0);
}

#[test]
fn raw_stack_length() {
    let r = RawStack { start: 16, end: 80 };
    assert_eq!(r.len(), 64);
}

#[test]
fn status_codes() {
    assert_eq!(EngineStatus::from_code(0), Some(EngineStatus::Normal));
    assert_eq!(EngineStatus::from_code(1), Some(EngineStatus::CapturingNow));
    assert_eq!(EngineStatus::from_code(2), Some(EngineStatus::ReplayingNow));
    assert_eq!(EngineStatus::from_code(3), None);
    assert_eq!(EngineStatus::from_code(u32::MAX), None);
    for s in [EngineStatus::Normal, EngineStatus::CapturingNow, EngineStatus::ReplayingNow] {
        assert_eq!(EngineStatus::from_code(s.code()), Some(s));
    }
}

#[test]
fn core_poll_state_machine() {
    let mut c = Core::new(256);
    assert_eq!(c.stack().len(), 256);
    assert!(!c.is_resume_pending());
    assert!(!c.poll_enter(Waker::noop()));
    assert_eq!(c.poll_exit(EngineStatus::CapturingNow), PollStep::EndCaptureAndPend);
    assert!(c.is_resume_pending());
    assert!(c.poll_enter(Waker::noop()));
    assert!(!c.is_resume_pending());
    assert_eq!(c.poll_exit(EngineStatus::Normal), PollStep::Ready);
    assert!(!c.is_resume_pending());
    assert_eq!(c.poll_exit(EngineStatus::ReplayingNow), PollStep::Violation);
}

#[test]
fn await_adapter_decisions() {
    assert_eq!(await_step(EngineStatus::ReplayingNow), AwaitStep::EndReplay);
    assert_eq!(await_step(EngineStatus::Normal), AwaitStep::PollInner);
    assert_eq!(await_step(EngineStatus::CapturingNow), AwaitStep::Violation);
    assert_eq!(after_inner(true), AfterInner::Return);
    assert_eq!(after_inner(false), AfterInner::BeginCapture);
}

#[test]
fn inner_waker_is_the_latest_registration() {
    let (a_count, a) = counting_waker();
    let (b_count, b) = counting_waker();
    let mut c = Coroutine::new(64);
    assert_eq!(c.begin_poll(&a), Entry::Invoke);
    assert_eq!(c.end_poll(EngineStatus::CapturingNow), PollStep::EndCaptureAndPend);
    assert_eq!(c.phase(), Phase::Suspended);
    assert_eq!(c.begin_poll(&b), Entry::Replay);
    // the first poll's waker fires late: it must not stand for the second poll
    a.wake_by_ref();
    c.inner_waker().wake();
    assert_eq!(a_count.0.load(Ordering::SeqCst), 1);
    assert_eq!(b_count.0.load(Ordering::SeqCst), 1);
    assert_eq!(c.end_poll(EngineStatus::Normal), PollStep::Ready);
    assert_eq!(c.phase(), Phase::Done);
}

#[test]
fn inner_waker_without_registration_does_nothing() {
    let mut c = Core::new(8);
    c.inner_waker().wake();
}

#[test]
fn registered_waker_serves_every_await_of_a_poll() {
    let (count, w) = counting_waker();
    let mut c = Core::new(8);
    assert!(!c.poll_enter(&w));
    c.inner_waker().wake();
    c.inner_waker().wake();
    c.inner_waker().wake_by_ref();
    assert_eq!(count.0.load(Ordering::SeqCst), 3);
}

#[test]
fn fill_to_extends_with_zeros_to_exact_length() {
    let s = fill_to(vec![7, 8], 10);
    assert_eq!(s.len(), 10);
    assert_eq!(s.as_bytes(), &[7, 8, 0, 0, 0, 0, 0, 0, 0, 0]);
    let same = fill_to(vec![1, 2, 3], 3);
    assert_eq!(same.as_bytes(), &[1, 2, 3]);
    let empty = fill_to(Vec::new(), 0);
    assert_eq!(empty.len(), 0);
}

#[test]
fn stack_new_of_empty_vec_is_empty() {
    let s = Stack::new(Vec::new());
    assert_eq!(s.len(), 0);
    assert_eq!(s.raw.start, s.raw.end);
}

#[test]
fn stack_new_takes_exactly_the_capacity() {
    let mut a: Vec<u8> = Vec::with_capacity(40);
    a.push(5);
    let cap = a.capacity();
    let s = Stack::new(a);
    assert_eq!(s.len(), cap);
    assert_eq!(s.as_bytes()[0], 5);
    assert_eq!(s.as_bytes().iter().filter(|b| **b == 0).count(), cap - 1);
}

#[test]
fn no_op_routine_is_ready_on_first_poll() {
    for size in [1usize, 7, 4096, 65536] {
        let mut w = ScriptedWork::new(size, Vec::new());
        assert_eq!(w.stack_bytes().len(), size);
        assert_eq!(w.poll(Waker::noop()), Some(Vec::new()));
        assert_eq!(w.phase(), Phase::Done);
    }
}

#[test]
fn awaits_that_never_pend_need_one_poll() {
    let ops = vec![ready_at_once(1), ready_at_once(2), ready_at_once(3)];
    let mut w = ScriptedWork::new(1024, ops);
    assert_eq!(w.poll(Waker::noop()), Some(vec![1, 2, 3]));
}

#[test]
fn each_await_pending_once_gives_n_pendings() {
    let n = 5u64;
    let ops: Vec<InnerOp> = (0..n).map(|i| InnerOp { pending: 1, value: 10 * i + 1 }).collect();
    let mut w = ScriptedWork::new(1024, ops);
    for _ in 0..n {
        assert_eq!(w.poll(Waker::noop()), None);
        assert!(w.is_resume_pending());
    }
    assert_eq!(w.poll(Waker::noop()), Some(vec![1, 11, 21, 31, 41]));
}

#[test]
fn immediately_ready_42() {
    let mut w = ScriptedWork::new(4096, vec![ready_at_once(42)]);
    assert_eq!(w.poll(Waker::noop()), Some(vec![42]));
    assert!(!w.is_resume_pending());
    assert_eq!(w.phase(), Phase::Done);
}

#[test]
fn pending_once_then_7() {
    let mut w = ScriptedWork::new(4096, vec![InnerOp { pending: 1, value: 7 }]);
    assert_eq!(w.poll(Waker::noop()), None);
    assert_eq!(w.phase(), Phase::Suspended);
    assert_eq!(w.poll(Waker::noop()), Some(vec![7]));
}

#[test]
fn stale_waker_after_reregistration() {
    let (a_count, a) = counting_waker();
    let (b_count, b) = counting_waker();
    let mut w = ScriptedWork::new(256, vec![InnerOp { pending: 2, value: 9 }]);
    assert_eq!(w.poll(&a), None);
    assert_eq!(w.poll(&b), None);
    a.wake_by_ref();
    assert_eq!(a_count.0.load(Ordering::SeqCst), 1);
    assert_eq!(b_count.0.load(Ordering::SeqCst), 0);
    assert_eq!(w.phase(), Phase::Suspended);
    assert_eq!(w.poll(&b), Some(vec![9]));
}

#[test]
fn done_work_reports_done() {
    let mut w = ScriptedWork::new(16, vec![ready_at_once(3)]);
    assert_eq!(w.poll(Waker::noop()), Some(vec![3]));
    // a further poll is ruled out by contract; the phase is what callers test
    assert_eq!(w.phase(), Phase::Done);
}

#[test]
fn two_units_interleave_independently() {
    let mut x = ScriptedWork::new(128, vec![InnerOp { pending: 1, value: 5 }, InnerOp { pending: 2, value: 6 }]);
    let mut y = ScriptedWork::new(256, vec![InnerOp { pending: 1, value: 100 }]);
    assert_eq!(x.poll(Waker::noop()), None);
    assert_eq!(y.poll(Waker::noop()), None);
    assert_eq!(x.poll(Waker::noop()), None);
    assert_eq!(y.poll(Waker::noop()), Some(vec![100]));
    assert_eq!(x.poll(Waker::noop()), None);
    assert_eq!(x.poll(Waker::noop()), Some(vec![5, 6]));
    assert_eq!(x.stack_bytes().len(), 128);
    assert_eq!(y.stack_bytes().len(), 256);
    assert!(x.stack_bytes().iter().all(|b| *b == 0));
    assert!(y.stack_bytes().iter().all(|b| *b == 0));
}

#[test]
fn run_to_ready_counts_pending_polls() {
    let ops = vec![InnerOp { pending: 1, value: 4 }, InnerOp { pending: 3, value: 5 }, ready_at_once(6)];
    let mut w = ScriptedWork::new(512, ops);
    assert_eq!(w.run_to_ready(Waker::noop()), (4, vec![4, 5, 6]));
    assert_eq!(w.phase(), Phase::Done);
    let mut once: Vec<InnerOp> = (0..7).map(|i| InnerOp { pending: 1, value: i }).collect::<Vec<_>>();
    once.reverse();
    let mut v = ScriptedWork::new(64, once);
    assert_eq!(v.run_to_ready(Waker::noop()), (7, vec![6, 5, 4, 3, 2, 1, 0]));
}
