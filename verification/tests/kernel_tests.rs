use alloc_cortex_m::CortexMHeap;
use rust_rtos::drivers::{Serial, DATA_READY};
use rust_rtos::kernel::{add_task, check_start_context, QueueFull, StartError};
use rust_rtos::scheduler::arguments::AbiArguments;
use rust_rtos::scheduler::handle::TaskHandle;
use rust_rtos::scheduler::task::{ExtendedFrame, FramePtr, PendingTask, Stack, Task};
use rust_rtos::scheduler::{Scheduler, READY_CAPACITY};
use rust_rtos::syscall::ids::{InvalidSVC, SVCallId};
use rust_rtos::syscall::{answer_free_mem, svcall, SvcError, SvcOutcome};
use rust_rtos::toinit::{NoToken, ToInit};

const PC_WORD: usize = 62;
const R0: usize = 56;

fn entry_of(task: &Task) -> u32 {
    task.stack().word(PC_WORD)
}

fn current_entry(sched: &Scheduler<()>) -> u32 {
    entry_of(sched.current().unwrap())
}

// ---------------------------------------------------------------- toinit

#[test]
fn toinit_read_after_init() {
    let mut slot: ToInit<u32> = ToInit::uninit();
    slot.init(7);
    assert_eq!(*slot.unwrap(), 7);
    assert_eq!(*slot.expect("set"), 7);
    *slot.unwrap_mut() = 8;
    assert_eq!(*slot.unwrap(), 8);
    *slot.expect_mut("set") += 1;
    assert_eq!(*slot.unwrap(), 9);
}

#[test]
fn toinit_init_replaces_value() {
    let mut slot: ToInit<u32> = ToInit::default();
    slot.init(1);
    slot.init(2);
    assert_eq!(*slot.unwrap(), 2);
}

#[test]
fn toinit_access_with_token() {
    let mut slot: ToInit<u32, u8> = ToInit::uninit();
    slot.init(3);
    assert_eq!(*slot.access(&0u8), 3);
    *slot.access_mut(&0u8) = 4;
    assert_eq!(*slot.access(&0u8), 4);
}

#[test]
fn toinit_default_token_type() {
    let mut slot: ToInit<u32, NoToken> = ToInit::uninit();
    slot.init(10);
    assert_eq!(*slot.expect("set"), 10);
}

// ---------------------------------------------------------------- arguments

#[test]
fn arguments_pushed_in_order() {
    let a = AbiArguments::new();
    assert_eq!(a.pushed(), &[] as &[u32]);
    let a = a.push(5);
    assert_eq!(a.pushed(), &[5]);
    let a = a.push(6);
    assert_eq!(a.pushed(), &[5, 6]);
    let a = a.push(7);
    assert_eq!(a.pushed(), &[5, 6, 7]);
}

// ---------------------------------------------------------------- call ids

#[test]
fn svcall_ids_round_trip() {
    let all = [
        SVCallId::Yield,
        SVCallId::Print,
        SVCallId::ReadChar,
        SVCallId::FreeMem,
        SVCallId::Stop,
    ];
    for (n, id) in all.iter().enumerate() {
        assert_eq!(id.id(), n as u32);
        assert_eq!(SVCallId::try_from(id.id()), Ok(*id));
    }
}

#[test]
fn svcall_id_out_of_range_is_invalid() {
    assert_eq!(SVCallId::try_from(5u32), Err(InvalidSVC));
    assert_eq!(SVCallId::try_from(0xFFFF_FFFFu32), Err(InvalidSVC));
}

// ---------------------------------------------------------------- frames

#[test]
fn frame_builders_set_fields() {
    let w = ExtendedFrame::default().pc(0x20).to_words();
    assert_eq!(w[16], 0x20);
    assert_eq!(w[17], 0);
    let w = ExtendedFrame::default().thumb(true).to_words();
    assert_eq!(w[17], 0x0100_0000);
    let w = ExtendedFrame::default().thumb(false).to_words();
    assert_eq!(w[17], 0);
    let w = ExtendedFrame::default().control(5).to_words();
    assert_eq!(w[0], 5);
    assert!(w[1..].iter().all(|&x| x == 0));
}

#[test]
fn frame_ptr_from_address() {
    assert_eq!(FramePtr::at_address(1000, 1184).map(|f| f.offset()), Some(184));
    assert_eq!(FramePtr::at_address(1000, 1000).map(|f| f.offset()), Some(0));
    assert!(FramePtr::at_address(1000, 1188).is_none());
    assert!(FramePtr::at_address(1000, 1002).is_none());
    assert!(FramePtr::at_address(1000, 996).is_none());
    assert_eq!(FramePtr::new(184).address(1000), Some(1184));
    assert_eq!(FramePtr::new(8).address(usize::MAX - 4), None);
}

// ---------------------------------------------------------------- tasks

#[test]
fn task_create_lays_initial_frame() {
    let task = Task::create(0x0800_1235);
    assert_eq!(task.sp().offset(), 184);
    let stack = task.stack();
    for i in 0..46 {
        assert_eq!(stack.word(i), 0);
    }
    assert_eq!(stack.word(46), 3, "unprivileged, process stack");
    for i in 47..62 {
        assert_eq!(stack.word(i), 0);
    }
    assert_eq!(stack.word(62), 0x0800_1235);
    assert_eq!(stack.word(63), 0x0100_0000);
}

#[test]
fn stack_new_is_zero() {
    let s = Stack::new();
    assert!(s.iter().all(|&w| w == 0));
    assert_eq!(s.len(), 64);
}

#[test]
fn pending_task_gets_r0() {
    let task = Task::create(0x100);
    let task = PendingTask::new(task).resolve_args(0xAB);
    assert_eq!(task.stack().word(R0), 0xAB);
    assert_eq!(task.stack().word(R0 + 1), 0);
    assert_eq!(task.sp().offset(), 184);
}

#[test]
fn task_apply_after_save_sp() {
    let mut task = Task::create(0x100);
    task.save_sp(FramePtr::new(100));
    task.apply(AbiArguments::new().push(1).push(2));
    assert_eq!(task.stack().word(25 + 10), 1);
    assert_eq!(task.stack().word(25 + 11), 2);
    assert_eq!(task.stack().word(25 + 12), 0);
}

// ---------------------------------------------------------------- handles

#[test]
fn task_handle_needs_a_task() {
    let mut empty: Option<Task> = None;
    assert!(TaskHandle::new(&mut empty).is_err());
    let mut slot = Some(Task::create(0x300));
    assert!(TaskHandle::new(&mut slot).is_ok());
}

#[test]
fn task_handle_resolve_args() {
    let mut slot = Some(Task::create(0x300));
    let h = TaskHandle::new(&mut slot).ok().unwrap();
    assert_eq!(entry_of(h.task_ref()), 0x300);
    h.resolve_args(AbiArguments::new().push(11).push(12).push(13));
    let t = slot.as_ref().unwrap();
    assert_eq!(t.stack().word(R0), 11);
    assert_eq!(t.stack().word(R0 + 1), 12);
    assert_eq!(t.stack().word(R0 + 2), 13);
    assert_eq!(t.stack().word(R0 + 3), 0);
}

#[test]
fn task_handle_suspend_empties_slot() {
    let mut slot = Some(Task::create(0x300));
    let pending = TaskHandle::new(&mut slot).ok().unwrap().suspend();
    assert!(slot.is_none());
    let task = pending.resolve_args(1);
    assert_eq!(entry_of(&task), 0x300);
}

// ---------------------------------------------------------------- scheduler

fn three_tasks() -> Scheduler<()> {
    let mut sched = Scheduler::new(());
    for entry in [0xA0, 0xB0, 0xC0] {
        assert_eq!(add_task(&mut sched, entry), Ok(()));
    }
    sched
}

#[test]
fn scheduler_round_robin_order() {
    let mut sched = three_tasks();
    assert!(sched.current().is_none());
    let mut seen = Vec::new();
    for _ in 0..7 {
        let sp = sched.schedule_next();
        assert_eq!(sp.offset(), 184);
        seen.push(current_entry(&sched));
    }
    assert_eq!(seen, vec![0xA0, 0xB0, 0xC0, 0xA0, 0xB0, 0xC0, 0xA0]);
}

#[test]
fn scheduler_run_of_switches_returns_to_start() {
    let mut sched = three_tasks();
    sched.schedule_next();
    // A runs, B and C are ready
    let mut ran = Vec::new();
    for _ in 0..3 {
        assert_eq!(sched.schedule_next().offset(), 184);
        ran.push(current_entry(&sched));
    }
    assert_eq!(ran, vec![0xB0, 0xC0, 0xA0]);
    assert_eq!(current_entry(&sched), 0xA0);
    assert_eq!(sched.ready_len(), 2);
    sched.schedule_next();
    assert_eq!(current_entry(&sched), 0xB0);
}

#[test]
fn scheduler_keeps_every_task() {
    let mut sched = three_tasks();
    sched.schedule_next();
    for _ in 0..5 {
        sched.schedule_next();
        assert_eq!(sched.ready_len(), 2);
        assert!(sched.current().is_some());
    }
}

#[test]
fn scheduler_single_task_runs_again() {
    let mut sched = Scheduler::new(());
    add_task(&mut sched, 0x42).unwrap();
    sched.schedule_next();
    sched.schedule_next();
    assert_eq!(current_entry(&sched), 0x42);
    assert_eq!(sched.ready_len(), 0);
}

#[test]
fn add_task_fails_when_queue_full() {
    let mut sched = Scheduler::new(());
    for i in 0..READY_CAPACITY {
        assert_eq!(add_task(&mut sched, 0x1000 + i), Ok(()));
    }
    assert_eq!(add_task(&mut sched, 0x2000), Err(QueueFull));
    assert_eq!(sched.ready_len(), READY_CAPACITY);
}

#[test]
fn schedule_task_appends() {
    let mut sched = three_tasks();
    sched.schedule_next();
    sched.schedule_task(Task::create(0xD0));
    let mut seen = Vec::new();
    for _ in 0..4 {
        sched.schedule_next();
        seen.push(current_entry(&sched));
    }
    assert_eq!(seen, vec![0xB0, 0xC0, 0xD0, 0xA0]);
}

#[test]
fn save_current_records_frame() {
    let mut sched = three_tasks();
    sched.schedule_next();
    let h = sched.save_current(FramePtr::new(120));
    h.release();
    assert_eq!(sched.current().unwrap().sp().offset(), 120);
    sched.schedule_next();
    sched.schedule_next();
    let sp = sched.schedule_next();
    assert_eq!(sp.offset(), 120);
}

#[test]
fn scheduler_timer_is_kept() {
    let mut sched: Scheduler<u32> = Scheduler::new(5);
    *sched.systick_mut() += 1;
    assert_eq!(*sched.systick_mut(), 6);
}

// ---------------------------------------------------------------- system calls

#[test]
fn svcall_yield_pends_switch() {
    let heap = CortexMHeap::empty();
    let mut sched = three_tasks();
    sched.schedule_next();
    let r = svcall(&mut sched, &heap, FramePtr::new(112), 0);
    assert_eq!(r, Ok(SvcOutcome::PendSwitch));
    assert_eq!(sched.current().unwrap().sp().offset(), 112);
    assert_eq!(sched.current().unwrap().stack().word(28 + 10), 0);
}

#[test]
fn svcall_unimplemented_calls() {
    let heap = CortexMHeap::empty();
    let mut sched = three_tasks();
    sched.schedule_next();
    for (n, id) in [(1u32, SVCallId::Print), (2, SVCallId::ReadChar), (4, SVCallId::Stop)] {
        assert_eq!(
            svcall(&mut sched, &heap, FramePtr::new(184), n),
            Err(SvcError::Unimplemented(id))
        );
    }
}

#[test]
fn svcall_invalid_number() {
    let heap = CortexMHeap::empty();
    let mut sched = three_tasks();
    sched.schedule_next();
    assert_eq!(
        svcall(&mut sched, &heap, FramePtr::new(184), 17),
        Err(SvcError::Invalid(InvalidSVC))
    );
}

#[test]
fn free_mem_answer_in_r0_r1() {
    let mut slot = Some(Task::create(0x300));
    let h = TaskHandle::new(&mut slot).ok().unwrap();
    answer_free_mem(h, 1000, 24);
    let t = slot.as_ref().unwrap();
    assert_eq!(t.stack().word(R0), 1000);
    assert_eq!(t.stack().word(R0 + 1), 24);
    assert_eq!(t.stack().word(R0 + 2), 0);
}

// ---------------------------------------------------------------- serial

#[test]
fn serial_starts_empty() {
    let mut serial = Serial::new(());
    assert_eq!(serial.read_buffered(), None);
}

#[test]
fn serial_wakes_subscribed_task() {
    let mut sched = three_tasks();
    sched.schedule_next();
    let mut serial = Serial::new(());
    serial.subscribe(PendingTask::new(Task::create(0xE0)));
    serial.on_receive(&mut sched);
    assert_eq!(sched.ready_len(), 3);
    let mut last = 0;
    for _ in 0..3 {
        sched.schedule_next();
        last = current_entry(&sched);
        if last == 0xE0 {
            assert_eq!(sched.current().unwrap().stack().word(R0), DATA_READY);
        }
    }
    assert_eq!(last, 0xE0);
    // nobody waits any more: a second byte changes nothing
    serial.on_receive(&mut sched);
    assert_eq!(sched.ready_len(), 3);
}

// ---------------------------------------------------------------- start checks

#[test]
fn start_context_checks() {
    assert_eq!(check_start_context(0), Ok(()));
    assert_eq!(
        check_start_context(1),
        Err(StartError::Unprivileged)
    );
    assert_eq!(
        check_start_context(2),
        Err(StartError::ProcessStack)
    );
    assert_eq!(
        check_start_context(3),
        Err(StartError::Unprivileged)
    );
}
