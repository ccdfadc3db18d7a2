//! Building the kernel: adding tasks, and the checks made before the first
//! task starts.
use crate::control::{control_from_bits, control_is_privileged, control_uses_main_stack};
use crate::scheduler::task::{frame_words, initial_frame, write_words, zero_stack, Task, STACK_OFFSET};
use crate::scheduler::{Scheduler, READY_CAPACITY};
use vstd::prelude::*;

verus! {

/// Why the supervised context cannot start from the current CONTROL value.
#[derive(Debug, PartialEq, Eq, Structural)]
pub enum StartError {
    /// Thread mode is unprivileged.
    Unprivileged,
    /// The process stack pointer is in use instead of the main one.
    ProcessStack,
}

/// The verdict on CONTROL bits `bits`: the kernel starts only from
/// privileged thread mode on the main stack.
pub open spec fn start_verdict(bits: u32) -> Result<(), StartError> {
    if bits & 1 != 0 {
        Err(StartError::Unprivileged)
    } else if bits & 2 != 0 {
        Err(StartError::ProcessStack)
    } else {
        Ok(())
    }
}

/// Checks that a supervised context may start from the CONTROL register
/// bits `bits`: thread mode must be privileged and use the main stack pointer.
///
/// Only bit 0 (nPRIV) and bit 1 (SPSEL) count; FPCA and any other bit are
/// ignored.
pub fn check_start_context(bits: u32) -> (r: Result<(), StartError>)
    ensures
        r == start_verdict(bits),
        (r == Err::<(), StartError>(StartError::Unprivileged)) <==> bits % 2 == 1,
        (r == Err::<(), StartError>(StartError::ProcessStack)) <==> (bits % 2 == 0 && (bits / 2) % 2 == 1),
        (r is Ok) <==> bits % 4 == 0,
{
    proof {
        lemma_start_verdict_bits(bits);
    }
    let control = control_from_bits(bits);
    if !control_is_privileged(control) {
        Err(StartError::Unprivileged)
    } else if !control_uses_main_stack(control) {
        Err(StartError::ProcessStack)
    } else {
        Ok(())
    }
}

/// The start verdict reads nPRIV (bit 0) first, then SPSEL (bit 1), and no
/// other bit: refused as unprivileged exactly when bit 0 is set, refused for
/// the process stack exactly when bit 0 is clear and bit 1 set, accepted
/// exactly when both are clear.
pub proof fn lemma_start_verdict_bits(bits: u32)
    ensures
        (start_verdict(bits) == Err::<(), StartError>(StartError::Unprivileged)) <==> bits % 2 == 1,
        (start_verdict(bits) == Err::<(), StartError>(StartError::ProcessStack)) <==> (bits % 2 == 0
            && (bits / 2) % 2 == 1),
        (start_verdict(bits) is Ok) <==> bits % 4 == 0,
{
    assert((bits & 1 != 0) <==> bits % 2 == 1) by (bit_vector);
    assert((bits & 2 != 0) <==> (bits / 2) % 2 == 1) by (bit_vector);
    assert((bits & 1 == 0 && bits & 2 == 0) <==> bits % 4 == 0) by (bit_vector);
}

/// Two CONTROL values that agree on nPRIV and SPSEL get the same verdict,
/// whatever their other bits (FPCA among them).
pub proof fn lemma_start_verdict_ignores_other_bits(a: u32, b: u32)
    requires
        a % 4 == b % 4,
    ensures
        start_verdict(a) == start_verdict(b),
{
    lemma_start_verdict_bits(a);
    lemma_start_verdict_bits(b);
    assert(a % 2 == (a % 4) % 2 && (a / 2) % 2 == (a % 4) / 2) by (nonlinear_arith);
    assert(b % 2 == (b % 4) % 2 && (b / 2) % 2 == (b % 4) / 2) by (nonlinear_arith);
}

/// The ready queue had no room for another task.
#[derive(Debug, PartialEq, Eq, Structural)]
pub struct QueueFull;

/// Creates a task that starts at code address `entry` and puts it at the
/// back of the ready queue; fails, leaving the scheduler as it was, when
/// the queue is full.
pub fn add_task<Timer>(sched: &mut Scheduler<Timer>, entry: usize) -> (r: Result<(), QueueFull>)
    ensures
        final(sched).current_view() == old(sched).current_view(),
        final(sched).timer() == old(sched).timer(),
        (r is Ok) == (old(sched).ready_view().len() < READY_CAPACITY),
        r is Err ==> final(sched).ready_view() == old(sched).ready_view(),
        r is Ok ==> {
            let t = final(sched).ready_view().last();
            &&& final(sched).ready_view() == old(sched).ready_view().push(t)
            &&& t.sp_view() == STACK_OFFSET
            &&& t.stack_view() == write_words(
                zero_stack(),
                (STACK_OFFSET / 4) as int,
                frame_words(initial_frame(entry)),
            )
        },
{
    let task = Task::create(entry);
    if sched.ready_len() < READY_CAPACITY {
        sched.schedule_task(task);
        Ok(())
    } else {
        Err(QueueFull)
    }
}

} // verus!
