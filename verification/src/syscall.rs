//! What the kernel does on a system call.
use crate::allocator;
use crate::scheduler::arguments::AbiArguments;
use crate::scheduler::handle::TaskHandle;
use crate::scheduler::task::{write_words, FramePtr, R0_WORD};
use crate::scheduler::Scheduler;
use alloc_cortex_m::CortexMHeap;
use ids::{svcall_of, InvalidSVC, SVCallId};
use vstd::prelude::*;

pub mod ids;

verus! {

/// What is left to do once a system call has been handled.
#[derive(Debug, PartialEq, Eq, Structural)]
pub enum SvcOutcome {
    /// The caller gives up the processor: a context switch is to be pended.
    PendSwitch,
    /// The caller's answer is in its saved registers: it resumes at once.
    Resume,
}

/// Why a system call could not be handled.
#[derive(Debug, PartialEq, Eq, Structural)]
pub enum SvcError {
    /// The call number names no system call.
    Invalid(InvalidSVC),
    /// The system call exists but the kernel does not provide it.
    Unimplemented(SVCallId),
}

/// `stack`, whose saved frame lies at byte offset `sp`, once `free` and
/// `used` are in the frame's `r0` and `r1`.
pub open spec fn free_mem_answer(stack: Seq<u32>, sp: usize, free: usize, used: usize) -> Seq<u32> {
    write_words(stack, sp / 4 + R0_WORD, seq![free as u32, used as u32])
}

/// Answers a `FreeMem` call: the free and used byte counts of the heap go to
/// the task's `r0` and `r1`, truncated to 32 bits.
pub fn answer_free_mem(task: TaskHandle<'_>, free: usize, used: usize)
    requires
        task.slot().is_some(),
    ensures
        final(task.slot()).is_some(),
        final(task.slot())->Some_0.sp_view() == task.task().sp_view(),
        final(task.slot())->Some_0.stack_view() == free_mem_answer(
            task.task().stack_view(),
            task.task().sp_view(),
            free,
            used,
        ),
{
    let ret = AbiArguments::new().push(#[verifier::truncate] (free as u32)).push(
        #[verifier::truncate] (used as u32),
    );
    assert(ret@.subrange(0, 2) =~= seq![free as u32, used as u32]);
    task.resolve_args(ret)
}

/// Handles system call number `id` made by the running task, whose frame
/// now lies at `frame`: the frame is recorded first, then the call is
/// decoded. `Yield` asks for a context switch; `FreeMem` answers with the
/// heap's free and used byte counts; any other number is an error.
pub fn svcall<Timer>(sched: &mut Scheduler<Timer>, heap: &CortexMHeap, frame: FramePtr, id: u32) -> (r: Result<SvcOutcome, SvcError>)
    requires
        old(sched).current_view() is Some,
    ensures
        final(sched).ready_view() == old(sched).ready_view(),
        final(sched).timer() == old(sched).timer(),
        final(sched).current_view() is Some,
        final(sched).current_view()->Some_0.sp_view() == frame@,
        r == (match svcall_of(id) {
            Ok(SVCallId::Yield) => Ok(SvcOutcome::PendSwitch),
            Ok(SVCallId::FreeMem) => Ok(SvcOutcome::Resume),
            Ok(other) => Err(SvcError::Unimplemented(other)),
            Err(e) => Err(SvcError::Invalid(e)),
        }),
        svcall_of(id) == Ok::<SVCallId, InvalidSVC>(SVCallId::FreeMem) ==> exists|free: usize, used: usize|
            final(sched).current_view()->Some_0.stack_view() == free_mem_answer(
                old(sched).current_view()->Some_0.stack_view(),
                frame@,
                free,
                used,
            ),
        svcall_of(id) != Ok::<SVCallId, InvalidSVC>(SVCallId::FreeMem) ==>
            final(sched).current_view()->Some_0.stack_view()
            == old(sched).current_view()->Some_0.stack_view(),
{
    let task = sched.save_current(frame);
    let r = match SVCallId::try_from(id) {
        Ok(SVCallId::Yield) => {
            task.release();
            Ok(SvcOutcome::PendSwitch)
        },
        Ok(SVCallId::FreeMem) => {
            let (free, used) = allocator::free(heap);
            answer_free_mem(task, free, used);
            assert(exists|f: usize, u: usize|
                sched.current_view()->Some_0.stack_view() == free_mem_answer(
                    old(sched).current_view()->Some_0.stack_view(),
                    frame@,
                    f,
                    u,
                ));
            Ok(SvcOutcome::Resume)
        },
        Ok(other) => {
            task.release();
            Err(SvcError::Unimplemented(other))
        },
        Err(e) => {
            task.release();
            Err(SvcError::Invalid(e))
        },
    };
    r
}

} // verus!
