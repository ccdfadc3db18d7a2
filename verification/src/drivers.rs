//! The serial driver's bookkeeping: received bytes not yet read, and the
//! task waiting for the next byte.
use crate::scheduler::task::PendingTask;
use crate::scheduler::{Scheduler, READY_CAPACITY};
use heapless::Deque;
use vstd::prelude::*;

verus! {

/// How many received bytes the driver keeps at most.
pub const BUFFER_CAPACITY: usize = 10;

/// The bytes a receive buffer holds, oldest first.
pub uninterp spec fn buffered_bytes(buffer: Deque<u8, 10>) -> Seq<u8>;

/// `Deque::new`: an empty buffer.
#[verifier::external_body]
fn byte_buffer_new() -> (buffer: Deque<u8, 10>)
    ensures
        buffered_bytes(buffer) == Seq::<u8>::empty(),
{
    Deque::new()
}

/// `Deque::pop_front`: removes and returns the oldest byte, `None` when the
/// buffer is empty.
#[verifier::external_body]
fn byte_buffer_pop_front(buffer: &mut Deque<u8, 10>) -> (r: Option<u8>)
    ensures
        buffered_bytes(*final(buffer)).len() <= BUFFER_CAPACITY,
        buffered_bytes(*old(buffer)).len() == 0 ==> r is None && buffered_bytes(*final(buffer))
            == buffered_bytes(*old(buffer)),
        buffered_bytes(*old(buffer)).len() > 0 ==> r == Some(buffered_bytes(*old(buffer))[0])
            && buffered_bytes(*final(buffer)) == buffered_bytes(*old(buffer)).drop_first(),
{
    buffer.pop_front()
}

/// The value a waiting reader gets in `r0` when a byte arrives.
pub const DATA_READY: u32 = 0xFF;

/// A serial port: the hardware peripheral `inner`, the bytes received but
/// not read yet, and the task waiting for input.
pub struct Serial<S> {
    inner: S,
    buffer: Deque<u8, 10>,
    subscribed: Option<PendingTask>,
}

impl<S> Serial<S> {
    /// The hardware peripheral.
    pub closed spec fn port(&self) -> S {
        self.inner
    }

    /// Bytes received and not read yet, oldest first.
    pub closed spec fn buffered(&self) -> Seq<u8> {
        buffered_bytes(self.buffer)
    }

    /// The task waiting for input, if any.
    pub closed spec fn waiting(&self) -> Option<PendingTask> {
        self.subscribed
    }

    /// A driver for the peripheral `inner`, with nothing buffered and no
    /// task waiting.
    pub fn new(inner: S) -> (r: Self)
        ensures
            r.port() == inner,
            r.buffered() == Seq::<u8>::empty(),
            r.waiting() is None,
    {
        Self { inner, buffer: byte_buffer_new(), subscribed: None }
    }

    /// The hardware peripheral, to read from it.
    pub fn port_mut(&mut self) -> (r: &mut S)
        ensures
            *r == old(self).port(),
            final(self).port() == *final(r),
            final(self).buffered() == old(self).buffered(),
            final(self).waiting() == old(self).waiting(),
    {
        &mut self.inner
    }

    /// The oldest buffered byte, taken out of the buffer; `None` when the
    /// buffer is empty, in which case the caller reads the peripheral.
    pub fn read_buffered(&mut self) -> (r: Option<u8>)
        ensures
            old(self).buffered().len() == 0 ==> r is None && final(self).buffered() == old(
                self,
            ).buffered(),
            old(self).buffered().len() > 0 ==> r == Some(old(self).buffered()[0])
                && final(self).buffered() == old(self).buffered().drop_first(),
            final(self).port() == old(self).port(),
            final(self).waiting() == old(self).waiting(),
    {
        byte_buffer_pop_front(&mut self.buffer)
    }

    /// Whether a task waits for input.
    pub fn has_waiting(&self) -> (r: bool)
        ensures
            r == self.waiting() is Some,
    {
        self.subscribed.is_some()
    }

    /// Makes `task` the one to wake on the next byte, in place of any task
    /// waiting before.
    pub fn subscribe(&mut self, task: PendingTask)
        ensures
            final(self).waiting() == Some(task),
            final(self).port() == old(self).port(),
            final(self).buffered() == old(self).buffered(),
    {
        self.subscribed = Some(task);
    }

    /// What happens when a byte has arrived: the waiting task, if any, gets
    /// [`DATA_READY`] in `r0` and joins the back of the ready queue.
    pub fn on_receive<Timer>(&mut self, sched: &mut Scheduler<Timer>)
        requires
            old(self).waiting() is Some ==> old(sched).ready_view().len() < READY_CAPACITY,
        ensures
            final(self).waiting() is None,
            final(self).port() == old(self).port(),
            final(self).buffered() == old(self).buffered(),
            final(sched).current_view() == old(sched).current_view(),
            final(sched).timer() == old(sched).timer(),
            old(self).waiting() is None ==> final(sched).ready_view() == old(sched).ready_view(),
            old(self).waiting() matches Some(p) ==> {
                let t = final(sched).ready_view().last();
                &&& final(sched).ready_view() == old(sched).ready_view().push(t)
                &&& t.sp_view() == p.task().sp_view()
                &&& t.stack_view() == p.task().stack_view().update(p.task().r0_index(), DATA_READY)
            },
    {
        if let Some(task) = self.subscribed.take() {
            let task = task.resolve_args(DATA_READY);
            sched.schedule_task(task);
        }
    }
}

} // verus!
