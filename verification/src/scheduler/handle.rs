//! In-kernel handles on the running task.
use super::arguments::AbiArguments;
use super::task::{write_words, PendingTask, Task};
use vstd::prelude::*;

verus! {

/// Type for task handles to be handled in-kernel
/// but are still part of scheduling, hence borrowing
pub struct TaskHandle<'a>(&'a mut Option<Task>);

impl<'a> TaskHandle<'a> {
    /// The borrowed task slot.
    pub closed spec fn slot(self) -> &'a mut Option<Task> {
        self.0
    }

    /// The task the handle stands for.
    pub open spec fn task(self) -> Task {
        self.slot()->Some_0
    }

    /// A handle on the task in `task`; the slot itself back when it is empty.
    pub fn new(task: &'a mut Option<Task>) -> (r: Result<Self, &'a mut Option<Task>>)
        ensures
            (r is Ok) == old(task).is_some(),
            r matches Ok(h) ==> *h.slot() == *old(task) && *final(h.slot()) == *final(task),
            r matches Err(t) ==> *t == *old(task) && *final(t) == *final(task),
    {
        match task {
            Some(_) => Ok(TaskHandle(task)),
            None => Err(task),
        }
    }

    /// The task.
    pub fn task_ref(&self) -> (r: &Task)
        requires
            self.slot().is_some(),
        ensures
            *r == self.task(),
    {
        self.0.as_ref().unwrap()
    }

    /// Hands `args` to the task: its pushed values are written into the
    /// argument registers of the task's saved frame, `r0` first.
    pub fn resolve_args<const U: usize>(self, args: AbiArguments<U>)
        requires
            self.slot().is_some(),
            U <= 4,
        ensures
            final(self.slot()).is_some(),
            final(self.slot())->Some_0.sp_view() == self.task().sp_view(),
            final(self.slot())->Some_0.stack_view() == write_words(
                self.task().stack_view(),
                self.task().r0_index(),
                args@.subrange(0, U as int),
            ),
    {
        let h = self;
        let task = h.0.as_mut().unwrap();
        task.apply(args);
    }

    /// Gives the task back to its slot unchanged.
    pub fn release(self)
        ensures
            *final(self.slot()) == *self.slot(),
    {
    }

    /// Takes the task out of its slot, to wait for a value.
    pub fn suspend(self) -> (r: PendingTask)
        requires
            self.slot().is_some(),
        ensures
            r.task() == self.task(),
            final(self.slot()).is_none(),
    {
        let h = self;
        let task = h.0.take().unwrap();
        PendingTask::new(task)
    }
}

} // verus!
