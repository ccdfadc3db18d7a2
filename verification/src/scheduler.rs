//! Round-robin scheduling of the kernel's tasks.
use heapless::Deque;
use vstd::prelude::*;

pub mod arguments;
pub mod handle;
pub mod task;

use handle::TaskHandle;
use task::{FramePtr, Task};

verus! {

#[verifier::external_type_specification]
#[verifier::external_body]
#[verifier::reject_recursive_types(T)]
pub struct ExDeque<T, const N: usize>(Deque<T, N>);

/// How many tasks wait in the ready queue at most.
pub const READY_CAPACITY: usize = 10;

/// The tasks a ready queue holds, front first.
pub uninterp spec fn ready_tasks(queue: Deque<Task, 10>) -> Seq<Task>;

/// `Deque::new`: an empty queue.
#[verifier::external_body]
fn ready_queue_new() -> (queue: Deque<Task, 10>)
    ensures
        ready_tasks(queue) == Seq::<Task>::empty(),
{
    Deque::new()
}

/// `Deque::len`: the number of tasks held, never more than the capacity.
#[verifier::external_body]
fn ready_queue_len(queue: &Deque<Task, 10>) -> (n: usize)
    ensures
        n == ready_tasks(*queue).len(),
        n <= READY_CAPACITY,
{
    queue.len()
}

/// `Deque::push_back`: appends `task` unless the queue is full, in which
/// case the queue is left as it was and `task` comes back as the error.
#[verifier::external_body]
fn ready_queue_push_back(queue: &mut Deque<Task, 10>, task: Task) -> (r: Result<(), Task>)
    ensures
        ready_tasks(*final(queue)).len() <= READY_CAPACITY,
        ready_tasks(*old(queue)).len() < READY_CAPACITY ==> r is Ok && ready_tasks(*final(queue))
            == ready_tasks(*old(queue)).push(task),
        ready_tasks(*old(queue)).len() >= READY_CAPACITY ==> (r matches Err(t) && t == task)
            && ready_tasks(*final(queue)) == ready_tasks(*old(queue)),
{
    queue.push_back(task)
}

/// `Deque::pop_front`: removes and returns the front task, `None` when the
/// queue is empty.
#[verifier::external_body]
fn ready_queue_pop_front(queue: &mut Deque<Task, 10>) -> (r: Option<Task>)
    ensures
        ready_tasks(*final(queue)).len() <= READY_CAPACITY,
        ready_tasks(*old(queue)).len() == 0 ==> r is None && ready_tasks(*final(queue))
            == ready_tasks(*old(queue)),
        ready_tasks(*old(queue)).len() > 0 ==> r == Some(ready_tasks(*old(queue))[0])
            && ready_tasks(*final(queue)) == ready_tasks(*old(queue)).drop_first(),
{
    queue.pop_front()
}

/// The tasks of `s` once the front one has run: it moves to the back.
pub open spec fn rotate(s: Seq<Task>) -> Seq<Task>
    recommends
        s.len() > 0,
{
    s.drop_first().push(s[0])
}

/// `s` after `k` rotations.
pub open spec fn rotate_n(s: Seq<Task>, k: nat) -> Seq<Task>
    decreases k,
{
    if k == 0 {
        s
    } else {
        rotate(rotate_n(s, (k - 1) as nat))
    }
}

/// `s` after `k` rotations is its last `s.len() - k` tasks followed by its
/// first `k` ones.
proof fn lemma_rotate_n_split(s: Seq<Task>, k: nat)
    requires
        k <= s.len(),
    ensures
        rotate_n(s, k) == s.subrange(k as int, s.len() as int) + s.subrange(0, k as int),
    decreases k,
{
    if k == 0 {
        assert(s.subrange(0, s.len() as int) + s.subrange(0, 0) =~= s);
    } else {
        lemma_rotate_n_split(s, (k - 1) as nat);
        let prev = rotate_n(s, (k - 1) as nat);
        assert(rotate_n(s, k) == rotate(prev));
        assert(rotate(prev) =~= s.subrange(k as int, s.len() as int) + s.subrange(0, k as int));
    }
}

/// Round robin: starting from the order `s`, switching tasks `s.len()`
/// times comes back to `s`, and the `k`-th switch runs the task `s[k - 1]`,
/// so each task runs exactly once per round, in order.
pub proof fn lemma_round_robin(s: Seq<Task>)
    requires
        s.len() > 0,
    ensures
        rotate_n(s, s.len()) == s,
        forall|k: nat| 1 <= k <= s.len() ==> (#[trigger] rotate_n(s, k)).last() == s[k - 1],
{
    lemma_rotate_n_split(s, s.len());
    assert(s.subrange(s.len() as int, s.len() as int) + s.subrange(0, s.len() as int) =~= s);
    assert forall|k: nat| 1 <= k <= s.len() implies (#[trigger] rotate_n(s, k)).last() == s[k - 1] by {
        lemma_rotate_n_split(s, k);
    }
}

/// A switch neither adds, loses nor duplicates a task.
pub proof fn lemma_rotate_keeps_tasks(s: Seq<Task>)
    requires
        s.len() > 0,
    ensures
        rotate(s).len() == s.len(),
        rotate(s).to_multiset() == s.to_multiset(),
{
    let head = seq![s[0]];
    let tail = s.drop_first();
    assert(s =~= head + tail);
    assert(rotate(s) =~= tail + head);
    vstd::seq_lib::lemma_multiset_commutative(head, tail);
    vstd::seq_lib::lemma_multiset_commutative(tail, head);
}

/// The sequence holding the content of `o`, if any.
pub open spec fn option_seq(o: Option<Task>) -> Seq<Task> {
    match o {
        Some(t) => seq![t],
        None => Seq::empty(),
    }
}

/// Picks the task to run next, round robin: the running task goes to the
/// back of the ready queue and the front one runs.
pub struct Scheduler<Timer> {
    systick: Timer,
    ready: Deque<Task, 10>,
    current: Option<Task>,
}

impl<Timer> Scheduler<Timer> {
    /// The tasks waiting to run, the next one first.
    pub closed spec fn ready_view(&self) -> Seq<Task> {
        ready_tasks(self.ready)
    }

    /// The running task.
    pub closed spec fn current_view(&self) -> Option<Task> {
        self.current
    }

    /// The system timer that paces the scheduler.
    pub closed spec fn timer(&self) -> Timer {
        self.systick
    }

    /// Every task, in the order in which they will get the processor: the
    /// ready queue, then the running task.
    pub open spec fn tasks(&self) -> Seq<Task> {
        self.ready_view() + option_seq(self.current_view())
    }

    /// A scheduler with no task, paced by `systick`.
    pub fn new(systick: Timer) -> (r: Self)
        ensures
            r.ready_view() == Seq::<Task>::empty(),
            r.current_view() is None,
            r.timer() == systick,
    {
        let r = Self { systick, ready: ready_queue_new(), current: None };
        assert(r.tasks() =~= Seq::<Task>::empty());
        r
    }

    /// The system timer, to be set up by the caller.
    pub fn systick_mut(&mut self) -> (r: &mut Timer)
        ensures
            *r == old(self).timer(),
            final(self).timer() == *final(r),
            final(self).ready_view() == old(self).ready_view(),
            final(self).current_view() == old(self).current_view(),
    {
        &mut self.systick
    }

    /// The number of tasks in the ready queue.
    pub fn ready_len(&self) -> (n: usize)
        ensures
            n == self.ready_view().len(),
            n <= READY_CAPACITY,
    {
        ready_queue_len(&self.ready)
    }

    /// The running task, if any.
    pub fn current(&self) -> (r: Option<&Task>)
        ensures
            r matches Some(t) ==> self.current_view() == Some(*t),
            r is None ==> self.current_view() is None,
    {
        self.current.as_ref()
    }

    /// `after` is `before` once [`schedule_next`](Self::schedule_next) has
    /// run and returned a frame at offset `sp`: the task order is rotated by
    /// one, the first task of `before` runs, and `sp` is where its frame lies.
    pub open spec fn switched(before: Self, after: Self, sp: usize) -> bool {
        &&& after.tasks() == rotate(before.tasks())
        &&& after.current_view() == Some(before.tasks()[0])
        &&& after.ready_view() == before.tasks().drop_first()
        &&& sp == before.tasks()[0].sp_view()
        &&& after.timer() == before.timer()
    }

    /// Round robin over a run of switches. Let `t0` run with `t1, ..., tn`
    /// ready in `states[0]`, and let `states[k + 1]` and `sps[k]` be what the
    /// `k`-th of `n + 1` consecutive calls of `schedule_next` leaves and
    /// returns, with nothing else done to the scheduler in between. Then the
    /// calls return the frames of `t1`, ..., `tn`, `t0` in that order, each
    /// task runs exactly once, and at the end `t0` runs again with
    /// `t1, ..., tn` ready, as at the start.
    pub proof fn lemma_round_robin_run(states: Seq<Self>, sps: Seq<usize>)
        requires
            states.len() > 0,
            states[0].current_view() is Some,
            states.len() == states[0].tasks().len() + 1,
            sps.len() == states[0].tasks().len(),
            forall|k: int|
                0 <= k < sps.len() ==> #[trigger] Self::switched(states[k], states[k + 1], sps[k]),
        ensures
            forall|k: int|
                0 <= k < sps.len() ==> #[trigger] sps[k] == states[0].tasks()[k].sp_view()
                    && states[k + 1].current_view() == Some(states[0].tasks()[k]),
            states.last().current_view() == states[0].current_view(),
            states.last().ready_view() == states[0].ready_view(),
            states.last().timer() == states[0].timer(),
    {
        let s = states[0].tasks();
        let n1 = s.len();
        assert forall|k: int| 0 <= k <= n1 implies (#[trigger] states[k]).tasks() == rotate_n(s, k as nat)
            && states[k].timer() == states[0].timer() by {
            Self::lemma_run_prefix(states, sps, k as nat);
        }
        assert forall|k: int| 0 <= k < sps.len() implies #[trigger] sps[k] == s[k].sp_view()
            && states[k + 1].current_view() == Some(s[k]) by {
            assert(Self::switched(states[k], states[k + 1], sps[k]));
            assert(states[k].tasks() == rotate_n(s, k as nat));
            lemma_rotate_n_split(s, k as nat);
            assert(rotate_n(s, k as nat)[0] == s[k]);
        }
        let last = (n1 - 1) as int;
        assert(Self::switched(states[last], states[last + 1], sps[last]));
        lemma_rotate_n_split(s, last as nat);
        assert(states[last].tasks() == rotate_n(s, last as nat));
        assert(s == states[0].ready_view() + option_seq(states[0].current_view()));
        assert(s[last] == states[0].current_view()->Some_0);
        assert(states[last].tasks().drop_first() =~= states[0].ready_view());
    }

    /// After `k` switches of a run, the task order is rotated `k` times.
    proof fn lemma_run_prefix(states: Seq<Self>, sps: Seq<usize>, k: nat)
        requires
            states.len() == sps.len() + 1,
            k <= sps.len(),
            forall|j: int|
                0 <= j < sps.len() ==> #[trigger] Self::switched(states[j], states[j + 1], sps[j]),
        ensures
            states[k as int].tasks() == rotate_n(states[0].tasks(), k),
            states[k as int].timer() == states[0].timer(),
        decreases k,
    {
        if k > 0 {
            Self::lemma_run_prefix(states, sps, (k - 1) as nat);
            let j = k - 1;
            assert(Self::switched(states[j], states[j + 1], sps[j]));
        }
    }

    /// Switches to the next task: the running task, if any, joins the back
    /// of the ready queue, and the front task of the queue becomes the
    /// running one. Returns where the new running task's frame lies.
    pub fn schedule_next(&mut self) -> (sp: FramePtr)
        requires
            old(self).tasks().len() > 0,
            old(self).current_view() is Some ==> old(self).ready_view().len() < READY_CAPACITY,
        ensures
            Self::switched(*old(self), *final(self), sp@),
    {
        let ghost all = self.tasks();
        if let Some(task) = self.current.take() {
            match ready_queue_push_back(&mut self.ready, task) {
                Ok(()) => {},
                Err(_) => { vstd::pervasive::unreached::<()>(); },
            }
        }
        assert(self.ready_view() =~= all);
        let task = match ready_queue_pop_front(&mut self.ready) {
            Some(t) => t,
            None => vstd::pervasive::unreached(),
        };
        let sp = self.current.insert(task).sp();
        assert(self.tasks() =~= rotate(all));
        sp
    }

    /// Records that the running task's frame now lies at `frame`, and gives
    /// a handle on that task.
    pub fn save_current(&mut self, frame: FramePtr) -> (h: TaskHandle<'_>)
        requires
            old(self).current_view() is Some,
        ensures
            h.slot().is_some(),
            h.task().sp_view() == frame@,
            h.task().stack_view() == old(self).current_view()->Some_0.stack_view(),
            final(self).current_view() == *final(h.slot()),
            final(self).ready_view() == old(self).ready_view(),
            final(self).timer() == old(self).timer(),
    {
        self.current.as_mut().unwrap().save_sp(frame);
        match TaskHandle::new(&mut self.current) {
            Ok(h) => h,
            Err(_) => vstd::pervasive::unreached(),
        }
    }

    /// Adds `task` at the back of the ready queue.
    pub fn schedule_task(&mut self, task: Task)
        requires
            old(self).ready_view().len() < READY_CAPACITY,
        ensures
            final(self).ready_view() == old(self).ready_view().push(task),
            final(self).current_view() == old(self).current_view(),
            final(self).timer() == old(self).timer(),
    {
        match ready_queue_push_back(&mut self.ready, task) {
            Ok(()) => {},
            Err(_) => { vstd::pervasive::unreached::<()>(); },
        }
    }
}

} // verus!
