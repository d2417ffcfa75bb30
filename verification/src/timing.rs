//! Periodic tasks driven by a monotonic clock.
//!
//! Instants and durations are nanosecond counts read from one monotonic
//! clock; the caller supplies the current reading, so every decision here is
//! a function of its arguments.
use std::sync::Arc;
use vstd::prelude::*;

verus! {

/// A task that is due again once more than `interval` nanoseconds have
/// passed since `last_execution`; when it runs, `execute_func` is called
/// with a new handle on the shared `ama`.
pub struct TemporalTask<F, A> {
    pub interval: u64,
    pub execute_func: F,
    pub last_execution: u64,
    pub ama: Arc<A>,
}

/// A new handle on the same shared value (`Arc::clone`).
#[verifier::external_body]
fn share<A>(a: &Arc<A>) -> (r: Arc<A>)
    ensures
        r == *a,
{
    a.clone()
}

/// The time that has passed from `earlier` to `later`, zero when `later`
/// lies before `earlier` (the clock never reports a negative span).
pub open spec fn elapsed(later: u64, earlier: u64) -> int {
    if later >= earlier { later - earlier } else { 0 }
}

impl<F, A> TemporalTask<F, A> {
    /// Whether the task runs when the clock reads `now`.
    pub open spec fn is_due(&self, now: u64) -> bool {
        elapsed(now, self.last_execution) > self.interval
    }

    /// A task created at `now`: it first runs once `interval` has passed.
    pub fn new(interval: u64, execute_func: F, args: Arc<A>, now: u64) -> (t: Self)
        ensures
            t.interval == interval,
            t.execute_func == execute_func,
            t.ama == args,
            t.last_execution == now,
    {
        TemporalTask { interval, execute_func, last_execution: now, ama: args }
    }
}

/// An ordered list of periodic tasks.
pub struct Scheduler<F, A> {
    pub tasks: Vec<TemporalTask<F, A>>,
}

/// `next` is `prev` after running the due tasks at `now`: every due task has
/// its last run set to `now`, everything else stays as it was.
pub open spec fn stepped<F, A>(
    prev: Seq<TemporalTask<F, A>>,
    next: Seq<TemporalTask<F, A>>,
    now: u64,
) -> bool {
    &&& next.len() == prev.len()
    &&& forall|i: int|
        0 <= i < prev.len() ==> {
            &&& #[trigger] next[i].interval == prev[i].interval
            &&& next[i].execute_func == prev[i].execute_func
            &&& next[i].ama == prev[i].ama
            &&& next[i].last_execution == (if prev[i].is_due(now) {
                now
            } else {
                prev[i].last_execution
            })
        }
}

/// The indices of the tasks of `tasks` that are due at `now`, in order.
pub open spec fn due_indices<F, A>(tasks: Seq<TemporalTask<F, A>>, now: u64) -> Seq<usize>
    decreases tasks.len(),
{
    if tasks.len() == 0 {
        Seq::empty()
    } else {
        let rest = due_indices(tasks.drop_last(), now);
        if tasks.last().is_due(now) {
            rest.push((tasks.len() - 1) as usize)
        } else {
            rest
        }
    }
}

impl<F: Fn(Arc<A>), A> Scheduler<F, A> {
    /// A scheduler without tasks.
    pub fn new() -> (s: Self)
        ensures
            s.tasks@.len() == 0,
    {
        Scheduler { tasks: Vec::new() }
    }

    /// Adds `task` after the existing ones.
    pub fn create_task(&mut self, task: TemporalTask<F, A>)
        ensures
            final(self).tasks@ == old(self).tasks@.push(task),
    {
        self.tasks.push(task);
    }

    /// Runs every task that is due at `now`, in the order of the list:
    /// calls its `execute_func` with a handle on its `ama` and marks it as
    /// run at `now`. Returns the indices of the tasks it ran, in the order
    /// it ran them.
    pub fn execute_pending(&mut self, now: u64) -> (fired: Vec<usize>)
        requires
            forall|i: int| 0 <= i < old(self).tasks@.len() ==> call_requires(
                old(self).tasks@[i].execute_func,
                (old(self).tasks@[i].ama,),
            ),
        ensures
            stepped(old(self).tasks@, final(self).tasks@, now),
            fired@ == due_indices(old(self).tasks@, now),
            forall|k: int| 0 <= k < fired@.len() ==> call_ensures(
                old(self).tasks@[fired@[k] as int].execute_func,
                (old(self).tasks@[fired@[k] as int].ama,),
                (),
            ),
    {
        let ghost prev = self.tasks@;
        let mut fired: Vec<usize> = Vec::new();
        let n = self.tasks.len();
        let mut i: usize = 0;
        while i < n
            invariant
                n == prev.len(),
                i <= n,
                self.tasks@.len() == n,
                fired@ == due_indices(prev.take(i as int), now),
                forall|k: int| 0 <= k < fired@.len() ==> #[trigger] fired@[k] < i,
                forall|k: int| 0 <= k < fired@.len() ==> call_ensures(
                    prev[#[trigger] fired@[k] as int].execute_func,
                    (prev[fired@[k] as int].ama,),
                    (),
                ),
                forall|j: int| 0 <= j < n ==> call_requires(prev[j].execute_func, (prev[j].ama,)),
                forall|j: int|
                    0 <= j < n ==> {
                        &&& #[trigger] self.tasks@[j].interval == prev[j].interval
                        &&& self.tasks@[j].execute_func == prev[j].execute_func
                        &&& self.tasks@[j].ama == prev[j].ama
                        &&& self.tasks@[j].last_execution == (if j < i && prev[j].is_due(now) {
                            now
                        } else {
                            prev[j].last_execution
                        })
                    },
            decreases n - i,
        {
            let last = self.tasks[i].last_execution;
            let span: u64 = if now >= last { now - last } else { 0 };
            assert(prev.take(i + 1).drop_last() =~= prev.take(i as int));
            let ghost before = self.tasks@;
            assert(self.tasks@[i as int].interval == prev[i as int].interval);
            if span > self.tasks[i].interval {
                let handle = share(&self.tasks[i].ama);
                let f = &self.tasks[i].execute_func;
                f(handle);
                self.tasks[i].last_execution = now;
                fired.push(i);
            }
            assert forall|j: int| 0 <= j < n && j != i implies #[trigger] self.tasks@[j] == before[j]
                && before[j].interval == prev[j].interval by {}
            assert(self.tasks@[i as int].interval == prev[i as int].interval);
            assert(self.tasks@[i as int].execute_func == prev[i as int].execute_func);
            assert(self.tasks@[i as int].ama == prev[i as int].ama);
            assert(self.tasks@[i as int].last_execution == (if prev[i as int].is_due(now) { now } else { prev[i as int].last_execution }));
            i = i + 1;
        }
        assert(prev.take(n as int) =~= prev);
        fired
    }
}

/// Running the due tasks twice at the same instant runs nothing the second
/// time: a task that has just run is not due again until time has passed.
pub proof fn lemma_execute_pending_idempotent<F, A>(
    prev: Seq<TemporalTask<F, A>>,
    next: Seq<TemporalTask<F, A>>,
    now: u64,
)
    requires
        stepped(prev, next, now),
    ensures
        due_indices(next, now).len() == 0,
        forall|i: int| 0 <= i < next.len() ==> !(#[trigger] next[i]).is_due(now)
            || !prev[i].is_due(now) && next[i] == prev[i],
{
    lemma_no_due_after_step(prev, next, now);
    assert forall|i: int| 0 <= i < next.len() implies !(#[trigger] next[i]).is_due(now)
        || !prev[i].is_due(now) && next[i] == prev[i] by {
        assert(next[i].interval == prev[i].interval);
        if prev[i].is_due(now) {
            assert(next[i].last_execution == now);
        } else {
            assert(next[i] == prev[i]);
        }
    };
}

proof fn lemma_no_due_after_step<F, A>(
    prev: Seq<TemporalTask<F, A>>,
    next: Seq<TemporalTask<F, A>>,
    now: u64,
)
    requires
        stepped(prev, next, now),
    ensures
        due_indices(next, now).len() == 0,
    decreases next.len(),
{
    if next.len() > 0 {
        let k = next.len() - 1;
        assert(next[k].interval == prev[k].interval);
        if prev[k].is_due(now) {
            assert(next[k].last_execution == now);
        }
        assert(stepped(prev.drop_last(), next.drop_last(), now)) by {
            assert forall|i: int| 0 <= i < prev.drop_last().len() implies {
                &&& #[trigger] next.drop_last()[i].interval == prev.drop_last()[i].interval
                &&& next.drop_last()[i].execute_func == prev.drop_last()[i].execute_func
                &&& next.drop_last()[i].ama == prev.drop_last()[i].ama
                &&& next.drop_last()[i].last_execution == (if prev.drop_last()[i].is_due(now) {
                    now
                } else {
                    prev.drop_last()[i].last_execution
                })
            } by {
                assert(next[i].interval == prev[i].interval);
            }
        };
        lemma_no_due_after_step(prev.drop_last(), next.drop_last(), now);
    }
}

} // verus!
