use vstd::prelude::*;

verus! {

/// The serial queue of one database: tasks start in the order they were
/// submitted, and one at a time.
///
/// Whoever runs the tasks asks `start_next` for work and calls `finish` when
/// the task it got has completed; until then no other task is handed out.
pub struct SerialQueue<T> {
    pending: Vec<T>,
    busy: bool,
}

/// What `start_next` does to a queue: the task it hands out (if any), the
/// tasks still waiting, and whether a task is now running.
pub open spec fn start_spec<T>(pending: Seq<T>, busy: bool) -> (Option<T>, Seq<T>, bool) {
    if busy || pending.len() == 0 {
        (None, pending, busy)
    } else {
        (Some(pending[0]), pending.drop_first(), true)
    }
}

/// The waiting tasks after submitting each of `ts` in turn.
pub open spec fn submit_all<T>(pending: Seq<T>, ts: Seq<T>) -> Seq<T>
    decreases ts.len(),
{
    if ts.len() == 0 {
        pending
    } else {
        submit_all(pending.push(ts[0]), ts.drop_first())
    }
}

/// `n` rounds of starting a task and finishing it on an idle queue: the
/// tasks started, in order, and the tasks still waiting.
pub open spec fn run_rounds<T>(pending: Seq<T>, n: nat) -> (Seq<T>, Seq<T>)
    decreases n,
{
    if n == 0 {
        (Seq::empty(), pending)
    } else {
        let prev = run_rounds(pending, (n - 1) as nat);
        let s = start_spec(prev.1, false);
        match s.0 {
            Some(t) => (prev.0.push(t), s.1),
            None => prev,
        }
    }
}

impl<T> SerialQueue<T> {
    /// The tasks waiting to start, oldest first.
    pub closed spec fn pending(&self) -> Seq<T> {
        self.pending@
    }

    /// Whether a task has been handed out and not yet finished.
    pub closed spec fn is_busy(&self) -> bool {
        self.busy
    }

    pub fn new() -> (r: SerialQueue<T>)
        ensures
            r.pending() == Seq::<T>::empty(),
            !r.is_busy(),
    {
        SerialQueue { pending: Vec::new(), busy: false }
    }

    /// Queues `task` behind every task submitted before it.
    pub fn submit(&mut self, task: T)
        ensures
            final(self).pending() == old(self).pending().push(task),
            final(self).is_busy() == old(self).is_busy(),
    {
        self.pending.push(task);
    }

    /// Hands out the oldest waiting task, unless one is still running or
    /// none is waiting.
    pub fn start_next(&mut self) -> (r: Option<T>)
        ensures
            (r, final(self).pending(), final(self).is_busy()) == start_spec(
                old(self).pending(),
                old(self).is_busy(),
            ),
    {
        if self.busy || self.pending.len() == 0 {
            None
        } else {
            self.busy = true;
            Some(self.pending.remove(0))
        }
    }

    /// Marks the running task as completed, so that the next may start.
    pub fn finish(&mut self)
        ensures
            final(self).pending() == old(self).pending(),
            !final(self).is_busy(),
    {
        self.busy = false;
    }
}

/// Submitting more tasks never reorders the ones already waiting: they stay
/// first, in their order, and the new ones follow in theirs.
pub proof fn lemma_submit_keeps_order<T>(pending: Seq<T>, ts: Seq<T>)
    ensures
        submit_all(pending, ts) == pending + ts,
    decreases ts.len(),
{
    if ts.len() == 0 {
        assert(pending + ts =~= pending);
    } else {
        lemma_submit_keeps_order(pending.push(ts[0]), ts.drop_first());
        assert(pending.push(ts[0]) + ts.drop_first() =~= pending + ts);
    }
}

proof fn lemma_run_rounds_prefix<T>(pending: Seq<T>, n: nat)
    requires
        n <= pending.len(),
    ensures
        run_rounds(pending, n).0 == pending.take(n as int),
        run_rounds(pending, n).1 == pending.skip(n as int),
    decreases n,
{
    if n == 0 {
        assert(pending.take(0) =~= Seq::<T>::empty());
        assert(pending.skip(0) =~= pending);
    } else {
        lemma_run_rounds_prefix(pending, (n - 1) as nat);
        assert(pending.take(n as int) =~= pending.take(n - 1).push(pending[n - 1]));
        assert(pending.skip(n - 1).drop_first() =~= pending.skip(n as int));
    }
}

/// Tasks submitted to an idle, empty queue in some order start in exactly
/// that order, each once, and afterwards none is waiting.
pub proof fn lemma_submission_order<T>(ts: Seq<T>)
    ensures
        run_rounds(submit_all(Seq::<T>::empty(), ts), ts.len()).0 == ts,
        run_rounds(submit_all(Seq::<T>::empty(), ts), ts.len()).1.len() == 0,
{
    lemma_submit_keeps_order(Seq::<T>::empty(), ts);
    assert(Seq::<T>::empty() + ts =~= ts);
    lemma_run_rounds_prefix(ts, ts.len());
    assert(ts.take(ts.len() as int) =~= ts);
}

/// Whatever is already waiting, tasks submitted afterwards start after it:
/// running the queue to the end starts the waiting tasks and then the new
/// ones, each once, in the order they were queued.
pub proof fn lemma_waiting_then_submitted_order<T>(pending: Seq<T>, ts: Seq<T>)
    ensures
        run_rounds(submit_all(pending, ts), pending.len() + ts.len()).0 == pending + ts,
        run_rounds(submit_all(pending, ts), pending.len() + ts.len()).1.len() == 0,
{
    lemma_submit_keeps_order(pending, ts);
    let all = pending + ts;
    lemma_run_rounds_prefix(all, all.len());
    assert(all.take(all.len() as int) =~= all);
}

} // verus!
