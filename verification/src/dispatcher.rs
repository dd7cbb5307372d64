//! The queue of foreground work that the host drains in its explicit
//! polling phase.
//!
//! Deadlines are ticks of the host's monotonic clock. The host takes ready
//! work one item at a time and runs it with the queue released, so that the
//! work it runs may queue more; when nothing is ready it reports the earliest
//! deadline left as the time to wake up.

use vstd::prelude::*;

use std::collections::VecDeque;

verus! {

/// The work and deadline result returned by an explicit host polling phase.
#[derive(Clone, Copy, Debug, PartialEq, Eq, Structural)]
pub struct PollOutcome {
    /// Number of foreground tasks run by the poll.
    pub tasks_run: usize,
    /// Earliest queued deadline, if one remains pending.
    pub next_deadline: Option<u64>,
}

impl Default for PollOutcome {
    fn default() -> (p: PollOutcome)
        ensures
            p == (PollOutcome { tasks_run: 0, next_deadline: None }),
    {
        PollOutcome { tasks_run: 0, next_deadline: None }
    }
}

/// A unit of work and the tick from which it may run.
pub struct QueuedRunnable<T> {
    /// The earliest tick at which the work may run.
    pub ready_at: u64,
    /// The work itself.
    pub runnable: T,
}

/// Foreground work in the order in which it was queued.
pub struct MainThreadQueue<T> {
    queue: VecDeque<QueuedRunnable<T>>,
}

/// The position of the first entry of `q` that may run at `now`, or
/// `q.len()` when none may.
pub open spec fn first_ready<T>(q: Seq<QueuedRunnable<T>>, now: u64) -> int
    decreases q.len(),
{
    if q.len() == 0 {
        0
    } else if q[0].ready_at <= now {
        0
    } else {
        1 + first_ready(q.drop_first(), now)
    }
}

/// The earliest deadline in `q`, or `None` when `q` is empty.
pub open spec fn earliest_deadline<T>(q: Seq<QueuedRunnable<T>>) -> Option<u64>
    decreases q.len(),
{
    if q.len() == 0 {
        None
    } else {
        match earliest_deadline(q.drop_last()) {
            None => Some(q.last().ready_at),
            Some(m) => Some(if q.last().ready_at < m { q.last().ready_at } else { m }),
        }
    }
}

/// `first_ready` is the first position whose deadline has passed.
pub proof fn lemma_first_ready<T>(q: Seq<QueuedRunnable<T>>, now: u64)
    ensures
        0 <= first_ready(q, now) <= q.len(),
        forall|j: int| 0 <= j < first_ready(q, now) ==> #[trigger] q[j].ready_at > now,
        first_ready(q, now) < q.len() ==> q[first_ready(q, now)].ready_at <= now,
    decreases q.len(),
{
    if q.len() > 0 && q[0].ready_at > now {
        lemma_first_ready(q.drop_first(), now);
        assert forall|j: int| 0 <= j < first_ready(q, now) implies #[trigger] q[j].ready_at
            > now by {
            if j > 0 {
                assert(q[j] == q.drop_first()[j - 1]);
            }
        }
    }
}

proof fn lemma_first_ready_is<T>(q: Seq<QueuedRunnable<T>>, now: u64, i: int)
    requires
        0 <= i <= q.len(),
        forall|j: int| 0 <= j < i ==> #[trigger] q[j].ready_at > now,
        i < q.len() ==> q[i].ready_at <= now,
    ensures
        first_ready(q, now) == i,
    decreases q.len(),
{
    if q.len() > 0 && i > 0 {
        assert(q[0].ready_at > now);
        assert forall|j: int| 0 <= j < i - 1 implies #[trigger] q.drop_first()[j].ready_at
            > now by {
            assert(q.drop_first()[j] == q[j + 1]);
        }
        lemma_first_ready_is(q.drop_first(), now, i - 1);
    }
}

/// `earliest_deadline` is a deadline of the queue, and no deadline is earlier.
pub proof fn lemma_earliest_deadline<T>(q: Seq<QueuedRunnable<T>>)
    ensures
        earliest_deadline(q) is None <==> q.len() == 0,
        earliest_deadline(q) matches Some(m) ==> {
            &&& exists|i: int| 0 <= i < q.len() && #[trigger] q[i].ready_at == m
            &&& forall|i: int| 0 <= i < q.len() ==> m <= #[trigger] q[i].ready_at
        },
    decreases q.len(),
{
    if q.len() > 0 {
        let p = q.drop_last();
        lemma_earliest_deadline(p);
        let n: int = q.len() - 1;
        assert(q[n] == q.last());
        assert forall|i: int| 0 <= i < n implies #[trigger] q[i] == p[i] by {}
        match earliest_deadline(p) {
            None => {},
            Some(m) => {
                let i: int = choose|i: int| 0 <= i < p.len() && #[trigger] p[i].ready_at == m;
                assert(q[i] == p[i]);
            },
        }
    }
}

impl<T> View for MainThreadQueue<T> {
    type V = Seq<QueuedRunnable<T>>;

    closed spec fn view(&self) -> Seq<QueuedRunnable<T>> {
        self.queue@
    }
}

impl<T> MainThreadQueue<T> {
    /// An empty queue.
    pub fn new() -> (q: MainThreadQueue<T>)
        ensures
            q@ == Seq::<QueuedRunnable<T>>::empty(),
    {
        MainThreadQueue { queue: VecDeque::new() }
    }

    /// The number of queued units of work.
    pub fn len(&self) -> (n: usize)
        ensures
            n == self@.len(),
    {
        self.queue.len()
    }

    /// Queues `runnable` behind all earlier work, to run from tick `ready_at`.
    pub fn enqueue(&mut self, runnable: T, ready_at: u64)
        ensures
            final(self)@ == old(self)@.push(QueuedRunnable { ready_at, runnable }),
    {
        self.queue.push_back(QueuedRunnable { ready_at, runnable });
    }

    /// Removes and returns the earliest-queued work whose deadline is at or
    /// before `now`; `None`, with the queue unchanged, when none is due.
    pub fn take_ready(&mut self, now: u64) -> (r: Option<T>)
        ensures
            first_ready(old(self)@, now) < old(self)@.len() ==> {
                &&& r == Some(old(self)@[first_ready(old(self)@, now)].runnable)
                &&& final(self)@ == old(self)@.remove(first_ready(old(self)@, now))
            },
            first_ready(old(self)@, now) == old(self)@.len() ==> {
                &&& r is None
                &&& final(self)@ == old(self)@
            },
    {
        let ghost q = self.queue@;
        let n: usize = self.queue.len();
        let mut i: usize = 0;
        while i < n
            invariant
                self.queue@ == q,
                q == old(self)@,
                n == q.len(),
                0 <= i <= n,
                forall|j: int| 0 <= j < i ==> #[trigger] q[j].ready_at > now,
            decreases n - i,
        {
            if self.queue[i].ready_at <= now {
                proof {
                    lemma_first_ready_is(q, now, i as int);
                }
                return match self.queue.remove(i) {
                    Some(item) => Some(item.runnable),
                    None => None,
                };
            }
            i += 1;
        }
        proof {
            lemma_first_ready_is(q, now, n as int);
        }
        None
    }

    /// The earliest deadline in the queue, or `None` when it is empty.
    pub fn next_deadline(&self) -> (d: Option<u64>)
        ensures
            d == earliest_deadline(self@),
    {
        let ghost q = self.queue@;
        let n: usize = self.queue.len();
        let mut earliest: Option<u64> = None;
        let mut i: usize = 0;
        while i < n
            invariant
                self.queue@ == q,
                n == q.len(),
                0 <= i <= n,
                earliest == earliest_deadline(q.subrange(0, i as int)),
            decreases n - i,
        {
            let t: u64 = self.queue[i].ready_at;
            proof {
                let p = q.subrange(0, i + 1);
                assert(p.drop_last() =~= q.subrange(0, i as int));
                assert(p.last() == q[i as int]);
            }
            earliest = match earliest {
                None => Some(t),
                Some(m) => Some(if t < m { t } else { m }),
            };
            i += 1;
        }
        assert(q.subrange(0, n as int) =~= q);
        earliest
    }

    /// The outcome of a polling phase that ran `tasks_run` units of work and
    /// leaves this queue behind.
    pub fn poll_outcome(&self, tasks_run: usize) -> (p: PollOutcome)
        ensures
            p == (PollOutcome { tasks_run, next_deadline: earliest_deadline(self@) }),
    {
        PollOutcome { tasks_run, next_deadline: self.next_deadline() }
    }
}

/// Once nothing may run at `now`, every deadline left is later than `now`:
/// the wake-up time a poll reports lies in the future.
pub proof fn lemma_drained_deadline_is_future<T>(q: Seq<QueuedRunnable<T>>, now: u64)
    requires
        first_ready(q, now) == q.len(),
    ensures
        earliest_deadline(q) matches Some(m) ==> m > now,
{
    lemma_first_ready(q, now);
    lemma_earliest_deadline(q);
}

/// Work that is due is taken in the order in which it was queued: no due
/// entry comes before the one taken.
pub proof fn lemma_ready_work_is_fifo<T>(q: Seq<QueuedRunnable<T>>, now: u64, i: int)
    requires
        0 <= i < q.len(),
        q[i].ready_at <= now,
    ensures
        first_ready(q, now) <= i,
{
    lemma_first_ready(q, now);
}

/// Work queued as due into a queue with nothing due is the next work taken.
pub proof fn lemma_enqueue_due_is_taken_next<T>(
    q: Seq<QueuedRunnable<T>>,
    now: u64,
    item: QueuedRunnable<T>,
)
    requires
        first_ready(q, now) == q.len(),
        item.ready_at <= now,
    ensures
        first_ready(q.push(item), now) == q.len(),
{
    lemma_first_ready(q, now);
    let p = q.push(item);
    assert forall|j: int| 0 <= j < q.len() implies #[trigger] p[j].ready_at > now by {
        assert(p[j] == q[j]);
    }
    lemma_first_ready_is(p, now, q.len() as int);
}

/// Queuing work never delays the reported wake-up time past its deadline.
pub proof fn lemma_enqueue_bounds_deadline<T>(q: Seq<QueuedRunnable<T>>, item: QueuedRunnable<T>)
    ensures
        earliest_deadline(q.push(item)) matches Some(m) && m <= item.ready_at,
{
    let p = q.push(item);
    assert(p.drop_last() =~= q);
}

} // verus!
