use vstd::prelude::*;

verus! {

/// Whether an artifact must be fetched, given the size of the file already
/// at its path (`None` when there is none): only a file of exactly the
/// expected size is kept.
pub open spec fn needs_fetch_spec(expected: u32, local: Option<u64>) -> bool {
    local != Some(expected as u64)
}

pub fn needs_fetch(expected: u32, local: Option<u64>) -> (r: bool)
    ensures
        r == needs_fetch_spec(expected, local),
{
    match local {
        Some(n) => n != expected as u64,
        None => true,
    }
}

/// Once a fetch has written exactly the expected number of bytes, the file
/// is kept by every later check: acquisition is idempotent.
pub proof fn lemma_fetch_then_keep(expected: u32, written: u64)
    requires
        written == expected as u64,
    ensures
        !needs_fetch_spec(expected, Some(written)),
{
}

/// Dispatch state of a bounded pool of downloads: jobs `0..total` are started
/// in order, at most `bound` at a time, and no job is started after one
/// has failed.
#[derive(Debug)]
pub struct Pool {
    pub bound: usize,
    pub total: usize,
    /// The next job to start.
    pub next: usize,
    /// Jobs started and not yet finished.
    pub in_flight: usize,
    pub failed: bool,
}

/// What happens to a pool.
pub enum Event {
    /// An attempt to start the next job.
    Start,
    /// A running job finished, successfully or not.
    Finish(bool),
}

pub open spec fn can_start(p: Pool) -> bool {
    !p.failed && p.in_flight < p.bound && p.next < p.total
}

/// The pool after an event.
pub open spec fn after(p: Pool, e: Event) -> Pool {
    match e {
        Event::Start => if can_start(p) {
            Pool { next: (p.next + 1) as usize, in_flight: (p.in_flight + 1) as usize, ..p }
        } else {
            p
        },
        Event::Finish(ok) => if p.in_flight > 0 {
            Pool { in_flight: (p.in_flight - 1) as usize, failed: p.failed || !ok, ..p }
        } else {
            p
        },
    }
}

/// The pool after a sequence of events.
pub open spec fn run(p: Pool, es: Seq<Event>) -> Pool
    decreases es.len(),
{
    if es.len() == 0 {
        p
    } else {
        after(run(p, es.drop_last()), es.last())
    }
}

impl Pool {
    pub open spec fn wf(&self) -> bool {
        &&& 1 <= self.bound
        &&& self.next <= self.total
        &&& self.in_flight <= self.next
        &&& self.in_flight <= self.bound
    }

    /// A pool for `total` jobs; a `limit` of zero sets no limit.
    pub fn new(total: usize, limit: usize) -> (r: Pool)
        ensures
            r.wf(),
            r.total == total,
            r.bound == if limit > 0 {
                limit
            } else if total > 0 {
                total
            } else {
                1
            },
            r.next == 0,
            r.in_flight == 0,
            !r.failed,
    {
        let bound = if limit > 0 {
            limit
        } else if total > 0 {
            total
        } else {
            1
        };
        Pool { bound, total, next: 0, in_flight: 0, failed: false }
    }

    /// Starts the next job if the bound and the state allow it, and returns its index.
    pub fn start(&mut self) -> (r: Option<usize>)
        requires
            old(self).wf(),
        ensures
            *final(self) == after(*old(self), Event::Start),
            r == if can_start(*old(self)) {
                Some(old(self).next)
            } else {
                None::<usize>
            },
    {
        if !self.failed && self.in_flight < self.bound && self.next < self.total {
            let i = self.next;
            self.next = self.next + 1;
            self.in_flight = self.in_flight + 1;
            Some(i)
        } else {
            None
        }
    }

    /// Records that a running job finished.
    pub fn finish(&mut self, ok: bool)
        requires
            old(self).wf(),
            old(self).in_flight > 0,
        ensures
            *final(self) == after(*old(self), Event::Finish(ok)),
    {
        self.in_flight = self.in_flight - 1;
        if !ok {
            self.failed = true;
        }
    }

    /// Whether nothing runs and nothing more will start.
    pub fn is_done(&self) -> (r: bool)
        ensures
            r == (self.in_flight == 0 && (self.failed || self.next == self.total)),
    {
        self.in_flight == 0 && (self.failed || self.next == self.total)
    }

    /// Whether every job ran and none failed.
    pub fn succeeded(&self) -> (r: bool)
        ensures
            r == (self.in_flight == 0 && !self.failed && self.next == self.total),
    {
        self.in_flight == 0 && !self.failed && self.next == self.total
    }
}

/// Whatever events a well-formed pool goes through, it stays well formed,
/// and never has more than `bound` jobs in flight.
pub proof fn lemma_bound_holds(p: Pool, es: Seq<Event>)
    requires
        p.wf(),
    ensures
        run(p, es).wf(),
        run(p, es).in_flight <= p.bound,
        run(p, es).bound == p.bound,
    decreases es.len(),
{
    if es.len() > 0 {
        lemma_bound_holds(p, es.drop_last());
    }
}

} // verus!
