//! A bounded pool of reusable backend connections. The pool is generic in
//! the connection type; whether a connection is still alive is asked of a
//! probe that the caller supplies.
use vstd::prelude::*;

verus! {

/// The default bound on idle connections.
pub const DEFAULT_MAX_IDLE: usize = 10;

/// Idle connections, at most `max_idle` of them. A connection that is
/// checked out is owned by its holder alone until it is checked in.
pub struct ConnectionPool<C> {
    idle: Vec<C>,
    max_idle: usize,
    min_idle: usize,
}

impl<C> ConnectionPool<C> {
    pub closed spec fn idle(&self) -> Seq<C> {
        self.idle@
    }

    pub closed spec fn spec_max_idle(&self) -> usize {
        self.max_idle
    }

    pub closed spec fn spec_min_idle(&self) -> usize {
        self.min_idle
    }

    /// The idle set never exceeds its bound.
    pub open spec fn wf(&self) -> bool {
        self.idle().len() <= self.spec_max_idle()
    }

    /// An empty pool.
    pub fn new(max_idle: usize, min_idle: usize) -> (r: Self)
        ensures
            r.wf(),
            r.idle() == Seq::<C>::empty(),
            r.spec_max_idle() == max_idle,
            r.spec_min_idle() == min_idle,
    {
        ConnectionPool { idle: Vec::new(), max_idle, min_idle }
    }

    pub fn max_idle(&self) -> (r: usize)
        ensures
            r == self.spec_max_idle(),
    {
        self.max_idle
    }

    pub fn min_idle(&self) -> (r: usize)
        ensures
            r == self.spec_min_idle(),
    {
        self.min_idle
    }

    /// The number of idle connections.
    pub fn idle_len(&self) -> (r: usize)
        ensures
            r == self.idle().len(),
    {
        self.idle.len()
    }

    /// The idle count that warm-up aims for: `min(min_idle, max_idle)`.
    pub open spec fn warm_up_target(&self) -> usize {
        if self.spec_min_idle() <= self.spec_max_idle() {
            self.spec_min_idle()
        } else {
            self.spec_max_idle()
        }
    }

    /// How many connections warm-up should establish to reach its target.
    pub fn warm_up_deficit(&self) -> (r: usize)
        ensures
            r == if self.idle().len() >= self.warm_up_target() {
                0
            } else {
                self.warm_up_target() - self.idle().len()
            },
    {
        let target = if self.min_idle <= self.max_idle {
            self.min_idle
        } else {
            self.max_idle
        };
        if self.idle.len() >= target {
            0
        } else {
            target - self.idle.len()
        }
    }

    /// Takes an idle connection that the probe finds alive. Candidates are
    /// taken most recent first; those found dead are released. At most
    /// `max_idle` candidates are probed. `None` means a new connection must
    /// be established.
    pub fn checkout<F: Fn(&C) -> bool>(&mut self, is_live: &F) -> (r: Option<C>)
        requires
            old(self).wf(),
            forall|c: &C| is_live.requires((c,)),
        ensures
            final(self).wf(),
            final(self).spec_max_idle() == old(self).spec_max_idle(),
            final(self).spec_min_idle() == old(self).spec_min_idle(),
            ({
                let n = final(self).idle().len();
                let taken = old(self).idle().len() - n;
                &&& n <= old(self).idle().len()
                &&& final(self).idle() == old(self).idle().subrange(0, n as int)
                &&& taken <= old(self).spec_max_idle()
                &&& match r {
                    Some(c) => {
                        &&& n < old(self).idle().len()
                        &&& c == old(self).idle()[n as int]
                        &&& is_live.ensures((&c,), true)
                        &&& forall|i: int| n < i < old(self).idle().len() ==> is_live.ensures(
                            (&old(self).idle()[i],),
                            false,
                        )
                    },
                    None => {
                        &&& (n == 0 || taken == old(self).spec_max_idle())
                        &&& forall|i: int| n <= i < old(self).idle().len() ==> is_live.ensures(
                            (&old(self).idle()[i],),
                            false,
                        )
                    },
                }
            }),
    {
        let ghost start = self.idle@;
        let mut tries: usize = 0;
        while tries < self.max_idle && self.idle.len() > 0
            invariant
                self.max_idle == old(self).max_idle,
                self.min_idle == old(self).min_idle,
                start == old(self).idle@,
                self.idle@.len() + tries == start.len(),
                tries <= self.max_idle,
                start.len() <= self.max_idle,
                self.idle@ == start.subrange(0, self.idle@.len() as int),
                forall|c: &C| is_live.requires((c,)),
                forall|i: int| self.idle@.len() <= i < start.len() ==> is_live.ensures((&start[i],), false),
            decreases self.max_idle - tries,
        {
            let candidate = self.idle.pop().unwrap();
            tries = tries + 1;
            assert(self.idle@ =~= start.subrange(0, self.idle@.len() as int));
            if is_live(&candidate) {
                return Some(candidate);
            }
        }
        None
    }

    /// Returns a connection. It is kept if it is alive and the idle set has
    /// room; otherwise it is released. Says whether it was kept.
    pub fn checkin(&mut self, conn: C, alive: bool) -> (kept: bool)
        requires
            old(self).wf(),
        ensures
            final(self).wf(),
            final(self).spec_max_idle() == old(self).spec_max_idle(),
            final(self).spec_min_idle() == old(self).spec_min_idle(),
            kept == (alive && old(self).idle().len() < old(self).spec_max_idle()),
            final(self).idle() == if kept {
                old(self).idle().push(conn)
            } else {
                old(self).idle()
            },
    {
        if alive && self.idle.len() < self.max_idle {
            self.idle.push(conn);
            true
        } else {
            false
        }
    }

    /// Releases every idle connection; harmless to repeat.
    pub fn close_all(&mut self)
        ensures
            final(self).wf(),
            final(self).idle() == Seq::<C>::empty(),
            final(self).spec_max_idle() == old(self).spec_max_idle(),
            final(self).spec_min_idle() == old(self).spec_min_idle(),
    {
        self.idle.clear();
    }
}

/// A connection handed out by a checkout is no longer idle, so a second
/// checkout cannot hand it out again before it is checked in (for idle
/// connections that are distinct, as owned values are).
pub proof fn lemma_checked_out_not_idle<C>(before: Seq<C>, n: int)
    requires
        before.no_duplicates(),
        0 <= n < before.len(),
    ensures
        !before.subrange(0, n).contains(before[n]),
{
    if before.subrange(0, n).contains(before[n]) {
        let i = choose|i: int| 0 <= i < n && before.subrange(0, n)[i] == before[n];
        assert(before[i] == before[n]);
    }
}

} // verus!
