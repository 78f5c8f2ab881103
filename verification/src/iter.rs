use vstd::prelude::*;

use crate::errors::{direction_of, DbError, Direction, parse_direction};
use vstd::slice::slice_to_vec;

verus! {

/// Where a scan begins and which way it runs: what the database hands its
/// engine when a range iterator is requested, decided and validated before
/// any engine work.
///
/// A cursor the engine opens for plan `p` over contents `m` owes exactly the
/// entry sequence `s` with `scan_of(m, s, p.forward(), p.start())` — which
/// `crate::laws::lemma_scan_deterministic` shows is unique.
pub enum ScanPlan {
    /// The whole keyspace, ascending from its first key.
    FromStart,
    /// The whole keyspace, descending from its last key.
    FromEnd,
    /// Ascending from the given key, inclusive.
    FromKeyForward(Vec<u8>),
    /// Descending from the given key, inclusive.
    FromKeyReverse(Vec<u8>),
}

impl ScanPlan {
    /// Whether the plan scans in ascending key order.
    pub open spec fn forward(&self) -> bool {
        match self {
            ScanPlan::FromStart => true,
            ScanPlan::FromEnd => false,
            ScanPlan::FromKeyForward(_) => true,
            ScanPlan::FromKeyReverse(_) => false,
        }
    }

    /// The inclusive starting key, or `None` when the scan covers the whole
    /// keyspace from its edge.
    pub open spec fn start(&self) -> Option<Seq<u8>> {
        match self {
            ScanPlan::FromStart => None,
            ScanPlan::FromEnd => None,
            ScanPlan::FromKeyForward(k) => Some(k@),
            ScanPlan::FromKeyReverse(k) => Some(k@),
        }
    }
}

/// Decides the scan for an iterator over the whole keyspace: the direction
/// token is validated first, and an invalid one is rejected before any engine
/// work could start.
pub fn plan_scan(direction: &str) -> (r: Result<ScanPlan, DbError>)
    ensures
        direction_of(direction@) == Some(Direction::Forward) ==> (r matches Ok(p)
            && p == ScanPlan::FromStart),
        direction_of(direction@) == Some(Direction::Reverse) ==> (r matches Ok(p)
            && p == ScanPlan::FromEnd),
        direction_of(direction@) is None ==> (r matches Err(e) && e is InvalidArgument),
        r matches Ok(p) ==> p.start() is None
            && p.forward() == (direction_of(direction@) == Some(Direction::Forward)),
{
    match parse_direction(direction) {
        Ok(Direction::Forward) => Ok(ScanPlan::FromStart),
        Ok(Direction::Reverse) => Ok(ScanPlan::FromEnd),
        Err(e) => Err(e),
    }
}

/// Decides the scan for an iterator starting at `key`, inclusive, in the
/// requested direction; the direction token is validated as in `plan_scan`.
pub fn plan_scan_from(key: &[u8], direction: &str) -> (r: Result<ScanPlan, DbError>)
    ensures
        direction_of(direction@) == Some(Direction::Forward) ==> (r matches Ok(p)
            && p matches ScanPlan::FromKeyForward(k) && k@ == key@),
        direction_of(direction@) == Some(Direction::Reverse) ==> (r matches Ok(p)
            && p matches ScanPlan::FromKeyReverse(k) && k@ == key@),
        direction_of(direction@) is None ==> (r matches Err(e) && e is InvalidArgument),
        r matches Ok(p) ==> p.start() == Some(key@)
            && p.forward() == (direction_of(direction@) == Some(Direction::Forward)),
{
    match parse_direction(direction) {
        Ok(Direction::Forward) => Ok(ScanPlan::FromKeyForward(slice_to_vec(key))),
        Ok(Direction::Reverse) => Ok(ScanPlan::FromKeyReverse(slice_to_vec(key))),
        Err(e) => Err(e),
    }
}

/// What the engine's cursor reported for one pull.
pub enum PullEvent {
    /// The next key/value pair of the scan.
    Pair(Vec<u8>, Vec<u8>),
    /// The end of the scanned range.
    End,
    /// An engine failure mid-scan, with the engine's message.
    Fail(String),
}

/// The pull-side state machine of a range iterator.
///
/// The native cursor lives with the engine; this type makes the decisions.
/// It hands each pair the cursor reports through unchanged and in order, it
/// surfaces the first engine failure once as a `Store` error, and once the
/// scan has ended — by exhaustion or by that failure — it reports
/// end-of-sequence forever and never consults the engine again.
pub struct DBIterator {
    done: bool,
    delivered: Ghost<Seq<(Seq<u8>, Seq<u8>)>>,
}

impl DBIterator {
    /// Whether the iterator is in its terminal state.
    pub closed spec fn exhausted(&self) -> bool {
        self.done
    }

    /// The pairs delivered so far, in delivery order.
    pub closed spec fn delivered(&self) -> Seq<(Seq<u8>, Seq<u8>)> {
        self.delivered@
    }

    /// A fresh, active iterator that has delivered nothing.
    pub fn new() -> (r: DBIterator)
        ensures
            !r.exhausted(),
            r.delivered() == Seq::<(Seq<u8>, Seq<u8>)>::empty(),
    {
        DBIterator { done: false, delivered: Ghost(Seq::empty()) }
    }

    /// Whether the next pull must consult the engine's cursor; once this is
    /// false it stays false, and no pull touches the engine again.
    pub fn needs_engine(&self) -> (b: bool)
        ensures
            b == !self.exhausted(),
    {
        !self.done
    }

    /// Advances by one pull, given what the engine's cursor reported.
    ///
    /// An exhausted iterator ignores the event and keeps reporting
    /// end-of-sequence; an active one passes a pair through, ends on `End`,
    /// and turns `Fail` into a one-time `Store` error followed by permanent
    /// exhaustion.
    pub fn step(&mut self, event: PullEvent) -> (r: Result<Option<(Vec<u8>, Vec<u8>)>, DbError>)
        ensures
            old(self).exhausted() ==> (r matches Ok(o) && o is None
                && final(self).exhausted()
                && final(self).delivered() == old(self).delivered()),
            !old(self).exhausted() ==> match event {
                PullEvent::Pair(k, v) => (r matches Ok(o) && o matches Some(p)
                    && p.0@ == k@ && p.1@ == v@
                    && !final(self).exhausted()
                    && final(self).delivered() == old(self).delivered().push((k@, v@))),
                PullEvent::End => (r matches Ok(o) && o is None
                    && final(self).exhausted()
                    && final(self).delivered() == old(self).delivered()),
                PullEvent::Fail(m) => (r matches Err(e)
                    && e matches DbError::Store(mm) && mm@ == m@
                    && final(self).exhausted()
                    && final(self).delivered() == old(self).delivered()),
            },
    {
        if self.done {
            return Ok(None);
        }
        match event {
            PullEvent::Pair(k, v) => {
                self.delivered = Ghost(self.delivered@.push((k@, v@)));
                Ok(Some((k, v)))
            },
            PullEvent::End => {
                self.done = true;
                Ok(None)
            },
            PullEvent::Fail(m) => {
                self.done = true;
                Err(DbError::Store(m))
            },
        }
    }
}

} // verus!
