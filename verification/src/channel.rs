//! The trigger channel: a single-slot, overwrite-based mailbox per event
//! kind.
//!
//! A marker carries a payload and a modification time, which serves as the
//! implicit sequence number. The write side overwrites the slot; the read
//! side consumes the marker only when its modification time is newer than
//! the last one seen, and deletes it before acting, so each written event is
//! delivered at most once. Removing an absent marker is a no-op, never an
//! error.
//!
//! [`MarkerSlot`] models the marker itself; where the marker lives on a
//! filesystem, the surrounding process observes its modification time and
//! asks [`MarkerConsumer::decide`] whether to consume what it saw.

use vstd::prelude::*;

verus! {

/// One pending event: its payload and the time it was written.
pub struct MarkerRecord {
    /// Modification time, in milliseconds; the implicit sequence number.
    pub mtime: u64,
    /// The payload carried by the marker.
    pub content: String,
}

/// A single-slot mailbox for one event kind: either empty (no pending
/// event) or holding the one unconsumed marker.
pub struct MarkerSlot {
    /// The pending marker, if any.
    pub state: Option<MarkerRecord>,
}

/// The read side's memory of one marker: the newest modification time it
/// has seen and consumed.
pub struct MarkerConsumer {
    /// Events no newer than this have been consumed already.
    pub last_seen: u64,
}

/// What one poll does: on a hit the marker is deleted, the consumer
/// remembers its time, and the payload is delivered; otherwise nothing
/// changes and nothing is delivered.
pub open spec fn spec_poll(slot: MarkerSlot, c: MarkerConsumer) -> (MarkerSlot, MarkerConsumer, Option<
    String,
>) {
    match slot.state {
        Some(m) => if m.mtime > c.last_seen {
            (MarkerSlot { state: None }, MarkerConsumer { last_seen: m.mtime }, Some(m.content))
        } else {
            (slot, c, None)
        },
        None => (slot, c, None),
    }
}

impl MarkerSlot {
    /// A slot with no pending event.
    pub fn empty() -> (s: MarkerSlot)
        ensures
            s.state is None,
    {
        MarkerSlot { state: None }
    }

    /// Write-side signal: create or overwrite the marker with `payload`,
    /// stamped `now`.
    pub fn signal(&mut self, now: u64, payload: String)
        ensures
            final(self).state == Some(MarkerRecord { mtime: now, content: payload }),
    {
        self.state = Some(MarkerRecord { mtime: now, content: payload });
    }

    /// Remove the marker. Removing an already-removed marker is a no-op,
    /// never an error.
    pub fn remove(&mut self)
        ensures
            final(self).state is None,
    {
        self.state = None;
    }

    /// Whether a marker is present.
    pub fn is_present(&self) -> (r: bool)
        ensures
            r == (self.state is Some),
    {
        self.state.is_some()
    }
}

impl MarkerConsumer {
    /// A consumer that treats everything stamped after `start` as new.
    pub fn new(start: u64) -> (c: MarkerConsumer)
        ensures
            c.last_seen == start,
    {
        MarkerConsumer { last_seen: start }
    }

    /// Read side: check the marker's modification time, and if newer than
    /// the last seen one, delete the marker and return its payload. This
    /// read-then-delete is the single point enforcing at-most-once
    /// delivery.
    pub fn poll(&mut self, slot: &mut MarkerSlot) -> (r: Option<String>)
        ensures
            (*final(slot), *final(self), r) == spec_poll(*old(slot), *old(self)),
    {
        let hit = match &slot.state {
            Some(m) => m.mtime > self.last_seen,
            None => false,
        };
        if hit {
            let m = self.take_record(slot);
            self.last_seen = m.mtime;
            Some(m.content)
        } else {
            None
        }
    }

    /// Move the pending record out of the slot, leaving it empty.
    fn take_record(&self, slot: &mut MarkerSlot) -> (m: MarkerRecord)
        requires
            old(slot).state is Some,
        ensures
            Some(m) == old(slot).state,
            final(slot).state is None,
    {
        let mut taken: Option<MarkerRecord> = None;
        core::mem::swap(&mut slot.state, &mut taken);
        match taken {
            Some(m) => m,
            None => unreached(),
        }
    }

    /// The decision behind [`Self::poll`] for a marker observed outside the
    /// process (a file): given the observed modification time, or `None`
    /// where the marker is absent or unreadable, decide whether to consume
    /// it, and remember its time when consuming. A transient read failure is
    /// observed as `None` and so counts as "no event yet", to be retried on
    /// the next tick.
    pub fn decide(&mut self, observed_mtime: Option<u64>) -> (consume: bool)
        ensures
            consume == (observed_mtime matches Some(m) && m > old(self).last_seen),
            consume ==> final(self).last_seen == observed_mtime.unwrap(),
            !consume ==> *final(self) == *old(self),
    {
        match observed_mtime {
            Some(m) => {
                if m > self.last_seen {
                    self.last_seen = m;
                    true
                } else {
                    false
                }
            },
            None => false,
        }
    }
}

/// What the write side signals, the read side receives exactly once and
/// unchanged: a pending marker newer than the consumer's memory is
/// delivered with its exact payload by the next poll, the marker is gone
/// afterwards, and a further poll without an intervening write delivers
/// nothing.
pub proof fn lemma_marker_delivered_once(slot: MarkerSlot, c: MarkerConsumer)
    requires
        slot.state matches Some(m) && m.mtime > c.last_seen,
    ensures
        ({
            let (slot1, c1, r1) = spec_poll(slot, c);
            &&& r1 == Some(slot.state.unwrap().content)
            &&& slot1.state is None
            &&& spec_poll(slot1, c1).2 is None
        }),
{
}

/// Consumption is at-most-once: without an intervening write, two polls in
/// succession never both deliver. On a hit the marker is deleted, so the
/// second poll finds nothing; on a miss nothing changes, so the second poll
/// misses for the same reason.
pub proof fn lemma_consume_at_most_once(slot: MarkerSlot, c: MarkerConsumer)
    ensures
        ({
            let (slot1, c1, r1) = spec_poll(slot, c);
            let (slot2, c2, r2) = spec_poll(slot1, c1);
            &&& r1 is Some ==> slot1.state is None
            &&& r2 is None
        }),
{
}

} // verus!
