//! Keep-latest fan-out hub: the single-producer, multi-subscriber
//! delivery primitive, one per telemetry kind.
//!
//! The hub records the sequence of published values; each subscriber owns
//! a cursor into that sequence and nothing else, so subscribers are fully
//! independent: what one receives is a function of the publication
//! sequence and its own cursor alone, and dropping one subscriber cannot
//! affect the hub or any other subscriber.
//!
//! Retention is a single slot: a subscriber more than one value behind
//! does not accumulate a backlog — it observes a lag and its cursor skips
//! to the most recent publication. A fresh subscriber starts at the end
//! of the sequence: it receives the next publication, never an old one.

use vstd::prelude::*;

verus! {

/// One telemetry kind's fan-out state: the values published so far, in
/// publication order. Only the last one is ever delivered; the earlier
/// entries are the record of the publication history that the delivery
/// contracts are stated over.
pub struct Hub<T> {
    pub published: Vec<T>,
}

/// One subscriber's read position: the index of the next publication it
/// has not yet observed. Owned exclusively by its connection's handler;
/// disconnecting is dropping it.
pub struct Port {
    pub next: usize,
}

/// What one `recv` hands a subscriber whose cursor is `cur`: the latest
/// publication, if exactly one is pending; nothing otherwise.
pub open spec fn delivered<T>(log: Seq<T>, cur: nat) -> Option<T> {
    if cur + 1 == log.len() {
        Some(log.last())
    } else {
        None
    }
}

/// The cursor after one `recv`: unchanged while nothing is pending,
/// advanced past a consumed value, and skipped to the most recent
/// publication after a lag.
pub open spec fn next_cursor<T>(log: Seq<T>, cur: nat) -> nat {
    if cur >= log.len() {
        cur
    } else if cur + 1 == log.len() {
        log.len()
    } else {
        (log.len() - 1) as nat
    }
}

/// Outcome of polling a subscription once.
pub enum RecvOutcome<'a, T> {
    /// No publication since the cursor: the caller would block.
    Pending,
    /// The subscriber fell more than one publication behind; the missed
    /// values are skipped, never queued.
    Lagged,
    /// The next publication, in order.
    Value(&'a T),
}

impl<T> Hub<T> {
    /// A hub with no publications yet.
    pub fn new() -> (h: Hub<T>)
        ensures
            h.published@.len() == 0,
    {
        Hub { published: Vec::new() }
    }

    /// Publishes one value: it is appended to the publication sequence,
    /// whether or not anyone is subscribed — a publish with zero
    /// subscribers is a no-op for delivery, never an error.
    pub fn publish(&mut self, v: T)
        requires
            old(self).published@.len() < usize::MAX,
        ensures
            final(self).published@ == old(self).published@.push(v),
    {
        self.published.push(v);
    }

    /// Subscribes: the new cursor sits at the end of the publication
    /// sequence, so the subscriber receives the next publication as its
    /// first value and never a backlog value.
    pub fn subscribe(&self) -> (p: Port)
        ensures
            p.next == self.published@.len(),
    {
        Port { next: self.published.len() }
    }

    /// Polls one subscription: delivers the latest publication when the
    /// subscriber is exactly one behind, reports a lag (skipping the
    /// cursor to the most recent publication) when it is further behind,
    /// and reports nothing pending otherwise. Only the polled cursor
    /// moves; the hub and every other subscriber are untouched.
    pub fn recv<'a>(&'a self, port: &mut Port) -> (out: RecvOutcome<'a, T>)
        requires
            old(port).next <= self.published@.len(),
        ensures
            final(port).next == next_cursor(self.published@, old(port).next as nat),
            final(port).next <= self.published@.len(),
            (old(port).next as nat) == self.published@.len() ==> out is Pending,
            (old(port).next as nat) + 1 == self.published@.len() ==> (out matches
                RecvOutcome::Value(v) && *v == self.published@.last()),
            (old(port).next as nat) + 1 < self.published@.len() ==> out is Lagged,
            match delivered(self.published@, old(port).next as nat) {
                Some(m) => out matches RecvOutcome::Value(v) && *v == m,
                None => !(out is Value),
            },
    {
        let cur = port.next;
        let len = self.published.len();
        if cur >= len {
            RecvOutcome::Pending
        } else if cur + 1 == len {
            port.next = len;
            RecvOutcome::Value(&self.published[cur])
        } else {
            port.next = len - 1;
            RecvOutcome::Lagged
        }
    }
}

/// A subscriber that joins after the publications `log` and before the
/// next publication `v` receives `v` as its first value: before `v` is
/// published nothing is deliverable to it, and once `v` is published,
/// `v` itself — never a backlog value — is delivered and the cursor
/// moves to the new end.
pub proof fn lemma_late_subscriber_first_value<T>(log: Seq<T>, v: T)
    ensures
        delivered(log, log.len()) is None,
        delivered(log.push(v), log.len()) == Some(v),
        next_cursor(log.push(v), log.len()) == log.push(v).len(),
{
    assert(log.push(v).last() == v);
}

/// A cursor never moves backward, and a delivered value always sits at
/// the subscriber's own cursor, which a delivery then moves past: across
/// any run of polls, deliveries come from strictly increasing positions
/// of the publication sequence. Every subscriber therefore observes
/// values in publication order — values can be skipped, never reordered,
/// and the order is the same for all subscribers.
pub proof fn lemma_delivery_in_publication_order<T>(log: Seq<T>, cur: nat)
    ensures
        next_cursor(log, cur) >= cur,
        delivered(log, cur) matches Some(m) ==> m == log[cur as int] && next_cursor(log, cur)
            > cur,
{
}

/// The values a subscriber at cursor `cur` receives when `vs` are
/// published one at a time and it polls once after each publication.
pub open spec fn relay_all<T>(log: Seq<T>, cur: nat, vs: Seq<T>) -> Seq<T>
    decreases vs.len(),
{
    if vs.len() == 0 {
        Seq::empty()
    } else {
        let log2 = log.push(vs[0]);
        let rest = relay_all(log2, next_cursor(log2, cur), vs.drop_first());
        match delivered(log2, cur) {
            Some(m) => seq![m] + rest,
            None => rest,
        }
    }
}

/// A subscriber that keeps pace receives every subsequent publication,
/// in publication order, none skipped. `relay_all` is a function of the
/// publication sequence and this subscriber's own cursor alone, so other
/// subscribers of the same hub — joining, lagging or disconnecting —
/// cannot change what this one receives.
pub proof fn lemma_paced_subscriber_receives_all<T>(log: Seq<T>, cur: nat, vs: Seq<T>)
    requires
        cur == log.len(),
    ensures
        relay_all(log, cur, vs) == vs,
    decreases vs.len(),
{
    if vs.len() > 0 {
        let log2 = log.push(vs[0]);
        assert(log2.last() == vs[0]);
        assert(delivered(log2, cur) == Some(vs[0]));
        assert(next_cursor(log2, cur) == log2.len());
        lemma_paced_subscriber_receives_all(log2, log2.len(), vs.drop_first());
        assert(seq![vs[0]] + vs.drop_first() =~= vs);
    }
}

} // verus!
