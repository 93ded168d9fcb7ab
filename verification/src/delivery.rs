//! The course of one delivery: the request is sent, the response arrives,
//! its body is read to the end and thrown away. Only a failure of the
//! transport makes a delivery fail; what the response says is not looked at.

use vstd::prelude::*;

verus! {

/// Where a delivery stands.
#[derive(Clone, Copy, Debug, PartialEq, Eq, Structural)]
pub enum Delivery {
    /// The request is on its way; no response has arrived yet.
    Sending,
    /// The response has arrived; its body is being read.
    Draining,
    /// The body was read to its end.
    Delivered,
    /// The transport failed, while sending or while reading the body.
    Failed,
}

/// What the transport reports.
#[derive(Clone, Copy, Debug, PartialEq, Eq, Structural)]
pub enum Transport {
    /// The response to the request has arrived.
    Responded,
    /// A piece of the response's body has arrived.
    Chunk,
    /// The response's body has ended.
    Ended,
    /// The transport has failed.
    Failed,
}

/// What is to be done next for a delivery.
#[derive(Clone, Copy, Debug, PartialEq, Eq, Structural)]
pub enum Pending {
    /// Wait for the response to the request.
    Response,
    /// Wait for the next piece of the body.
    Body,
    /// Nothing: the delivery is over, and this is whether it succeeded.
    Report(bool),
}

impl Delivery {
    /// Where the delivery stands after the transport has reported `event`.
    /// A failure ends a delivery that is still under way. A delivery that
    /// is over stays as it is, and so does one to which the report does not
    /// apply.
    pub open spec fn next(self, event: Transport) -> Delivery {
        match (self, event) {
            (Delivery::Sending, Transport::Responded) => Delivery::Draining,
            (Delivery::Sending, Transport::Failed) => Delivery::Failed,
            (Delivery::Draining, Transport::Ended) => Delivery::Delivered,
            (Delivery::Draining, Transport::Failed) => Delivery::Failed,
            _ => self,
        }
    }

    /// Where a delivery stands after the transport has made the given
    /// reports, one after the other.
    pub open spec fn after(self, events: Seq<Transport>) -> Delivery
        decreases events.len(),
    {
        if events.len() == 0 {
            self
        } else {
            self.after(events.drop_last()).next(events.last())
        }
    }

    /// A delivery at its start: the request is on its way.
    pub fn start() -> (d: Delivery)
        ensures
            d == Delivery::Sending,
    {
        Delivery::Sending
    }

    /// Takes a report of the transport.
    pub fn on(self, event: Transport) -> (d: Delivery)
        ensures
            d == self.next(event),
    {
        match self {
            Delivery::Sending => match event {
                Transport::Responded => Delivery::Draining,
                Transport::Failed => Delivery::Failed,
                _ => self,
            },
            Delivery::Draining => match event {
                Transport::Ended => Delivery::Delivered,
                Transport::Failed => Delivery::Failed,
                _ => self,
            },
            _ => self,
        }
    }

    /// What is to be done next.
    pub fn pending(self) -> (p: Pending)
        ensures
            p == match self {
                Delivery::Sending => Pending::Response,
                Delivery::Draining => Pending::Body,
                Delivery::Delivered => Pending::Report(true),
                Delivery::Failed => Pending::Report(false),
            },
    {
        match self {
            Delivery::Sending => Pending::Response,
            Delivery::Draining => Pending::Body,
            Delivery::Delivered => Pending::Report(true),
            Delivery::Failed => Pending::Report(false),
        }
    }
}

/// A delivery that has failed stays failed, whatever the transport reports
/// afterwards.
pub proof fn failed_stays_failed(events: Seq<Transport>)
    ensures
        Delivery::Failed.after(events) == Delivery::Failed,
    decreases events.len(),
{
    if events.len() > 0 {
        failed_stays_failed(events.drop_last());
    }
}

/// Taking the reports `first` and then the reports `rest` is taking them
/// all in one go.
pub proof fn after_concat(d: Delivery, first: Seq<Transport>, rest: Seq<Transport>)
    ensures
        d.after(first + rest) == d.after(first).after(rest),
    decreases rest.len(),
{
    if rest.len() == 0 {
        assert(first + rest =~= first);
    } else {
        after_concat(d, first, rest.drop_last());
        assert((first + rest).drop_last() =~= first + rest.drop_last());
        assert((first + rest).last() == rest.last());
    }
}

/// Where the transport fails before any response has arrived, the delivery
/// fails, and nothing that is reported later makes it succeed.
pub proof fn failure_on_send_fails(rest: Seq<Transport>)
    ensures
        Delivery::Sending.after(seq![Transport::Failed] + rest) == Delivery::Failed,
{
    let first = seq![Transport::Failed];
    assert(first.drop_last() =~= Seq::<Transport>::empty());
    assert(Delivery::Sending.after(first.drop_last()) == Delivery::Sending);
    assert(Delivery::Sending.after(first) == Delivery::Failed);
    after_concat(Delivery::Sending, first, rest);
    failed_stays_failed(rest);
}

/// Whether the transport reports no failure among the first `n` reports.
pub open spec fn no_failure_before(events: Seq<Transport>, n: int) -> bool {
    forall|k: int| 0 <= k < n && k < events.len() ==> events[k] != Transport::Failed
}

/// A delivery that still waits for its response has seen no failure and no
/// response.
pub proof fn sending_means_nothing_yet(events: Seq<Transport>)
    requires
        Delivery::Sending.after(events) == Delivery::Sending,
    ensures
        no_failure_before(events, events.len() as int),
        forall|k: int| 0 <= k < events.len() ==> events[k] != Transport::Responded,
    decreases events.len(),
{
    if events.len() > 0 {
        let before = events.drop_last();
        sending_means_nothing_yet(before);
        assert forall|k: int| 0 <= k < events.len() implies events[k] != Transport::Failed
            && events[k] != Transport::Responded by {
            if k < before.len() {
                assert(before[k] == events[k]);
            }
        }
    }
}

/// A delivery whose body is being read has had its response, at the place
/// that is returned, and no failure so far.
pub proof fn draining_means_responded(events: Seq<Transport>) -> (i: int)
    requires
        Delivery::Sending.after(events) == Delivery::Draining,
    ensures
        0 <= i < events.len(),
        events[i] == Transport::Responded,
        no_failure_before(events, events.len() as int),
    decreases events.len(),
{
    let before = events.drop_last();
    let d = Delivery::Sending.after(before);
    let i = if d == Delivery::Draining {
        draining_means_responded(before)
    } else {
        sending_means_nothing_yet(before);
        events.len() - 1
    };
    assert forall|k: int| 0 <= k < events.len() implies events[k] != Transport::Failed by {
        if k < before.len() {
            assert(before[k] == events[k]);
        }
    }
    assert(i < before.len() ==> before[i] == events[i]);
    i
}

/// A delivery succeeds only if the response arrived and its body ended
/// without a failure of the transport: among the reports there is a
/// `Responded` and, after it, an `Ended`, at the two places that are
/// returned, and no `Failed` before that `Ended`.
pub proof fn delivered_means_drained(events: Seq<Transport>) -> (at: (int, int))
    requires
        Delivery::Sending.after(events) == Delivery::Delivered,
    ensures
        0 <= at.0 < at.1 < events.len(),
        events[at.0] == Transport::Responded,
        events[at.1] == Transport::Ended,
        no_failure_before(events, at.1),
    decreases events.len(),
{
    let before = events.drop_last();
    let d = Delivery::Sending.after(before);
    if d == Delivery::Delivered {
        let at = delivered_means_drained(before);
        assert(before[at.0] == events[at.0]);
        assert(before[at.1] == events[at.1]);
        assert forall|k: int| 0 <= k < at.1 && k < events.len() implies events[k]
            != Transport::Failed by {
            assert(before[k] == events[k]);
        }
        at
    } else {
        let i = draining_means_responded(before);
        assert(before[i] == events[i]);
        assert forall|k: int| 0 <= k < events.len() - 1 implies events[k]
            != Transport::Failed by {
            assert(before[k] == events[k]);
        }
        (i, events.len() - 1)
    }
}

/// A delivery whose transport reports its response, then any number of
/// pieces of the body, then the end of the body, succeeds.
pub proof fn drained_means_delivered(pieces: nat)
    ensures
        Delivery::Sending.after(
            seq![Transport::Responded] + Seq::new(pieces, |k: int| Transport::Chunk)
                + seq![Transport::Ended],
        ) == Delivery::Delivered,
{
    let first = seq![Transport::Responded];
    let body = Seq::new(pieces, |k: int| Transport::Chunk);
    let end = seq![Transport::Ended];
    assert(first.drop_last() =~= Seq::<Transport>::empty());
    assert(Delivery::Sending.after(first.drop_last()) == Delivery::Sending);
    assert(Delivery::Sending.after(first) == Delivery::Draining);
    chunks_keep_draining(body);
    after_concat(Delivery::Sending, first, body);
    assert(end.drop_last() =~= Seq::<Transport>::empty());
    assert(Delivery::Draining.after(end.drop_last()) == Delivery::Draining);
    assert(Delivery::Draining.after(end) == Delivery::Delivered);
    after_concat(Delivery::Sending, first + body, end);
}

/// Pieces of the body leave a delivery reading the body.
pub proof fn chunks_keep_draining(events: Seq<Transport>)
    requires
        forall|k: int| 0 <= k < events.len() ==> events[k] == Transport::Chunk,
    ensures
        Delivery::Draining.after(events) == Delivery::Draining,
    decreases events.len(),
{
    if events.len() > 0 {
        let before = events.drop_last();
        assert forall|k: int| 0 <= k < before.len() implies before[k] == Transport::Chunk by {
            assert(before[k] == events[k]);
        }
        chunks_keep_draining(before);
    }
}

} // verus!
