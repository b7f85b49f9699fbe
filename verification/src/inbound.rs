use vstd::prelude::*;

use crate::payload::Bundle;

verus! {

/// One event the drain loop observes on the inbound server-streaming call.
pub enum InboundEvent {
    /// The remote side sent a bundle.
    Bundle(Bundle),
    /// The remote side closed the stream cleanly.
    Closed,
    /// The call failed mid-stream: connection lost or protocol error.
    Failed,
}

/// What the drain loop does with one observed event.
pub enum DrainAction {
    /// Hand the bundle to the caller's handler, then keep draining.
    Deliver(Bundle),
    /// Stop draining, silently: no error reaches the caller of subscribe.
    Stop,
}

/// The drain loop's decision for one event: every received bundle is handed
/// to the handler; a clean close and a mid-stream failure both end the loop
/// silently, deliberately indistinguishable to the caller.
pub fn drain_step(event: InboundEvent) -> (a: DrainAction)
    ensures
        event matches InboundEvent::Bundle(b) ==> a == DrainAction::Deliver(b),
        event is Closed ==> a is Stop,
        event is Failed ==> a is Stop,
{
    match event {
        InboundEvent::Bundle(b) => DrainAction::Deliver(b),
        InboundEvent::Closed => DrainAction::Stop,
        InboundEvent::Failed => DrainAction::Stop,
    }
}

/// The bundles a drain loop delivers for a given inbound event history: every
/// bundle up to the first close or failure, in arrival order, and nothing
/// after it.
pub open spec fn delivered_of(events: Seq<InboundEvent>) -> Seq<Bundle>
    decreases events.len(),
{
    if events.len() == 0 {
        Seq::empty()
    } else {
        match events[0] {
            InboundEvent::Bundle(b) => seq![b] + delivered_of(events.skip(1)),
            InboundEvent::Closed => Seq::empty(),
            InboundEvent::Failed => Seq::empty(),
        }
    }
}

/// The delivery law of the drain loop. For every inbound event history: the
/// handler is invoked at most once per event; invocation `j` hands over
/// exactly the bundle of event `j`, so deliveries follow arrival order with
/// no duplication, omission or overlap within the delivered prefix; and
/// deliveries end exactly at the first close or failure, after which no
/// further invocation occurs.
pub proof fn lemma_delivery_order(events: Seq<InboundEvent>)
    ensures
        delivered_of(events).len() <= events.len(),
        forall|j: int| 0 <= j < delivered_of(events).len() ==> events[j] is Bundle
            && delivered_of(events)[j] == events[j]->Bundle_0,
        delivered_of(events).len() < events.len() ==> !(events[delivered_of(
            events,
        ).len() as int] is Bundle),
    decreases events.len(),
{
    if events.len() == 0 {
    } else if events[0] is Bundle {
        let b = events[0]->Bundle_0;
        let tail = events.skip(1);
        lemma_delivery_order(tail);
        let d = delivered_of(events);
        let dt = delivered_of(tail);
        assert(d == seq![b] + dt);
        assert(d.len() == 1 + dt.len());
        assert forall|j: int| 0 <= j < delivered_of(events).len() implies events[j] is Bundle by {
            if j != 0 {
                assert(events[j] == tail[j - 1]);
                assert(delivered_of(tail)[j - 1] == dt[j - 1]);
                assert(tail[j - 1] is Bundle);
            }
        }
        assert forall|j: int| 0 <= j < delivered_of(events).len() implies delivered_of(events)[j]
            == events[j]->Bundle_0 by {
            if j == 0 {
                assert(d[0] == b);
            } else {
                assert(d[j] == dt[j - 1]);
                assert(events[j] == tail[j - 1]);
                assert(tail[j - 1] is Bundle && dt[j - 1] == tail[j - 1]->Bundle_0);
            }
        }
        if d.len() < events.len() {
            assert(events[d.len() as int] == tail[dt.len() as int]);
        }
    } else {
        assert(delivered_of(events) =~= Seq::<Bundle>::empty());
    }
}

/// Extending an all-bundle event history by one event extends its deliveries
/// by that event's bundle, or ends them.
proof fn lemma_delivered_of_extend(events: Seq<InboundEvent>, i: int)
    requires
        0 <= i < events.len(),
        forall|j: int| 0 <= j < i ==> events[j] is Bundle,
    ensures
        events[i] matches InboundEvent::Bundle(b) ==> delivered_of(events.take(i + 1))
            == delivered_of(events.take(i)).push(b),
        !(events[i] is Bundle) ==> delivered_of(events.take(i + 1)) == delivered_of(
            events.take(i),
        ),
    decreases i,
{
    if i == 0 {
        reveal_with_fuel(delivered_of, 2);
        assert(events.take(0) =~= Seq::<InboundEvent>::empty());
        assert(events.take(1)[0] == events[0]);
        assert(events.take(1).skip(1) =~= Seq::<InboundEvent>::empty());
        match events[0] {
            InboundEvent::Bundle(b) => {
                assert(delivered_of(events.take(1)) =~= seq![b]);
                assert(delivered_of(events.take(0)).push(b) =~= seq![b]);
            },
            _ => {
            },
        }
    } else {
        let tail = events.skip(1);
        lemma_delivered_of_extend(tail, i - 1);
        assert(events[0] is Bundle);
        let e0 = events[0]->Bundle_0;
        assert(events.take(i + 1)[0] == events[0]);
        assert(events.take(i)[0] == events[0]);
        assert(events.take(i + 1).skip(1) =~= tail.take(i));
        assert(events.take(i).skip(1) =~= tail.take(i - 1));
        assert(tail[i - 1] == events[i]);
        assert(delivered_of(events.take(i + 1)) == seq![e0] + delivered_of(tail.take(i)));
        assert(delivered_of(events.take(i)) == seq![e0] + delivered_of(tail.take(i - 1)));
        match events[i] {
            InboundEvent::Bundle(b) => {
                assert(delivered_of(tail.take(i)) == delivered_of(tail.take(i - 1)).push(b));
                assert(seq![e0] + delivered_of(tail.take(i - 1)).push(b) =~= (seq![e0]
                    + delivered_of(tail.take(i - 1))).push(b));
            },
            _ => {
            },
        }
    }
}

/// Once the loop has stopped at the first close or failure, the rest of the
/// event history delivers nothing: the full history's deliveries are those of
/// the prefix before that event.
proof fn lemma_delivered_of_stops(events: Seq<InboundEvent>, i: int)
    requires
        0 <= i < events.len(),
        forall|j: int| 0 <= j < i ==> events[j] is Bundle,
        !(events[i] is Bundle),
    ensures
        delivered_of(events) == delivered_of(events.take(i)),
    decreases i,
{
    if i == 0 {
        assert(events.take(0) =~= Seq::empty());
    } else {
        let tail = events.skip(1);
        lemma_delivered_of_stops(tail, i - 1);
        assert(events[0] is Bundle);
        assert(events.take(i)[0] == events[0]);
        assert(events.take(i).skip(1) =~= tail.take(i - 1));
    }
}

/// The drain loop over a whole inbound event history: the sequence of bundles
/// handed to the handler, one invocation per received bundle, strictly in
/// arrival order, ending silently at the first close or failure. The loop
/// takes each decision through `drain_step`.
pub fn drain_events(events: Vec<InboundEvent>) -> (delivered: Vec<Bundle>)
    ensures
        delivered@ == delivered_of(events@),
{
    let ghost all_events = events@;
    let mut remaining = events;
    let mut delivered: Vec<Bundle> = Vec::new();
    let ghost mut i: int = 0;
    loop
        invariant_except_break
            remaining@ == all_events.skip(i),
        invariant
            0 <= i <= all_events.len(),
            forall|j: int| 0 <= j < i ==> all_events[j] is Bundle,
            delivered@ == delivered_of(all_events.take(i)),
        ensures
            delivered@ == delivered_of(all_events),
        decreases all_events.len() - i,
    {
        if remaining.len() == 0 {
            proof {
                assert(all_events.take(i) =~= all_events);
            }
            break ;
        }
        let event = remaining.remove(0);
        proof {
            assert(event == all_events[i]);
            assert(remaining@ =~= all_events.skip(i + 1));
            lemma_delivered_of_extend(all_events, i);
        }
        match drain_step(event) {
            DrainAction::Deliver(bundle) => {
                delivered.push(bundle);
                proof {
                    i = i + 1;
                }
            },
            DrainAction::Stop => {
                proof {
                    lemma_delivered_of_stops(all_events, i);
                }
                break ;
            },
        }
    }
    delivered
}

} // verus!
