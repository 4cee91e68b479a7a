//! Whole runs of the relay: the actions it takes over a stream of events,
//! what the progress slot and the consumer see of them, and the laws that
//! hold of every run.
use vstd::prelude::*;

use crate::notification::{progress_of, ProgressNotification};
use crate::progress::RemoteProgress;
use crate::relay::{RelayAction, RelayEvent, RelayState, Termination};

verus! {

/// The state reached and the actions taken when the relay, starting in `s`,
/// sees `events` in order.
pub open spec fn run(s: RelayState, events: Seq<RelayEvent>) -> (RelayState, Seq<RelayAction>)
    decreases events.len(),
{
    if events.len() == 0 {
        (s, Seq::empty())
    } else {
        let before = run(s, events.drop_last());
        let after = before.0.spec_step(events.last());
        (after.0, before.1.push(after.1))
    }
}

/// The events that relaying report `n` produces when the slot, the outbound
/// channel and the pause all succeed.
pub open spec fn relayed(n: ProgressNotification) -> Seq<RelayEvent> {
    seq![RelayEvent::Received(n), RelayEvent::Stored, RelayEvent::Signalled, RelayEvent::Paused]
}

/// The events of relaying every report of `ns` in order, with nothing
/// failing on the way.
pub open spec fn relayed_all(ns: Seq<ProgressNotification>) -> Seq<RelayEvent>
    decreases ns.len(),
{
    if ns.len() == 0 {
        Seq::empty()
    } else {
        relayed_all(ns.drop_last()) + relayed(ns.last())
    }
}

/// What the progress slot holds after `actions`, when it held `slot` before:
/// each store replaces the content whole.
pub open spec fn slot_after(slot: Option<RemoteProgress>, actions: Seq<RelayAction>) -> Option<
    RemoteProgress,
>
    decreases actions.len(),
{
    if actions.len() == 0 {
        slot
    } else {
        match actions.last() {
            RelayAction::Store(v) => Some(v),
            _ => slot_after(slot, actions.drop_last()),
        }
    }
}

/// How many update signals `actions` send.
pub open spec fn signals_sent(actions: Seq<RelayAction>) -> nat
    decreases actions.len(),
{
    if actions.len() == 0 {
        0
    } else {
        signals_sent(actions.drop_last()) + if actions.last() is Signal {
            1nat
        } else {
            0nat
        }
    }
}

/// No report of `ns` ends the transfer.
pub open spec fn all_ongoing(ns: Seq<ProgressNotification>) -> bool {
    forall|i: int| 0 <= i < ns.len() ==> !(#[trigger] ns[i]).spec_is_terminal()
}

proof fn lemma_run_append(s: RelayState, e1: Seq<RelayEvent>, e2: Seq<RelayEvent>)
    ensures
        run(s, e1 + e2) == (run(run(s, e1).0, e2).0, run(s, e1).1 + run(run(s, e1).0, e2).1),
    decreases e2.len(),
{
    let mid = run(s, e1);
    if e2.len() == 0 {
        assert(e1 + e2 =~= e1);
        assert(mid.1 + run(mid.0, e2).1 =~= mid.1);
    } else {
        assert((e1 + e2).drop_last() =~= e1 + e2.drop_last());
        assert((e1 + e2).last() == e2.last());
        lemma_run_append(s, e1, e2.drop_last());
        let inner = run(mid.0, e2.drop_last());
        let after = inner.0.spec_step(e2.last());
        assert((mid.1 + inner.1).push(after.1) =~= mid.1 + inner.1.push(after.1));
    }
}

proof fn lemma_slot_after_append(slot: Option<RemoteProgress>, a1: Seq<RelayAction>, a2: Seq<RelayAction>)
    ensures
        slot_after(slot, a1 + a2) == slot_after(slot_after(slot, a1), a2),
    decreases a2.len(),
{
    if a2.len() == 0 {
        assert(a1 + a2 =~= a1);
    } else {
        assert((a1 + a2).drop_last() =~= a1 + a2.drop_last());
        assert((a1 + a2).last() == a2.last());
        lemma_slot_after_append(slot, a1, a2.drop_last());
    }
}

proof fn lemma_signals_sent_append(a1: Seq<RelayAction>, a2: Seq<RelayAction>)
    ensures
        signals_sent(a1 + a2) == signals_sent(a1) + signals_sent(a2),
    decreases a2.len(),
{
    if a2.len() == 0 {
        assert(a1 + a2 =~= a1);
    } else {
        assert((a1 + a2).drop_last() =~= a1 + a2.drop_last());
        assert((a1 + a2).last() == a2.last());
        lemma_signals_sent_append(a1, a2.drop_last());
    }
}

/// Relaying one report from a listening relay stores its value, signals
/// once, pauses, and then listens again or, after the report that ends the
/// transfer, stops as completed.
proof fn lemma_relay_one(n: ProgressNotification, slot: Option<RemoteProgress>)
    ensures
        run(RelayState::Listening, relayed(n)).0 == (if n.spec_is_terminal() {
            RelayState::Terminated { reason: Termination::Completed }
        } else {
            RelayState::Listening
        }),
        slot_after(slot, run(RelayState::Listening, relayed(n)).1) == Some(progress_of(n)),
        signals_sent(run(RelayState::Listening, relayed(n)).1) == 1,
{
    let es = relayed(n);
    assert(es.drop_last() =~= seq![RelayEvent::Received(n), RelayEvent::Stored, RelayEvent::Signalled]);
    assert(es.drop_last().drop_last() =~= seq![RelayEvent::Received(n), RelayEvent::Stored]);
    assert(es.drop_last().drop_last().drop_last() =~= seq![RelayEvent::Received(n)]);
    assert(es.drop_last().drop_last().drop_last().drop_last() =~= Seq::<RelayEvent>::empty());
    let r0 = run(RelayState::Listening, es.drop_last().drop_last().drop_last().drop_last());
    assert(r0 == (RelayState::Listening, Seq::<RelayAction>::empty()));
    let r1 = run(RelayState::Listening, es.drop_last().drop_last().drop_last());
    let r2 = run(RelayState::Listening, es.drop_last().drop_last());
    let r3 = run(RelayState::Listening, es.drop_last());
    let r4 = run(RelayState::Listening, es);
    assert(r1.1 =~= seq![RelayAction::Store(progress_of(n))]);
    assert(r2.1 =~= seq![RelayAction::Store(progress_of(n)), RelayAction::Signal]);
    assert(r3.1 =~= seq![RelayAction::Store(progress_of(n)), RelayAction::Signal, RelayAction::Pause]);
    let acts = r4.1;
    assert(acts.drop_last() =~= r3.1);
    assert(acts.drop_last().drop_last() =~= r2.1);
    assert(acts.drop_last().drop_last().drop_last() =~= r1.1);
    assert(acts.drop_last().drop_last().drop_last().drop_last() =~= Seq::<RelayAction>::empty());
    assert(signals_sent(acts.drop_last().drop_last().drop_last().drop_last()) == 0);
    assert(signals_sent(acts.drop_last().drop_last().drop_last()) == 0);
    assert(signals_sent(acts.drop_last().drop_last()) == 1);
    assert(signals_sent(acts.drop_last()) == 1);
    assert(slot_after(slot, acts.drop_last().drop_last().drop_last()) == Some(progress_of(n)));
    assert(slot_after(slot, acts.drop_last().drop_last()) == Some(progress_of(n)));
    assert(slot_after(slot, acts.drop_last()) == Some(progress_of(n)));
}

/// Relaying reports that do not end the transfer, one after another, leaves
/// the relay listening, with the value of the last report in the slot and
/// one signal sent per report.
proof fn lemma_relay_ongoing(ns: Seq<ProgressNotification>, slot: Option<RemoteProgress>)
    requires
        all_ongoing(ns),
    ensures
        run(RelayState::Listening, relayed_all(ns)).0 == RelayState::Listening,
        slot_after(slot, run(RelayState::Listening, relayed_all(ns)).1) == (if ns.len() == 0 {
            slot
        } else {
            Some(progress_of(ns.last()))
        }),
        signals_sent(run(RelayState::Listening, relayed_all(ns)).1) == ns.len(),
    decreases ns.len(),
{
    if ns.len() > 0 {
        let prefix = ns.drop_last();
        assert(all_ongoing(prefix)) by {
            assert forall|i: int| 0 <= i < prefix.len() implies !(#[trigger] prefix[i]).spec_is_terminal() by {
                assert(prefix[i] == ns[i]);
            }
        }
        assert(!ns[ns.len() - 1].spec_is_terminal());
        lemma_relay_ongoing(prefix, slot);
        let before = run(RelayState::Listening, relayed_all(prefix));
        lemma_run_append(RelayState::Listening, relayed_all(prefix), relayed(ns.last()));
        lemma_relay_one(ns.last(), slot_after(slot, before.1));
        let last = run(RelayState::Listening, relayed(ns.last()));
        lemma_slot_after_append(slot, before.1, last.1);
        lemma_signals_sent_append(before.1, last.1);
    }
}

/// Relaying reports that do not end the transfer, then the one that does,
/// with nothing failing on the way: the relay stops as completed, the slot
/// holds the final report's value, and one signal went out per report.
pub proof fn lemma_relay_to_completion(ns: Seq<ProgressNotification>, end: ProgressNotification)
    requires
        all_ongoing(ns),
        end.spec_is_terminal(),
    ensures
        run(RelayState::Listening, relayed_all(ns.push(end))).0 == (RelayState::Terminated {
            reason: Termination::Completed,
        }),
        slot_after(None, run(RelayState::Listening, relayed_all(ns.push(end))).1) == Some(
            progress_of(end),
        ),
        signals_sent(run(RelayState::Listening, relayed_all(ns.push(end))).1) == ns.len() + 1,
{
    let all = ns.push(end);
    assert(all.drop_last() =~= ns);
    lemma_relay_ongoing(ns, None);
    let before = run(RelayState::Listening, relayed_all(ns));
    lemma_run_append(RelayState::Listening, relayed_all(ns), relayed(end));
    lemma_relay_one(end, slot_after(None, before.1));
    let last = run(RelayState::Listening, relayed(end));
    lemma_slot_after_append(None, before.1, last.1);
    lemma_signals_sent_append(before.1, last.1);
}

/// Two reports relayed one after the other, with no read in between: the
/// slot ends up holding the second report's value only, whatever it held
/// before.
pub proof fn lemma_later_report_replaces_earlier(
    first: ProgressNotification,
    second: ProgressNotification,
    slot: Option<RemoteProgress>,
)
    requires
        !first.spec_is_terminal(),
    ensures
        slot_after(slot, run(RelayState::Listening, relayed_all(seq![first, second])).1) == Some(
            progress_of(second),
        ),
{
    let ns = seq![first, second];
    assert(ns.drop_last() =~= seq![first]);
    assert(seq![first].drop_last() =~= Seq::<ProgressNotification>::empty());
    lemma_relay_ongoing(seq![first], slot);
    let before = run(RelayState::Listening, relayed_all(seq![first]));
    lemma_run_append(RelayState::Listening, relayed_all(seq![first]), relayed(second));
    lemma_relay_one(second, slot_after(slot, before.1));
    let last = run(RelayState::Listening, relayed(second));
    lemma_slot_after_append(slot, before.1, last.1);
}

/// Reports that do not end the transfer, then a closed inbound channel: the
/// relay stops for that reason, which is not fatal, after one signal per
/// report.
pub proof fn lemma_closed_inbound_stops_cleanly(ns: Seq<ProgressNotification>)
    requires
        all_ongoing(ns),
    ensures
        run(RelayState::Listening, relayed_all(ns).push(RelayEvent::InboundClosed)).0 == (
        RelayState::Terminated { reason: Termination::InboundClosed }),
        !Termination::InboundClosed.spec_is_fatal(),
        signals_sent(run(RelayState::Listening, relayed_all(ns).push(RelayEvent::InboundClosed)).1)
            == ns.len(),
{
    let es = relayed_all(ns).push(RelayEvent::InboundClosed);
    assert(es.drop_last() =~= relayed_all(ns));
    lemma_relay_ongoing(ns, None);
    let acts = run(RelayState::Listening, es).1;
    assert(acts.drop_last() =~= run(RelayState::Listening, relayed_all(ns)).1);
}

} // verus!
