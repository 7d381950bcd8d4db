//! What holds of every watcher, whatever the outside world answers.

use vstd::prelude::*;

use crate::cursor::{is_unseen, newest};
use crate::extract::{parse_spec, MessageView};
use crate::forward::{outbound_spec, OutboundView};
use crate::models::{MailingListView, UserView};
use crate::watch::{
    complete, deliverable, next_step, rest, subscribers_of, well_formed, ActionView, Awaiting,
    EventView, Fault, PhaseView, StepView, WatcherView,
};

verus! {

/// The watcher after a sequence of events.
pub open spec fn run(w: WatcherView, events: Seq<EventView>) -> WatcherView
    decreases events.len(),
{
    if events.len() == 0 {
        w
    } else {
        run(next_step(w, events[0]).watcher, events.drop_first())
    }
}

/// The actions that a watcher answers a sequence of events with.
pub open spec fn actions(w: WatcherView, events: Seq<EventView>) -> Seq<ActionView>
    decreases events.len(),
{
    if events.len() == 0 {
        Seq::empty()
    } else {
        seq![next_step(w, events[0]).action] + actions(
            next_step(w, events[0]).watcher,
            events.drop_first(),
        )
    }
}

/// The messages that a watcher asks to send while it answers a sequence of
/// events, in the order in which it asks.
pub open spec fn sent(w: WatcherView, events: Seq<EventView>) -> Seq<OutboundView>
    decreases events.len(),
{
    if events.len() == 0 {
        Seq::empty()
    } else {
        let rest = sent(next_step(w, events[0]).watcher, events.drop_first());
        match next_step(w, events[0]).action {
            ActionView::Send(email) => seq![email] + rest,
            _ => rest,
        }
    }
}

/// A fault that ends a cycle before the message is handled.
pub open spec fn aborts(report: Option<Fault>) -> bool {
    report == Some(Fault::Protocol) || report == Some(Fault::NotFound) || report == Some(
        Fault::ListUnavailable,
    ) || report == Some(Fault::OutOfOrder)
}

/// The message that a watcher is in the middle of handling.
pub open spec fn in_hand(w: WatcherView) -> Option<u32> {
    match w.phase {
        PhaseView::Fetching { id } => Some(id),
        PhaseView::Forwarding { id, .. } => Some(id),
        _ => None,
    }
}

/// A watcher that can be reached stays one that can be reached.
pub proof fn step_keeps_well_formed(w: WatcherView, event: EventView)
    requires
        well_formed(w),
    ensures
        well_formed(next_step(w, event).watcher),
{
}

/// A step never touches the mailbox's address and secret, nor the list.
pub proof fn step_keeps_configuration(w: WatcherView, event: EventView)
    ensures
        next_step(w, event).watcher.address == w.address,
        next_step(w, event).watcher.secret == w.secret,
        next_step(w, event).watcher.list == w.list,
{
}

/// A watcher fetches only the newest message of the listing it was given,
/// and only if that is not the message it last handled.
pub proof fn fetch_targets_newest(w: WatcherView, ids: Seq<u32>)
    requires
        w.phase is Diffing,
    ensures
        is_unseen(w.last_seen, newest(ids)) ==> next_step(w, EventView::Listed(ids))
            == (StepView {
            watcher: WatcherView { phase: PhaseView::Fetching { id: newest(ids)->0 }, ..w },
            action: ActionView::Fetch(newest(ids)->0),
            report: None,
        }),
        !is_unseen(w.last_seen, newest(ids)) ==> next_step(w, EventView::Listed(ids)) == rest(w),
{
}

/// While a message is in hand, a step either keeps it in hand and leaves the
/// cursor alone, or ends the cycle. A cycle that ends by a fault that aborts
/// it leaves the cursor alone; a cycle that ends otherwise leaves the cursor
/// at the message that was in hand.
pub proof fn cycle_ends_at_its_message(w: WatcherView, event: EventView)
    requires
        well_formed(w),
        in_hand(w) is Some,
    ensures
        ({
            let s = next_step(w, event);
            if in_hand(s.watcher) is Some {
                in_hand(s.watcher) == in_hand(w) && s.watcher.last_seen == w.last_seen
            } else {
                &&& s.watcher.phase is Idling
                &&& s.action is Idle
                &&& aborts(s.report) ==> s.watcher.last_seen == w.last_seen
                &&& !aborts(s.report) ==> s.watcher.last_seen == in_hand(w)
            }
        }),
{
}

/// Outside a cycle nothing moves the cursor.
pub proof fn cursor_rests_outside_cycle(w: WatcherView, event: EventView)
    requires
        in_hand(w) is None,
    ensures
        next_step(w, event).watcher.last_seen == w.last_seen,
{
}

/// A message that does not parse is never forwarded: the watcher asks for
/// nothing but the next wait, and does not come back to the message.
pub proof fn malformed_message_is_skipped(w: WatcherView, raw: Seq<u8>)
    requires
        w.phase is Fetching,
        parse_spec(raw) is Err,
    ensures
        next_step(w, EventView::Fetched(raw)) == complete(
            w,
            in_hand(w)->0,
            Some(Fault::Malformed(parse_spec(raw)->Err_0)),
        ),
{
}

/// One wake-up for each listing: the wait ends, and the listing arrives.
pub open spec fn rounds(listings: Seq<Seq<u32>>) -> Seq<EventView>
    decreases listings.len(),
{
    if listings.len() == 0 {
        Seq::empty()
    } else {
        seq![EventView::Woke, EventView::Listed(listings[0])] + rounds(listings.drop_first())
    }
}

/// No message is forwarded twice in a row. A waiting watcher that wakes up,
/// any number of times, to a mailbox whose newest message is the one it last
/// handled only lists the mailbox and waits again: it fetches nothing, sends
/// nothing, and stays as it is.
pub proof fn no_duplicate_forwarding(w: WatcherView, listings: Seq<Seq<u32>>)
    requires
        w.phase is Idling,
        w.last_seen is Some,
        forall|i: int| 0 <= i < listings.len() ==> newest(#[trigger] listings[i]) == w.last_seen,
    ensures
        run(w, rounds(listings)) == w,
        sent(w, rounds(listings)) == Seq::<OutboundView>::empty(),
        forall|j: int|
            0 <= j < actions(w, rounds(listings)).len() ==> {
                let a = #[trigger] actions(w, rounds(listings))[j];
                a is Search || a is Idle
            },
    decreases listings.len(),
{
    if listings.len() > 0 {
        let events = rounds(listings);
        let later = rounds(listings.drop_first());
        let woken = next_step(w, EventView::Woke);
        let back = next_step(woken.watcher, EventView::Listed(listings[0]));
        assert(events[0] == EventView::Woke);
        assert(events.drop_first() =~= seq![EventView::Listed(listings[0])] + later);
        assert(events.drop_first()[0] == EventView::Listed(listings[0]));
        assert(events.drop_first().drop_first() =~= later);
        assert(newest(listings[0]) == w.last_seen);
        assert(back.watcher == w);
        assert forall|i: int| 0 <= i < listings.drop_first().len() implies newest(
            #[trigger] listings.drop_first()[i],
        ) == w.last_seen by {
            assert(listings.drop_first()[i] == listings[i + 1]);
        }
        no_duplicate_forwarding(w, listings.drop_first());
        let tail = events.drop_first();
        assert(run(w, events) == run(woken.watcher, tail));
        assert(run(woken.watcher, tail) == run(back.watcher, later));
        assert(sent(w, events) == sent(woken.watcher, tail));
        assert(sent(woken.watcher, tail) == sent(back.watcher, later));
        assert(actions(w, events) == seq![woken.action] + actions(woken.watcher, tail));
        assert(actions(woken.watcher, tail) == seq![back.action] + actions(back.watcher, later));
        assert(actions(w, events) =~= seq![woken.action] + (seq![back.action] + actions(
            w,
            later,
        )));
    }
}

/// The answers to the turns of the subscribers from position `k` on:
/// for each, the record that the lookup gives, and, where that record gives
/// an address, the outcome of the send.
pub open spec fn answers(users: Seq<Option<UserView>>, delivered: Seq<bool>, k: int) -> Seq<
    EventView,
>
    decreases users.len() - k,
{
    if 0 <= k < users.len() {
        let outcome = if delivered[k] {
            EventView::Delivered
        } else {
            EventView::DeliveryFailed
        };
        if deliverable(users[k]) is Some {
            seq![EventView::UserLoaded(users[k]), outcome] + answers(users, delivered, k + 1)
        } else {
            seq![EventView::UserLoaded(users[k])] + answers(users, delivered, k + 1)
        }
    } else {
        Seq::empty()
    }
}

/// One message for each subscriber from position `k` on whose record gives
/// an address, in the order of the subscribers.
pub open spec fn attempts(
    message: MessageView,
    address: Seq<char>,
    users: Seq<Option<UserView>>,
    k: int,
) -> Seq<OutboundView>
    decreases users.len() - k,
{
    if 0 <= k < users.len() {
        match deliverable(users[k]) {
            Some(to) => seq![outbound_spec(message, address, to)] + attempts(
                message,
                address,
                users,
                k + 1,
            ),
            None => attempts(message, address, users, k + 1),
        }
    } else {
        Seq::empty()
    }
}

/// Every subscriber has their turn. From the turn of the subscriber at
/// position `next` on, whatever the lookups give (`users`) and however the
/// sends end (`delivered`), the watcher asks for exactly one send to each
/// subscriber whose record gives an address, in the order of the
/// subscribers; a missing record and a failed send stop nothing. After the
/// last subscriber the cycle is complete, with the cursor at the message.
pub proof fn every_subscriber_has_a_turn(
    w: WatcherView,
    users: Seq<Option<UserView>>,
    delivered: Seq<bool>,
)
    requires
        well_formed(w),
        w.phase matches PhaseView::Forwarding { subscribers, awaiting, .. } && awaiting
            == Awaiting::User && users.len() == subscribers.len() && delivered.len()
            == subscribers.len(),
    ensures
        ({
            let id = w.phase->Forwarding_id;
            let message = w.phase->Forwarding_message;
            let next = w.phase->Forwarding_next;
            &&& sent(w, answers(users, delivered, next)) == attempts(
                message,
                w.address,
                users,
                next,
            )
            &&& run(w, answers(users, delivered, next)) == complete(w, id, None).watcher
        }),
    decreases users.len() - w.phase->Forwarding_next,
{
    let id = w.phase->Forwarding_id;
    let message = w.phase->Forwarding_message;
    let subscribers = w.phase->Forwarding_subscribers;
    let next = w.phase->Forwarding_next;
    let events = answers(users, delivered, next);
    let later = answers(users, delivered, next + 1);
    let loaded = EventView::UserLoaded(users[next]);
    let first = next_step(w, loaded);
    assert(events[0] == loaded);
    if deliverable(users[next]) is Some {
        let outcome = if delivered[next] {
            EventView::Delivered
        } else {
            EventView::DeliveryFailed
        };
        let tail = events.drop_first();
        let second = next_step(first.watcher, outcome);
        assert(tail =~= seq![outcome] + later);
        assert(tail[0] == outcome);
        assert(tail.drop_first() =~= later);
        assert(run(w, events) == run(first.watcher, tail));
        assert(run(first.watcher, tail) == run(second.watcher, later));
        assert(sent(w, events) == seq![
            outbound_spec(message, w.address, deliverable(users[next])->0),
        ] + sent(first.watcher, tail));
        assert(sent(first.watcher, tail) == sent(second.watcher, later));
        if next + 1 < subscribers.len() {
            every_subscriber_has_a_turn(second.watcher, users, delivered);
            assert(complete(second.watcher, id, None).watcher == complete(w, id, None).watcher);
        } else {
            assert(later =~= Seq::<EventView>::empty());
        }
        assert(run(w, events) == complete(w, id, None).watcher);
        assert(sent(second.watcher, later) == attempts(message, w.address, users, next + 1));
        assert(sent(w, events) == attempts(message, w.address, users, next));
    } else {
        assert(events.drop_first() =~= later);
        assert(run(w, events) == run(first.watcher, later));
        assert(sent(w, events) == sent(first.watcher, later));
        if next + 1 < subscribers.len() {
            every_subscriber_has_a_turn(first.watcher, users, delivered);
            assert(complete(first.watcher, id, None).watcher == complete(w, id, None).watcher);
        } else {
            assert(later =~= Seq::<EventView>::empty());
        }
        assert(run(w, events) == complete(w, id, None).watcher);
        assert(sent(first.watcher, later) == attempts(message, w.address, users, next + 1));
        assert(sent(w, events) == attempts(message, w.address, users, next));
    }
}

/// A whole cycle, from the listing of the mailbox to the last subscriber.
pub open spec fn cycle(
    ids: Seq<u32>,
    raw: Seq<u8>,
    list: MailingListView,
    users: Seq<Option<UserView>>,
    delivered: Seq<bool>,
) -> Seq<EventView> {
    seq![EventView::Listed(ids), EventView::Fetched(raw), EventView::ListLoaded(Some(list))]
        + answers(users, delivered, 0)
}

/// A cycle that meets no fault that aborts it handles the newest message. If
/// the listing shows a newest message that is not the one last handled, the
/// message parses, and the list's record is there, then, whatever the
/// lookups of the subscribers give and however the sends end, the watcher
/// asks for exactly one send to each subscriber whose record gives an
/// address, and ends waiting with its cursor at the newest identifier of the
/// listing.
pub proof fn successful_cycle(
    w: WatcherView,
    ids: Seq<u32>,
    raw: Seq<u8>,
    list: MailingListView,
    users: Seq<Option<UserView>>,
    delivered: Seq<bool>,
)
    requires
        w.phase is Diffing,
        is_unseen(w.last_seen, newest(ids)),
        parse_spec(raw) is Ok,
        users.len() == subscribers_of(list).len(),
        delivered.len() == subscribers_of(list).len(),
    ensures
        sent(w, cycle(ids, raw, list, users, delivered)) == attempts(
            parse_spec(raw)->Ok_0,
            w.address,
            users,
            0,
        ),
        run(w, cycle(ids, raw, list, users, delivered)) == (WatcherView {
            last_seen: newest(ids),
            phase: PhaseView::Idling,
            ..w
        }),
{
    let id = newest(ids)->0;
    let events = cycle(ids, raw, list, users, delivered);
    let turns = answers(users, delivered, 0);
    let listed = next_step(w, events[0]);
    let fetched = next_step(listed.watcher, events[1]);
    let loaded = next_step(fetched.watcher, events[2]);
    let e1 = events.drop_first();
    let e2 = e1.drop_first();
    assert(e1[0] == events[1]);
    assert(e2[0] == events[2]);
    assert(e2.drop_first() =~= turns);
    assert(run(w, events) == run(listed.watcher, e1));
    assert(run(listed.watcher, e1) == run(fetched.watcher, e2));
    assert(run(fetched.watcher, e2) == run(loaded.watcher, turns));
    assert(sent(w, events) == sent(listed.watcher, e1));
    assert(sent(listed.watcher, e1) == sent(fetched.watcher, e2));
    assert(sent(fetched.watcher, e2) == sent(loaded.watcher, turns));
    if subscribers_of(list).len() > 0 {
        every_subscriber_has_a_turn(loaded.watcher, users, delivered);
    } else {
        assert(turns =~= Seq::<EventView>::empty());
    }
}

/// Answering one sequence of events after another is answering the two in
/// a row.
pub proof fn run_in_two_parts(w: WatcherView, first: Seq<EventView>, second: Seq<EventView>)
    ensures
        run(w, first + second) == run(run(w, first), second),
        sent(w, first + second) == sent(w, first) + sent(run(w, first), second),
        actions(w, first + second) == actions(w, first) + actions(run(w, first), second),
    decreases first.len(),
{
    let all = first + second;
    if first.len() == 0 {
        assert(all =~= second);
        assert(sent(w, first) + sent(w, second) =~= sent(w, second));
        assert(actions(w, first) + actions(w, second) =~= actions(w, second));
    } else {
        let s = next_step(w, first[0]);
        assert(all[0] == first[0]);
        assert(all.drop_first() =~= first.drop_first() + second);
        run_in_two_parts(s.watcher, first.drop_first(), second);
        let later = sent(run(w, first), second);
        match s.action {
            ActionView::Send(email) => {
                assert(sent(w, all) =~= (seq![email] + sent(s.watcher, first.drop_first()))
                    + later);
            },
            _ => {},
        }
        assert(actions(w, all) =~= (seq![s.action] + actions(s.watcher, first.drop_first()))
            + actions(run(w, first), second));
    }
}

/// A forwarded message is not forwarded again. After a cycle that forwarded
/// the newest message, waking up any number of times to a mailbox whose
/// newest message is still that one adds no send to those of the cycle, and
/// leaves the watcher waiting with its cursor at that message.
pub proof fn forwarded_message_is_left_alone(
    w: WatcherView,
    ids: Seq<u32>,
    raw: Seq<u8>,
    list: MailingListView,
    users: Seq<Option<UserView>>,
    delivered: Seq<bool>,
    listings: Seq<Seq<u32>>,
)
    requires
        w.phase is Diffing,
        is_unseen(w.last_seen, newest(ids)),
        parse_spec(raw) is Ok,
        users.len() == subscribers_of(list).len(),
        delivered.len() == subscribers_of(list).len(),
        forall|i: int| 0 <= i < listings.len() ==> newest(#[trigger] listings[i]) == newest(ids),
    ensures
        sent(w, cycle(ids, raw, list, users, delivered) + rounds(listings)) == attempts(
            parse_spec(raw)->Ok_0,
            w.address,
            users,
            0,
        ),
        run(w, cycle(ids, raw, list, users, delivered) + rounds(listings)) == (WatcherView {
            last_seen: newest(ids),
            phase: PhaseView::Idling,
            ..w
        }),
{
    let forwarding = cycle(ids, raw, list, users, delivered);
    successful_cycle(w, ids, raw, list, users, delivered);
    run_in_two_parts(w, forwarding, rounds(listings));
    no_duplicate_forwarding(run(w, forwarding), listings);
    assert(sent(w, forwarding) + Seq::<OutboundView>::empty() =~= sent(w, forwarding));
}

/// A message that does not parse is never sent. After the bytes of such a
/// message arrive, waking up any number of times to a mailbox whose newest
/// message is still that one sends nothing, and leaves the watcher waiting
/// with its cursor at that message.
pub proof fn skipped_message_is_never_sent(w: WatcherView, raw: Seq<u8>, listings: Seq<Seq<u32>>)
    requires
        w.phase is Fetching,
        parse_spec(raw) is Err,
        forall|i: int| 0 <= i < listings.len() ==> newest(#[trigger] listings[i]) == in_hand(w),
    ensures
        sent(w, seq![EventView::Fetched(raw)] + rounds(listings)) == Seq::<OutboundView>::empty(),
        run(w, seq![EventView::Fetched(raw)] + rounds(listings)) == (WatcherView {
            last_seen: in_hand(w),
            phase: PhaseView::Idling,
            ..w
        }),
{
    let arrival = seq![EventView::Fetched(raw)];
    let skipped = next_step(w, arrival[0]);
    assert(arrival.drop_first() =~= Seq::<EventView>::empty());
    assert(run(w, arrival) == run(skipped.watcher, arrival.drop_first()));
    assert(sent(w, arrival) == sent(skipped.watcher, arrival.drop_first()));
    run_in_two_parts(w, arrival, rounds(listings));
    no_duplicate_forwarding(skipped.watcher, listings);
    assert(sent(w, arrival) + Seq::<OutboundView>::empty() =~= sent(w, arrival));
}

} // verus!
