//! What each reader of the hub is handed: on its way in, while it reads, and on
//! its way out.
use crate::bootstrap::{after_runtime, as_list, bootstrapped_text, global_of, total_size};
use crate::event_laws::is_of_kind;
use crate::events::{event_position, global_text, text_owner};
use crate::hub::{
    all_let_go, all_session_published, emptied, ensured, finished, globally_published, hub_info,
    hub_read, initial_events, initial_global_events, lets_in, next_for, observer_cancelled,
    observer_ended, observer_readied, observing, ordinarily_published, role_of, runtime_published,
    sent_to, session_published, session_text, shut_down, subscribed, subscribed_globally,
    unsubscribed, widely_published, HubModel, NextModel,
};
use crate::hub_laws::law_slow_reader_holds_up_nobody;
use crate::json::{json_of_text, text_of_json, JsonModel};
use crate::projection::{projected, snapshot_event, RuntimeEventModel};
use crate::subscribers::{
    all_fit, delivered, fits, observed, observer_at, offered_all, reader_at, reception,
    ObserverModel, Reception, SubscriberModel,
};
use vstd::prelude::*;
use vstd::utf8::*;

verus! {

/// Whether a list has no reader of a number.
pub open spec fn lacks_reader(list: Seq<SubscriberModel>, id: u64) -> bool {
    forall|i: int| 0 <= i < list.len() ==> (#[trigger] list[i]).id != id
}

/// Whether a list has no observer of a number.
pub open spec fn lacks_observer(list: Seq<ObserverModel>, id: u64) -> bool {
    forall|i: int| 0 <= i < list.len() ==> (#[trigger] list[i]).id != id
}

/// Whether a list has one reader of a number, at a place.
pub open spec fn has_reader(list: Seq<SubscriberModel>, id: u64, at: int) -> bool {
    0 <= at < list.len() && forall|i: int|
        0 <= i < list.len() ==> ((#[trigger] list[i]).id == id <==> i == at)
}

/// Whether a list has one observer of a number, at a place.
pub open spec fn has_observer(list: Seq<ObserverModel>, id: u64, at: int) -> bool {
    0 <= at < list.len() && forall|i: int|
        0 <= i < list.len() ==> ((#[trigger] list[i]).id == id <==> i == at)
}

proof fn lemma_lacks_reader(list: Seq<SubscriberModel>, id: u64)
    requires
        lacks_reader(list, id),
    ensures
        reader_at(list, id) == -1,
    decreases list.len(),
{
    if list.len() > 0 {
        let rest = list.drop_last();
        assert forall|i: int| 0 <= i < rest.len() implies (#[trigger] rest[i]).id != id by {
            assert(rest[i] == list[i]);
        }
        assert(list[list.len() - 1].id != id);
        lemma_lacks_reader(rest, id);
    }
}

proof fn lemma_has_reader(list: Seq<SubscriberModel>, id: u64, at: int)
    requires
        has_reader(list, id, at),
    ensures
        reader_at(list, id) == at,
    decreases list.len(),
{
    assert((list[list.len() - 1].id == id) <==> list.len() - 1 == at);
    if at < list.len() - 1 {
        let rest = list.drop_last();
        assert forall|i: int| 0 <= i < rest.len() implies ((#[trigger] rest[i]).id == id <==> i
            == at) by {
            assert(rest[i] == list[i]);
        }
        lemma_has_reader(rest, id, at);
    }
}

proof fn lemma_lacks_observer(list: Seq<ObserverModel>, id: u64)
    requires
        lacks_observer(list, id),
    ensures
        observer_at(list, id) == -1,
    decreases list.len(),
{
    if list.len() > 0 {
        let rest = list.drop_last();
        assert forall|i: int| 0 <= i < rest.len() implies (#[trigger] rest[i]).id != id by {
            assert(rest[i] == list[i]);
        }
        assert(list[list.len() - 1].id != id);
        lemma_lacks_observer(rest, id);
    }
}

proof fn lemma_has_observer(list: Seq<ObserverModel>, id: u64, at: int)
    requires
        has_observer(list, id, at),
    ensures
        observer_at(list, id) == at,
    decreases list.len(),
{
    assert((list[list.len() - 1].id == id) <==> list.len() - 1 == at);
    if at < list.len() - 1 {
        let rest = list.drop_last();
        assert forall|i: int| 0 <= i < rest.len() implies ((#[trigger] rest[i]).id == id <==> i
            == at) by {
            assert(rest[i] == list[i]);
        }
        lemma_has_observer(rest, id, at);
    }
}

/// Whether two hubs know the same of the connection.
pub open spec fn same_connection(a: HubModel, b: HubModel) -> bool {
    &&& a.generation == b.generation
    &&& a.connected == b.connected
    &&& a.shutting_down == b.shutting_down
    &&& a.bootstrap == b.bootstrap
    &&& a.canonical == b.canonical
    &&& a.canonical_resync_pending == b.canonical_resync_pending
}

/// A reader is let in as long as the connection stands, the hub does not shut
/// down and there are fewer than sixty-four readers. It gets the next number and
/// an empty queue, in the list that it asked for; nobody else is touched. An
/// observer waits for its place to be fixed and is not cancelled.
pub proof fn law_reader_is_let_in(hub: HubModel, session_id: Seq<char>, leased: bool)
    requires
        lacks_reader(hub.subscribers, hub.next_subscriber_id),
        lacks_reader(hub.global_subscribers, hub.next_subscriber_id),
        lacks_observer(hub.session_subscribers, hub.next_subscriber_id),
        hub.next_subscriber_id < u64::MAX,
    ensures
        ({
            let id = hub.next_subscriber_id;
            let wide = subscribed(hub);
            let global = subscribed_globally(hub);
            let observer = observing(hub, session_id, leased);
            &&& lets_in(hub) <==> !hub.shutting_down && hub.connected && hub.subscribers.len()
                + hub.global_subscribers.len() + hub.session_subscribers.len() < 64
            &&& wide.next_subscriber_id == id + 1 && global.next_subscriber_id == id + 1
                && observer.next_subscriber_id == id + 1
            &&& same_connection(wide, hub) && same_connection(global, hub) && same_connection(
                observer,
                hub,
            )
            &&& wide.global_subscribers == hub.global_subscribers && wide.session_subscribers
                == hub.session_subscribers && wide.draining == hub.draining
            &&& global.subscribers == hub.subscribers && global.session_subscribers
                == hub.session_subscribers && global.draining == hub.draining
            &&& observer.subscribers == hub.subscribers && observer.global_subscribers
                == hub.global_subscribers && observer.draining == hub.draining
            &&& !lets_in(hub) ==> wide.subscribers == hub.subscribers && global.global_subscribers
                == hub.global_subscribers && observer.session_subscribers
                == hub.session_subscribers
            &&& lets_in(hub) ==> {
                &&& wide.subscribers.drop_last() == hub.subscribers
                &&& wide.subscribers.last().id == id && wide.subscribers.last().queue.len() == 0
                &&& global.global_subscribers.drop_last() == hub.global_subscribers
                &&& global.global_subscribers.last().id == id
                    && global.global_subscribers.last().queue.len() == 0
                &&& observer.session_subscribers.drop_last() == hub.session_subscribers
                &&& observer.session_subscribers.last().id == id
                    && observer.session_subscribers.last().queue.len() == 0
                &&& observer.session_subscribers.last().session_id == session_id
                &&& observer.session_subscribers.last().leased == leased
                &&& !observer.session_subscribers.last().cancelled
                &&& observer.session_subscribers.last().owner is None
            }
        }),
{
    let id = hub.next_subscriber_id;
    lemma_lacks_reader(hub.subscribers, id);
    lemma_lacks_reader(hub.global_subscribers, id);
    lemma_lacks_observer(hub.session_subscribers, id);
    if lets_in(hub) {
        assert(subscribed(hub).subscribers.drop_last() =~= hub.subscribers);
        assert(subscribed_globally(hub).global_subscribers.drop_last() =~= hub.global_subscribers);
        assert(observing(hub, session_id, leased).session_subscribers.drop_last()
            =~= hub.session_subscribers);
    }
}

/// What is there, as a list of at most one.
pub open spec fn one(text: Option<Seq<char>>) -> nat {
    if text is Some {
        1
    } else {
        0
    }
}

/// A new reader is first told who the connection is, then the state of all
/// sessions, then what is replayed to it, then what the Agent can do, an error
/// only where it ended the connection, and last the phase.
pub proof fn law_new_reader_is_told_in_order(hub: HubModel, replay: Seq<Seq<char>>)
    ensures
        ({
            let told = initial_events(hub, replay);
            let hello = one(hub.bootstrap.hello) as int;
            let state = hello + if hub.canonical is Some {
                1int
            } else {
                0int
            };
            let replayed = state + replay.len();
            let initialized = replayed + one(hub.bootstrap.initialized);
            let error = if hub.bootstrap.terminal_error {
                hub.bootstrap.error
            } else {
                None
            };
            let failed = initialized + one(error);
            &&& told.len() == failed + one(hub.bootstrap.phase)
            &&& hub.bootstrap.hello matches Some(text) ==> told[0] == text
            &&& hub.canonical matches Some(snapshot) ==> told[hello] == text_of_json(
                snapshot_event(snapshot),
            )
            &&& told.subrange(state, replayed) == replay
            &&& hub.bootstrap.initialized matches Some(text) ==> told[replayed] == text
            &&& error matches Some(text) ==> told[initialized] == text
            &&& hub.bootstrap.phase matches Some(text) ==> told[failed] == text
        }),
{
    let told = initial_events(hub, replay);
    let hello = one(hub.bootstrap.hello) as int;
    let state = hello + if hub.canonical is Some {
        1int
    } else {
        0int
    };
    assert(told.subrange(state, state + replay.len()) =~= replay);
}

/// What global readers are handed of an event that is known or not.
pub open spec fn handed(text: Option<Seq<char>>) -> Option<Seq<char>> {
    match text {
        Some(text) => global_text(text),
        None => None,
    }
}

proof fn lemma_handed_in_order(a: Seq<Seq<char>>, b: Seq<Seq<char>>)
    ensures
        global_of(a + b) == global_of(a) + global_of(b),
    decreases b.len(),
{
    if b.len() == 0 {
        assert(a + b =~= a);
        assert(global_of(a) + global_of(b) =~= global_of(a));
    } else {
        assert((a + b).drop_last() =~= a + b.drop_last());
        lemma_handed_in_order(a, b.drop_last());
        assert(global_of(a + b) =~= global_of(a) + global_of(b));
    }
}

proof fn lemma_handed_of_one(text: Option<Seq<char>>)
    ensures
        global_of(as_list(text)) == as_list(handed(text)),
{
    let events = as_list(text);
    if text is Some {
        assert(events.drop_last() =~= Seq::empty());
        assert(global_of(events.drop_last()) =~= Seq::empty());
        assert(global_of(events) =~= as_list(handed(text)));
    }
}

/// A new global reader is first told of the logins, then what such readers are handed
/// of what the Agent can do, of an error only where it ended the connection, and last
/// of the phase.
pub proof fn law_new_global_reader_is_told_in_order(hub: HubModel)
    ensures
        ({
            let told = initial_global_events(hub);
            let logins = hub.bootstrap.auth_events.len() as int;
            let initialized = handed(hub.bootstrap.initialized);
            let error = if hub.bootstrap.terminal_error {
                handed(hub.bootstrap.error)
            } else {
                None
            };
            let phase = handed(hub.bootstrap.phase);
            let failed = logins + one(initialized);
            let last = failed + one(error);
            &&& told.len() == last + one(phase)
            &&& told.subrange(0, logins) == hub.bootstrap.auth_events
            &&& initialized matches Some(text) ==> told[logins] == text
            &&& error matches Some(text) ==> told[failed] == text
            &&& phase matches Some(text) ==> told[last] == text
        }),
{
    let known = hub.bootstrap;
    let error = if known.terminal_error {
        known.error
    } else {
        None
    };
    let first = as_list(known.initialized);
    let second = as_list(error);
    let third = as_list(known.phase);
    assert(after_runtime(known) =~= first + second + third);
    lemma_handed_in_order(first + second, third);
    lemma_handed_in_order(first, second);
    lemma_handed_of_one(known.initialized);
    lemma_handed_of_one(error);
    lemma_handed_of_one(known.phase);
    let told = initial_global_events(hub);
    assert(told.subrange(0, known.auth_events.len() as int) =~= known.auth_events);
}

/// A connection that is started is a new generation of which nothing is known yet;
/// one that stands, or a hub that shuts down, starts none.
pub proof fn law_new_connection_starts_afresh(hub: HubModel)
    requires
        hub.generation < u64::MAX,
    ensures
        hub.shutting_down || hub.connected ==> ensured(hub) == hub,
        !hub.shutting_down && !hub.connected ==> {
            let next = ensured(hub);
            &&& next.connected && !next.shutting_down
            &&& next.generation == hub.generation + 1
            &&& next.canonical is None && !next.canonical_resync_pending
            &&& next.bootstrap.hello is None && next.bootstrap.initialized is None
                && next.bootstrap.error is None && next.bootstrap.phase is None
                && !next.bootstrap.terminal_error && next.bootstrap.auth_events.len() == 0
            &&& next.subscribers == hub.subscribers && next.global_subscribers
                == hub.global_subscribers && next.session_subscribers == hub.session_subscribers
                && next.draining == hub.draining && next.next_subscriber_id
                == hub.next_subscriber_id
        },
{
}

/// What an event is to the hub, by its kind.
pub proof fn law_event_has_its_role(kind: Option<Seq<char>>)
    ensures
        kind == Some("bridge/internal_observer_ready"@) <==> role_of(kind) is ObserverReady,
        kind == Some("bridge/internal_observer_end"@) <==> role_of(kind) is ObserverEnd,
        kind == Some("bridge/internal_runtime_snapshot"@) || kind == Some(
            "bridge/internal_runtime_delta"@,
        ) <==> role_of(kind) is Runtime,
        kind == Some("bridge/internal_direct"@) <==> role_of(kind) is Direct,
{
    reveal_strlit("bridge/internal_observer_ready");
    reveal_strlit("bridge/internal_observer_end");
    reveal_strlit("bridge/internal_runtime_snapshot");
    reveal_strlit("bridge/internal_runtime_delta");
    reveal_strlit("bridge/internal_direct");
    assert("bridge/internal_observer_ready"@.len() == 30);
    assert("bridge/internal_observer_end"@.len() == 28);
    assert("bridge/internal_runtime_snapshot"@.len() == 32);
    assert("bridge/internal_runtime_delta"@.len() == 29);
    assert("bridge/internal_direct"@.len() == 22);
}

proof fn lemma_let_go_leaves(hub: HubModel, list: Seq<ObserverModel>)
    ensures
        ({
            let next = all_let_go(hub, list);
            &&& next.subscribers == hub.subscribers
            &&& next.global_subscribers == hub.global_subscribers
            &&& next.session_subscribers == hub.session_subscribers
            &&& next.next_subscriber_id == hub.next_subscriber_id
            &&& same_connection(next, hub)
        }),
    decreases list.len(),
{
    if list.len() > 0 {
        lemma_let_go_leaves(hub, list.drop_last());
    }
}

proof fn lemma_session_published_leaves(hub: HubModel, event: Seq<char>)
    ensures
        ({
            let next = session_published(hub, event);
            &&& next.subscribers == hub.subscribers
            &&& next.global_subscribers == hub.global_subscribers
            &&& same_connection(next, hub)
        }),
{
    if let Some((session_id, text)) = session_text(event) {
        let outcome = observed(hub.session_subscribers, session_id, text, text_owner(text));
        lemma_let_go_leaves(HubModel { session_subscribers: outcome.kept, ..hub }, outcome.lost);
    }
}

proof fn lemma_all_session_published_leaves(hub: HubModel, events: Seq<Seq<char>>)
    ensures
        ({
            let next = all_session_published(hub, events);
            &&& next.subscribers == hub.subscribers
            &&& next.global_subscribers == hub.global_subscribers
            &&& same_connection(next, hub)
        }),
    decreases events.len(),
{
    if events.len() > 0 {
        lemma_all_session_published_leaves(hub, events.drop_last());
        lemma_session_published_leaves(
            all_session_published(hub, events.drop_last()),
            events.last(),
        );
    }
}

/// An ordinary event reaches every reader of all events whose queue has room, at
/// the end of its queue, followed by what was learned with it; and every reader of
/// the connection is handed what the event says of the connection. What is known
/// of the connection is noted.
pub proof fn law_ordinary_event_reaches_the_readers(
    hub: HubModel,
    event: Seq<char>,
    normal: Seq<char>,
    suffix: Seq<Seq<char>>,
    at: int,
)
    ensures
        ({
            let next = ordinarily_published(hub, event, normal, suffix);
            &&& next.bootstrap == bootstrapped_text(hub.bootstrap, event)
            &&& next.canonical == hub.canonical
            &&& 0 <= at < hub.subscribers.len() && all_fit(
                hub.subscribers[at].queue,
                seq![normal] + suffix,
            ) ==> next.subscribers.contains(
                SubscriberModel {
                    id: hub.subscribers[at].id,
                    queue: hub.subscribers[at].queue + (seq![normal] + suffix),
                },
            )
            &&& global_text(normal) is None ==> next.global_subscribers == hub.global_subscribers
            &&& global_text(normal) matches Some(text) ==> (0 <= at < hub.global_subscribers.len()
                && fits(hub.global_subscribers[at].queue, text)
                    ==> next.global_subscribers.contains(
                SubscriberModel {
                    id: hub.global_subscribers[at].id,
                    queue: hub.global_subscribers[at].queue.push(text),
                },
            ))
        }),
{
    let known = HubModel { bootstrap: bootstrapped_text(hub.bootstrap, event), ..hub };
    let wide = widely_published(known, seq![normal] + suffix);
    let global = globally_published(wide, normal);
    let session = session_published(global, normal);
    lemma_session_published_leaves(global, normal);
    lemma_all_session_published_leaves(session, suffix);
    if 0 <= at < hub.subscribers.len() {
        law_slow_reader_holds_up_nobody(hub.subscribers, seq![normal] + suffix, at);
    }
    if let Some(text) = global_text(normal) {
        if 0 <= at < hub.global_subscribers.len() {
            let queue = hub.global_subscribers[at].queue;
            lemma_one_fits(queue, text);
            law_slow_reader_holds_up_nobody(hub.global_subscribers, seq![text], at);
            assert(queue + seq![text] =~= queue.push(text));
        }
    }
}

proof fn lemma_one_fits(queue: Seq<Seq<char>>, event: Seq<char>)
    ensures
        all_fit(queue, seq![event]) == fits(queue, event),
{
    let one = seq![event];
    assert(one.drop_last().len() == 0);
    assert(all_fit(queue, one.drop_last()));
    assert(offered_all(queue, one.drop_last()) == queue);
    assert(one.last() == event);
}

/// A queue has room for an event where it holds fewer than sixty-four and they and
/// the event have no more than eight mebibytes.
pub proof fn law_queue_has_room(queue: Seq<Seq<char>>, event: Seq<char>)
    ensures
        fits(queue, event) <==> queue.len() < 64 && total_size(queue) + encode_utf8(event).len()
            <= 8388608,
{
}

/// What an observer gets of an event of its session: one whose place is fixed in
/// that very history, or who needs none, gets it where its queue has room; one
/// that waits for its place gets nothing yet; one that was cancelled, is in
/// another history or has no room is let go. Others get nothing.
pub proof fn law_observer_gets_its_events(
    observer: ObserverModel,
    session_id: Seq<char>,
    event: Seq<char>,
    owner: Option<(Seq<char>, u64)>,
)
    ensures
        ({
            let got = reception(observer, session_id, event, owner);
            let cancelled = observer.leased && observer.cancelled;
            let waits = observer.leased && observer.owner is None;
            let foreign = observer.owner is Some && observer.owner != owner;
            &&& observer.session_id != session_id ==> got is Stays
            &&& observer.session_id == session_id && cancelled ==> got is Lost
            &&& observer.session_id == session_id && !cancelled && waits ==> got is Stays
            &&& observer.session_id == session_id && !cancelled && foreign ==> got is Lost
            &&& observer.session_id == session_id && !cancelled && !waits && !foreign ==> if fits(
                observer.queue,
                event,
            ) {
                got is Gets
            } else {
                got is Lost
            }
        }),
{
}

proof fn lemma_observed_gets(
    list: Seq<ObserverModel>,
    session_id: Seq<char>,
    event: Seq<char>,
    owner: Option<(Seq<char>, u64)>,
    at: int,
)
    requires
        0 <= at < list.len(),
    ensures
        reception(list[at], session_id, event, owner) is Gets ==> observed(
            list,
            session_id,
            event,
            owner,
        ).kept.contains(ObserverModel { queue: list[at].queue.push(event), ..list[at] }),
        reception(list[at], session_id, event, owner) is Stays ==> observed(
            list,
            session_id,
            event,
            owner,
        ).kept.contains(list[at]),
        reception(list[at], session_id, event, owner) is Lost ==> observed(
            list,
            session_id,
            event,
            owner,
        ).lost.contains(list[at]),
    decreases list.len(),
{
    broadcast use vstd::seq_lib::group_seq_properties;

    let rest = observed(list.drop_last(), session_id, event, owner);
    let all = observed(list, session_id, event, owner);
    if at < list.len() - 1 {
        lemma_observed_gets(list.drop_last(), session_id, event, owner, at);
        assert(list.drop_last()[at] == list[at]);
        assert forall|x: ObserverModel| rest.kept.contains(x) implies all.kept.contains(x) by {
            let i = choose|i: int| 0 <= i < rest.kept.len() && rest.kept[i] == x;
            assert(all.kept[i] == x);
        }
        assert forall|x: ObserverModel| rest.lost.contains(x) implies all.lost.contains(x) by {
            let i = choose|i: int| 0 <= i < rest.lost.len() && rest.lost[i] == x;
            assert(all.lost[i] == x);
        }
    } else {
        match reception(list[at], session_id, event, owner) {
            Reception::Lost => {
                assert(all.lost.last() == list[at]);
                assert(all.lost[all.lost.len() - 1] == list[at]);
            },
            _ => {
                assert(all.kept[all.kept.len() - 1] == all.kept.last());
            },
        }
    }
}

/// An event of a session reaches its observers: each of them that is to get it has
/// it at the end of its queue, and each that waits stays as it is.
pub proof fn law_session_event_reaches_its_observers(
    hub: HubModel,
    event: Seq<char>,
    session_id: Seq<char>,
    text: Seq<char>,
    at: int,
)
    requires
        session_text(event) == Some((session_id, text)),
        0 <= at < hub.session_subscribers.len(),
    ensures
        ({
            let observer = hub.session_subscribers[at];
            let after = session_published(hub, event).session_subscribers;
            let got = reception(observer, session_id, text, text_owner(text));
            &&& got is Gets ==> after.contains(
                ObserverModel { queue: observer.queue.push(text), ..observer },
            )
            &&& got is Stays ==> after.contains(observer)
        }),
{
    let outcome = observed(hub.session_subscribers, session_id, text, text_owner(text));
    lemma_let_go_leaves(HubModel { session_subscribers: outcome.kept, ..hub }, outcome.lost);
    lemma_observed_gets(hub.session_subscribers, session_id, text, text_owner(text), at);
}

/// An event that is directed to one reader stands at the end of the queue of that
/// reader, where it has room, and nobody else is touched; a reader without room is
/// let go.
pub proof fn law_directed_event_reaches_its_reader(
    hub: HubModel,
    id: u64,
    event: Seq<char>,
    at: int,
)
    requires
        has_reader(hub.subscribers, id, at),
    ensures
        ({
            let next = sent_to(hub, id, event);
            let before = hub.subscribers[at];
            &&& fits(before.queue, event) ==> {
                &&& next.subscribers.len() == hub.subscribers.len()
                &&& next.subscribers[at].id == id
                &&& next.subscribers[at].queue == before.queue.push(event)
                &&& next.draining == hub.draining
                &&& forall|i: int|
                    0 <= i < hub.subscribers.len() && i != at ==> #[trigger] next.subscribers[i]
                        == hub.subscribers[i]
            }
            &&& !fits(before.queue, event) ==> {
                &&& next.subscribers == hub.subscribers.remove(at)
                &&& next.draining == hub.draining.push(before)
            }
            &&& next.global_subscribers == hub.global_subscribers
            &&& next.session_subscribers == hub.session_subscribers
            &&& same_connection(next, hub)
        }),
{
    lemma_has_reader(hub.subscribers, id, at);
}

/// A reader reads its queue from the front, one event at a time, and nobody else
/// is touched. One with an empty queue waits; one that the hub has let go reads
/// what it still has and is then told that it is over; one that nobody knows is
/// told so at once.
pub proof fn law_reader_reads_its_queue_in_order(hub: HubModel, id: u64, at: int)
    requires
        lacks_observer(hub.session_subscribers, id),
    ensures
        has_reader(hub.subscribers, id, at) ==> {
            let queue = hub.subscribers[at].queue;
            let next = hub_read(hub, id);
            &&& queue.len() == 0 ==> next_for(hub, id) is Waiting
            &&& queue.len() > 0 ==> next_for(hub, id) == NextModel::Event(queue[0])
            &&& next.subscribers.len() == hub.subscribers.len()
            &&& queue.len() > 0 ==> next.subscribers[at].queue == queue.drop_first()
            &&& queue.len() == 0 ==> next.subscribers[at].queue == queue
            &&& next.subscribers[at].id == id
            &&& forall|i: int|
                0 <= i < hub.subscribers.len() && i != at ==> #[trigger] next.subscribers[i]
                    == hub.subscribers[i]
            &&& next.global_subscribers == hub.global_subscribers && next.draining == hub.draining
                && next.session_subscribers == hub.session_subscribers
        },
        lacks_reader(hub.subscribers, id) && has_reader(hub.global_subscribers, id, at) ==> {
            let queue = hub.global_subscribers[at].queue;
            let next = hub_read(hub, id);
            &&& queue.len() == 0 ==> next_for(hub, id) is Waiting
            &&& queue.len() > 0 ==> next_for(hub, id) == NextModel::Event(queue[0])
            &&& queue.len() > 0 ==> next.global_subscribers[at].queue == queue.drop_first()
            &&& next.subscribers == hub.subscribers && next.draining == hub.draining
                && next.session_subscribers == hub.session_subscribers
        },
        lacks_reader(hub.subscribers, id) && lacks_reader(hub.global_subscribers, id)
            && has_reader(hub.draining, id, at) ==> {
            let queue = hub.draining[at].queue;
            let next = hub_read(hub, id);
            &&& queue.len() == 0 ==> next_for(hub, id) is Ended
            &&& queue.len() > 0 ==> next_for(hub, id) == NextModel::Event(queue[0])
            &&& queue.len() > 0 ==> next.draining[at].queue == queue.drop_first()
            &&& next.subscribers == hub.subscribers && next.global_subscribers
                == hub.global_subscribers && next.session_subscribers == hub.session_subscribers
        },
        lacks_reader(hub.subscribers, id) && lacks_reader(hub.global_subscribers, id)
            && lacks_reader(hub.draining, id) ==> next_for(hub, id) is Ended && hub_read(hub, id)
            == hub,
{
    lemma_lacks_observer(hub.session_subscribers, id);
    if has_reader(hub.subscribers, id, at) {
        lemma_has_reader(hub.subscribers, id, at);
    }
    if lacks_reader(hub.subscribers, id) {
        lemma_lacks_reader(hub.subscribers, id);
        if has_reader(hub.global_subscribers, id, at) {
            lemma_has_reader(hub.global_subscribers, id, at);
        }
        if lacks_reader(hub.global_subscribers, id) {
            lemma_lacks_reader(hub.global_subscribers, id);
            if has_reader(hub.draining, id, at) {
                lemma_has_reader(hub.draining, id, at);
            }
            if lacks_reader(hub.draining, id) {
                lemma_lacks_reader(hub.draining, id);
            }
        }
    }
}

/// An observer reads its queue from the front, one event at a time; one whose lease
/// was cancelled is told that it is over.
pub proof fn law_observer_reads_its_queue_in_order(hub: HubModel, id: u64, at: int)
    requires
        has_observer(hub.session_subscribers, id, at),
    ensures
        ({
            let observer = hub.session_subscribers[at];
            let next = hub_read(hub, id);
            let cancelled = observer.leased && observer.cancelled;
            &&& cancelled ==> next_for(hub, id) is Ended && next == hub
            &&& !cancelled && observer.queue.len() == 0 ==> next_for(hub, id) is Waiting
            &&& !cancelled && observer.queue.len() > 0 ==> {
                &&& next_for(hub, id) == NextModel::Event(observer.queue[0])
                &&& next.session_subscribers[at] == (ObserverModel {
                    queue: observer.queue.drop_first(),
                    ..observer
                })
                &&& next.session_subscribers.len() == hub.session_subscribers.len()
                &&& forall|i: int|
                    0 <= i < hub.session_subscribers.len() && i != at
                        ==> #[trigger] next.session_subscribers[i] == hub.session_subscribers[i]
            }
            &&& next.subscribers == hub.subscribers && next.global_subscribers
                == hub.global_subscribers && next.draining == hub.draining
        }),
{
    lemma_has_observer(hub.session_subscribers, id, at);
}

/// The place of an observer that holds a lease is fixed by the reset of its own
/// session that is meant for it, as long as the reset is of the epoch that the hub
/// knows and the queue has room: the reset is the next thing that it reads. In any
/// other case it is let go.
pub proof fn law_observer_gets_its_place(hub: HubModel, marker: JsonModel, id: u64, at: int)
    requires
        has_observer(hub.session_subscribers, id, at),
        marker.get("observerId"@) == Some(JsonModel::Integer(id as int)),
        hub.session_subscribers[at].owner is None,
    ensures
        ({
            let observer = hub.session_subscribers[at];
            let reset = marker.get("reset"@)->0;
            let next = observer_readied(hub, marker);
            let fixed = observer.leased && !observer.cancelled && marker.get("sessionId"@) == Some(
                JsonModel::String(observer.session_id),
            ) && marker.get("reset"@) is Some && is_of_kind(reset, "bridge/session_reset"@)
                && reset.get("sessionId"@) == Some(JsonModel::String(observer.session_id))
                && event_position(reset) is Some && (hub.canonical matches Some(snapshot)
                ==> snapshot.epoch == event_position(reset)->0.epoch) && fits(
                observer.queue,
                text_of_json(reset),
            );
            &&& fixed ==> {
                let after = next.session_subscribers[at];
                let place = event_position(reset)->0;
                &&& next.session_subscribers.len() == hub.session_subscribers.len()
                &&& after.queue == observer.queue.push(text_of_json(reset))
                &&& after.owner == Some((place.epoch, place.incarnation))
                &&& after.id == id && after.session_id == observer.session_id && after.leased
                    && !after.cancelled
                &&& forall|i: int|
                    0 <= i < hub.session_subscribers.len() && i != at
                        ==> #[trigger] next.session_subscribers[i] == hub.session_subscribers[i]
            }
            &&& !fixed ==> next.session_subscribers == hub.session_subscribers.remove(at)
                && if observer.leased {
                next.unobserved == hub.unobserved.push((observer.session_id, id))
                    && next.draining == hub.draining
            } else {
                next.unobserved == hub.unobserved && next.draining == hub.draining.push(
                    SubscriberModel { id, queue: observer.queue },
                )
            }
            &&& next.subscribers == hub.subscribers && next.global_subscribers
                == hub.global_subscribers && same_connection(next, hub)
        }),
{
    lemma_has_observer(hub.session_subscribers, id, at);
}

/// An observer is ended by the mark of its own session and its own history, and by
/// no other; what is in its queue is still read.
pub proof fn law_observer_is_ended_by_its_mark(hub: HubModel, marker: JsonModel, id: u64, at: int)
    requires
        has_observer(hub.session_subscribers, id, at),
        marker.get("observerId"@) == Some(JsonModel::Integer(id as int)),
    ensures
        ({
            let observer = hub.session_subscribers[at];
            let next = observer_ended(hub, marker);
            let meant = marker.get("sessionId"@) == Some(JsonModel::String(observer.session_id))
                && (
            observer.owner matches Some((epoch, incarnation)) && marker.get("bridgeEpoch"@)
                == Some(JsonModel::String(epoch)) && marker.get("sessionIncarnation"@) == Some(
                JsonModel::Integer(incarnation as int),
            ));
            &&& !meant ==> next == hub
            &&& meant ==> {
                &&& next.session_subscribers == hub.session_subscribers.remove(at)
                &&& next.draining == hub.draining.push(
                    SubscriberModel { id, queue: observer.queue },
                )
                &&& next.unobserved == hub.unobserved
                &&& next.subscribers == hub.subscribers
                &&& next.global_subscribers == hub.global_subscribers
            }
        }),
{
    lemma_has_observer(hub.session_subscribers, id, at);
}

/// A reader that leaves is gone from its list, whatever it had not read yet, and
/// nobody else is touched; the end of an observation under a lease is noted. In
/// another generation only what was left to read is dropped.
pub proof fn law_leaving_reader_is_gone(hub: HubModel, id: u64, generation: u64, at: int)
    requires
        lacks_reader(hub.draining, id),
    ensures
        ({
            let next = unsubscribed(hub, id, generation);
            &&& generation != hub.generation ==> next == hub
            &&& generation == hub.generation && has_reader(hub.subscribers, id, at) && lacks_reader(
                hub.global_subscribers,
                id,
            ) && lacks_observer(hub.session_subscribers, id) ==> {
                &&& next.subscribers == hub.subscribers.remove(at)
                &&& next.global_subscribers == hub.global_subscribers
                &&& next.session_subscribers == hub.session_subscribers
                &&& next.unobserved == hub.unobserved
            }
            &&& generation == hub.generation && has_reader(hub.global_subscribers, id, at)
                && lacks_reader(hub.subscribers, id) && lacks_observer(
                hub.session_subscribers,
                id,
            ) ==> {
                &&& next.global_subscribers == hub.global_subscribers.remove(at)
                &&& next.subscribers == hub.subscribers
                &&& next.session_subscribers == hub.session_subscribers
                &&& next.unobserved == hub.unobserved
            }
            &&& generation == hub.generation && has_observer(hub.session_subscribers, id, at)
                && lacks_reader(hub.subscribers, id) && lacks_reader(hub.global_subscribers, id)
                ==> {
                let observer = hub.session_subscribers[at];
                &&& next.session_subscribers == hub.session_subscribers.remove(at)
                &&& next.subscribers == hub.subscribers
                &&& next.global_subscribers == hub.global_subscribers
                &&& next.unobserved == (if observer.leased {
                    hub.unobserved.push((observer.session_id, id))
                } else {
                    hub.unobserved
                })
            }
            &&& same_connection(next, hub)
        }),
{
    lemma_lacks_reader(hub.draining, id);
    if has_reader(hub.subscribers, id, at) {
        lemma_has_reader(hub.subscribers, id, at);
    }
    if has_reader(hub.global_subscribers, id, at) {
        lemma_has_reader(hub.global_subscribers, id, at);
    }
    if has_observer(hub.session_subscribers, id, at) {
        lemma_has_observer(hub.session_subscribers, id, at);
    }
    if lacks_reader(hub.subscribers, id) {
        lemma_lacks_reader(hub.subscribers, id);
    }
    if lacks_reader(hub.global_subscribers, id) {
        lemma_lacks_reader(hub.global_subscribers, id);
    }
    if lacks_observer(hub.session_subscribers, id) {
        lemma_lacks_observer(hub.session_subscribers, id);
    }
}

/// A cancelled observation is marked as cancelled, and nothing else changes.
pub proof fn law_cancelled_observer_is_marked(hub: HubModel, id: u64, at: int)
    ensures
        lacks_observer(hub.session_subscribers, id) ==> observer_cancelled(hub, id) == hub,
        has_observer(hub.session_subscribers, id, at) ==> {
            let next = observer_cancelled(hub, id);
            let before = hub.session_subscribers[at];
            &&& next.session_subscribers.len() == hub.session_subscribers.len()
            &&& next.session_subscribers[at] == (ObserverModel { cancelled: true, ..before })
            &&& forall|i: int|
                0 <= i < hub.session_subscribers.len() && i != at
                    ==> #[trigger] next.session_subscribers[i] == hub.session_subscribers[i]
            &&& next.subscribers == hub.subscribers && next.global_subscribers
                == hub.global_subscribers && next.draining == hub.draining && next.unobserved
                == hub.unobserved
        },
{
    if lacks_observer(hub.session_subscribers, id) {
        lemma_lacks_observer(hub.session_subscribers, id);
    }
    if has_observer(hub.session_subscribers, id, at) {
        lemma_has_observer(hub.session_subscribers, id, at);
    }
}

proof fn lemma_let_go_keeps_queues(hub: HubModel, list: Seq<ObserverModel>, at: int)
    requires
        0 <= at < list.len(),
    ensures
        ({
            let next = all_let_go(hub, list);
            &&& list[at].leased ==> next.unobserved.contains((list[at].session_id, list[at].id))
            &&& !list[at].leased ==> next.draining.contains(
                SubscriberModel { id: list[at].id, queue: list[at].queue },
            )
        }),
    decreases list.len(),
{
    let before = all_let_go(hub, list.drop_last());
    let next = all_let_go(hub, list);
    if at < list.len() - 1 {
        lemma_let_go_keeps_queues(hub, list.drop_last(), at);
        assert(list.drop_last()[at] == list[at]);
        if list[at].leased {
            let x = (list[at].session_id, list[at].id);
            let i = choose|i: int| 0 <= i < before.unobserved.len() && before.unobserved[i] == x;
            assert(next.unobserved[i] == x);
        } else {
            let x = SubscriberModel { id: list[at].id, queue: list[at].queue };
            let i = choose|i: int| 0 <= i < before.draining.len() && before.draining[i] == x;
            assert(next.draining[i] == x);
        }
    } else if list[at].leased {
        assert(next.unobserved[next.unobserved.len() - 1] == (list[at].session_id, list[at].id));
    } else {
        assert(next.draining[next.draining.len() - 1] == (SubscriberModel {
            id: list[at].id,
            queue: list[at].queue,
        }));
    }
}

proof fn lemma_let_go_only_adds(hub: HubModel, list: Seq<ObserverModel>)
    ensures
        hub.draining.len() <= all_let_go(hub, list).draining.len(),
        all_let_go(hub, list).draining.take(hub.draining.len() as int) =~= hub.draining,
    decreases list.len(),
{
    if list.len() > 0 {
        lemma_let_go_only_adds(hub, list.drop_last());
        let before = all_let_go(hub, list.drop_last());
        let next = all_let_go(hub, list);
        assert(next.draining.take(hub.draining.len() as int) =~= before.draining.take(
            hub.draining.len() as int,
        ));
    }
}

/// When the connection ends, or the hub shuts down, all readers are let go: each
/// may still read what is in its queue, and the end of every observation under a
/// lease is noted. The end of another generation changes nothing.
pub proof fn law_all_readers_are_let_go(hub: HubModel, generation: u64, at: int)
    ensures
        ({
            let ended = finished(hub, generation);
            let shut = shut_down(hub);
            &&& generation != hub.generation ==> ended == hub
            &&& generation == hub.generation ==> !ended.connected && ended.shutting_down
                == hub.shutting_down && is_let_go(hub, ended, at)
            &&& shut.shutting_down && shut.connected == hub.connected && is_let_go(hub, shut, at)
        }),
{
    lemma_emptied_lets_go(HubModel { connected: false, ..hub }, at);
    lemma_emptied_lets_go(HubModel { shutting_down: true, ..hub }, at);
}

/// Whether all readers of a hub have been let go, each with what it had not read.
pub open spec fn is_let_go(hub: HubModel, next: HubModel, at: int) -> bool {
    &&& next.subscribers.len() == 0
    &&& next.global_subscribers.len() == 0
    &&& next.session_subscribers.len() == 0
    &&& 0 <= at < hub.subscribers.len() ==> next.draining.contains(hub.subscribers[at])
    &&& 0 <= at < hub.global_subscribers.len() ==> next.draining.contains(
        hub.global_subscribers[at],
    )
    &&& 0 <= at < hub.session_subscribers.len() ==> {
        let observer = hub.session_subscribers[at];
        &&& observer.leased ==> next.unobserved.contains((observer.session_id, observer.id))
        &&& !observer.leased ==> next.draining.contains(
            SubscriberModel { id: observer.id, queue: observer.queue },
        )
    }
    &&& next.generation == hub.generation
    &&& next.bootstrap == hub.bootstrap
    &&& next.canonical == hub.canonical
}

proof fn lemma_emptied_lets_go(hub: HubModel, at: int)
    ensures
        is_let_go(hub, emptied(hub), at),
        emptied(hub).connected == hub.connected,
        emptied(hub).shutting_down == hub.shutting_down,
{
    let bare = HubModel {
        subscribers: Seq::empty(),
        global_subscribers: Seq::empty(),
        session_subscribers: Seq::empty(),
        draining: hub.draining + hub.subscribers + hub.global_subscribers,
        ..hub
    };
    let next = emptied(hub);
    lemma_let_go_leaves(bare, hub.session_subscribers);
    lemma_let_go_only_adds(bare, hub.session_subscribers);
    let before = next.draining.take(bare.draining.len() as int);
    if 0 <= at < hub.subscribers.len() {
        let i = hub.draining.len() + at;
        assert(bare.draining[i] == hub.subscribers[at]);
        assert(before[i] == next.draining[i]);
    }
    if 0 <= at < hub.global_subscribers.len() {
        let i = hub.draining.len() + hub.subscribers.len() + at;
        assert(bare.draining[i] == hub.global_subscribers[at]);
        assert(before[i] == next.draining[i]);
    }
    if 0 <= at < hub.session_subscribers.len() {
        lemma_let_go_keeps_queues(bare, hub.session_subscribers, at);
    }
}

/// A state or a change of the sessions is taken into what the hub knows; what may
/// be told of it reaches every reader of all events whose queue has room.
pub proof fn law_runtime_event_reaches_the_readers(
    hub: HubModel,
    event: RuntimeEventModel,
    at: int,
)
    ensures
        ({
            let outcome = projected(hub.canonical, event);
            let next = runtime_published(hub, event);
            &&& next.canonical == outcome.projection
            &&& next.bootstrap == hub.bootstrap
            &&& next.global_subscribers == hub.global_subscribers
            &&& outcome.public_event is None ==> next.subscribers == hub.subscribers
            &&& outcome.public_event matches Some(text) ==> (0 <= at < hub.subscribers.len()
                && fits(hub.subscribers[at].queue, text) ==> next.subscribers.contains(
                SubscriberModel {
                    id: hub.subscribers[at].id,
                    queue: hub.subscribers[at].queue.push(text),
                },
            ))
        }),
{
    let outcome = projected(hub.canonical, event);
    let known = HubModel {
        canonical: outcome.projection,
        canonical_resync_pending: hub.canonical_resync_pending && outcome.projection is None,
        ..hub
    };
    if let Some(text) = outcome.public_event {
        lemma_session_published_leaves(widely_published(known, seq![text]), text);
        if 0 <= at < hub.subscribers.len() {
            let queue = hub.subscribers[at].queue;
            lemma_one_fits(queue, text);
            law_slow_reader_holds_up_nobody(hub.subscribers, seq![text], at);
            assert(queue + seq![text] =~= queue.push(text));
        }
    }
}

/// What is told of the hub: its generation, whether the connection stands, the
/// epoch of the sessions, and as they came the last events that told who the
/// connection is, what it can do, its phase and its error.
pub proof fn law_hub_tells_of_itself(hub: HubModel)
    ensures
        ({
            let info = hub_info(hub);
            &&& info.get("generation"@) == Some(JsonModel::Integer(hub.generation as int))
            &&& info.get("connected"@) == Some(JsonModel::Bool(hub.connected))
            &&& hub.canonical is None ==> info.get("bridgeEpoch"@) == Some(JsonModel::Null)
            &&& hub.canonical matches Some(snapshot) ==> info.get("bridgeEpoch"@) == Some(
                JsonModel::String(snapshot.epoch),
            )
            &&& tells_event(info.get("hello"@), hub.bootstrap.hello)
            &&& tells_event(info.get("initialized"@), hub.bootstrap.initialized)
            &&& tells_event(info.get("phase"@), hub.bootstrap.phase)
            &&& tells_event(info.get("error"@), hub.bootstrap.error)
        }),
{
    reveal_strlit("generation");
    reveal_strlit("bridgeEpoch");
    reveal_strlit("connected");
    reveal_strlit("hello");
    reveal_strlit("initialized");
    reveal_strlit("phase");
    reveal_strlit("error");
    assert("generation"@.len() == 10);
    assert("bridgeEpoch"@.len() == 11);
    assert("connected"@.len() == 9);
    assert("hello"@.len() == 5);
    assert("initialized"@.len() == 11);
    assert("phase"@.len() == 5);
    assert("error"@.len() == 5);
    assert("bridgeEpoch"@[0] == 'b');
    assert("initialized"@[0] == 'i');
    assert("hello"@[0] == 'h');
    assert("phase"@[0] == 'p');
    assert("error"@[0] == 'e');
}

/// Whether a value is an event that was noted, as it reads, or null.
pub open spec fn tells_event(value: Option<JsonModel>, noted: Option<Seq<char>>) -> bool {
    match noted {
        None => value == Some(JsonModel::Null),
        Some(text) => json_of_text(text) matches Some(event) ==> value == Some(event),
    }
}

/// Whether nobody who still reads its queue was forgotten.
pub open spec fn keeps_draining(before: HubModel, after: HubModel) -> bool {
    forall|i: int|
        0 <= i < before.draining.len() ==> after.draining.contains(#[trigger] before.draining[i])
}

proof fn lemma_session_keeps_draining(hub: HubModel, event: Seq<char>)
    ensures
        keeps_draining(hub, session_published(hub, event)),
{
    let next = session_published(hub, event);
    if let Some((session_id, text)) = session_text(event) {
        let outcome = observed(hub.session_subscribers, session_id, text, text_owner(text));
        let bare = HubModel { session_subscribers: outcome.kept, ..hub };
        lemma_let_go_only_adds(bare, outcome.lost);
        assert forall|i: int| 0 <= i < hub.draining.len() implies next.draining.contains(
            #[trigger] hub.draining[i],
        ) by {
            assert(next.draining.take(hub.draining.len() as int)[i] == next.draining[i]);
        }
    }
}

proof fn lemma_sessions_keep_draining(hub: HubModel, events: Seq<Seq<char>>)
    ensures
        keeps_draining(hub, all_session_published(hub, events)),
    decreases events.len(),
{
    if events.len() > 0 {
        let before = all_session_published(hub, events.drop_last());
        lemma_sessions_keep_draining(hub, events.drop_last());
        lemma_session_keeps_draining(before, events.last());
        let next = all_session_published(hub, events);
        assert forall|i: int| 0 <= i < hub.draining.len() implies next.draining.contains(
            #[trigger] hub.draining[i],
        ) by {
            assert(before.draining.contains(hub.draining[i]));
        }
    }
}

proof fn lemma_no_room_is_lost(list: Seq<SubscriberModel>, event: Seq<char>, at: int)
    requires
        0 <= at < list.len(),
        !fits(list[at].queue, event),
    ensures
        delivered(list, seq![event]).lost.contains(list[at]),
    decreases list.len(),
{
    let lost = delivered(list, seq![event]).lost;
    let rest = delivered(list.drop_last(), seq![event]).lost;
    if at == list.len() - 1 {
        lemma_one_fits(list[at].queue, event);
        assert(seq![event].drop_last().len() == 0);
        assert(offered_all(list[at].queue, seq![event].drop_last()) == list[at].queue);
        assert(offered_all(list[at].queue, seq![event]) == list[at].queue);
        assert(lost.last() == list[at]);
        assert(lost[lost.len() - 1] == list[at]);
    } else {
        lemma_no_room_is_lost(list.drop_last(), event, at);
        let i = choose|i: int| 0 <= i < rest.len() && rest[i] == list[at];
        assert(lost[i] == list[at]);
    }
}

/// A reader without room for an event is let go with the queue that it has: it still
/// reads what it was sent before, and nobody who reads on is forgotten.
pub proof fn law_overwhelmed_reader_reads_on(
    hub: HubModel,
    event: Seq<char>,
    normal: Seq<char>,
    at: int,
)
    ensures
        ({
            let next = ordinarily_published(hub, event, normal, Seq::empty());
            &&& keeps_draining(hub, next)
            &&& 0 <= at < hub.subscribers.len() && !fits(hub.subscribers[at].queue, normal)
                ==> next.draining.contains(hub.subscribers[at])
            &&& global_text(normal) matches Some(text) ==> (0 <= at < hub.global_subscribers.len()
                && !fits(hub.global_subscribers[at].queue, text) ==> next.draining.contains(
                hub.global_subscribers[at],
            ))
        }),
{
    let known = HubModel { bootstrap: bootstrapped_text(hub.bootstrap, event), ..hub };
    let none: Seq<Seq<char>> = Seq::empty();
    assert(seq![normal] + none =~= seq![normal]);
    let wide = widely_published(known, seq![normal]);
    let global = globally_published(wide, normal);
    let session = session_published(global, normal);
    let next = ordinarily_published(hub, event, normal, none);
    lemma_session_keeps_draining(global, normal);
    lemma_sessions_keep_draining(session, none);
    assert forall|i: int| 0 <= i < global.draining.len() implies next.draining.contains(
        #[trigger] global.draining[i],
    ) by {
        assert(session.draining.contains(global.draining[i]));
    }
    assert forall|i: int| 0 <= i < wide.draining.len() implies global.draining[i]
        == #[trigger] wide.draining[i] by {
    }
    assert forall|i: int| 0 <= i < hub.draining.len() implies next.draining.contains(
        #[trigger] hub.draining[i],
    ) by {
        assert(wide.draining[i] == hub.draining[i]);
        assert(next.draining.contains(global.draining[i]));
    }
    if 0 <= at < hub.subscribers.len() && !fits(hub.subscribers[at].queue, normal) {
        lemma_no_room_is_lost(hub.subscribers, normal, at);
        let lost = delivered(hub.subscribers, seq![normal]).lost;
        let i = choose|i: int| 0 <= i < lost.len() && lost[i] == hub.subscribers[at];
        assert(wide.draining[hub.draining.len() + i] == lost[i]);
        assert(next.draining.contains(global.draining[hub.draining.len() + i]));
    }
    if let Some(text) = global_text(normal) {
        if 0 <= at < hub.global_subscribers.len() && !fits(
            hub.global_subscribers[at].queue,
            text,
        ) {
            lemma_no_room_is_lost(hub.global_subscribers, text, at);
            let lost = delivered(hub.global_subscribers, seq![text]).lost;
            let i = choose|i: int| 0 <= i < lost.len() && lost[i] == hub.global_subscribers[at];
            assert(global.draining[wide.draining.len() + i] == lost[i]);
        }
    }
}

} // verus!
