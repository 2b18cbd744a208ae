//! What the hub promises its readers.
use crate::bootstrap::total_size;
use crate::events::event_position;
use crate::hub::{
    all_let_go, all_session_published, asks_for_state, emptied, empty_hub, ends_observer, ensured,
    finished, globally_published, head_of, hub_read, is_current, lets_in, marked_observer, next_for,
    observer_cancelled, observer_ended, observer_readied, observing, ordinarily_published,
    reader_count, runtime_published, sent_to, session_published, session_text, shown_to_observers,
    shut_down, subscribed, subscribed_globally, unsubscribed, widely_published, with_read,
    with_reader, HubModel, MAX_SUBSCRIBERS, NextModel,
};
use crate::json::{text_of_json, JsonModel};
use crate::projection::{projected, RuntimeEventModel};
use crate::subscribers::{
    all_fit, delivered, lemma_observer_at, lemma_reader_at, observed, observer_at, offered,
    offered_all, reader_at, without_reader, ObserverModel, SUBSCRIBER_QUEUE_BYTE_CAPACITY,
    SUBSCRIBER_QUEUE_CAPACITY, SubscriberModel,
};
use vstd::prelude::*;
use vstd::utf8::*;

verus! {

/// What can happen to the hub.
pub enum HubStep {
    Ensure,
    Subscribe,
    SubscribeGlobally,
    Observe { session_id: Seq<char>, leased: bool },
    Ready { generation: u64, marker: JsonModel },
    End { generation: u64, marker: JsonModel },
    Runtime { generation: u64, event: RuntimeEventModel },
    Direct { generation: u64, id: u64, event: Seq<char> },
    Ordinary { generation: u64, event: Seq<char>, normal: Seq<char>, suffix: Seq<Seq<char>> },
    Finish { generation: u64 },
    ShutDown,
    Unsubscribe { id: u64, generation: u64 },
    Cancel { id: u64 },
    Read { id: u64 },
}

/// The hub after a step.
pub open spec fn hub_after(hub: HubModel, step: HubStep) -> HubModel {
    match step {
        HubStep::Ensure => ensured(hub),
        HubStep::Subscribe => subscribed(hub),
        HubStep::SubscribeGlobally => subscribed_globally(hub),
        HubStep::Observe { session_id, leased } => observing(hub, session_id, leased),
        HubStep::Ready { generation, marker } => if is_current(hub, generation) {
            observer_readied(hub, marker)
        } else {
            hub
        },
        HubStep::End { generation, marker } => if is_current(hub, generation) {
            observer_ended(hub, marker)
        } else {
            hub
        },
        HubStep::Runtime { generation, event } => if is_current(hub, generation) {
            runtime_published(hub, event)
        } else {
            hub
        },
        HubStep::Direct { generation, id, event } => if is_current(hub, generation) {
            sent_to(hub, id, event)
        } else {
            hub
        },
        HubStep::Ordinary { generation, event, normal, suffix } => if is_current(hub, generation) {
            ordinarily_published(hub, event, normal, suffix)
        } else {
            hub
        },
        HubStep::Finish { generation } => finished(hub, generation),
        HubStep::ShutDown => shut_down(hub),
        HubStep::Unsubscribe { id, generation } => unsubscribed(hub, id, generation),
        HubStep::Cancel { id } => observer_cancelled(hub, id),
        HubStep::Read { id } => hub_read(hub, id),
    }
}

/// The generation of the connection from which a step comes.
pub open spec fn source_of(step: HubStep) -> Option<u64> {
    match step {
        HubStep::Ready { generation, .. } => Some(generation),
        HubStep::End { generation, .. } => Some(generation),
        HubStep::Runtime { generation, .. } => Some(generation),
        HubStep::Direct { generation, .. } => Some(generation),
        HubStep::Ordinary { generation, .. } => Some(generation),
        _ => None,
    }
}

/// What comes from a generation of the connection that is over changes nothing.
pub proof fn law_old_generation_changes_nothing(hub: HubModel, step: HubStep)
    requires
        source_of(step) matches Some(generation) && !is_current(hub, generation),
    ensures
        hub_after(hub, step) == hub,
{
}

/// Whether a queue keeps its limits.
pub open spec fn is_bounded(queue: Seq<Seq<char>>) -> bool {
    queue.len() <= SUBSCRIBER_QUEUE_CAPACITY && total_size(queue) <= SUBSCRIBER_QUEUE_BYTE_CAPACITY
}

/// Whether an observer is in order: its queue keeps the limits, and one whose
/// place is not fixed yet has nothing in it.
pub open spec fn is_orderly(observer: ObserverModel) -> bool {
    is_bounded(observer.queue) && (observer.leased && observer.owner is None
        ==> observer.queue.len() == 0)
}

/// Whether all queues of some readers keep the limits.
pub open spec fn all_bounded(list: Seq<SubscriberModel>) -> bool {
    forall|i: int| 0 <= i < list.len() ==> is_bounded((#[trigger] list[i]).queue)
}

/// Whether all of some observers are in order.
pub open spec fn all_orderly(list: Seq<ObserverModel>) -> bool {
    forall|i: int| 0 <= i < list.len() ==> is_orderly(#[trigger] list[i])
}

/// Whether the hub is in order: there are not too many readers, and each of
/// them is in order.
pub open spec fn hub_orderly(hub: HubModel) -> bool {
    &&& reader_count(hub) <= MAX_SUBSCRIBERS
    &&& all_bounded(hub.subscribers)
    &&& all_bounded(hub.global_subscribers)
    &&& all_bounded(hub.draining)
    &&& all_orderly(hub.session_subscribers)
}

proof fn lemma_size_push(queue: Seq<Seq<char>>, event: Seq<char>)
    ensures
        total_size(queue.push(event)) == total_size(queue) + encode_utf8(event).len(),
    decreases queue.len(),
{
    if queue.len() == 0 {
        assert(queue.push(event).drop_first() =~= Seq::empty());
        assert(queue =~= Seq::empty());
    } else {
        lemma_size_push(queue.drop_first(), event);
        assert(queue.push(event).drop_first() =~= queue.drop_first().push(event));
    }
}

proof fn lemma_offered_bounded(queue: Seq<Seq<char>>, event: Seq<char>)
    requires
        is_bounded(queue),
    ensures
        is_bounded(offered(queue, event)),
{
    lemma_size_push(queue, event);
}

proof fn lemma_all_offered_bounded(queue: Seq<Seq<char>>, events: Seq<Seq<char>>)
    requires
        is_bounded(queue),
    ensures
        is_bounded(offered_all(queue, events)),
    decreases events.len(),
{
    if events.len() > 0 {
        lemma_all_offered_bounded(queue, events.drop_last());
        lemma_offered_bounded(offered_all(queue, events.drop_last()), events.last());
    }
}

proof fn lemma_delivered(list: Seq<SubscriberModel>, events: Seq<Seq<char>>)
    requires
        all_bounded(list),
    ensures
        delivered(list, events).kept.len() <= list.len(),
        all_bounded(delivered(list, events).kept),
        all_bounded(delivered(list, events).lost),
    decreases list.len(),
{
    if list.len() > 0 {
        lemma_delivered(list.drop_last(), events);
        lemma_all_offered_bounded(list[list.len() - 1].queue, events);
    }
}

proof fn lemma_observed(
    list: Seq<ObserverModel>,
    session_id: Seq<char>,
    event: Seq<char>,
    owner: Option<(Seq<char>, u64)>,
)
    requires
        all_orderly(list),
    ensures
        observed(list, session_id, event, owner).kept.len() <= list.len(),
        all_orderly(observed(list, session_id, event, owner).kept),
        all_orderly(observed(list, session_id, event, owner).lost),
    decreases list.len(),
{
    if list.len() > 0 {
        lemma_observed(list.drop_last(), session_id, event, owner);
        assert(is_orderly(list[list.len() - 1]));
        lemma_size_push(list.last().queue, event);
    }
}

/// Letting observers go touches only the lists of those who are gone.
proof fn lemma_all_let_go(hub: HubModel, list: Seq<ObserverModel>)
    requires
        all_orderly(list),
        all_bounded(hub.draining),
    ensures
        ({
            let after = all_let_go(hub, list);
            &&& after.subscribers == hub.subscribers
            &&& after.global_subscribers == hub.global_subscribers
            &&& after.session_subscribers == hub.session_subscribers
            &&& after.generation == hub.generation
            &&& after.connected == hub.connected
            &&& after.shutting_down == hub.shutting_down
            &&& all_bounded(after.draining)
        }),
    decreases list.len(),
{
    if list.len() > 0 {
        lemma_all_let_go(hub, list.drop_last());
        assert(is_orderly(list[list.len() - 1]));
    }
}

/// Whether a hub only lost readers.
spec fn shrinks(before: HubModel, after: HubModel) -> bool {
    &&& hub_orderly(after)
    &&& reader_count(after) <= reader_count(before)
    &&& after.shutting_down == before.shutting_down
    &&& after.generation == before.generation
    &&& after.connected == before.connected
}

proof fn lemma_session_published(hub: HubModel, event: Seq<char>)
    requires
        hub_orderly(hub),
    ensures
        shrinks(hub, session_published(hub, event)),
{
    match session_text(event) {
        Some((session_id, text)) => {
            let owner = crate::events::text_owner(text);
            lemma_observed(hub.session_subscribers, session_id, text, owner);
            let outcome = observed(hub.session_subscribers, session_id, text, owner);
            lemma_all_let_go(
                HubModel { session_subscribers: outcome.kept, ..hub },
                outcome.lost,
            );
        },
        None => {},
    }
}

proof fn lemma_all_session_published(hub: HubModel, events: Seq<Seq<char>>)
    requires
        hub_orderly(hub),
    ensures
        shrinks(hub, all_session_published(hub, events)),
    decreases events.len(),
{
    if events.len() > 0 {
        lemma_all_session_published(hub, events.drop_last());
        lemma_session_published(all_session_published(hub, events.drop_last()), events.last());
    }
}

proof fn lemma_joined(a: Seq<SubscriberModel>, b: Seq<SubscriberModel>)
    requires
        all_bounded(a),
        all_bounded(b),
    ensures
        all_bounded(a + b),
{
}

proof fn lemma_widely_published(hub: HubModel, events: Seq<Seq<char>>)
    requires
        hub_orderly(hub),
    ensures
        shrinks(hub, widely_published(hub, events)),
{
    lemma_delivered(hub.subscribers, events);
    lemma_joined(hub.draining, delivered(hub.subscribers, events).lost);
}

proof fn lemma_globally_published(hub: HubModel, event: Seq<char>)
    requires
        hub_orderly(hub),
    ensures
        shrinks(hub, globally_published(hub, event)),
{
    match crate::events::global_text(event) {
        Some(text) => {
            lemma_delivered(hub.global_subscribers, seq![text]);
            lemma_joined(hub.draining, delivered(hub.global_subscribers, seq![text]).lost);
        },
        None => {},
    }
}

proof fn lemma_ordinarily_published(
    hub: HubModel,
    event: Seq<char>,
    normal: Seq<char>,
    suffix: Seq<Seq<char>>,
)
    requires
        hub_orderly(hub),
    ensures
        shrinks(hub, ordinarily_published(hub, event, normal, suffix)),
{
    let known = HubModel {
        bootstrap: crate::bootstrap::bootstrapped_text(hub.bootstrap, event),
        ..hub
    };
    let wide = widely_published(known, seq![normal] + suffix);
    lemma_widely_published(known, seq![normal] + suffix);
    lemma_globally_published(wide, normal);
    lemma_session_published(globally_published(wide, normal), normal);
    lemma_all_session_published(
        session_published(globally_published(wide, normal), normal),
        suffix,
    );
}

proof fn lemma_runtime_published(hub: HubModel, event: RuntimeEventModel)
    requires
        hub_orderly(hub),
    ensures
        shrinks(hub, runtime_published(hub, event)),
{
    let outcome = projected(hub.canonical, event);
    let known = HubModel {
        canonical: outcome.projection,
        canonical_resync_pending: hub.canonical_resync_pending && outcome.projection is None,
        ..hub
    };
    match outcome.public_event {
        Some(text) => {
            lemma_widely_published(known, seq![text]);
            lemma_session_published(widely_published(known, seq![text]), text);
        },
        None => {},
    }
}

proof fn lemma_emptied(hub: HubModel)
    requires
        hub_orderly(hub),
    ensures
        shrinks(hub, emptied(hub)),
        reader_count(emptied(hub)) == 0,
{
    lemma_joined(hub.draining, hub.subscribers);
    lemma_joined(hub.draining + hub.subscribers, hub.global_subscribers);
    lemma_all_let_go(
        HubModel {
            subscribers: Seq::empty(),
            global_subscribers: Seq::empty(),
            session_subscribers: Seq::empty(),
            draining: hub.draining + hub.subscribers + hub.global_subscribers,
            ..hub
        },
        hub.session_subscribers,
    );
}

proof fn lemma_removed(list: Seq<SubscriberModel>, id: u64)
    requires
        all_bounded(list),
    ensures
        all_bounded(without_reader(list, id)),
        without_reader(list, id).len() <= list.len(),
{
    lemma_reader_at(list, id);
}

proof fn lemma_let_in(list: Seq<SubscriberModel>, id: u64)
    requires
        all_bounded(list),
    ensures
        all_bounded(with_reader(list, id)),
        with_reader(list, id).len() <= list.len() + 1,
{
    lemma_removed(list, id);
}

proof fn lemma_read(list: Seq<SubscriberModel>, at: int)
    requires
        all_bounded(list),
        0 <= at < list.len(),
    ensures
        all_bounded(with_read(list, at)),
        with_read(list, at).len() == list.len(),
{
    assert(is_bounded(list[at].queue));
}

/// The hub begins in order and stays so: there are never too many readers, no
/// queue grows over its limits, and an observer has nothing in its queue before
/// its place is fixed.
pub proof fn law_hub_stays_in_order(hub: HubModel, step: HubStep)
    requires
        hub_orderly(hub),
    ensures
        hub_orderly(hub_after(hub, step)),
        hub_orderly(empty_hub()),
{
    lemma_hub_step(hub, step);
}

proof fn lemma_hub_step(hub: HubModel, step: HubStep)
    requires
        hub_orderly(hub),
    ensures
        hub_orderly(hub_after(hub, step)),
        hub.shutting_down ==> hub_after(hub, step).shutting_down && reader_count(
            hub_after(hub, step),
        ) <= reader_count(hub),
{
    match step {
        HubStep::Ensure => {},
        HubStep::Subscribe => {
            lemma_let_in(hub.subscribers, hub.next_subscriber_id);
        },
        HubStep::SubscribeGlobally => {
            lemma_let_in(hub.global_subscribers, hub.next_subscriber_id);
        },
        HubStep::Observe { session_id, leased } => {
            lemma_observer_at(hub.session_subscribers, hub.next_subscriber_id);
        },
        HubStep::Ready { generation, marker } => {
            match marked_observer(marker) {
                Some(id) => {
                    let list = hub.session_subscribers;
                    lemma_observer_at(list, id);
                    let at = observer_at(list, id);
                    if at >= 0 {
                        assert(is_orderly(list[at]));
                        lemma_size_push(list[at].queue, text_of_json(marker.get("reset"@)->0));
                    }
                },
                None => {},
            }
        },
        HubStep::End { generation, marker } => {
            match marked_observer(marker) {
                Some(id) => {
                    lemma_observer_at(hub.session_subscribers, id);
                    let at = observer_at(hub.session_subscribers, id);
                    if at >= 0 {
                        assert(is_orderly(hub.session_subscribers[at]));
                    }
                },
                None => {},
            }
        },
        HubStep::Runtime { generation, event } => {
            lemma_runtime_published(hub, event);
        },
        HubStep::Direct { generation, id, event } => {
            lemma_reader_at(hub.subscribers, id);
            let at = reader_at(hub.subscribers, id);
            if at >= 0 {
                assert(is_bounded(hub.subscribers[at].queue));
                lemma_size_push(hub.subscribers[at].queue, event);
            }
        },
        HubStep::Ordinary { generation, event, normal, suffix } => {
            lemma_ordinarily_published(hub, event, normal, suffix);
        },
        HubStep::Finish { generation } => {
            lemma_emptied(HubModel { connected: false, ..hub });
        },
        HubStep::ShutDown => {
            lemma_emptied(HubModel { shutting_down: true, ..hub });
        },
        HubStep::Unsubscribe { id, generation } => {
            lemma_removed(hub.draining, id);
            lemma_removed(hub.subscribers, id);
            lemma_removed(hub.global_subscribers, id);
            lemma_observer_at(hub.session_subscribers, id);
        },
        HubStep::Cancel { id } => {
            lemma_observer_at(hub.session_subscribers, id);
            let at = observer_at(hub.session_subscribers, id);
            if at >= 0 {
                assert(is_orderly(hub.session_subscribers[at]));
            }
        },
        HubStep::Read { id } => {
            lemma_observer_at(hub.session_subscribers, id);
            lemma_reader_at(hub.subscribers, id);
            lemma_reader_at(hub.global_subscribers, id);
            lemma_reader_at(hub.draining, id);
            let at = observer_at(hub.session_subscribers, id);
            if at >= 0 {
                assert(is_orderly(hub.session_subscribers[at]));
            } else if reader_at(hub.subscribers, id) >= 0 {
                lemma_read(hub.subscribers, reader_at(hub.subscribers, id));
            } else if reader_at(hub.global_subscribers, id) >= 0 {
                lemma_read(hub.global_subscribers, reader_at(hub.global_subscribers, id));
            } else if reader_at(hub.draining, id) >= 0 {
                lemma_read(hub.draining, reader_at(hub.draining, id));
            }
        },
    }
}

/// The hub after steps, one after the other.
pub open spec fn hub_after_all(hub: HubModel, steps: Seq<HubStep>) -> HubModel
    decreases steps.len(),
{
    if steps.len() == 0 {
        hub
    } else {
        hub_after(hub_after_all(hub, steps.drop_last()), steps.last())
    }
}

/// Once the hub shuts down it has no readers, and it lets nobody in again.
pub proof fn law_shut_down_hub_stays_empty(hub: HubModel, steps: Seq<HubStep>)
    requires
        hub_orderly(hub),
    ensures
        reader_count(hub_after_all(shut_down(hub), steps)) == 0,
        !lets_in(hub_after_all(shut_down(hub), steps)),
{
    lemma_shut_down_steps(hub, steps);
}

proof fn lemma_shut_down_steps(hub: HubModel, steps: Seq<HubStep>)
    requires
        hub_orderly(hub),
    ensures
        hub_orderly(hub_after_all(shut_down(hub), steps)),
        reader_count(hub_after_all(shut_down(hub), steps)) == 0,
        hub_after_all(shut_down(hub), steps).shutting_down,
    decreases steps.len(),
{
    if steps.len() == 0 {
        lemma_emptied(HubModel { shutting_down: true, ..hub });
    } else {
        lemma_shut_down_steps(hub, steps.drop_last());
        lemma_hub_step(hub_after_all(shut_down(hub), steps.drop_last()), steps.last());
    }
}

/// An event of a session leaves the observers of all other sessions as they
/// are.
pub proof fn law_other_observers_stay(
    hub: HubModel,
    session_id: Seq<char>,
    event: Seq<char>,
    owner: Option<(Seq<char>, u64)>,
    observer: ObserverModel,
)
    requires
        observer.session_id != session_id,
    ensures
        shown_to_observers(hub, session_id, event, owner).session_subscribers.contains(observer)
            == hub.session_subscribers.contains(observer),
{
    let list = hub.session_subscribers;
    let outcome = observed(list, session_id, event, owner);
    lemma_let_go_keeps(HubModel { session_subscribers: outcome.kept, ..hub }, outcome.lost);
    lemma_others_kept(list, session_id, event, owner, observer);
}

proof fn lemma_let_go_keeps(hub: HubModel, list: Seq<ObserverModel>)
    ensures
        all_let_go(hub, list).session_subscribers == hub.session_subscribers,
    decreases list.len(),
{
    if list.len() > 0 {
        lemma_let_go_keeps(hub, list.drop_last());
    }
}

proof fn lemma_push_contains(list: Seq<ObserverModel>, item: ObserverModel, wanted: ObserverModel)
    ensures
        list.push(item).contains(wanted) == (list.contains(wanted) || item == wanted),
{
    if list.contains(wanted) {
        let i = choose|i: int| 0 <= i < list.len() && list[i] == wanted;
        assert(list.push(item)[i] == wanted);
    }
    if item == wanted {
        assert(list.push(item)[list.len() as int] == wanted);
    }
    if list.push(item).contains(wanted) && item != wanted {
        let i = choose|i: int| 0 <= i < list.push(item).len() && list.push(item)[i] == wanted;
        assert(list[i] == wanted);
    }
}

proof fn lemma_others_kept(
    list: Seq<ObserverModel>,
    session_id: Seq<char>,
    event: Seq<char>,
    owner: Option<(Seq<char>, u64)>,
    observer: ObserverModel,
)
    requires
        observer.session_id != session_id,
    ensures
        observed(list, session_id, event, owner).kept.contains(observer) == list.contains(observer),
    decreases list.len(),
{
    if list.len() > 0 {
        lemma_others_kept(list.drop_last(), session_id, event, owner, observer);
        assert(list =~= list.drop_last().push(list.last()));
        lemma_push_contains(list.drop_last(), list.last(), observer);
        let rest = observed(list.drop_last(), session_id, event, owner);
        lemma_push_contains(rest.kept, list.last(), observer);
        lemma_push_contains(
            rest.kept,
            ObserverModel { queue: list.last().queue.push(event), ..list.last() },
            observer,
        );
    }
}

/// The first thing that an observer with a lease is sent is the reset that
/// fixes its place, and its place is fixed only once.
pub proof fn law_observer_begins_with_its_reset(hub: HubModel, marker: JsonModel, id: u64)
    requires
        hub_orderly(hub),
        marked_observer(marker) == Some(id),
        observer_at(hub.session_subscribers, id) >= 0,
        hub.session_subscribers[observer_at(hub.session_subscribers, id)].leased,
    ensures
        ({
            let at = observer_at(hub.session_subscribers, id);
            let before = hub.session_subscribers[at];
            let after = observer_readied(hub, marker).session_subscribers;
            if before.owner is Some {
                after == hub.session_subscribers
            } else {
                after.len() == hub.session_subscribers.len() ==> after[at].queue == seq![
                    text_of_json(marker.get("reset"@)->0),
                ] && (event_position(marker.get("reset"@)->0) matches Some(position)
                    && after[at].owner == Some((position.epoch, position.incarnation)))
            }
        }),
{
    lemma_observer_at(hub.session_subscribers, id);
    let at = observer_at(hub.session_subscribers, id);
    let before = hub.session_subscribers[at];
    assert(is_orderly(before));
    if before.owner is None {
        assert(before.queue =~= Seq::empty());
    }
}

/// An observer that is ended may still read all that is in its queue.
pub proof fn law_ended_observer_reads_its_queue(hub: HubModel, marker: JsonModel, id: u64)
    requires
        marked_observer(marker) == Some(id),
        observer_at(hub.session_subscribers, id) >= 0,
        ends_observer(
            hub.session_subscribers[observer_at(hub.session_subscribers, id)],
            marker,
        ),
        observer_at(
            hub.session_subscribers.remove(observer_at(hub.session_subscribers, id)),
            id,
        ) < 0,
        reader_at(hub.subscribers, id) < 0,
        reader_at(hub.global_subscribers, id) < 0,
    ensures
        next_for(observer_ended(hub, marker), id) == head_of(
            hub.session_subscribers[observer_at(hub.session_subscribers, id)].queue,
            NextModel::Ended,
        ),
        observer_ended(hub, marker).unobserved == hub.unobserved,
{
    lemma_observer_at(hub.session_subscribers, id);
}

/// The connection is asked for the state of all sessions only once: as long as
/// no state has come, nothing makes the hub ask again.
pub proof fn law_state_is_asked_for_once(
    hub: HubModel,
    first: RuntimeEventModel,
    second: RuntimeEventModel,
)
    requires
        asks_for_state(hub, first),
    ensures
        runtime_published(hub, first).canonical is None,
        !asks_for_state(runtime_published(hub, first), second),
        runtime_published(runtime_published(hub, first), second).canonical_resync_pending
            == (projected(None, second).projection is None),
{
    lemma_runtime_keeps_canonical(hub, first);
    lemma_runtime_keeps_canonical(runtime_published(hub, first), second);
}

proof fn lemma_runtime_keeps_canonical(hub: HubModel, event: RuntimeEventModel)
    ensures
        runtime_published(hub, event).canonical == projected(hub.canonical, event).projection,
        runtime_published(hub, event).canonical_resync_pending == (asks_for_state(hub, event) || (
        hub.canonical_resync_pending && projected(hub.canonical, event).projection is None)),
{
    let outcome = projected(hub.canonical, event);
    let known = HubModel {
        canonical: outcome.projection,
        canonical_resync_pending: hub.canonical_resync_pending && outcome.projection is None,
        ..hub
    };
    match outcome.public_event {
        Some(text) => {
            let wide = widely_published(known, seq![text]);
            match session_text(text) {
                Some((session_id, shown)) => {
                    let owner = crate::events::text_owner(shown);
                    let seen = observed(wide.session_subscribers, session_id, shown, owner);
                    lemma_let_go_keeps_state(
                        HubModel { session_subscribers: seen.kept, ..wide },
                        seen.lost,
                    );
                },
                None => {},
            }
        },
        None => {},
    }
}

proof fn lemma_let_go_keeps_state(hub: HubModel, list: Seq<ObserverModel>)
    ensures
        all_let_go(hub, list).canonical == hub.canonical,
        all_let_go(hub, list).canonical_resync_pending == hub.canonical_resync_pending,
    decreases list.len(),
{
    if list.len() > 0 {
        lemma_let_go_keeps_state(hub, list.drop_last());
    }
}

/// A reader whose queue has room for events gets them all, in order, whatever
/// becomes of the other readers; one whose queue has no room is let go.
pub proof fn law_slow_reader_holds_up_nobody(
    list: Seq<SubscriberModel>,
    events: Seq<Seq<char>>,
    at: int,
)
    requires
        0 <= at < list.len(),
    ensures
        all_fit(list[at].queue, events) ==> delivered(list, events).kept.contains(
            SubscriberModel { queue: list[at].queue + events, ..list[at] },
        ),
        !all_fit(list[at].queue, events) ==> exists|i: int|
            0 <= i < delivered(list, events).lost.len() && (#[trigger] delivered(
                list,
                events,
            ).lost[i]).id == list[at].id,
    decreases list.len(),
{
    let last = list.len() - 1;
    let rest = delivered(list.drop_last(), events);
    let all = delivered(list, events);
    if at == last {
        if all_fit(list[at].queue, events) {
            lemma_offered_in_order(list[at].queue, events);
            assert(all.kept.last() == SubscriberModel {
                queue: list[at].queue + events,
                ..list[at]
            });
        } else {
            assert(all.lost[all.lost.len() - 1].id == list[at].id);
        }
    } else {
        law_slow_reader_holds_up_nobody(list.drop_last(), events, at);
        if all_fit(list[at].queue, events) {
            let wanted = SubscriberModel { queue: list[at].queue + events, ..list[at] };
            let i = choose|i: int| 0 <= i < rest.kept.len() && rest.kept[i] == wanted;
            assert(all.kept[i] == wanted);
        } else {
            let i = choose|i: int|
                0 <= i < rest.lost.len() && (#[trigger] rest.lost[i]).id == list[at].id;
            assert(all.lost[i].id == list[at].id);
        }
    }
}

proof fn lemma_offered_in_order(queue: Seq<Seq<char>>, events: Seq<Seq<char>>)
    requires
        all_fit(queue, events),
    ensures
        offered_all(queue, events) == queue + events,
    decreases events.len(),
{
    if events.len() > 0 {
        lemma_offered_in_order(queue, events.drop_last());
        assert(queue + events =~= (queue + events.drop_last()).push(events.last()));
    } else {
        assert(queue + events =~= queue);
    }
}

} // verus!
