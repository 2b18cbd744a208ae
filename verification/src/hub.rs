//! The hub between the Agent connection and those who read its events: who is
//! let in, what each is sent, and what the connection is asked in turn.
use crate::bootstrap::{
    after_runtime, as_list, bootstrapped_text, empty_bootstrap, global_of, BootstrapModel,
    BridgeBootstrap,
};
use crate::events::{
    business_session_event, directed, directed_bridge_event, event_position, find_event_position,
    global_business_event, global_text, is_auth_success, is_internal_direct_event,
    is_internal_runtime_event, is_runtime_kind, opened_runtime_session_id, opened_session,
    session_business, session_event_owner, terminal_auth_succeeded, text_kind, text_owner, Position,
};
use crate::json::{is_plain, json_of_text, text_of_json, Json, JsonModel, MAX_NESTING};
use crate::projection::{
    projected, public_value, readable, snapshot_event, write_snapshot_event, CanonicalProjection,
    RuntimeEvent, RuntimeEventModel,
};
use crate::runtime_types::SnapshotModel;
use crate::semantic::texts;
use crate::subscribers::{
    deliver, delivered, find_observer, find_reader, fits, has_room, observe_event, observed,
    observer_at, observers, offer, owner_model, reader_at, readers, remove_reader, take_first,
    without_reader, Observer, ObserverModel, Subscriber, SubscriberModel,
};
use crate::text::{is_text, same_text};
use vstd::prelude::*;

verus! {

/// The largest number of readers of all kinds.
pub const MAX_SUBSCRIBERS: usize = 64;

/// The hub.
#[derive(Debug)]
pub struct BridgeHubState {
    generation: u64,
    connected: bool,
    shutting_down: bool,
    next_subscriber_id: u64,
    subscribers: Vec<Subscriber>,
    global_subscribers: Vec<Subscriber>,
    session_subscribers: Vec<Observer>,
    draining: Vec<Subscriber>,
    unobserved: Vec<(String, u64)>,
    bootstrap: BridgeBootstrap,
    canonical: CanonicalProjection,
    canonical_resync_pending: bool,
}

/// What the hub holds. Readers who were let go may still read what is in their
/// queues: they are draining. Those of whom the connection has to be told that
/// they no longer observe are listed as unobserved.
#[verifier::ext_equal]
pub struct HubModel {
    pub generation: u64,
    pub connected: bool,
    pub shutting_down: bool,
    pub next_subscriber_id: u64,
    pub subscribers: Seq<SubscriberModel>,
    pub global_subscribers: Seq<SubscriberModel>,
    pub session_subscribers: Seq<ObserverModel>,
    pub draining: Seq<SubscriberModel>,
    pub unobserved: Seq<(Seq<char>, u64)>,
    pub bootstrap: BootstrapModel,
    pub canonical: Option<SnapshotModel>,
    pub canonical_resync_pending: bool,
}

/// The models of those who no longer observe.
pub open spec fn endings(list: Seq<(String, u64)>) -> Seq<(Seq<char>, u64)> {
    Seq::new(list.len(), |i: int| (list[i].0@, list[i].1))
}

impl View for BridgeHubState {
    type V = HubModel;

    closed spec fn view(&self) -> HubModel {
        HubModel {
            generation: self.generation,
            connected: self.connected,
            shutting_down: self.shutting_down,
            next_subscriber_id: self.next_subscriber_id,
            subscribers: readers(self.subscribers@),
            global_subscribers: readers(self.global_subscribers@),
            session_subscribers: observers(self.session_subscribers@),
            draining: readers(self.draining@),
            unobserved: endings(self.unobserved@),
            bootstrap: self.bootstrap@,
            canonical: self.canonical@,
            canonical_resync_pending: self.canonical_resync_pending,
        }
    }
}

/// The hub before anything happened.
pub open spec fn empty_hub() -> HubModel {
    HubModel {
        generation: 0,
        connected: false,
        shutting_down: false,
        next_subscriber_id: 1,
        subscribers: Seq::empty(),
        global_subscribers: Seq::empty(),
        session_subscribers: Seq::empty(),
        draining: Seq::empty(),
        unobserved: Seq::empty(),
        bootstrap: empty_bootstrap(),
        canonical: None,
        canonical_resync_pending: false,
    }
}

/// How many readers there are.
pub open spec fn reader_count(hub: HubModel) -> nat {
    hub.subscribers.len() + hub.global_subscribers.len() + hub.session_subscribers.len()
}

/// Whether a reader may be let in.
pub open spec fn lets_in(hub: HubModel) -> bool {
    !hub.shutting_down && hub.connected && reader_count(hub) < MAX_SUBSCRIBERS
}

/// Whether something that came from a generation of the connection counts.
pub open spec fn is_current(hub: HubModel, generation: u64) -> bool {
    hub.generation == generation && hub.connected
}

/// The number after a number; after the largest one they start over.
pub open spec fn next_identifier(number: u64) -> u64 {
    if number == u64::MAX {
        0
    } else {
        (number + 1) as u64
    }
}

/// The generation after a generation; none is zero.
pub open spec fn next_generation(number: u64) -> u64 {
    if number == u64::MAX {
        1
    } else {
        (number + 1) as u64
    }
}

/// The hub once a connection is wanted: a new generation starts unless one is
/// there or the hub is shutting down.
pub open spec fn ensured(hub: HubModel) -> HubModel {
    if hub.shutting_down || hub.connected {
        hub
    } else {
        HubModel {
            generation: next_generation(hub.generation),
            connected: true,
            bootstrap: empty_bootstrap(),
            canonical: None,
            canonical_resync_pending: false,
            ..hub
        }
    }
}

/// The hub after an identifier was given out.
pub open spec fn numbered(hub: HubModel) -> HubModel {
    HubModel { next_subscriber_id: next_identifier(hub.next_subscriber_id), ..hub }
}

/// The event that tells the state of all sessions, where it is known.
pub open spec fn canonical_events(hub: HubModel) -> Seq<Seq<char>> {
    match hub.canonical {
        Some(snapshot) => seq![text_of_json(snapshot_event(snapshot))],
        None => Seq::empty(),
    }
}

/// The events that a new global reader is sent first: the logins, then what
/// global readers are handed of the rest that is known of the connection.
pub open spec fn initial_global_events(hub: HubModel) -> Seq<Seq<char>> {
    hub.bootstrap.auth_events + global_of(after_runtime(hub.bootstrap))
}

/// The events with which a reader of everything begins.
pub open spec fn initial_events(hub: HubModel, replay: Seq<Seq<char>>) -> Seq<Seq<char>> {
    as_list(hub.bootstrap.hello) + canonical_events(hub) + replay + after_runtime(hub.bootstrap)
}

/// A list with one more reader; an identifier that is given out again loses
/// its old reader.
pub open spec fn with_reader(list: Seq<SubscriberModel>, id: u64) -> Seq<SubscriberModel> {
    without_reader(list, id).push(SubscriberModel { id, queue: Seq::empty() })
}

/// The hub with one more reader of everything.
pub open spec fn subscribed(hub: HubModel) -> HubModel {
    if lets_in(hub) {
        HubModel {
            subscribers: with_reader(hub.subscribers, hub.next_subscriber_id),
            ..numbered(hub)
        }
    } else {
        numbered(hub)
    }
}

/// The hub with one more global reader.
pub open spec fn subscribed_globally(hub: HubModel) -> HubModel {
    if lets_in(hub) {
        HubModel {
            global_subscribers: with_reader(hub.global_subscribers, hub.next_subscriber_id),
            ..numbered(hub)
        }
    } else {
        numbered(hub)
    }
}

/// A list of observers without one of them.
pub open spec fn without_observer(list: Seq<ObserverModel>, id: u64) -> Seq<ObserverModel> {
    if observer_at(list, id) >= 0 {
        list.remove(observer_at(list, id))
    } else {
        list
    }
}

/// The hub with one more observer of a session.
pub open spec fn observing(hub: HubModel, session_id: Seq<char>, leased: bool) -> HubModel {
    if lets_in(hub) {
        let id = hub.next_subscriber_id;
        HubModel {
            session_subscribers: without_observer(hub.session_subscribers, id).push(
                ObserverModel {
                    id,
                    session_id,
                    queue: Seq::empty(),
                    leased,
                    cancelled: false,
                    owner: None,
                },
            ),
            ..numbered(hub)
        }
    } else {
        numbered(hub)
    }
}

/// Why an observer is not let in.
pub open spec fn observe_problem(hub: HubModel) -> Option<Seq<char>> {
    if hub.shutting_down || !hub.connected {
        Some("bridge is not ready"@)
    } else if reader_count(hub) >= MAX_SUBSCRIBERS {
        Some("too many event subscribers"@)
    } else {
        None
    }
}

/// The hub after an observer was let go. Of one with a lease the connection is
/// told and nothing more is read; one without may read what is in its queue.
pub open spec fn let_go(hub: HubModel, observer: ObserverModel) -> HubModel {
    if observer.leased {
        HubModel {
            unobserved: hub.unobserved.push((observer.session_id, observer.id)),
            ..hub
        }
    } else {
        HubModel {
            draining: hub.draining.push(
                SubscriberModel { id: observer.id, queue: observer.queue },
            ),
            ..hub
        }
    }
}

/// The hub after observers were let go, one after the other.
pub open spec fn all_let_go(hub: HubModel, list: Seq<ObserverModel>) -> HubModel
    decreases list.len(),
{
    if list.len() == 0 {
        hub
    } else {
        let_go(all_let_go(hub, list.drop_last()), list.last())
    }
}

/// What the observers of a session are handed of an event.
pub open spec fn session_text(event: Seq<char>) -> Option<(Seq<char>, Seq<char>)> {
    match json_of_text(event) {
        Some(value) => session_business(event, value),
        None => None,
    }
}

/// The hub after an event of a session, by the owner that the event names, was
/// handed to the observers of the session.
pub open spec fn shown_to_observers(
    hub: HubModel,
    session_id: Seq<char>,
    event: Seq<char>,
    owner: Option<(Seq<char>, u64)>,
) -> HubModel {
    let outcome = observed(hub.session_subscribers, session_id, event, owner);
    all_let_go(HubModel { session_subscribers: outcome.kept, ..hub }, outcome.lost)
}

/// The hub after an event was handed to those who observe its session.
pub open spec fn session_published(hub: HubModel, event: Seq<char>) -> HubModel {
    match session_text(event) {
        Some((session_id, text)) => shown_to_observers(hub, session_id, text, text_owner(text)),
        None => hub,
    }
}

/// The hub after events were handed to those who observe their sessions.
pub open spec fn all_session_published(hub: HubModel, events: Seq<Seq<char>>) -> HubModel
    decreases events.len(),
{
    if events.len() == 0 {
        hub
    } else {
        session_published(all_session_published(hub, events.drop_last()), events.last())
    }
}

/// The hub after events were handed to the readers of everything.
pub open spec fn widely_published(hub: HubModel, events: Seq<Seq<char>>) -> HubModel {
    let outcome = delivered(hub.subscribers, events);
    HubModel { subscribers: outcome.kept, draining: hub.draining + outcome.lost, ..hub }
}

/// The hub after an event was handed to the global readers.
pub open spec fn globally_published(hub: HubModel, event: Seq<char>) -> HubModel {
    match global_text(event) {
        Some(text) => {
            let outcome = delivered(hub.global_subscribers, seq![text]);
            HubModel {
                global_subscribers: outcome.kept,
                draining: hub.draining + outcome.lost,
                ..hub
            }
        },
        None => hub,
    }
}

/// The hub after an event that all may see, except the global readers.
pub open spec fn shared_published(hub: HubModel, event: Seq<char>) -> HubModel {
    session_published(widely_published(hub, seq![event]), event)
}

/// What an event is for.
pub enum EventRole {
    /// It fixes the place from which on an observer is sent events.
    ObserverReady,
    /// It ends an observer.
    ObserverEnd,
    /// It tells the state of all sessions, or a change of it.
    Runtime,
    /// It is for one reader.
    Direct,
    /// It is for all.
    Ordinary,
}

/// What an event is for, by its type.
pub open spec fn role_of(kind: Option<Seq<char>>) -> EventRole {
    if kind == Some("bridge/internal_observer_ready"@) {
        EventRole::ObserverReady
    } else if kind == Some("bridge/internal_observer_end"@) {
        EventRole::ObserverEnd
    } else if is_runtime_kind(kind) {
        EventRole::Runtime
    } else if kind == Some("bridge/internal_direct"@) {
        EventRole::Direct
    } else {
        EventRole::Ordinary
    }
}

/// Whether the reset that comes with a marker fixes the place of an observer:
/// both name the session that it observes, the reset names a place, the place
/// belongs to the epoch that is known, and the observer is still wanted.
pub open spec fn fixes_place(hub: HubModel, observer: ObserverModel, marker: JsonModel) -> bool {
    &&& observer.leased && !observer.cancelled
    &&& marker.text_at("sessionId"@) == Some(observer.session_id)
    &&& marker.get("reset"@) matches Some(reset) && reset.text_at("type"@) == Some(
        "bridge/session_reset"@,
    ) && reset.text_at("sessionId"@) == Some(observer.session_id) && (event_position(
        reset,
    ) matches Some(position) && (hub.canonical matches Some(snapshot) ==> snapshot.epoch
        == position.epoch))
}

/// An observer whose place is fixed by a reset.
pub open spec fn with_place(observer: ObserverModel, reset: JsonModel, position: Position) -> ObserverModel {
    ObserverModel {
        queue: observer.queue.push(text_of_json(reset)),
        owner: Some((position.epoch, position.incarnation)),
        ..observer
    }
}

/// The number of the observer that a marker names.
pub open spec fn marked_observer(marker: JsonModel) -> Option<u64> {
    match marker.get("observerId"@) {
        Some(id) => id.as_u64(),
        None => None,
    }
}

/// The hub after a marker that fixes the place of an observer. The reset is
/// the first thing that the observer is sent. A place is fixed only once; where
/// it cannot be fixed the observer is let go.
pub open spec fn observer_readied(hub: HubModel, marker: JsonModel) -> HubModel {
    match marked_observer(marker) {
        Some(id) => {
            let list = hub.session_subscribers;
            let at = observer_at(list, id);
            if at < 0 || list[at].owner is Some {
                hub
            } else if fixes_place(hub, list[at], marker) && fits(
                list[at].queue,
                text_of_json(marker.get("reset"@)->0),
            ) {
                HubModel {
                    session_subscribers: list.update(
                        at,
                        with_place(
                            list[at],
                            marker.get("reset"@)->0,
                            event_position(marker.get("reset"@)->0)->0,
                        ),
                    ),
                    ..hub
                }
            } else {
                let_go(HubModel { session_subscribers: list.remove(at), ..hub }, list[at])
            }
        },
        None => hub,
    }
}

/// Whether a marker ends an observer: it names its session and its owner.
pub open spec fn ends_observer(observer: ObserverModel, marker: JsonModel) -> bool {
    marker.text_at("sessionId"@) == Some(observer.session_id) && (observer.owner matches Some(
        (epoch, incarnation),
    ) && marker.text_at("bridgeEpoch"@) == Some(epoch) && (marker.get(
        "sessionIncarnation"@,
    ) matches Some(number) && number.as_u64() == Some(incarnation)))
}

/// The hub after a marker that ends an observer. What is in its queue may still
/// be read, and the connection need not be told.
pub open spec fn observer_ended(hub: HubModel, marker: JsonModel) -> HubModel {
    match marked_observer(marker) {
        Some(id) => {
            let list = hub.session_subscribers;
            let at = observer_at(list, id);
            if at >= 0 && ends_observer(list[at], marker) {
                HubModel {
                    session_subscribers: list.remove(at),
                    draining: hub.draining.push(
                        SubscriberModel { id: list[at].id, queue: list[at].queue },
                    ),
                    ..hub
                }
            } else {
                hub
            }
        },
        None => hub,
    }
}

/// The hub after an event for one reader.
pub open spec fn sent_to(hub: HubModel, id: u64, event: Seq<char>) -> HubModel {
    let list = hub.subscribers;
    let at = reader_at(list, id);
    if at < 0 {
        hub
    } else if fits(list[at].queue, event) {
        HubModel {
            subscribers: list.update(
                at,
                SubscriberModel { id: list[at].id, queue: list[at].queue.push(event) },
            ),
            ..hub
        }
    } else {
        HubModel { subscribers: list.remove(at), draining: hub.draining.push(list[at]), ..hub }
    }
}

/// The hub after an event about the state of all sessions, before it is known
/// whether the connection has to be asked for that state.
pub open spec fn runtime_shown(hub: HubModel, event: RuntimeEventModel) -> HubModel {
    let outcome = projected(hub.canonical, event);
    let known = HubModel {
        canonical: outcome.projection,
        canonical_resync_pending: hub.canonical_resync_pending && outcome.projection is None,
        ..hub
    };
    match outcome.public_event {
        Some(text) => shared_published(known, text),
        None => known,
    }
}

/// Whether the connection has to be asked for the state of all sessions: it is
/// no longer known, and nobody has asked.
pub open spec fn asks_for_state(hub: HubModel, event: RuntimeEventModel) -> bool {
    projected(hub.canonical, event).recognized && projected(hub.canonical, event).projection is None
        && !hub.canonical_resync_pending
}

/// The hub after an event about the state of all sessions.
pub open spec fn runtime_published(hub: HubModel, event: RuntimeEventModel) -> HubModel {
    let shown = runtime_shown(hub, event);
    if asks_for_state(hub, event) {
        HubModel { canonical_resync_pending: true, ..shown }
    } else {
        shown
    }
}

/// The hub after an event for all: what it says of the connection is kept, and
/// its normal form and what is told of a session that it opens are handed out.
pub open spec fn ordinarily_published(
    hub: HubModel,
    event: Seq<char>,
    normal: Seq<char>,
    suffix: Seq<Seq<char>>,
) -> HubModel {
    let known = HubModel { bootstrap: bootstrapped_text(hub.bootstrap, event), ..hub };
    let wide = widely_published(known, seq![normal] + suffix);
    all_session_published(session_published(globally_published(wide, normal), normal), suffix)
}

/// The hub after an event of the connection, by what the event is for. What an
/// event about the state of all sessions carries comes read, and an event for
/// all comes with its normal form and with what is to be told of a session that
/// it opens.
pub open spec fn event_published(
    hub: HubModel,
    event: Seq<char>,
    read: RuntimeEventModel,
    normal: Seq<char>,
    suffix: Seq<Seq<char>>,
) -> HubModel {
    match role_of(text_kind(event)) {
        EventRole::ObserverReady => observer_readied(hub, json_of_text(event)->0),
        EventRole::ObserverEnd => observer_ended(hub, json_of_text(event)->0),
        EventRole::Runtime => runtime_published(hub, read),
        EventRole::Direct => match directed(json_of_text(event)->0) {
            Some((id, inner)) => sent_to(hub, id, text_of_json(inner)),
            None => hub,
        },
        EventRole::Ordinary => ordinarily_published(
            hub,
            event,
            normal,
            if json_of_text(normal) matches Some(value) && opened_session(value) is Some {
                suffix
            } else {
                Seq::empty()
            },
        ),
    }
}

/// What an event of the connection asks for.
#[derive(Debug, PartialEq, Eq)]
pub struct Published {
    /// The connection has to be asked for the state of all sessions.
    pub asks: bool,
    /// The connection has to start over.
    pub restart: bool,
}

/// The hub without any readers, after they were let go.
pub open spec fn emptied(hub: HubModel) -> HubModel {
    all_let_go(
        HubModel {
            subscribers: Seq::empty(),
            global_subscribers: Seq::empty(),
            session_subscribers: Seq::empty(),
            draining: hub.draining + hub.subscribers + hub.global_subscribers,
            ..hub
        },
        hub.session_subscribers,
    )
}

/// The hub after a generation of the connection ended.
pub open spec fn finished(hub: HubModel, generation: u64) -> HubModel {
    if hub.generation == generation {
        emptied(HubModel { connected: false, ..hub })
    } else {
        hub
    }
}

/// The hub after it began to shut down.
pub open spec fn shut_down(hub: HubModel) -> HubModel {
    emptied(HubModel { shutting_down: true, ..hub })
}

/// The hub after a reader went away.
pub open spec fn unsubscribed(hub: HubModel, id: u64, generation: u64) -> HubModel {
    let rest = HubModel { draining: without_reader(hub.draining, id), ..hub };
    if hub.generation == generation {
        let list = hub.session_subscribers;
        let at = observer_at(list, id);
        HubModel {
            subscribers: without_reader(hub.subscribers, id),
            global_subscribers: without_reader(hub.global_subscribers, id),
            session_subscribers: without_observer(list, id),
            unobserved: if at >= 0 && list[at].leased {
                hub.unobserved.push((list[at].session_id, list[at].id))
            } else {
                hub.unobserved
            },
            ..rest
        }
    } else {
        rest
    }
}

/// The hub after the lease of an observer was cancelled.
pub open spec fn observer_cancelled(hub: HubModel, id: u64) -> HubModel {
    let list = hub.session_subscribers;
    let at = observer_at(list, id);
    if at >= 0 {
        HubModel {
            session_subscribers: list.update(at, ObserverModel { cancelled: true, ..list[at] }),
            ..hub
        }
    } else {
        hub
    }
}

/// A reader that was let in.
#[derive(Debug, PartialEq, Eq)]
pub struct BridgeSubscription {
    pub id: u64,
    pub generation: u64,
    pub initial_events: Vec<String>,
}

/// What a reader finds.
#[derive(Debug, PartialEq, Eq)]
pub enum NextEvent {
    /// An event.
    Event(String),
    /// Nothing yet.
    Waiting,
    /// Nothing more.
    Ended,
}

impl BridgeHubState {
    /// The hub before anything happened.
    pub fn new() -> (hub: Self)
        ensures
            hub@ == empty_hub(),
    {
        let hub = BridgeHubState {
            generation: 0,
            connected: false,
            shutting_down: false,
            next_subscriber_id: 1,
            subscribers: Vec::new(),
            global_subscribers: Vec::new(),
            session_subscribers: Vec::new(),
            draining: Vec::new(),
            unobserved: Vec::new(),
            bootstrap: BridgeBootstrap::new(),
            canonical: CanonicalProjection::new(),
            canonical_resync_pending: false,
        };
        assert(hub@ =~= empty_hub());
        hub
    }

    /// How many readers there are. More than the largest number that a word
    /// holds are not counted.
    pub fn subscriber_count(&self) -> (count: usize)
        ensures
            reader_count(self@) <= usize::MAX ==> count == reader_count(self@),
            reader_count(self@) > usize::MAX ==> count == usize::MAX,
    {
        self.subscribers.len().saturating_add(self.global_subscribers.len()).saturating_add(
            self.session_subscribers.len(),
        )
    }

    /// The generation of the connection.
    pub fn generation(&self) -> (generation: u64)
        ensures
            generation == self@.generation,
    {
        self.generation
    }

    /// Whether there is a connection.
    pub fn is_connected(&self) -> (connected: bool)
        ensures
            connected == self@.connected,
    {
        self.connected
    }

    /// The projection of the state of all sessions.
    pub fn canonical(&self) -> (canonical: &CanonicalProjection)
        ensures
            canonical@ == self@.canonical,
    {
        &self.canonical
    }

    /// What is known of the connection.
    pub fn bootstrap(&self) -> (bootstrap: &BridgeBootstrap)
        ensures
            bootstrap@ == self@.bootstrap,
    {
        &self.bootstrap
    }

    /// Starts a generation of the connection unless one is there or the hub is
    /// shutting down, and tells which one has to be started.
    pub fn ensure_runtime(&mut self) -> (started: Option<u64>)
        ensures
            final(self)@ == ensured(old(self)@),
            started == if old(self)@.shutting_down || old(self)@.connected {
                None
            } else {
                Some(next_generation(old(self)@.generation))
            },
    {
        if self.shutting_down || self.connected {
            return None;
        }
        self.generation = if self.generation == u64::MAX {
            1
        } else {
            self.generation + 1
        };
        self.bootstrap = BridgeBootstrap::new();
        self.canonical = CanonicalProjection::new();
        self.canonical_resync_pending = false;
        self.connected = true;
        Some(self.generation)
    }

    fn take_number(&mut self) -> (id: u64)
        ensures
            final(self)@ == numbered(old(self)@),
            id == old(self)@.next_subscriber_id,
    {
        let id = self.next_subscriber_id;
        self.next_subscriber_id = if id == u64::MAX {
            0
        } else {
            id + 1
        };
        id
    }

    fn has_place(&self) -> (place: bool)
        ensures
            place == lets_in(self@),
    {
        !self.shutting_down && self.connected && self.subscriber_count() < MAX_SUBSCRIBERS
    }

    /// Lets in a reader of everything. It begins with what is known of the
    /// connection and of the sessions.
    pub fn subscribe(&mut self, replay: &Vec<String>) -> (subscription: Option<BridgeSubscription>)
        ensures
            final(self)@ == subscribed(old(self)@),
            match subscription {
                Some(subscription) => {
                    &&& lets_in(old(self)@)
                    &&& subscription.id == old(self)@.next_subscriber_id
                    &&& subscription.generation == old(self)@.generation
                    &&& texts(subscription.initial_events@) == initial_events(
                        old(self)@,
                        texts(replay@),
                    )
                },
                None => !lets_in(old(self)@),
            },
    {
        let place = self.has_place();
        let id = self.take_number();
        if !place {
            return None;
        }
        let mut events: Vec<String> = Vec::new();
        let ghost mut told: Seq<Seq<char>> = Seq::empty();
        assert(texts(events@) =~= told);
        match self.bootstrap.hello_event() {
            Some(event) => {
                events.push(event.clone());
                proof {
                    told = told.push(event@);
                }
                assert(texts(events@) =~= told);
            },
            None => {},
        }
        assert(told =~= as_list(self@.bootstrap.hello));
        match &self.canonical.snapshot {
            Some(snapshot) => {
                let event = write_snapshot_event(snapshot);
                proof {
                    told = told.push(event@);
                }
                events.push(event);
                assert(texts(events@) =~= told);
            },
            None => {},
        }
        assert(told =~= as_list(self@.bootstrap.hello) + canonical_events(self@));
        push_copies(&mut events, replay);
        let mut after = self.bootstrap.events_after_runtime();
        push_copies(&mut events, &after);
        assert(texts(events@) =~= initial_events(self@, texts(replay@)));
        add_reader(&mut self.subscribers, id);
        Some(BridgeSubscription { id, generation: self.generation, initial_events: events })
    }

    /// Lets in a global reader. It begins with what is known of the connection
    /// and of the logins, never with the state of a session.
    pub fn subscribe_global(&mut self) -> (subscription: Option<BridgeSubscription>)
        ensures
            final(self)@ == subscribed_globally(old(self)@),
            match subscription {
                Some(subscription) => {
                    &&& lets_in(old(self)@)
                    &&& subscription.id == old(self)@.next_subscriber_id
                    &&& subscription.generation == old(self)@.generation
                    &&& texts(subscription.initial_events@) == initial_global_events(old(self)@)
                },
                None => !lets_in(old(self)@),
            },
    {
        let place = self.has_place();
        let id = self.take_number();
        if !place {
            return None;
        }
        let initial_events = self.bootstrap.global_events();
        add_reader(&mut self.global_subscribers, id);
        Some(BridgeSubscription { id, generation: self.generation, initial_events })
    }

    /// Lets in an observer of a session, or tells why not. With a lease it is
    /// sent nothing until its place is fixed.
    pub fn observe_session(&mut self, session_id: &str, leased: bool) -> (outcome: Result<
        (u64, u64),
        &'static str,
    >)
        ensures
            final(self)@ == observing(old(self)@, session_id@, leased),
            match outcome {
                Ok((id, generation)) => {
                    &&& observe_problem(old(self)@) is None
                    &&& id == old(self)@.next_subscriber_id
                    &&& generation == old(self)@.generation
                },
                Err(message) => observe_problem(old(self)@) == Some(message@),
            },
    {
        let place = self.has_place();
        let ready = !self.shutting_down && self.connected;
        let id = self.take_number();
        if !ready {
            return Err("bridge is not ready");
        }
        if !place {
            return Err("too many event subscribers");
        }
        let ghost before = observers(self.session_subscribers@);
        match find_observer(&self.session_subscribers, id) {
            Some(at) => {
                let _ = self.session_subscribers.remove(at);
                assert(observers(self.session_subscribers@) =~= before.remove(at as int));
            },
            None => {},
        }
        let ghost rest = observers(self.session_subscribers@);
        let observer = Observer {
            id,
            session_id: session_id.to_string(),
            queue: Vec::new(),
            leased,
            cancelled: false,
            owner: None,
        };
        assert(texts(observer.queue@) =~= Seq::empty());
        self.session_subscribers.push(observer);
        assert(observers(self.session_subscribers@) =~= rest.push(observer@));
        Ok((id, self.generation))
    }

    fn release_observer(&mut self, observer: Observer)
        ensures
            final(self)@ == let_go(old(self)@, observer@),
    {
        if observer.leased {
            let ghost before = endings(self.unobserved@);
            self.unobserved.push((observer.session_id, observer.id));
            assert(endings(self.unobserved@) =~= before.push((observer.session_id@, observer.id)));
        } else {
            let ghost before = readers(self.draining@);
            let reader = Subscriber { id: observer.id, queue: observer.queue };
            self.draining.push(reader);
            assert(readers(self.draining@) =~= before.push(reader@));
        }
    }

    fn release_observers(&mut self, list: Vec<Observer>)
        ensures
            final(self)@ == all_let_go(old(self)@, observers(list@)),
    {
        let ghost all = observers(list@);
        let ghost start = self@;
        let mut list = list;
        let count = list.len();
        let mut i: usize = 0;
        assert(all.take(0).len() == 0);
        assert(all.skip(0) =~= all);
        while i < count
            invariant
                i <= count,
                count == all.len(),
                observers(list@) == all.skip(i as int),
                self@ == all_let_go(start, all.take(i as int)),
            decreases count - i,
        {
            assert(all.take(i + 1).drop_last() =~= all.take(i as int));
            assert(all.take(i + 1).last() == all[i as int]);
            let ghost here = observers(list@);
            assert(here.len() == list@.len());
            let ghost raw = list@;
            let observer = list.remove(0);
            assert forall|j: int| 0 <= j < list@.len() implies observers(list@)[j] == all.skip(
                i + 1,
            )[j] by {
                assert(list@[j] == raw[j + 1]);
                assert(here[j + 1] == all.skip(i as int)[j + 1]);
            }
            assert(observers(list@) =~= all.skip(i + 1));
            assert(here[0] == all[i as int]);
            assert(observer@ == here[0]);
            self.release_observer(observer);
            i += 1;
        }
        assert(all.take(i as int) =~= all);
    }

    /// Hands an event of a session, by the owner that it names, to the
    /// observers of the session.
    pub fn show_to_observers(
        &mut self,
        session_id: &str,
        event: &str,
        owner: &Option<(String, u64)>,
    )
        ensures
            final(self)@ == shown_to_observers(
                old(self)@,
                session_id@,
                event@,
                owner_model(*owner),
            ),
    {
        let lost = observe_event(&mut self.session_subscribers, session_id, event, owner);
        self.release_observers(lost);
    }

    fn publish_to_session_subscribers(&mut self, event: &str)
        ensures
            final(self)@ == session_published(old(self)@, event@),
    {
        match business_session_event(event) {
            Some((session_id, text)) => {
                let owner = session_event_owner(text.as_str());
                self.show_to_observers(session_id.as_str(), text.as_str(), &owner);
            },
            None => {},
        }
    }

    fn publish_to_subscribers(&mut self, events: &Vec<String>)
        ensures
            final(self)@ == widely_published(old(self)@, texts(events@)),
    {
        deliver(&mut self.subscribers, events, &mut self.draining);
    }

    fn publish_to_global_subscribers(&mut self, event: &str)
        ensures
            final(self)@ == globally_published(old(self)@, event@),
    {
        match global_business_event(event) {
            Some(text) => {
                let mut events: Vec<String> = Vec::new();
                events.push(text);
                assert(texts(events@) =~= seq![text@]);
                deliver(&mut self.global_subscribers, &events, &mut self.draining);
            },
            None => {},
        }
    }

    fn publish_shared_event(&mut self, event: String)
        ensures
            final(self)@ == shared_published(old(self)@, event@),
    {
        let mut events: Vec<String> = Vec::new();
        events.push(event);
        assert(texts(events@) =~= seq![event@]);
        self.publish_to_subscribers(&events);
        self.publish_to_session_subscribers(events[0].as_str());
    }
}

/// What publishes a state or a change names no session of its own.
proof fn lemma_state_is_of_no_session(event: RuntimeEventModel)
    ensures
        public_value(event).text_at("sessionId"@) is None,
{
    reveal_strlit("sessionId");
    reveal_strlit("type");
    reveal_strlit("snapshot");
    reveal_strlit("delta");
    assert("sessionId"@.len() == 9 && "type"@.len() == 4);
    assert("snapshot"@.len() == 8 && "delta"@.len() == 5);
}

/// What an event is for.
pub fn classify_event(event: &str) -> (role: EventRole)
    ensures
        role == role_of(text_kind(event@)),
{
    match Json::parse(event) {
        Some(value) => {
            let kind = value.text_at("type");
            if is_text(kind, "bridge/internal_observer_ready") {
                EventRole::ObserverReady
            } else if is_text(kind, "bridge/internal_observer_end") {
                EventRole::ObserverEnd
            } else if is_internal_runtime_event(event) {
                EventRole::Runtime
            } else if is_internal_direct_event(event) {
                EventRole::Direct
            } else {
                EventRole::Ordinary
            }
        },
        None => EventRole::Ordinary,
    }
}

fn read_marked_observer(marker: &Json) -> (id: Option<u64>)
    ensures
        id == marked_observer(marker@),
{
    match marker.get("observerId") {
        Some(id) => id.as_u64(),
        None => None,
    }
}

/// The place that a reset fixes for an observer, where it fixes one.
fn read_place(
    marker: &Json,
    session_id: &str,
    known: Option<&str>,
    wanted: bool,
) -> (place: Option<(String, u64)>)
    ensures
        match place {
            Some((epoch, incarnation)) => {
                &&& wanted
                &&& marker@.text_at("sessionId"@) == Some(session_id@)
                &&& marker@.get("reset"@) matches Some(reset) && reset.text_at("type"@) == Some(
                    "bridge/session_reset"@,
                ) && reset.text_at("sessionId"@) == Some(session_id@) && (event_position(
                    reset,
                ) matches Some(position) && position.epoch == epoch@ && position.incarnation
                    == incarnation && (known matches Some(known) ==> known@ == position.epoch))
            },
            None => !(wanted && marker@.text_at("sessionId"@) == Some(session_id@) && (marker@.get(
                "reset"@,
            ) matches Some(reset) && reset.text_at("type"@) == Some("bridge/session_reset"@)
                && reset.text_at("sessionId"@) == Some(session_id@) && (event_position(
                reset,
            ) matches Some(position) && (known matches Some(known) ==> known@ == position.epoch)))),
        },
{
    if !wanted || !is_text(marker.text_at("sessionId"), session_id) {
        return None;
    }
    match marker.get("reset") {
        Some(reset) => {
            if !is_text(reset.text_at("type"), "bridge/session_reset") || !is_text(
                reset.text_at("sessionId"),
                session_id,
            ) {
                return None;
            }
            match find_event_position(reset) {
                Some((epoch, incarnation, _)) => {
                    let fits = match known {
                        Some(known) => same_text(known, epoch),
                        None => true,
                    };
                    if fits {
                        Some((epoch.to_string(), incarnation))
                    } else {
                        None
                    }
                },
                None => None,
            }
        },
        None => None,
    }
}

fn is_end_of(observer: &Observer, marker: &Json) -> (ends: bool)
    ensures
        ends == ends_observer(observer@, marker@),
{
    if !is_text(marker.text_at("sessionId"), observer.session_id.as_str()) {
        return false;
    }
    match &observer.owner {
        Some((epoch, incarnation)) => is_text(marker.text_at("bridgeEpoch"), epoch.as_str())
            && match marker.get("sessionIncarnation") {
            Some(number) => match number.as_u64() {
                Some(number) => number == *incarnation,
                None => false,
            },
            None => false,
        },
        None => false,
    }
}

impl BridgeHubState {
    /// Takes a marker that fixes the place of an observer.
    pub fn publish_observer_ready(&mut self, generation: u64, marker: &Json)
        ensures
            final(self)@ == if is_current(old(self)@, generation) {
                observer_readied(old(self)@, marker@)
            } else {
                old(self)@
            },
    {
        if self.generation != generation || !self.connected {
            return;
        }
        let id = match read_marked_observer(marker) {
            Some(id) => id,
            None => {
                return;
            },
        };
        let at = match find_observer(&self.session_subscribers, id) {
            Some(at) => at,
            None => {
                return;
            },
        };
        if self.session_subscribers[at].owner.is_some() {
            return;
        }
        let ghost before = self@;
        let ghost list = self@.session_subscribers;
        let ghost raw = self.session_subscribers@;
        let mut observer = self.session_subscribers.remove(at);
        assert(observers(self.session_subscribers@) =~= list.remove(at as int));
        let known = match &self.canonical.snapshot {
            Some(snapshot) => Some(snapshot.epoch.as_str()),
            None => None,
        };
        let place = read_place(
            marker,
            observer.session_id.as_str(),
            known,
            observer.leased && !observer.cancelled,
        );
        match (place, marker.get("reset")) {
            (Some(owner), Some(reset)) => {
                let text = reset.to_text();
                if has_room(&observer.queue, text.as_str()) {
                    let ghost queue = texts(observer.queue@);
                    observer.queue.push(text);
                    assert(texts(observer.queue@) =~= queue.push(text@));
                    observer.owner = Some(owner);
                    self.session_subscribers.insert(at, observer);
                    assert(observers(self.session_subscribers@) =~= list.update(
                        at as int,
                        observer@,
                    ));
                } else {
                    self.release_observer(observer);
                }
            },
            _ => {
                self.release_observer(observer);
            },
        }
    }

    /// Takes a marker that ends an observer.
    pub fn publish_observer_end(&mut self, generation: u64, marker: &Json)
        ensures
            final(self)@ == if is_current(old(self)@, generation) {
                observer_ended(old(self)@, marker@)
            } else {
                old(self)@
            },
    {
        if self.generation != generation || !self.connected {
            return;
        }
        let id = match read_marked_observer(marker) {
            Some(id) => id,
            None => {
                return;
            },
        };
        let at = match find_observer(&self.session_subscribers, id) {
            Some(at) => at,
            None => {
                return;
            },
        };
        if is_end_of(&self.session_subscribers[at], marker) {
            let ghost list = self@.session_subscribers;
            let ghost before = readers(self.draining@);
            let observer = self.session_subscribers.remove(at);
            assert(observers(self.session_subscribers@) =~= list.remove(at as int));
            let reader = Subscriber { id: observer.id, queue: observer.queue };
            self.draining.push(reader);
            assert(readers(self.draining@) =~= before.push(reader@));
        }
    }

    /// Takes an event about the state of all sessions and tells whether the
    /// connection has to be asked for that state. What is published of the event
    /// does not reach those who observe one session.
    pub fn publish_runtime(&mut self, generation: u64, event: RuntimeEvent) -> (asks: bool)
        requires
            is_current(old(self)@, generation) ==> readable(old(self)@.canonical, event@),
        ensures
            final(self)@ == if is_current(old(self)@, generation) {
                runtime_published(old(self)@, event@)
            } else {
                old(self)@
            },
            asks == (is_current(old(self)@, generation) && asks_for_state(old(self)@, event@)),
            is_plain(public_value(event@), MAX_NESTING as int) ==> final(self)@.session_subscribers
                == old(self)@.session_subscribers && final(self)@.unobserved == old(
                self,
            )@.unobserved,
    {
        if self.generation != generation || !self.connected {
            return false;
        }
        let (recognized, public_event) = self.canonical.update_with_public_event(event);
        if self.canonical.snapshot.is_some() {
            self.canonical_resync_pending = false;
        }
        let asks = recognized && self.canonical.snapshot.is_none()
            && !self.canonical_resync_pending;
        match public_event {
            Some(text) => {
                proof {
                    if is_plain(public_value(event@), MAX_NESTING as int) {
                        lemma_state_is_of_no_session(event@);
                    }
                }
                self.publish_shared_event(text);
            },
            None => {},
        }
        if asks {
            self.canonical_resync_pending = true;
        }
        asks
    }

    fn send_to_subscriber(&mut self, id: u64, event: &str)
        ensures
            final(self)@ == sent_to(old(self)@, id, event@),
    {
        let at = match find_reader(&self.subscribers, id) {
            Some(at) => at,
            None => {
                return;
            },
        };
        let ghost list = readers(self.subscribers@);
        let ghost drained = readers(self.draining@);
        let mut reader = self.subscribers.remove(at);
        assert(readers(self.subscribers@) =~= list.remove(at as int));
        if offer(&mut reader.queue, event) {
            self.subscribers.insert(at, reader);
            assert(readers(self.subscribers@) =~= list.update(at as int, reader@));
        } else {
            self.draining.push(reader);
            assert(readers(self.draining@) =~= drained.push(list[at as int]));
        }
    }

    /// Takes an event for one reader, which is named together with it.
    pub fn publish_direct(&mut self, generation: u64, id: u64, event: &str)
        ensures
            final(self)@ == if is_current(old(self)@, generation) {
                sent_to(old(self)@, id, event@)
            } else {
                old(self)@
            },
    {
        if self.generation == generation && self.connected {
            self.send_to_subscriber(id, event);
        }
    }

    /// Takes an event for all, with its normal form and what is told of a
    /// session that it opens, and tells whether the connection has to start
    /// over: after a login on a terminal.
    pub fn publish_ordinary(
        &mut self,
        generation: u64,
        event: &str,
        normal: &str,
        suffix: &Vec<String>,
    ) -> (restart: bool)
        ensures
            final(self)@ == if is_current(old(self)@, generation) {
                ordinarily_published(old(self)@, event@, normal@, texts(suffix@))
            } else {
                old(self)@
            },
            restart == (is_current(old(self)@, generation) && (json_of_text(
                event@,
            ) matches Some(value) && is_auth_success(value))),
    {
        if self.generation != generation || !self.connected {
            return false;
        }
        self.bootstrap.update(event);
        let mut events: Vec<String> = Vec::new();
        events.push(normal.to_string());
        assert(texts(events@) =~= seq![normal@]);
        push_copies(&mut events, suffix);
        self.publish_to_subscribers(&events);
        self.publish_to_global_subscribers(normal);
        self.publish_to_session_subscribers(normal);
        let ghost start = self@;
        let ghost all = texts(suffix@);
        let mut i: usize = 0;
        assert(all.take(0).len() == 0);
        while i < suffix.len()
            invariant
                i <= suffix@.len(),
                all == texts(suffix@),
                self@ == all_session_published(start, all.take(i as int)),
            decreases suffix.len() - i,
        {
            assert(all.take(i + 1).drop_last() =~= all.take(i as int));
            assert(all.take(i + 1).last() == suffix@[i as int]@);
            self.publish_to_session_subscribers(suffix[i].as_str());
            i += 1;
        }
        assert(all.take(i as int) =~= all);
        terminal_auth_succeeded(event)
    }

    /// Takes an event of a generation of the connection: the event, what was
    /// read of the state that it carries, its normal form, and what is to be
    /// told of a session that it opens.
    pub fn publish(
        &mut self,
        generation: u64,
        event: &str,
        read: RuntimeEvent,
        normal: &str,
        suffix: &Vec<String>,
    ) -> (published: Published)
        requires
            is_current(old(self)@, generation) ==> readable(old(self)@.canonical, read@),
        ensures
            final(self)@ == if is_current(old(self)@, generation) {
                event_published(old(self)@, event@, read@, normal@, texts(suffix@))
            } else {
                old(self)@
            },
            published.asks == (is_current(old(self)@, generation) && role_of(
                text_kind(event@),
            ) is Runtime && asks_for_state(old(self)@, read@)),
            published.restart == (is_current(old(self)@, generation) && role_of(
                text_kind(event@),
            ) is Ordinary && (json_of_text(event@) matches Some(value) && is_auth_success(value))),
    {
        let mut asks = false;
        let mut restart = false;
        match classify_event(event) {
            EventRole::ObserverReady => match Json::parse(event) {
                Some(marker) => {
                    self.publish_observer_ready(generation, &marker);
                },
                None => {},
            },
            EventRole::ObserverEnd => match Json::parse(event) {
                Some(marker) => {
                    self.publish_observer_end(generation, &marker);
                },
                None => {},
            },
            EventRole::Runtime => {
                asks = self.publish_runtime(generation, read);
            },
            EventRole::Direct => match directed_bridge_event(event) {
                Some((id, inner)) => {
                    self.publish_direct(generation, id, inner.as_str());
                },
                None => {},
            },
            EventRole::Ordinary => {
                if opened_runtime_session_id(normal).is_some() {
                    restart = self.publish_ordinary(generation, event, normal, suffix);
                } else {
                    let nothing: Vec<String> = Vec::new();
                    assert(texts(nothing@) =~= Seq::empty());
                    restart = self.publish_ordinary(generation, event, normal, &nothing);
                }
            },
        }
        Published { asks, restart }
    }

    fn release_all(&mut self)
        ensures
            final(self)@ == emptied(old(self)@),
    {
        let ghost drained = readers(self.draining@);
        let ghost wide = readers(self.subscribers@);
        let ghost global = readers(self.global_subscribers@);
        self.draining.append(&mut self.subscribers);
        assert(readers(self.draining@) =~= drained + wide);
        self.draining.append(&mut self.global_subscribers);
        assert(readers(self.draining@) =~= drained + wide + global);
        let mut list: Vec<Observer> = Vec::new();
        std::mem::swap(&mut list, &mut self.session_subscribers);
        assert(readers(self.subscribers@) =~= Seq::empty());
        assert(readers(self.global_subscribers@) =~= Seq::empty());
        assert(observers(self.session_subscribers@) =~= Seq::empty());
        self.release_observers(list);
    }

    /// Ends a generation of the connection and tells whether it was the one
    /// that is there.
    pub fn finish_generation(&mut self, generation: u64) -> (ended: bool)
        ensures
            final(self)@ == finished(old(self)@, generation),
            ended == (old(self)@.generation == generation),
    {
        if self.generation != generation {
            return false;
        }
        self.connected = false;
        self.release_all();
        true
    }

    /// Begins to shut down and tells whether there is a connection to end.
    pub fn shutdown(&mut self) -> (ends: bool)
        ensures
            final(self)@ == shut_down(old(self)@),
            ends == old(self)@.connected,
    {
        self.shutting_down = true;
        let ends = self.connected;
        self.release_all();
        ends
    }

    /// Takes out a reader that went away.
    pub fn unsubscribe(&mut self, id: u64, generation: u64)
        ensures
            final(self)@ == unsubscribed(old(self)@, id, generation),
    {
        let _ = remove_reader(&mut self.draining, id);
        if self.generation != generation {
            return;
        }
        let _ = remove_reader(&mut self.subscribers, id);
        let _ = remove_reader(&mut self.global_subscribers, id);
        match find_observer(&self.session_subscribers, id) {
            Some(at) => {
                let ghost list = observers(self.session_subscribers@);
                let observer = self.session_subscribers.remove(at);
                assert(observers(self.session_subscribers@) =~= list.remove(at as int));
                assert(observer@ == list[at as int]);
                if observer.leased {
                    let ghost before = endings(self.unobserved@);
                    self.unobserved.push((observer.session_id, observer.id));
                    assert(endings(self.unobserved@) =~= before.push(
                        (observer.session_id@, observer.id),
                    ));
                }
            },
            None => {},
        }
    }

    /// Cancels the lease of an observer.
    pub fn cancel_observation(&mut self, id: u64)
        ensures
            final(self)@ == observer_cancelled(old(self)@, id),
    {
        match find_observer(&self.session_subscribers, id) {
            Some(at) => {
                let ghost list = observers(self.session_subscribers@);
                let mut observer = self.session_subscribers.remove(at);
                observer.cancelled = true;
                self.session_subscribers.insert(at, observer);
                assert(observers(self.session_subscribers@) =~= list.update(at as int, observer@));
            },
            None => {},
        }
    }

    /// Whether the place of an observer is fixed; nothing where it is not
    /// there.
    pub fn is_activated(&self, id: u64) -> (activated: Option<bool>)
        ensures
            match activated {
                Some(activated) => observer_at(self@.session_subscribers, id) >= 0 && activated
                    == (self@.session_subscribers[observer_at(
                    self@.session_subscribers,
                    id,
                )].owner is Some),
                None => observer_at(self@.session_subscribers, id) < 0,
            },
    {
        match find_observer(&self.session_subscribers, id) {
            Some(at) => {
                assert(self@.session_subscribers[at as int] == self.session_subscribers@[at as int]@);
                Some(self.session_subscribers[at].owner.is_some())
            },
            None => None,
        }
    }

    /// Takes the list of those who no longer observe.
    pub fn take_unobserved(&mut self) -> (list: Vec<(String, u64)>)
        ensures
            endings(list@) == old(self)@.unobserved,
            final(self)@ == (HubModel { unobserved: Seq::empty(), ..old(self)@ }),
    {
        let mut list: Vec<(String, u64)> = Vec::new();
        std::mem::swap(&mut list, &mut self.unobserved);
        assert(endings(self.unobserved@) =~= Seq::empty());
        list
    }
}

/// What a reader finds in its queue.
pub enum NextModel {
    Event(Seq<char>),
    Waiting,
    Ended,
}

impl View for NextEvent {
    type V = NextModel;

    open spec fn view(&self) -> NextModel {
        match self {
            NextEvent::Event(event) => NextModel::Event(event@),
            NextEvent::Waiting => NextModel::Waiting,
            NextEvent::Ended => NextModel::Ended,
        }
    }
}

/// What is found at the head of a queue; an empty one holds something else.
pub open spec fn head_of(queue: Seq<Seq<char>>, otherwise: NextModel) -> NextModel {
    if queue.len() > 0 {
        NextModel::Event(queue[0])
    } else {
        otherwise
    }
}

/// A queue without its head.
pub open spec fn tail_of(queue: Seq<Seq<char>>) -> Seq<Seq<char>> {
    if queue.len() > 0 {
        queue.drop_first()
    } else {
        queue
    }
}

/// The readers after one of them read.
pub open spec fn with_read(list: Seq<SubscriberModel>, at: int) -> Seq<SubscriberModel> {
    list.update(at, SubscriberModel { id: list[at].id, queue: tail_of(list[at].queue) })
}

/// The hub after a reader read.
pub open spec fn hub_read(hub: HubModel, id: u64) -> HubModel {
    let observer = observer_at(hub.session_subscribers, id);
    let wide = reader_at(hub.subscribers, id);
    let global = reader_at(hub.global_subscribers, id);
    let drained = reader_at(hub.draining, id);
    if observer >= 0 {
        let reader = hub.session_subscribers[observer];
        if reader.leased && reader.cancelled {
            hub
        } else {
            HubModel {
                session_subscribers: hub.session_subscribers.update(
                    observer,
                    ObserverModel { queue: tail_of(reader.queue), ..reader },
                ),
                ..hub
            }
        }
    } else if wide >= 0 {
        HubModel { subscribers: with_read(hub.subscribers, wide), ..hub }
    } else if global >= 0 {
        HubModel { global_subscribers: with_read(hub.global_subscribers, global), ..hub }
    } else if drained >= 0 {
        HubModel { draining: with_read(hub.draining, drained), ..hub }
    } else {
        hub
    }
}

/// What a reader finds: the events of its queue in their order, whether it is
/// still a reader or draining. A cancelled observer finds nothing more.
pub open spec fn next_for(hub: HubModel, id: u64) -> NextModel {
    let observer = observer_at(hub.session_subscribers, id);
    let wide = reader_at(hub.subscribers, id);
    let global = reader_at(hub.global_subscribers, id);
    let drained = reader_at(hub.draining, id);
    if observer >= 0 {
        let reader = hub.session_subscribers[observer];
        if reader.leased && reader.cancelled {
            NextModel::Ended
        } else {
            head_of(reader.queue, NextModel::Waiting)
        }
    } else if wide >= 0 {
        head_of(hub.subscribers[wide].queue, NextModel::Waiting)
    } else if global >= 0 {
        head_of(hub.global_subscribers[global].queue, NextModel::Waiting)
    } else if drained >= 0 {
        head_of(hub.draining[drained].queue, NextModel::Ended)
    } else {
        NextModel::Ended
    }
}

fn read_from(list: &mut Vec<Subscriber>, at: usize) -> (event: Option<String>)
    requires
        at < old(list)@.len(),
    ensures
        readers(final(list)@) == with_read(readers(old(list)@), at as int),
        match event {
            Some(event) => readers(old(list)@)[at as int].queue.len() > 0 && event@ == readers(
                old(list)@,
            )[at as int].queue[0],
            None => readers(old(list)@)[at as int].queue.len() == 0,
        },
{
    let ghost before = readers(list@);
    let mut reader = list.remove(at);
    assert(reader@ == before[at as int]);
    let event = take_first(&mut reader.queue);
    list.insert(at, reader);
    assert(readers(list@) =~= with_read(before, at as int));
    event
}

fn or_otherwise(event: Option<String>, otherwise: NextEvent) -> (next: NextEvent)
    ensures
        next@ == match event {
            Some(event) => NextModel::Event(event@),
            None => otherwise@,
        },
{
    match event {
        Some(event) => NextEvent::Event(event),
        None => otherwise,
    }
}

/// What a text holds as JSON, or null.
pub open spec fn parsed_or_null(text: Option<Seq<char>>) -> JsonModel {
    match text {
        Some(text) => match json_of_text(text) {
            Some(value) => value,
            None => JsonModel::Null,
        },
        None => JsonModel::Null,
    }
}

fn parse_or_null(text: Option<&String>) -> (value: Json)
    ensures
        value@ == parsed_or_null(
            match text {
                Some(text) => Some(text@),
                None => None,
            },
        ),
{
    match text {
        Some(text) => match Json::parse(text.as_str()) {
            Some(value) => value,
            None => Json::Null,
        },
        None => Json::Null,
    }
}

/// What is told of the connection.
pub open spec fn hub_info(hub: HubModel) -> JsonModel {
    JsonModel::Object(Map::empty()).with_field(
        "generation"@,
        JsonModel::Integer(hub.generation as int),
    ).with_field(
        "bridgeEpoch"@,
        match hub.canonical {
            Some(snapshot) => JsonModel::String(snapshot.epoch),
            None => JsonModel::Null,
        },
    ).with_field("connected"@, JsonModel::Bool(hub.connected)).with_field(
        "hello"@,
        parsed_or_null(hub.bootstrap.hello),
    ).with_field("initialized"@, parsed_or_null(hub.bootstrap.initialized)).with_field(
        "phase"@,
        parsed_or_null(hub.bootstrap.phase),
    ).with_field("error"@, parsed_or_null(hub.bootstrap.error))
}

impl BridgeHubState {
    /// Reads the next event of a reader.
    pub fn take_event(&mut self, id: u64) -> (next: NextEvent)
        ensures
            final(self)@ == hub_read(old(self)@, id),
            next@ == next_for(old(self)@, id),
    {
        match find_observer(&self.session_subscribers, id) {
            Some(at) => {
                let ghost list = observers(self.session_subscribers@);
                let mut observer = self.session_subscribers.remove(at);
                assert(observer@ == list[at as int]);
                let next = if observer.leased && observer.cancelled {
                    NextEvent::Ended
                } else {
                    or_otherwise(take_first(&mut observer.queue), NextEvent::Waiting)
                };
                self.session_subscribers.insert(at, observer);
                assert(observers(self.session_subscribers@) =~= list.update(at as int, observer@));
                assert(list.update(at as int, list[at as int]) =~= list);
                return next;
            },
            None => {},
        }
        match find_reader(&self.subscribers, id) {
            Some(at) => {
                return or_otherwise(read_from(&mut self.subscribers, at), NextEvent::Waiting);
            },
            None => {},
        }
        match find_reader(&self.global_subscribers, id) {
            Some(at) => {
                return or_otherwise(
                    read_from(&mut self.global_subscribers, at),
                    NextEvent::Waiting,
                );
            },
            None => {},
        }
        match find_reader(&self.draining, id) {
            Some(at) => or_otherwise(read_from(&mut self.draining, at), NextEvent::Ended),
            None => NextEvent::Ended,
        }
    }

    /// What is told of the connection.
    pub fn runtime_info(&self) -> (info: Json)
        ensures
            info@ == hub_info(self@),
    {
        let mut info = Json::object();
        info.put("generation", Json::Unsigned(self.generation));
        let epoch = match &self.canonical.snapshot {
            Some(snapshot) => Json::text(snapshot.epoch.as_str()),
            None => Json::Null,
        };
        info.put("bridgeEpoch", epoch);
        info.put("connected", Json::Bool(self.connected));
        info.put("hello", parse_or_null(self.bootstrap.hello_event()));
        info.put("initialized", parse_or_null(self.bootstrap.initialized_event()));
        info.put("phase", parse_or_null(self.bootstrap.phase_event()));
        info.put("error", parse_or_null(self.bootstrap.error_event()));
        info
    }
}

fn push_copies(list: &mut Vec<String>, more: &Vec<String>)
    ensures
        texts(final(list)@) == texts(old(list)@) + texts(more@),
{
    let ghost before = texts(list@);
    let ghost added = texts(more@);
    let mut i: usize = 0;
    assert(before + added.take(0) =~= before);
    while i < more.len()
        invariant
            i <= more@.len(),
            added == texts(more@),
            texts(list@) == before + added.take(i as int),
        decreases more.len() - i,
    {
        let ghost here = texts(list@);
        list.push(more[i].clone());
        assert(texts(list@) =~= here.push(added[i as int]));
        assert(here.push(added[i as int]) =~= before + added.take(i + 1));
        i += 1;
    }
    assert(added.take(i as int) =~= added);
}

fn add_reader(list: &mut Vec<Subscriber>, id: u64)
    ensures
        readers(final(list)@) == with_reader(readers(old(list)@), id),
{
    let _ = remove_reader(list, id);
    let ghost rest = readers(list@);
    let reader = Subscriber { id, queue: Vec::new() };
    assert(texts(reader.queue@) =~= Seq::empty());
    list.push(reader);
    assert(readers(list@) =~= rest.push(reader@));
}

} // verus!
