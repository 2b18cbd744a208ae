//! What a new subscriber has to know of the connection before it follows its
//! events.
use crate::events::{
    belongs_to_auth, concerns_connection, global_business_event, global_text, is_auth_kind,
    is_connection_error, kind_of,
};
use crate::json::{json_of_text, Json, JsonModel};
use crate::semantic::texts;
use crate::session_update::{optional_text, saturating_sum};
use crate::text::is_text;
use vstd::prelude::*;
use vstd::utf8::*;

verus! {

/// The largest number of login events that are kept.
pub const MAX_AUTH_REPLAY_EVENTS: usize = 1_024;

/// The largest size of the login events that are kept, in bytes.
pub const MAX_AUTH_REPLAY_BYTES: usize = 8_388_608;

/// The events that tell how the connection stands, and the last events of
/// logins.
#[derive(Debug)]
pub struct BridgeBootstrap {
    hello: Option<String>,
    initialized: Option<String>,
    error: Option<String>,
    phase: Option<String>,
    terminal_error: bool,
    auth_events: Vec<String>,
    auth_event_bytes: usize,
}

#[verifier::ext_equal]
pub struct BootstrapModel {
    pub hello: Option<Seq<char>>,
    pub initialized: Option<Seq<char>>,
    pub error: Option<Seq<char>>,
    pub phase: Option<Seq<char>>,
    pub terminal_error: bool,
    pub auth_events: Seq<Seq<char>>,
    pub auth_event_bytes: usize,
}

impl View for BridgeBootstrap {
    type V = BootstrapModel;

    closed spec fn view(&self) -> BootstrapModel {
        BootstrapModel {
            hello: optional_text(self.hello),
            initialized: optional_text(self.initialized),
            error: optional_text(self.error),
            phase: optional_text(self.phase),
            terminal_error: self.terminal_error,
            auth_events: texts(self.auth_events@),
            auth_event_bytes: self.auth_event_bytes,
        }
    }
}

/// What is known of a connection that has just been started.
pub open spec fn empty_bootstrap() -> BootstrapModel {
    BootstrapModel {
        hello: None,
        initialized: None,
        error: None,
        phase: None,
        terminal_error: false,
        auth_events: Seq::empty(),
        auth_event_bytes: 0,
    }
}

/// A size less another one; it does not go below zero.
pub open spec fn size_without(bytes: usize, less: nat) -> usize {
    if bytes >= less {
        (bytes - less) as usize
    } else {
        0
    }
}

/// Login events and their size.
#[verifier::ext_equal]
pub struct AuthReplay {
    pub events: Seq<Seq<char>>,
    pub bytes: usize,
}

/// Whether there are too many login events, or too large ones.
pub open spec fn is_over_limit(replay: AuthReplay) -> bool {
    replay.events.len() > MAX_AUTH_REPLAY_EVENTS || replay.bytes > MAX_AUTH_REPLAY_BYTES
}

/// The last login events that fit the limits.
pub open spec fn trimmed(replay: AuthReplay) -> AuthReplay
    decreases replay.events.len(),
{
    if is_over_limit(replay) && replay.events.len() > 0 {
        trimmed(
            AuthReplay {
                events: replay.events.drop_first(),
                bytes: size_without(replay.bytes, encode_utf8(replay.events[0]).len()),
            },
        )
    } else {
        replay
    }
}

/// Login events with one more.
pub open spec fn with_auth_event(known: BootstrapModel, text: Seq<char>) -> BootstrapModel {
    let replay = trimmed(
        AuthReplay {
            events: known.auth_events.push(text),
            bytes: saturating_sum(known.auth_event_bytes, encode_utf8(text).len()),
        },
    );
    BootstrapModel { auth_events: replay.events, auth_event_bytes: replay.bytes, ..known }
}

/// What is known of a connection after an event.
pub open spec fn bootstrapped(
    known: BootstrapModel,
    text: Seq<char>,
    event: JsonModel,
) -> BootstrapModel {
    let kind = kind_of(event);
    if kind == Some("bridge/hello"@) {
        BootstrapModel { hello: Some(text), ..known }
    } else if kind == Some("acp/initialized"@) {
        BootstrapModel { initialized: Some(text), ..known }
    } else if is_connection_error(event) {
        BootstrapModel { error: Some(text), ..known }
    } else if kind == Some("bridge/phase"@) {
        BootstrapModel {
            phase: Some(text),
            terminal_error: event.text_at("phase"@) == Some("error"@),
            error: if event.text_at("phase"@) == Some("ready"@) {
                None
            } else {
                known.error
            },
            ..known
        }
    } else if is_auth_kind(kind) {
        with_auth_event(known, text)
    } else {
        known
    }
}

/// What is known of a connection after the text of an event. A text that is
/// no event changes nothing.
pub open spec fn bootstrapped_text(known: BootstrapModel, text: Seq<char>) -> BootstrapModel {
    match json_of_text(text) {
        Some(event) => bootstrapped(known, text, event),
        None => known,
    }
}

/// A text as a list.
pub open spec fn as_list(text: Option<Seq<char>>) -> Seq<Seq<char>> {
    match text {
        Some(text) => seq![text],
        None => Seq::empty(),
    }
}

/// The events that a subscriber is sent after the runtime state: an error is
/// among them only while the connection is over.
pub open spec fn after_runtime(known: BootstrapModel) -> Seq<Seq<char>> {
    as_list(known.initialized) + (if known.terminal_error {
        as_list(known.error)
    } else {
        Seq::empty()
    }) + as_list(known.phase)
}

/// What the global readers are handed of some events.
pub open spec fn global_of(events: Seq<Seq<char>>) -> Seq<Seq<char>>
    decreases events.len(),
{
    if events.len() == 0 {
        Seq::empty()
    } else {
        global_of(events.drop_last()) + as_list(global_text(events.last()))
    }
}

fn push_text(list: &mut Vec<String>, text: &Option<String>)
    ensures
        texts(final(list)@) == texts(old(list)@) + as_list(optional_text(*text)),
{
    match text {
        Some(text) => {
            list.push(text.clone());
        },
        None => {},
    }
    assert(texts(list@) =~= texts(old(list)@) + as_list(optional_text(*text)));
}

impl BridgeBootstrap {
    /// What is known of a connection that has just been started.
    pub fn new() -> (bootstrap: Self)
        ensures
            bootstrap@ == empty_bootstrap(),
    {
        let bootstrap = BridgeBootstrap {
            hello: None,
            initialized: None,
            error: None,
            phase: None,
            terminal_error: false,
            auth_events: Vec::new(),
            auth_event_bytes: 0,
        };
        assert(bootstrap@ =~= empty_bootstrap());
        bootstrap
    }

    fn push_auth_event(&mut self, text: &str)
        ensures
            final(self)@ == with_auth_event(old(self)@, text@),
    {
        let ghost goal = with_auth_event(self@, text@);
        self.auth_event_bytes = self.auth_event_bytes.saturating_add(text.as_bytes().len());
        self.auth_events.push(text.to_string());
        assert(texts(self.auth_events@) =~= old(self)@.auth_events.push(text@));
        let ghost all = texts(self.auth_events@);
        let ghost start = self@;
        let mut drop: usize = 0;
        let mut bytes: usize = self.auth_event_bytes;
        assert(all.skip(0) =~= all);
        while drop < self.auth_events.len() && (self.auth_events.len() - drop
            > MAX_AUTH_REPLAY_EVENTS || bytes > MAX_AUTH_REPLAY_BYTES)
            invariant
                drop <= self.auth_events@.len(),
                all == texts(self.auth_events@),
                self@ == start,
                trimmed(AuthReplay { events: all, bytes: start.auth_event_bytes }) == trimmed(
                    AuthReplay { events: all.skip(drop as int), bytes },
                ),
            decreases self.auth_events.len() - drop,
        {
            let size = self.auth_events[drop].as_str().as_bytes().len();
            proof {
                let rest = all.skip(drop as int);
                assert(rest[0] == all[drop as int]);
                assert(rest.drop_first() =~= all.skip(drop + 1));
            }
            bytes = bytes.saturating_sub(size);
            drop += 1;
        }
        let ghost whole = self.auth_events@;
        let rest = self.auth_events.split_off(drop);
        self.auth_events = rest;
        self.auth_event_bytes = bytes;
        assert(texts(self.auth_events@) =~= all.skip(drop as int));
    }

    /// Takes a read event into what is known of the connection.
    pub fn update_with(&mut self, text: &str, event: &Json)
        ensures
            final(self)@ == bootstrapped(old(self)@, text@, event@),
    {
        let kind = event.text_at("type");
        if is_text(kind, "bridge/hello") {
            self.hello = Some(text.to_string());
        } else if is_text(kind, "acp/initialized") {
            self.initialized = Some(text.to_string());
        } else if concerns_connection(event) {
            self.error = Some(text.to_string());
        } else if is_text(kind, "bridge/phase") {
            self.phase = Some(text.to_string());
            let phase = event.text_at("phase");
            self.terminal_error = is_text(phase, "error");
            if is_text(phase, "ready") {
                self.error = None;
            }
        } else if belongs_to_auth(kind) {
            self.push_auth_event(text);
        }
    }

    /// Takes the text of an event into what is known of the connection.
    pub fn update(&mut self, event: &str)
        ensures
            final(self)@ == bootstrapped_text(old(self)@, event@),
    {
        match Json::parse(event) {
            Some(value) => {
                self.update_with(event, &value);
            },
            None => {},
        }
    }

    /// The event that greets a subscriber.
    pub fn hello_event(&self) -> (event: Option<&String>)
        ensures
            match event {
                Some(event) => self@.hello == Some(event@),
                None => self@.hello is None,
            },
    {
        match &self.hello {
            Some(event) => Some(event),
            None => None,
        }
    }

    /// The event that the Agent has been initialized with.
    pub fn initialized_event(&self) -> (event: Option<&String>)
        ensures
            match event {
                Some(event) => self@.initialized == Some(event@),
                None => self@.initialized is None,
            },
    {
        match &self.initialized {
            Some(event) => Some(event),
            None => None,
        }
    }

    /// The last error of the connection.
    pub fn error_event(&self) -> (event: Option<&String>)
        ensures
            match event {
                Some(event) => self@.error == Some(event@),
                None => self@.error is None,
            },
    {
        match &self.error {
            Some(event) => Some(event),
            None => None,
        }
    }

    /// The event that tells the phase of the connection.
    pub fn phase_event(&self) -> (event: Option<&String>)
        ensures
            match event {
                Some(event) => self@.phase == Some(event@),
                None => self@.phase is None,
            },
    {
        match &self.phase {
            Some(event) => Some(event),
            None => None,
        }
    }

    /// The number of login events that are kept, and their size.
    pub fn auth_replay(&self) -> (replay: (usize, usize))
        ensures
            replay.0 == self@.auth_events.len(),
            replay.1 == self@.auth_event_bytes,
    {
        (self.auth_events.len(), self.auth_event_bytes)
    }

    /// The events that a subscriber is sent after the runtime state.
    pub fn events_after_runtime(&self) -> (events: Vec<String>)
        ensures
            texts(events@) == after_runtime(self@),
    {
        let mut events: Vec<String> = Vec::new();
        assert(texts(events@) =~= Seq::<Seq<char>>::empty());
        push_text(&mut events, &self.initialized);
        if self.terminal_error {
            push_text(&mut events, &self.error);
        }
        push_text(&mut events, &self.phase);
        assert(texts(events@) =~= after_runtime(self@));
        events
    }

    /// All events that tell how the connection stands.
    pub fn events(&self) -> (events: Vec<String>)
        ensures
            texts(events@) == as_list(self@.hello) + after_runtime(self@),
    {
        let mut events: Vec<String> = Vec::new();
        assert(texts(events@) =~= Seq::<Seq<char>>::empty());
        push_text(&mut events, &self.hello);
        push_text(&mut events, &self.initialized);
        if self.terminal_error {
            push_text(&mut events, &self.error);
        }
        push_text(&mut events, &self.phase);
        assert(texts(events@) =~= as_list(self@.hello) + after_runtime(self@));
        events
    }

    /// The events that a global reader is sent first.
    pub fn global_events(&self) -> (events: Vec<String>)
        ensures
            texts(events@) == self@.auth_events + global_of(after_runtime(self@)),
    {
        let mut events: Vec<String> = Vec::new();
        let mut i: usize = 0;
        while i < self.auth_events.len()
            invariant
                i <= self.auth_events@.len(),
                texts(events@) == texts(self.auth_events@).take(i as int),
            decreases self.auth_events.len() - i,
        {
            let ghost before = texts(events@);
            events.push(self.auth_events[i].clone());
            assert(texts(events@) =~= before.push(texts(self.auth_events@)[i as int]));
            assert(texts(self.auth_events@).take(i + 1) =~= before.push(
                texts(self.auth_events@)[i as int],
            ));
            i += 1;
        }
        let ghost auth = self@.auth_events;
        assert(texts(events@) =~= auth);
        let after = self.events_after_runtime();
        let ghost all = texts(after@);
        let mut k: usize = 0;
        assert(texts(events@) =~= auth + global_of(all.take(0)));
        while k < after.len()
            invariant
                k <= after@.len(),
                all == texts(after@),
                texts(events@) == auth + global_of(all.take(k as int)),
            decreases after.len() - k,
        {
            assert(all.take(k + 1).drop_last() =~= all.take(k as int));
            let handed = global_business_event(after[k].as_str());
            push_text(&mut events, &handed);
            k += 1;
            assert(texts(events@) =~= auth + global_of(all.take(k as int)));
        }
        assert(all.take(k as int) =~= all);
        events
    }
}

/// The size of some texts.
pub open spec fn total_size(events: Seq<Seq<char>>) -> nat
    decreases events.len(),
{
    if events.len() == 0 {
        0
    } else {
        encode_utf8(events[0]).len() + total_size(events.drop_first())
    }
}

proof fn lemma_total_size_push(events: Seq<Seq<char>>, text: Seq<char>)
    ensures
        total_size(events.push(text)) == total_size(events) + encode_utf8(text).len(),
    decreases events.len(),
{
    if events.len() == 0 {
        assert(events.push(text).drop_first() =~= Seq::<Seq<char>>::empty());
        assert(total_size(events.push(text).drop_first()) == 0);
    } else {
        assert(events.push(text)[0] == events[0]);
        assert(events.push(text).drop_first() =~= events.drop_first().push(text));
        lemma_total_size_push(events.drop_first(), text);
    }
}

proof fn lemma_trimmed_fits(replay: AuthReplay)
    requires
        replay.bytes == total_size(replay.events),
    ensures
        !is_over_limit(trimmed(replay)),
        trimmed(replay).bytes == total_size(trimmed(replay).events),
    decreases replay.events.len(),
{
    if is_over_limit(replay) && replay.events.len() > 0 {
        lemma_trimmed_fits(
            AuthReplay {
                events: replay.events.drop_first(),
                bytes: size_without(replay.bytes, encode_utf8(replay.events[0]).len()),
            },
        );
    }
}

/// Whether login events fit the limits.
pub open spec fn fits_limits(events: Seq<Seq<char>>) -> bool {
    events.len() <= MAX_AUTH_REPLAY_EVENTS && total_size(events) <= MAX_AUTH_REPLAY_BYTES
}

/// Whether a list is the longest end of another one that fits the limits.
pub open spec fn is_longest_end(kept: Seq<Seq<char>>, all: Seq<Seq<char>>) -> bool {
    &&& kept.len() <= all.len()
    &&& kept == all.skip(all.len() - kept.len())
    &&& fits_limits(kept)
    &&& forall|n: int| 0 <= n < all.len() - kept.len() ==> !fits_limits(#[trigger] all.skip(n))
}

proof fn lemma_trimmed_is_longest(replay: AuthReplay)
    requires
        replay.bytes == total_size(replay.events),
    ensures
        is_longest_end(trimmed(replay).events, replay.events),
    decreases replay.events.len(),
{
    let all = replay.events;
    assert(all.skip(0) =~= all);
    if is_over_limit(replay) && all.len() > 0 {
        let rest = AuthReplay {
            events: all.drop_first(),
            bytes: size_without(replay.bytes, encode_utf8(all[0]).len()),
        };
        lemma_trimmed_is_longest(rest);
        let kept = trimmed(replay).events;
        assert(rest.events.skip(rest.events.len() - kept.len()) =~= all.skip(
            all.len() - kept.len(),
        ));
        assert forall|n: int| 0 <= n < all.len() - kept.len() implies !fits_limits(
            #[trigger] all.skip(n),
        ) by {
            if n > 0 {
                assert(rest.events.skip(n - 1) =~= all.skip(n));
            }
        }
    }
}

/// Of the login events that arrive, the last ones are kept, as many as fit the
/// limits: no longer end of them would fit.
pub proof fn law_last_logins_are_kept(known: BootstrapModel, text: Seq<char>, event: JsonModel)
    requires
        known.auth_event_bytes == total_size(known.auth_events),
        known.auth_event_bytes + encode_utf8(text).len() <= usize::MAX,
        is_auth_kind(kind_of(event)),
    ensures
        is_longest_end(
            bootstrapped(known, text, event).auth_events,
            known.auth_events.push(text),
        ),
{
    lemma_total_size_push(known.auth_events, text);
    lemma_trimmed_is_longest(
        AuthReplay {
            events: known.auth_events.push(text),
            bytes: saturating_sum(known.auth_event_bytes, encode_utf8(text).len()),
        },
    );
    reveal_strlit("bridge/hello");
    reveal_strlit("acp/initialized");
    reveal_strlit("bridge/error");
    reveal_strlit("bridge/phase");
    reveal_strlit("acp/authenticated");
    reveal_strlit("acp/logged_out");
    reveal_strlit("bridge/auth_terminal_started");
    reveal_strlit("bridge/auth_terminal_output");
    reveal_strlit("bridge/auth_terminal_exited");
    assert("bridge/hello"@.len() == 12 && "bridge/error"@.len() == 12 && "bridge/phase"@.len() == 12);
    assert("acp/initialized"@.len() == 15);
    assert("acp/authenticated"@.len() == 17 && "acp/logged_out"@.len() == 14);
    assert("bridge/auth_terminal_started"@.len() == 28);
    assert("bridge/auth_terminal_output"@.len() == 27);
    assert("bridge/auth_terminal_exited"@.len() == 27);
}

/// However many login events arrive, those that are kept stay within the
/// limits, and their size is counted exactly.
pub proof fn law_auth_replay_stays_bounded(known: BootstrapModel, text: Seq<char>)
    requires
        known.auth_event_bytes == total_size(known.auth_events),
        !is_over_limit(
            AuthReplay { events: known.auth_events, bytes: known.auth_event_bytes },
        ),
        known.auth_event_bytes + encode_utf8(text).len() <= usize::MAX,
    ensures
        ({
            let next = bootstrapped_text(known, text);
            &&& next.auth_event_bytes == total_size(next.auth_events)
            &&& next.auth_events.len() <= MAX_AUTH_REPLAY_EVENTS
            &&& next.auth_event_bytes <= MAX_AUTH_REPLAY_BYTES
        }),
{
    lemma_total_size_push(known.auth_events, text);
    lemma_trimmed_fits(
        AuthReplay {
            events: known.auth_events.push(text),
            bytes: saturating_sum(known.auth_event_bytes, encode_utf8(text).len()),
        },
    );
}

/// Once the connection is ready, no earlier error is told any more.
pub proof fn law_ready_connection_has_no_error(known: BootstrapModel, text: Seq<char>, event: JsonModel)
    requires
        kind_of(event) == Some("bridge/phase"@),
        event.text_at("phase"@) == Some("ready"@),
    ensures
        bootstrapped(known, text, event).error is None,
        after_runtime(bootstrapped(known, text, event)) == as_list(known.initialized) + seq![text],
{
    reveal_strlit("bridge/phase");
    reveal_strlit("bridge/hello");
    reveal_strlit("acp/initialized");
    reveal_strlit("bridge/error");
    reveal_strlit("ready");
    reveal_strlit("error");
    assert("bridge/phase"@[7] == 'p');
    assert("bridge/hello"@[7] == 'h');
    assert("bridge/error"@[7] == 'e');
    assert("acp/initialized"@.len() == 15);
    assert("bridge/phase"@.len() == 12);
    assert("ready"@[0] == 'r');
    assert("error"@[0] == 'e');
    assert(after_runtime(bootstrapped(known, text, event)) =~= as_list(known.initialized)
        + seq![text]);
}

} // verus!
