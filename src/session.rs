use vstd::prelude::*;
use crate::message::{ChatMessage, MessageView, arrival_text, departure_text, rejection_text};
use rand::SeedableRng;
use rand::seq::SliceRandom;

verus! {

#[verifier::external_type_specification]
#[verifier::external_body]
pub struct ExStdRng(rand::rngs::StdRng);

/// Relies on `rand::SeedableRng::from_rng` with `rand::rngs::OsRng`: a
/// generator seeded from the operating system, or an error when it has no
/// entropy to give.
#[verifier::external_body]
fn os_seeded_rng() -> Option<rand::rngs::StdRng> {
    rand::rngs::StdRng::from_rng(rand::rngs::OsRng).ok()
}

/// Relies on `rand::SeedableRng::seed_from_u64`: a generator from a fixed seed.
#[verifier::external_body]
fn fixed_seed_rng(seed: u64) -> rand::rngs::StdRng {
    rand::rngs::StdRng::seed_from_u64(seed)
}

/// Relies on `rand::seq::SliceRandom::choose`: for a non-empty slice it
/// returns one of its elements.
#[verifier::external_body]
fn choose_char(rng: &mut rand::rngs::StdRng, letters: &[char]) -> (r: char)
    requires
        letters@.len() > 0,
    ensures
        letters@.contains(r),
{
    *letters.choose(rng).unwrap()
}

/// Relies on `String::push`: appends one character.
#[verifier::external_body]
fn push_char(s: &mut String, c: char)
    ensures
        final(s)@ == old(s)@.push(c),
{
    s.push(c)
}

pub open spec fn is_hex_digit(c: char) -> bool {
    ('0' <= c && c <= '9') || ('a' <= c && c <= 'f')
}

/// The prefix of every default display name.
pub open spec fn anonymous_prefix() -> Seq<char> {
    "Anonymous User "@
}

/// A default display name: the prefix followed by four lowercase hex digits.
pub open spec fn is_anonymous_name(name: Seq<char>) -> bool {
    &&& name.len() == anonymous_prefix().len() + 4
    &&& name.subrange(0, anonymous_prefix().len() as int) == anonymous_prefix()
    &&& forall|i: int|
        anonymous_prefix().len() <= i < name.len() ==> #[trigger] is_hex_digit(name[i])
}

/// The default display name with the given four hex digits.
pub fn anonymous_name(suffix: &[char; 4]) -> (r: String)
    requires
        forall|i: int| 0 <= i < 4 ==> is_hex_digit(#[trigger] suffix@[i]),
    ensures
        r@ == anonymous_prefix() + suffix@,
        is_anonymous_name(r@),
{
    let mut name = String::from_str("Anonymous User ");
    proof {
        reveal_strlit("Anonymous User ");
    }
    let mut n: usize = 0;
    while n < 4
        invariant
            n <= 4,
            name@ == anonymous_prefix() + suffix@.subrange(0, n as int),
        decreases 4 - n,
    {
        push_char(&mut name, suffix[n]);
        assert(suffix@.subrange(0, n + 1) == suffix@.subrange(0, n as int).push(suffix@[n as int]));
        n = n + 1;
    }
    assert(suffix@.subrange(0, 4) == suffix@);
    let ghost plen = anonymous_prefix().len() as int;
    assert(name@.subrange(0, plen) == anonymous_prefix());
    assert forall|i: int| plen <= i < name@.len() implies #[trigger] is_hex_digit(name@[i]) by {
        assert(name@[i] == suffix@[i - plen]);
    }
    name
}

/// A display name drawn at random: "Anonymous User " and four hex digits,
/// each picked from the sixteen with a generator seeded by the operating
/// system (or from a fixed seed when the system has no entropy to give).
pub fn random_display_name() -> (r: String)
    ensures
        is_anonymous_name(r@),
{
    let letters: [char; 16] = [
        '0', '1', '2', '3', '4', '5', '6', '7', '8', '9', 'a', 'b', 'c', 'd', 'e', 'f',
    ];
    assert forall|c: char| letters@.contains(c) implies is_hex_digit(c) by {
        let k = choose|k: int| 0 <= k < letters@.len() && letters@[k] == c;
    }
    let mut rng = match os_seeded_rng() {
        Some(rng) => rng,
        None => fixed_seed_rng(0),
    };
    let d0 = choose_char(&mut rng, &letters);
    let d1 = choose_char(&mut rng, &letters);
    let d2 = choose_char(&mut rng, &letters);
    let d3 = choose_char(&mut rng, &letters);
    let suffix: [char; 4] = [d0, d1, d2, d3];
    assert(suffix@[0] == d0 && suffix@[1] == d1 && suffix@[2] == d2 && suffix@[3] == d3);
    anonymous_name(&suffix)
}

/// Where a session is in its life; there is no way back from `Closed`.
#[derive(Clone, Copy, Debug, PartialEq, Eq, Structural)]
pub enum Phase {
    Open,
    Closed,
}

/// The live state of one client connection.
#[derive(Debug)]
pub struct Session {
    pub name: String,
    pub phase: Phase,
}

/// The mathematical value of a `Session`.
pub struct SessionView {
    pub name: Seq<char>,
    pub open: bool,
}

impl View for Session {
    type V = SessionView;

    open spec fn view(&self) -> SessionView {
        SessionView { name: self.name@, open: self.phase == Phase::Open }
    }
}

/// What the client's side of a connection produced.
#[derive(Debug, PartialEq, Eq)]
pub enum ClientFrame {
    /// A text frame, with what it parsed to as an envelope, if it did.
    Text { raw: String, parsed: Option<ChatMessage> },
    /// A binary, ping, pong or other control frame.
    Other,
    /// The client closed the connection, or the transport failed.
    Closed,
}

/// What the session's broadcast subscription produced.
#[derive(Debug, PartialEq, Eq)]
pub enum TopicEvent {
    Message(ChatMessage),
    /// The subscription fell behind and lost items.
    Lagged,
    /// The topic is gone.
    Closed,
}

/// What the connection must do after an event.
#[derive(Debug, PartialEq, Eq)]
pub enum SessionAction {
    /// Submit an envelope to the relay.
    Post(ChatMessage),
    /// Send an envelope to this client only; failing to do so ends nothing.
    Reply(ChatMessage),
    /// Send a broadcast envelope to this client; failing to do so ends the session.
    Deliver(ChatMessage),
    /// End the session: send an abnormal close first where `abnormal` holds,
    /// then submit `notice` to the relay.
    Disconnect { abnormal: bool, notice: ChatMessage },
    /// Nothing to do.
    Nothing,
}

pub enum ActionView {
    Post(MessageView),
    Reply(MessageView),
    Deliver(MessageView),
    Disconnect { abnormal: bool, notice: MessageView },
    Nothing,
}

impl View for SessionAction {
    type V = ActionView;

    open spec fn view(&self) -> ActionView {
        match self {
            SessionAction::Post(m) => ActionView::Post(m@),
            SessionAction::Reply(m) => ActionView::Reply(m@),
            SessionAction::Deliver(m) => ActionView::Deliver(m@),
            SessionAction::Disconnect { abnormal, notice } => ActionView::Disconnect {
                abnormal: *abnormal,
                notice: notice@,
            },
            SessionAction::Nothing => ActionView::Nothing,
        }
    }
}

/// The departure of a session named `name`: it closes, and the relay is told.
pub open spec fn departure(name: Seq<char>, abnormal: bool) -> (SessionView, ActionView) {
    (
        SessionView { name, open: false },
        ActionView::Disconnect { abnormal, notice: MessageView::System { content: departure_text(name) } },
    )
}

/// The state and action that a client frame leads to.
pub open spec fn client_step(s: SessionView, frame: ClientFrame) -> (SessionView, ActionView) {
    if !s.open {
        (s, ActionView::Nothing)
    } else {
        match frame {
            ClientFrame::Text { raw, parsed } => match parsed {
                None => (
                    s,
                    ActionView::Post(MessageView::Text { username: s.name, content: raw@, signature: None }),
                ),
                Some(m) => match m@ {
                    MessageView::Text { .. } => (s, ActionView::Post(m@)),
                    MessageView::System { .. } => (
                        s,
                        ActionView::Reply(MessageView::System { content: rejection_text() }),
                    ),
                    MessageView::Identity { username } => (
                        SessionView { name: username, open: true },
                        ActionView::Post(MessageView::System { content: arrival_text(username) }),
                    ),
                },
            },
            ClientFrame::Other => (s, ActionView::Nothing),
            ClientFrame::Closed => departure(s.name, false),
        }
    }
}

/// The state and action that a broadcast event leads to.
pub open spec fn topic_step(s: SessionView, event: TopicEvent) -> (SessionView, ActionView) {
    if !s.open {
        (s, ActionView::Nothing)
    } else {
        match event {
            TopicEvent::Message(m) => (s, ActionView::Deliver(m@)),
            TopicEvent::Lagged => departure(s.name, true),
            TopicEvent::Closed => departure(s.name, true),
        }
    }
}

/// The state and action after a broadcast envelope could not be sent to the client.
pub open spec fn delivery_failed_step(s: SessionView) -> (SessionView, ActionView) {
    if !s.open {
        (s, ActionView::Nothing)
    } else {
        departure(s.name, false)
    }
}

impl Session {
    /// An open session named `name`.
    pub fn new(name: String) -> (r: Session)
        ensures
            r@ == (SessionView { name: name@, open: true }),
    {
        Session { name, phase: Phase::Open }
    }

    /// An open session with a randomly drawn default name.
    pub fn with_random_name() -> (r: Session)
        ensures
            r@.open,
            is_anonymous_name(r@.name),
    {
        Session::new(random_display_name())
    }

    pub fn is_open(&self) -> (r: bool)
        ensures
            r == self@.open,
    {
        self.phase == Phase::Open
    }

    fn close(&mut self, abnormal: bool) -> (r: SessionAction)
        requires
            old(self)@.open,
        ensures
            (final(self)@, r@) == departure(old(self)@.name, abnormal),
    {
        self.phase = Phase::Closed;
        SessionAction::Disconnect { abnormal, notice: ChatMessage::departure(&self.name) }
    }

    /// Handles what the client sent.
    pub fn on_client_frame(&mut self, frame: ClientFrame) -> (r: SessionAction)
        ensures
            (final(self)@, r@) == client_step(old(self)@, frame),
    {
        if !self.is_open() {
            return SessionAction::Nothing;
        }
        match frame {
            ClientFrame::Text { raw, parsed } => match parsed {
                None => SessionAction::Post(ChatMessage::anonymous_text(&self.name, raw)),
                Some(m) => match m {
                    ChatMessage::TextMessage { .. } => SessionAction::Post(m),
                    ChatMessage::SystemMessage { .. } => SessionAction::Reply(ChatMessage::rejection()),
                    ChatMessage::ConnectionUsername { username } => {
                        let notice = ChatMessage::arrival(&username);
                        self.name = username;
                        SessionAction::Post(notice)
                    },
                },
            },
            ClientFrame::Other => SessionAction::Nothing,
            ClientFrame::Closed => self.close(false),
        }
    }

    /// Handles what the broadcast subscription produced.
    pub fn on_topic_event(&mut self, event: TopicEvent) -> (r: SessionAction)
        ensures
            (final(self)@, r@) == topic_step(old(self)@, event),
    {
        if !self.is_open() {
            return SessionAction::Nothing;
        }
        match event {
            TopicEvent::Message(m) => SessionAction::Deliver(m),
            TopicEvent::Lagged => self.close(true),
            TopicEvent::Closed => self.close(true),
        }
    }

    /// Handles a failure to send a broadcast envelope to the client.
    pub fn on_delivery_failed(&mut self) -> (r: SessionAction)
        ensures
            (final(self)@, r@) == delivery_failed_step(old(self)@),
    {
        if !self.is_open() {
            return SessionAction::Nothing;
        }
        self.close(false)
    }
}


/// A client that names itself `name` and then sends text
/// that is no envelope has the relay told, in this order, that `name`
/// connected and that `name` said that text, unsigned.
pub proof fn lemma_identity_rename(s: SessionView, id_raw: String, id: ChatMessage, raw: String)
    requires
        s.open,
        id@ is Identity,
    ensures
        ({
            let (s1, a1) = client_step(s, ClientFrame::Text { raw: id_raw, parsed: Some(id) });
            let (s2, a2) = client_step(s1, ClientFrame::Text { raw, parsed: None });
            &&& a1 == ActionView::Post(MessageView::System { content: arrival_text(id@->Identity_username) })
            &&& a2 == ActionView::Post(MessageView::Text {
                username: id@->Identity_username,
                content: raw@,
                signature: None,
            })
            &&& s2 == (SessionView { name: id@->Identity_username, open: true })
        }),
{
}

/// A system message sent by a client is never submitted to the
/// relay; the client alone is answered with the rejection notice, and the
/// session stays as it was.
pub proof fn lemma_system_message_rejected(s: SessionView, raw: String, m: ChatMessage)
    requires
        s.open,
        m@ is System,
    ensures
        client_step(s, ClientFrame::Text { raw, parsed: Some(m) }) == (
            s,
            ActionView::Reply(MessageView::System { content: rejection_text() }),
        ),
{
}

/// A session whose subscription lagged ends with an abnormal
/// close and submits its departure notice; from then on it does nothing,
/// whatever it is handed.
pub proof fn lemma_lag_disconnects(s: SessionView, frame: ClientFrame, event: TopicEvent)
    requires
        s.open,
    ensures
        topic_step(s, TopicEvent::Lagged) == (
            SessionView { name: s.name, open: false },
            ActionView::Disconnect { abnormal: true, notice: MessageView::System { content: departure_text(s.name) } },
        ),
        client_step(topic_step(s, TopicEvent::Lagged).0, frame).1 == ActionView::Nothing,
        topic_step(topic_step(s, TopicEvent::Lagged).0, event).1 == ActionView::Nothing,
{
}

/// A closed session stays closed: no event reopens it or makes it act.
pub proof fn lemma_closed_is_final(s: SessionView, frame: ClientFrame, event: TopicEvent)
    requires
        !s.open,
    ensures
        client_step(s, frame) == (s, ActionView::Nothing),
        topic_step(s, event) == (s, ActionView::Nothing),
        delivery_failed_step(s) == (s, ActionView::Nothing),
{
}

} // verus!
