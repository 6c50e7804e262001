use vstd::prelude::*;

use crate::config::ButtonView;
use crate::connection_state::ConnectionState;
use crate::error::{IpcError, ProtocolError};
use crate::frame::{decode_frame, encode_frame, frame_bytes, parse_frame, HEADER_LEN, MAX_PAYLOAD_LEN};

verus! {

/// Pattern that a directory entry's name must match to be tried as an endpoint:
/// the tag followed by a decimal number, anywhere in the name.
pub const ENDPOINT_PATTERN: &'static str = "discord-ipc-[0-9]+";

/// The tag that names an endpoint.
pub open spec fn endpoint_tag() -> Seq<char> {
    seq!['d', 'i', 's', 'c', 'o', 'r', 'd', '-', 'i', 'p', 'c', '-']
}

pub open spec fn is_ascii_digit(c: char) -> bool {
    '0' <= c && c <= '9'
}

/// Whether `name` holds the endpoint tag followed by at least one ASCII digit.
pub open spec fn has_endpoint_tag(name: Seq<char>) -> bool {
    exists|i: int|
        0 <= i && i + endpoint_tag().len() < name.len() && #[trigger] name.subrange(
            i,
            i + endpoint_tag().len(),
        ) == endpoint_tag() && is_ascii_digit(name[i + endpoint_tag().len()])
}

/// Relies on `regex::Regex::new` and `Regex::is_match`, which is true if and only if
/// the pattern matches anywhere in the text. The endpoint pattern compiles, and matches
/// exactly where the tag is followed by one or more ASCII digits.
#[verifier::external_body]
fn regex_is_match(pattern: &str, text: &str) -> (r: Option<bool>)
    ensures
        pattern@ == ENDPOINT_PATTERN@ ==> r == Some(has_endpoint_tag(text@)),
{
    match regex::Regex::new(pattern) {
        Ok(re) => Some(re.is_match(text)),
        Err(_) => None,
    }
}

/// The views of a list of strings.
pub open spec fn texts(v: Seq<String>) -> Seq<Seq<char>> {
    v.map_values(|s: String| s@)
}

/// The names, in the order given, that look like endpoints.
pub open spec fn endpoint_candidates(names: Seq<Seq<char>>) -> Seq<Seq<char>>
    decreases names.len(),
{
    if names.len() == 0 {
        seq![]
    } else {
        let rest = endpoint_candidates(names.drop_last());
        if has_endpoint_tag(names.last()) {
            rest.push(names.last())
        } else {
            rest
        }
    }
}

/// Keeps the names that look like endpoints, in the order given.
pub fn select_endpoints(names: &Vec<String>) -> (r: Vec<String>)
    ensures
        texts(r@) == endpoint_candidates(texts(names@)),
{
    let mut out: Vec<String> = Vec::new();
    let mut i: usize = 0;
    while i < names.len()
        invariant
            i <= names@.len(),
            texts(out@) == endpoint_candidates(texts(names@).take(i as int)),
        decreases names@.len() - i,
    {
        let name = &names[i];
        let keep = regex_is_match(ENDPOINT_PATTERN, name.as_str());
        assert(texts(names@).take(i + 1).drop_last() =~= texts(names@).take(i as int));
        assert(texts(names@).take(i + 1).last() == name@);
        if keep == Some(true) {
            out.push(name.clone());
            assert(texts(out@) =~= endpoint_candidates(texts(names@).take(i as int)).push(name@));
        }
        i = i + 1;
    }
    assert(texts(names@).take(names@.len() as int) =~= texts(names@));
    out
}

/// What a stream manager holds: its state, the endpoints found by the last
/// discovery, the index of the one being tried, and the endpoint it is connected to.
pub struct StreamManagerView {
    pub state: ConnectionState,
    pub candidates: Seq<Seq<char>>,
    pub next: nat,
    pub endpoint: Option<Seq<char>>,
}

/// What the driver of a connection does next.
pub enum ConnectAction {
    /// Open the endpoint of this name and report whether that worked.
    Attempt(String),
    /// The connection is open.
    Connected,
    /// Discovery is over without a connection.
    Fail(IpcError),
}

/// The view of a `ConnectAction`.
pub enum ConnectStep {
    Attempt(Seq<char>),
    Connected,
    Fail(IpcError),
}

impl View for ConnectAction {
    type V = ConnectStep;

    open spec fn view(&self) -> ConnectStep {
        match self {
            ConnectAction::Attempt(name) => ConnectStep::Attempt(name@),
            ConnectAction::Connected => ConnectStep::Connected,
            ConnectAction::Fail(e) => ConnectStep::Fail(*e),
        }
    }
}

/// Start of discovery over the entries of the endpoint directory: the candidates are
/// the entries that look like endpoints; the first one is tried, if there is one.
pub open spec fn connect_spec(names: Seq<Seq<char>>) -> (StreamManagerView, ConnectStep) {
    let c = endpoint_candidates(names);
    (
        StreamManagerView {
            state: ConnectionState::Pending,
            candidates: c,
            next: 0,
            endpoint: None,
        },
        if c.len() == 0 {
            ConnectStep::Fail(IpcError::Discovery)
        } else {
            ConnectStep::Attempt(c[0])
        },
    )
}

/// Whether a candidate is being tried.
pub open spec fn awaiting_attempt(m: StreamManagerView) -> bool {
    m.state == ConnectionState::Pending && m.next < m.candidates.len()
}

/// What the outcome of one attempt leads to: the first success is kept; after a
/// failure the next candidate is tried; when none is left, discovery fails with the
/// number of attempts made.
pub open spec fn attempt_spec(m: StreamManagerView, connected: bool) -> (
    StreamManagerView,
    ConnectStep,
) {
    if !awaiting_attempt(m) {
        (m, ConnectStep::Fail(IpcError::NotConnected))
    } else if connected {
        (
            StreamManagerView {
                state: ConnectionState::Connected,
                endpoint: Some(m.candidates[m.next as int]),
                ..m
            },
            ConnectStep::Connected,
        )
    } else if m.next + 1 < m.candidates.len() {
        (
            StreamManagerView { next: m.next + 1, ..m },
            ConnectStep::Attempt(m.candidates[m.next + 1 as int]),
        )
    } else {
        (
            StreamManagerView { next: m.next + 1, ..m },
            ConnectStep::Fail(IpcError::Connection { attempts: m.candidates.len() as usize }),
        )
    }
}

/// A driver that answers each attempt with the next of `outcomes`: where it ends, and
/// how many attempts it made.
pub open spec fn drive(m: StreamManagerView, step: ConnectStep, outcomes: Seq<bool>) -> (
    StreamManagerView,
    ConnectStep,
    nat,
)
    decreases outcomes.len(),
{
    if step is Attempt && outcomes.len() > 0 {
        let (m2, step2) = attempt_spec(m, outcomes[0]);
        let (m3, step3, k) = drive(m2, step2, outcomes.drop_first());
        (m3, step3, k + 1)
    } else {
        (m, step, 0)
    }
}

/// Discovery over entries of which none looks like an endpoint fails with a
/// discovery error before any attempt, and never reaches `Connected`.
pub proof fn lemma_no_candidates_fails(names: Seq<Seq<char>>, outcomes: Seq<bool>)
    requires
        endpoint_candidates(names).len() == 0,
    ensures
        ({
            let (m, step) = connect_spec(names);
            let (m2, step2, attempts) = drive(m, step, outcomes);
            &&& step2 == ConnectStep::Fail(IpcError::Discovery)
            &&& attempts == 0
            &&& m2.state != ConnectionState::Connected
            &&& m2.endpoint is None
        }),
{
}

/// From the attempt at candidate `m.next`, when every attempt fails but the one at
/// the last candidate, the driver connects to the last candidate and stops there.
proof fn lemma_drive_to_last(m: StreamManagerView, outcomes: Seq<bool>)
    requires
        awaiting_attempt(m),
        outcomes.len() >= m.candidates.len() - m.next,
        forall|i: int| 0 <= i < m.candidates.len() - 1 - m.next ==> !outcomes[i],
        outcomes[m.candidates.len() - 1 - m.next],
    ensures
        drive(m, ConnectStep::Attempt(m.candidates[m.next as int]), outcomes) == (
        StreamManagerView {
            state: ConnectionState::Connected,
            next: (m.candidates.len() - 1) as nat,
            endpoint: Some(m.candidates.last()),
            ..m
        },
        ConnectStep::Connected,
        (m.candidates.len() - m.next) as nat,
        ),
    decreases m.candidates.len() - m.next,
{
    let (m2, step2) = attempt_spec(m, outcomes[0]);
    let rest = outcomes.drop_first();
    if m.next + 1 < m.candidates.len() {
        assert(!outcomes[0]);
        assert forall|i: int| 0 <= i < m2.candidates.len() - 1 - m2.next implies !rest[i] by {
            assert(rest[i] == outcomes[i + 1]);
        }
        assert(rest[m2.candidates.len() - 1 - m2.next] == outcomes[m.candidates.len() - 1
            - m.next]);
        assert(step2 == ConnectStep::Attempt(m2.candidates[m2.next as int]));
        lemma_drive_to_last(m2, rest);
    } else {
        assert(outcomes[0]);
        assert(step2 == ConnectStep::Connected);
        assert(drive(m2, step2, rest) == (m2, step2, 0nat));
    }
}

/// Discovery with exactly one candidate that accepts the connection succeeds: the
/// state becomes `Connected` and the endpoint is held, after one attempt.
pub proof fn lemma_single_candidate_connects(names: Seq<Seq<char>>, outcomes: Seq<bool>)
    requires
        endpoint_candidates(names).len() == 1,
        outcomes.len() >= 1,
        outcomes[0],
    ensures
        ({
            let (m, step) = connect_spec(names);
            let (m2, step2, attempts) = drive(m, step, outcomes);
            &&& step2 == ConnectStep::Connected
            &&& m2.state == ConnectionState::Connected
            &&& m2.endpoint == Some(endpoint_candidates(names)[0])
            &&& attempts == 1
        }),
{
    let (m, step) = connect_spec(names);
    lemma_drive_to_last(m, outcomes);
}

/// Discovery over `n` candidates of which only the last accepts the connection
/// connects to that last one after exactly `n` attempts, whatever outcomes would
/// have followed: no attempt is made after the success.
pub proof fn lemma_last_candidate_connects(names: Seq<Seq<char>>, outcomes: Seq<bool>)
    requires
        endpoint_candidates(names).len() >= 1,
        outcomes.len() >= endpoint_candidates(names).len(),
        forall|i: int| 0 <= i < endpoint_candidates(names).len() - 1 ==> !outcomes[i],
        outcomes[endpoint_candidates(names).len() - 1],
    ensures
        ({
            let (m, step) = connect_spec(names);
            let (m2, step2, attempts) = drive(m, step, outcomes);
            &&& step2 == ConnectStep::Connected
            &&& m2.state == ConnectionState::Connected
            &&& m2.endpoint == Some(endpoint_candidates(names).last())
            &&& attempts == endpoint_candidates(names).len()
        }),
{
    let (m, step) = connect_spec(names);
    lemma_drive_to_last(m, outcomes);
}

/// A transport is held exactly while the state is `Connected`.
pub open spec fn handle_iff_connected(m: StreamManagerView) -> bool {
    (m.endpoint is Some) <==> (m.state == ConnectionState::Connected)
}

/// Discovery starts without a handle, and each reported attempt keeps a handle
/// exactly while the state is `Connected`; so does letting go of the connection.
pub proof fn lemma_handle_iff_connected(
    m: StreamManagerView,
    names: Seq<Seq<char>>,
    connected: bool,
)
    ensures
        handle_iff_connected(connect_spec(names).0),
        handle_iff_connected(m) ==> handle_iff_connected(attempt_spec(m, connected).0),
        handle_iff_connected(
            StreamManagerView { state: ConnectionState::Disconnected, endpoint: None, ..m },
        ),
{
}

/// Owner of the connection state and of the endpoint that the transport is open on.
pub struct StreamManager {
    state: ConnectionState,
    candidates: Vec<String>,
    next: usize,
    endpoint: Option<String>,
}

impl View for StreamManager {
    type V = StreamManagerView;

    closed spec fn view(&self) -> StreamManagerView {
        StreamManagerView {
            state: self.state,
            candidates: texts(self.candidates@),
            next: self.next as nat,
            endpoint: match self.endpoint {
                Some(e) => Some(e@),
                None => None,
            },
        }
    }
}

impl StreamManager {
    /// A manager with no connection.
    pub fn new() -> (r: Self)
        ensures
            r@.state == ConnectionState::Disconnected,
            r@.candidates.len() == 0,
            r@.next == 0,
            r@.endpoint is None,
            handle_iff_connected(r@),
    {
        let r = StreamManager {
            state: ConnectionState::Disconnected,
            candidates: Vec::new(),
            next: 0,
            endpoint: None,
        };
        assert(r@.candidates =~= Seq::<Seq<char>>::empty());
        r
    }

    pub fn state(&self) -> (r: ConnectionState)
        ensures
            r == self@.state,
    {
        self.state
    }

    /// Whether a transport is held.
    pub fn is_connected(&self) -> (r: bool)
        ensures
            r == self@.endpoint is Some,
    {
        self.endpoint.is_some()
    }

    /// Starts discovery over the names of the entries in the endpoint directory, in
    /// the order the directory gave them.
    pub fn connect(&mut self, entry_names: &Vec<String>) -> (r: ConnectAction)
        ensures
            (final(self)@, r@) == connect_spec(texts(entry_names@)),
    {
        let candidates = select_endpoints(entry_names);
        self.state = ConnectionState::Pending;
        self.endpoint = None;
        self.next = 0;
        let first = if candidates.len() == 0 {
            ConnectAction::Fail(IpcError::Discovery)
        } else {
            ConnectAction::Attempt(candidates[0].clone())
        };
        self.candidates = candidates;
        first
    }

    /// Takes the outcome of the attempt that the last action asked for.
    pub fn report_attempt(&mut self, connected: bool) -> (r: ConnectAction)
        ensures
            (final(self)@, r@) == attempt_spec(old(self)@, connected),
    {
        if !(matches!(self.state, ConnectionState::Pending) && self.next < self.candidates.len()) {
            return ConnectAction::Fail(IpcError::NotConnected);
        }
        if connected {
            self.endpoint = Some(self.candidates[self.next].clone());
            self.state = ConnectionState::Connected;
            return ConnectAction::Connected;
        }
        self.next = self.next + 1;
        if self.next < self.candidates.len() {
            ConnectAction::Attempt(self.candidates[self.next].clone())
        } else {
            ConnectAction::Fail(IpcError::Connection { attempts: self.candidates.len() })
        }
    }

    /// Lets go of the transport. The caller flushes and shuts it down first.
    pub fn disconnect(&mut self) -> (r: Result<(), IpcError>)
        ensures
            old(self)@.endpoint is None ==> r == Err::<(), IpcError>(IpcError::NotConnected)
                && final(self)@ == old(self)@,
            old(self)@.endpoint is Some ==> r is Ok && final(self)@ == (StreamManagerView {
                state: ConnectionState::Disconnected,
                endpoint: None,
                ..old(self)@
            }),
    {
        if self.endpoint.is_none() {
            return Err(IpcError::NotConnected);
        }
        self.endpoint = None;
        self.state = ConnectionState::Disconnected;
        Ok(())
    }

    /// The frame to send for a payload (compact JSON text) under `opcode`.
    pub fn write(&self, payload: &[u8], opcode: u8) -> (r: Result<Vec<u8>, IpcError>)
        ensures
            match r {
                Ok(frame) => {
                    &&& self@.endpoint is Some
                    &&& payload@.len() <= MAX_PAYLOAD_LEN
                    &&& frame@ == frame_bytes(opcode as u32, payload@)
                },
                Err(e) => if self@.endpoint is None {
                    e == IpcError::NotConnected
                } else {
                    payload@.len() > MAX_PAYLOAD_LEN && e == IpcError::Protocol(
                        ProtocolError::FrameTooLarge,
                    )
                },
            },
    {
        if self.endpoint.is_none() {
            return Err(IpcError::NotConnected);
        }
        encode_frame(opcode as u32, payload)
    }

    /// Decodes the frame in the bytes that arrived: the eight header bytes, then as
    /// many payload bytes as the header announced. Fewer bytes mean the stream closed.
    pub fn read(&self, received: &[u8]) -> (r: Result<(u32, Vec<u8>), IpcError>)
        ensures
            match r {
                Ok((opcode, payload)) => self@.endpoint is Some && parse_frame(received@) == Some(
                    (opcode, payload@),
                ),
                Err(e) => if self@.endpoint is None {
                    e == IpcError::NotConnected
                } else {
                    &&& parse_frame(received@) is None
                    &&& received@.len() < HEADER_LEN ==> e == IpcError::Protocol(
                        ProtocolError::ShortHeader,
                    )
                    &&& received@.len() >= HEADER_LEN ==> e == IpcError::Protocol(
                        ProtocolError::ShortBody,
                    )
                },
            },
    {
        if self.endpoint.is_none() {
            return Err(IpcError::NotConnected);
        }
        decode_frame(received)
    }
}

/// One member of a received JSON object, as far as decoding needs to know it.
pub enum FieldValue {
    Absent,
    Null,
    Text(String),
    Unsigned(u64),
    /// Any other JSON value.
    Other,
}

/// The members of a received JSON object that tell its shape. `data` holds the
/// compact JSON text of the `data` member, if there is one.
pub struct RawMessage {
    pub code: FieldValue,
    pub message: FieldValue,
    pub cmd: FieldValue,
    pub data: Option<String>,
    pub evt: FieldValue,
    pub nonce: FieldValue,
}

/// A decoded reply from the peer. `data` is the compact JSON text of its member.
pub enum IncomingMessage {
    Response { cmd: String, data: String, evt: Option<String>, nonce: Option<String> },
    Error { code: u32, message: String },
}

/// An optional string member: absent and `null` both mean none; any other
/// non-string value makes the message malformed (outer `None`).
pub open spec fn optional_text(f: FieldValue) -> Option<Option<String>> {
    match f {
        FieldValue::Absent => Some(None),
        FieldValue::Null => Some(None),
        FieldValue::Text(s) => Some(Some(s)),
        _ => None,
    }
}

/// The message that a received object stands for. A `code` member marks the error
/// shape, which also needs a string `message` and a code that fits 32 bits; any
/// other object is a response, which needs a string `cmd` and a `data` member.
pub open spec fn message_of(raw: RawMessage) -> Option<IncomingMessage> {
    if !(raw.code is Absent) {
        match (raw.code, raw.message) {
            (FieldValue::Unsigned(code), FieldValue::Text(message)) => if code <= u32::MAX {
                Some(IncomingMessage::Error { code: code as u32, message })
            } else {
                None
            },
            _ => None,
        }
    } else {
        match (raw.cmd, raw.data, optional_text(raw.evt), optional_text(raw.nonce)) {
            (FieldValue::Text(cmd), Some(data), Some(evt), Some(nonce)) => Some(
                IncomingMessage::Response { cmd, data, evt, nonce },
            ),
            _ => None,
        }
    }
}

fn take_optional_text(f: FieldValue) -> (r: Result<Option<String>, IpcError>)
    ensures
        match optional_text(f) {
            Some(t) => r == Ok::<Option<String>, IpcError>(t),
            None => r == Err::<Option<String>, IpcError>(
                IpcError::Protocol(ProtocolError::MalformedMessage),
            ),
        },
{
    match f {
        FieldValue::Absent => Ok(None),
        FieldValue::Null => Ok(None),
        FieldValue::Text(s) => Ok(Some(s)),
        _ => Err(IpcError::Protocol(ProtocolError::MalformedMessage)),
    }
}

/// Tells a reply's shape by the presence of a `code` member.
pub fn decode_message(raw: RawMessage) -> (r: Result<IncomingMessage, IpcError>)
    ensures
        match message_of(raw) {
            Some(m) => r == Ok::<IncomingMessage, IpcError>(m),
            None => r == Err::<IncomingMessage, IpcError>(
                IpcError::Protocol(ProtocolError::MalformedMessage),
            ),
        },
{
    let malformed = IpcError::Protocol(ProtocolError::MalformedMessage);
    match raw.code {
        FieldValue::Absent => {},
        FieldValue::Unsigned(code) => {
            return match raw.message {
                FieldValue::Text(message) => if code <= 0xffff_ffff {
                    Ok(IncomingMessage::Error { code: code as u32, message })
                } else {
                    Err(malformed)
                },
                _ => Err(malformed),
            };
        },
        _ => {
            return Err(malformed);
        },
    }
    let cmd = match raw.cmd {
        FieldValue::Text(cmd) => cmd,
        _ => {
            return Err(malformed);
        },
    };
    let data = match raw.data {
        Some(data) => data,
        None => {
            return Err(malformed);
        },
    };
    let evt = take_optional_text(raw.evt)?;
    let nonce = take_optional_text(raw.nonce)?;
    Ok(IncomingMessage::Response { cmd, data, evt, nonce })
}

/// Shape of an error code the peer may send.
pub enum DiscordIPCErrorCode {
    Critical(u16),
    NonCritical(u16),
}

/// An error payload with a typed code.
pub struct ErrorResponse {
    pub code: DiscordIPCErrorCode,
    pub message: String,
}

/// Command names of the protocol.
pub enum ActivityCmd {
    Dispatch,
    Authorize,
    Subscribe,
    Unsubscribe,
    SetActivity,
    SendActivityJoinInvite,
    CloseActivityJoinRequest,
}

/// Event names of the protocol.
pub enum ActivityEvent {
    ActivityJoin,
    ActivitySpectate,
    ActivityJoinRequest,
    ActivityInvite,
}

/// Start and end of the shown activity, in seconds since the epoch.
pub struct Timestamps {
    pub start: Option<i64>,
    pub end: Option<i64>,
}

/// Images of the activity and their hover texts.
pub struct Assets {
    pub large_image: Option<String>,
    pub large_text: Option<String>,
    pub small_image: Option<String>,
    pub small_text: Option<String>,
}

/// The party the user is in: an identifier and `[size, max]`.
pub struct Party {
    pub id: Option<String>,
    pub size: Option<[i32; 2]>,
}

/// Secrets for joining or spectating.
pub struct Secrets {
    pub join: Option<String>,
    pub spectate: Option<String>,
    pub match_: Option<String>,
}

/// A button as sent to the peer.
pub struct Button {
    pub label: String,
    pub url: String,
}

impl View for Button {
    type V = ButtonView;

    open spec fn view(&self) -> ButtonView {
        ButtonView { label: self.label@, url: self.url@ }
    }
}

/// The views of a list of buttons to send.
pub open spec fn sent_button_views(buttons: Seq<Button>) -> Seq<ButtonView> {
    buttons.map_values(|b: Button| b@)
}

/// The view of an optional string.
pub open spec fn opt_text(s: Option<String>) -> Option<Seq<char>> {
    match s {
        Some(t) => Some(t@),
        None => None,
    }
}

/// The view of `Assets`.
pub struct AssetsView {
    pub large_image: Option<Seq<char>>,
    pub large_text: Option<Seq<char>>,
    pub small_image: Option<Seq<char>>,
    pub small_text: Option<Seq<char>>,
}

impl View for Assets {
    type V = AssetsView;

    open spec fn view(&self) -> AssetsView {
        AssetsView {
            large_image: opt_text(self.large_image),
            large_text: opt_text(self.large_text),
            small_image: opt_text(self.small_image),
            small_text: opt_text(self.small_text),
        }
    }
}

/// The view of a `Party`.
pub struct PartyView {
    pub id: Option<Seq<char>>,
    pub size: Option<Seq<i32>>,
}

impl View for Party {
    type V = PartyView;

    open spec fn view(&self) -> PartyView {
        PartyView {
            id: opt_text(self.id),
            size: match self.size {
                Some(s) => Some(s@),
                None => None,
            },
        }
    }
}

/// The view of `Secrets`.
pub struct SecretsView {
    pub join: Option<Seq<char>>,
    pub spectate: Option<Seq<char>>,
    pub match_: Option<Seq<char>>,
}

impl View for Secrets {
    type V = SecretsView;

    open spec fn view(&self) -> SecretsView {
        SecretsView {
            join: opt_text(self.join),
            spectate: opt_text(self.spectate),
            match_: opt_text(self.match_),
        }
    }
}

/// The status payload pushed to the peer. An absent member is left out on the wire.
pub struct Activity {
    pub state: Option<String>,
    pub details: Option<String>,
    pub timestamps: Option<Timestamps>,
    pub assets: Option<Assets>,
    pub party: Option<Party>,
    pub secrets: Option<Secrets>,
    pub buttons: Option<Vec<Button>>,
    pub instance: Option<bool>,
}

/// The view of an `Activity`; the timestamps as (start, end).
pub struct ActivityView {
    pub state: Option<Seq<char>>,
    pub details: Option<Seq<char>>,
    pub timestamps: Option<(Option<i64>, Option<i64>)>,
    pub assets: Option<AssetsView>,
    pub party: Option<PartyView>,
    pub secrets: Option<SecretsView>,
    pub buttons: Option<Seq<ButtonView>>,
    pub instance: Option<bool>,
}

impl View for Activity {
    type V = ActivityView;

    open spec fn view(&self) -> ActivityView {
        ActivityView {
            state: opt_text(self.state),
            details: opt_text(self.details),
            timestamps: match self.timestamps {
                Some(t) => Some((t.start, t.end)),
                None => None,
            },
            assets: match self.assets {
                Some(a) => Some(a@),
                None => None,
            },
            party: match self.party {
                Some(p) => Some(p@),
                None => None,
            },
            secrets: match self.secrets {
                Some(s) => Some(s@),
                None => None,
            },
            buttons: match self.buttons {
                Some(b) => Some(sent_button_views(b@)),
                None => None,
            },
            instance: self.instance,
        }
    }
}

} // verus!
