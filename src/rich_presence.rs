use vstd::prelude::*;

use crate::config::{button_views, Button as ConfigButton, Config};
use crate::error::{IpcError, ProtocolError};
use crate::stream_manager::{
    sent_button_views, Activity, ActivityView, Assets, AssetsView, Button, IncomingMessage,
    Party, PartyView, StreamManager,
};

verus! {

/// Opcode of the handshake frame.
pub const OP_HANDSHAKE: u8 = 0;

/// Opcode of command frames, and of the peer's answers.
pub const OP_FRAME: u8 = 1;

/// Version of the protocol announced in the handshake.
pub const PROTOCOL_VERSION: u8 = 1;

/// Command name of a status update.
pub const SET_ACTIVITY_CMD: &'static str = "SET_ACTIVITY";

/// The handshake payload: protocol version and client identifier.
pub struct Hello {
    pub v: u8,
    pub client_id: String,
}

impl Hello {
    pub fn new(client_id: &str) -> (r: Self)
        ensures
            r.v == PROTOCOL_VERSION,
            r.client_id@ == client_id@,
    {
        Hello { v: PROTOCOL_VERSION, client_id: client_id.to_owned() }
    }
}

/// Arguments of a status update: the sender's process identifier and the activity.
pub struct SetActivityArgs {
    pub pid: u32,
    pub activity: Activity,
}

/// The command envelope of a status update.
pub struct SetActivity {
    pub cmd: &'static str,
    pub args: SetActivityArgs,
    pub nonce: String,
}

/// The view of a `SetActivity` envelope.
pub struct SetActivityView {
    pub cmd: Seq<char>,
    pub pid: u32,
    pub activity: ActivityView,
    pub nonce: Seq<char>,
}

impl View for SetActivity {
    type V = SetActivityView;

    open spec fn view(&self) -> SetActivityView {
        SetActivityView {
            cmd: self.cmd@,
            pid: self.args.pid,
            activity: self.args.activity@,
            nonce: self.nonce@,
        }
    }
}

/// The buttons to send for a configuration: the configured list when it is present
/// and not empty, else none at all.
pub open spec fn buttons_to_send(c: Config) -> Option<Seq<crate::config::ButtonView>> {
    match c.buttons {
        Some(b) => if b@.len() > 0 {
            Some(button_views(b@))
        } else {
            None
        },
        None => None,
    }
}

/// The activity that a configuration shows.
pub open spec fn activity_of(c: Config) -> ActivityView {
    ActivityView {
        state: Some(c.state@),
        details: Some(c.details@),
        timestamps: None,
        assets: Some(
            AssetsView {
                large_image: Some(c.large_image@),
                large_text: Some(c.large_text@),
                small_image: Some(c.small_image@),
                small_text: Some(c.small_text@),
            },
        ),
        party: Some(PartyView { id: None, size: Some(seq![c.party_size, c.max_party_size]) }),
        secrets: None,
        buttons: buttons_to_send(c),
        instance: Some(false),
    }
}

/// A configuration without buttons, or with an empty list of them, sends no buttons
/// member; one with buttons sends exactly that list.
pub proof fn lemma_buttons_member(c: Config)
    ensures
        (c.buttons is None || c.buttons->0@.len() == 0) ==> activity_of(c).buttons is None,
        (c.buttons is Some && c.buttons->0@.len() > 0) ==> activity_of(c).buttons == Some(
            button_views(c.buttons->0@),
        ),
{
}

/// The status update for a configuration, process and correlation token.
pub open spec fn envelope_of(c: Config, pid: u32, nonce: Seq<char>) -> SetActivityView {
    SetActivityView { cmd: SET_ACTIVITY_CMD@, pid, activity: activity_of(c), nonce }
}

/// Two status updates built from one configuration for one process are equal in
/// every member but the correlation token.
pub proof fn lemma_updates_differ_only_in_nonce(
    c: Config,
    pid: u32,
    nonce1: Seq<char>,
    nonce2: Seq<char>,
)
    ensures
        envelope_of(c, pid, nonce1) == (SetActivityView {
            nonce: nonce1,
            ..envelope_of(c, pid, nonce2)
        }),
        envelope_of(c, pid, nonce1).nonce == nonce1,
{
}

/// Whether `s` has the shape of a hyphenated UUID text.
pub open spec fn is_hyphenated_token(s: Seq<char>) -> bool {
    &&& s.len() == 36
    &&& s[8] == '-'
    &&& s[13] == '-'
    &&& s[18] == '-'
    &&& s[23] == '-'
}

/// Relies on `uuid::Uuid::new_v4` and its `Display` impl, which writes the hyphenated
/// form: 36 characters with `-` at positions 8, 13, 18 and 23. The value is random.
#[verifier::external_body]
fn new_nonce() -> (r: String)
    ensures
        is_hyphenated_token(r@),
{
    uuid::Uuid::new_v4().to_string()
}

fn copy_buttons(buttons: &Vec<ConfigButton>) -> (r: Vec<Button>)
    ensures
        sent_button_views(r@) == button_views(buttons@),
{
    let mut out: Vec<Button> = Vec::new();
    let mut i: usize = 0;
    while i < buttons.len()
        invariant
            i <= buttons@.len(),
            out@.len() == i,
            sent_button_views(out@) == button_views(buttons@).take(i as int),
        decreases buttons@.len() - i,
    {
        let b = &buttons[i];
        out.push(Button { label: b.label.clone(), url: b.url.clone() });
        assert(out@[i as int]@ == button_views(buttons@)[i as int]);
        i = i + 1;
        assert(sent_button_views(out@) =~= button_views(buttons@).take(i as int));
    }
    assert(button_views(buttons@).take(buttons@.len() as int) =~= button_views(buttons@));
    out
}

/// Builds the activity that a configuration shows.
pub fn build_activity(c: &Config) -> (r: Activity)
    ensures
        r@ == activity_of(*c),
{
    let buttons = match &c.buttons {
        Some(b) => if b.len() > 0 {
            Some(copy_buttons(b))
        } else {
            None
        },
        None => None,
    };
    let r = Activity {
        state: Some(c.state.clone()),
        details: Some(c.details.clone()),
        timestamps: None,
        assets: Some(
            Assets {
                large_image: Some(c.large_image.clone()),
                large_text: Some(c.large_text.clone()),
                small_image: Some(c.small_image.clone()),
                small_text: Some(c.small_text.clone()),
            },
        ),
        party: Some(Party { id: None, size: Some([c.party_size, c.max_party_size]) }),
        secrets: None,
        buttons,
        instance: Some(false),
    };
    assert(r@.party->0.size->0 =~= seq![c.party_size, c.max_party_size]);
    r
}

/// Checks the peer's answer to the handshake: it must come on `OP_FRAME` and must not
/// be an error; any response shape is accepted as it is.
pub fn check_handshake_reply(opcode: u32, reply: IncomingMessage) -> (r: Result<(), IpcError>)
    ensures
        opcode != OP_FRAME ==> r == Err::<(), IpcError>(
            IpcError::Protocol(ProtocolError::UnexpectedOpcode(opcode)),
        ),
        opcode == OP_FRAME ==> match reply {
            IncomingMessage::Error { code, message } => r == Err::<(), IpcError>(
                IpcError::Remote { code, message },
            ),
            IncomingMessage::Response { .. } => r == Ok::<(), IpcError>(()),
        },
{
    if opcode != OP_FRAME as u32 {
        return Err(IpcError::Protocol(ProtocolError::UnexpectedOpcode(opcode)));
    }
    match reply {
        IncomingMessage::Error { code, message } => Err(IpcError::Remote { code, message }),
        IncomingMessage::Response { .. } => Ok(()),
    }
}

/// Drives the protocol over one stream manager with a snapshot of the configuration.
pub struct RichPresence {
    pub config: Config,
    pub stream_manager: StreamManager,
}

impl RichPresence {
    pub fn new(config: Config) -> (r: Self)
        ensures
            r.config == config,
            r.stream_manager@.state == crate::connection_state::ConnectionState::Disconnected,
            r.stream_manager@.endpoint is None,
    {
        RichPresence { config, stream_manager: StreamManager::new() }
    }

    /// Replaces the configuration; the next status update uses the new one.
    pub fn update_config(&mut self, config: Config)
        ensures
            final(self).config == config,
            final(self).stream_manager == old(self).stream_manager,
    {
        self.config = config;
    }

    /// The handshake payload for the configured client.
    pub fn hello(&self) -> (r: Hello)
        ensures
            r.v == PROTOCOL_VERSION,
            r.client_id@ == self.config.client_id@,
    {
        Hello::new(self.config.client_id.as_str())
    }

    /// The status update for the current configuration under the given token.
    pub fn activity_envelope(&self, pid: u32, nonce: String) -> (r: SetActivity)
        ensures
            r@ == envelope_of(self.config, pid, nonce@),
    {
        let activity = build_activity(&self.config);
        SetActivity { cmd: SET_ACTIVITY_CMD, args: SetActivityArgs { pid, activity }, nonce }
    }

    /// The next status update, under a fresh correlation token, for the process `pid`.
    /// It needs an open connection.
    pub fn set_activity(&self, pid: u32) -> (r: Result<SetActivity, IpcError>)
        ensures
            match r {
                Ok(e) => {
                    &&& self.stream_manager@.endpoint is Some
                    &&& e@ == envelope_of(self.config, pid, e.nonce@)
                    &&& is_hyphenated_token(e.nonce@)
                },
                Err(err) => self.stream_manager@.endpoint is None && err == IpcError::NotConnected,
            },
    {
        if !self.stream_manager.is_connected() {
            return Err(IpcError::NotConnected);
        }
        let nonce = new_nonce();
        Ok(self.activity_envelope(pid, nonce))
    }
}

} // verus!
