use crate::game::{GameStage, TichuCallStatus};
use crate::protocol::{CTSMsg, CreateGame, JoinGameWithGameCode, PublicGameState, STCMsg};
use vstd::prelude::*;

verus! {

/// What the user interface asks the client to send.
#[derive(Clone, Copy, Debug, PartialEq, Eq, Structural)]
pub enum CTSMsgInternal {
    Test,
    Ping,
    Pong,
    CreateGame,
    JoinGameWithGameCode,
}

/// What the client keeps between messages.
#[derive(Clone, Debug)]
pub struct ClientState {
    pub ws_connection_status: String,
    pub user_id: String,
    pub game_state: Option<PublicGameState>,
    pub game_code_input: String,
    /// Whether a socket to the server is open.
    pub connected: bool,
}

/// A frame from the socket, as far as the client could read it.
#[derive(Clone, Debug)]
pub enum Received {
    /// The socket reported an error instead of data.
    TransportError,
    /// Data came that is no server message.
    Undecodable,
    Msg(STCMsg),
}

/// Work the client schedules in answer to a message.
#[derive(Clone, Debug, PartialEq, Eq)]
pub enum ClientCommand {
    SendWSMsg(CTSMsgInternal),
    SetUserId(String),
}

/// Display name sent when joining a game.
pub const DISPLAY_NAME: &'static str = "Display Name";

/// Display name sent when creating a game.
pub const CREATOR_DISPLAY_NAME: &'static str = "Example display name";

/// Text of the test message.
pub const TEST_TEXT: &'static str = "Hello, server!";

/// The client's answer to `data`: state `new` after `old`, and whether to
/// re-render and what to schedule.
pub open spec fn handle_received_spec(
    old: ClientState,
    new: ClientState,
    data: Received,
    r: (bool, ClientEffect),
) -> bool {
    &&& match data {
        Received::Msg(STCMsg::GameState(g)) => new.game_state == Some(g) && new.user_id
            == old.user_id && new.ws_connection_status == old.ws_connection_status
            && new.game_code_input == old.game_code_input && new.connected == old.connected,
        _ => new == old,
    }
    &&& match data {
        Received::TransportError => r == (false, ClientEffect::Nothing),
        Received::Msg(STCMsg::Ping) => r == (
            true,
            ClientEffect::Schedule(ClientCommand::SendWSMsg(CTSMsgInternal::Pong)),
        ),
        Received::Msg(STCMsg::UserIdAssigned(id)) => r == (
            true,
            ClientEffect::Schedule(ClientCommand::SetUserId(id)),
        ),
        _ => r == (true, ClientEffect::Nothing),
    }
}

/// Handles a message from the server: answers a ping, adopts an assigned id,
/// and keeps the latest game state. Returns whether to re-render, and what
/// to do next.
pub fn handle_ws_message_received(state: &mut ClientState, data: Received) -> (r: (
    bool,
    Option<ClientCommand>,
))
    ensures
        handle_received_spec(*old(state), *final(state), data, (r.0, match r.1 {
            Some(c) => ClientEffect::Schedule(c),
            None => ClientEffect::Nothing,
        })),
{
    match data {
        Received::TransportError => (false, None),
        Received::Undecodable => (true, None),
        Received::Msg(msg) => match msg {
            STCMsg::Ping => (true, Some(ClientCommand::SendWSMsg(CTSMsgInternal::Pong))),
            STCMsg::UserIdAssigned(id) => (true, Some(ClientCommand::SetUserId(id))),
            STCMsg::GameState(g) => {
                state.game_state = Some(g);
                (true, None)
            },
            _ => (true, None),
        },
    }
}

/// `m` is the message that request `msg_type` stands for in state `state`.
pub open spec fn handle_ws_message_send_spec(state: ClientState, msg_type: CTSMsgInternal, m: CTSMsg) -> bool {
    match msg_type {
        CTSMsgInternal::Test => m matches CTSMsg::Test(t) && t@ == TEST_TEXT@,
        CTSMsgInternal::Ping => m == CTSMsg::Ping,
        CTSMsgInternal::Pong => m == CTSMsg::Pong,
        CTSMsgInternal::CreateGame => m matches CTSMsg::CreateGame(c) && c.user_id@ == state.user_id@
            && c.display_name@ == CREATOR_DISPLAY_NAME@,
        CTSMsgInternal::JoinGameWithGameCode => m matches CTSMsg::JoinGameWithGameCode(j)
            && j.game_code@ == state.game_code_input@ && j.user_id@ == state.user_id@
            && j.display_name@ == DISPLAY_NAME@,
    }
}

/// The message that the user's request stands for, or `None` while the
/// socket is not connected.
pub fn handle_ws_message_send(state: &ClientState, connected: bool, msg_type: CTSMsgInternal) -> (r:
    Option<CTSMsg>)
    ensures
        !connected ==> r is None,
        connected ==> (r matches Some(m) && handle_ws_message_send_spec(*state, msg_type, m)),
{
    if !connected {
        return None;
    }
    match msg_type {
        CTSMsgInternal::Test => Some(CTSMsg::Test(TEST_TEXT.to_owned())),
        CTSMsgInternal::Ping => Some(CTSMsg::Ping),
        CTSMsgInternal::Pong => Some(CTSMsg::Pong),
        CTSMsgInternal::CreateGame => Some(
            CTSMsg::CreateGame(
                CreateGame {
                    user_id: state.user_id.clone(),
                    display_name: CREATOR_DISPLAY_NAME.to_owned(),
                },
            ),
        ),
        CTSMsgInternal::JoinGameWithGameCode => Some(
            CTSMsg::JoinGameWithGameCode(
                JoinGameWithGameCode {
                    game_code: state.game_code_input.clone(),
                    display_name: DISPLAY_NAME.to_owned(),
                    user_id: state.user_id.clone(),
                },
            ),
        ),
    }
}

pub open spec fn call_status_label(s: TichuCallStatus) -> Seq<char> {
    match s {
        TichuCallStatus::Undecided => "Undecided"@,
        TichuCallStatus::Called => "Called"@,
        TichuCallStatus::Declined => "Declined"@,
        TichuCallStatus::Achieved => "Achieved"@,
        TichuCallStatus::Failed => "Failed"@,
    }
}

fn label_of(s: TichuCallStatus) -> (r: String)
    ensures
        r@ == call_status_label(s),
{
    match s {
        TichuCallStatus::Undecided => "Undecided".to_owned(),
        TichuCallStatus::Called => "Called".to_owned(),
        TichuCallStatus::Declined => "Declined".to_owned(),
        TichuCallStatus::Achieved => "Achieved".to_owned(),
        TichuCallStatus::Failed => "Failed".to_owned(),
    }
}

/// The first seat of `g` that `user_id` holds.
pub open spec fn first_seat(g: PublicGameState, user_id: Seq<char>, i: int) -> bool {
    0 <= i < g.players@.len() && g.players@[i].user_id@ == user_id && forall|j: int|
        0 <= j < i ==> #[trigger] g.players@[j].user_id@ != user_id
}

/// `r` is what the current user `user_id` sees of their grand tichu
/// decision: its label while the calls are open and they hold a seat, else "n/a".
pub open spec fn shows_grand_tichu_status(
    game_state: Option<PublicGameState>,
    user_id: Seq<char>,
    r: Seq<char>,
) -> bool {
    match game_state {
        Some(g) => if g.stage == GameStage::GrandTichuCall && exists|i: int| #[trigger]
            first_seat(g, user_id, i) {
            exists|i: int| #[trigger]
                first_seat(g, user_id, i) && r == call_status_label(g.players@[i].grand_tichu)
        } else {
            r == "n/a"@
        },
        None => r == "n/a"@,
    }
}

/// The grand tichu decision of `user_id`, as shown to that user while the
/// calls are open; "n/a" otherwise.
pub fn grand_tichu_status_current_user(game_state: &Option<PublicGameState>, user_id: &String) -> (r:
    String)
    ensures
        shows_grand_tichu_status(*game_state, user_id@, r@),
{
    match game_state {
        None => "n/a".to_owned(),
        Some(g) => {
            if g.stage != GameStage::GrandTichuCall {
                return "n/a".to_owned();
            }
            let mut i: usize = 0;
            while i < g.players.len()
                invariant
                    *game_state == Some(*g),
                    g.stage == GameStage::GrandTichuCall,
                    i <= g.players@.len(),
                    forall|j: int| 0 <= j < i ==> #[trigger] g.players@[j].user_id@ != user_id@,
                decreases g.players@.len() - i,
            {
                if g.players[i].user_id == *user_id {
                    let r = label_of(g.players[i].grand_tichu);
                    assert(first_seat(*g, user_id@, i as int));
                    return r;
                }
                i = i + 1;
            }
            assert forall|k: int| !first_seat(*g, user_id@, k) by {
                if 0 <= k < g.players@.len() {
                    assert(g.players@[k].user_id@ != user_id@);
                }
            }
            "n/a".to_owned()
        },
    }
}

/// An event of the client's user interface or of its socket.
#[derive(Clone, Debug)]
pub enum AppMsg {
    ConnectToWS,
    Disconnected,
    Noop,
    WSMsgReceived(Received),
    SendWSMsg(CTSMsgInternal),
    SetUserId(String),
    SetGameCodeInput(String),
}

/// Outside work that an event calls for.
#[derive(Clone, Debug, PartialEq, Eq)]
pub enum ClientEffect {
    Nothing,
    /// Open the socket to the server with the current user id.
    OpenSocket,
    Send(CTSMsg),
    /// Persist the user id on this device.
    StoreUserId(String),
    /// Feed this command back in as the next event.
    Schedule(ClientCommand),
}

/// `new` is `old` with only the fields that an event may touch changed.
pub open spec fn same_but(old: ClientState, new: ClientState, status: bool, user: bool, game: bool, code: bool, conn: bool) -> bool {
    &&& (!status ==> new.ws_connection_status == old.ws_connection_status)
    &&& (!user ==> new.user_id == old.user_id)
    &&& (!game ==> new.game_state == old.game_state)
    &&& (!code ==> new.game_code_input == old.game_code_input)
    &&& (!conn ==> new.connected == old.connected)
}

/// One step of the client: the new state, whether to re-render, and the
/// outside work to do.
pub fn update(state: &mut ClientState, msg: AppMsg) -> (r: (bool, ClientEffect))
    ensures
        match msg {
            AppMsg::Noop => *final(state) == *old(state) && r == (false, ClientEffect::Nothing),
            AppMsg::Disconnected => same_but(*old(state), *final(state), true, false, false, false, true)
                && !final(state).connected && final(state).ws_connection_status@ == "Disconnected"@
                && r == (true, ClientEffect::Nothing),
            AppMsg::ConnectToWS => if old(state).connected {
                *final(state) == *old(state) && r == (true, ClientEffect::Nothing)
            } else {
                same_but(*old(state), *final(state), true, false, false, false, true)
                    && final(state).connected && final(state).ws_connection_status@ == "Connected"@
                    && r == (true, ClientEffect::OpenSocket)
            },
            AppMsg::SendWSMsg(t) => *final(state) == *old(state) && !r.0 && (if old(state).connected {
                (r.1 matches ClientEffect::Send(m) && handle_ws_message_send_spec(*old(state), t, m))
            } else {
                r.1 == ClientEffect::Nothing
            }),
            AppMsg::WSMsgReceived(d) => handle_received_spec(*old(state), *final(state), d, r),
            AppMsg::SetUserId(id) => same_but(*old(state), *final(state), false, true, false, false, false)
                && final(state).user_id == id && r == (false, ClientEffect::StoreUserId(id)),
            AppMsg::SetGameCodeInput(code) => same_but(*old(state), *final(state), false, false, false, true, false)
                && final(state).game_code_input == code && r == (true, ClientEffect::Nothing),
        },
{
    match msg {
        AppMsg::Noop => (false, ClientEffect::Nothing),
        AppMsg::Disconnected => {
            state.connected = false;
            state.ws_connection_status = "Disconnected".to_owned();
            (true, ClientEffect::Nothing)
        },
        AppMsg::ConnectToWS => {
            if state.connected {
                (true, ClientEffect::Nothing)
            } else {
                state.connected = true;
                state.ws_connection_status = "Connected".to_owned();
                (true, ClientEffect::OpenSocket)
            }
        },
        AppMsg::SendWSMsg(t) => match handle_ws_message_send(state, state.connected, t) {
            Some(m) => (false, ClientEffect::Send(m)),
            None => (false, ClientEffect::Nothing),
        },
        AppMsg::WSMsgReceived(d) => {
            let (render, cmd) = handle_ws_message_received(state, d);
            match cmd {
                Some(c) => (render, ClientEffect::Schedule(c)),
                None => (render, ClientEffect::Nothing),
            }
        },
        AppMsg::SetUserId(id) => {
            state.user_id = id.clone();
            (false, ClientEffect::StoreUserId(id))
        },
        AppMsg::SetGameCodeInput(code) => {
            state.game_code_input = code;
            (true, ClientEffect::Nothing)
        },
    }
}

} // verus!
