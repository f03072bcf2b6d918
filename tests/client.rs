use tichu::{
    grand_tichu_status_current_user, handle_ws_message_received, handle_ws_message_send, update,
    AppMsg, CTSMsg, CTSMsgInternal, ClientCommand, ClientEffect, ClientState, GameStage, PublicGameState, PublicPlayer,
    Received, STCMsg, Server, TichuCallStatus,
};

fn s(x: &str) -> String {
    x.to_string()
}

fn state() -> ClientState {
    ClientState {
        ws_connection_status: s("Connected"),
        user_id: s("me"),
        game_state: None,
        game_code_input: s("ABCD"),
        connected: true,
    }
}

fn game(stage: GameStage, status: TichuCallStatus) -> PublicGameState {
    PublicGameState {
        game_id: s("g"),
        game_code: s("ABCD"),
        owner_id: s("other"),
        stage,
        players: vec![
            PublicPlayer {
                user_id: s("other"),
                display_name: s("O"),
                grand_tichu: TichuCallStatus::Called,
            },
            PublicPlayer { user_id: s("me"), display_name: s("M"), grand_tichu: status },
        ],
    }
}

#[test]
fn ping_from_server_is_answered_with_pong() {
    let mut st = state();
    let r = handle_ws_message_received(&mut st, Received::Msg(STCMsg::Ping));
    assert_eq!(r, (true, Some(ClientCommand::SendWSMsg(CTSMsgInternal::Pong))));
}

#[test]
fn transport_error_does_not_rerender() {
    let mut st = state();
    assert_eq!(handle_ws_message_received(&mut st, Received::TransportError), (false, None));
    assert_eq!(handle_ws_message_received(&mut st, Received::Undecodable), (true, None));
}

#[test]
fn assigned_id_and_game_state_are_adopted() {
    let mut st = state();
    let r = handle_ws_message_received(&mut st, Received::Msg(STCMsg::UserIdAssigned(s("new"))));
    assert_eq!(r, (true, Some(ClientCommand::SetUserId(s("new")))));
    let g = game(GameStage::Lobby, TichuCallStatus::Undecided);
    let r = handle_ws_message_received(&mut st, Received::Msg(STCMsg::GameState(g.clone())));
    assert_eq!(r, (true, None));
    assert_eq!(st.game_state, Some(g));
}

#[test]
fn requests_become_protocol_messages() {
    let st = state();
    assert_eq!(handle_ws_message_send(&st, false, CTSMsgInternal::Ping), None);
    assert_eq!(handle_ws_message_send(&st, true, CTSMsgInternal::Ping), Some(CTSMsg::Ping));
    assert_eq!(
        handle_ws_message_send(&st, true, CTSMsgInternal::Test),
        Some(CTSMsg::Test(s("Hello, server!")))
    );
    match handle_ws_message_send(&st, true, CTSMsgInternal::JoinGameWithGameCode) {
        Some(CTSMsg::JoinGameWithGameCode(j)) => {
            assert_eq!(j.game_code, "ABCD");
            assert_eq!(j.user_id, "me");
            assert_eq!(j.display_name, "Display Name");
        }
        other => panic!("expected a join request, got {:?}", other),
    }
    match handle_ws_message_send(&st, true, CTSMsgInternal::CreateGame) {
        Some(CTSMsg::CreateGame(c)) => {
            assert_eq!(c.user_id, "me");
            assert_eq!(c.display_name, "Example display name");
        }
        other => panic!("expected a create request, got {:?}", other),
    }
}

#[test]
fn grand_tichu_status_is_shown_only_while_calls_are_open() {
    let me = s("me");
    assert_eq!(grand_tichu_status_current_user(&None, &me), "n/a");
    let lobby = Some(game(GameStage::Lobby, TichuCallStatus::Undecided));
    assert_eq!(grand_tichu_status_current_user(&lobby, &me), "n/a");
    let open = Some(game(GameStage::GrandTichuCall, TichuCallStatus::Declined));
    assert_eq!(grand_tichu_status_current_user(&open, &me), "Declined");
    assert_eq!(grand_tichu_status_current_user(&open, &s("other")), "Called");
    assert_eq!(grand_tichu_status_current_user(&open, &s("stranger")), "n/a");
}

#[test]
fn handshake_assigns_an_id_to_a_new_client() {
    let mut server = Server::new();
    let (id, out) = server.handshake(&s("no_id"), s("fresh-1"));
    assert_eq!(id, "fresh-1");
    assert_eq!(out.len(), 1);
    assert_eq!(out[0].to, "fresh-1");
    assert_eq!(out[0].msg, STCMsg::UserIdAssigned(s("fresh-1")));
    let (id, out) = server.handshake(&s("known"), s("fresh-2"));
    assert_eq!(id, "known");
    assert!(out.is_empty());
    assert_eq!(server.connections.records.len(), 2);
}

#[test]
fn client_update_tracks_the_socket() {
    let mut st = state();
    assert_eq!(update(&mut st, AppMsg::ConnectToWS), (true, ClientEffect::Nothing));
    assert_eq!(update(&mut st, AppMsg::Disconnected), (true, ClientEffect::Nothing));
    assert!(!st.connected);
    assert_eq!(st.ws_connection_status, "Disconnected");
    assert_eq!(update(&mut st, AppMsg::SendWSMsg(CTSMsgInternal::Ping)), (false, ClientEffect::Nothing));
    assert_eq!(update(&mut st, AppMsg::ConnectToWS), (true, ClientEffect::OpenSocket));
    assert_eq!(st.ws_connection_status, "Connected");
    assert_eq!(
        update(&mut st, AppMsg::SendWSMsg(CTSMsgInternal::Ping)),
        (false, ClientEffect::Send(CTSMsg::Ping))
    );
    assert_eq!(update(&mut st, AppMsg::Noop), (false, ClientEffect::Nothing));
}

#[test]
fn client_update_applies_inputs() {
    let mut st = state();
    assert_eq!(
        update(&mut st, AppMsg::SetUserId(s("abc"))),
        (false, ClientEffect::StoreUserId(s("abc")))
    );
    assert_eq!(st.user_id, "abc");
    assert_eq!(update(&mut st, AppMsg::SetGameCodeInput(s("WXYZ"))), (true, ClientEffect::Nothing));
    assert_eq!(st.game_code_input, "WXYZ");
    assert_eq!(
        update(&mut st, AppMsg::WSMsgReceived(Received::Msg(STCMsg::Ping))),
        (true, ClientEffect::Schedule(ClientCommand::SendWSMsg(CTSMsgInternal::Pong)))
    );
}
