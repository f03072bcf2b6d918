use tichu::{
    CTSMsg, CallError, ConnectionData, Connections, CreateGame, CreateGameError, GameStage, Games,
    HeartbeatAction, JoinError, JoinGameWithGameCode, Outbound, STCMsg, Server, TichuCallStatus,
};

fn s(x: &str) -> String {
    x.to_string()
}

#[test]
fn unanswered_ping_closes_after_one_missed_tick() {
    let mut c = ConnectionData::new(s("u1"));
    assert_eq!(c.heartbeat(), HeartbeatAction::Ping);
    assert!(!c.is_alive);
    assert_eq!(c.heartbeat(), HeartbeatAction::Close);
}

#[test]
fn answered_ping_keeps_connection_open() {
    let mut c = ConnectionData::new(s("u1"));
    for _ in 0..5 {
        assert_eq!(c.heartbeat(), HeartbeatAction::Ping);
        c.record_pong();
    }
    assert!(c.connected);
}

#[test]
fn heartbeat_tick_covers_every_connection() {
    let mut conns = Connections::new();
    conns.connect(s("a"));
    conns.connect(s("b"));
    assert_eq!(conns.heartbeat_tick(), vec![HeartbeatAction::Ping, HeartbeatAction::Ping]);
    assert!(conns.record_pong(&s("a")));
    assert_eq!(conns.heartbeat_tick(), vec![HeartbeatAction::Ping, HeartbeatAction::Close]);
    assert!(!conns.record_pong(&s("nobody")));
    assert!(conns.remove(&s("b")).is_some());
    assert_eq!(conns.records.len(), 1);
}

#[test]
fn disconnected_connection_is_pinged_not_closed() {
    let mut conns = Connections::new();
    conns.connect(s("a"));
    conns.heartbeat_tick();
    assert!(conns.disconnect(&s("a")));
    assert_eq!(conns.heartbeat_tick(), vec![HeartbeatAction::Ping]);
    conns.connect(s("a"));
    assert_eq!(conns.records.len(), 1);
    assert!(conns.records[0].connected && conns.records[0].is_alive);
}

#[test]
fn join_fills_four_seats_then_refuses() {
    let mut games = Games::new();
    assert_eq!(games.create_game(s("g1"), s("ABCD"), s("p1"), s("One")), Ok(()));
    assert_eq!(
        games.create_game(s("g2"), s("ABCD"), s("p9"), s("Nine")),
        Err(CreateGameError::GameCodeTaken)
    );
    assert_eq!(
        games.create_game(s("g1"), s("WXYZ"), s("p9"), s("Nine")),
        Err(CreateGameError::GameIdTaken)
    );
    assert_eq!(games.join_game(&s("ZZZZ"), s("p2"), s("Two")), Err(JoinError::GameNotFound));
    assert_eq!(games.join_game(&s("ABCD"), s("p2"), s("Two")), Ok(s("g1")));
    assert_eq!(games.join_game(&s("ABCD"), s("p2"), s("Two")), Ok(s("g1")));
    assert_eq!(games.games[0].players.len(), 2);
    assert_eq!(games.join_game(&s("ABCD"), s("p3"), s("Three")), Ok(s("g1")));
    assert_eq!(games.games[0].stage, GameStage::Lobby);
    assert_eq!(games.join_game(&s("ABCD"), s("p4"), s("Four")), Ok(s("g1")));
    assert_eq!(games.games[0].stage, GameStage::GrandTichuCall);
    assert_eq!(games.join_game(&s("ABCD"), s("p5"), s("Five")), Err(JoinError::GameFull));
    assert_eq!(games.games[0].players.len(), 4);
}

#[test]
fn grand_tichu_calls_lead_to_trading() {
    let mut games = Games::new();
    games.create_game(s("g1"), s("ABCD"), s("p1"), s("One")).unwrap();
    assert_eq!(games.call_grand_tichu(&s("g1"), &s("p1"), true), Err(CallError::WrongStage));
    for p in ["p2", "p3", "p4"] {
        games.join_game(&s("ABCD"), s(p), s(p)).unwrap();
    }
    assert_eq!(games.call_grand_tichu(&s("nope"), &s("p1"), true), Err(CallError::GameNotFound));
    assert_eq!(games.call_grand_tichu(&s("g1"), &s("p9"), true), Err(CallError::NotAPlayer));
    assert_eq!(games.call_grand_tichu(&s("g1"), &s("p1"), true), Ok(()));
    assert_eq!(games.call_grand_tichu(&s("g1"), &s("p1"), false), Err(CallError::AlreadyDecided));
    assert_eq!(games.games[0].players[0].grand_tichu, TichuCallStatus::Called);
    for p in ["p2", "p3"] {
        assert_eq!(games.call_grand_tichu(&s("g1"), &s(p), false), Ok(()));
    }
    assert_eq!(games.games[0].stage, GameStage::GrandTichuCall);
    assert_eq!(games.call_grand_tichu(&s("g1"), &s("p4"), false), Ok(()));
    assert_eq!(games.games[0].stage, GameStage::Trading);
    assert_eq!(games.games[0].players[3].grand_tichu, TichuCallStatus::Declined);
    assert!(games.remove_game(&s("g1")).is_some());
    assert!(games.remove_game(&s("g1")).is_none());
}

fn stages_for(out: &[Outbound], user: &str) -> Vec<GameStage> {
    out.iter()
        .filter(|o| o.to == user)
        .filter_map(|o| match &o.msg {
            STCMsg::GameState(g) => Some(g.stage),
            _ => None,
        })
        .collect()
}

fn join(server: &mut Server, user: &str, code: &str) -> Vec<Outbound> {
    server.connections.connect(s(user));
    let msg = CTSMsg::JoinGameWithGameCode(JoinGameWithGameCode {
        game_code: s(code),
        display_name: s(user),
        user_id: s(user),
    });
    server.handle_message(&s(user), msg, s("unused"), s("unused"))
}

#[test]
fn two_clients_create_and_join_then_table_fills() {
    let mut server = Server::new();
    server.connections.connect(s("alice"));
    let create = CTSMsg::CreateGame(CreateGame { user_id: s("alice"), display_name: s("Alice") });
    let out = server.handle_message(&s("alice"), create, s("game-1"), s("QWER"));
    assert_eq!(out.len(), 2);
    assert_eq!(out[0].to, "alice");
    assert_eq!(out[0].msg, STCMsg::GameCreated(s("QWER")));
    assert_eq!(stages_for(&out, "alice"), vec![GameStage::Lobby]);
    assert_eq!(server.connections.records[0].game_id, Some(s("game-1")));

    let out = join(&mut server, "bob", "QWER");
    assert_eq!(stages_for(&out, "alice"), vec![GameStage::Lobby]);
    assert_eq!(stages_for(&out, "bob"), vec![GameStage::Lobby]);

    join(&mut server, "carol", "QWER");
    let out = join(&mut server, "dave", "QWER");
    assert_eq!(out.len(), 4);
    for u in ["alice", "bob", "carol", "dave"] {
        assert_eq!(stages_for(&out, u), vec![GameStage::GrandTichuCall]);
    }

    let out = join(&mut server, "erin", "QWER");
    assert_eq!(out.len(), 1);
    assert_eq!(out[0].msg, STCMsg::UnexpectedMessageReceived(s("game full")));
    let out = join(&mut server, "erin", "NONE");
    assert_eq!(out[0].msg, STCMsg::UnexpectedMessageReceived(s("game not found")));

    let out = server.handle_message(&s("bob"), CTSMsg::CallGrandTichu(true), s("x"), s("y"));
    assert_eq!(out.len(), 4);
    let out = server.handle_message(&s("erin"), CTSMsg::CallGrandTichu(true), s("x"), s("y"));
    assert_eq!(out[0].msg, STCMsg::UnexpectedMessageReceived(s("not in a game")));
}

#[test]
fn simple_messages_are_answered() {
    let mut server = Server::new();
    server.connections.connect(s("u"));
    let out = server.handle_message(&s("u"), CTSMsg::Ping, s("x"), s("y"));
    assert_eq!(out[0].msg, STCMsg::Pong);
    let out = server.handle_message(&s("u"), CTSMsg::Test(s("hi")), s("x"), s("y"));
    assert_eq!(out[0].msg, STCMsg::Test(s("hi")));
    server.connections.heartbeat_tick();
    assert!(!server.connections.records[0].is_alive);
    let out = server.handle_message(&s("u"), CTSMsg::Pong, s("x"), s("y"));
    assert!(out.is_empty());
    assert!(server.connections.records[0].is_alive);
    let forged = CTSMsg::CreateGame(CreateGame { user_id: s("other"), display_name: s("O") });
    let out = server.handle_message(&s("u"), forged, s("g"), s("CODE"));
    assert_eq!(out[0].msg, STCMsg::UnexpectedMessageReceived(s("not the sender")));
    assert!(server.games.games.is_empty());
}
