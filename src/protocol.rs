use crate::connection::{pong_effect, set_game_effect, ConnectionData, Connections};
use crate::game::{
    call_effect, create_effect, has_code, has_id, index_of_code, index_of_id, join_effect,
    CallError, CreateGameError, GameStage, GameState, Games, JoinError, TichuCallStatus,
};
use vstd::prelude::*;

verus! {

#[derive(Clone, Debug, PartialEq, Eq)]
pub struct CreateGame {
    pub user_id: String,
    pub display_name: String,
}

#[derive(Clone, Debug, PartialEq, Eq)]
pub struct JoinGameWithGameCode {
    pub game_code: String,
    pub display_name: String,
    pub user_id: String,
}

/// A message from a client to the server.
#[derive(Clone, Debug, PartialEq, Eq)]
pub enum CTSMsg {
    Ping,
    Pong,
    Test(String),
    CreateGame(CreateGame),
    JoinGameWithGameCode(JoinGameWithGameCode),
    /// Called (true) or declined (false) a grand tichu.
    CallGrandTichu(bool),
}

/// A seat as every participant sees it.
#[derive(Clone, Debug, PartialEq, Eq)]
pub struct PublicPlayer {
    pub user_id: String,
    pub display_name: String,
    pub grand_tichu: TichuCallStatus,
}

/// The part of a game that is sent to its participants.
#[derive(Clone, Debug, PartialEq, Eq)]
pub struct PublicGameState {
    pub game_id: String,
    pub game_code: String,
    pub owner_id: String,
    pub stage: GameStage,
    pub players: Vec<PublicPlayer>,
}

/// A message from the server to a client.
#[derive(Clone, Debug, PartialEq, Eq)]
pub enum STCMsg {
    Ping,
    Pong,
    Test(String),
    UserIdAssigned(String),
    GameCreated(String),
    GameState(PublicGameState),
    UnexpectedMessageReceived(String),
}

/// A message for the connection of user `to`.
#[derive(Clone, Debug, PartialEq, Eq)]
pub struct Outbound {
    pub to: String,
    pub msg: STCMsg,
}

pub open spec fn is_snapshot_of(p: PublicGameState, g: GameState) -> bool {
    &&& p.game_id@ == g.game_id@
    &&& p.game_code@ == g.game_code@
    &&& p.owner_id@ == g.owner_id@
    &&& p.stage == g.stage
    &&& p.players@.len() == g.players@.len()
    &&& forall|i: int|
        0 <= i < p.players@.len() ==> {
            &&& (#[trigger] p.players@[i]).user_id@ == g.players@[i].user_id@
            &&& p.players@[i].display_name@ == g.players@[i].display_name@
            &&& p.players@[i].grand_tichu == g.players@[i].grand_tichu
        }
}

/// `out` sends the snapshot of `g` to each of its players, in seat order.
pub open spec fn is_broadcast_of(out: Seq<Outbound>, g: GameState) -> bool {
    &&& out.len() == g.players@.len()
    &&& forall|i: int|
        0 <= i < out.len() ==> (#[trigger] out[i]).to@ == g.players@[i].user_id@ && (
        out[i].msg matches STCMsg::GameState(p) && is_snapshot_of(p, g))
}

/// `out` is the single notice `text` to `to`.
pub open spec fn is_rejection(out: Seq<Outbound>, to: Seq<char>, text: Seq<char>) -> bool {
    out.len() == 1 && out[0].to@ == to && (out[0].msg matches STCMsg::UnexpectedMessageReceived(
        t,
    ) && t@ == text)
}

/// The game that `user_id`'s connection record names, if any.
pub open spec fn game_of(records: Seq<ConnectionData>, user_id: Seq<char>) -> Option<String> {
    if exists|i: int| 0 <= i < records.len() && #[trigger] records[i].user_id@ == user_id {
        records[choose|i: int| 0 <= i < records.len() && #[trigger] records[i].user_id@ == user_id].game_id
    } else {
        None
    }
}

/// The projection of a game that its participants receive.
pub fn snapshot(g: &GameState) -> (p: PublicGameState)
    ensures
        is_snapshot_of(p, *g),
{
    let mut players: Vec<PublicPlayer> = Vec::new();
    let mut i: usize = 0;
    while i < g.players.len()
        invariant
            i <= g.players@.len(),
            players@.len() == i,
            forall|j: int|
                0 <= j < i ==> {
                    &&& (#[trigger] players@[j]).user_id@ == g.players@[j].user_id@
                    &&& players@[j].display_name@ == g.players@[j].display_name@
                    &&& players@[j].grand_tichu == g.players@[j].grand_tichu
                },
        decreases g.players@.len() - i,
    {
        let p = &g.players[i];
        players.push(
            PublicPlayer {
                user_id: p.user_id.clone(),
                display_name: p.display_name.clone(),
                grand_tichu: p.grand_tichu,
            },
        );
        i = i + 1;
    }
    PublicGameState {
        game_id: g.game_id.clone(),
        game_code: g.game_code.clone(),
        owner_id: g.owner_id.clone(),
        stage: g.stage,
        players,
    }
}

/// The snapshot of `g` for each of its players.
pub fn broadcast(g: &GameState) -> (out: Vec<Outbound>)
    ensures
        is_broadcast_of(out@, *g),
{
    let mut out: Vec<Outbound> = Vec::new();
    let mut i: usize = 0;
    while i < g.players.len()
        invariant
            i <= g.players@.len(),
            out@.len() == i,
            forall|j: int|
                0 <= j < i ==> (#[trigger] out@[j]).to@ == g.players@[j].user_id@ && (
                out@[j].msg matches STCMsg::GameState(p) && is_snapshot_of(p, *g)),
        decreases g.players@.len() - i,
    {
        out.push(Outbound { to: g.players[i].user_id.clone(), msg: STCMsg::GameState(snapshot(g)) });
        i = i + 1;
    }
    out
}

fn reject(to: &String, text: &str) -> (out: Vec<Outbound>)
    ensures
        is_rejection(out@, to@, text@),
{
    let mut out: Vec<Outbound> = Vec::new();
    out.push(Outbound { to: to.clone(), msg: STCMsg::UnexpectedMessageReceived(text.to_owned()) });
    out
}

fn reply(to: &String, msg: STCMsg) -> (out: Vec<Outbound>)
    ensures
        out@.len() == 1,
        out@[0].to@ == to@,
        out@[0].msg == msg,
{
    let mut out: Vec<Outbound> = Vec::new();
    out.push(Outbound { to: to.clone(), msg });
    out
}

/// The id that a client sends before it has been given one.
pub const NO_USER_ID: &'static str = "no_id";

/// The server's shared state: who is connected, and every game.
pub struct Server {
    pub connections: Connections,
    pub games: Games,
}

impl Server {
    pub open spec fn wf(&self) -> bool {
        self.connections.wf() && self.games.wf()
    }

    pub open spec fn unchanged(&self, other: &Server) -> bool {
        self.connections.records@ == other.connections.records@ && self.games.games@
            == other.games.games@
    }

    pub fn new() -> (r: Server)
        ensures
            r.wf(),
            r.connections.records@.len() == 0,
            r.games.games@.len() == 0,
    {
        Server { connections: Connections::new(), games: Games::new() }
    }

    /// Handles one message from `sender`. A new game takes `new_game_id` and
    /// `new_game_code`, which the caller draws at random; other messages
    /// ignore them. A message that the state does not allow changes nothing
    /// and is answered with a notice to the sender.
    pub fn handle_message(
        &mut self,
        sender: &String,
        msg: CTSMsg,
        new_game_id: String,
        new_game_code: String,
    ) -> (out: Vec<Outbound>)
        requires
            old(self).wf(),
        ensures
            final(self).wf(),
            match msg {
                CTSMsg::Ping => final(self).unchanged(old(self)) && out@.len() == 1 && out@[0].to@
                    == sender@ && out@[0].msg == STCMsg::Pong,
                CTSMsg::Pong => out@.len() == 0 && final(self).games.games@ == old(self).games.games@
                    && pong_effect(
                    old(self).connections.records@,
                    final(self).connections.records@,
                    sender@,
                    old(self).connections.has_user(sender@),
                ),
                CTSMsg::Test(t) => final(self).unchanged(old(self)) && out@.len() == 1 && out@[0].to@
                    == sender@ && out@[0].msg == STCMsg::Test(t),
                CTSMsg::CreateGame(c) => if c.user_id@ != sender@ {
                    final(self).unchanged(old(self)) && is_rejection(out@, sender@, "not the sender"@)
                } else if has_id(old(self).games.games@, new_game_id@) || has_code(
                    old(self).games.games@,
                    new_game_code@,
                ) {
                    final(self).unchanged(old(self)) && is_rejection(out@, sender@, "game id or code in use"@)
                } else {
                    &&& create_effect(
                        old(self).games.games@,
                        final(self).games.games@,
                        new_game_id@,
                        new_game_code@,
                        sender@,
                        c.display_name@,
                        Ok(()),
                    )
                    &&& set_game_effect(
                        old(self).connections.records@,
                        final(self).connections.records@,
                        sender@,
                        new_game_id,
                        old(self).connections.has_user(sender@),
                    )
                    &&& out@.len() == 2
                    &&& out@[0].to@ == sender@
                    &&& out@[0].msg == STCMsg::GameCreated(new_game_code)
                    &&& is_broadcast_of(out@.drop_first(), final(self).games.games@.last())
                },
                CTSMsg::JoinGameWithGameCode(j) => if j.user_id@ != sender@ {
                    final(self).unchanged(old(self)) && is_rejection(out@, sender@, "not the sender"@)
                } else {
                    exists|r: Result<String, JoinError>|
                        #[trigger] join_effect(
                            old(self).games.games@,
                            final(self).games.games@,
                            j.game_code@,
                            sender@,
                            j.display_name@,
                            r,
                        ) && match r {
                            Err(JoinError::GameNotFound) => final(self).unchanged(old(self))
                                && is_rejection(out@, sender@, "game not found"@),
                            Err(JoinError::GameFull) => final(self).unchanged(old(self))
                                && is_rejection(out@, sender@, "game full"@),
                            Ok(gid) => set_game_effect(
                                old(self).connections.records@,
                                final(self).connections.records@,
                                sender@,
                                gid,
                                old(self).connections.has_user(sender@),
                            ) && is_broadcast_of(
                                out@,
                                final(self).games.games@[index_of_code(old(self).games.games@, j.game_code@)],
                            ),
                        }
                },
                CTSMsg::CallGrandTichu(call) => match game_of(old(self).connections.records@, sender@) {
                    None => final(self).unchanged(old(self)) && is_rejection(out@, sender@, "not in a game"@),
                    Some(gid) => final(self).connections.records@ == old(self).connections.records@
                        && exists|r: Result<(), CallError>|
                        #[trigger] call_effect(
                            old(self).games.games@,
                            final(self).games.games@,
                            gid@,
                            sender@,
                            call,
                            r,
                        ) && if r is Ok {
                            is_broadcast_of(
                                out@,
                                final(self).games.games@[index_of_id(old(self).games.games@, gid@)],
                            )
                        } else {
                            final(self).unchanged(old(self)) && is_rejection(out@, sender@, "call refused"@)
                        },
                },
            },
    {
        match msg {
            CTSMsg::Ping => reply(sender, STCMsg::Pong),
            CTSMsg::Pong => {
                self.connections.record_pong(sender);
                Vec::new()
            },
            CTSMsg::Test(t) => reply(sender, STCMsg::Test(t)),
            CTSMsg::CreateGame(c) => {
                if c.user_id != *sender {
                    return reject(sender, "not the sender");
                }
                let code = new_game_code.clone();
                let gid = new_game_id.clone();
                let ghost old_games = self.games.games@;
                let ghost name = c.display_name@;
                let r = self.games.create_game(new_game_id, new_game_code, sender.clone(), c.display_name);
                assert(create_effect(old_games, self.games.games@, gid@, code@, sender@, name, r));
                match r {
                    Err(e) => {
                        assert(e == CreateGameError::GameIdTaken || e == CreateGameError::GameCodeTaken);
                        assert(has_id(old_games, gid@) || has_code(old_games, code@));
                        reject(sender, "game id or code in use")
                    },
                    Ok(()) => {
                        self.connections.set_game(sender, gid);
                        let mut out = reply(sender, STCMsg::GameCreated(code));
                        let last = self.games.games.len() - 1;
                        let mut b = broadcast(&self.games.games[last]);
                        let ghost b0 = b@;
                        out.append(&mut b);
                        assert(out@.drop_first() =~= b0);
                        assert(create_effect(old_games, self.games.games@, gid@, code@, sender@, name, Ok(())));
                        out
                    },
                }
            },
            CTSMsg::JoinGameWithGameCode(j) => {
                if j.user_id != *sender {
                    return reject(sender, "not the sender");
                }
                let ghost old_games = self.games.games@;
                let r = self.games.join_game(&j.game_code, sender.clone(), j.display_name);
                assert(join_effect(old_games, self.games.games@, j.game_code@, sender@, j.display_name@, r));
                match r {
                    Err(JoinError::GameNotFound) => reject(sender, "game not found"),
                    Err(JoinError::GameFull) => reject(sender, "game full"),
                    Ok(gid) => {
                        self.connections.set_game(sender, gid);
                        let idx = self.games.find_by_code(&j.game_code);
                        let ghost i = index_of_code(old_games, j.game_code@);
                        match idx {
                            Some(k) => {
                                assert(k as int == i) by {
                                    let new_games = self.games.games@;
                                    assert(new_games[i].game_code@ == j.game_code@);
                                    if (k as int) < i {
                                        assert(new_games[k as int].game_code@ != new_games[i].game_code@);
                                    } else if (k as int) > i {
                                        assert(new_games[i].game_code@ != new_games[k as int].game_code@);
                                    }
                                }
                                broadcast(&self.games.games[k])
                            },
                            None => {
                                assert(self.games.games@[i].game_code@ == j.game_code@);
                                Vec::new()
                            },
                        }
                    },
                }
            },
            CTSMsg::CallGrandTichu(call) => {
                let gid = match self.connections.find(sender) {
                    None => return reject(sender, "not in a game"),
                    Some(ci) => {
                        proof {
                            let recs = self.connections.records@;
                            let c = choose|c: int| 0 <= c < recs.len() && #[trigger] recs[c].user_id@ == sender@;
                            if c < ci as int {
                                assert(recs[c].user_id@ != recs[ci as int].user_id@);
                            } else if c > ci as int {
                                assert(recs[ci as int].user_id@ != recs[c].user_id@);
                            }
                        }
                        match &self.connections.records[ci].game_id {
                            None => return reject(sender, "not in a game"),
                            Some(g) => g.clone(),
                        }
                    },
                };
                let ghost old_games = self.games.games@;
                let r = self.games.call_grand_tichu(&gid, sender, call);
                assert(call_effect(old_games, self.games.games@, gid@, sender@, call, r));
                match r {
                    Err(_) => {
                        let out = reject(sender, "call refused");
                        assert(self.games.games@ =~= old_games);
                        out
                    },
                    Ok(()) => {
                        let ghost i = index_of_id(old_games, gid@);
                        match self.games.find_by_id(&gid) {
                            Some(k) => {
                                assert(k as int == i) by {
                                    let new_games = self.games.games@;
                                    assert(new_games[i].game_id@ == gid@);
                                    if (k as int) < i {
                                        assert(new_games[k as int].game_id@ != new_games[i].game_id@);
                                    } else if (k as int) > i {
                                        assert(new_games[i].game_id@ != new_games[k as int].game_id@);
                                    }
                                }
                                broadcast(&self.games.games[k])
                            },
                            None => {
                                assert(self.games.games@[i].game_id@ == gid@);
                                Vec::new()
                            },
                        }
                    },
                }
            },
        }
    }

    /// Registers a connection opened with `requested_id`. A client that has
    /// no id yet sends `NO_USER_ID` and is given `fresh_id`, which the caller
    /// draws at random, and told so.
    pub fn handshake(&mut self, requested_id: &String, fresh_id: String) -> (r: (String, Vec<Outbound>))
        requires
            old(self).wf(),
        ensures
            final(self).wf(),
            final(self).games.games@ == old(self).games.games@,
            final(self).connections.has_user(r.0@),
            requested_id@ == NO_USER_ID@ ==> r.0 == fresh_id && r.1@.len() == 1 && r.1@[0].to@
                == fresh_id@ && r.1@[0].msg == STCMsg::UserIdAssigned(fresh_id),
            requested_id@ != NO_USER_ID@ ==> r.0@ == requested_id@ && r.1@.len() == 0,
    {
        let no_id = NO_USER_ID.to_owned();
        if *requested_id == no_id {
            self.connections.connect(fresh_id.clone());
            let out = reply(&fresh_id, STCMsg::UserIdAssigned(fresh_id.clone()));
            (fresh_id, out)
        } else {
            self.connections.connect(requested_id.clone());
            (requested_id.clone(), Vec::new())
        }
    }
}

} // verus!
