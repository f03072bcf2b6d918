use vstd::prelude::*;

verus! {

/// Tick period of the heartbeat, in milliseconds.
pub const PING_INTERVAL_MS: u64 = 5_000;

/// What the heartbeat does to one connection on a tick.
#[derive(Clone, Copy, Debug, PartialEq, Eq, Structural)]
pub enum HeartbeatAction {
    /// The last ping went unanswered: close the connection.
    Close,
    /// Send a ping and wait for the pong before the next tick.
    Ping,
}

/// What the server knows of one user's connection.
#[derive(Clone, Debug)]
pub struct ConnectionData {
    pub user_id: String,
    pub game_id: Option<String>,
    /// Whether the user answered the last ping.
    pub is_alive: bool,
    /// Whether the user's socket is currently open.
    pub connected: bool,
}

/// The heartbeat's decision for a connection in state `c`.
pub open spec fn heartbeat_action(c: ConnectionData) -> HeartbeatAction {
    if c.connected && !c.is_alive {
        HeartbeatAction::Close
    } else {
        HeartbeatAction::Ping
    }
}

/// The connection's state after a tick: a ping leaves it waiting for the pong.
pub open spec fn heartbeat_next(c: ConnectionData) -> ConnectionData {
    if heartbeat_action(c) == HeartbeatAction::Ping {
        ConnectionData { is_alive: false, ..c }
    } else {
        c
    }
}

impl ConnectionData {
    /// A connection just opened by `user_id`.
    pub fn new(user_id: String) -> (r: ConnectionData)
        ensures
            r.user_id == user_id,
            r.game_id is None,
            r.is_alive,
            r.connected,
    {
        ConnectionData { user_id, game_id: None, is_alive: true, connected: true }
    }

    /// One heartbeat tick on this connection.
    pub fn heartbeat(&mut self) -> (a: HeartbeatAction)
        ensures
            a == heartbeat_action(*old(self)),
            *final(self) == heartbeat_next(*old(self)),
    {
        if self.connected && !self.is_alive {
            HeartbeatAction::Close
        } else {
            self.is_alive = false;
            HeartbeatAction::Ping
        }
    }

    /// A pong came in.
    pub fn record_pong(&mut self)
        ensures
            *final(self) == (ConnectionData { is_alive: true, ..*old(self) }),
    {
        self.is_alive = true;
    }
}

/// A connection that answered its last ping and then never answers again is
/// pinged on the next tick and closed on the tick after: it survives exactly
/// one missed heartbeat.
pub proof fn lemma_unanswered_ping_closes(c: ConnectionData)
    requires
        c.connected,
        c.is_alive,
    ensures
        heartbeat_action(c) == HeartbeatAction::Ping,
        heartbeat_action(heartbeat_next(c)) == HeartbeatAction::Close,
        heartbeat_next(heartbeat_next(c)) == heartbeat_next(c),
{
}

/// A pong between two ticks keeps an open connection from being closed.
pub proof fn lemma_answered_ping_survives(c: ConnectionData)
    ensures
        heartbeat_action(ConnectionData { is_alive: true, ..heartbeat_next(c) })
            == HeartbeatAction::Ping,
{
}

pub open spec fn has_user(records: Seq<ConnectionData>, user_id: Seq<char>) -> bool {
    exists|i: int| 0 <= i < records.len() && #[trigger] records[i].user_id@ == user_id
}

/// `record_pong` took `old` to `new`.
pub open spec fn pong_effect(
    old: Seq<ConnectionData>,
    new: Seq<ConnectionData>,
    user_id: Seq<char>,
    found: bool,
) -> bool {
    &&& found == has_user(old, user_id)
    &&& (!found ==> new == old)
    &&& (found ==> exists|i: int|
        0 <= i < old.len() && old[i].user_id@ == user_id && new == old.update(
            i,
            ConnectionData { is_alive: true, ..old[i] },
        ))
}

/// `set_game` took `old` to `new`.
pub open spec fn set_game_effect(
    old: Seq<ConnectionData>,
    new: Seq<ConnectionData>,
    user_id: Seq<char>,
    game_id: String,
    found: bool,
) -> bool {
    &&& found == has_user(old, user_id)
    &&& (!found ==> new == old)
    &&& (found ==> exists|i: int|
        0 <= i < old.len() && old[i].user_id@ == user_id && new == old.update(
            i,
            ConnectionData { game_id: Some(game_id), ..old[i] },
        ))
}

/// Every open connection, at most one per user.
pub struct Connections {
    pub records: Vec<ConnectionData>,
}

impl Connections {
    pub open spec fn wf(&self) -> bool {
        forall|i: int, j: int|
            0 <= i < j < self.records@.len() ==> (#[trigger] self.records@[i]).user_id@
                != (#[trigger] self.records@[j]).user_id@
    }

    pub open spec fn has_user(&self, user_id: Seq<char>) -> bool {
        has_user(self.records@, user_id)
    }

    pub fn new() -> (r: Connections)
        ensures
            r.wf(),
            r.records@.len() == 0,
    {
        Connections { records: Vec::new() }
    }

    /// Index of the record of `user_id`.
    pub fn find(&self, user_id: &String) -> (r: Option<usize>)
        ensures
            r matches Some(i) ==> i < self.records@.len() && self.records@[i as int].user_id@
                == user_id@,
            r is None <==> !self.has_user(user_id@),
    {
        let mut i: usize = 0;
        while i < self.records.len()
            invariant
                i <= self.records@.len(),
                forall|j: int| 0 <= j < i ==> #[trigger] self.records@[j].user_id@ != user_id@,
            decreases self.records@.len() - i,
        {
            if self.records[i].user_id == *user_id {
                return Some(i);
            }
            i = i + 1;
        }
        None
    }

    /// Registers the connection that `user_id` just opened. A user who
    /// reconnects keeps their game.
    pub fn connect(&mut self, user_id: String)
        requires
            old(self).wf(),
        ensures
            final(self).wf(),
            final(self).has_user(user_id@),
            old(self).has_user(user_id@) ==> exists|i: int|
                0 <= i < old(self).records@.len() && old(self).records@[i].user_id@ == user_id@
                    && final(self).records@ == old(self).records@.update(
                    i,
                    ConnectionData { is_alive: true, connected: true, ..old(self).records@[i] },
                ),
            !old(self).has_user(user_id@) ==> final(self).records@ == old(self).records@.push(
                ConnectionData { user_id, game_id: None, is_alive: true, connected: true },
            ),
    {
        match self.find(&user_id) {
            Some(i) => {
                let ghost before = self.records@;
                let mut rec = self.records.remove(i);
                rec.is_alive = true;
                rec.connected = true;
                self.records.insert(i, rec);
                assert(self.records@ =~= before.update(
                    i as int,
                    ConnectionData { is_alive: true, connected: true, ..before[i as int] },
                ));
                assert(self.records@[i as int].user_id@ == user_id@);
            },
            None => {
                let ghost id = user_id@;
                self.records.push(ConnectionData::new(user_id));
                assert(self.records@[self.records@.len() - 1].user_id@ == id);
            },
        }
    }

    /// Notes a pong from `user_id`; false when the user has no record.
    pub fn record_pong(&mut self, user_id: &String) -> (found: bool)
        requires
            old(self).wf(),
        ensures
            final(self).wf(),
            pong_effect(old(self).records@, final(self).records@, user_id@, found),
    {
        match self.find(user_id) {
            Some(i) => {
                let ghost before = self.records@;
                let mut rec = self.records.remove(i);
                rec.record_pong();
                self.records.insert(i, rec);
                assert(self.records@ =~= before.update(
                    i as int,
                    ConnectionData { is_alive: true, ..before[i as int] },
                ));
                true
            },
            None => false,
        }
    }

    /// Notes the game that `user_id` now plays in; false when the user has no record.
    pub fn set_game(&mut self, user_id: &String, game_id: String) -> (found: bool)
        requires
            old(self).wf(),
        ensures
            final(self).wf(),
            set_game_effect(old(self).records@, final(self).records@, user_id@, game_id, found),
    {
        match self.find(user_id) {
            Some(i) => {
                let ghost before = self.records@;
                let mut rec = self.records.remove(i);
                rec.game_id = Some(game_id);
                self.records.insert(i, rec);
                assert(self.records@ =~= before.update(
                    i as int,
                    ConnectionData { game_id: Some(game_id), ..before[i as int] },
                ));
                true
            },
            None => false,
        }
    }

    /// Marks the socket of `user_id` closed; the record stays for a reconnection.
    pub fn disconnect(&mut self, user_id: &String) -> (found: bool)
        requires
            old(self).wf(),
        ensures
            final(self).wf(),
            found == old(self).has_user(user_id@),
            !found ==> final(self).records@ == old(self).records@,
            found ==> exists|i: int|
                0 <= i < old(self).records@.len() && old(self).records@[i].user_id@ == user_id@
                    && final(self).records@ == old(self).records@.update(
                    i,
                    ConnectionData { connected: false, ..old(self).records@[i] },
                ),
    {
        match self.find(user_id) {
            Some(i) => {
                let ghost before = self.records@;
                let mut rec = self.records.remove(i);
                rec.connected = false;
                self.records.insert(i, rec);
                assert(self.records@ =~= before.update(
                    i as int,
                    ConnectionData { connected: false, ..before[i as int] },
                ));
                true
            },
            None => false,
        }
    }

    /// Drops the record of `user_id`, whose channel failed.
    pub fn remove(&mut self, user_id: &String) -> (r: Option<ConnectionData>)
        requires
            old(self).wf(),
        ensures
            final(self).wf(),
            !final(self).has_user(user_id@),
            r is None <==> !old(self).has_user(user_id@),
            r is None ==> final(self).records@ == old(self).records@,
            r matches Some(c) ==> exists|i: int|
                0 <= i < old(self).records@.len() && old(self).records@[i] == c
                    && c.user_id@ == user_id@ && final(self).records@ == old(self).records@.remove(i),
    {
        match self.find(user_id) {
            None => None,
            Some(idx) => {
                let ghost before = self.records@;
                let c = self.records.remove(idx);
                assert forall|j: int| 0 <= j < self.records@.len() implies #[trigger] self.records@[j].user_id@ != user_id@ by {
                    if j < idx as int {
                        assert(before[j].user_id@ != before[idx as int].user_id@);
                    } else {
                        assert(before[idx as int].user_id@ != before[j + 1].user_id@);
                    }
                }
                assert forall|a: int, b: int| 0 <= a < b < self.records@.len() implies
                    (#[trigger] self.records@[a]).user_id@ != (#[trigger] self.records@[b]).user_id@ by {
                    let a2 = if a < idx as int { a } else { a + 1 };
                    let b2 = if b < idx as int { b } else { b + 1 };
                    assert(self.records@[a] == before[a2] && self.records@[b] == before[b2]);
                }
                Some(c)
            },
        }
    }

    /// One heartbeat tick over every connection: the action for each record,
    /// in the order of the records.
    pub fn heartbeat_tick(&mut self) -> (actions: Vec<HeartbeatAction>)
        requires
            old(self).wf(),
        ensures
            final(self).wf(),
            actions@.len() == old(self).records@.len(),
            final(self).records@.len() == old(self).records@.len(),
            forall|i: int|
                0 <= i < actions@.len() ==> #[trigger] actions@[i] == heartbeat_action(
                    old(self).records@[i],
                ) && final(self).records@[i] == heartbeat_next(old(self).records@[i]),
    {
        let ghost before = self.records@;
        let mut actions: Vec<HeartbeatAction> = Vec::new();
        let mut i: usize = 0;
        while i < self.records.len()
            invariant
                i <= self.records@.len(),
                self.records@.len() == before.len(),
                actions@.len() == i,
                forall|j: int|
                    0 <= j < i ==> #[trigger] actions@[j] == heartbeat_action(before[j])
                        && self.records@[j] == heartbeat_next(before[j]),
                forall|j: int| i <= j < before.len() ==> #[trigger] self.records@[j] == before[j],
            decreases before.len() - i,
        {
            let ghost cur = self.records@;
            let mut rec = self.records.remove(i);
            let a = rec.heartbeat();
            self.records.insert(i, rec);
            assert(self.records@ =~= cur.update(i as int, heartbeat_next(before[i as int])));
            actions.push(a);
            i = i + 1;
        }
        assert forall|a: int, b: int| 0 <= a < b < self.records@.len() implies
            (#[trigger] self.records@[a]).user_id@ != (#[trigger] self.records@[b]).user_id@ by {
            assert(actions@[a] == heartbeat_action(before[a]));
            assert(actions@[b] == heartbeat_action(before[b]));
            assert(self.records@[a].user_id == before[a].user_id);
            assert(self.records@[b].user_id == before[b].user_id);
        }
        actions
    }
}

} // verus!
