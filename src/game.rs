use vstd::prelude::*;

verus! {

/// Seats at a table.
pub const MAX_PLAYERS: usize = 4;

/// Phase of a game. A game waits in `Lobby` until its table is full, then
/// every player decides on a grand tichu call, then cards are traded.
#[derive(Clone, Copy, Debug, PartialEq, Eq, Structural)]
pub enum GameStage {
    Lobby,
    GrandTichuCall,
    Trading,
}

/// A player's decision on a tichu call.
#[derive(Clone, Copy, Debug, PartialEq, Eq, Structural)]
pub enum TichuCallStatus {
    Undecided,
    Called,
    Declined,
    Achieved,
    Failed,
}

#[derive(Clone, Debug)]
pub struct Player {
    pub user_id: String,
    pub display_name: String,
    pub grand_tichu: TichuCallStatus,
}

/// The authoritative record of one game.
#[derive(Clone, Debug)]
pub struct GameState {
    pub game_id: String,
    pub game_code: String,
    pub owner_id: String,
    pub stage: GameStage,
    pub players: Vec<Player>,
}

impl GameState {
    /// Index of the seat that `user_id` holds, if any.
    pub open spec fn seat_of(&self, user_id: Seq<char>) -> Option<int> {
        if exists|i: int| 0 <= i < self.players@.len() && #[trigger] self.players@[i].user_id@ == user_id {
            Some(choose|i: int| 0 <= i < self.players@.len() && #[trigger] self.players@[i].user_id@ == user_id)
        } else {
            None
        }
    }

    pub open spec fn has_player(&self, user_id: Seq<char>) -> bool {
        exists|i: int| 0 <= i < self.players@.len() && #[trigger] self.players@[i].user_id@ == user_id
    }

    /// Every player has decided on a grand tichu call.
    pub open spec fn all_decided(&self) -> bool {
        forall|i: int| 0 <= i < self.players@.len() ==> #[trigger] self.players@[i].grand_tichu
            != TichuCallStatus::Undecided
    }

    /// At most four seats, no user seated twice, and the stage agrees with
    /// the number of seats taken and the calls made.
    pub open spec fn wf(&self) -> bool {
        &&& self.players@.len() <= MAX_PLAYERS
        &&& forall|i: int, j: int|
            0 <= i < j < self.players@.len() ==> #[trigger] self.players@[i].user_id@
                != #[trigger] self.players@[j].user_id@
        &&& (self.stage == GameStage::Lobby <==> self.players@.len() < MAX_PLAYERS)
        &&& (self.stage == GameStage::Trading ==> self.all_decided())
        &&& (self.stage != GameStage::Trading ==> forall|i: int|
            0 <= i < self.players@.len() ==> #[trigger] self.players@[i].grand_tichu
                == TichuCallStatus::Undecided || self.stage == GameStage::GrandTichuCall)
        &&& (self.stage == GameStage::GrandTichuCall ==> !self.all_decided())
    }

    fn find_player(&self, user_id: &String) -> (r: Option<usize>)
        ensures
            r matches Some(i) ==> i < self.players@.len() && self.players@[i as int].user_id@
                == user_id@,
            r is None ==> !self.has_player(user_id@),
    {
        let mut i: usize = 0;
        while i < self.players.len()
            invariant
                i <= self.players@.len(),
                forall|j: int| 0 <= j < i ==> #[trigger] self.players@[j].user_id@ != user_id@,
            decreases self.players@.len() - i,
        {
            if self.players[i].user_id == *user_id {
                return Some(i);
            }
            i = i + 1;
        }
        None
    }

    fn check_all_decided(&self) -> (r: bool)
        ensures
            r == self.all_decided(),
    {
        let mut i: usize = 0;
        while i < self.players.len()
            invariant
                i <= self.players@.len(),
                forall|j: int| 0 <= j < i ==> #[trigger] self.players@[j].grand_tichu
                    != TichuCallStatus::Undecided,
            decreases self.players@.len() - i,
        {
            if self.players[i].grand_tichu == TichuCallStatus::Undecided {
                return false;
            }
            i = i + 1;
        }
        true
    }
}

#[derive(Clone, Copy, Debug, PartialEq, Eq, Structural)]
pub enum CreateGameError {
    GameIdTaken,
    GameCodeTaken,
}

#[derive(Clone, Copy, Debug, PartialEq, Eq, Structural)]
pub enum JoinError {
    GameNotFound,
    GameFull,
}

#[derive(Clone, Copy, Debug, PartialEq, Eq, Structural)]
pub enum CallError {
    GameNotFound,
    WrongStage,
    NotAPlayer,
    AlreadyDecided,
}

pub open spec fn has_id(games: Seq<GameState>, game_id: Seq<char>) -> bool {
    exists|i: int| 0 <= i < games.len() && #[trigger] games[i].game_id@ == game_id
}

pub open spec fn has_code(games: Seq<GameState>, game_code: Seq<char>) -> bool {
    exists|i: int| 0 <= i < games.len() && #[trigger] games[i].game_code@ == game_code
}

/// Index of the game with this code.
pub open spec fn index_of_code(games: Seq<GameState>, game_code: Seq<char>) -> int {
    choose|i: int| 0 <= i < games.len() && #[trigger] games[i].game_code@ == game_code
}

/// Index of the game with this id.
pub open spec fn index_of_id(games: Seq<GameState>, game_id: Seq<char>) -> int {
    choose|i: int| 0 <= i < games.len() && #[trigger] games[i].game_id@ == game_id
}

/// `create_game` took `old` to `new` with result `r`.
pub open spec fn create_effect(
    old: Seq<GameState>,
    new: Seq<GameState>,
    game_id: Seq<char>,
    game_code: Seq<char>,
    owner_id: Seq<char>,
    display_name: Seq<char>,
    r: Result<(), CreateGameError>,
) -> bool {
    &&& (r == Err::<(), _>(CreateGameError::GameIdTaken) <==> has_id(old, game_id))
    &&& (r == Err::<(), _>(CreateGameError::GameCodeTaken) <==> !has_id(old, game_id) && has_code(old, game_code))
    &&& (r is Err ==> new == old)
    &&& (r is Ok ==> {
        &&& new.len() == old.len() + 1
        &&& new.drop_last() == old
        &&& new.last().game_id@ == game_id
        &&& new.last().game_code@ == game_code
        &&& new.last().owner_id@ == owner_id
        &&& new.last().stage == GameStage::Lobby
        &&& new.last().players@.len() == 1
        &&& new.last().players@[0].user_id@ == owner_id
        &&& new.last().players@[0].display_name@ == display_name
        &&& new.last().players@[0].grand_tichu == TichuCallStatus::Undecided
    })
}

/// `join_game` took `old` to `new` with result `r`.
pub open spec fn join_effect(
    old: Seq<GameState>,
    new: Seq<GameState>,
    game_code: Seq<char>,
    user_id: Seq<char>,
    display_name: Seq<char>,
    r: Result<String, JoinError>,
) -> bool {
    &&& (r == Err::<String, _>(JoinError::GameNotFound) <==> !has_code(old, game_code))
    &&& (r is Ok ==> has_code(old, game_code))
    &&& (r is Err ==> new == old)
    &&& new.len() == old.len()
    &&& (has_code(old, game_code) ==> {
        let i = index_of_code(old, game_code);
        let g = old[i];
        let h = new[i];
        &&& forall|j: int| 0 <= j < old.len() && j != i ==> #[trigger] new[j] == old[j]
        &&& h.game_id == g.game_id && h.game_code == g.game_code && h.owner_id == g.owner_id
        &&& if g.has_player(user_id) {
            r == Ok::<String, JoinError>(g.game_id) && h == g
        } else if g.players@.len() >= MAX_PLAYERS {
            r == Err::<String, _>(JoinError::GameFull) && h == g
        } else {
            &&& r == Ok::<String, JoinError>(g.game_id)
            &&& h.players@.drop_last() == g.players@
            &&& h.players@.len() == g.players@.len() + 1
            &&& h.players@.last().user_id@ == user_id
            &&& h.players@.last().display_name@ == display_name
            &&& h.players@.last().grand_tichu == TichuCallStatus::Undecided
            &&& h.stage == (if h.players@.len() == MAX_PLAYERS {
                GameStage::GrandTichuCall
            } else {
                GameStage::Lobby
            })
        }
    })
}

/// `call_grand_tichu` took `old` to `new` with result `r`.
pub open spec fn call_effect(
    old: Seq<GameState>,
    new: Seq<GameState>,
    game_id: Seq<char>,
    user_id: Seq<char>,
    call: bool,
    r: Result<(), CallError>,
) -> bool {
    &&& new.len() == old.len()
    &&& (!has_id(old, game_id) ==> r == Err::<(), _>(CallError::GameNotFound) && new == old)
    &&& (has_id(old, game_id) ==> {
        let i = index_of_id(old, game_id);
        let g = old[i];
        let h = new[i];
        &&& forall|j: int| 0 <= j < old.len() && j != i ==> #[trigger] new[j] == old[j]
        &&& if g.stage != GameStage::GrandTichuCall {
            r == Err::<(), _>(CallError::WrongStage) && h == g
        } else if !g.has_player(user_id) {
            r == Err::<(), _>(CallError::NotAPlayer) && h == g
        } else {
            let k = g.seat_of(user_id)->Some_0;
            if g.players@[k].grand_tichu != TichuCallStatus::Undecided {
                r == Err::<(), _>(CallError::AlreadyDecided) && h == g
            } else {
                &&& r is Ok
                &&& h.game_id == g.game_id && h.game_code == g.game_code && h.owner_id == g.owner_id
                &&& h.players@.len() == g.players@.len()
                &&& forall|j: int| 0 <= j < g.players@.len() && j != k ==> #[trigger] h.players@[j] == g.players@[j]
                &&& h.players@[k].user_id == g.players@[k].user_id
                &&& h.players@[k].display_name == g.players@[k].display_name
                &&& h.players@[k].grand_tichu == (if call {
                    TichuCallStatus::Called
                } else {
                    TichuCallStatus::Declined
                })
                &&& h.stage == (if h.all_decided() {
                    GameStage::Trading
                } else {
                    GameStage::GrandTichuCall
                })
            }
        }
    })
}

/// Games that are well formed, with no id and no code used twice.
pub open spec fn registry_wf(games: Seq<GameState>) -> bool {
    &&& forall|i: int| 0 <= i < games.len() ==> (#[trigger] games[i]).wf()
    &&& forall|i: int, j: int|
        0 <= i < j < games.len() ==> (#[trigger] games[i]).game_id@ != (#[trigger] games[j]).game_id@
    &&& forall|i: int, j: int|
        0 <= i < j < games.len() ==> (#[trigger] games[i]).game_code@
            != (#[trigger] games[j]).game_code@
}

/// A join, whatever its outcome, leaves exactly one game per id and never
/// seats more than four players at a table.
pub proof fn lemma_join_keeps_one_game_per_id(
    old: Seq<GameState>,
    new: Seq<GameState>,
    game_code: Seq<char>,
    user_id: Seq<char>,
    display_name: Seq<char>,
    r: Result<String, JoinError>,
)
    requires
        registry_wf(old),
        join_effect(old, new, game_code, user_id, display_name, r),
    ensures
        forall|i: int, j: int|
            0 <= i < j < new.len() ==> (#[trigger] new[i]).game_id@ != (#[trigger] new[j]).game_id@,
        forall|i: int| 0 <= i < new.len() ==> (#[trigger] new[i]).players@.len() <= MAX_PLAYERS,
{
    if has_code(old, game_code) {
        let k = index_of_code(old, game_code);
        assert forall|i: int| 0 <= i < new.len() implies (#[trigger] new[i]).players@.len()
            <= MAX_PLAYERS by {
            assert(old[i].wf());
        }
        assert forall|i: int, j: int| 0 <= i < j < new.len() implies (#[trigger] new[i]).game_id@
            != (#[trigger] new[j]).game_id@ by {
            assert(new[i].game_id == old[i].game_id);
            assert(new[j].game_id == old[j].game_id);
        }
    } else {
        assert forall|i: int| 0 <= i < new.len() implies (#[trigger] new[i]).players@.len()
            <= MAX_PLAYERS by {
            assert(old[i].wf());
        }
    }
}

/// All games in progress, each reachable by its id and by its game code.
pub struct Games {
    pub games: Vec<GameState>,
}

impl Games {
    /// Every game is well formed, and no two games share an id or a code.
    pub open spec fn wf(&self) -> bool {
        registry_wf(self.games@)
    }

    pub open spec fn has_id(&self, game_id: Seq<char>) -> bool {
        has_id(self.games@, game_id)
    }

    pub open spec fn has_code(&self, game_code: Seq<char>) -> bool {
        has_code(self.games@, game_code)
    }

    pub fn new() -> (r: Games)
        ensures
            r.wf(),
            r.games@.len() == 0,
    {
        Games { games: Vec::new() }
    }

    /// Index of the game with this id.
    pub fn find_by_id(&self, game_id: &String) -> (r: Option<usize>)
        ensures
            r matches Some(i) ==> i < self.games@.len() && self.games@[i as int].game_id@
                == game_id@,
            r is None <==> !self.has_id(game_id@),
    {
        let mut i: usize = 0;
        while i < self.games.len()
            invariant
                i <= self.games@.len(),
                forall|j: int| 0 <= j < i ==> #[trigger] self.games@[j].game_id@ != game_id@,
            decreases self.games@.len() - i,
        {
            if self.games[i].game_id == *game_id {
                return Some(i);
            }
            i = i + 1;
        }
        None
    }

    /// Index of the game that this code was given to.
    pub fn find_by_code(&self, game_code: &String) -> (r: Option<usize>)
        ensures
            r matches Some(i) ==> i < self.games@.len() && self.games@[i as int].game_code@
                == game_code@,
            r is None <==> !self.has_code(game_code@),
    {
        let mut i: usize = 0;
        while i < self.games.len()
            invariant
                i <= self.games@.len(),
                forall|j: int| 0 <= j < i ==> #[trigger] self.games@[j].game_code@ != game_code@,
            decreases self.games@.len() - i,
        {
            if self.games[i].game_code == *game_code {
                return Some(i);
            }
            i = i + 1;
        }
        None
    }

    /// Opens a game in the lobby with its owner in the first seat, under a
    /// fresh id and a fresh code.
    pub fn create_game(
        &mut self,
        game_id: String,
        game_code: String,
        owner_id: String,
        display_name: String,
    ) -> (r: Result<(), CreateGameError>)
        requires
            old(self).wf(),
        ensures
            final(self).wf(),
            create_effect(old(self).games@, final(self).games@, game_id@, game_code@, owner_id@, display_name@, r),
    {
        if self.find_by_id(&game_id).is_some() {
            return Err(CreateGameError::GameIdTaken);
        }
        if self.find_by_code(&game_code).is_some() {
            return Err(CreateGameError::GameCodeTaken);
        }
        let mut players: Vec<Player> = Vec::new();
        players.push(
            Player {
                user_id: owner_id.clone(),
                display_name,
                grand_tichu: TichuCallStatus::Undecided,
            },
        );
        let game = GameState { game_id, game_code, owner_id, stage: GameStage::Lobby, players };
        let ghost before = self.games@;
        self.games.push(game);
        assert(self.games@.drop_last() =~= before);
        assert(self.games@[before.len() as int].wf());
        Ok(())
    }

    /// Seats `user_id` at the game that `game_code` names. A user who is
    /// already seated keeps their seat. When the last seat is taken the game
    /// moves on to the grand tichu calls.
    pub fn join_game(&mut self, game_code: &String, user_id: String, display_name: String) -> (r:
        Result<String, JoinError>)
        requires
            old(self).wf(),
        ensures
            final(self).wf(),
            join_effect(old(self).games@, final(self).games@, game_code@, user_id@, display_name@, r),
    {
        let idx = match self.find_by_code(game_code) {
            None => return Err(JoinError::GameNotFound),
            Some(i) => i,
        };
        let ghost i = choose|i: int|
            0 <= i < self.games@.len() && #[trigger] self.games@[i].game_code@ == game_code@;
        assert(i == idx as int) by {
            if i != idx as int {
                if i < idx as int {
                    assert(self.games@[i].game_code@ != self.games@[idx as int].game_code@);
                } else {
                    assert(self.games@[idx as int].game_code@ != self.games@[i].game_code@);
                }
            }
        }
        if self.games[idx].find_player(&user_id).is_some() {
            return Ok(self.games[idx].game_id.clone());
        }
        if self.games[idx].players.len() >= MAX_PLAYERS {
            return Err(JoinError::GameFull);
        }
        let ghost before = self.games@;
        let mut game = self.games.remove(idx);
        let ghost g = game;
        let game_id = game.game_id.clone();
        game.players.push(
            Player { user_id, display_name, grand_tichu: TichuCallStatus::Undecided },
        );
        if game.players.len() == MAX_PLAYERS {
            game.stage = GameStage::GrandTichuCall;
        }
        assert(game.players@.drop_last() =~= g.players@);
        assert(game.wf()) by {
            assert forall|a: int, b: int| 0 <= a < b < game.players@.len() implies #[trigger] game.players@[a].user_id@
                != #[trigger] game.players@[b].user_id@ by {
                if b == g.players@.len() {
                    assert(game.players@[a] == g.players@[a]);
                } else {
                    assert(game.players@[a] == g.players@[a] && game.players@[b] == g.players@[b]);
                }
            }
            assert(g.stage == GameStage::Lobby);
            if game.players@.len() == MAX_PLAYERS {
                let last = game.players@.len() - 1;
                assert(game.players@[last].grand_tichu == TichuCallStatus::Undecided);
            }
        }
        self.games.insert(idx, game);
        assert(self.games@ =~= before.update(idx as int, game));
        Ok(game_id)
    }

    /// Records the grand tichu decision of a seated player. Once every
    /// player has decided, the game moves on to trading.
    pub fn call_grand_tichu(&mut self, game_id: &String, user_id: &String, call: bool) -> (r: Result<
        (),
        CallError,
    >)
        requires
            old(self).wf(),
        ensures
            final(self).wf(),
            call_effect(old(self).games@, final(self).games@, game_id@, user_id@, call, r),
    {
        let idx = match self.find_by_id(game_id) {
            None => return Err(CallError::GameNotFound),
            Some(i) => i,
        };
        let ghost i = choose|i: int|
            0 <= i < self.games@.len() && #[trigger] self.games@[i].game_id@ == game_id@;
        assert(i == idx as int) by {
            if i < idx as int {
                assert(self.games@[i].game_id@ != self.games@[idx as int].game_id@);
            } else if i > idx as int {
                assert(self.games@[idx as int].game_id@ != self.games@[i].game_id@);
            }
        }
        if self.games[idx].stage != GameStage::GrandTichuCall {
            return Err(CallError::WrongStage);
        }
        let seat = match self.games[idx].find_player(user_id) {
            None => return Err(CallError::NotAPlayer),
            Some(k) => k,
        };
        let ghost g = self.games@[idx as int];
        let ghost k = g.seat_of(user_id@)->Some_0;
        assert(k == seat as int) by {
            assert(g.has_player(user_id@));
            if k < seat as int {
                assert(g.players@[k].user_id@ != g.players@[seat as int].user_id@);
            } else if k > seat as int {
                assert(g.players@[seat as int].user_id@ != g.players@[k].user_id@);
            }
        }
        if self.games[idx].players[seat].grand_tichu != TichuCallStatus::Undecided {
            return Err(CallError::AlreadyDecided);
        }
        let ghost before = self.games@;
        let mut game = self.games.remove(idx);
        let player = game.players.remove(seat);
        let status = if call {
            TichuCallStatus::Called
        } else {
            TichuCallStatus::Declined
        };
        game.players.insert(
            seat,
            Player { user_id: player.user_id, display_name: player.display_name, grand_tichu: status },
        );
        if game.check_all_decided() {
            game.stage = GameStage::Trading;
        }
        assert(game.wf()) by {
            assert forall|a: int, b: int| 0 <= a < b < game.players@.len() implies #[trigger] game.players@[a].user_id@
                != #[trigger] game.players@[b].user_id@ by {
                assert(game.players@[a].user_id == g.players@[a].user_id);
                assert(game.players@[b].user_id == g.players@[b].user_id);
            }
            if game.stage == GameStage::GrandTichuCall {
                assert(!game.all_decided());
            }
        }
        self.games.insert(idx, game);
        assert(self.games@ =~= before.update(idx as int, game));
        Ok(())
    }

    /// Tears a game down, releasing its id and its code.
    pub fn remove_game(&mut self, game_id: &String) -> (r: Option<GameState>)
        requires
            old(self).wf(),
        ensures
            final(self).wf(),
            !final(self).has_id(game_id@),
            r is None <==> !old(self).has_id(game_id@),
            r is None ==> final(self).games@ == old(self).games@,
            r matches Some(g) ==> g.game_id@ == game_id@ && exists|i: int|
                0 <= i < old(self).games@.len() && old(self).games@[i] == g
                    && final(self).games@ == old(self).games@.remove(i),
    {
        match self.find_by_id(game_id) {
            None => None,
            Some(idx) => {
                let ghost before = self.games@;
                let g = self.games.remove(idx);
                assert(before[idx as int] == g);
                assert forall|j: int| 0 <= j < self.games@.len() implies #[trigger] self.games@[j].game_id@ != game_id@ by {
                    if j < idx as int {
                        assert(before[j].game_id@ != before[idx as int].game_id@);
                    } else {
                        assert(before[idx as int].game_id@ != before[j + 1].game_id@);
                    }
                }
                assert forall|a: int, b: int| 0 <= a < b < self.games@.len() implies
                    (#[trigger] self.games@[a]).game_code@ != (#[trigger] self.games@[b]).game_code@
                        && self.games@[a].game_id@ != self.games@[b].game_id@ by {
                    let a2 = if a < idx as int { a } else { a + 1 };
                    let b2 = if b < idx as int { b } else { b + 1 };
                    assert(self.games@[a] == before[a2] && self.games@[b] == before[b2]);
                }
                Some(g)
            },
        }
    }
}

} // verus!
