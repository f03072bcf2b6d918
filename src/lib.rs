//! Server-side rules engine for a four-player Tichu game: the card model,
//! the combination classifier, the connection heartbeat and the game registry.

pub mod card_utils;
pub mod client;
pub mod cards;
pub mod combos;
pub mod connection;
pub mod game;
pub mod protocol;

pub use card_utils::{get_card_combination, sort_cards_for_hand};
pub use cards::{Card, CardSuit, CardValue, Deck};
pub use client::{
    grand_tichu_status_current_user, handle_ws_message_received, handle_ws_message_send,
    update, AppMsg, CTSMsgInternal, ClientCommand, ClientEffect, ClientState, Received,
};
pub use combos::{
    BombOf4, FullHouse, Pair, Sequence, SequenceBomb, SequenceOfPairs, Single, Trio,
    ValidCardCombos,
};
pub use connection::{ConnectionData, Connections, HeartbeatAction, PING_INTERVAL_MS};
pub use game::{
    CallError, CreateGameError, GameStage, GameState, Games, JoinError, Player, TichuCallStatus,
    MAX_PLAYERS,
};
pub use protocol::{
    CTSMsg, CreateGame, JoinGameWithGameCode, Outbound, PublicGameState, PublicPlayer, STCMsg,
    Server,
};
