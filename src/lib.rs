//! Lobby session engine for a multiplayer kanji word-guessing game.
//!
//! Players gather in a lobby, the first one to join leads it, and once the
//! leader starts the game everybody races to submit a dictionary word that
//! contains the kanji currently on display. Each lobby's state sits behind a
//! single reader-writer lock, and the registry maps lobby ids to lobbies.

pub mod client;
pub mod corpus;
pub mod error;
pub mod ids;
pub mod judge;
pub mod laws;
pub mod lobby;
pub mod models;
pub mod registry;
pub mod retry;
pub mod shared;

pub use error::{AppError, Result};
pub use ids::{generate_lobby_id, generate_player_id, generate_random_id};
pub use judge::{judge, judge_trimmed, Verdict};
pub use lobby::LobbyState;
pub use models::{
    CheckWordResponse, CreateUserRequest, GameSettings, GameStatus, JoinLobbyRequest,
    KanjiPrompt, LobbyCreationError, LobbyInfo, PlayerData, PlayerId, StartGameRequest,
    UpdateSettingsRequest, UserInput, UserScore,
};
pub use registry::{get_lobby, AppState, SharedState};
pub use shared::Shared;
