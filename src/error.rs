//! The ways an operation of the lobby engine can fail.

use vstd::prelude::*;

verus! {

/// Failure of a lobby or registry operation.
#[derive(Debug, PartialEq, Eq)]
pub enum AppError {
    /// No lobby is registered under this id.
    LobbyNotFound(String),
    /// The lobby has no player with this id.
    PlayerNotFound(String),
    /// Shared state could not be reached.
    LockError(String),
    /// The request does not fit the lobby's current phase.
    InvalidInput(String),
    /// The word or kanji corpus could not be loaded.
    DataLoadError(String),
    /// The caller is not the lobby's leader.
    AuthError(String),
    /// A state that the engine never reaches on its own.
    InternalError(String),
}

/// Result of a lobby or registry operation.
pub type Result<T> = std::result::Result<T, AppError>;

/// The HTTP status that reports `e`.
pub open spec fn status_of(e: AppError) -> u16 {
    match e {
        AppError::LobbyNotFound(_) | AppError::PlayerNotFound(_) => 404,
        AppError::InvalidInput(_) => 400,
        AppError::AuthError(_) => 401,
        AppError::LockError(_) | AppError::DataLoadError(_) | AppError::InternalError(_) => 500,
    }
}

/// The text that describes `e`.
pub open spec fn message_of(e: AppError) -> Seq<char> {
    match e {
        AppError::LobbyNotFound(id) => "Lobby with ID "@ + id@ + " not found"@,
        AppError::PlayerNotFound(id) => "Player with ID "@ + id@ + " not found in lobby"@,
        AppError::LockError(m) => "Failed to access shared state: "@ + m@,
        AppError::InvalidInput(m) => "Invalid input: "@ + m@,
        AppError::DataLoadError(m) => "Failed to load game data: "@ + m@,
        AppError::AuthError(m) => "Authentication error: "@ + m@,
        AppError::InternalError(m) => "Internal server error: "@ + m@,
    }
}

impl Clone for AppError {
    fn clone(&self) -> (r: Self)
        ensures
            r == *self,
    {
        match self {
            AppError::LobbyNotFound(m) => AppError::LobbyNotFound(m.clone()),
            AppError::PlayerNotFound(m) => AppError::PlayerNotFound(m.clone()),
            AppError::LockError(m) => AppError::LockError(m.clone()),
            AppError::InvalidInput(m) => AppError::InvalidInput(m.clone()),
            AppError::DataLoadError(m) => AppError::DataLoadError(m.clone()),
            AppError::AuthError(m) => AppError::AuthError(m.clone()),
            AppError::InternalError(m) => AppError::InternalError(m.clone()),
        }
    }
}

impl AppError {
    /// The HTTP status code under which this error is reported.
    pub fn status_code(&self) -> (r: u16)
        ensures
            r == status_of(*self),
    {
        match self {
            AppError::LobbyNotFound(_) | AppError::PlayerNotFound(_) => 404,
            AppError::InvalidInput(_) => 400,
            AppError::AuthError(_) => 401,
            AppError::LockError(_) | AppError::DataLoadError(_) | AppError::InternalError(_) => 500,
        }
    }

    /// A human-readable description of this error.
    pub fn message(&self) -> (r: String)
        ensures
            r@ == message_of(*self),
    {
        match self {
            AppError::LobbyNotFound(id) => {
                "Lobby with ID ".to_string().concat(id.as_str()).concat(" not found")
            },
            AppError::PlayerNotFound(id) => {
                "Player with ID ".to_string().concat(id.as_str()).concat(" not found in lobby")
            },
            AppError::LockError(m) => "Failed to access shared state: ".to_string().concat(
                m.as_str(),
            ),
            AppError::InvalidInput(m) => "Invalid input: ".to_string().concat(m.as_str()),
            AppError::DataLoadError(m) => "Failed to load game data: ".to_string().concat(
                m.as_str(),
            ),
            AppError::AuthError(m) => "Authentication error: ".to_string().concat(m.as_str()),
            AppError::InternalError(m) => "Internal server error: ".to_string().concat(m.as_str()),
        }
    }
}

} // verus!
