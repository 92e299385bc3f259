//! What a browser client makes of the server's replies.

use vstd::prelude::*;

use crate::models::GameStatus;

verus! {

/// A failed request, as the client classifies it.
#[derive(Debug, PartialEq, Eq)]
pub enum ClientError {
    Connection(String),
    Server { status_code: u16, message: String },
    NotFound(String),
    Data(String),
    Auth(String),
    Validation(String),
    Network(String),
}

impl Clone for ClientError {
    fn clone(&self) -> (r: Self)
        ensures
            r == *self,
    {
        match self {
            ClientError::Connection(m) => ClientError::Connection(m.clone()),
            ClientError::Server { status_code, message } => ClientError::Server {
                status_code: *status_code,
                message: message.clone(),
            },
            ClientError::NotFound(m) => ClientError::NotFound(m.clone()),
            ClientError::Data(m) => ClientError::Data(m.clone()),
            ClientError::Auth(m) => ClientError::Auth(m.clone()),
            ClientError::Validation(m) => ClientError::Validation(m.clone()),
            ClientError::Network(m) => ClientError::Network(m.clone()),
        }
    }
}

/// The message shown to a user for `e`.
pub open spec fn friendly_message(e: ClientError) -> Seq<char> {
    match e {
        ClientError::Network(_) => "Unable to connect to the server. Please check your internet connection."@,
        ClientError::Connection(_) => "Connection to the server failed. Please try again later."@,
        ClientError::Server { status_code, message } => if 500 <= status_code <= 599 {
            "The server encountered an error. Please try again later."@
        } else {
            "Server error: "@ + message@
        },
        ClientError::NotFound(m) => "Not found: "@ + m@,
        ClientError::Auth(_) => "You are not authorized to perform this action."@,
        ClientError::Validation(m) => "Invalid input: "@ + m@,
        ClientError::Data(m) => "Data error: "@ + m@,
    }
}

/// A message fit to show a user for `error`.
pub fn get_user_friendly_message(error: &ClientError) -> (r: String)
    ensures
        r@ == friendly_message(*error),
{
    match error {
        ClientError::Network(_) => {
            "Unable to connect to the server. Please check your internet connection.".to_string()
        },
        ClientError::Connection(_) => {
            "Connection to the server failed. Please try again later.".to_string()
        },
        ClientError::Server { status_code, message } => {
            if 500 <= *status_code && *status_code <= 599 {
                "The server encountered an error. Please try again later.".to_string()
            } else {
                "Server error: ".to_string().concat(message.as_str())
            }
        },
        ClientError::NotFound(m) => "Not found: ".to_string().concat(m.as_str()),
        ClientError::Auth(_) => "You are not authorized to perform this action.".to_string(),
        ClientError::Validation(m) => "Invalid input: ".to_string().concat(m.as_str()),
        ClientError::Data(m) => "Data error: ".to_string().concat(m.as_str()),
    }
}

/// How the client classifies an error reply with HTTP status `status` whose
/// body carried the error text `m`.
pub open spec fn classified(status: u16, m: String) -> ClientError {
    if status == 404 {
        ClientError::NotFound(m)
    } else if status == 400 {
        ClientError::Validation(m)
    } else if status == 401 || status == 403 {
        ClientError::Auth(m)
    } else {
        ClientError::Server { status_code: status, message: m }
    }
}

/// Classifies an error reply by its HTTP status. `message` is the reply's
/// error text, or `None` when the body could not be read, which is reported
/// as a server error.
pub fn parse_error_response(status: u16, message: Option<String>) -> (r: ClientError)
    ensures
        message is Some ==> r == classified(status, message->Some_0),
        message is None ==> (r matches ClientError::Server { status_code, message: m }
            && status_code == status && m@ == "Could not parse error response"@),
{
    match message {
        None => ClientError::Server {
            status_code: status,
            message: "Could not parse error response".to_string(),
        },
        Some(m) => {
            if status == 404 {
                ClientError::NotFound(m)
            } else if status == 400 {
                ClientError::Validation(m)
            } else if status == 401 || status == 403 {
                ClientError::Auth(m)
            } else {
                ClientError::Server { status_code: status, message: m }
            }
        },
    }
}

/// Which screen the client shows.
#[derive(Clone, Copy, Debug, PartialEq, Eq, Structural, Default)]
pub enum AppState {
    /// The create-or-join screen.
    #[default]
    NotInLobby,
    /// The lobby before the game.
    InLobby,
    /// The game itself.
    InGame,
}

/// The stored name of a screen.
pub open spec fn phase_text(p: AppState) -> Seq<char> {
    match p {
        AppState::NotInLobby => "not_in_lobby"@,
        AppState::InLobby => "in_lobby"@,
        AppState::InGame => "in_game"@,
    }
}

/// The screen a stored name stands for; any unknown name means the
/// create-or-join screen.
pub open spec fn phase_of(s: Seq<char>) -> AppState {
    if s == "in_lobby"@ {
        AppState::InLobby
    } else if s == "in_game"@ {
        AppState::InGame
    } else {
        AppState::NotInLobby
    }
}

impl AppState {
    /// The screen a stored name stands for.
    pub fn from_string(s: &str) -> (r: AppState)
        ensures
            r == phase_of(s@),
    {
        let t = s.to_string();
        if t == "in_lobby".to_string() {
            AppState::InLobby
        } else if t == "in_game".to_string() {
            AppState::InGame
        } else {
            AppState::NotInLobby
        }
    }

    /// The name under which a screen is stored.
    pub fn to_string(&self) -> (r: &'static str)
        ensures
            r@ == phase_text(*self),
    {
        match self {
            AppState::NotInLobby => "not_in_lobby",
            AppState::InLobby => "in_lobby",
            AppState::InGame => "in_game",
        }
    }
}

/// Reading back the stored name of a screen gives that screen.
pub proof fn lemma_phase_round_trip(p: AppState)
    ensures
        phase_of(phase_text(p)) == p,
{
    reveal_strlit("not_in_lobby");
    reveal_strlit("in_lobby");
    reveal_strlit("in_game");
    assert("not_in_lobby"@ != "in_lobby"@ && "not_in_lobby"@ != "in_game"@ && "in_game"@ != "in_lobby"@) by {
        assert("not_in_lobby"@.len() != "in_lobby"@.len());
        assert("not_in_lobby"@.len() != "in_game"@.len());
        assert("in_game"@[3] != "in_lobby"@[3]);
    }
}

/// How many failed polls in a row make the client give up on a lobby.
pub const MAX_POLL_FAILURES: u32 = 5;

/// What the client does after one poll of the lobby's state.
#[derive(Clone, Copy, Debug, PartialEq, Eq, Structural)]
pub enum PollAction {
    /// Show the lobby as it was read and poll again.
    ShowLobby,
    /// The game has started: leave the lobby screen and stop polling.
    EnterGame,
    /// Poll again after a failure.
    KeepTrying,
    /// Too many failures in a row: report the connection lost and stop.
    GiveUp,
}

/// The decisions of a client that polls its lobby while waiting for the game.
#[derive(Clone, Copy, Debug, PartialEq, Eq, Structural)]
pub struct LobbyPoll {
    /// Failed polls since the last good one.
    pub consecutive_errors: u32,
}

impl LobbyPoll {
    /// Polling that has seen no failure.
    pub fn new() -> (r: LobbyPoll)
        ensures
            r.consecutive_errors == 0,
    {
        LobbyPoll { consecutive_errors: 0 }
    }

    /// A poll read the lobby in phase `status`: failures are forgotten, and
    /// the client enters the game once it is playing.
    pub fn on_reply(&mut self, status: GameStatus) -> (r: PollAction)
        ensures
            final(self).consecutive_errors == 0,
            r == if status == GameStatus::Playing {
                PollAction::EnterGame
            } else {
                PollAction::ShowLobby
            },
    {
        self.consecutive_errors = 0;
        if status == GameStatus::Playing {
            PollAction::EnterGame
        } else {
            PollAction::ShowLobby
        }
    }

    /// A poll failed: the client gives up at the fifth failure in a row.
    pub fn on_failure(&mut self) -> (r: PollAction)
        ensures
            old(self).consecutive_errors < MAX_POLL_FAILURES ==> final(self).consecutive_errors
                == old(self).consecutive_errors + 1,
            old(self).consecutive_errors >= MAX_POLL_FAILURES ==> final(self).consecutive_errors
                == old(self).consecutive_errors,
            r == if old(self).consecutive_errors + 1 >= MAX_POLL_FAILURES {
                PollAction::GiveUp
            } else {
                PollAction::KeepTrying
            },
    {
        if self.consecutive_errors < MAX_POLL_FAILURES {
            self.consecutive_errors = self.consecutive_errors + 1;
        }
        if self.consecutive_errors >= MAX_POLL_FAILURES {
            PollAction::GiveUp
        } else {
            PollAction::KeepTrying
        }
    }
}

} // verus!
