//! Plain data carried between the lobby engine and its callers.

use vstd::prelude::*;

verus! {

/// Identifier of a player inside a lobby.
#[derive(Debug, Default)]
pub struct PlayerId(pub String);

impl View for PlayerId {
    type V = Seq<char>;

    open spec fn view(&self) -> Seq<char> {
        self.0@
    }
}

impl PartialEq for PlayerId {
    fn eq(&self, other: &PlayerId) -> (r: bool)
        ensures
            r == (self@ == other@),
    {
        self.0 == other.0
    }
}

impl vstd::std_specs::cmp::PartialEqSpecImpl for PlayerId {
    open spec fn obeys_eq_spec() -> bool {
        true
    }

    open spec fn eq_spec(&self, other: &PlayerId) -> bool {
        self@ == other@
    }
}

impl Eq for PlayerId {}

impl Clone for PlayerId {
    fn clone(&self) -> (r: Self)
        ensures
            r == *self,
    {
        PlayerId(self.0.clone())
    }
}

impl PlayerId {
    /// The identifier's text.
    pub fn as_str(&self) -> (r: &str)
        ensures
            r@ == self@,
    {
        self.0.as_str()
    }
}

impl From<&str> for PlayerId {
    fn from(s: &str) -> (r: PlayerId)
        ensures
            r@ == s@,
    {
        PlayerId(s.to_string())
    }
}

impl vstd::std_specs::convert::FromSpecImpl<&str> for PlayerId {
    open spec fn obeys_from_spec() -> bool {
        false
    }

    open spec fn from_spec(s: &str) -> PlayerId {
        arbitrary()
    }
}

impl From<String> for PlayerId {
    fn from(s: String) -> (r: PlayerId) {
        PlayerId(s)
    }
}

impl vstd::std_specs::convert::FromSpecImpl<String> for PlayerId {
    open spec fn obeys_from_spec() -> bool {
        true
    }

    open spec fn from_spec(s: String) -> PlayerId {
        PlayerId(s)
    }
}

/// The text of each string in `v`, in order.
pub open spec fn texts(v: Seq<String>) -> Seq<Seq<char>> {
    v.map_values(|s: String| s@)
}

/// Copies a list of strings, keeping every entry's text.
pub fn copy_strings(v: &Vec<String>) -> (r: Vec<String>)
    ensures
        texts(r@) == texts(v@),
{
    let mut r: Vec<String> = Vec::new();
    let mut i: usize = 0;
    while i < v.len()
        invariant
            i <= v.len(),
            r@.len() == i,
            texts(r@) == texts(v@.take(i as int)),
        decreases v.len() - i,
    {
        let ghost before = r@;
        let s = v[i].clone();
        r.push(s);
        proof {
            assert(v@.take(i + 1) == v@.take(i as int).push(v@[i as int]));
            assert forall|j: int| 0 <= j < i implies #[trigger] texts(r@)[j] == texts(
                v@.take(i + 1),
            )[j] by {
                assert(texts(before)[j] == texts(v@.take(i as int))[j]);
            }
            assert(texts(r@) =~= texts(v@.take(i + 1)));
        }
        i = i + 1;
    }
    proof {
        assert(v@.take(v@.len() as int) == v@);
    }
    r
}

/// The text held by an optional string.
pub open spec fn opt_text(o: Option<String>) -> Option<Seq<char>> {
    match o {
        Some(s) => Some(s@),
        None => None,
    }
}

/// What the lobby leader can tune before a game.
#[derive(Debug, PartialEq, Eq)]
pub struct GameSettings {
    pub difficulty_levels: Vec<String>,
    pub time_limit_seconds: Option<u32>,
    pub max_players: u32,
}

/// The mathematical value of a [`GameSettings`].
pub struct SettingsView {
    pub difficulty_levels: Seq<Seq<char>>,
    pub time_limit_seconds: Option<u32>,
    pub max_players: u32,
}

impl View for GameSettings {
    type V = SettingsView;

    open spec fn view(&self) -> SettingsView {
        SettingsView {
            difficulty_levels: texts(self.difficulty_levels@),
            time_limit_seconds: self.time_limit_seconds,
            max_players: self.max_players,
        }
    }
}

impl Clone for GameSettings {
    fn clone(&self) -> (r: Self)
        ensures
            r@ == self@,
    {
        GameSettings {
            difficulty_levels: copy_strings(&self.difficulty_levels),
            time_limit_seconds: self.time_limit_seconds,
            max_players: self.max_players,
        }
    }
}

/// The settings of a fresh lobby: levels N1 to N5, no time limit, four players.
pub open spec fn default_settings() -> SettingsView {
    SettingsView {
        difficulty_levels: seq!["N1"@, "N2"@, "N3"@, "N4"@, "N5"@],
        time_limit_seconds: None,
        max_players: 4,
    }
}

impl Default for GameSettings {
    fn default() -> (r: Self)
        ensures
            r@ == default_settings(),
    {
        let mut levels: Vec<String> = Vec::new();
        levels.push("N1".to_string());
        levels.push("N2".to_string());
        levels.push("N3".to_string());
        levels.push("N4".to_string());
        levels.push("N5".to_string());
        let r = GameSettings { difficulty_levels: levels, time_limit_seconds: None, max_players: 4 };
        proof {
            assert(r@.difficulty_levels =~= default_settings().difficulty_levels);
        }
        r
    }
}

/// Where a lobby is in its lifecycle.
#[derive(Clone, Copy, Debug, PartialEq, Eq, Structural)]
pub enum GameStatus {
    Lobby,
    Playing,
    Finished,
}

/// One player of a lobby's roster.
#[derive(Debug, PartialEq, Eq)]
pub struct PlayerData {
    pub id: PlayerId,
    pub name: String,
    pub score: u32,
    /// When the player joined, as RFC 3339 text in UTC.
    pub joined_at: String,
}

/// The mathematical value of a [`PlayerData`].
pub struct PlayerView {
    pub id: Seq<char>,
    pub name: Seq<char>,
    pub score: nat,
    pub joined_at: Seq<char>,
}

impl View for PlayerData {
    type V = PlayerView;

    open spec fn view(&self) -> PlayerView {
        PlayerView {
            id: self.id@,
            name: self.name@,
            score: self.score as nat,
            joined_at: self.joined_at@,
        }
    }
}

impl Clone for PlayerData {
    fn clone(&self) -> (r: Self)
        ensures
            r == *self,
    {
        PlayerData {
            id: self.id.clone(),
            name: self.name.clone(),
            score: self.score,
            joined_at: self.joined_at.clone(),
        }
    }
}

/// The value of each player in `v`, in order.
pub open spec fn players_view(v: Seq<PlayerData>) -> Seq<PlayerView> {
    v.map_values(|p: PlayerData| p@)
}

/// A consistent snapshot of a lobby, as polling clients see it.
#[derive(Debug, PartialEq, Eq)]
pub struct LobbyInfo {
    pub lobby_id: String,
    pub leader_id: PlayerId,
    pub players: Vec<PlayerData>,
    pub settings: GameSettings,
    pub status: GameStatus,
}

/// The kanji currently shown to the players.
#[derive(Debug, PartialEq, Eq)]
pub struct KanjiPrompt {
    pub kanji: String,
}

/// A word submitted by a player against a kanji.
#[derive(Debug, PartialEq, Eq)]
pub struct UserInput {
    pub word: String,
    pub kanji: String,
    pub player_id: PlayerId,
}

/// Sent when a player creates or joins a lobby.
#[derive(Debug, PartialEq, Eq)]
pub struct JoinLobbyRequest {
    pub player_name: String,
}

/// The leader replaces the settings.
#[derive(Debug, PartialEq, Eq)]
pub struct UpdateSettingsRequest {
    pub player_id: PlayerId,
    pub settings: GameSettings,
}

/// The leader starts the game.
#[derive(Debug, PartialEq, Eq)]
pub struct StartGameRequest {
    pub player_id: PlayerId,
}

/// What a player learns after submitting a word.
#[derive(Debug, PartialEq, Eq)]
pub struct CheckWordResponse {
    pub message: String,
    pub score: u32,
    pub error: Option<String>,
    pub kanji: Option<String>,
}

/// A single running score.
#[derive(Debug, PartialEq, Eq)]
pub struct UserScore {
    pub score: u32,
}

impl UserScore {
    pub fn new() -> (r: Self)
        ensures
            r.score == 0,
    {
        UserScore { score: 0 }
    }
}

impl Default for UserScore {
    fn default() -> (r: Self)
        ensures
            r.score == 0,
    {
        UserScore::new()
    }
}

/// Asks for a new user account.
#[derive(Debug, PartialEq, Eq)]
pub struct CreateUserRequest {
    pub username: String,
}

/// Which corpus could not be turned into a list.
#[derive(Clone, Copy, Debug, PartialEq, Eq, Structural)]
pub enum LobbyCreationError {
    FailedToVectorizeKanjiListError,
    FailedToVectorizeWordListError,
}

} // verus!
