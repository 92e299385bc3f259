//! A lobby session: roster, leader, settings, game phase and current prompt.

use rand::Rng;
use vstd::prelude::*;

use crate::error::{AppError, Result};
use crate::ids::{draw_player_ids, is_id, PLAYER_ID_LEN};
use crate::judge::{is_substring, judge, trimmed, verdict_message, verdict_of, Verdict};
use crate::models::{
    default_settings, opt_text, players_view, texts, CheckWordResponse, GameSettings, GameStatus,
    LobbyInfo, PlayerData, PlayerId, PlayerView, SettingsView, UserInput,
};
use crate::shared::Guarded;

verus! {

/// How many ids are drawn before giving up on finding an unused one.
pub const ID_ATTEMPTS: usize = 16;

/// The mathematical value of a [`LobbyState`].
pub struct LobbyView {
    /// The dictionary that guesses are judged against.
    pub words: Seq<Seq<char>>,
    /// The kanji that prompts are drawn from.
    pub kanji: Seq<Seq<char>>,
    /// The roster, in order of joining.
    pub players: Seq<PlayerView>,
    /// The id of the leader, once somebody has joined.
    pub leader: Option<Seq<char>>,
    pub settings: SettingsView,
    pub status: GameStatus,
    /// The kanji on display, once one has been drawn.
    pub prompt: Option<Seq<char>>,
}

/// The leader of a roster: its first player.
pub open spec fn leader_of(players: Seq<PlayerView>) -> Option<Seq<char>> {
    if players.len() > 0 {
        Some(players[0].id)
    } else {
        None
    }
}

/// The leader's id as text, empty while nobody has joined.
pub open spec fn leader_text(leader: Option<Seq<char>>) -> Seq<char> {
    match leader {
        Some(id) => id,
        None => Seq::empty(),
    }
}

/// Index of the first player with this id, or -1 when there is none.
pub open spec fn index_of(players: Seq<PlayerView>, id: Seq<char>) -> int
    decreases players.len(),
{
    if players.len() == 0 {
        -1
    } else {
        let k = index_of(players.drop_last(), id);
        if k >= 0 {
            k
        } else if players.last().id == id {
            players.len() - 1
        } else {
            -1
        }
    }
}

/// The ids as text.
pub open spec fn ids_of(ids: Seq<PlayerId>) -> Seq<Seq<char>> {
    ids.map_values(|p: PlayerId| p@)
}

/// `ids[k]` is the first of `ids` that no player of `v` has.
pub open spec fn first_free(v: LobbyView, ids: Seq<Seq<char>>, k: int) -> bool {
    &&& 0 <= k < ids.len()
    &&& !v.has_player(ids[k])
    &&& forall|j: int| 0 <= j < k ==> v.has_player(#[trigger] ids[j])
}

/// What a join under the first free id of `ids` does: on success the
/// player, named `name`, joins `v` under that id and `w` is the result; on
/// failure every id was taken and `w` is `v`.
pub open spec fn join_outcome(
    v: LobbyView,
    w: LobbyView,
    name: Seq<char>,
    ids: Seq<Seq<char>>,
    r: Result<PlayerId>,
) -> bool {
    match r {
        Ok(id) => {
            &&& exists|k: int| #[trigger] first_free(v, ids, k) && ids[k] == id@
            &&& exists|t: Seq<char>| w == v.joined(new_player(id@, name, t))
        },
        Err(e) => {
            &&& e is InternalError
            &&& w == v
            &&& forall|j: int| 0 <= j < ids.len() ==> v.has_player(#[trigger] ids[j])
        },
    }
}

/// A player who has just joined.
pub open spec fn new_player(id: Seq<char>, name: Seq<char>, joined_at: Seq<char>) -> PlayerView {
    PlayerView { id, name, score: 0, joined_at }
}

impl LobbyView {
    /// The lobby's invariant: a non-empty kanji list, the first player leads,
    /// every score fits a `u32`, and the prompt, once set, is one of the
    /// lobby's kanji.
    pub open spec fn wf(self) -> bool {
        &&& self.kanji.len() > 0
        &&& self.leader == leader_of(self.players)
        &&& forall|i: int| 0 <= i < self.players.len() ==> #[trigger] self.players[i].score <= u32::MAX
        &&& (self.prompt matches Some(k) ==> self.kanji.contains(k))
    }

    /// A fresh lobby over the given corpus.
    pub open spec fn fresh(words: Seq<Seq<char>>, kanji: Seq<Seq<char>>) -> LobbyView {
        LobbyView {
            words,
            kanji,
            players: Seq::empty(),
            leader: None,
            settings: default_settings(),
            status: GameStatus::Lobby,
            prompt: None,
        }
    }

    /// Whether `id` is the leader's id.
    pub open spec fn is_leader(self, id: Seq<char>) -> bool {
        self.leader == Some(id)
    }

    /// Whether the roster holds a player with this id.
    pub open spec fn has_player(self, id: Seq<char>) -> bool {
        index_of(self.players, id) >= 0
    }

    /// The first player with this id.
    pub open spec fn player(self, id: Seq<char>) -> PlayerView {
        self.players[index_of(self.players, id)]
    }

    /// The lobby after `p` joined: appended to the roster, and leader if first.
    pub open spec fn joined(self, p: PlayerView) -> LobbyView {
        LobbyView {
            players: self.players.push(p),
            leader: if self.players.len() == 0 {
                Some(p.id)
            } else {
                self.leader
            },
            ..self
        }
    }

    /// The lobby after the first player with this id scored one point.
    pub open spec fn scored(self, id: Seq<char>) -> LobbyView {
        let i = index_of(self.players, id);
        LobbyView {
            players: self.players.update(i, PlayerView { score: self.players[i].score + 1, ..self.players[i] }),
            ..self
        }
    }

    /// The lobby with the kanji at index `i` on display.
    pub open spec fn prompted(self, i: int) -> LobbyView {
        LobbyView { prompt: Some(self.kanji[i]), ..self }
    }

    /// The lobby with its settings replaced.
    pub open spec fn configured(self, s: SettingsView) -> LobbyView {
        LobbyView { settings: s, ..self }
    }

    /// The lobby after a start that succeeded, showing the kanji at index `i`.
    pub open spec fn started(self, i: int) -> LobbyView {
        LobbyView { status: GameStatus::Playing, prompt: Some(self.kanji[i]), ..self }
    }

    /// The verdict on a submission, with both texts trimmed first.
    pub open spec fn verdict(self, word: Seq<char>, kanji: Seq<char>) -> Verdict {
        verdict_of(
            is_substring(trimmed(kanji), trimmed(word)),
            self.words.contains(trimmed(word)),
        )
    }

    /// A start by `id` is refused because `id` does not lead the lobby.
    pub open spec fn start_unauthorized(self, id: Seq<char>) -> bool {
        !self.is_leader(id)
    }

    /// A start by `id` is refused because the game has already left the lobby phase.
    pub open spec fn start_out_of_phase(self, id: Seq<char>) -> bool {
        self.is_leader(id) && self.status != GameStatus::Lobby
    }
}

/// The facts that define [`index_of`]: it is the first index with that id.
pub proof fn lemma_index_of(players: Seq<PlayerView>, id: Seq<char>)
    ensures
        -1 <= index_of(players, id) < players.len(),
        index_of(players, id) >= 0 ==> players[index_of(players, id)].id == id,
        forall|j: int|
            0 <= j < players.len() && (index_of(players, id) == -1 || j < index_of(players, id))
                ==> #[trigger] players[j].id != id,
    decreases players.len(),
{
    if players.len() > 0 {
        let init = players.drop_last();
        lemma_index_of(init, id);
        assert forall|j: int|
            0 <= j < players.len() && (index_of(players, id) == -1 || j < index_of(players, id))
                implies #[trigger] players[j].id != id by {
            if j < players.len() - 1 {
                assert(init[j] == players[j]);
            }
        }
    }
}

/// The first index at which `id` occurs is [`index_of`].
pub proof fn lemma_index_of_first(players: Seq<PlayerView>, id: Seq<char>, i: int)
    requires
        0 <= i < players.len(),
        players[i].id == id,
        forall|j: int| 0 <= j < i ==> #[trigger] players[j].id != id,
    ensures
        index_of(players, id) == i,
{
    lemma_index_of(players, id);
}

/// [`index_of`] looks at the ids alone.
pub proof fn lemma_index_of_same_ids(a: Seq<PlayerView>, b: Seq<PlayerView>, id: Seq<char>)
    requires
        a.len() == b.len(),
        forall|j: int| 0 <= j < a.len() ==> #[trigger] a[j].id == b[j].id,
    ensures
        index_of(a, id) == index_of(b, id),
{
    lemma_index_of(a, id);
    lemma_index_of(b, id);
    if index_of(a, id) >= 0 {
        assert(b[index_of(a, id)].id == id);
        assert forall|j: int| 0 <= j < index_of(a, id) implies #[trigger] b[j].id != id by {
            assert(a[j].id != id);
        }
        lemma_index_of_first(b, id, index_of(a, id));
    } else if index_of(b, id) >= 0 {
        assert(a[index_of(b, id)].id == id);
    }
}

/// Relies on rand's `Rng::random_range` over `0..bound`, drawn from the
/// thread-local generator `rand::rng()`: the value lies in that range, which
/// is not empty. The generator panics only if the system's entropy source
/// fails.
#[verifier::external_body]
fn random_index(bound: usize) -> (r: usize)
    requires
        bound > 0,
    ensures
        r < bound,
{
    rand::rng().random_range(0..bound)
}

/// Relies on chrono's `Utc::now` and `DateTime::to_rfc3339`: the current time
/// as RFC 3339 text. It depends on the clock, so nothing is promised of it.
#[verifier::external_body]
fn now_rfc3339() -> (r: String) {
    chrono::Utc::now().to_rfc3339()
}

/// Copies a roster, keeping every player's value.
fn copy_players(v: &Vec<PlayerData>) -> (r: Vec<PlayerData>)
    ensures
        players_view(r@) == players_view(v@),
{
    let mut r: Vec<PlayerData> = Vec::new();
    let mut i: usize = 0;
    while i < v.len()
        invariant
            i <= v.len(),
            r@ == v@.take(i as int),
        decreases v.len() - i,
    {
        let p = v[i].clone();
        r.push(p);
        proof {
            assert(v@.take(i + 1) =~= v@.take(i as int).push(v@[i as int]));
        }
        i = i + 1;
    }
    proof {
        assert(v@.take(v@.len() as int) =~= v@);
    }
    r
}

/// One lobby's whole mutable state, meant to sit behind a single lock so
/// that every read and write of it is atomic. Every lobby that `create`
/// makes meets [`LobbyView::wf`], and every operation keeps it.
pub struct LobbyState {
    word_list: Vec<String>,
    kanji_list: Vec<String>,
    players: Vec<PlayerData>,
    lobby_leader: Option<PlayerId>,
    settings: GameSettings,
    game_status: GameStatus,
    current_kanji: Option<String>,
}

impl View for LobbyState {
    type V = LobbyView;

    closed spec fn view(&self) -> LobbyView {
        LobbyView {
            words: texts(self.word_list@),
            kanji: texts(self.kanji_list@),
            players: players_view(self.players@),
            leader: match self.lobby_leader {
                Some(id) => Some(id@),
                None => None,
            },
            settings: self.settings@,
            status: self.game_status,
            prompt: opt_text(self.current_kanji),
        }
    }
}

impl Guarded for LobbyState {
    open spec fn inv(&self) -> bool {
        self@.wf()
    }
}

impl LobbyState {
    /// A fresh lobby over a loaded corpus: no players, default settings, in
    /// the lobby phase, no prompt yet. A corpus without kanji is refused, as
    /// no prompt could ever be drawn from it.
    pub fn create(word_list: Vec<String>, kanji_list: Vec<String>) -> (r: Result<LobbyState>)
        ensures
            match r {
                Ok(l) => {
                    &&& kanji_list@.len() > 0
                    &&& l@ == LobbyView::fresh(texts(word_list@), texts(kanji_list@))
                    &&& l@.wf()
                },
                Err(e) => kanji_list@.len() == 0 && e is DataLoadError,
            },
    {
        if kanji_list.len() == 0 {
            return Err(AppError::DataLoadError("the kanji list is empty".to_string()));
        }
        let l = LobbyState {
            word_list,
            kanji_list,
            players: Vec::new(),
            lobby_leader: None,
            settings: GameSettings::default(),
            game_status: GameStatus::Lobby,
            current_kanji: None,
        };
        proof {
            assert(players_view(l.players@) =~= Seq::<PlayerView>::empty());
        }
        Ok(l)
    }

    /// The lobby's kanji list.
    pub fn kanji_list(&self) -> (r: &Vec<String>)
        ensures
            texts(r@) == self@.kanji,
    {
        &self.kanji_list
    }

    /// The lobby's dictionary.
    pub fn word_list(&self) -> (r: &Vec<String>)
        ensures
            texts(r@) == self@.words,
    {
        &self.word_list
    }

    /// The lobby's phase.
    pub fn game_status(&self) -> (r: GameStatus)
        ensures
            r == self@.status,
    {
        self.game_status
    }

    /// The lobby's settings.
    pub fn settings(&self) -> (r: &GameSettings)
        ensures
            r@ == self@.settings,
    {
        &self.settings
    }

    /// Whether `player_id` is the lobby's leader.
    pub fn is_leader(&self, player_id: &PlayerId) -> (r: Result<bool>)
        ensures
            r == Ok::<bool, AppError>(self@.is_leader(player_id@)),
    {
        match &self.lobby_leader {
            Some(leader) => Ok(leader.eq(player_id)),
            None => Ok(false),
        }
    }

    /// Replaces the settings wholesale; only the leader may do so.
    pub fn update_settings(&mut self, player_id: &PlayerId, new_settings: GameSettings) -> (r:
        Result<()>)
        requires
            old(self)@.wf(),
        ensures
            final(self)@.wf(),
            old(self)@.is_leader(player_id@) ==> r is Ok && final(self)@ == old(self)@.configured(
                new_settings@,
            ),
            !old(self)@.is_leader(player_id@) ==> r is Err && r->Err_0 is AuthError && *final(self)
                == *old(self),
    {
        let leads = match &self.lobby_leader {
            Some(leader) => leader.eq(player_id),
            None => false,
        };
        if !leads {
            return Err(AppError::AuthError("Only lobby leader can change settings".to_string()));
        }
        self.settings = new_settings;
        Ok(())
    }

    /// A consistent snapshot of the lobby for polling clients.
    pub fn get_lobby_info(&self, lobby_id: &str) -> (r: Result<LobbyInfo>)
        ensures
            r matches Ok(info) && {
                &&& info.lobby_id@ == lobby_id@
                &&& info.leader_id@ == leader_text(self@.leader)
                &&& players_view(info.players@) == self@.players
                &&& info.settings@ == self@.settings
                &&& info.status == self@.status
            },
    {
        let leader_id = match &self.lobby_leader {
            Some(leader) => leader.clone(),
            None => PlayerId(String::new()),
        };
        Ok(
            LobbyInfo {
                lobby_id: lobby_id.to_string(),
                leader_id,
                players: copy_players(&self.players),
                settings: self.settings.clone(),
                status: self.game_status,
            },
        )
    }

    /// Starts the game, showing the kanji at `kanji_index`: only the leader
    /// may, and only from the lobby phase.
    pub fn start_game_at(&mut self, player_id: &PlayerId, kanji_index: usize) -> (r: Result<()>)
        requires
            old(self)@.wf(),
            kanji_index < old(self)@.kanji.len(),
        ensures
            final(self)@.wf(),
            old(self)@.start_unauthorized(player_id@) ==> r is Err && r->Err_0 is AuthError
                && *final(self) == *old(self),
            old(self)@.start_out_of_phase(player_id@) ==> r is Err && r->Err_0 is InvalidInput
                && *final(self) == *old(self),
            !old(self)@.start_unauthorized(player_id@) && !old(self)@.start_out_of_phase(
                player_id@,
            ) ==> r is Ok && final(self)@ == old(self)@.started(kanji_index as int),
    {
        let leads = match &self.lobby_leader {
            Some(leader) => leader.eq(player_id),
            None => false,
        };
        if !leads {
            return Err(AppError::AuthError("Only lobby leader can start the game".to_string()));
        }
        if self.game_status != GameStatus::Lobby {
            return Err(AppError::InvalidInput("game is not in lobby state".to_string()));
        }
        self.game_status = GameStatus::Playing;
        self.show_kanji(kanji_index);
        Ok(())
    }

    /// Starts the game with a kanji drawn at random: only the leader may, and
    /// only from the lobby phase.
    pub fn start_game(&mut self, player_id: &PlayerId) -> (r: Result<()>)
        requires
            old(self)@.wf(),
        ensures
            final(self)@.wf(),
            old(self)@.start_unauthorized(player_id@) ==> r is Err && r->Err_0 is AuthError
                && *final(self) == *old(self),
            old(self)@.start_out_of_phase(player_id@) ==> r is Err && r->Err_0 is InvalidInput
                && *final(self) == *old(self),
            !old(self)@.start_unauthorized(player_id@) && !old(self)@.start_out_of_phase(
                player_id@,
            ) ==> r is Ok && exists|i: int|
                0 <= i < old(self)@.kanji.len() && final(self)@ == old(self)@.started(i),
    {
        let i = random_index(self.kanji_list.len());
        self.start_game_at(player_id, i)
    }

    /// Appends a player who joined at `joined_at`; the first one to join
    /// becomes the leader, which the result tells.
    pub fn add_player_at(&mut self, player_id: PlayerId, player_name: String, joined_at: String) -> (r: bool)
        requires
            old(self)@.wf(),
        ensures
            final(self)@.wf(),
            r == (old(self)@.players.len() == 0),
            final(self)@ == old(self)@.joined(new_player(player_id@, player_name@, joined_at@)),
    {
        let is_leader = self.players.len() == 0;
        if is_leader {
            self.lobby_leader = Some(player_id.clone());
        }
        let ghost p = PlayerData { id: player_id, name: player_name, score: 0, joined_at };
        self.players.push(PlayerData { id: player_id, name: player_name, score: 0, joined_at });
        proof {
            assert(players_view(self.players@) =~= players_view(old(self).players@).push(p@));
        }
        is_leader
    }

    /// Appends a player stamped with the current time; the first one to join
    /// becomes the leader, which the result tells.
    pub fn add_player(&mut self, player_id: PlayerId, player_name: String) -> (r: Result<bool>)
        requires
            old(self)@.wf(),
        ensures
            final(self)@.wf(),
            r == Ok::<bool, AppError>(old(self)@.players.len() == 0),
            exists|t: Seq<char>|
                final(self)@ == old(self)@.joined(new_player(player_id@, player_name@, t)),
    {
        let joined_at = now_rfc3339();
        Ok(self.add_player_at(player_id, player_name, joined_at))
    }

    /// A fresh lobby over a loaded corpus whose first player, and so its
    /// leader, is `leader_id`.
    pub fn create_with_leader(
        word_list: Vec<String>,
        kanji_list: Vec<String>,
        leader_id: PlayerId,
        leader_name: String,
    ) -> (r: Result<LobbyState>)
        ensures
            match r {
                Ok(l) => {
                    &&& kanji_list@.len() > 0
                    &&& l@.wf()
                    &&& l@.is_leader(leader_id@)
                    &&& exists|t: Seq<char>|
                        l@ == LobbyView::fresh(texts(word_list@), texts(kanji_list@)).joined(
                            new_player(leader_id@, leader_name@, t),
                        )
                },
                Err(e) => kanji_list@.len() == 0 && e is DataLoadError,
            },
    {
        let mut l = LobbyState::create(word_list, kanji_list)?;
        let _ = l.add_player(leader_id, leader_name);
        Ok(l)
    }

    /// Adds a player under the first of `candidates` that no player of the
    /// roster has, and returns that id. When every candidate is taken, the
    /// lobby is left as it was and an internal error is returned.
    pub fn join_with_ids(&mut self, player_name: String, candidates: &Vec<PlayerId>) -> (r: Result<
        PlayerId,
    >)
        requires
            old(self)@.wf(),
        ensures
            final(self)@.wf(),
            join_outcome(old(self)@, final(self)@, player_name@, ids_of(candidates@), r),
            r is Err ==> *final(self) == *old(self),
    {
        let mut k: usize = 0;
        while k < candidates.len()
            invariant
                k <= candidates.len(),
                *self == *old(self),
                self@.wf(),
                forall|j: int| 0 <= j < k ==> self@.has_player(#[trigger] candidates@[j]@),
            decreases candidates.len() - k,
        {
            let id = &candidates[k];
            if self.find_player(id).is_none() {
                let id = id.clone();
                let _ = self.add_player(id.clone(), player_name);
                proof {
                    let ids = ids_of(candidates@);
                    assert(ids[k as int] == id@);
                    assert forall|j: int| 0 <= j < k implies old(self)@.has_player(ids[j]) by {
                        assert(ids[j] == candidates@[j]@);
                    }
                    assert(first_free(old(self)@, ids, k as int));
                }
                return Ok(id);
            }
            k = k + 1;
        }
        proof {
            let ids = ids_of(candidates@);
            assert forall|j: int| 0 <= j < ids.len() implies old(self)@.has_player(ids[j]) by {
                assert(ids[j] == candidates@[j]@);
            }
        }
        Err(AppError::InternalError("no unused player id was found".to_string()))
    }

    /// Adds a player under a freshly drawn id that no player of the roster
    /// has, and returns that id. Sixteen ids are drawn; if every one is
    /// taken, the lobby is left as it was and an internal error is returned.
    /// On an empty roster the join always succeeds.
    pub fn join(&mut self, player_name: String) -> (r: Result<PlayerId>)
        requires
            old(self)@.wf(),
        ensures
            final(self)@.wf(),
            old(self)@.players.len() == 0 ==> r is Ok,
            match r {
                Ok(id) => {
                    &&& is_id(id@, PLAYER_ID_LEN as nat)
                    &&& !old(self)@.has_player(id@)
                    &&& exists|t: Seq<char>|
                        final(self)@ == old(self)@.joined(new_player(id@, player_name@, t))
                },
                Err(e) => e is InternalError && *final(self) == *old(self),
            },
    {
        let candidates = draw_player_ids(ID_ATTEMPTS);
        let ghost name = player_name@;
        let r = self.join_with_ids(player_name, &candidates);
        proof {
            let ids = ids_of(candidates@);
            if r is Ok {
                let id = r->Ok_0;
                let k = choose|k: int| first_free(old(self)@, ids, k) && ids[k] == id@;
                assert(ids[k] == candidates@[k]@);
            }
            if old(self)@.players.len() == 0 {
                assert(!old(self)@.has_player(ids[0]));
            }
        }
        r
    }

    /// Index of the first player with this id.
    fn find_player(&self, player_id: &PlayerId) -> (r: Option<usize>)
        ensures
            match r {
                Some(i) => {
                    &&& i == index_of(self@.players, player_id@)
                    &&& i < self.players@.len()
                    &&& self@.players[i as int] == self.players@[i as int]@
                },
                None => index_of(self@.players, player_id@) == -1,
            },
    {
        let mut i: usize = 0;
        while i < self.players.len()
            invariant
                i <= self.players.len(),
                forall|j: int| 0 <= j < i ==> #[trigger] self.players@[j].id@ != player_id@,
            decreases self.players.len() - i,
        {
            if self.players[i].id.eq(player_id) {
                proof {
                    let ps = self@.players;
                    assert forall|j: int| 0 <= j < i implies #[trigger] ps[j].id != player_id@ by {
                        assert(ps[j] == self.players@[j]@);
                    }
                    lemma_index_of_first(ps, player_id@, i as int);
                }
                return Some(i);
            }
            i = i + 1;
        }
        proof {
            let ps = self@.players;
            lemma_index_of(ps, player_id@);
            if index_of(ps, player_id@) >= 0 {
                assert(ps[index_of(ps, player_id@)] == self.players@[index_of(ps, player_id@)]@);
            }
        }
        None
    }

    /// The score of the first player with this id.
    pub fn get_player_score(&self, player_id: &PlayerId) -> (r: Result<u32>)
        ensures
            self@.has_player(player_id@) ==> (r matches Ok(s) && s as nat == self@.player(
                player_id@,
            ).score),
            !self@.has_player(player_id@) ==> (r matches Err(AppError::PlayerNotFound(t)) && t@
                == player_id@),
    {
        match self.find_player(player_id) {
            Some(i) => Ok(self.players[i].score),
            None => Err(AppError::PlayerNotFound(player_id.0.clone())),
        }
    }

    /// The name of the first player with this id.
    pub fn get_player_name(&self, player_id: &PlayerId) -> (r: Result<String>)
        ensures
            self@.has_player(player_id@) ==> (r matches Ok(n) && n@ == self@.player(player_id@).name),
            !self@.has_player(player_id@) ==> (r matches Err(AppError::PlayerNotFound(t)) && t@
                == player_id@),
    {
        match self.find_player(player_id) {
            Some(i) => Ok(self.players[i].name.clone()),
            None => Err(AppError::PlayerNotFound(player_id.0.clone())),
        }
    }

    /// A copy of the first player with this id.
    pub fn get_player(&self, player_id: &PlayerId) -> (r: Result<PlayerData>)
        ensures
            self@.has_player(player_id@) ==> (r matches Ok(p) && p@ == self@.player(player_id@)),
            !self@.has_player(player_id@) ==> (r matches Err(AppError::PlayerNotFound(t)) && t@
                == player_id@),
    {
        match self.find_player(player_id) {
            Some(i) => Ok(self.players[i].clone()),
            None => Err(AppError::PlayerNotFound(player_id.0.clone())),
        }
    }

    /// Adds one point to the first player with this id and returns the new
    /// score. A score that has reached `u32::MAX` is left as it is and an
    /// internal error is returned.
    pub fn increment_player_score(&mut self, player_id: &PlayerId) -> (r: Result<u32>)
        requires
            old(self)@.wf(),
        ensures
            final(self)@.wf(),
            final(self)@.kanji == old(self)@.kanji,
            !old(self)@.has_player(player_id@) ==> *final(self) == *old(self) && (r matches Err(
                AppError::PlayerNotFound(t),
            ) && t@ == player_id@),
            old(self)@.has_player(player_id@) && old(self)@.player(player_id@).score < u32::MAX
                ==> (r matches Ok(s) && s as nat == old(self)@.player(player_id@).score + 1
                && final(self)@ == old(self)@.scored(player_id@)),
            old(self)@.has_player(player_id@) && old(self)@.player(player_id@).score >= u32::MAX
                ==> *final(self) == *old(self) && r is Err && r->Err_0 is InternalError,
    {
        match self.find_player(player_id) {
            None => Err(AppError::PlayerNotFound(player_id.0.clone())),
            Some(i) => {
                let p = &self.players[i];
                if p.score == u32::MAX {
                    return Err(AppError::InternalError("score limit reached".to_string()));
                }
                let np = PlayerData {
                    id: p.id.clone(),
                    name: p.name.clone(),
                    score: p.score + 1,
                    joined_at: p.joined_at.clone(),
                };
                let s = np.score;
                let ghost before = self@;
                self.players.set(i, np);
                proof {
                    assert(players_view(self.players@) =~= before.scored(player_id@).players);
                }
                Ok(s)
            },
        }
    }

    /// A copy of the roster, in order of joining.
    pub fn get_all_players(&self) -> (r: Result<Vec<PlayerData>>)
        ensures
            r matches Ok(v) && players_view(v@) == self@.players,
    {
        Ok(copy_players(&self.players))
    }

    /// The kanji on display, if one has been drawn.
    pub fn get_current_kanji(&self) -> (r: Result<Option<String>>)
        ensures
            r matches Ok(k) && opt_text(k) == self@.prompt,
    {
        match &self.current_kanji {
            Some(k) => Ok(Some(k.clone())),
            None => Ok(None),
        }
    }

    /// Puts the kanji at `kanji_index` on display and returns it.
    pub fn show_kanji(&mut self, kanji_index: usize) -> (r: String)
        requires
            old(self)@.wf(),
            kanji_index < old(self)@.kanji.len(),
        ensures
            final(self)@.wf(),
            r@ == old(self)@.kanji[kanji_index as int],
            final(self)@ == old(self)@.prompted(kanji_index as int),
    {
        let k = self.kanji_list[kanji_index].clone();
        self.current_kanji = Some(k.clone());
        proof {
            assert(texts(self.kanji_list@)[kanji_index as int] == k@);
        }
        k
    }

    /// Draws a kanji at random from the lobby's list, puts it on display and
    /// returns it.
    pub fn generate_random_kanji(&mut self) -> (r: Result<String>)
        requires
            old(self)@.wf(),
        ensures
            final(self)@.wf(),
            r matches Ok(k) && old(self)@.kanji.contains(k@) && exists|i: int|
                0 <= i < old(self)@.kanji.len() && k@ == old(self)@.kanji[i] && final(self)@
                    == old(self)@.prompted(i),
    {
        let i = random_index(self.kanji_list.len());
        let k = self.show_kanji(i);
        Ok(k)
    }

    /// The kanji on display; when none has been drawn yet, one is drawn at
    /// random and put on display.
    pub fn current_or_new_kanji(&mut self) -> (r: Result<String>)
        requires
            old(self)@.wf(),
        ensures
            final(self)@.wf(),
            r matches Ok(k) && match old(self)@.prompt {
                Some(p) => k@ == p && *final(self) == *old(self),
                None => exists|i: int|
                    0 <= i < old(self)@.kanji.len() && k@ == old(self)@.kanji[i] && final(self)@
                        == old(self)@.prompted(i),
            },
    {
        match &self.current_kanji {
            Some(k) => Ok(k.clone()),
            None => self.generate_random_kanji(),
        }
    }

    /// Judges a submitted word. When the word holds the kanji and is in the
    /// dictionary, the player scores a point and the kanji at `kanji_index`
    /// goes on display. The reply carries the message and the player's score,
    /// and the new kanji when there is one.
    pub fn check_word_at(&mut self, input: &UserInput, kanji_index: usize) -> (r: Result<
        CheckWordResponse,
    >)
        requires
            old(self)@.wf(),
            kanji_index < old(self)@.kanji.len(),
        ensures
            final(self)@.wf(),
            ({
                let before = old(self)@;
                let id = input.player_id@;
                let v = before.verdict(input.word@, input.kanji@);
                &&& !before.has_player(id) ==> *final(self) == *old(self) && (r matches Err(
                    AppError::PlayerNotFound(t),
                ) && t@ == id)
                &&& before.has_player(id) && v == Verdict::GoodGuess && before.player(id).score
                    < u32::MAX ==> (r matches Ok(resp) && {
                    &&& resp.message@ == verdict_message(v)
                    &&& resp.score as nat == before.player(id).score + 1
                    &&& resp.error is None
                    &&& opt_text(resp.kanji) == Some(before.kanji[kanji_index as int])
                    &&& final(self)@ == before.scored(id).prompted(kanji_index as int)
                })
                &&& before.has_player(id) && v == Verdict::GoodGuess && before.player(id).score
                    >= u32::MAX ==> *final(self) == *old(self) && r is Err && r->Err_0 is InternalError
                &&& before.has_player(id) && v != Verdict::GoodGuess ==> *final(self) == *old(self)
                    && (r matches Ok(resp) && {
                    &&& resp.message@ == verdict_message(v)
                    &&& resp.score as nat == before.player(id).score
                    &&& resp.error is None
                    &&& resp.kanji is None
                })
            }),
    {
        let verdict = judge(input.word.as_str(), input.kanji.as_str(), &self.word_list);
        let message = verdict.message();
        match verdict {
            Verdict::GoodGuess => {
                let score = self.increment_player_score(&input.player_id)?;
                let k = self.show_kanji(kanji_index);
                Ok(CheckWordResponse { message, score, error: None, kanji: Some(k) })
            },
            _ => {
                let score = self.get_player_score(&input.player_id)?;
                Ok(CheckWordResponse { message, score, error: None, kanji: None })
            },
        }
    }

    /// Judges a submitted word. When the word holds the kanji and is in the
    /// dictionary, the player scores a point and a kanji drawn at random goes
    /// on display. The reply carries the message and the player's score, and
    /// the new kanji when there is one.
    pub fn check_word(&mut self, input: &UserInput) -> (r: Result<CheckWordResponse>)
        requires
            old(self)@.wf(),
        ensures
            final(self)@.wf(),
            ({
                let before = old(self)@;
                let id = input.player_id@;
                let v = before.verdict(input.word@, input.kanji@);
                &&& !before.has_player(id) ==> *final(self) == *old(self) && (r matches Err(
                    AppError::PlayerNotFound(t),
                ) && t@ == id)
                &&& before.has_player(id) && v == Verdict::GoodGuess && before.player(id).score
                    < u32::MAX ==> (r matches Ok(resp) && {
                    &&& resp.message@ == verdict_message(v)
                    &&& resp.score as nat == before.player(id).score + 1
                    &&& resp.error is None
                    &&& exists|i: int|
                        0 <= i < before.kanji.len() && opt_text(resp.kanji) == Some(before.kanji[i])
                            && final(self)@ == before.scored(id).prompted(i)
                })
                &&& before.has_player(id) && v == Verdict::GoodGuess && before.player(id).score
                    >= u32::MAX ==> *final(self) == *old(self) && r is Err && r->Err_0 is InternalError
                &&& before.has_player(id) && v != Verdict::GoodGuess ==> *final(self) == *old(self)
                    && (r matches Ok(resp) && {
                    &&& resp.message@ == verdict_message(v)
                    &&& resp.score as nat == before.player(id).score
                    &&& resp.error is None
                    &&& resp.kanji is None
                })
            }),
    {
        let i = random_index(self.kanji_list.len());
        self.check_word_at(input, i)
    }
}

} // verus!
