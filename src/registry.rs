//! The lobby registry: the one place where lobbies are created and found.

use vstd::prelude::*;

use crate::error::{AppError, Result};
use crate::ids::{
    draw_lobby_ids, draw_player_ids, generate_player_id, is_id, LOBBY_ID_LEN, PLAYER_ID_LEN,
};
use crate::lobby::{
    first_free, ids_of, join_outcome, new_player, LobbyState, LobbyView, ID_ATTEMPTS,
};
use crate::models::{texts, PlayerId};
use crate::shared::Shared;

verus! {

/// A lobby shared between the requests that reach it.
pub type SharedState = Shared<LobbyState>;

/// One registered lobby.
pub struct LobbyEntry {
    id: String,
    lobby: SharedState,
}

/// The map that the entries describe; a later entry wins over an earlier one
/// with the same id.
spec fn entries_map(es: Seq<LobbyEntry>) -> Map<Seq<char>, SharedState>
    decreases es.len(),
{
    if es.len() == 0 {
        Map::empty()
    } else {
        entries_map(es.drop_last()).insert(es.last().id@, es.last().lobby)
    }
}

/// No two entries share an id.
spec fn ids_distinct(es: Seq<LobbyEntry>) -> bool {
    forall|i: int, j: int|
        0 <= i < es.len() && 0 <= j < es.len() && i != j ==> es[i].id@ != es[j].id@
}

/// An id is registered exactly when some entry has it, and then maps to that
/// entry's lobby.
proof fn lemma_entries_map(es: Seq<LobbyEntry>)
    requires
        ids_distinct(es),
    ensures
        forall|k: Seq<char>|
            #[trigger] entries_map(es).contains_key(k) <==> exists|i: int|
                0 <= i < es.len() && es[i].id@ == k,
        forall|i: int|
            0 <= i < es.len() ==> #[trigger] entries_map(es)[es[i].id@] == es[i].lobby,
        entries_map(es).dom().finite(),
    decreases es.len(),
{
    if es.len() > 0 {
        let init = es.drop_last();
        assert(ids_distinct(init)) by {
            assert forall|i: int, j: int|
                0 <= i < init.len() && 0 <= j < init.len() && i != j implies init[i].id@
                != init[j].id@ by {
                assert(init[i] == es[i] && init[j] == es[j]);
            }
        }
        lemma_entries_map(init);
        assert forall|k: Seq<char>|
            #[trigger] entries_map(es).contains_key(k) <==> exists|i: int|
                0 <= i < es.len() && es[i].id@ == k by {
            if entries_map(es).contains_key(k) {
                if k == es.last().id@ {
                    assert(es[es.len() - 1].id@ == k);
                } else {
                    assert(entries_map(init).contains_key(k));
                    let i = choose|i: int| 0 <= i < init.len() && init[i].id@ == k;
                    assert(es[i].id@ == k);
                }
            }
            if exists|i: int| 0 <= i < es.len() && es[i].id@ == k {
                let i = choose|i: int| 0 <= i < es.len() && es[i].id@ == k;
                if i < es.len() - 1 {
                    assert(init[i].id@ == k);
                    assert(entries_map(init).contains_key(k));
                }
            }
        }
        assert forall|i: int| 0 <= i < es.len() implies #[trigger] entries_map(es)[es[i].id@]
            == es[i].lobby by {
            if i < es.len() - 1 {
                assert(init[i] == es[i]);
                assert(es[i].id@ != es.last().id@);
                assert(entries_map(init).contains_key(init[i].id@));
                assert(entries_map(init)[init[i].id@] == init[i].lobby);
            }
        }
    }
}

/// Every lobby of the process, by id. Lobbies are never removed.
pub struct AppState {
    lobbies: Vec<LobbyEntry>,
}

impl View for AppState {
    type V = Map<Seq<char>, SharedState>;

    closed spec fn view(&self) -> Map<Seq<char>, SharedState> {
        entries_map(self.lobbies@)
    }
}

impl AppState {
    /// The registry's invariant: no id is registered twice.
    pub closed spec fn wf(&self) -> bool {
        ids_distinct(self.lobbies@)
    }

    /// An empty registry.
    pub fn new() -> (r: Self)
        ensures
            r.wf(),
            r@ == Map::<Seq<char>, SharedState>::empty(),
    {
        AppState { lobbies: Vec::new() }
    }

    /// Position of the entry with this id.
    fn position(&self, lobby_id: &str) -> (r: Option<usize>)
        requires
            self.wf(),
        ensures
            match r {
                Some(i) => i < self.lobbies@.len() && self.lobbies@[i as int].id@ == lobby_id@
                    && self@.contains_key(lobby_id@) && self@[lobby_id@]
                    == self.lobbies@[i as int].lobby,
                None => !self@.contains_key(lobby_id@),
            },
    {
        proof {
            lemma_entries_map(self.lobbies@);
        }
        let key = lobby_id.to_string();
        let mut i: usize = 0;
        while i < self.lobbies.len()
            invariant
                i <= self.lobbies.len(),
                key@ == lobby_id@,
                self.wf(),
                forall|j: int| 0 <= j < i ==> #[trigger] self.lobbies@[j].id@ != lobby_id@,
            decreases self.lobbies.len() - i,
        {
            if self.lobbies[i].id == key {
                proof {
                    lemma_entries_map(self.lobbies@);
                    assert(entries_map(self.lobbies@)[self.lobbies@[i as int].id@]
                        == self.lobbies@[i as int].lobby);
                    assert(entries_map(self.lobbies@).contains_key(self.lobbies@[i as int].id@));
                }
                return Some(i);
            }
            i = i + 1;
        }
        None
    }

    /// Whether a lobby is registered under this id.
    pub fn contains(&self, lobby_id: &str) -> (r: bool)
        requires
            self.wf(),
        ensures
            r == self@.contains_key(lobby_id@),
    {
        self.position(lobby_id).is_some()
    }

    /// Registers `lobby` under `lobby_id` unless that id is taken; tells
    /// whether it did.
    pub fn insert(&mut self, lobby_id: String, lobby: SharedState) -> (r: bool)
        requires
            old(self).wf(),
        ensures
            final(self).wf(),
            r == !old(self)@.contains_key(lobby_id@),
            r ==> final(self)@ == old(self)@.insert(lobby_id@, lobby),
            !r ==> final(self)@ == old(self)@,
    {
        if self.contains(lobby_id.as_str()) {
            return false;
        }
        proof {
            lemma_entries_map(self.lobbies@);
        }
        let ghost before = self.lobbies@;
        let ghost key = lobby_id@;
        self.lobbies.push(LobbyEntry { id: lobby_id, lobby });
        proof {
            assert(self.lobbies@.drop_last() == before);
            assert forall|i: int, j: int|
                0 <= i < self.lobbies@.len() && 0 <= j < self.lobbies@.len() && i != j implies
                self.lobbies@[i].id@ != self.lobbies@[j].id@ by {
                if i < before.len() && j < before.len() {
                    assert(self.lobbies@[i] == before[i] && self.lobbies@[j] == before[j]);
                } else if i < before.len() {
                    assert(entries_map(before).contains_key(before[i].id@));
                } else if j < before.len() {
                    assert(entries_map(before).contains_key(before[j].id@));
                }
            }
        }
        true
    }

    /// The first of `candidates` that is not registered yet, if any.
    pub fn first_free_lobby_id(&self, candidates: &Vec<String>) -> (r: Option<String>)
        requires
            self.wf(),
        ensures
            match r {
                Some(id) => exists|k: int|
                    #[trigger] first_free_key(self@, texts(candidates@), k) && texts(
                        candidates@,
                    )[k] == id@,
                None => forall|j: int|
                    0 <= j < candidates@.len() ==> self@.contains_key(#[trigger] candidates@[j]@),
            },
    {
        let mut k: usize = 0;
        while k < candidates.len()
            invariant
                k <= candidates.len(),
                self.wf(),
                forall|j: int| 0 <= j < k ==> self@.contains_key(#[trigger] candidates@[j]@),
            decreases candidates.len() - k,
        {
            if !self.contains(candidates[k].as_str()) {
                proof {
                    let ids = texts(candidates@);
                    assert(ids[k as int] == candidates@[k as int]@);
                    assert forall|j: int| 0 <= j < k implies self@.contains_key(#[trigger] ids[j]) by {
                        assert(ids[j] == candidates@[j]@);
                    }
                    assert(first_free_key(self@, ids, k as int));
                }
                return Some(candidates[k].clone());
            }
            k = k + 1;
        }
        None
    }

    /// Draws sixteen lobby ids and returns the first that is not registered
    /// yet; `None` if every one is taken. An empty registry always yields one.
    pub fn fresh_lobby_id(&self) -> (r: Option<String>)
        requires
            self.wf(),
        ensures
            r matches Some(id) ==> is_id(id@, LOBBY_ID_LEN as nat) && !self@.contains_key(id@),
            self@.dom().len() == 0 ==> r is Some,
    {
        let candidates = draw_lobby_ids(ID_ATTEMPTS);
        let r = self.first_free_lobby_id(&candidates);
        proof {
            let ids = texts(candidates@);
            if r is Some {
                let id = r->Some_0;
                let k = choose|k: int| first_free_key(self@, ids, k) && ids[k] == id@;
                assert(ids[k] == candidates@[k]@);
            }
            if self@.dom().len() == 0 {
                self.lemma_empty(candidates@[0]@);
            }
        }
        r
    }

    /// A registry whose map has no entry holds no id.
    proof fn lemma_empty(&self, k: Seq<char>)
        requires
            self.wf(),
            self@.dom().len() == 0,
        ensures
            !self@.contains_key(k),
    {
        lemma_entries_map(self.lobbies@);
        if self@.contains_key(k) {
            vstd::set::axiom_set_remove_len(self@.dom(), k);
        }
    }

    /// Creates a lobby over the given corpus whose first player and leader,
    /// named `creator_name`, has the id `player_id`, and registers it under
    /// the first of `lobby_ids` that is not taken. Returns the lobby's id and
    /// the creator's id. An empty kanji list is a load error, and when every
    /// lobby id is taken the result is an internal error; either way the
    /// registry is left as it was.
    pub fn create_with_ids(
        &mut self,
        creator_name: String,
        word_list: Vec<String>,
        kanji_list: Vec<String>,
        player_id: PlayerId,
        lobby_ids: &Vec<String>,
    ) -> (r: Result<(String, PlayerId)>)
        requires
            old(self).wf(),
        ensures
            final(self).wf(),
            match r {
                Ok((lobby_id, id)) => {
                    &&& kanji_list@.len() > 0
                    &&& id@ == player_id@
                    &&& exists|k: int|
                        #[trigger] first_free_key(old(self)@, texts(lobby_ids@), k) && texts(
                            lobby_ids@,
                        )[k] == lobby_id@
                    &&& created(old(self)@, final(self)@, lobby_id@, player_id@, creator_name@, word_list@, kanji_list@)
                },
                Err(e) => {
                    &&& final(self)@ == old(self)@
                    &&& (e is DataLoadError <==> kanji_list@.len() == 0)
                    &&& (e is DataLoadError || e is InternalError)
                    &&& (e is InternalError <==> kanji_list@.len() > 0 && forall|j: int|
                        0 <= j < lobby_ids@.len() ==> old(self)@.contains_key(
                            #[trigger] lobby_ids@[j]@,
                        ))
                },
            },
    {
        let ghost name = creator_name@;
        let lobby = LobbyState::create_with_leader(
            word_list,
            kanji_list,
            player_id.clone(),
            creator_name,
        )?;
        let lobby_id = match self.first_free_lobby_id(lobby_ids) {
            Some(id) => id,
            None => {
                return Err(AppError::InternalError("no unused lobby id was found".to_string()));
            },
        };
        let ghost made = lobby;
        let shared = Shared::new(lobby);
        assert(shared.initial() == made);
        let inserted = self.insert(lobby_id.clone(), shared);
        proof {
            assert(inserted);
            assert(self@[lobby_id@] == shared);
            assert(made@.is_leader(player_id@));
        }
        Ok((lobby_id, player_id))
    }

    /// Creates a lobby over the given corpus with `creator_name` as its first
    /// player and leader, registers it under a freshly drawn id, and returns
    /// the lobby's id and the creator's id. Sixteen lobby ids are drawn; when
    /// all are taken the result is an internal error. With a non-empty kanji
    /// list and an empty registry, creation always succeeds.
    pub fn create(&mut self, creator_name: String, word_list: Vec<String>, kanji_list: Vec<String>)
        -> (r: Result<(String, PlayerId)>)
        requires
            old(self).wf(),
        ensures
            final(self).wf(),
            kanji_list@.len() > 0 && old(self)@.dom().len() == 0 ==> r is Ok,
            match r {
                Ok((lobby_id, player_id)) => {
                    &&& kanji_list@.len() > 0
                    &&& is_id(lobby_id@, LOBBY_ID_LEN as nat)
                    &&& is_id(player_id@, PLAYER_ID_LEN as nat)
                    &&& created(old(self)@, final(self)@, lobby_id@, player_id@, creator_name@, word_list@, kanji_list@)
                },
                Err(e) => {
                    &&& final(self)@ == old(self)@
                    &&& (e is DataLoadError <==> kanji_list@.len() == 0)
                    &&& (e is DataLoadError || e is InternalError)
                },
            },
    {
        let player_id = generate_player_id();
        let ghost pid = player_id@;
        let lobby_ids = draw_lobby_ids(ID_ATTEMPTS);
        let r = self.create_with_ids(creator_name, word_list, kanji_list, player_id, &lobby_ids);
        proof {
            let ids = texts(lobby_ids@);
            if r is Ok {
                let lid = r->Ok_0.0;
                assert(r->Ok_0.1@ == pid);
                let k = choose|k: int| first_free_key(old(self)@, ids, k) && ids[k] == lid@;
                assert(ids[k] == lobby_ids@[k]@);
                assert(is_id(lid@, LOBBY_ID_LEN as nat));
                assert(is_id(r->Ok_0.1@, PLAYER_ID_LEN as nat));
                assert(created(old(self)@, self@, lid@, pid, creator_name@, word_list@, kanji_list@));
            }
            if kanji_list@.len() > 0 && old(self)@.dom().len() == 0 {
                old(self).lemma_empty(lobby_ids@[0]@);
            }
        }
        r
    }

    /// Adds a player named `player_name` to the lobby registered under
    /// `lobby_id`, under the first of `candidates` that its roster does not
    /// hold, and returns that id. The lobby is read and changed under its
    /// lock, in one step from a valid state `v` to a valid state `w`.
    pub fn join_with_ids(&self, lobby_id: &str, player_name: String, candidates: &Vec<PlayerId>)
        -> (r: Result<PlayerId>)
        requires
            self.wf(),
        ensures
            !self@.contains_key(lobby_id@) ==> (r matches Err(AppError::LobbyNotFound(t)) && t@
                == lobby_id@),
            self@.contains_key(lobby_id@) ==> exists|v: LobbyState, w: LobbyState|
                v@.wf() && w@.wf() && #[trigger] join_outcome(
                    v@,
                    w@,
                    player_name@,
                    ids_of(candidates@),
                    r,
                ),
    {
        let lobby = get_lobby(self, lobby_id)?;
        let ghost name = player_name@;
        lobby.with(
            (move |s: LobbyState| -> (out: (LobbyState, Result<PlayerId>))
                requires
                    s@.wf(),
                ensures
                    out.0@.wf(),
                    join_outcome(s@, out.0@, name, ids_of(candidates@), out.1),
                {
                    let mut s = s;
                    let r = s.join_with_ids(player_name, candidates);
                    (s, r)
                }),
        )
    }

    /// Adds a player named `player_name` to the lobby registered under
    /// `lobby_id`, under a freshly drawn id that its roster does not hold,
    /// and returns that id. Sixteen ids are drawn; when all are taken the
    /// result is an internal error and the lobby is left as it was.
    pub fn join(&self, lobby_id: &str, player_name: String) -> (r: Result<PlayerId>)
        requires
            self.wf(),
        ensures
            !self@.contains_key(lobby_id@) ==> (r matches Err(AppError::LobbyNotFound(t)) && t@
                == lobby_id@),
            self@.contains_key(lobby_id@) ==> exists|v: LobbyState, w: LobbyState|
                v@.wf() && w@.wf() && #[trigger] joined_fresh(v@, w@, player_name@, r),
    {
        let candidates = draw_player_ids(ID_ATTEMPTS);
        let r = self.join_with_ids(lobby_id, player_name, &candidates);
        proof {
            if self@.contains_key(lobby_id@) {
                let ids = ids_of(candidates@);
                let (v, w) = choose|v: LobbyState, w: LobbyState|
                    v@.wf() && w@.wf() && join_outcome(v@, w@, player_name@, ids, r);
                if r is Ok {
                    let id = r->Ok_0;
                    let k = choose|k: int| first_free(v@, ids, k) && ids[k] == id@;
                    assert(ids[k] == candidates@[k]@);
                }
                if v@.players.len() == 0 {
                    assert(!v@.has_player(ids[0]));
                }
                assert(joined_fresh(v@, w@, player_name@, r));
            }
        }
        r
    }
}

/// What creating a lobby under `lobby_id` with creator `player_id`, named
/// `name`, over the given corpus did to the registry: the id was free, it
/// now maps to a lobby made holding just the creator, as leader, and every
/// other entry is kept.
pub open spec fn created(
    before: Map<Seq<char>, SharedState>,
    after: Map<Seq<char>, SharedState>,
    lobby_id: Seq<char>,
    player_id: Seq<char>,
    name: Seq<char>,
    word_list: Seq<String>,
    kanji_list: Seq<String>,
) -> bool {
    &&& !before.contains_key(lobby_id)
    &&& after.dom() == before.dom().insert(lobby_id)
    &&& after[lobby_id].initial()@.is_leader(player_id)
    &&& exists|t: Seq<char>|
        after[lobby_id].initial()@ == LobbyView::fresh(texts(word_list), texts(kanji_list)).joined(
            new_player(player_id, name, t),
        )
    &&& forall|k: Seq<char>| #[trigger] before.contains_key(k) ==> after[k] == before[k]
}

/// `ids[k]` is the first of `ids` that `m` does not hold.
pub open spec fn first_free_key(m: Map<Seq<char>, SharedState>, ids: Seq<Seq<char>>, k: int) -> bool {
    &&& 0 <= k < ids.len()
    &&& !m.contains_key(ids[k])
    &&& forall|j: int| 0 <= j < k ==> m.contains_key(#[trigger] ids[j])
}

/// What a join with freshly drawn ids did to a lobby, from `v` to `w`: on
/// success a new id that `v` did not hold joined with this name; on failure
/// `v` had players and is left as it was.
pub open spec fn joined_fresh(v: LobbyView, w: LobbyView, name: Seq<char>, r: Result<PlayerId>) -> bool {
    match r {
        Ok(id) => {
            &&& is_id(id@, PLAYER_ID_LEN as nat)
            &&& !v.has_player(id@)
            &&& exists|t: Seq<char>| w == v.joined(new_player(id@, name, t))
        },
        Err(e) => e is InternalError && w == v && v.players.len() > 0,
    }
}

/// The lobby registered under `lobby_id`.
pub fn get_lobby(app_state: &AppState, lobby_id: &str) -> (r: Result<SharedState>)
    requires
        app_state.wf(),
    ensures
        match r {
            Ok(l) => app_state@.contains_key(lobby_id@) && l == app_state@[lobby_id@],
            Err(e) => !app_state@.contains_key(lobby_id@) && (e matches AppError::LobbyNotFound(t)
                && t@ == lobby_id@),
        },
{
    match app_state.position(lobby_id) {
        Some(i) => Ok(app_state.lobbies[i].lobby.clone()),
        None => Err(AppError::LobbyNotFound(lobby_id.to_string())),
    }
}

} // verus!
