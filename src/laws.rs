//! Properties of the lobby model that span several operations.

use vstd::prelude::*;

use crate::lobby::{index_of, lemma_index_of, lemma_index_of_same_ids, new_player, LobbyView};
use crate::models::{PlayerView, SettingsView};

verus! {

/// The lobby after each player of `arrivals` joined, in order.
pub open spec fn joined_all(v: LobbyView, arrivals: Seq<PlayerView>) -> LobbyView
    decreases arrivals.len(),
{
    if arrivals.len() == 0 {
        v
    } else {
        joined_all(v, arrivals.drop_last()).joined(arrivals.last())
    }
}

/// The lobby after the first player with id `id` scored `n` times.
pub open spec fn scored_times(v: LobbyView, id: Seq<char>, n: nat) -> LobbyView
    decreases n,
{
    if n == 0 {
        v
    } else {
        scored_times(v, id, (n - 1) as nat).scored(id)
    }
}

/// A change to a lobby that draws no kanji. A score already at `u32::MAX`
/// is left as it is.
pub enum Step {
    /// A player with this id and name joins at this time.
    Join(Seq<char>, Seq<char>, Seq<char>),
    Score(Seq<char>),
    Configure(SettingsView),
}

/// The lobby after one step.
pub open spec fn step(v: LobbyView, s: Step) -> LobbyView {
    match s {
        Step::Join(id, name, t) => v.joined(new_player(id, name, t)),
        Step::Score(id) => if v.has_player(id) && v.player(id).score < u32::MAX {
            v.scored(id)
        } else {
            v
        },
        Step::Configure(c) => v.configured(c),
    }
}

/// The lobby after the steps, in order.
pub open spec fn apply(v: LobbyView, steps: Seq<Step>) -> LobbyView
    decreases steps.len(),
{
    if steps.len() == 0 {
        v
    } else {
        step(apply(v, steps.drop_last()), steps.last())
    }
}

/// Joining appends to the roster, whatever was there.
pub proof fn lemma_joined_all_roster(v: LobbyView, arrivals: Seq<PlayerView>)
    ensures
        joined_all(v, arrivals).players == v.players + arrivals,
        joined_all(v, arrivals).settings == v.settings,
        joined_all(v, arrivals).status == v.status,
        joined_all(v, arrivals).prompt == v.prompt,
        v.players.len() > 0 ==> joined_all(v, arrivals).leader == v.leader,
    decreases arrivals.len(),
{
    if arrivals.len() > 0 {
        lemma_joined_all_roster(v, arrivals.drop_last());
        assert(v.players + arrivals == (v.players + arrivals.drop_last()).push(arrivals.last()));
    } else {
        assert(v.players + arrivals == v.players);
    }
}

/// Whoever joins a lobby that has no players, the first of them becomes its
/// leader, and the leader test holds for that id and for no other.
pub proof fn lemma_first_arrival_leads(v: LobbyView, arrivals: Seq<PlayerView>)
    requires
        v.players.len() == 0,
        arrivals.len() > 0,
    ensures
        joined_all(v, arrivals).leader == Some(arrivals[0].id),
        forall|id: Seq<char>| #[trigger]
            joined_all(v, arrivals).is_leader(id) <==> id == arrivals[0].id,
    decreases arrivals.len(),
{
    if arrivals.len() == 1 {
        assert(arrivals.drop_last().len() == 0);
    } else {
        lemma_first_arrival_leads(v, arrivals.drop_last());
        lemma_joined_all_roster(v, arrivals.drop_last());
    }
}

/// When `n` players with distinct ids join a lobby that has none, the roster
/// holds those `n` players and exactly one of them passes the leader test.
pub proof fn lemma_joins_give_one_leader(v: LobbyView, arrivals: Seq<PlayerView>)
    requires
        v.players.len() == 0,
        arrivals.len() > 0,
        forall|i: int, j: int|
            0 <= i < arrivals.len() && 0 <= j < arrivals.len() && i != j ==> arrivals[i].id
                != arrivals[j].id,
    ensures
        joined_all(v, arrivals).players == arrivals,
        joined_all(v, arrivals).is_leader(joined_all(v, arrivals).players[0].id),
        forall|i: int|
            0 < i < arrivals.len() ==> !#[trigger] joined_all(v, arrivals).is_leader(
                joined_all(v, arrivals).players[i].id,
            ),
{
    lemma_joined_all_roster(v, arrivals);
    lemma_first_arrival_leads(v, arrivals);
    assert(v.players + arrivals == arrivals);
    assert forall|i: int| 0 < i < arrivals.len() implies !#[trigger] joined_all(
        v,
        arrivals,
    ).is_leader(joined_all(v, arrivals).players[i].id) by {
        assert(arrivals[i].id != arrivals[0].id);
    }
}

/// Scoring keeps the roster's ids, so the player stays where it was.
pub proof fn lemma_scored_keeps_index(v: LobbyView, id: Seq<char>, other: Seq<char>)
    requires
        v.has_player(id),
    ensures
        v.scored(id).players.len() == v.players.len(),
        index_of(v.scored(id).players, other) == index_of(v.players, other),
        v.scored(id).player(id).score == v.player(id).score + 1,
{
    lemma_index_of(v.players, id);
    let w = v.scored(id);
    assert forall|j: int| 0 <= j < v.players.len() implies #[trigger] w.players[j].id
        == v.players[j].id by {}
    lemma_index_of_same_ids(w.players, v.players, other);
    lemma_index_of_same_ids(w.players, v.players, id);
}

/// A player who starts at zero has a score of `n` after `n` increments.
pub proof fn lemma_score_counts_increments(v: LobbyView, id: Seq<char>, n: nat)
    requires
        v.has_player(id),
        v.player(id).score == 0,
    ensures
        scored_times(v, id, n).has_player(id),
        scored_times(v, id, n).player(id).score == n,
    decreases n,
{
    if n > 0 {
        lemma_score_counts_increments(v, id, (n - 1) as nat);
        lemma_scored_keeps_index(scored_times(v, id, (n - 1) as nat), id, id);
    }
}

/// A step keeps the lobby's invariant, and draws no kanji.
pub proof fn lemma_step(v: LobbyView, s: Step)
    requires
        v.wf(),
    ensures
        step(v, s).wf(),
        step(v, s).prompt == v.prompt,
        step(v, s).kanji == v.kanji,
{
    match s {
        Step::Join(id, name, t) => {},
        Step::Score(id) => {
            if v.has_player(id) && v.player(id).score < u32::MAX {
                lemma_index_of(v.players, id);
                assert(v.scored(id).players[0].id == v.players[0].id);
            }
        },
        Step::Configure(c) => {},
    }
}

/// Steps that draw no kanji keep the lobby's invariant and leave the kanji
/// on display as it was: once drawn, it is what every later read returns
/// until the next draw.
pub proof fn lemma_prompt_stays(v: LobbyView, steps: Seq<Step>)
    requires
        v.wf(),
    ensures
        apply(v, steps).wf(),
        apply(v, steps).prompt == v.prompt,
        apply(v, steps).kanji == v.kanji,
    decreases steps.len(),
{
    if steps.len() > 0 {
        lemma_prompt_stays(v, steps.drop_last());
        lemma_step(apply(v, steps.drop_last()), steps.last());
    }
}

/// A fresh lobby shows no kanji until one is drawn, whatever happens in the
/// meantime; after a draw it shows one of the lobby's kanji.
pub proof fn lemma_prompt_before_and_after_draw(
    words: Seq<Seq<char>>,
    kanji: Seq<Seq<char>>,
    steps: Seq<Step>,
    i: int,
)
    requires
        0 <= i < kanji.len(),
    ensures
        apply(LobbyView::fresh(words, kanji), steps).prompt is None,
        apply(LobbyView::fresh(words, kanji), steps).prompted(i).prompt == Some(kanji[i]),
        kanji.contains(kanji[i]),
{
    let f = LobbyView::fresh(words, kanji);
    assert(f.wf());
    lemma_prompt_stays(f, steps);
}

/// Once a start by the leader succeeded, a second start by the same player is
/// refused because the game is no longer in the lobby phase.
pub proof fn lemma_second_start_refused(v: LobbyView, id: Seq<char>, i: int)
    requires
        v.wf(),
        !v.start_unauthorized(id),
        !v.start_out_of_phase(id),
        0 <= i < v.kanji.len(),
    ensures
        v.started(i).start_out_of_phase(id),
{
}

} // verus!
