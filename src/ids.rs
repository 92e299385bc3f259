//! Random identifiers for lobbies and players.

use rand::Rng;
use vstd::prelude::*;

verus! {

/// Length of a lobby id.
pub const LOBBY_ID_LEN: usize = 6;

/// Length of a player id.
pub const PLAYER_ID_LEN: usize = 10;

/// An ASCII letter or digit.
pub open spec fn is_id_char(c: char) -> bool {
    ('a' <= c && c <= 'z') || ('A' <= c && c <= 'Z') || ('0' <= c && c <= '9')
}

/// `s` is an identifier of `len` ASCII letters and digits.
pub open spec fn is_id(s: Seq<char>, len: nat) -> bool {
    &&& s.len() == len
    &&& forall|i: int| 0 <= i < s.len() ==> is_id_char(#[trigger] s[i])
}

/// Relies on rand's `Alphanumeric` distribution, drawn from the thread-local
/// generator `rand::rng()`: each draw is one of the 62 ASCII letters and
/// digits. The generator panics only if the system's entropy source fails.
#[verifier::external_body]
fn random_id_char() -> (c: char)
    ensures
        is_id_char(c),
{
    char::from(rand::rng().sample(rand::distr::Alphanumeric))
}

/// Relies on `String::push`: the character is appended at the end.
#[verifier::external_body]
fn push_char(s: &mut String, c: char)
    ensures
        final(s)@ == old(s)@.push(c),
{
    s.push(c)
}

/// Draws `length` ASCII letters and digits at random.
pub fn generate_random_id(length: usize) -> (r: String)
    ensures
        is_id(r@, length as nat),
{
    let mut r = String::new();
    let mut i: usize = 0;
    while i < length
        invariant
            i <= length,
            is_id(r@, i as nat),
        decreases length - i,
    {
        let c = random_id_char();
        push_char(&mut r, c);
        i = i + 1;
    }
    r
}

/// A fresh random player id of ten characters.
pub fn generate_player_id() -> (r: crate::models::PlayerId)
    ensures
        is_id(r@, PLAYER_ID_LEN as nat),
{
    crate::models::PlayerId(generate_random_id(PLAYER_ID_LEN))
}

/// A fresh random lobby id of six characters.
pub fn generate_lobby_id() -> (r: String)
    ensures
        is_id(r@, LOBBY_ID_LEN as nat),
{
    generate_random_id(LOBBY_ID_LEN)
}

/// `n` fresh random player ids.
pub fn draw_player_ids(n: usize) -> (r: Vec<crate::models::PlayerId>)
    ensures
        r@.len() == n,
        forall|i: int| 0 <= i < n ==> is_id(#[trigger] r@[i]@, PLAYER_ID_LEN as nat),
{
    let mut r: Vec<crate::models::PlayerId> = Vec::new();
    let mut i: usize = 0;
    while i < n
        invariant
            i <= n,
            r@.len() == i,
            forall|j: int| 0 <= j < i ==> is_id(#[trigger] r@[j]@, PLAYER_ID_LEN as nat),
        decreases n - i,
    {
        r.push(generate_player_id());
        i = i + 1;
    }
    r
}

/// `n` fresh random lobby ids.
pub fn draw_lobby_ids(n: usize) -> (r: Vec<String>)
    ensures
        r@.len() == n,
        forall|i: int| 0 <= i < n ==> is_id(#[trigger] r@[i]@, LOBBY_ID_LEN as nat),
{
    let mut r: Vec<String> = Vec::new();
    let mut i: usize = 0;
    while i < n
        invariant
            i <= n,
            r@.len() == i,
            forall|j: int| 0 <= j < i ==> is_id(#[trigger] r@[j]@, LOBBY_ID_LEN as nat),
        decreases n - i,
    {
        r.push(generate_lobby_id());
        i = i + 1;
    }
    r
}

} // verus!
