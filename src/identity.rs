//! Identity resolution: merging the players found behind a player's known
//! addresses, and keeping player names unique.
use vstd::prelude::*;

use crate::decimal::{decimal_of, decimal_string};
use crate::player::Player;

verus! {

/// Whether some player of `s` has the id `id`.
pub open spec fn has_id(s: Seq<Player>, id: Seq<char>) -> bool {
    exists|j: int| 0 <= j < s.len() && #[trigger] s[j].id@ == id
}

/// The players of `s` without repeats by id: each id once, in the place and
/// with the record of its first appearance.
pub open spec fn dedup_by_id(s: Seq<Player>) -> Seq<Player>
    decreases s.len(),
{
    if s.len() == 0 {
        Seq::empty()
    } else {
        let d = dedup_by_id(s.drop_last());
        if has_id(d, s.last().id@) {
            d
        } else {
            d.push(s.last())
        }
    }
}

/// The per-address lookups laid end to end.
pub open spec fn flatten_lookups(lists: Seq<Vec<Player>>) -> Seq<Player> {
    lists.map_values(|l: Vec<Player>| l@).flatten()
}

fn contains_id(players: &Vec<Player>, id: &String) -> (r: bool)
    ensures
        r == has_id(players@, id@),
{
    let mut i: usize = 0;
    while i < players.len()
        invariant
            i <= players@.len(),
            forall|j: int| 0 <= j < i ==> players@[j].id@ != id@,
        decreases players.len() - i,
    {
        if players[i].id == *id {
            return true;
        }
        i = i + 1;
    }
    false
}

/// Keeps the first player of each id, in order of first appearance.
pub fn dedup_players(players: Vec<Player>) -> (r: Vec<Player>)
    ensures
        r@ == dedup_by_id(players@),
{
    let ghost all = players@;
    let mut rest = players;
    let total = rest.len();
    let mut out: Vec<Player> = Vec::new();
    let mut k: usize = 0;
    assert(all.subrange(0, 0) =~= Seq::<Player>::empty());
    while rest.len() > 0
        invariant
            k <= all.len(),
            all.len() == total,
            rest@ == all.subrange(k as int, all.len() as int),
            out@ == dedup_by_id(all.subrange(0, k as int)),
        decreases rest.len(),
    {
        let p = rest.remove(0);
        assert(all.subrange(0, k + 1).drop_last() =~= all.subrange(0, k as int));
        if !contains_id(&out, &p.id) {
            out.push(p);
        }
        k = k + 1;
        assert(rest@ =~= all.subrange(k as int, all.len() as int));
    }
    assert(all.subrange(0, all.len() as int) =~= all);
    out
}

/// Merges the players found behind each of a player's addresses into one
/// list: all lookups in order, each id once, at its first appearance.
pub fn merge_alts(lookups: Vec<Vec<Player>>) -> (r: Vec<Player>)
    ensures
        r@ == dedup_by_id(flatten_lookups(lookups@)),
{
    let ghost all = lookups@;
    let mut rest = lookups;
    let mut flat: Vec<Player> = Vec::new();
    while rest.len() > 0
        invariant
            flat@ + flatten_lookups(rest@) == flatten_lookups(all),
        decreases rest.len(),
    {
        let ghost before = rest@;
        let mut list = rest.remove(0);
        proof {
            let views = before.map_values(|l: Vec<Player>| l@);
            assert(views.drop_first() =~= rest@.map_values(|l: Vec<Player>| l@));
            assert(views.flatten() == views[0] + views.drop_first().flatten());
            assert(flat@ + list@ + flatten_lookups(rest@) =~= flat@ + flatten_lookups(before));
        }
        flat.append(&mut list);
    }
    assert(flat@ =~= flat@ + flatten_lookups(rest@));
    dedup_players(flat)
}

/// Deduplication leaves each id once, and loses none.
pub proof fn lemma_dedup_by_id_unique_and_complete(s: Seq<Player>)
    ensures
        forall|i: int, j: int|
            0 <= i < j < dedup_by_id(s).len() ==> dedup_by_id(s)[i].id@ != dedup_by_id(s)[j].id@,
        forall|i: int| 0 <= i < s.len() ==> has_id(dedup_by_id(s), #[trigger] s[i].id@),
        forall|i: int|
            0 <= i < dedup_by_id(s).len() ==> exists|j: int|
                0 <= j < s.len() && s[j] == #[trigger] dedup_by_id(s)[i],
    decreases s.len(),
{
    if s.len() > 0 {
        let t = s.drop_last();
        lemma_dedup_by_id_unique_and_complete(t);
        let d = dedup_by_id(t);
        assert forall|i: int| 0 <= i < s.len() implies has_id(dedup_by_id(s), #[trigger] s[i].id@) by {
            if i < t.len() {
                assert(t[i] == s[i]);
                assert(has_id(d, t[i].id@));
                let j = choose|j: int| 0 <= j < d.len() && #[trigger] d[j].id@ == t[i].id@;
                if !has_id(d, s.last().id@) {
                    assert(d.push(s.last())[j] == d[j]);
                }
            } else {
                if !has_id(d, s.last().id@) {
                    assert(d.push(s.last())[d.len() as int] == s.last());
                }
            }
        }
        assert forall|i: int| 0 <= i < dedup_by_id(s).len() implies exists|j: int|
            0 <= j < s.len() && s[j] == #[trigger] dedup_by_id(s)[i] by {
            if i < d.len() {
                let j = choose|j: int| 0 <= j < t.len() && t[j] == #[trigger] d[i];
                assert(s[j] == t[j]);
            } else {
                assert(s[s.len() - 1] == s.last());
            }
        }
    }
}

/// The text of the placeholder name numbered `n`.
pub open spec fn placeholder_text(n: nat) -> Seq<char> {
    ">WZPlayer"@ + decimal_of(n)
}

/// The largest placeholder number.
pub const PLACEHOLDER_MAX: u16 = 1000;

/// Lower-case text, as Unicode case folding gives it.
pub uninterp spec fn lowercase_of(s: Seq<char>) -> Seq<char>;

/// Relies on `str::to_lowercase`: the lower-case form of the text, which
/// depends on its characters alone.
#[verifier::external_body]
fn lowercase(s: &str) -> (r: String)
    ensures
        r@ == lowercase_of(s@),
{
    s.to_lowercase()
}

/// The lower-case form of a name, under which names are looked up.
pub fn normalize_name(name: &str) -> (r: String)
    ensures
        r@ == lowercase_of(name@),
{
    lowercase(name)
}

/// Relies on `rand::thread_rng` and `rand::Rng::gen_range` over an inclusive
/// range: a value between the bounds.
#[verifier::external_body]
fn random_up_to(high: u16) -> (r: u16)
    ensures
        r <= high,
{
    rand::Rng::gen_range(&mut rand::thread_rng(), 0..=high)
}

/// The placeholder name numbered `n`.
pub fn placeholder_name(n: u16) -> (r: String)
    ensures
        r@ == placeholder_text(n as nat),
{
    let mut s = String::from_str(">WZPlayer");
    let digits = decimal_string(n as u32);
    s.append(digits.as_str());
    s
}

/// What renaming leaves of one player: players other than `keep_id` whose
/// lower-case name is `name_lower` now carry `placeholder` as name and
/// lower-case name; all else stays.
pub open spec fn renamed_holder(p: Player, name_lower: Seq<char>, keep_id: Seq<char>, placeholder: Seq<char>, q: Player) -> bool {
    if p.name_lower@ == name_lower && p.id@ != keep_id {
        &&& q.name@ == placeholder
        &&& q.name_lower@ == placeholder
        &&& q == (Player { name: q.name, name_lower: q.name_lower, ..p })
    } else {
        q == p
    }
}

/// What the sweep leaves of a list of players: each player renamed as
/// `renamed_holder` says, in the same places.
pub open spec fn name_swept(before: Seq<Player>, after: Seq<Player>, name_lower: Seq<char>, keep_id: Seq<char>, placeholder: Seq<char>) -> bool {
    &&& after.len() == before.len()
    &&& forall|i: int| 0 <= i < before.len() ==> renamed_holder(
        #[trigger] before[i], name_lower, keep_id, placeholder, after[i])
}

/// Renames to `placeholder` every player other than `keep_id` whose
/// lower-case name is `name_lower`.
pub fn rename_name_holders(players: &mut Vec<Player>, name_lower: &String, keep_id: &String, placeholder: &String)
    ensures
        name_swept(old(players)@, final(players)@, name_lower@, keep_id@, placeholder@),
{
    let ghost all = players@;
    let total = players.len();
    let mut out: Vec<Player> = Vec::new();
    let mut k: usize = 0;
    while players.len() > 0
        invariant
            k <= all.len(),
            all.len() == total,
            players@ == all.subrange(k as int, all.len() as int),
            out@.len() == k,
            forall|i: int| 0 <= i < k ==> renamed_holder(
                #[trigger] all[i], name_lower@, keep_id@, placeholder@, out@[i]),
        decreases players.len(),
    {
        let mut p = players.remove(0);
        assert(p == all[k as int]);
        if p.name_lower == *name_lower && !(p.id == *keep_id) {
            p.name = placeholder.clone();
            p.name_lower = placeholder.clone();
        }
        out.push(p);
        k = k + 1;
        assert(players@ =~= all.subrange(k as int, all.len() as int));
    }
    *players = out;
}

/// Before `name` goes to the player `keep_id`, renames every other player
/// holding it (by lower-case name) to a placeholder `>WZPlayer<n>` with a
/// random `n` from 0 to 1000.
pub fn ensure_player_name_uniqueness(players: &mut Vec<Player>, name: &String, keep_id: &String)
    ensures
        exists|n: nat|
            n <= PLACEHOLDER_MAX && #[trigger] name_swept(
                old(players)@, final(players)@, lowercase_of(name@), keep_id@, placeholder_text(n)),
{
    let n = random_up_to(PLACEHOLDER_MAX);
    let placeholder = placeholder_name(n);
    let lower = lowercase(name.as_str());
    rename_name_holders(players, &lower, keep_id, &placeholder);
    assert(name_swept(old(players)@, final(players)@, lowercase_of(name@), keep_id@, placeholder_text(n as nat)));
}

/// The sweep never renames the player that keeps the name, and leaves every
/// other holder of the name with a placeholder `>WZPlayer<n>`, `n` at most 1000.
pub proof fn lemma_name_sweep(before: Seq<Player>, after: Seq<Player>, name_lower: Seq<char>, keep_id: Seq<char>, n: nat)
    requires
        n <= PLACEHOLDER_MAX,
        name_swept(before, after, name_lower, keep_id, placeholder_text(n)),
    ensures
        forall|i: int| 0 <= i < before.len() && #[trigger] before[i].id@ == keep_id ==> after[i] == before[i],
        forall|i: int|
            0 <= i < before.len() && #[trigger] before[i].name_lower@ == name_lower && before[i].id@ != keep_id
                ==> exists|m: nat| m <= 1000 && after[i].name@ == placeholder_text(m) && after[i].name_lower@ == placeholder_text(m),
{
    assert forall|i: int|
        0 <= i < before.len() && #[trigger] before[i].name_lower@ == name_lower && before[i].id@ != keep_id
            implies exists|m: nat| m <= 1000 && after[i].name@ == placeholder_text(m) && after[i].name_lower@ == placeholder_text(m) by {
        assert(renamed_holder(before[i], name_lower, keep_id, placeholder_text(n), after[i]));
    }
    assert forall|i: int| 0 <= i < before.len() && #[trigger] before[i].id@ == keep_id implies after[i] == before[i] by {
        assert(renamed_holder(before[i], name_lower, keep_id, placeholder_text(n), after[i]));
    }
}

} // verus!
