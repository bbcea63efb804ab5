//! Player records and their projections.
use vstd::prelude::*;

use crate::stats::{GamemodeStats, PlayerStats};

verus! {

/// A player reduced to identity and name.
#[derive(Debug, Clone, Hash)]
pub struct SimplePlayer {
    pub name: String,
    pub id: String,
}

impl SimplePlayer {
    /// A copy with the same id and name.
    pub fn duplicate(&self) -> (r: Self)
        ensures
            r == *self,
    {
        SimplePlayer { name: self.name.clone(), id: self.id.clone() }
    }

    /// The address of the player's small avatar picture.
    pub fn get_mini_icon_url(&self) -> (r: String)
        ensures
            r@ == "https://crafatar.com/avatars/"@ + self.id@ + "?helm&size=50"@,
    {
        let mut url = String::from_str("https://crafatar.com/avatars/");
        url.append(self.id.as_str());
        url.append("?helm&size=50");
        url
    }
}

/// The gamemodes that statistics are kept for.
#[derive(Debug, Clone, Copy, PartialEq, Eq, Structural, Hash)]
pub enum LevelGamemode {
    AttackDefend,
    Arcade,
    Blitz,
    CaptureTheFlag,
    CaptureTheWool,
    DestroyTheCore,
    DestroyTheMonument,
    FreeForAll,
    KingOfTheHill,
    Rage,
    Scorebox,
    Deathmatch,
}

/// A note that staff left on a player's record.
#[derive(Debug, Clone)]
pub struct StaffNote {
    pub id: u32,
    pub author: SimplePlayer,
    pub content: String,
    pub created_at: u64,
}

/// A player's record. Times are milliseconds since the Unix epoch.
#[derive(Debug, Clone)]
pub struct Player {
    pub id: String,
    pub name: String,
    pub name_lower: String,
    pub last_session_id: Option<String>,
    pub first_joined_at: u64,
    pub last_joined_at: u64,
    pub ips: Vec<String>,
    pub notes: Vec<StaffNote>,
    pub rank_ids: Vec<String>,
    pub tag_ids: Vec<String>,
    pub active_tag_id: Option<String>,
    pub stats: PlayerStats,
    pub gamemode_stats: Vec<(LevelGamemode, GamemodeStats)>,
    pub active_join_sound_id: Option<String>,
}

/// The key that a player's leaderboard entries are filed under: id and name
/// joined by `/`.
pub open spec fn id_name_of(id: Seq<char>, name: Seq<char>) -> Seq<char> {
    id + seq!['/'] + name
}

fn duplicate_text(s: &Option<String>) -> (r: Option<String>)
    ensures
        r == *s,
{
    match s {
        Some(x) => Some(x.clone()),
        None => None,
    }
}

fn duplicate_texts(v: &Vec<String>) -> (r: Vec<String>)
    ensures
        r@ == v@,
{
    let mut r: Vec<String> = Vec::new();
    let mut i: usize = 0;
    while i < v.len()
        invariant
            i <= v@.len(),
            r@ == v@.subrange(0, i as int),
        decreases v.len() - i,
    {
        r.push(v[i].clone());
        i = i + 1;
        assert(r@ =~= v@.subrange(0, i as int));
    }
    assert(v@.subrange(0, v@.len() as int) =~= v@);
    r
}

fn duplicate_gamemode_stats(v: &Vec<(LevelGamemode, GamemodeStats)>) -> (r: Vec<(LevelGamemode, GamemodeStats)>)
    ensures
        r@.len() == v@.len(),
        forall|i: int| 0 <= i < v@.len() ==> (#[trigger] r@[i]).0 == v@[i].0 && v@[i].1.same_as(r@[i].1),
{
    let mut r: Vec<(LevelGamemode, GamemodeStats)> = Vec::new();
    let mut i: usize = 0;
    while i < v.len()
        invariant
            i <= v@.len(),
            r@.len() == i,
            forall|j: int| 0 <= j < i ==> (#[trigger] r@[j]).0 == v@[j].0 && v@[j].1.same_as(r@[j].1),
        decreases v.len() - i,
    {
        r.push((v[i].0, v[i].1.duplicate()));
        i = i + 1;
    }
    r
}

impl Player {
    /// A copy fit to show to anyone: addresses, staff notes and the last
    /// session are left out; all else is kept.
    pub fn sanitized_copy(&self) -> (r: Player)
        ensures
            r.ips@.len() == 0,
            r.notes@.len() == 0,
            r.last_session_id is None,
            r.id == self.id,
            r.name == self.name,
            r.name_lower == self.name_lower,
            r.first_joined_at == self.first_joined_at,
            r.last_joined_at == self.last_joined_at,
            r.rank_ids@ == self.rank_ids@,
            r.tag_ids@ == self.tag_ids@,
            r.active_tag_id == self.active_tag_id,
            self.stats.same_as(r.stats),
            r.gamemode_stats@.len() == self.gamemode_stats@.len(),
            forall|i: int| 0 <= i < self.gamemode_stats@.len() ==>
                (#[trigger] r.gamemode_stats@[i]).0 == self.gamemode_stats@[i].0
                && self.gamemode_stats@[i].1.same_as(r.gamemode_stats@[i].1),
            r.active_join_sound_id == self.active_join_sound_id,
    {
        Player {
            id: self.id.clone(),
            name: self.name.clone(),
            name_lower: self.name_lower.clone(),
            last_session_id: None,
            first_joined_at: self.first_joined_at,
            last_joined_at: self.last_joined_at,
            ips: Vec::new(),
            notes: Vec::new(),
            rank_ids: duplicate_texts(&self.rank_ids),
            tag_ids: duplicate_texts(&self.tag_ids),
            active_tag_id: duplicate_text(&self.active_tag_id),
            stats: self.stats.duplicate(),
            gamemode_stats: duplicate_gamemode_stats(&self.gamemode_stats),
            active_join_sound_id: duplicate_text(&self.active_join_sound_id),
        }
    }

    /// The name of the collection that players are stored in.
    pub fn get_collection_name() -> (r: &'static str)
        ensures
            r@ == "player"@,
    {
        "player"
    }

    /// The player reduced to identity and name.
    pub fn to_simple(&self) -> (r: SimplePlayer)
        ensures
            r.name == self.name,
            r.id == self.id,
    {
        SimplePlayer { name: self.name.clone(), id: self.id.clone() }
    }

    /// The player's id and name joined by `/`.
    pub fn id_name(&self) -> (r: String)
        ensures
            r@ == id_name_of(self.id@, self.name@),
    {
        let mut s = self.id.clone();
        s.append("/");
        s.append(self.name.as_str());
        proof {
            reveal_strlit("/");
        }
        assert(s@ =~= id_name_of(self.id@, self.name@));
        s
    }
}

} // verus!
