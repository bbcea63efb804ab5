//! Aggregate player statistics and the extraction of leaderboard scores
//! from them.
use vstd::prelude::*;

use crate::decimal::{decimal_of, decimal_string, parse_u32, parse_u32_spec};
use crate::player::SimplePlayer;
use crate::string_map::{lookup, StringMap};

verus! {

/// The statistic that a leaderboard ranks players by.
#[derive(Debug, Clone, Copy, PartialEq, Eq, Structural, Hash)]
pub enum ScoreType {
    Kills,
    Deaths,
    FirstBloods,
    Wins,
    Losses,
    Ties,
    Xp,
    MessagesSent,
    MatchesPlayed,
    ServerPlaytime,
    GamePlaytime,
    CoreLeaks,
    CoreBlockDestroys,
    DestroyableDestroys,
    DestroyableBlockDestroys,
    FlagCaptures,
    FlagDrops,
    FlagPickups,
    FlagDefends,
    FlagHoldTime,
    WoolCaptures,
    WoolDrops,
    WoolPickups,
    WoolDefends,
    ControlPointCaptures,
    HighestKillstreak,
}

/// Chat messages sent, by channel.
#[derive(Debug, Clone)]
pub struct PlayerMessages {
    pub staff: u32,
    pub global: u32,
    pub team: u32,
}

/// A sum narrowed to `u32`, saturating at its maximum.
pub open spec fn saturate_u32(n: int) -> u32 {
    if n > u32::MAX {
        u32::MAX
    } else {
        n as u32
    }
}

impl PlayerMessages {
    /// All messages sent, over every channel, saturating at `u32::MAX`.
    pub fn total(&self) -> (r: u32)
        ensures
            r == saturate_u32(self.staff + self.global + self.team),
    {
        self.staff.saturating_add(self.global).saturating_add(self.team)
    }
}

impl Default for PlayerMessages {
    fn default() -> (r: Self)
        ensures
            r.staff == 0 && r.global == 0 && r.team == 0,
    {
        PlayerMessages { staff: 0, global: 0, team: 0 }
    }
}

/// Counters of objective actions.
#[derive(Debug, Clone)]
pub struct PlayerObjectiveStatistics {
    pub core_leaks: u32,
    pub core_block_destroys: u32,
    pub destroyable_destroys: u32,
    pub destroyable_block_destroys: u32,
    pub flag_captures: u32,
    pub flag_pickups: u32,
    pub flag_drops: u32,
    pub flag_defends: u32,
    pub total_flag_hold_time: u64,
    pub wool_captures: u32,
    pub wool_drops: u32,
    pub wool_defends: u32,
    pub wool_pickups: u32,
    pub control_point_captures: u32,
}

impl PlayerObjectiveStatistics {
    /// Whether every counter is zero.
    pub open spec fn is_zero(&self) -> bool {
        &&& self.core_leaks == 0
        &&& self.core_block_destroys == 0
        &&& self.destroyable_destroys == 0
        &&& self.destroyable_block_destroys == 0
        &&& self.flag_captures == 0
        &&& self.flag_pickups == 0
        &&& self.flag_drops == 0
        &&& self.flag_defends == 0
        &&& self.total_flag_hold_time == 0
        &&& self.wool_captures == 0
        &&& self.wool_drops == 0
        &&& self.wool_defends == 0
        &&& self.wool_pickups == 0
        &&& self.control_point_captures == 0
    }
}

impl Default for PlayerObjectiveStatistics {
    fn default() -> (r: Self)
        ensures
            r.is_zero(),
    {
        PlayerObjectiveStatistics {
            core_leaks: 0,
            core_block_destroys: 0,
            destroyable_destroys: 0,
            destroyable_block_destroys: 0,
            flag_captures: 0,
            flag_pickups: 0,
            flag_drops: 0,
            flag_defends: 0,
            total_flag_hold_time: 0,
            wool_captures: 0,
            wool_drops: 0,
            wool_defends: 0,
            wool_pickups: 0,
            control_point_captures: 0,
        }
    }
}

/// A personal record set in a match.
#[derive(Debug, Clone)]
pub struct PlayerRecord<T> {
    pub match_id: String,
    pub player: SimplePlayer,
    pub value: T,
}

/// The longest session played.
#[derive(Debug, Clone)]
pub struct SessionRecord {
    pub session_id: String,
    pub length: u64,
}

/// The longest kill made with a projectile.
#[derive(Debug, Clone)]
pub struct ProjectileRecord {
    pub match_id: String,
    pub player: SimplePlayer,
    pub distance: u32,
}

/// The fastest first kill of a match.
#[derive(Debug, Clone)]
pub struct FirstBloodRecord {
    pub match_id: String,
    pub attacker: SimplePlayer,
    pub victim: SimplePlayer,
    pub time: u64,
}

/// The personal records a player holds.
#[derive(Debug, Clone)]
pub struct PlayerRecords {
    pub longest_session: Option<SessionRecord>,
    pub longest_projectile_kill: Option<ProjectileRecord>,
    pub fastest_wool_capture: Option<PlayerRecord<u64>>,
    pub fastest_flag_capture: Option<PlayerRecord<u64>>,
    pub fastest_first_blood: Option<FirstBloodRecord>,
    pub kills_in_match: Option<PlayerRecord<u32>>,
    pub deaths_in_match: Option<PlayerRecord<u32>>,
}

impl PlayerRecords {
    /// Whether no record is held.
    pub open spec fn is_empty(&self) -> bool {
        &&& self.longest_session is None
        &&& self.longest_projectile_kill is None
        &&& self.fastest_wool_capture is None
        &&& self.fastest_flag_capture is None
        &&& self.fastest_first_blood is None
        &&& self.kills_in_match is None
        &&& self.deaths_in_match is None
    }
}

impl Default for PlayerRecords {
    fn default() -> (r: Self)
        ensures
            r.is_empty(),
    {
        PlayerRecords {
            longest_session: None,
            longest_projectile_kill: None,
            fastest_wool_capture: None,
            fastest_flag_capture: None,
            fastest_first_blood: None,
            kills_in_match: None,
            deaths_in_match: None,
        }
    }
}

/// When an achievement was completed.
#[derive(Debug, Clone, Copy)]
pub struct AchievementData {
    pub completion_time: u64,
}

/// Aggregate statistics of a player, overall or in one gamemode.
/// Damage amounts are held in thousandths of a health point.
#[derive(Debug, Clone)]
pub struct PlayerStats {
    pub xp: u32,
    pub server_playtime: i64,
    pub game_playtime: u64,
    pub kills: u32,
    pub deaths: u32,
    pub void_kills: u32,
    pub void_deaths: u32,
    pub first_bloods: u32,
    pub first_bloods_suffered: u32,
    pub objectives: PlayerObjectiveStatistics,
    pub bow_shots_taken: u32,
    pub bow_shots_hit: u32,
    pub blocks_placed: StringMap<u32>,
    pub blocks_broken: StringMap<u32>,
    pub damage_taken: u64,
    pub damage_given: u64,
    pub damage_given_bow: u64,
    pub messages: PlayerMessages,
    pub wins: u32,
    pub losses: u32,
    pub ties: u32,
    pub matches: u32,
    pub matches_present_start: u32,
    pub matches_present_full: u32,
    pub matches_present_end: u32,
    pub records: PlayerRecords,
    pub weapon_kills: StringMap<u32>,
    pub weapon_deaths: StringMap<u32>,
    pub killstreaks: StringMap<u32>,
    pub killstreaks_ended: StringMap<u32>,
    pub achievements: StringMap<AchievementData>,
}

fn duplicate_session(r: &Option<SessionRecord>) -> (c: Option<SessionRecord>)
    ensures
        c == *r,
{
    match r {
        Some(x) => Some(SessionRecord { session_id: x.session_id.clone(), length: x.length }),
        None => None,
    }
}

fn duplicate_projectile(r: &Option<ProjectileRecord>) -> (c: Option<ProjectileRecord>)
    ensures
        c == *r,
{
    match r {
        Some(x) => Some(
            ProjectileRecord { match_id: x.match_id.clone(), player: x.player.duplicate(), distance: x.distance },
        ),
        None => None,
    }
}

fn duplicate_first_blood(r: &Option<FirstBloodRecord>) -> (c: Option<FirstBloodRecord>)
    ensures
        c == *r,
{
    match r {
        Some(x) => Some(
            FirstBloodRecord {
                match_id: x.match_id.clone(),
                attacker: x.attacker.duplicate(),
                victim: x.victim.duplicate(),
                time: x.time,
            },
        ),
        None => None,
    }
}

fn duplicate_record<T: Copy>(r: &Option<PlayerRecord<T>>) -> (c: Option<PlayerRecord<T>>)
    ensures
        c == *r,
{
    match r {
        Some(x) => Some(PlayerRecord { match_id: x.match_id.clone(), player: x.player.duplicate(), value: x.value }),
        None => None,
    }
}

impl PlayerRecords {
    /// A copy holding the same records.
    pub fn duplicate(&self) -> (r: Self)
        ensures
            r == *self,
    {
        PlayerRecords {
            longest_session: duplicate_session(&self.longest_session),
            longest_projectile_kill: duplicate_projectile(&self.longest_projectile_kill),
            fastest_wool_capture: duplicate_record(&self.fastest_wool_capture),
            fastest_flag_capture: duplicate_record(&self.fastest_flag_capture),
            fastest_first_blood: duplicate_first_blood(&self.fastest_first_blood),
            kills_in_match: duplicate_record(&self.kills_in_match),
            deaths_in_match: duplicate_record(&self.deaths_in_match),
        }
    }
}

impl PlayerStats {
    /// Whether `o` holds the same statistics: equal counters and records, and
    /// maps with the same entries.
    pub open spec fn same_as(&self, o: PlayerStats) -> bool {
        &&& o == (PlayerStats {
            blocks_placed: o.blocks_placed,
            blocks_broken: o.blocks_broken,
            weapon_kills: o.weapon_kills,
            weapon_deaths: o.weapon_deaths,
            killstreaks: o.killstreaks,
            killstreaks_ended: o.killstreaks_ended,
            achievements: o.achievements,
            ..*self
        })
        &&& o.blocks_placed.view() == self.blocks_placed.view()
        &&& o.blocks_broken.view() == self.blocks_broken.view()
        &&& o.weapon_kills.view() == self.weapon_kills.view()
        &&& o.weapon_deaths.view() == self.weapon_deaths.view()
        &&& o.killstreaks.view() == self.killstreaks.view()
        &&& o.killstreaks_ended.view() == self.killstreaks_ended.view()
        &&& o.achievements.view() == self.achievements.view()
    }

    /// A copy holding the same statistics.
    pub fn duplicate(&self) -> (r: Self)
        ensures
            self.same_as(r),
    {
        PlayerStats {
            xp: self.xp,
            server_playtime: self.server_playtime,
            game_playtime: self.game_playtime,
            kills: self.kills,
            deaths: self.deaths,
            void_kills: self.void_kills,
            void_deaths: self.void_deaths,
            first_bloods: self.first_bloods,
            first_bloods_suffered: self.first_bloods_suffered,
            objectives: PlayerObjectiveStatistics { ..self.objectives },
            bow_shots_taken: self.bow_shots_taken,
            bow_shots_hit: self.bow_shots_hit,
            blocks_placed: self.blocks_placed.duplicate(),
            blocks_broken: self.blocks_broken.duplicate(),
            damage_taken: self.damage_taken,
            damage_given: self.damage_given,
            damage_given_bow: self.damage_given_bow,
            messages: PlayerMessages { ..self.messages },
            wins: self.wins,
            losses: self.losses,
            ties: self.ties,
            matches: self.matches,
            matches_present_start: self.matches_present_start,
            matches_present_full: self.matches_present_full,
            matches_present_end: self.matches_present_end,
            records: self.records.duplicate(),
            weapon_kills: self.weapon_kills.duplicate(),
            weapon_deaths: self.weapon_deaths.duplicate(),
            killstreaks: self.killstreaks.duplicate(),
            killstreaks_ended: self.killstreaks_ended.duplicate(),
            achievements: self.achievements.duplicate(),
        }
    }
}

/// Gamemode statistics have the shape of the overall ones.
pub type GamemodeStats = PlayerStats;

/// The number a killstreak key stands for; a key that is no number counts as 0.
pub open spec fn killstreak_key_number(k: Seq<char>) -> u32 {
    match parse_u32_spec(k) {
        Some(v) => v,
        None => 0,
    }
}

/// The largest key number among the entries, if there are any.
pub open spec fn max_killstreak_key(s: Seq<(Seq<char>, u32)>) -> Option<u32>
    decreases s.len(),
{
    if s.len() == 0 {
        None
    } else {
        let k = killstreak_key_number(s.last().0);
        match max_killstreak_key(s.drop_last()) {
            None => Some(k),
            Some(m) => Some(if m >= k { m } else { k }),
        }
    }
}

/// The key that the best killstreak is read under: the largest key number,
/// or 100 when there are no entries.
pub open spec fn best_killstreak_key(s: Seq<(Seq<char>, u32)>) -> u32 {
    match max_killstreak_key(s) {
        Some(m) => m,
        None => 100,
    }
}

/// The highest killstreak: the count stored under the canonical text of the
/// best key, or 0 when no entry has that text as its key.
pub open spec fn highest_killstreak_of(s: Seq<(Seq<char>, u32)>) -> u32 {
    match lookup(s, decimal_of(best_killstreak_key(s) as nat)) {
        Some(v) => v,
        None => 0,
    }
}

/// A signed duration narrowed to `u32`: out of range (negative or too large)
/// gives `u32::MAX`.
pub open spec fn narrow_i64(v: i64) -> u32 {
    if 0 <= v <= u32::MAX {
        v as u32
    } else {
        u32::MAX
    }
}

/// An unsigned duration narrowed to `u32`, saturating at `u32::MAX`.
pub open spec fn narrow_u64(v: u64) -> u32 {
    if v <= u32::MAX {
        v as u32
    } else {
        u32::MAX
    }
}

/// The score of a given type that these statistics give.
pub open spec fn score_of(s: PlayerStats, t: ScoreType) -> u32 {
    match t {
        ScoreType::Kills => s.kills,
        ScoreType::Deaths => s.deaths,
        ScoreType::FirstBloods => s.first_bloods,
        ScoreType::Wins => s.wins,
        ScoreType::Losses => s.losses,
        ScoreType::Ties => s.ties,
        ScoreType::Xp => s.xp,
        ScoreType::MessagesSent => saturate_u32(
            s.messages.staff + s.messages.global + s.messages.team,
        ),
        ScoreType::MatchesPlayed => s.matches,
        ScoreType::ServerPlaytime => narrow_i64(s.server_playtime),
        ScoreType::GamePlaytime => narrow_u64(s.game_playtime),
        ScoreType::CoreLeaks => s.objectives.core_leaks,
        ScoreType::CoreBlockDestroys => s.objectives.core_block_destroys,
        ScoreType::DestroyableDestroys => s.objectives.destroyable_destroys,
        ScoreType::DestroyableBlockDestroys => s.objectives.destroyable_block_destroys,
        ScoreType::FlagCaptures => s.objectives.flag_captures,
        ScoreType::FlagDrops => s.objectives.flag_drops,
        ScoreType::FlagPickups => s.objectives.flag_pickups,
        ScoreType::FlagDefends => s.objectives.flag_defends,
        ScoreType::FlagHoldTime => narrow_u64(s.objectives.total_flag_hold_time),
        ScoreType::WoolCaptures => s.objectives.wool_captures,
        ScoreType::WoolDrops => s.objectives.wool_drops,
        ScoreType::WoolPickups => s.objectives.wool_pickups,
        ScoreType::WoolDefends => s.objectives.wool_defends,
        ScoreType::ControlPointCaptures => s.objectives.control_point_captures,
        ScoreType::HighestKillstreak => highest_killstreak_of(s.killstreaks.view()),
    }
}

/// The level that the linear curve gives for an amount of experience.
pub open spec fn linear_level_of(xp: u32) -> int {
    (xp + 5000) / 5000
}

fn narrow_signed(v: i64) -> (r: u32)
    ensures
        r == narrow_i64(v),
{
    if 0 <= v && v <= 0xffff_ffff {
        v as u32
    } else {
        u32::MAX
    }
}

fn narrow_unsigned(v: u64) -> (r: u32)
    ensures
        r == narrow_u64(v),
{
    if v <= 0xffff_ffff {
        v as u32
    } else {
        u32::MAX
    }
}

/// The highest killstreak recorded in a killstreak map.
pub fn highest_killstreak(killstreaks: &StringMap<u32>) -> (r: u32)
    ensures
        r == highest_killstreak_of(killstreaks.view()),
{
    let ghost s = killstreaks.view();
    let n = killstreaks.len();
    let mut best: Option<u32> = None;
    let mut i: usize = 0;
    while i < n
        invariant
            i <= n,
            n == s.len(),
            s == killstreaks.view(),
            best == max_killstreak_key(s.subrange(0, i as int)),
        decreases n - i,
    {
        let k = match parse_u32(killstreaks.key_at(i).as_str()) {
            Some(v) => v,
            None => 0,
        };
        assert(s.subrange(0, i + 1).drop_last() =~= s.subrange(0, i as int));
        best = match best {
            None => Some(k),
            Some(m) => Some(if m >= k { m } else { k }),
        };
        i = i + 1;
    }
    assert(s.subrange(0, n as int) =~= s);
    let key = match best {
        Some(m) => m,
        None => 100,
    };
    match killstreaks.get(&decimal_string(key)) {
        Some(v) => v,
        None => 0,
    }
}

impl PlayerStats {
    /// The level that the linear curve gives: `floor((xp + 5000) / 5000)`.
    pub fn get_linear_level(&self) -> (r: u32)
        ensures
            r == linear_level_of(self.xp),
    {
        self.xp / 5000 + 1
    }

    /// The score of type `score_type`.
    pub fn get_score(&self, score_type: &ScoreType) -> (r: u32)
        ensures
            r == score_of(*self, *score_type),
    {
        match score_type {
            ScoreType::Kills => self.kills,
            ScoreType::Deaths => self.deaths,
            ScoreType::FirstBloods => self.first_bloods,
            ScoreType::Wins => self.wins,
            ScoreType::Losses => self.losses,
            ScoreType::Ties => self.ties,
            ScoreType::Xp => self.xp,
            ScoreType::MessagesSent => self.messages.total(),
            ScoreType::MatchesPlayed => self.matches,
            ScoreType::ServerPlaytime => narrow_signed(self.server_playtime),
            ScoreType::GamePlaytime => narrow_unsigned(self.game_playtime),
            ScoreType::CoreLeaks => self.objectives.core_leaks,
            ScoreType::CoreBlockDestroys => self.objectives.core_block_destroys,
            ScoreType::DestroyableDestroys => self.objectives.destroyable_destroys,
            ScoreType::DestroyableBlockDestroys => self.objectives.destroyable_block_destroys,
            ScoreType::FlagCaptures => self.objectives.flag_captures,
            ScoreType::FlagDrops => self.objectives.flag_drops,
            ScoreType::FlagPickups => self.objectives.flag_pickups,
            ScoreType::FlagDefends => self.objectives.flag_defends,
            ScoreType::FlagHoldTime => narrow_unsigned(self.objectives.total_flag_hold_time),
            ScoreType::WoolCaptures => self.objectives.wool_captures,
            ScoreType::WoolDrops => self.objectives.wool_drops,
            ScoreType::WoolPickups => self.objectives.wool_pickups,
            ScoreType::WoolDefends => self.objectives.wool_defends,
            ScoreType::ControlPointCaptures => self.objectives.control_point_captures,
            ScoreType::HighestKillstreak => highest_killstreak(&self.killstreaks),
        }
    }
}

impl Default for PlayerStats {
    fn default() -> (r: Self)
        ensures
            r.xp == 0 && r.server_playtime == 0 && r.game_playtime == 0,
            r.kills == 0 && r.deaths == 0 && r.void_kills == 0 && r.void_deaths == 0,
            r.first_bloods == 0 && r.first_bloods_suffered == 0,
            r.objectives.is_zero(),
            r.bow_shots_taken == 0 && r.bow_shots_hit == 0,
            r.blocks_placed.view().len() == 0 && r.blocks_broken.view().len() == 0,
            r.damage_taken == 0 && r.damage_given == 0 && r.damage_given_bow == 0,
            r.messages.staff == 0 && r.messages.global == 0 && r.messages.team == 0,
            r.wins == 0 && r.losses == 0 && r.ties == 0,
            r.matches == 0 && r.matches_present_start == 0,
            r.matches_present_full == 0 && r.matches_present_end == 0,
            r.records.is_empty(),
            r.weapon_kills.view().len() == 0 && r.weapon_deaths.view().len() == 0,
            r.killstreaks.view().len() == 0 && r.killstreaks_ended.view().len() == 0,
            r.achievements.view().len() == 0,
    {
        PlayerStats {
            xp: 0,
            server_playtime: 0,
            game_playtime: 0,
            kills: 0,
            deaths: 0,
            void_kills: 0,
            void_deaths: 0,
            first_bloods: 0,
            first_bloods_suffered: 0,
            objectives: PlayerObjectiveStatistics::default(),
            bow_shots_taken: 0,
            bow_shots_hit: 0,
            blocks_placed: StringMap::new(),
            blocks_broken: StringMap::new(),
            damage_taken: 0,
            damage_given: 0,
            damage_given_bow: 0,
            messages: PlayerMessages::default(),
            wins: 0,
            losses: 0,
            ties: 0,
            matches: 0,
            matches_present_start: 0,
            matches_present_full: 0,
            matches_present_end: 0,
            records: PlayerRecords::default(),
            weapon_kills: StringMap::new(),
            weapon_deaths: StringMap::new(),
            killstreaks: StringMap::new(),
            killstreaks_ended: StringMap::new(),
            achievements: StringMap::new(),
        }
    }
}

} // verus!
