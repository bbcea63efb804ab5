use mars_api::decimal::{decimal_string, parse_u32};
use mars_api::identity::{
    dedup_players, ensure_player_name_uniqueness, merge_alts, normalize_name, placeholder_name,
    rename_name_holders,
};
use mars_api::persistence::{
    consume_cursor_into_owning_vec, consume_cursor_into_owning_vec_option, get_object_id_from_str,
};
use mars_api::player::{Player, SimplePlayer};
use mars_api::punishment::{active_punishments, Punishment};
use mars_api::progression::{default_curve_gain, multiply_xp};
use mars_api::stats::{highest_killstreak, PlayerMessages, PlayerStats, ScoreType};
use mars_api::string_map::StringMap;

fn player(id: &str, name: &str) -> Player {
    Player {
        id: id.to_string(),
        name: name.to_string(),
        name_lower: name.to_lowercase(),
        last_session_id: Some("session".to_string()),
        first_joined_at: 1,
        last_joined_at: 2,
        ips: vec!["10.0.0.1".to_string()],
        notes: Vec::new(),
        rank_ids: Vec::new(),
        tag_ids: Vec::new(),
        active_tag_id: None,
        stats: PlayerStats::default(),
        gamemode_stats: Vec::new(),
        active_join_sound_id: None,
    }
}

fn ids(players: &[Player]) -> Vec<String> {
    players.iter().map(|p| p.id.clone()).collect()
}

fn killstreaks(entries: &[(&str, u32)]) -> StringMap<u32> {
    let mut m = StringMap::new();
    for (k, v) in entries {
        m.insert(k.to_string(), *v);
    }
    m
}

#[test]
fn linear_level_at_boundaries() {
    let mut s = PlayerStats::default();
    for (xp, level) in [(0u32, 1u32), (4999, 1), (5000, 2), (1_000_000, 201), (u32::MAX, 858994)] {
        s.xp = xp;
        assert_eq!(s.get_linear_level(), level);
    }
}

#[test]
fn highest_killstreak_takes_the_largest_key() {
    assert_eq!(highest_killstreak(&killstreaks(&[("5", 2), ("10", 7)])), 7);
}

#[test]
fn highest_killstreak_of_empty_map_is_zero() {
    assert_eq!(highest_killstreak(&killstreaks(&[])), 0);
    assert_eq!(highest_killstreak(&killstreaks(&[("100", 4)])), 4);
}

#[test]
fn highest_killstreak_reads_the_canonical_key() {
    // "07" counts as 7, but the count is read under "7", which is absent.
    assert_eq!(highest_killstreak(&killstreaks(&[("07", 9), ("3", 1)])), 0);
    // keys that are no number count as 0
    assert_eq!(highest_killstreak(&killstreaks(&[("many", 9), ("0", 5)])), 5);
    assert_eq!(highest_killstreak(&killstreaks(&[("+12", 3), ("12", 8)])), 8);
}

#[test]
fn score_extraction() {
    let mut s = PlayerStats::default();
    s.kills = 11;
    s.deaths = 4;
    s.xp = 900;
    s.objectives.flag_captures = 3;
    s.messages = PlayerMessages { staff: 1, global: 2, team: 3 };
    s.killstreaks = killstreaks(&[("5", 2), ("10", 7)]);
    assert_eq!(s.get_score(&ScoreType::Kills), 11);
    assert_eq!(s.get_score(&ScoreType::Deaths), 4);
    assert_eq!(s.get_score(&ScoreType::Xp), 900);
    assert_eq!(s.get_score(&ScoreType::FlagCaptures), 3);
    assert_eq!(s.get_score(&ScoreType::MessagesSent), 6);
    assert_eq!(s.get_score(&ScoreType::HighestKillstreak), 7);
    assert_eq!(s.get_score(&ScoreType::Wins), 0);
}

#[test]
fn score_extraction_is_repeatable() {
    let mut s = PlayerStats::default();
    s.wins = 5;
    s.killstreaks = killstreaks(&[("3", 1), ("8", 2)]);
    for t in [ScoreType::Wins, ScoreType::HighestKillstreak, ScoreType::ServerPlaytime] {
        assert_eq!(s.get_score(&t), s.get_score(&t));
    }
}

#[test]
fn playtime_saturates() {
    let mut s = PlayerStats::default();
    s.server_playtime = 5_000_000_000;
    s.game_playtime = 5_000_000_000;
    s.objectives.total_flag_hold_time = 77;
    assert_eq!(s.get_score(&ScoreType::ServerPlaytime), u32::MAX);
    assert_eq!(s.get_score(&ScoreType::GamePlaytime), u32::MAX);
    assert_eq!(s.get_score(&ScoreType::FlagHoldTime), 77);
    s.server_playtime = -1;
    assert_eq!(s.get_score(&ScoreType::ServerPlaytime), u32::MAX);
    s.server_playtime = 123;
    assert_eq!(s.get_score(&ScoreType::ServerPlaytime), 123);
}

#[test]
fn message_total_saturates() {
    let m = PlayerMessages { staff: u32::MAX, global: 1, team: 1 };
    assert_eq!(m.total(), u32::MAX);
    let m = PlayerMessages { staff: 1, global: 2, team: 4 };
    assert_eq!(m.total(), 7);
}

#[test]
fn parse_u32_follows_std() {
    for s in ["0", "5", "+5", "05", "4294967295", "", "+", "-1", "4294967296", "1a", " 1", "٣"] {
        assert_eq!(parse_u32(s), s.parse::<u32>().ok(), "{}", s);
    }
}

#[test]
fn decimal_string_is_canonical() {
    assert_eq!(decimal_string(0), "0");
    assert_eq!(decimal_string(100), "100");
    assert_eq!(decimal_string(u32::MAX), "4294967295");
}

#[test]
fn string_map_replaces_values() {
    let mut m = StringMap::new();
    m.insert("a".to_string(), 1u32);
    m.insert("b".to_string(), 2);
    m.insert("a".to_string(), 3);
    assert_eq!(m.len(), 2);
    assert_eq!(m.get(&"a".to_string()), Some(3));
    assert_eq!(m.get(&"b".to_string()), Some(2));
    assert_eq!(m.get(&"c".to_string()), None);
    assert_eq!(m.key_at(1), "b");
    assert_eq!(m.value_at(0), 3);
}

#[test]
fn raw_only_award_is_the_rounded_product() {
    let mut p = player("p1", "Steve");
    p.stats.xp = 100;
    let reason = "kill".to_string();
    let e = p.add_xp(7, Some(1500), 50, &reason, true, true);
    assert_eq!(e.gain, 11);
    assert_eq!(e.multiplier, Some(1500));
    assert_eq!(e.player_id, "p1");
    assert_eq!(e.reason, "kill");
    assert!(e.notify);
    assert_eq!(p.stats.xp, 111);
}

#[test]
fn curve_gain_wins_without_multiplier_in_event() {
    let mut p = player("p1", "Steve");
    let reason = "win".to_string();
    let e = p.add_xp(10, Some(2000), 30, &reason, false, false);
    assert_eq!(e.gain, 30);
    assert_eq!(e.multiplier, None);
    assert_eq!(p.stats.xp, 30);
    let e = p.add_xp(10, Some(2000), 15, &reason, false, false);
    assert_eq!(e.gain, 20);
    assert_eq!(e.multiplier, Some(2000));
    assert_eq!(p.stats.xp, 50);
}

#[test]
fn no_event_multiplier_counts_as_one() {
    let mut p = player("p1", "Steve");
    let reason = "x".to_string();
    let e = p.add_xp(42, None, default_curve_gain(42, 3), &reason, false, false);
    assert_eq!(e.gain, 42);
    assert_eq!(e.multiplier, Some(1000));
    p.stats.xp = u32::MAX - 1;
    let e = p.add_xp(42, None, 0, &reason, false, true);
    assert_eq!(e.gain, 42);
    assert_eq!(p.stats.xp, u32::MAX);
}

#[test]
fn multiplied_xp_rounds_and_falls_back() {
    assert_eq!(multiply_xp(3, 1500), 5);
    assert_eq!(multiply_xp(3, 1400), 4);
    assert_eq!(multiply_xp(u32::MAX, 2000), u32::MAX);
    assert_eq!(multiply_xp(u32::MAX, 3000), u32::MAX);
    assert_eq!(multiply_xp(4_000_000_000, 1500), 4_000_000_000);
}

#[test]
fn alts_are_deduplicated_in_first_seen_order() {
    let first = vec![player("A", "a"), player("B", "b")];
    let second = vec![player("B", "b2"), player("C", "c")];
    let r = merge_alts(vec![first, second]);
    assert_eq!(ids(&r), vec!["A", "B", "C"]);
    assert_eq!(r[1].name, "b");
}

#[test]
fn dedup_keeps_first_record() {
    let r = dedup_players(vec![player("X", "one"), player("Y", "y"), player("X", "two")]);
    assert_eq!(ids(&r), vec!["X", "Y"]);
    assert_eq!(r[0].name, "one");
    assert!(merge_alts(Vec::new()).is_empty());
}

#[test]
fn name_holders_are_renamed_except_the_keeper() {
    let mut ps = vec![player("keep", "Steve"), player("other", "steve"), player("third", "Alex")];
    rename_name_holders(&mut ps, &"steve".to_string(), &"keep".to_string(), &">WZPlayer7".to_string());
    assert_eq!(ps[0].name, "Steve");
    assert_eq!(ps[1].name, ">WZPlayer7");
    assert_eq!(ps[1].name_lower, ">WZPlayer7");
    assert_eq!(ps[2].name, "Alex");
}

#[test]
fn uniqueness_sweep_uses_placeholder() {
    let mut ps = vec![player("keep", "Steve"), player("other", "STEVE"), player("third", "Alex")];
    ensure_player_name_uniqueness(&mut ps, &"StEvE".to_string(), &"keep".to_string());
    assert_eq!(ps[0].name, "Steve");
    let n: u32 = ps[1].name.strip_prefix(">WZPlayer").unwrap().parse().unwrap();
    assert!(n <= 1000);
    assert_eq!(ps[1].name_lower, ps[1].name);
    assert_eq!(ps[2].name, "Alex");
}

#[test]
fn placeholder_names() {
    assert_eq!(placeholder_name(0), ">WZPlayer0");
    assert_eq!(placeholder_name(1000), ">WZPlayer1000");
    assert_eq!(normalize_name("StEvE"), "steve");
}

#[test]
fn cursor_results_drop_failures() {
    let r: Vec<u32> = consume_cursor_into_owning_vec(vec![Ok(1), Err("bad"), Ok(3)]);
    assert_eq!(r, vec![1, 3]);
    let r: Vec<u32> = consume_cursor_into_owning_vec_option::<u32, String>(None);
    assert!(r.is_empty());
}

#[test]
fn object_ids_are_read_from_hex() {
    let id = get_object_id_from_str("507f1f77bcf86cd799439011").unwrap();
    assert_eq!(id.to_hex(), "507f1f77bcf86cd799439011");
    assert!(get_object_id_from_str("507F1F77BCF86CD799439011").is_some());
    assert!(get_object_id_from_str("507f1f77bcf86cd79943901").is_none());
    assert!(get_object_id_from_str("507f1f77bcf86cd79943901g").is_none());
    assert!(get_object_id_from_str("").is_none());
}

#[test]
fn player_projections() {
    let p = player("abc", "Steve");
    let s = p.to_simple();
    assert_eq!(s.id, "abc");
    assert_eq!(s.name, "Steve");
    assert_eq!(p.id_name(), "abc/Steve");
    assert_eq!(s.get_mini_icon_url(), "https://crafatar.com/avatars/abc?helm&size=50");
    assert_eq!(Player::get_collection_name(), "player");
    let _ = SimplePlayer { name: String::new(), id: String::new() };
}

#[test]
fn sanitized_copy_hides_private_fields() {
    let mut p = player("abc", "Steve");
    p.rank_ids = vec!["admin".to_string()];
    p.active_tag_id = Some("tag".to_string());
    p.stats.kills = 9;
    p.stats.killstreaks = killstreaks(&[("4", 1)]);
    let mut g = PlayerStats::default();
    g.wins = 2;
    p.gamemode_stats = vec![(mars_api::player::LevelGamemode::Arcade, g)];
    let c = p.sanitized_copy();
    assert!(c.ips.is_empty());
    assert!(c.notes.is_empty());
    assert_eq!(c.last_session_id, None);
    assert_eq!(c.id, "abc");
    assert_eq!(c.name, "Steve");
    assert_eq!(c.rank_ids, vec!["admin".to_string()]);
    assert_eq!(c.active_tag_id, Some("tag".to_string()));
    assert_eq!(c.stats.kills, 9);
    assert_eq!(c.stats.killstreaks.get(&"4".to_string()), Some(1));
    assert_eq!(c.gamemode_stats.len(), 1);
    assert_eq!(c.gamemode_stats[0].1.wins, 2);
    assert_eq!(p.ips.len(), 1);
}

#[test]
fn default_stats_are_zero() {
    let s = PlayerStats::default();
    assert_eq!(s.xp, 0);
    assert_eq!(s.kills, 0);
    assert_eq!(s.objectives.total_flag_hold_time, 0);
    assert_eq!(s.messages.total(), 0);
    assert_eq!(s.killstreaks.len(), 0);
    assert!(s.records.longest_session.is_none());
    assert_eq!(s.get_score(&ScoreType::HighestKillstreak), 0);
    assert_eq!(s.get_linear_level(), 1);
}

fn punishment(id: &str, issued_at: u64, expires_at: Option<u64>, reverted: bool) -> Punishment {
    Punishment {
        id: id.to_string(),
        target: SimplePlayer { name: "Steve".to_string(), id: "p1".to_string() },
        issued_at,
        expires_at,
        reverted,
    }
}

#[test]
fn punishment_activity() {
    assert!(punishment("a", 10, None, false).is_active(10));
    assert!(punishment("a", 10, Some(20), false).is_active(19));
    assert!(!punishment("a", 10, Some(20), false).is_active(20));
    assert!(!punishment("a", 10, None, false).is_active(9));
    assert!(!punishment("a", 10, None, true).is_active(15));
}

#[test]
fn active_punishments_sorted_by_issue_time() {
    let ps = vec![
        punishment("late", 50, None, false),
        punishment("expired", 5, Some(8), false),
        punishment("early", 10, Some(100), false),
        punishment("reverted", 1, None, true),
        punishment("tie", 50, Some(200), false),
        punishment("future", 90, None, false),
    ];
    let r = active_punishments(ps, 60);
    let ids: Vec<&str> = r.iter().map(|p| p.id.as_str()).collect();
    assert_eq!(ids, vec!["early", "late", "tie"]);
    assert!(active_punishments(Vec::new(), 60).is_empty());
}
