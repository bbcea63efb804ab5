//! Experience awards: multipliers, the choice between the multiplied and the
//! curve-adjusted gain, and the event that reports the award.
use vstd::prelude::*;

use crate::player::Player;
use crate::stats::PlayerStats;

verus! {

/// Multipliers are held in thousandths: 1000 stands for a factor of one.
pub const MULTIPLIER_ONE: u32 = 1000;

/// The multiplier in force: the event's one, or a factor of one without it.
pub open spec fn effective_multiplier(multiplier: Option<u32>) -> u32 {
    match multiplier {
        Some(m) => m,
        None => MULTIPLIER_ONE,
    }
}

/// `raw_xp` times `multiplier / 1000`, rounded to the nearest integer (halves
/// up); when that does not fit in `u32` the raw amount is kept.
pub open spec fn multiplied_xp(raw_xp: u32, multiplier: u32) -> u32 {
    let p = (raw_xp * multiplier + 500) / 1000;
    if p > u32::MAX {
        raw_xp
    } else {
        p as u32
    }
}

/// The amount awarded: the multiplied amount alone when `raw_only`, else the
/// larger of it and the curve-adjusted gain.
pub open spec fn xp_award(raw_xp: u32, multiplier: u32, curve_gain: u32, raw_only: bool) -> u32 {
    let m = multiplied_xp(raw_xp, multiplier);
    if raw_only || m >= curve_gain {
        m
    } else {
        curve_gain
    }
}

/// Experience after a gain, saturating at `u32::MAX`.
pub open spec fn xp_after(xp: u32, gain: u32) -> u32 {
    if xp + gain > u32::MAX {
        u32::MAX
    } else {
        (xp + gain) as u32
    }
}

/// The progression event reported for an award of experience.
#[derive(Debug, Clone)]
pub struct PlayerXPGainData {
    pub player_id: String,
    pub gain: u32,
    pub reason: String,
    pub notify: bool,
    /// The multiplier (in thousandths) when the multiplied amount was awarded.
    pub multiplier: Option<u32>,
}

/// Multiplies an amount of experience (see `multiplied_xp`).
pub fn multiply_xp(raw_xp: u32, multiplier: u32) -> (r: u32)
    ensures
        r == multiplied_xp(raw_xp, multiplier),
{
    assert(raw_xp as u64 * multiplier as u64 <= 0xffff_ffff * 0xffff_ffff) by (nonlinear_arith)
        requires
            raw_xp <= 0xffff_ffffu32,
            multiplier <= 0xffff_ffffu32,
    ;
    let p: u64 = (raw_xp as u64 * multiplier as u64 + 500) / 1000;
    if p > 0xffff_ffff {
        raw_xp
    } else {
        p as u32
    }
}

/// The gain that the default level curve gives: the raw amount, whatever the
/// level.
pub fn default_curve_gain(raw_xp: u32, level: u32) -> (r: u32)
    ensures
        r == raw_xp,
{
    raw_xp
}

impl Player {
    /// Awards experience for `reason`. `multiplier` is the event multiplier
    /// in thousandths, if one is active; `curve_gain` is what the level curve
    /// gives for `raw_xp` at the player's level before the gain. Returns the
    /// event to dispatch; the leaderboard entry under `id_name` grows by its
    /// `gain`.
    pub fn add_xp(
        &mut self,
        raw_xp: u32,
        multiplier: Option<u32>,
        curve_gain: u32,
        reason: &String,
        notify: bool,
        raw_only: bool,
    ) -> (r: PlayerXPGainData)
        ensures
            r.gain == xp_award(raw_xp, effective_multiplier(multiplier), curve_gain, raw_only),
            raw_only ==> r.gain == multiplied_xp(raw_xp, effective_multiplier(multiplier)),
            r.multiplier == (if r.gain == multiplied_xp(raw_xp, effective_multiplier(multiplier)) {
                Some(effective_multiplier(multiplier))
            } else {
                None
            }),
            !raw_only && curve_gain > multiplied_xp(raw_xp, effective_multiplier(multiplier))
                ==> r.multiplier is None,
            r.player_id == old(self).id,
            r.reason == *reason,
            r.notify == notify,
            *final(self) == (Player {
                stats: (PlayerStats { xp: xp_after(old(self).stats.xp, r.gain), ..old(self).stats }),
                ..*old(self)
            }),
    {
        let m: u32 = match multiplier {
            Some(m) => m,
            None => MULTIPLIER_ONE,
        };
        let multiplied = multiply_xp(raw_xp, m);
        let gain = if raw_only || multiplied >= curve_gain {
            multiplied
        } else {
            curve_gain
        };
        self.stats.xp = self.stats.xp.saturating_add(gain);
        let used_multiplier = gain == multiplied;
        PlayerXPGainData {
            player_id: self.id.clone(),
            gain,
            reason: reason.clone(),
            notify,
            multiplier: if used_multiplier {
                Some(m)
            } else {
                None
            },
        }
    }
}

} // verus!
