//! A summary of a user's progress: level, XP, next requirement and percentage.
use vstd::prelude::*;
use crate::mee6::{spec_xp_needed, spec_xp_needed_u64, xp_needed_for_level, is_level_of};

verus! {

/// Whole percent (rounded half up) of the way from the requirement of `level`
/// to the requirement of the next level (requirements saturated to `u64`).
pub open spec fn spec_progress_percent(xp: nat, level: nat) -> int {
    let done = xp - spec_xp_needed_u64(level);
    let span = spec_xp_needed_u64(level + 1) - spec_xp_needed_u64(level);
    (200 * done + span) / (2 * span)
}

pub struct Level {
    pub level: u64,
    pub xp: u64,
    pub needed: u64,
    pub percentage: u8,
}

impl Level {
    /// Summarises `xp`: its level, the XP needed for the next level, and how far
    /// (in percent) `xp` has come from this level's requirement towards it.
    pub fn new(xp: u64) -> (r: Self)
        requires
            xp < u64::MAX,
        ensures
            r.xp == xp,
            is_level_of(xp as nat, r.level as nat),
            r.needed == spec_xp_needed_u64(r.level as nat + 1),
            r.percentage as int == spec_progress_percent(xp as nat, r.level as nat),
    {
        let level = crate::mee6::LevelInfo::new(xp).level();
        let last = xp_needed_for_level(level);
        let next = xp_needed_for_level(level + 1);
        proof {
            crate::mee6::lemma_xp_needed_increasing(level as nat, (level + 1) as nat);
        }
        let done: u128 = (xp - last) as u128;
        let span: u128 = (next - last) as u128;
        let percentage: u128 = (200 * done + span) / (2 * span);
        assert(percentage <= 100) by (nonlinear_arith)
            requires
                percentage as int == (200 * done as int + span as int) / (2 * span as int),
                done < span,
        ;
        Level { level, xp, needed: next, percentage: percentage as u8 }
    }
}

} // verus!
