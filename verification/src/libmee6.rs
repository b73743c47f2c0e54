//! Level arithmetic over signed XP counts, with a level percentage.
use vstd::prelude::*;
use crate::mee6::{spec_xp_needed, spec_xp_needed_u64, xp_needed_for_level, is_level_of};

verus! {

/// The level reached with `xp` points; negative XP counts as level `-1`.
pub open spec fn spec_signed_level_ok(xp: int, level: int) -> bool {
    if xp < 0 {
        level == -1
    } else {
        level >= 0 && is_level_of(xp as nat, level as nat)
    }
}

/// The requirement of `level` as a share of the requirement of the next level,
/// in whole percent (rounded down); `0` below level `0`.
pub open spec fn spec_percentage(level: int) -> int {
    if level < 0 {
        0
    } else {
        (100 * spec_xp_needed(level as nat) / spec_xp_needed((level + 1) as nat)) as int
    }
}

pub struct LevelInfo {
    xp: i64,
    level: i64,
    percentage: u8,
}

impl LevelInfo {
    pub closed spec fn spec_xp(&self) -> i64 {
        self.xp
    }

    pub closed spec fn spec_level(&self) -> i64 {
        self.level
    }

    pub closed spec fn spec_percentage(&self) -> u8 {
        self.percentage
    }

    pub fn new(xp: i64) -> (info: Self)
        ensures
            info.spec_xp() == xp,
            spec_signed_level_ok(xp as int, info.spec_level() as int),
            info.spec_percentage() as int == spec_percentage(info.spec_level() as int),
    {
        if xp < 0 {
            return LevelInfo { xp, level: -1, percentage: 0 };
        }
        let level = crate::mee6::LevelInfo::new(xp as u64).level();
        let last = xp_needed_for_level(level);
        let next = xp_needed_for_level(level + 1);
        proof {
            let big: nat = 2097152;
            assert(2 * big * big + 27 * big + 91 == 8796149645403nat) by (nonlinear_arith)
                requires
                    big == 2097152,
            ;
            assert(5 * big * 8796149645403nat == 92234314105780961280nat) by (nonlinear_arith)
                requires
                    big == 2097152,
            ;
            assert(spec_xp_needed(big) == 15372385684296826880nat);
            assert(spec_xp_needed(big) > i64::MAX as nat);
            assert(spec_xp_needed(big) < u64::MAX as nat);
            if level as nat >= big {
                if level as nat > big {
                    crate::mee6::lemma_xp_needed_increasing(big, level as nat);
                }
                assert(false);
            }
            if ((level + 1) as nat) < big {
                crate::mee6::lemma_xp_needed_increasing((level + 1) as nat, big);
            }
            crate::mee6::lemma_xp_needed_increasing(level as nat, (level + 1) as nat);
        }
        let ratio: u128 = (100 * (last as u128)) / (next as u128);
        assert(ratio < 100) by (nonlinear_arith)
            requires
                ratio as int == (100 * last as int) / (next as int),
                last < next,
        ;
        LevelInfo { xp, level: level as i64, percentage: ratio as u8 }
    }

    pub fn xp(&self) -> (r: i64)
        ensures
            r == self.spec_xp(),
    {
        self.xp
    }

    pub fn level(&self) -> (r: i64)
        ensures
            r == self.spec_level(),
    {
        self.level
    }

    pub fn percentage(&self) -> (r: u8)
        ensures
            r == self.spec_percentage(),
    {
        self.percentage
    }
}

} // verus!
