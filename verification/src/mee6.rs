//! Level arithmetic in the style of the MEE6 bot.
use vstd::prelude::*;

verus! {

/// The XP needed to reach `level`: `(5 / 6) * level * (2 * level^2 + 27 * level + 91)`.
/// The product `level * (2 * level^2 + 27 * level + 91)` is always divisible by 6,
/// so the quotient is exact.
pub open spec fn spec_xp_needed(level: nat) -> nat {
    5 * level * (2 * level * level + 27 * level + 91) / 6
}

/// `spec_xp_needed` saturated to the `u64` range.
pub open spec fn spec_xp_needed_u64(level: nat) -> u64 {
    if spec_xp_needed(level) > u64::MAX as nat {
        u64::MAX
    } else {
        spec_xp_needed(level) as u64
    }
}

proof fn lemma_xp_needed_large(level: nat)
    requires
        level >= 4194304,
    ensures
        spec_xp_needed(level) > u64::MAX as nat,
{
    let p = 5 * level * (2 * level * level + 27 * level + 91);
    assert(p >= 10 * level * level * level) by (nonlinear_arith)
        requires
            p == 5 * level * (2 * level * level + 27 * level + 91),
    ;
    assert(10 * level * level * level >= 10 * 4194304 * 4194304 * 4194304) by (nonlinear_arith)
        requires
            level >= 4194304,
    ;
    assert(p / 6 > u64::MAX as nat) by (nonlinear_arith)
        requires
            p >= 10 * 4194304 * 4194304 * 4194304,
    ;
}

/// XP needed to reach `level`, saturating at `u64::MAX`.
pub fn xp_needed_for_level(level: u64) -> (xp: u64)
    ensures
        xp == spec_xp_needed_u64(level as nat),
{
    if level >= 4194304 {
        proof {
            lemma_xp_needed_large(level as nat);
        }
        return u64::MAX;
    }
    let l = level as u128;
    assert(l * l <= 4194304u128 * 4194304) by (nonlinear_arith)
        requires
            l < 4194304,
    ;
    assert(2 * l * l * l <= 2 * 4194304u128 * 4194304 * 4194304) by (nonlinear_arith)
        requires
            l < 4194304,
    ;
    assert(2 * l * l + 27 * l + 91 <= 2 * 4194304u128 * 4194304 + 27 * 4194304 + 91)
        by (nonlinear_arith)
        requires
            l < 4194304,
    ;
    let inner: u128 = 2 * l * l + 27 * l + 91;
    assert(5 * l * inner <= 5 * 4194304u128 * (2 * 4194304u128 * 4194304 + 27 * 4194304 + 91))
        by (nonlinear_arith)
        requires
            l < 4194304,
            inner == 2 * l * l + 27 * l + 91,
    ;
    let total: u128 = 5 * l * inner / 6;
    if total > u64::MAX as u128 {
        u64::MAX
    } else {
        total as u64
    }
}

/// Each level needs strictly more XP than the one before it.
pub proof fn lemma_xp_needed_increasing(a: nat, b: nat)
    requires
        a < b,
    ensures
        spec_xp_needed(a) < spec_xp_needed(b),
{
    let pa = 5 * a * (2 * a * a + 27 * a + 91);
    let pb = 5 * b * (2 * b * b + 27 * b + 91);
    assert(pb >= pa + 6) by (nonlinear_arith)
        requires
            a < b,
            pa == 5 * a * (2 * a * a + 27 * a + 91),
            pb == 5 * b * (2 * b * b + 27 * b + 91),
    ;
    assert(pa / 6 < pb / 6) by (nonlinear_arith)
        requires
            pb >= pa + 6,
            pa >= 0,
    ;
}

/// `level` is the level reached with `xp` points: the last level whose requirement
/// `xp` meets.
pub open spec fn is_level_of(xp: nat, level: nat) -> bool {
    spec_xp_needed(level) <= xp < spec_xp_needed(level + 1)
}

/// Each amount of XP reaches one level, and more XP never reaches a lower one.
pub proof fn law_level_monotonic(x1: nat, l1: nat, x2: nat, l2: nat)
    requires
        is_level_of(x1, l1),
        is_level_of(x2, l2),
        x1 <= x2,
    ensures
        l1 <= l2,
        x1 == x2 ==> l1 == l2,
{
    if l1 > l2 {
        if l1 > l2 + 1 {
            lemma_xp_needed_increasing(l2 + 1, l1);
        }
    }
    if x1 == x2 && l2 > l1 {
        if l2 > l1 + 1 {
            lemma_xp_needed_increasing(l1 + 1, l2);
        }
    }
}

/// The level reached with a given amount of XP.
pub struct LevelInfo {
    xp: u64,
    level: u64,
}

impl LevelInfo {
    pub closed spec fn spec_xp(&self) -> u64 {
        self.xp
    }

    pub closed spec fn spec_level(&self) -> u64 {
        self.level
    }

    /// Computes the level for `xp` by walking up the level requirements.
    /// (`u64::MAX` XP would never leave the walk, since every requirement from
    /// some level on saturates to it.)
    pub fn new(xp: u64) -> (info: Self)
        requires
            xp < u64::MAX,
        ensures
            info.spec_xp() == xp,
            is_level_of(xp as nat, info.spec_level() as nat),
            info.spec_level() < 4194304,
    {
        let mut testxp: u64 = 0;
        let mut level: u64 = 0;
        while xp >= testxp
            invariant
                xp < u64::MAX,
                level <= 4194304,
                testxp == spec_xp_needed_u64(level as nat),
                forall|k: nat| k < level ==> #[trigger] spec_xp_needed(k) <= xp,
                level > 0 ==> testxp <= xp || spec_xp_needed(level as nat) > xp,
            decreases 4194304 - level,
        {
            if level >= 4194304 {
                proof {
                    lemma_xp_needed_large(level as nat);
                }
            }
            assert(spec_xp_needed(level as nat) <= xp);
            level = level + 1;
            testxp = xp_needed_for_level(level);
        }
        proof {
            assert(spec_xp_needed(0) == 0);
            assert(level > 0) by {
                if level == 0 {
                    assert(testxp == 0);
                }
            }
            assert(spec_xp_needed((level - 1) as nat) <= xp);
            if spec_xp_needed(level as nat) <= xp {
                assert(testxp == spec_xp_needed(level as nat));
            }
        }
        LevelInfo { xp, level: level - 1 }
    }

    /// The XP this level was computed from.
    pub fn xp(&self) -> (r: u64)
        ensures
            r == self.spec_xp(),
    {
        self.xp
    }

    /// The level reached.
    pub fn level(&self) -> (r: u64)
        ensures
            r == self.spec_level(),
    {
        self.level
    }
}

} // verus!
