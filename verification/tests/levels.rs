use experienced::libmee6;
use experienced::mee6::{xp_needed_for_level, LevelInfo};
use experienced::mee6_xp_to_level::Level;

#[test]
fn lib_level() {
    let inf = LevelInfo::new(3255);
    assert_eq!(inf.level(), 8);
}

#[test]
fn lib_xp() {
    let inf = LevelInfo::new(3255);
    assert_eq!(inf.xp(), 3255);
}

#[test]
fn level() {
    let inf = libmee6::LevelInfo::new(3255);
    assert_eq!(inf.level(), 8);
}

#[test]
fn xp() {
    let inf = libmee6::LevelInfo::new(3255);
    assert_eq!(inf.xp(), 3255);
}

#[test]
fn percentage() {
    let inf = libmee6::LevelInfo::new(3255);
    assert_eq!(inf.percentage(), 77);
}

#[test]
fn xp_needed_exact_values() {
    assert_eq!(xp_needed_for_level(0), 0);
    assert_eq!(xp_needed_for_level(1), 100);
    assert_eq!(xp_needed_for_level(7), 2205);
    assert_eq!(xp_needed_for_level(8), 2900);
    assert_eq!(xp_needed_for_level(9), 3720);
    assert_eq!(xp_needed_for_level(100), 1_899_250);
}

#[test]
fn xp_needed_saturates() {
    assert_eq!(xp_needed_for_level(u64::MAX), u64::MAX);
    assert_eq!(xp_needed_for_level(10_000_000), u64::MAX);
}

#[test]
fn xp_needed_strictly_increases() {
    let mut last = xp_needed_for_level(0);
    for level in 1..2000 {
        let next = xp_needed_for_level(level);
        assert!(next > last);
        last = next;
    }
}

#[test]
fn level_boundaries() {
    assert_eq!(LevelInfo::new(0).level(), 0);
    assert_eq!(LevelInfo::new(99).level(), 0);
    assert_eq!(LevelInfo::new(100).level(), 1);
    assert_eq!(LevelInfo::new(2899).level(), 7);
    assert_eq!(LevelInfo::new(2900).level(), 8);
}

#[test]
fn libmee6_negative_xp() {
    let inf = libmee6::LevelInfo::new(-5);
    assert_eq!(inf.level(), -1);
    assert_eq!(inf.percentage(), 0);
    assert_eq!(inf.xp(), -5);
}

#[test]
fn progress_summary() {
    let level = Level::new(3255);
    assert_eq!(level.level, 8);
    assert_eq!(level.xp, 3255);
    assert_eq!(level.needed, 3720);
    assert_eq!(level.percentage, 43);
    let start = Level::new(2900);
    assert_eq!(start.percentage, 0);
    let half = Level::new(3310);
    assert_eq!(half.percentage, 50);
}
