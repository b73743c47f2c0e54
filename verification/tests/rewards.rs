use experienced::common::{GuildConfig, RoleReward};
use experienced::rewards::{get_reward_idx, get_role_changes};

fn conf_one_at_time() -> GuildConfig {
    GuildConfig { one_at_a_time: Some(true), ..Default::default() }
}

fn test_rewards() -> [RoleReward; 3] {
    [
        RoleReward { id: 1, requirement: 2 },
        RoleReward { id: 2, requirement: 4 },
        RoleReward { id: 3, requirement: 10 },
    ]
}

#[test]
fn no_changes() {
    let rewards = [RoleReward { id: 1, requirement: 2 }];
    let reward_idx = get_reward_idx(&rewards, 2).unwrap();
    let member = [1u64];
    let changes = get_role_changes(&conf_one_at_time(), &member, &rewards, reward_idx);
    assert_eq!(changes.changed_roles, Vec::<u64>::new());
    assert_eq!(changes.total_roles, [1]);
}

#[test]
fn minecraft_discord() {
    let rewards = [RoleReward { id: 1, requirement: 5 }];
    let reward_idx = get_reward_idx(&rewards, 5).unwrap();
    let member: [u64; 0] = [];
    let changes = get_role_changes(&conf_one_at_time(), &member, &rewards, reward_idx);
    assert_eq!(changes.changed_roles, [1]);
    assert_eq!(changes.total_roles, [1]);
}

#[test]
fn add_one_role() {
    let rewards = [RoleReward { id: 1, requirement: 2 }, RoleReward { id: 2, requirement: 10 }];
    let reward_idx = get_reward_idx(&rewards, 4).unwrap();
    let member: [u64; 0] = [];
    let changes = get_role_changes(&conf_one_at_time(), &member, &rewards, reward_idx);
    assert_eq!(changes.changed_roles, vec![1]);
    assert_eq!(changes.total_roles, [1]);
}

#[test]
fn skip_roles() {
    let rewards = test_rewards();
    let reward_idx = get_reward_idx(&rewards, 10).unwrap();
    let member: [u64; 0] = [];
    let changes = get_role_changes(&conf_one_at_time(), &member, &rewards, reward_idx);
    assert_eq!(changes.changed_roles, [3]);
    assert_eq!(changes.total_roles, [3]);
}

#[test]
fn stop_on_role() {
    let rewards = test_rewards();
    let reward_idx = get_reward_idx(&rewards, 5).unwrap();
    let member = [1u64];
    let changes = get_role_changes(&conf_one_at_time(), &member, &rewards, reward_idx);
    assert_eq!(changes.changed_roles, [1, 2]);
    assert_eq!(changes.total_roles, [2]);
}

#[test]
fn conf_many_doesnt_nuke() {
    let rewards = test_rewards();
    let reward_idx = get_reward_idx(&rewards, 5).unwrap();
    let member = [1u64];
    let changes = get_role_changes(&GuildConfig::default(), &member, &rewards, reward_idx);
    assert_eq!(changes.changed_roles, [2]);
    assert_eq!(changes.total_roles, [1, 2]);
}

#[test]
fn conf_many_adds_many() {
    let rewards = test_rewards();
    let reward_idx = get_reward_idx(&rewards, 11).unwrap();
    let member: [u64; 0] = [];
    let changes = get_role_changes(&GuildConfig::default(), &member, &rewards, reward_idx);
    assert_eq!(changes.changed_roles, [1, 2, 3]);
    assert_eq!(changes.total_roles, [1, 2, 3]);
}

#[test]
fn leave_alone_higher_roles() {
    let rewards = test_rewards();
    let reward_idx = get_reward_idx(&rewards, 3).unwrap();
    let member = [3u64];
    let changes = get_role_changes(&GuildConfig::default(), &member, &rewards, reward_idx);
    assert_eq!(changes.changed_roles, [1]);
    assert_eq!(changes.total_roles, [3, 1]);
}

#[test]
fn no_reward_below_the_first_requirement() {
    assert_eq!(get_reward_idx(&test_rewards(), 1), None);
    assert_eq!(get_reward_idx(&[], 100), None);
}

#[test]
fn reward_index_is_the_last_of_the_met_run() {
    assert_eq!(get_reward_idx(&test_rewards(), 2), Some(0));
    assert_eq!(get_reward_idx(&test_rewards(), 9), Some(1));
    assert_eq!(get_reward_idx(&test_rewards(), i64::MAX), Some(2));
    // An unmet reward stops the run, even when a later one is met.
    let unsorted = [
        RoleReward { id: 1, requirement: 2 },
        RoleReward { id: 2, requirement: 50 },
        RoleReward { id: 3, requirement: 3 },
    ];
    assert_eq!(get_reward_idx(&unsorted, 10), Some(0));
}

#[test]
fn all_rewards_keep_every_member_role() {
    let rewards = test_rewards();
    let member = [7u64, 1, 9];
    let changes = get_role_changes(&GuildConfig::default(), &member, &rewards, 2);
    for role in member {
        assert!(changes.total_roles.contains(&role));
    }
    for role in &changes.changed_roles {
        assert!(!member.contains(role));
    }
    assert_eq!(changes.total_roles, [7, 1, 9, 2, 3]);
}

#[test]
fn one_at_a_time_drops_the_previous_reward_only() {
    let rewards = test_rewards();
    let member = [1u64, 2, 8];
    let changes = get_role_changes(&conf_one_at_time(), &member, &rewards, 2);
    assert_eq!(changes.total_roles, [1, 8, 3]);
    assert_eq!(changes.changed_roles, [2, 3]);
}

#[test]
fn rewards_sort_stably_by_requirement() {
    let mut rewards = vec![
        RoleReward { id: 1, requirement: 10 },
        RoleReward { id: 2, requirement: 2 },
        RoleReward { id: 3, requirement: 10 },
        RoleReward { id: 4, requirement: 5 },
        RoleReward { id: 5, requirement: -1 },
    ];
    experienced::rewards::sort_rewards(&mut rewards);
    let order: Vec<u64> = rewards.iter().map(|r| r.id).collect();
    assert_eq!(order, [5, 2, 4, 1, 3]);
    let mut empty: Vec<RoleReward> = Vec::new();
    experienced::rewards::sort_rewards(&mut empty);
    assert!(empty.is_empty());
}

#[test]
fn sorted_rewards_earn_everything_met() {
    let mut rewards = vec![
        RoleReward { id: 1, requirement: 50 },
        RoleReward { id: 2, requirement: 3 },
        RoleReward { id: 3, requirement: 2 },
    ];
    experienced::rewards::sort_rewards(&mut rewards);
    assert_eq!(get_reward_idx(&rewards, 10), Some(1));
}
