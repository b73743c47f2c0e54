use experienced::common::{GuildConfig, RoleReward};
use experienced::database::OnCooldown;
use experienced::interpolation::Interpolation;
use experienced::listener::{
    message_step, IncomingMessage, ListenerError, MessageAction, MessageAuthor, MessageEvent,
    MessageState,
};
use experienced::simple_listener::{
    best_reward, cooldown_key, save_step, ChatMessage, SaveAction, SaveError, SaveEvent, SaveState,
};

fn message(is_bot: bool, guild_id: Option<u64>, member_roles: Option<Vec<u64>>) -> IncomingMessage {
    IncomingMessage {
        guild_id,
        channel_id: 10,
        message_id: 11,
        timestamp: 1000,
        author_is_bot: is_bot,
        author: MessageAuthor {
            id: 42,
            username: "ferris".to_string(),
            display_name: "Ferris".to_string(),
            nickname: None,
        },
        member_roles,
    }
}

fn only_done(actions: &[MessageAction]) -> Option<Result<(), ListenerError>> {
    match actions {
        [MessageAction::Done(r)] => Some(*r),
        _ => None,
    }
}

#[test]
fn bots_and_direct_messages_are_ignored() {
    let bot = message(true, Some(1), Some(vec![]));
    let (state, actions) = message_step(&bot, MessageState::Start, MessageEvent::Received);
    assert!(matches!(state, MessageState::Finished));
    assert_eq!(only_done(&actions), Some(Ok(())));
    let direct = message(false, None, None);
    let (_, actions) = message_step(&direct, MessageState::Start, MessageEvent::Received);
    assert_eq!(only_done(&actions), Some(Ok(())));
}

#[test]
fn guild_message_without_member_fails() {
    let msg = message(false, Some(1), None);
    let (_, actions) = message_step(&msg, MessageState::Start, MessageEvent::Received);
    assert_eq!(only_done(&actions), Some(Err(ListenerError::NoMember)));
}

#[test]
fn member_on_cooldown_earns_nothing() {
    let msg = message(false, Some(1), Some(vec![]));
    let (state, actions) = message_step(&msg, MessageState::Start, MessageEvent::Received);
    assert!(matches!(actions.as_slice(), [MessageAction::FetchConfig { guild_id: 1 }]));
    let (state, actions) =
        message_step(&msg, state, MessageEvent::ConfigLoaded(GuildConfig::default()));
    assert!(matches!(
        actions.as_slice(),
        [MessageAction::SetCooldown { guild_id: 1, user_id: 42, timestamp: 1000, cooldown: 60 }]
    ));
    let (state, actions) = message_step(&msg, state, MessageEvent::Cooldown(OnCooldown::Yes));
    assert!(matches!(state, MessageState::Finished));
    assert_eq!(only_done(&actions), Some(Ok(())));
}

#[test]
fn level_up_is_congratulated_and_rewarded() {
    let msg = message(false, Some(1), Some(vec![9]));
    let mut config = GuildConfig::default();
    config.min_xp_per_message = Some(20);
    config.max_xp_per_message = Some(20);
    config.cooldown = Some(5);
    config.level_up_message = Some(Interpolation::new("{user_display_name} is level {level}").unwrap());
    let (state, _) = message_step(&msg, MessageState::Start, MessageEvent::Received);
    let (state, actions) = message_step(&msg, state, MessageEvent::ConfigLoaded(config));
    assert!(matches!(actions.as_slice(), [MessageAction::SetCooldown { cooldown: 5, .. }]));
    let (state, actions) = message_step(&msg, state, MessageEvent::Cooldown(OnCooldown::No));
    assert!(matches!(
        actions.as_slice(),
        [MessageAction::AddXp { guild_id: 1, user_id: 42, amount: 20 }]
    ));
    let (state, actions) = message_step(&msg, state, MessageEvent::XpStored(100));
    assert!(matches!(actions.as_slice(), [MessageAction::FetchRewards { guild_id: 1 }]));
    let rewards = vec![RoleReward { id: 501, requirement: 5 }, RoleReward { id: 500, requirement: 1 }];
    let (state, actions) = message_step(&msg, state, MessageEvent::Rewards(rewards));
    assert!(matches!(actions.as_slice(), [MessageAction::CheckSendPermission { channel: 10 }]));
    let (state, actions) = message_step(&msg, state, MessageEvent::CanSend(true));
    match actions.as_slice() {
        [MessageAction::SendLevelUp(m), MessageAction::CheckRolePermission { guild_id: 1, changed_roles }] => {
            assert_eq!(m.content, "Ferris is level 1");
            assert_eq!(m.channel, 10);
            assert_eq!(m.reply_to, Some(11));
            assert!(m.ping);
            assert_eq!(changed_roles, &vec![500]);
        }
        other => panic!("unexpected actions {other:?}"),
    }
    let (state, actions) = message_step(&msg, state, MessageEvent::CanUpdateRoles(true));
    assert!(matches!(state, MessageState::Finished));
    match actions.as_slice() {
        [MessageAction::UpdateRoles { guild_id: 1, user_id: 42, roles }, MessageAction::Done(Ok(()))] => {
            assert_eq!(roles, &vec![9, 500]);
        }
        other => panic!("unexpected actions {other:?}"),
    }
}

#[test]
fn no_congratulation_without_new_level_and_no_roles_without_reward() {
    let msg = message(false, Some(1), Some(vec![]));
    let state = MessageState::AwaitXp { guild_id: 1, config: GuildConfig::default(), xp_added: 20 };
    let (state, _) = message_step(&msg, state, MessageEvent::XpStored(50));
    let (state, actions) = message_step(
        &msg,
        state,
        MessageEvent::Rewards(vec![RoleReward { id: 500, requirement: 3 }]),
    );
    assert!(matches!(state, MessageState::Finished));
    assert_eq!(only_done(&actions), Some(Ok(())));
}

#[test]
fn refused_permissions_skip_the_step() {
    let msg = message(false, Some(1), Some(vec![]));
    let mut config = GuildConfig::default();
    config.level_up_message = Some(Interpolation::new("gg").unwrap());
    let state = MessageState::AwaitXp { guild_id: 1, config, xp_added: 20 };
    let (state, _) = message_step(&msg, state, MessageEvent::XpStored(110));
    let (state, _) = message_step(
        &msg,
        state,
        MessageEvent::Rewards(vec![RoleReward { id: 500, requirement: 1 }]),
    );
    let (state, actions) = message_step(&msg, state, MessageEvent::CanSend(false));
    assert!(matches!(actions.as_slice(), [MessageAction::CheckRolePermission { .. }]));
    let (_, actions) = message_step(&msg, state, MessageEvent::CanUpdateRoles(false));
    assert_eq!(only_done(&actions), Some(Ok(())));
}

#[test]
fn unexpected_event_ends_the_handling() {
    let msg = message(false, Some(1), Some(vec![]));
    let (_, actions) = message_step(&msg, MessageState::Start, MessageEvent::CanSend(true));
    assert_eq!(only_done(&actions), Some(Err(ListenerError::OutOfOrder)));
    let (_, actions) = message_step(&msg, MessageState::Finished, MessageEvent::Received);
    assert_eq!(only_done(&actions), Some(Err(ListenerError::OutOfOrder)));
}

#[test]
fn cooldown_key_names_guild_and_member() {
    assert_eq!(cooldown_key(1, 7), "cooldown-1-7");
    assert_eq!(cooldown_key(123456789012345678, 0), "cooldown-123456789012345678-0");
}

#[test]
fn best_reward_is_the_highest_reached() {
    let rewards = [
        RoleReward { id: 1, requirement: 5 },
        RoleReward { id: 2, requirement: 10 },
        RoleReward { id: 3, requirement: 10 },
        RoleReward { id: 4, requirement: 2 },
    ];
    assert_eq!(best_reward(&rewards, 1), None);
    assert_eq!(best_reward(&rewards, 3), Some(4));
    assert_eq!(best_reward(&rewards, 9), Some(1));
    assert_eq!(best_reward(&rewards, 10), Some(2));
    assert_eq!(best_reward(&[], 10), None);
}

fn done_only(actions: &[SaveAction]) -> Option<Result<(), SaveError>> {
    match actions {
        [SaveAction::Done(r)] => Some(*r),
        _ => None,
    }
}

#[test]
fn first_listener_flow() {
    let msg = ChatMessage { guild_id: Some(1), author_id: 7, author_is_bot: false };
    let (state, actions) = save_step(&msg, SaveState::Start, SaveEvent::Received);
    match actions.as_slice() {
        [SaveAction::ReadCooldownKey(k)] => assert_eq!(k, "cooldown-1-7"),
        other => panic!("unexpected actions {other:?}"),
    }
    let (state, actions) = save_step(&msg, state, SaveEvent::CooldownKey(false));
    match actions.as_slice() {
        [SaveAction::AddXp { guild_id: 1, user_id: 7, amount }, SaveAction::SetCooldownKey { key, seconds: 60 }, SaveAction::ReadTotalXp { guild_id: 1, user_id: 7 }] =>
        {
            assert!((15..=25).contains(amount));
            assert_eq!(key, "cooldown-1-7");
        }
        other => panic!("unexpected actions {other:?}"),
    }
    let (state, actions) = save_step(&msg, state, SaveEvent::TotalXp(260));
    assert!(matches!(state, SaveState::AwaitRewards { guild_id: 1, level: 2 }));
    assert!(matches!(actions.as_slice(), [SaveAction::FetchRewards { guild_id: 1 }]));
    let rewards = vec![RoleReward { id: 10, requirement: 1 }, RoleReward { id: 11, requirement: 2 }];
    let (state, actions) = save_step(&msg, state, SaveEvent::Rewards(rewards));
    assert!(matches!(state, SaveState::Finished));
    assert!(matches!(
        actions.as_slice(),
        [SaveAction::AddRole { guild_id: 1, user_id: 7, role: 11 }, SaveAction::Done(Ok(()))]
    ));
}

#[test]
fn first_listener_skips() {
    let direct = ChatMessage { guild_id: None, author_id: 7, author_is_bot: false };
    let (_, actions) = save_step(&direct, SaveState::Start, SaveEvent::Received);
    assert_eq!(done_only(&actions), Some(Ok(())));
    let bot = ChatMessage { guild_id: Some(1), author_id: 7, author_is_bot: true };
    let (state, _) = save_step(&bot, SaveState::Start, SaveEvent::Received);
    let (_, actions) = save_step(&bot, state, SaveEvent::CooldownKey(false));
    assert_eq!(done_only(&actions), Some(Ok(())));
    let msg = ChatMessage { guild_id: Some(1), author_id: 7, author_is_bot: false };
    let (state, _) = save_step(&msg, SaveState::Start, SaveEvent::Received);
    let (_, actions) = save_step(&msg, state, SaveEvent::CooldownKey(true));
    assert_eq!(done_only(&actions), Some(Ok(())));
    let state = SaveState::AwaitRewards { guild_id: 1, level: 0 };
    let (_, actions) =
        save_step(&msg, state, SaveEvent::Rewards(vec![RoleReward { id: 10, requirement: 1 }]));
    assert_eq!(done_only(&actions), Some(Ok(())));
    let (_, actions) = save_step(&msg, SaveState::Finished, SaveEvent::TotalXp(1));
    assert_eq!(done_only(&actions), Some(Err(SaveError::OutOfOrder)));
}
