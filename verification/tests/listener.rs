use experienced::common::GuildConfig;
use experienced::interpolation::Interpolation;
use experienced::listener::{
    level_up_args, level_up_message, message_cooldown, xp_for_message, xp_update, MessageAuthor,
    XpUpdate,
};

fn author(nickname: Option<&str>) -> MessageAuthor {
    MessageAuthor {
        id: 42,
        username: "valk".to_string(),
        display_name: "Valk".to_string(),
        nickname: nickname.map(str::to_string),
    }
}

#[test]
fn xp_updates() {
    let same = xp_update(3255, 25);
    assert_eq!(same, XpUpdate { xp: 3255, old_xp: 3230, level: 8, old_level: 8 });
    assert!(!same.leveled_up());
    let up = xp_update(2910, 20);
    assert_eq!(up, XpUpdate { xp: 2910, old_xp: 2890, level: 8, old_level: 7 });
    assert!(up.leveled_up());
    let negative = xp_update(-5, 10);
    assert_eq!(negative, XpUpdate { xp: 0, old_xp: 0, level: 0, old_level: 0 });
}

#[test]
fn message_xp_in_range() {
    let config = GuildConfig::default();
    for _ in 0..200 {
        let xp = xp_for_message(&config);
        assert!((15..=25).contains(&xp));
    }
    let fixed = GuildConfig {
        min_xp_per_message: Some(10),
        max_xp_per_message: Some(10),
        ..Default::default()
    };
    assert_eq!(xp_for_message(&fixed), 10);
}

#[test]
fn cooldowns() {
    assert_eq!(message_cooldown(&GuildConfig::default()), 60);
    let config = GuildConfig { cooldown: Some(5), ..Default::default() };
    assert_eq!(message_cooldown(&config), 5);
}

#[test]
fn level_up_template_values() {
    let args = level_up_args(&author(None), XpUpdate { xp: 2910, old_xp: 2890, level: 8, old_level: 7 });
    assert_eq!(args.len(), 9);
    assert_eq!(args.get("user_id"), Some(&"42".to_string()));
    assert_eq!(args.get("user_mention"), Some(&"<@42>".to_string()));
    assert_eq!(args.get("user_nickname"), Some(&"Valk".to_string()));
    assert_eq!(args.get("old_xp"), Some(&"2910".to_string()));
    assert_eq!(args.get("xp"), Some(&"2890".to_string()));
}

#[test]
fn level_up_in_the_same_channel() {
    let template = Interpolation::new(
        "GG {user_mention}, level {level} (was {old_level}); xp {xp} old {old_xp}; {user_nickname}",
    )
    .unwrap();
    let config = GuildConfig { level_up_message: Some(template), ..Default::default() };
    let update = XpUpdate { xp: 2910, old_xp: 2890, level: 8, old_level: 7 };
    let message = level_up_message(&config, 7, 99, &author(None), update).unwrap();
    assert_eq!(message.channel, 7);
    assert_eq!(message.reply_to, Some(99));
    assert!(message.ping);
    assert_eq!(message.content, "GG <@42>, level 8 (was 7); xp 2890 old 2910; Valk");
}

#[test]
fn level_up_in_the_guild_channel_without_ping() {
    let template = Interpolation::new("{user_nickname} / {user_username} / {user_id}").unwrap();
    let config = GuildConfig {
        level_up_message: Some(template),
        level_up_channel: Some(1234),
        ping_on_level_up: Some(false),
        ..Default::default()
    };
    let update = XpUpdate { xp: 100, old_xp: 99, level: 1, old_level: 0 };
    let message = level_up_message(&config, 7, 99, &author(Some("nick")), update).unwrap();
    assert_eq!(message.channel, 1234);
    assert_eq!(message.reply_to, None);
    assert!(!message.ping);
    assert_eq!(message.content, "nick / valk / 42");
}

#[test]
fn no_level_up_message_without_template() {
    let update = XpUpdate { xp: 100, old_xp: 99, level: 1, old_level: 0 };
    assert!(level_up_message(&GuildConfig::default(), 7, 99, &author(None), update).is_none());
}
