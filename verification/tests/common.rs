use experienced::audit_log::{
    clear_event, clear_record, AuditLogError, DiscordAuditLogClearEvent, DiscordAuditLogClearType,
};
use experienced::common::{AuditLogEventKind, GuildConfig, MemberDisplayInfo, PartialMemberInfo};
use experienced::interpolation::Interpolation;

#[test]
fn default_settings_listing() {
    assert_eq!(
        GuildConfig::default().to_string(),
        "One reward role at a time: unset\n\
         Level-up message: unset\n\
         Level-up channel: unset\n\
         Maximum XP per message: 25\n\
         Minimum XP per message: 15\n\
         Cooldown (seconds): 60\n\
         Show off guild card by default: false"
    );
}

#[test]
fn custom_settings_listing() {
    let config = GuildConfig {
        one_at_a_time: Some(false),
        level_up_message: Some(Interpolation::new("Hi \\{ {user_mention}").unwrap()),
        level_up_channel: Some(5),
        ping_on_level_up: Some(true),
        min_xp_per_message: Some(-3),
        max_xp_per_message: Some(100),
        cooldown: Some(0),
        guild_card_default_show_off: true,
    };
    assert_eq!(
        config.to_string(),
        "One reward role at a time: false\n\
         Level-up message: `Hi \\{ {user_mention}`\n\
         Level-up channel: `<#5>`\n\
         Maximum XP per message: 100\n\
         Minimum XP per message: -3\n\
         Cooldown (seconds): 0\n\
         Show off guild card by default: true"
    );
}

#[test]
fn audit_log_kinds_roundtrip() {
    for kind in [
        AuditLogEventKind::AddOrSub,
        AuditLogEventKind::Reset,
        AuditLogEventKind::SetTo,
        AuditLogEventKind::KickReset,
        AuditLogEventKind::BanReset,
    ] {
        assert_eq!(AuditLogEventKind::from_i64(kind.to_i64()), Some(kind));
    }
    assert_eq!(AuditLogEventKind::from_i64(2), Some(AuditLogEventKind::SetTo));
    assert_eq!(AuditLogEventKind::BanReset.to_i64(), 4);
    assert_eq!(AuditLogEventKind::from_i64(5), None);
    assert_eq!(AuditLogEventKind::from_i64(-1), None);
    assert_eq!(AuditLogEventKind::from_i64(65538), None);
}

#[test]
fn kicks_and_bans_from_audit_log_entries() {
    assert_eq!(
        clear_event(20, Some(1), Some(2), Some(3)),
        Ok(Some(DiscordAuditLogClearEvent {
            moderator: 3,
            target: 2,
            guild: 1,
            kind: DiscordAuditLogClearType::Kick,
        }))
    );
    assert_eq!(
        clear_event(22, Some(1), Some(2), Some(3)).unwrap().unwrap().kind,
        DiscordAuditLogClearType::Ban
    );
    assert_eq!(clear_event(22, None, None, None), Err(AuditLogError::GuildMissing));
    assert_eq!(clear_event(20, Some(1), None, None), Err(AuditLogError::TargetMissing));
    assert_eq!(clear_event(20, Some(1), Some(2), None), Err(AuditLogError::ModeratorMissing));
    assert_eq!(clear_event(1, None, None, None), Ok(None));
    assert_eq!(
        AuditLogError::GuildMissing.to_string(),
        "Discord did not send a guild for the audit log event!"
    );
}

#[test]
fn clearing_records_the_reset() {
    let event =
        DiscordAuditLogClearEvent { moderator: 3, target: 2, guild: 1, kind: DiscordAuditLogClearType::Ban };
    let record = clear_record(event, 100, Some(50));
    assert_eq!(record.previous, 50);
    assert_eq!(record.delta, -50);
    assert_eq!(record.kind, AuditLogEventKind::BanReset);
    assert_eq!(record.timestamp, 100);
    let none = clear_record(event, 100, None);
    assert_eq!((none.previous, none.delta), (0, 0));
}

fn user() -> experienced::common::UserInfo {
    experienced::common::UserInfo {
        id: 5,
        name: "valk".to_string(),
        global_name: Some("Valk".to_string()),
        avatar: Some("abc".to_string()),
        bot: false,
    }
}

#[test]
fn member_display_info() {
    let plain = MemberDisplayInfo::from_user(user());
    assert_eq!((plain.id, plain.nick.clone(), plain.local_avatar.clone()), (5, None, None));
    let nicked = plain.with_nick(Some("v".to_string()));
    assert_eq!(nicked.nick.as_deref(), Some("v"));
    assert_eq!(nicked.name, "valk");
    let member = PartialMemberInfo {
        user: Some(user()),
        nick: Some("nick".to_string()),
        avatar: Some("guild".to_string()),
    };
    let shown = MemberDisplayInfo::from_partial_member(member).unwrap();
    assert_eq!(shown.nick.as_deref(), Some("nick"));
    assert_eq!(shown.local_avatar.as_deref(), Some("guild"));
    assert_eq!(shown.avatar.as_deref(), Some("abc"));
    let anonymous = PartialMemberInfo { user: None, nick: None, avatar: None };
    assert!(MemberDisplayInfo::from_partial_member(anonymous).is_none());
}
