use experienced::common::{AuditLogEvent, AuditLogEventKind};
use experienced::database::{
    audit_log_events, cooldown_outcome, event_row, db_to_id, id_to_db, reward_delete_filter, AuditLogRow,
    Error, OnCooldown, RawGuildConfig, ReinterpretPrimitiveBits, UpdateGuildConfig,
};
use experienced::interpolation::Interpolation;

#[test]
fn ids_are_stored_as_their_bits() {
    assert_eq!(id_to_db(5), 5);
    assert_eq!(id_to_db(u64::MAX), -1);
    assert_eq!(db_to_id(-1), u64::MAX);
    assert_eq!(db_to_id(id_to_db(1 << 63)), 1 << 63);
    let byte: i8 = 255u8.reinterpret_bits();
    assert_eq!(byte, -1);
    let back: u16 = (-2i16).reinterpret_bits();
    assert_eq!(back, 65534);
}

#[test]
fn cooldown_outcomes() {
    assert_eq!(cooldown_outcome(0), OnCooldown::Yes);
    assert!(cooldown_outcome(0).was_on_cooldown());
    assert_eq!(cooldown_outcome(1), OnCooldown::No);
    assert!(!OnCooldown::No.was_on_cooldown());
}

#[test]
fn reward_deletion_needs_a_constraint() {
    assert_eq!(reward_delete_filter(None, None), Err(Error::UnspecifiedDelete));
    assert_eq!(reward_delete_filter(Some(5), Some(u64::MAX)), Ok((Some(-1), Some(5))));
    assert_eq!(reward_delete_filter(None, Some(3)), Ok((Some(3), None)));
}

fn row(target: i64, moderator: i64, kind: i64) -> AuditLogRow {
    AuditLogRow { target, moderator, timestamp: 10, previous: 50, delta: -50, kind }
}

#[test]
fn audit_log_selection() {
    let rows = [row(1, 2, 3), row(3, 2, 0), row(1, 4, 1)];
    let on_one = audit_log_events(9, Some(1), None, &rows).unwrap();
    assert_eq!(on_one.len(), 2);
    assert_eq!(
        on_one[0],
        AuditLogEvent {
            guild: 9,
            target: 1,
            moderator: 2,
            timestamp: 10,
            previous: 50,
            delta: -50,
            kind: AuditLogEventKind::KickReset,
        }
    );
    assert_eq!(on_one[1].kind, AuditLogEventKind::Reset);
    let by_two = audit_log_events(9, None, Some(2), &rows).unwrap();
    assert_eq!(by_two.iter().map(|e| e.target).collect::<Vec<_>>(), [1, 3]);
    let both = audit_log_events(9, Some(1), Some(4), &rows).unwrap();
    assert_eq!(both.len(), 1);
    assert_eq!(audit_log_events(9, None, None, &rows).unwrap().len(), 3);
}

#[test]
fn audit_log_unknown_kind() {
    let rows = [row(1, 2, 3), row(3, 2, 7)];
    assert_eq!(audit_log_events(9, None, None, &rows), Err(Error::UnknownAuditLogEventKind));
    // A row that was not asked for is not read.
    assert_eq!(audit_log_events(9, Some(1), None, &rows).unwrap().len(), 1);
}

fn raw(message: Option<&str>) -> RawGuildConfig {
    RawGuildConfig {
        one_at_a_time: Some(true),
        level_up_message: message.map(str::to_string),
        level_up_channel: Some(-1),
        ping_on_level_up: None,
        min_xp_per_message: Some(1),
        max_xp_per_message: Some(2),
        message_cooldown: Some(3),
        guild_card_default_show_off: true,
    }
}

#[test]
fn cooking_stored_settings() {
    let config = raw(Some("Hi {user_mention}")).cook().unwrap();
    assert_eq!(config.one_at_a_time, Some(true));
    assert_eq!(config.level_up_message.as_ref().unwrap().input_value(), "Hi {user_mention}");
    assert_eq!(config.level_up_channel, Some(u64::MAX));
    assert_eq!(config.min_xp_per_message, Some(1));
    assert_eq!(config.max_xp_per_message, Some(2));
    assert_eq!(config.cooldown, Some(3));
    assert!(config.guild_card_default_show_off);
    assert!(raw(None).cook().unwrap().level_up_message.is_none());
    assert_eq!(raw(Some("{bad")).cook().unwrap_err(), Interpolation::new("{bad").unwrap_err());
}

#[test]
fn config_update_builder() {
    let update = UpdateGuildConfig::new()
        .ping_users(Some(true))
        .ping_users(None)
        .max_xp_per_message(Some(40))
        .level_up_channel(Some(8))
        .level_up_message(Some("hi".to_string()))
        .min_xp_per_message(None)
        .message_cooldown(Some(30))
        .one_at_a_time(Some(false))
        .guild_card_default_show_off(Some(true));
    assert_eq!(update.ping_users, Some(true));
    assert_eq!(update.max_xp_per_message, Some(40));
    assert_eq!(update.level_up_channel, Some(8));
    assert_eq!(update.level_up_message, Some("hi".to_string()));
    assert_eq!(update.min_xp_per_message, None);
    assert_eq!(update.message_cooldown, Some(30));
    assert_eq!(update.one_at_a_time, Some(false));
    assert_eq!(update.guild_card_default_show_off, Some(true));
}

#[test]
fn stored_audit_log_events_read_back() {
    let first = AuditLogEvent {
        guild: 9,
        target: 1 << 63,
        moderator: 2,
        timestamp: 10,
        previous: 50,
        delta: -50,
        kind: AuditLogEventKind::BanReset,
    };
    let second = AuditLogEvent { target: 3, kind: AuditLogEventKind::SetTo, ..first };
    let rows = [event_row(first), event_row(second)];
    assert_eq!(rows[0].target, i64::MIN);
    assert_eq!(rows[0].kind, 4);
    assert_eq!(audit_log_events(9, None, None, &rows), Ok(vec![first, second]));
    assert_eq!(audit_log_events(9, Some(3), Some(2), &rows), Ok(vec![second]));
    assert_eq!(audit_log_events(9, None, Some(5), &rows), Ok(vec![]));
}
