use experienced::user_cache::{cached_discriminator, guild_key, redis_user, user_key};
use experienced::slash::colors::normalized_hex;
use experienced::slash::levels::avatar_data_uri;
use experienced::slash::processor::{
    resolve_target, route, slash_command, CommandKind, CommandProcessorError, InteractionFacts,
    Route, SlashCommand,
};
use experienced::web::{leaderboard_page, leaderboard_users, CachedUser, FetchQuery};

#[test]
fn leaderboard_pages() {
    assert_eq!(leaderboard_page(&FetchQuery { offset: None }), (0, 0));
    assert_eq!(leaderboard_page(&FetchQuery { offset: Some(3) }), (3, 300));
}

fn cached(id: u64, name: &str, discriminator: &str) -> CachedUser {
    CachedUser { id, name: name.to_string(), discriminator: discriminator.to_string() }
}

#[test]
fn leaderboard_rows() {
    let rows = [(5i64, 3255i64), (6, 0), (-1, 100)];
    let cache = [cached(5, "old", "1"), cached(5, "valk", "0001"), cached(9, "other", "2")];
    let users = leaderboard_users(&rows, &cache);
    assert_eq!(users.len(), 3);
    assert_eq!((users[0].id, users[0].level), (5, 8));
    assert_eq!(users[0].name.as_deref(), Some("valk"));
    assert_eq!(users[0].discriminator.as_deref(), Some("0001"));
    assert_eq!((users[1].id, users[1].level), (6, 0));
    assert_eq!(users[1].name, None);
    assert_eq!((users[2].id, users[2].level), (u64::MAX, 1));
}

#[test]
fn repeated_ids_name_the_last_row() {
    let rows = [(5i64, 10i64), (5, 20)];
    let users = leaderboard_users(&rows, &[cached(5, "valk", "1")]);
    assert_eq!(users[0].name, None);
    assert_eq!(users[1].name.as_deref(), Some("valk"));
}

#[test]
fn base64_avatar() {
    assert_eq!(avatar_data_uri(b"hi"), "data:image/png;base64,aGk");
    assert_eq!(avatar_data_uri(b"abc"), "data:image/png;base64,YWJj");
    assert_eq!(avatar_data_uri(b"a"), "data:image/png;base64,YQ");
    assert_eq!(avatar_data_uri(&[0xFF, 0xEF]), "data:image/png;base64,/+8");
    assert_eq!(avatar_data_uri(b""), "data:image/png;base64,");
}

#[test]
fn color_options_are_stored_canonical() {
    assert_eq!(normalized_hex("ff8000"), Ok("#FF8000".to_string()));
    assert!(normalized_hex("ff80").is_err());
}

fn facts(kind: CommandKind) -> InteractionFacts {
    InteractionFacts {
        is_application_command: true,
        data: Some(true),
        member: Some(Some(11)),
        user: Some(12),
        guild_id: Some(100),
        kind,
    }
}

#[test]
fn interaction_routes() {
    assert_eq!(
        route(&facts(CommandKind::ChatInput)),
        Ok(Route::Command { kind: CommandKind::ChatInput, invoker: 11, guild: 100 })
    );
    let ping = InteractionFacts { is_application_command: false, ..facts(CommandKind::Other) };
    assert_eq!(route(&ping), Ok(Route::Pong));
    let no_data = InteractionFacts { data: None, ..facts(CommandKind::User) };
    assert_eq!(route(&no_data), Err(CommandProcessorError::NoInteractionData));
    let wrong = InteractionFacts { data: Some(false), ..facts(CommandKind::User) };
    assert_eq!(route(&wrong), Err(CommandProcessorError::WrongInteractionData));
    let memberless = InteractionFacts { member: Some(None), ..facts(CommandKind::User) };
    assert_eq!(route(&memberless), Err(CommandProcessorError::NoInvoker));
    let in_dm = InteractionFacts { member: None, guild_id: None, ..facts(CommandKind::User) };
    assert_eq!(route(&in_dm), Err(CommandProcessorError::NoGuildId));
    let by_user = InteractionFacts { member: None, ..facts(CommandKind::Message) };
    assert_eq!(
        route(&by_user),
        Ok(Route::Command { kind: CommandKind::Message, invoker: 12, guild: 100 })
    );
    assert_eq!(
        route(&facts(CommandKind::Other)),
        Err(CommandProcessorError::WrongInteractionData)
    );
}

#[test]
fn slash_command_names() {
    assert_eq!(slash_command("help"), Ok(SlashCommand::Help));
    assert_eq!(slash_command("leaderboard"), Ok(SlashCommand::Leaderboard));
    assert_eq!(slash_command("toy"), Err(CommandProcessorError::UnrecognizedCommand));
    assert_eq!(
        CommandProcessorError::NoGuildId.to_string(),
        "Discord did not send a guild ID!"
    );
}

#[test]
fn command_targets() {
    assert_eq!(resolve_target(None, Some(&[1])), Err(CommandProcessorError::NoMessageTargetId));
    assert_eq!(resolve_target(Some(1), None), Err(CommandProcessorError::NoResolvedData));
    assert_eq!(resolve_target(Some(3), Some(&[1, 3, 3])), Ok(1));
    assert_eq!(resolve_target(Some(4), Some(&[1, 3])), Err(CommandProcessorError::NoTarget));
}

#[test]
fn user_cache_entries() {
    assert_eq!(cached_discriminator(0), None);
    assert_eq!(cached_discriminator(42), Some(42));
    let user = redis_user(5, "valk".to_string(), 0, Some("abc".to_string()), None);
    assert_eq!((user.id, user.username.as_deref(), user.discriminator), (5, Some("valk"), None));
    assert_eq!(user.avatar_hash.as_deref(), Some("abc"));
    assert_eq!(user_key(5), "cache-user-5");
    assert_eq!(guild_key(99), "cache-guild-99");
}
