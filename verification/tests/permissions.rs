use experienced::permission_cache::{
    CacheEvent, Error, PermissionCache, RoleData, ADMINISTRATOR, MANAGE_ROLES,
};

const GUILD: u64 = 100;
const BOT: u64 = 7;

fn role(id: u64, position: i64, permissions: u64) -> RoleData {
    RoleData { id, position, permissions }
}

fn guild_cache() -> PermissionCache {
    let mut cache = PermissionCache::new(BOT);
    cache
        .update_cache(&CacheEvent::GuildCreate {
            guild: GUILD,
            roles: vec![role(GUILD, 0, 0), role(1, 1, 0), role(2, 5, MANAGE_ROLES), role(3, 9, 0)],
        })
        .unwrap();
    cache
}

#[test]
fn unknown_membership_means_no() {
    let cache = guild_cache();
    assert_eq!(cache.can_add_roles(GUILD, &[1]), Ok(false));
    assert_eq!(cache.my_roles(GUILD), Ok(vec![]));
}

#[test]
fn manage_roles_and_position_decide() {
    let mut cache = guild_cache();
    cache
        .update_cache(&CacheEvent::MemberAdd { user: BOT, guild: GUILD, roles: vec![2] })
        .unwrap();
    assert_eq!(cache.my_roles(GUILD), Ok(vec![2]));
    assert_eq!(cache.can_add_role(GUILD, 1), Ok(true));
    assert_eq!(cache.can_add_roles(GUILD, &[1, 2]), Ok(false));
    assert_eq!(cache.can_add_roles(GUILD, &[3]), Ok(false));
    assert_eq!(cache.can_add_roles(GUILD, &[]), Ok(true));
    assert_eq!(cache.can_add_roles(GUILD, &[1, 42]), Err(Error::UnknownRole(42)));
}

#[test]
fn without_permission_nothing_is_assignable() {
    let mut cache = guild_cache();
    cache
        .update_cache(&CacheEvent::MemberUpdate { user: BOT, guild: GUILD, roles: vec![3] })
        .unwrap();
    assert_eq!(cache.can_add_roles(GUILD, &[1]), Ok(false));
    cache
        .update_cache(&CacheEvent::RoleUpdate { guild: GUILD, role: role(3, 9, ADMINISTRATOR) })
        .unwrap();
    assert_eq!(cache.can_add_roles(GUILD, &[1, 2]), Ok(true));
}

#[test]
fn other_members_are_ignored() {
    let mut cache = guild_cache();
    cache
        .update_cache(&CacheEvent::MemberAdd { user: 8, guild: GUILD, roles: vec![2] })
        .unwrap();
    assert_eq!(cache.my_roles(GUILD), Ok(vec![]));
    cache.update_cache(&CacheEvent::MemberRemove { user: 8, guild: GUILD }).unwrap();
    cache
        .update_cache(&CacheEvent::MemberAdd { user: BOT, guild: GUILD, roles: vec![2] })
        .unwrap();
    cache.update_cache(&CacheEvent::MemberRemove { user: 8, guild: GUILD }).unwrap();
    assert_eq!(cache.my_roles(GUILD), Ok(vec![2]));
    cache.update_cache(&CacheEvent::MemberRemove { user: BOT, guild: GUILD }).unwrap();
    assert_eq!(cache.my_roles(GUILD), Ok(vec![]));
}

#[test]
fn missing_everyone_role_is_an_error() {
    let mut cache = PermissionCache::new(BOT);
    cache
        .update_cache(&CacheEvent::MemberAdd { user: BOT, guild: GUILD, roles: vec![] })
        .unwrap();
    assert_eq!(cache.can_add_roles(GUILD, &[1]), Err(Error::UnknownRole(GUILD)));
    assert_eq!(Error::UnknownRole(5).to_string(), "Unknown role: <@&5>");
    assert_eq!(Error::LockPoisoned.to_string(), "RwLock Poisioned, please report this bug");
}

#[test]
fn deleted_roles_and_guilds_are_forgotten() {
    let mut cache = guild_cache();
    cache
        .update_cache(&CacheEvent::MemberAdd { user: BOT, guild: GUILD, roles: vec![2] })
        .unwrap();
    cache.update_cache(&CacheEvent::RoleDelete { guild: GUILD, role: 1 }).unwrap();
    assert_eq!(cache.can_add_roles(GUILD, &[1]), Err(Error::UnknownRole(1)));
    cache.update_cache(&CacheEvent::RoleCreate { guild: GUILD, role: role(1, 2, 0) }).unwrap();
    assert_eq!(cache.can_add_roles(GUILD, &[1]), Ok(true));
    cache.update_cache(&CacheEvent::GuildDelete { guild: GUILD }).unwrap();
    assert_eq!(cache.can_add_roles(GUILD, &[1]), Ok(false));
    assert_eq!(cache.my_roles(GUILD), Ok(vec![]));
    cache
        .update_cache(&CacheEvent::MemberAdd { user: BOT, guild: GUILD, roles: vec![] })
        .unwrap();
    assert_eq!(cache.can_add_roles(GUILD, &[1]), Err(Error::UnknownRole(GUILD)));
    cache.update_cache(&CacheEvent::Other).unwrap();
}

#[test]
fn left_guild_stays_without_roles() {
    for leave in [
        CacheEvent::GuildDelete { guild: GUILD },
        CacheEvent::MemberRemove { user: BOT, guild: GUILD },
    ] {
        let mut cache = guild_cache();
        cache
            .update_cache(&CacheEvent::MemberAdd { user: BOT, guild: GUILD, roles: vec![2] })
            .unwrap();
        assert_eq!(cache.can_add_roles(GUILD, &[1]), Ok(true));
        cache.update_cache(&leave).unwrap();
        cache
            .update_cache(&CacheEvent::GuildCreate {
                guild: GUILD,
                roles: vec![role(GUILD, 0, ADMINISTRATOR), role(1, 1, 0)],
            })
            .unwrap();
        cache
            .update_cache(&CacheEvent::MemberAdd { user: 8, guild: GUILD, roles: vec![1] })
            .unwrap();
        cache
            .update_cache(&CacheEvent::MemberUpdate { user: BOT, guild: 5, roles: vec![1] })
            .unwrap();
        assert_eq!(cache.can_add_roles(GUILD, &[1]), Ok(false));
        assert_eq!(cache.my_roles(GUILD), Ok(vec![]));
    }
}
