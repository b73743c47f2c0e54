//! What the bot keeps about users and guilds in its shared cache, and under
//! which keys.
use vstd::prelude::*;
use crate::text::{decimal, push_decimal, push_str, string_with_capacity};

verus! {

/// A user as the cache holds them; image hashes are held as their text.
pub struct RedisUser {
    pub id: u64,
    pub username: Option<String>,
    pub discriminator: Option<u16>,
    pub avatar_hash: Option<String>,
    pub banner_hash: Option<String>,
}

/// A guild as the cache holds it.
pub struct RedisGuild {
    pub id: u64,
    pub name: String,
    pub banner_hash: Option<String>,
    pub icon_hash: Option<String>,
}

/// A discriminator as the cache holds it: users without one (zero) have none.
pub fn cached_discriminator(discriminator: u16) -> (r: Option<u16>)
    ensures
        r == if discriminator == 0 {
            None
        } else {
            Some(discriminator)
        },
{
    if discriminator == 0 {
        None
    } else {
        Some(discriminator)
    }
}

/// The cached form of a user.
pub fn redis_user(
    id: u64,
    name: String,
    discriminator: u16,
    avatar_hash: Option<String>,
    banner_hash: Option<String>,
) -> (u: RedisUser)
    ensures
        u.id == id,
        u.username == Some(name),
        u.discriminator == if discriminator == 0 {
            None
        } else {
            Some(discriminator)
        },
        u.avatar_hash == avatar_hash,
        u.banner_hash == banner_hash,
{
    RedisUser {
        id,
        username: Some(name),
        discriminator: cached_discriminator(discriminator),
        avatar_hash,
        banner_hash,
    }
}

/// The key a user is cached under.
pub fn user_key(id: u64) -> (k: String)
    ensures
        k@ == "cache-user-"@ + decimal(id as nat),
{
    let mut k = string_with_capacity(32);
    push_str(&mut k, "cache-user-");
    push_decimal(&mut k, id);
    k
}

/// The key a guild is cached under.
pub fn guild_key(id: u64) -> (k: String)
    ensures
        k@ == "cache-guild-"@ + decimal(id as nat),
{
    let mut k = string_with_capacity(32);
    push_str(&mut k, "cache-guild-");
    push_decimal(&mut k, id);
    k
}

} // verus!
