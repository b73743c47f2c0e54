//! Data shared by the bot's parts: guild settings, role rewards and audit-log
//! entries. Discord ids are held as their `u64` values.
use vstd::prelude::*;
use std::cmp::Ordering;
use crate::interpolation::{Interpolation, spec_print};
use crate::text::{decimal, signed_decimal, push_decimal, push_signed_decimal, push_str, string_with_capacity};

verus! {

pub const DISCORD_EPOCH_MS: i64 = 1_420_070_400_000;

pub const DISCORD_EPOCH_SECS: i64 = 1_420_070_400;

pub const DEFAULT_MAX_XP_PER_MESSAGE: i16 = 25;

pub const DEFAULT_MIN_XP_PER_MESSAGE: i16 = 15;

pub const DEFAULT_MESSAGE_COOLDOWN: i16 = 60;

pub const MAX_MESSAGE_COOLDOWN: i16 = 28800;

/// The settings of one guild; `None` means "use the default".
#[derive(Clone, Debug)]
pub struct GuildConfig {
    pub one_at_a_time: Option<bool>,
    pub level_up_message: Option<Interpolation>,
    pub level_up_channel: Option<u64>,
    pub ping_on_level_up: Option<bool>,
    pub min_xp_per_message: Option<i16>,
    pub max_xp_per_message: Option<i16>,
    pub cooldown: Option<i16>,
    pub guild_card_default_show_off: bool,
}

impl Default for GuildConfig {
    fn default() -> (c: Self)
        ensures
            c.one_at_a_time is None,
            c.level_up_message is None,
            c.level_up_channel is None,
            c.ping_on_level_up is None,
            c.min_xp_per_message is None,
            c.max_xp_per_message is None,
            c.cooldown is None,
            !c.guild_card_default_show_off,
    {
        GuildConfig {
            one_at_a_time: None,
            level_up_message: None,
            level_up_channel: None,
            ping_on_level_up: None,
            min_xp_per_message: None,
            max_xp_per_message: None,
            cooldown: None,
            guild_card_default_show_off: false,
        }
    }
}

/// `unset`, `true` or `false`.
pub open spec fn tristate_text(v: Option<bool>) -> Seq<char> {
    match v {
        None => "unset"@,
        Some(true) => "true"@,
        Some(false) => "false"@,
    }
}

/// `true` or `false`.
pub open spec fn bool_text(v: bool) -> Seq<char> {
    if v {
        "true"@
    } else {
        "false"@
    }
}

/// How the level-up message setting is shown.
pub open spec fn message_text(m: Option<Interpolation>) -> Seq<char> {
    match m {
        None => "unset"@,
        Some(t) => "`"@ + spec_print(t@) + "`"@,
    }
}

/// How the level-up channel setting is shown.
pub open spec fn channel_text(c: Option<u64>) -> Seq<char> {
    match c {
        None => "unset"@,
        Some(c) => "`<#"@ + decimal(c as nat) + ">`"@,
    }
}

/// A number setting, or its default when unset.
pub open spec fn or_default(v: Option<i16>, default: i16) -> int {
    match v {
        Some(v) => v as int,
        None => default as int,
    }
}

impl GuildConfig {
    /// The settings, one per line, with the defaults filled in where unset.
    pub open spec fn spec_to_string(&self) -> Seq<char> {
        "One reward role at a time: "@ + tristate_text(self.one_at_a_time) + "\n"@
            + "Level-up message: "@ + message_text(self.level_up_message) + "\n"@
            + "Level-up channel: "@ + channel_text(self.level_up_channel) + "\n"@
            + "Maximum XP per message: "@ + signed_decimal(
            or_default(self.max_xp_per_message, DEFAULT_MAX_XP_PER_MESSAGE),
        ) + "\n"@ + "Minimum XP per message: "@ + signed_decimal(
            or_default(self.min_xp_per_message, DEFAULT_MIN_XP_PER_MESSAGE),
        ) + "\n"@ + "Cooldown (seconds): "@ + signed_decimal(
            or_default(self.cooldown, DEFAULT_MESSAGE_COOLDOWN),
        ) + "\n"@ + "Show off guild card by default: "@ + bool_text(
            self.guild_card_default_show_off,
        )
    }

    /// The settings, one per line, with the defaults filled in where unset.
    pub fn to_string(&self) -> (s: String)
        ensures
            s@ == self.spec_to_string(),
    {
        let mut f = string_with_capacity(256);
        push_str(&mut f, "One reward role at a time: ");
        push_tristate(&mut f, self.one_at_a_time);
        push_str(&mut f, "\n");
        push_str(&mut f, "Level-up message: ");
        push_message_text(&mut f, &self.level_up_message);
        push_str(&mut f, "\n");
        push_str(&mut f, "Level-up channel: ");
        push_channel_text(&mut f, self.level_up_channel);
        push_str(&mut f, "\n");
        push_str(&mut f, "Maximum XP per message: ");
        push_number_or(&mut f, self.max_xp_per_message, DEFAULT_MAX_XP_PER_MESSAGE);
        push_str(&mut f, "\n");
        push_str(&mut f, "Minimum XP per message: ");
        push_number_or(&mut f, self.min_xp_per_message, DEFAULT_MIN_XP_PER_MESSAGE);
        push_str(&mut f, "\n");
        push_str(&mut f, "Cooldown (seconds): ");
        push_number_or(&mut f, self.cooldown, DEFAULT_MESSAGE_COOLDOWN);
        push_str(&mut f, "\n");
        push_str(&mut f, "Show off guild card by default: ");
        if self.guild_card_default_show_off {
            push_str(&mut f, "true");
        } else {
            push_str(&mut f, "false");
        }
        f
    }
}

fn push_tristate(f: &mut String, v: Option<bool>)
    ensures
        final(f)@ == old(f)@ + tristate_text(v),
{
    match v {
        None => push_str(f, "unset"),
        Some(true) => push_str(f, "true"),
        Some(false) => push_str(f, "false"),
    }
}

fn push_message_text(f: &mut String, m: &Option<Interpolation>)
    ensures
        final(f)@ == old(f)@ + message_text(*m),
{
    match m {
        None => push_str(f, "unset"),
        Some(t) => {
            let text = t.input_value();
            push_str(f, "`");
            push_str(f, text.as_str());
            push_str(f, "`");
            assert(final(f)@ == old(f)@ + message_text(*m));
        },
    }
}

fn push_channel_text(f: &mut String, c: Option<u64>)
    ensures
        final(f)@ == old(f)@ + channel_text(c),
{
    match c {
        None => push_str(f, "unset"),
        Some(c) => {
            push_str(f, "`<#");
            push_decimal(f, c);
            push_str(f, ">`");
            assert(final(f)@ == old(f)@ + channel_text(Some(c)));
        },
    }
}

fn push_number_or(f: &mut String, v: Option<i16>, default: i16)
    ensures
        final(f)@ == old(f)@ + signed_decimal(or_default(v, default)),
{
    let n = match v {
        Some(v) => v,
        None => default,
    };
    push_signed_decimal(f, n as i64);
}

/// A Discord user as events describe them; image hashes are held as text.
pub struct UserInfo {
    pub id: u64,
    pub name: String,
    pub global_name: Option<String>,
    pub avatar: Option<String>,
    pub bot: bool,
}

/// A guild member as some events describe them: the user may be missing.
pub struct PartialMemberInfo {
    pub user: Option<UserInfo>,
    pub nick: Option<String>,
    pub avatar: Option<String>,
}

/// What is shown of a member: the user's names and pictures, and the guild's.
pub struct MemberDisplayInfo {
    pub id: u64,
    pub name: String,
    pub global_name: Option<String>,
    pub nick: Option<String>,
    pub avatar: Option<String>,
    pub local_avatar: Option<String>,
    pub bot: bool,
}

impl MemberDisplayInfo {
    /// A user outside any guild: no nickname and no guild picture.
    pub fn from_user(value: UserInfo) -> (m: Self)
        ensures
            m.id == value.id,
            m.name == value.name,
            m.global_name == value.global_name,
            m.nick is None,
            m.avatar == value.avatar,
            m.local_avatar is None,
            m.bot == value.bot,
    {
        MemberDisplayInfo {
            id: value.id,
            name: value.name,
            global_name: value.global_name,
            nick: None,
            avatar: value.avatar,
            local_avatar: None,
            bot: value.bot,
        }
    }

    /// The same member with another nickname.
    pub fn with_nick(self, nick: Option<String>) -> (m: Self)
        ensures
            m.nick == nick,
            m.id == self.id,
            m.name == self.name,
            m.global_name == self.global_name,
            m.avatar == self.avatar,
            m.local_avatar == self.local_avatar,
            m.bot == self.bot,
    {
        MemberDisplayInfo { nick, ..self }
    }

    /// A member from a partial description, when it names the user.
    pub fn from_partial_member(member: PartialMemberInfo) -> (m: Option<Self>)
        ensures
            match member.user {
                None => m is None,
                Some(user) => m matches Some(m) && {
                    &&& m.id == user.id
                    &&& m.name == user.name
                    &&& m.global_name == user.global_name
                    &&& m.nick == member.nick
                    &&& m.avatar == user.avatar
                    &&& m.local_avatar == member.avatar
                    &&& m.bot == user.bot
                },
            },
    {
        let user = match member.user {
            Some(u) => u,
            None => {
                return None;
            },
        };
        Some(
            MemberDisplayInfo {
                id: user.id,
                name: user.name,
                global_name: user.global_name,
                nick: member.nick,
                avatar: user.avatar,
                local_avatar: member.avatar,
                bot: user.bot,
            },
        )
    }
}

/// A role granted once a member reaches `requirement`.
#[derive(Clone, Copy, Debug, PartialEq, Eq)]
pub struct RoleReward {
    pub id: u64,
    pub requirement: i64,
}

/// Orders rewards by their requirement.
pub fn compare_rewards_requirement(a: &RoleReward, b: &RoleReward) -> (o: Ordering)
    ensures
        (o == Ordering::Less) == (a.requirement < b.requirement),
        (o == Ordering::Equal) == (a.requirement == b.requirement),
        (o == Ordering::Greater) == (a.requirement > b.requirement),
{
    if a.requirement < b.requirement {
        Ordering::Less
    } else if a.requirement == b.requirement {
        Ordering::Equal
    } else {
        Ordering::Greater
    }
}

/// What a moderator's action did to a member's XP.
#[derive(Clone, Copy, Debug, PartialEq, Eq)]
#[non_exhaustive]
pub enum AuditLogEventKind {
    AddOrSub,
    Reset,
    SetTo,
    KickReset,
    BanReset,
}

/// The number stored for each kind.
pub open spec fn kind_number(k: AuditLogEventKind) -> int {
    match k {
        AuditLogEventKind::AddOrSub => 0,
        AuditLogEventKind::Reset => 1,
        AuditLogEventKind::SetTo => 2,
        AuditLogEventKind::KickReset => 3,
        AuditLogEventKind::BanReset => 4,
    }
}

/// The kind stored as `t`, if `t` is one.
pub open spec fn kind_from_number(t: int) -> Option<AuditLogEventKind> {
    if t == 0 {
        Some(AuditLogEventKind::AddOrSub)
    } else if t == 1 {
        Some(AuditLogEventKind::Reset)
    } else if t == 2 {
        Some(AuditLogEventKind::SetTo)
    } else if t == 3 {
        Some(AuditLogEventKind::KickReset)
    } else if t == 4 {
        Some(AuditLogEventKind::BanReset)
    } else {
        None
    }
}

impl AuditLogEventKind {
    /// The kind stored as `t`, if `t` is one.
    pub fn from_i64(t: i64) -> (r: Option<Self>)
        ensures
            r == kind_from_number(t as int),
    {
        if t == 0 {
            Some(AuditLogEventKind::AddOrSub)
        } else if t == 1 {
            Some(AuditLogEventKind::Reset)
        } else if t == 2 {
            Some(AuditLogEventKind::SetTo)
        } else if t == 3 {
            Some(AuditLogEventKind::KickReset)
        } else if t == 4 {
            Some(AuditLogEventKind::BanReset)
        } else {
            None
        }
    }

    /// The number this kind is stored as.
    pub fn to_i64(self) -> (r: i64)
        ensures
            r == kind_number(self),
    {
        match self {
            AuditLogEventKind::AddOrSub => 0,
            AuditLogEventKind::Reset => 1,
            AuditLogEventKind::SetTo => 2,
            AuditLogEventKind::KickReset => 3,
            AuditLogEventKind::BanReset => 4,
        }
    }
}

/// Storing a kind as a number and reading it back gives the same kind, and a
/// number that reads as a kind is the number that kind is stored as.
pub proof fn law_audit_log_kind_roundtrip(k: AuditLogEventKind, t: int)
    ensures
        kind_from_number(kind_number(k)) == Some(k),
        kind_from_number(t) matches Some(k2) ==> kind_number(k2) == t,
        kind_from_number(t) is Some <==> 0 <= t <= 4,
{
}

/// One change a moderator made to a member's XP.
#[derive(Clone, Copy, Debug, PartialEq, Eq)]
pub struct AuditLogEvent {
    pub guild: u64,
    pub target: u64,
    pub moderator: u64,
    pub timestamp: i64,
    pub previous: i64,
    pub delta: i64,
    pub kind: AuditLogEventKind,
}

/// A member's XP in a guild.
#[derive(Debug, Copy, Clone, Eq, PartialEq)]
pub struct UserStatus {
    pub id: u64,
    pub guild: u64,
    pub xp: i64,
}

#[derive(Clone, Copy, Debug, PartialEq, Eq)]
pub struct UserInGuild {
    pub guild: u64,
    pub user: u64,
}

/// Messages between the parts of the bot.
pub enum EventBusMessage {
    InvalidateRewards(u64),
    UpdateConfig(u64, GuildConfig),
}

} // verus!
