//! What the bot records when a moderator kicks or bans a member: their XP is
//! reset, and the reset is written to the audit log.
use vstd::prelude::*;
use crate::common::{AuditLogEvent, AuditLogEventKind};

verus! {

/// The audit-log action of a kick, as Discord numbers it.
pub const MEMBER_KICK: u16 = 20;

/// The audit-log action of a ban, as Discord numbers it.
pub const MEMBER_BAN_ADD: u16 = 22;

/// A moderator action that clears a member's XP.
#[derive(Debug, Clone, Copy, PartialEq, Eq, Hash, Structural)]
pub enum DiscordAuditLogClearType {
    Kick,
    Ban,
}

impl DiscordAuditLogClearType {
    /// The clearing action an audit-log action type is, if it is one.
    pub fn from_audit_log_type(ty: u16) -> (r: Option<Self>)
        ensures
            r == if ty == MEMBER_KICK {
                Some(DiscordAuditLogClearType::Kick)
            } else if ty == MEMBER_BAN_ADD {
                Some(DiscordAuditLogClearType::Ban)
            } else {
                None
            },
    {
        if ty == MEMBER_KICK {
            Some(DiscordAuditLogClearType::Kick)
        } else if ty == MEMBER_BAN_ADD {
            Some(DiscordAuditLogClearType::Ban)
        } else {
            None
        }
    }
}

/// A kick or ban, with who did it to whom where.
#[derive(Debug, Clone, Copy, PartialEq, Eq, Hash, Structural)]
pub struct DiscordAuditLogClearEvent {
    pub moderator: u64,
    pub target: u64,
    pub guild: u64,
    pub kind: DiscordAuditLogClearType,
}

/// What was missing from an audit-log entry.
#[derive(Debug, Clone, Copy, PartialEq, Eq, Structural)]
pub enum AuditLogError {
    GuildMissing,
    TargetMissing,
    ModeratorMissing,
    UnusedKind,
}

impl AuditLogError {
    pub open spec fn spec_message(&self) -> Seq<char> {
        match self {
            AuditLogError::GuildMissing => "Discord did not send a guild for the audit log event!"@,
            AuditLogError::TargetMissing => "Discord did not send a target for the audit log event!"@,
            AuditLogError::ModeratorMissing =>
                "Discord did not send a moderator for the audit log event!"@,
            AuditLogError::UnusedKind => "Discord did not send a moderator for the audit log event!"@,
        }
    }

    pub fn to_string(&self) -> (s: String)
        ensures
            s@ == self.spec_message(),
    {
        match self {
            AuditLogError::GuildMissing => "Discord did not send a guild for the audit log event!".to_string(),
            AuditLogError::TargetMissing => "Discord did not send a target for the audit log event!".to_string(),
            AuditLogError::ModeratorMissing => "Discord did not send a moderator for the audit log event!".to_string(),
            AuditLogError::UnusedKind => "Discord did not send a moderator for the audit log event!".to_string(),
        }
    }
}

/// The kick or ban an audit-log entry records: `None` for other actions; for a
/// kick or ban, the guild, target and moderator must all be there, checked in
/// that order.
pub fn clear_event(
    action_type: u16,
    guild: Option<u64>,
    target: Option<u64>,
    moderator: Option<u64>,
) -> (r: Result<Option<DiscordAuditLogClearEvent>, AuditLogError>)
    ensures
        match DiscordAuditLogClearType::spec_from_type(action_type) {
            None => r == Ok::<Option<DiscordAuditLogClearEvent>, AuditLogError>(None),
            Some(kind) => match (guild, target, moderator) {
                (None, _, _) => r == Err::<Option<DiscordAuditLogClearEvent>, AuditLogError>(
                    AuditLogError::GuildMissing,
                ),
                (Some(_), None, _) => r == Err::<Option<DiscordAuditLogClearEvent>, AuditLogError>(
                    AuditLogError::TargetMissing,
                ),
                (Some(_), Some(_), None) => r == Err::<
                    Option<DiscordAuditLogClearEvent>,
                    AuditLogError,
                >(AuditLogError::ModeratorMissing),
                (Some(g), Some(t), Some(m)) => r == Ok::<
                    Option<DiscordAuditLogClearEvent>,
                    AuditLogError,
                >(Some(DiscordAuditLogClearEvent { moderator: m, target: t, guild: g, kind })),
            },
        },
{
    match DiscordAuditLogClearType::from_audit_log_type(action_type) {
        None => Ok(None),
        Some(kind) => {
            let guild = match guild {
                Some(g) => g,
                None => {
                    return Err(AuditLogError::GuildMissing);
                },
            };
            let target = match target {
                Some(t) => t,
                None => {
                    return Err(AuditLogError::TargetMissing);
                },
            };
            let moderator = match moderator {
                Some(m) => m,
                None => {
                    return Err(AuditLogError::ModeratorMissing);
                },
            };
            Ok(Some(DiscordAuditLogClearEvent { moderator, target, guild, kind }))
        },
    }
}

impl DiscordAuditLogClearType {
    pub open spec fn spec_from_type(ty: u16) -> Option<Self> {
        if ty == MEMBER_KICK {
            Some(DiscordAuditLogClearType::Kick)
        } else if ty == MEMBER_BAN_ADD {
            Some(DiscordAuditLogClearType::Ban)
        } else {
            None
        }
    }
}

/// The audit-log record of a kick or ban made at `timestamp`, for a member who
/// had `old_xp` (none when they had no row): their XP goes to zero.
pub fn clear_record(event: DiscordAuditLogClearEvent, timestamp: i64, old_xp: Option<i64>) -> (r:
    AuditLogEvent)
    requires
        old_xp != Some(i64::MIN),
    ensures
        ({
            let previous = match old_xp {
                Some(x) => x,
                None => 0,
            };
            r == AuditLogEvent {
                guild: event.guild,
                target: event.target,
                moderator: event.moderator,
                timestamp,
                previous,
                delta: (-previous) as i64,
                kind: match event.kind {
                    DiscordAuditLogClearType::Kick => AuditLogEventKind::KickReset,
                    DiscordAuditLogClearType::Ban => AuditLogEventKind::BanReset,
                },
            }
        }),
{
    let previous = match old_xp {
        Some(x) => x,
        None => 0,
    };
    let kind = match event.kind {
        DiscordAuditLogClearType::Kick => AuditLogEventKind::KickReset,
        DiscordAuditLogClearType::Ban => AuditLogEventKind::BanReset,
    };
    AuditLogEvent {
        guild: event.guild,
        target: event.target,
        moderator: event.moderator,
        timestamp,
        previous,
        delta: -previous,
        kind,
    }
}

} // verus!
