//! The replies of the `/xp` management commands, and the rows an import writes.
use vstd::prelude::*;
use crate::slash::cmd_defs::XpCommandRewardsRemove;
use crate::text::{decimal, signed_decimal, push_decimal, push_signed_decimal, push_str, string_with_capacity};

verus! {

/// Why a management command was refused.
#[derive(Clone, Copy, Debug, PartialEq, Eq, Structural)]
pub enum Error {
    /// Discord did not send a guild ID.
    MissingGuildId,
    /// The command had the wrong number of arguments.
    WrongArgumentCount,
}

impl Error {
    pub open spec fn spec_message(&self) -> Seq<char> {
        match self {
            Error::MissingGuildId => "Discord did not send a guild ID!"@,
            Error::WrongArgumentCount =>
                "Command had wrong number of arguments: `/xp rewards remove` requires either a level or a role!!"@,
        }
    }

    pub fn to_string(&self) -> (s: String)
        ensures
            s@ == self.spec_message(),
    {
        match self {
            Error::MissingGuildId => "Discord did not send a guild ID!".to_string(),
            Error::WrongArgumentCount => "Command had wrong number of arguments: `/xp rewards remove` requires either a level or a role!!".to_string(),
        }
    }
}

/// Which rewards a removal takes away.
#[derive(Clone, Copy, Debug, PartialEq, Eq, Structural)]
pub enum RewardRemoval {
    /// The rewards that grant this role.
    ByRole(u64),
    /// The rewards granted at this level.
    ByLevel(i64),
}

/// A removal goes by the role when one is given, else by the level; with
/// neither it is refused.
pub fn reward_removal(options: &XpCommandRewardsRemove) -> (r: Result<RewardRemoval, Error>)
    ensures
        match options.role {
            Some(role) => r == Ok::<RewardRemoval, Error>(RewardRemoval::ByRole(role)),
            None => match options.level {
                Some(level) => r == Ok::<RewardRemoval, Error>(RewardRemoval::ByLevel(level)),
                None => r == Err::<RewardRemoval, Error>(Error::WrongArgumentCount),
            },
        },
{
    match options.role {
        Some(role) => Ok(RewardRemoval::ByRole(role)),
        None => match options.level {
            Some(level) => Ok(RewardRemoval::ByLevel(level)),
            None => Err(Error::WrongArgumentCount),
        },
    }
}

/// `<@&id>`: how a role is mentioned.
pub open spec fn role_mention(role: u64) -> Seq<char> {
    "<@&"@ + decimal(role as nat) + ">"@
}

fn push_role_mention(s: &mut String, role: u64)
    ensures
        final(s)@ == old(s)@ + role_mention(role),
{
    push_str(s, "<@&");
    push_decimal(s, role);
    push_str(s, ">");
    assert(final(s)@ == old(s)@ + role_mention(role));
}

/// The reply to a removal.
pub open spec fn spec_removal_message(r: RewardRemoval) -> Seq<char> {
    match r {
        RewardRemoval::ByRole(role) => "Removed role reward "@ + role_mention(role) + "!"@,
        RewardRemoval::ByLevel(level) => "Removed role reward for level "@ + signed_decimal(
            level as int,
        ) + "!"@,
    }
}

/// The reply to a removal.
pub fn removal_message(r: RewardRemoval) -> (s: String)
    ensures
        s@ == spec_removal_message(r),
{
    let mut s = string_with_capacity(64);
    match r {
        RewardRemoval::ByRole(role) => {
            push_str(&mut s, "Removed role reward ");
            push_role_mention(&mut s, role);
            push_str(&mut s, "!");
        },
        RewardRemoval::ByLevel(level) => {
            push_str(&mut s, "Removed role reward for level ");
            push_signed_decimal(&mut s, level);
            push_str(&mut s, "!");
        },
    }
    assert(s@ == spec_removal_message(r));
    s
}

/// The reply to adding a reward.
pub fn added_reward_message(role: u64, level: i64) -> (s: String)
    ensures
        s@ == "Added role reward "@ + role_mention(role) + " at level "@ + signed_decimal(
            level as int,
        ) + "!"@,
{
    let mut s = string_with_capacity(64);
    push_str(&mut s, "Added role reward ");
    push_role_mention(&mut s, role);
    push_str(&mut s, " at level ");
    push_signed_decimal(&mut s, level);
    push_str(&mut s, "!");
    assert(s@ == "Added role reward "@ + role_mention(role) + " at level "@ + signed_decimal(
        level as int,
    ) + "!"@);
    s
}

/// One line of the reward list, for a stored reward row (role id, level).
pub open spec fn reward_line(row: (i64, i64)) -> Seq<char> {
    "Role reward <@&"@ + signed_decimal(row.0 as int) + "> at level "@ + signed_decimal(
        row.1 as int,
    ) + "\n"@
}

/// The reward list: one line per row, in order.
pub open spec fn spec_rewards_list(rows: Seq<(i64, i64)>) -> Seq<char>
    decreases rows.len(),
{
    if rows.len() == 0 {
        Seq::empty()
    } else {
        spec_rewards_list(rows.drop_last()) + reward_line(rows.last())
    }
}

/// The reply to `/xp rewards list`, from the stored (role id, level) rows.
pub fn rewards_list_text(rows: &[(i64, i64)]) -> (s: String)
    ensures
        s@ == spec_rewards_list(rows@),
{
    let mut s = string_with_capacity(0);
    let mut i: usize = 0;
    while i < rows.len()
        invariant
            i <= rows.len(),
            s@ == spec_rewards_list(rows@.take(i as int)),
        decreases rows.len() - i,
    {
        let (id, requirement) = rows[i];
        push_str(&mut s, "Role reward <@&");
        push_signed_decimal(&mut s, id);
        push_str(&mut s, "> at level ");
        push_signed_decimal(&mut s, requirement);
        push_str(&mut s, "\n");
        assert(rows@.take(i + 1).drop_last() == rows@.take(i as int));
        i = i + 1;
    }
    assert(rows@.take(rows.len() as int) == rows@);
    s
}

/// The reply while a guild must wait before importing again.
pub fn ratelimit_message(seconds: i64) -> (s: String)
    ensures
        s@ == "This guild is being ratelimited. Try again in "@ + signed_decimal(seconds as int)
            + " seconds."@,
{
    let mut s = string_with_capacity(64);
    push_str(&mut s, "This guild is being ratelimited. Try again in ");
    push_signed_decimal(&mut s, seconds);
    push_str(&mut s, " seconds.");
    s
}

/// The reply after an import.
pub fn import_message(count: u64) -> (s: String)
    ensures
        s@ == "Imported "@ + decimal(count as nat) + " rows of user leveling data!"@,
{
    let mut s = string_with_capacity(64);
    push_str(&mut s, "Imported ");
    push_decimal(&mut s, count);
    push_str(&mut s, " rows of user leveling data!");
    s
}

/// A member as a MEE6 levels file lists them.
#[derive(Clone, Copy, Debug)]
pub struct Mee6User {
    pub id: u64,
    pub level: i64,
    pub xp: i64,
}

/// A member's XP in a guild, as a stored row.
#[derive(Clone, Copy, Debug)]
pub struct XpUserGuildLevel {
    pub id: i64,
    pub guild: i64,
    pub xp: i64,
}

/// The row stored for an imported member: ids are stored as their bits read
/// as signed numbers.
pub open spec fn import_row(user: Mee6User, guild_id: u64) -> XpUserGuildLevel {
    XpUserGuildLevel { id: user.id as i64, guild: guild_id as i64, xp: user.xp }
}

/// The rows stored for an import, one per member, in order.
pub fn import_rows(users: &[Mee6User], guild_id: u64) -> (rows: Vec<XpUserGuildLevel>)
    ensures
        rows@.len() == users@.len(),
        forall|i: int| 0 <= i < users@.len() ==> rows@[i] == import_row(users@[i], guild_id),
{
    let mut rows: Vec<XpUserGuildLevel> = Vec::with_capacity(users.len());
    let mut i: usize = 0;
    while i < users.len()
        invariant
            i <= users.len(),
            rows@.len() == i,
            forall|j: int| 0 <= j < i ==> rows@[j] == import_row(users@[j], guild_id),
        decreases users.len() - i,
    {
        let user = users[i];
        rows.push(XpUserGuildLevel { id: user.id as i64, guild: guild_id as i64, xp: user.xp });
        i = i + 1;
    }
    rows
}

} // verus!
