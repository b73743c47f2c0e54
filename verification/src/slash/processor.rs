//! How an interaction is routed to the command that answers it.
use vstd::prelude::*;
use crate::text::str_equal;

verus! {

/// Why an interaction could not be routed.
#[derive(Clone, Copy, Debug, PartialEq, Eq, Structural)]
pub enum CommandProcessorError {
    UnrecognizedCommand,
    NoInvoker,
    NoTarget,
    NoResolvedData,
    NoMessageTargetId,
    WrongInteractionData,
    NoInteractionData,
    NoGuildId,
}

impl CommandProcessorError {
    pub open spec fn spec_message(&self) -> Seq<char> {
        match self {
            CommandProcessorError::UnrecognizedCommand => "Discord sent a command that is not known!"@,
            CommandProcessorError::NoInvoker =>
                "Discord did not send a user object for the command invoker when it was required!"@,
            CommandProcessorError::NoTarget =>
                "Discord did not send a user object for the command target when it was required!"@,
            CommandProcessorError::NoResolvedData => "Discord did not send part of the Resolved Data!"@,
            CommandProcessorError::NoMessageTargetId => "Discord did not send target ID for message!"@,
            CommandProcessorError::WrongInteractionData =>
                "Discord sent interaction data for an unsupported interaction type!"@,
            CommandProcessorError::NoInteractionData => "Discord did not send any interaction data!"@,
            CommandProcessorError::NoGuildId => "Discord did not send a guild ID!"@,
        }
    }

    pub fn to_string(&self) -> (s: String)
        ensures
            s@ == self.spec_message(),
    {
        match self {
            CommandProcessorError::UnrecognizedCommand => "Discord sent a command that is not known!".to_string(),
            CommandProcessorError::NoInvoker => "Discord did not send a user object for the command invoker when it was required!".to_string(),
            CommandProcessorError::NoTarget => "Discord did not send a user object for the command target when it was required!".to_string(),
            CommandProcessorError::NoResolvedData => "Discord did not send part of the Resolved Data!".to_string(),
            CommandProcessorError::NoMessageTargetId => "Discord did not send target ID for message!".to_string(),
            CommandProcessorError::WrongInteractionData => "Discord sent interaction data for an unsupported interaction type!".to_string(),
            CommandProcessorError::NoInteractionData => "Discord did not send any interaction data!".to_string(),
            CommandProcessorError::NoGuildId => "Discord did not send a guild ID!".to_string(),
        }
    }
}

/// The kinds of application command Discord sends.
#[derive(Clone, Copy, Debug, PartialEq, Eq, Structural)]
pub enum CommandKind {
    ChatInput,
    User,
    Message,
    Other,
}

/// The slash commands the bot answers.
#[derive(Clone, Copy, Debug, PartialEq, Eq, Structural)]
pub enum SlashCommand {
    Help,
    Rank,
    Xp,
    Card,
    Leaderboard,
}

/// The slash command a name stands for.
pub open spec fn spec_slash_command(name: Seq<char>) -> Option<SlashCommand> {
    if name == "help"@ {
        Some(SlashCommand::Help)
    } else if name == "rank"@ {
        Some(SlashCommand::Rank)
    } else if name == "xp"@ {
        Some(SlashCommand::Xp)
    } else if name == "card"@ {
        Some(SlashCommand::Card)
    } else if name == "leaderboard"@ {
        Some(SlashCommand::Leaderboard)
    } else {
        None
    }
}

/// The slash command named `name`.
pub fn slash_command(name: &str) -> (r: Result<SlashCommand, CommandProcessorError>)
    ensures
        match spec_slash_command(name@) {
            Some(c) => r == Ok::<SlashCommand, CommandProcessorError>(c),
            None => r == Err::<SlashCommand, CommandProcessorError>(
                CommandProcessorError::UnrecognizedCommand,
            ),
        },
{
    if str_equal(name, "help") {
        Ok(SlashCommand::Help)
    } else if str_equal(name, "rank") {
        Ok(SlashCommand::Rank)
    } else if str_equal(name, "xp") {
        Ok(SlashCommand::Xp)
    } else if str_equal(name, "card") {
        Ok(SlashCommand::Card)
    } else if str_equal(name, "leaderboard") {
        Ok(SlashCommand::Leaderboard)
    } else {
        Err(CommandProcessorError::UnrecognizedCommand)
    }
}

/// Where an interaction goes.
#[derive(Clone, Copy, Debug, PartialEq, Eq, Structural)]
pub enum Route {
    /// Anything but an application command is answered with a pong.
    Pong,
    /// An application command of this kind, by this invoker, in this guild.
    Command { kind: CommandKind, invoker: u64, guild: u64 },
}

/// What an interaction holds, as far as routing reads it.
pub struct InteractionFacts {
    pub is_application_command: bool,
    /// Whether the interaction carries data, and whether that data is an
    /// application command's.
    pub data: Option<bool>,
    /// The guild member who invoked it, if any, and that member's user id.
    pub member: Option<Option<u64>>,
    /// The user who invoked it, outside a guild.
    pub user: Option<u64>,
    pub guild_id: Option<u64>,
    pub kind: CommandKind,
}

/// The invoker: the member's user when there is a member, else the user.
pub open spec fn spec_invoker(facts: &InteractionFacts) -> Option<u64> {
    match facts.member {
        Some(m) => m,
        None => facts.user,
    }
}

/// Where an interaction goes, or why it cannot: its data, invoker, guild and
/// command kind are checked in that order.
pub open spec fn spec_route(facts: &InteractionFacts) -> Result<Route, CommandProcessorError> {
    if !facts.is_application_command {
        Ok(Route::Pong)
    } else {
        match facts.data {
            None => Err(CommandProcessorError::NoInteractionData),
            Some(false) => Err(CommandProcessorError::WrongInteractionData),
            Some(true) => match spec_invoker(facts) {
                None => Err(CommandProcessorError::NoInvoker),
                Some(invoker) => match facts.guild_id {
                    None => Err(CommandProcessorError::NoGuildId),
                    Some(guild) => if facts.kind == CommandKind::Other {
                        Err(CommandProcessorError::WrongInteractionData)
                    } else {
                        Ok(Route::Command { kind: facts.kind, invoker, guild })
                    },
                },
            },
        }
    }
}

/// Where an interaction goes.
pub fn route(facts: &InteractionFacts) -> (r: Result<Route, CommandProcessorError>)
    ensures
        r == spec_route(facts),
{
    if !facts.is_application_command {
        return Ok(Route::Pong);
    }
    match facts.data {
        None => {
            return Err(CommandProcessorError::NoInteractionData);
        },
        Some(false) => {
            return Err(CommandProcessorError::WrongInteractionData);
        },
        Some(true) => {},
    }
    let invoker = match facts.member {
        Some(m) => m,
        None => facts.user,
    };
    let invoker = match invoker {
        Some(i) => i,
        None => {
            return Err(CommandProcessorError::NoInvoker);
        },
    };
    let guild = match facts.guild_id {
        Some(g) => g,
        None => {
            return Err(CommandProcessorError::NoGuildId);
        },
    };
    match facts.kind {
        CommandKind::Other => Err(CommandProcessorError::WrongInteractionData),
        kind => Ok(Route::Command { kind, invoker, guild }),
    }
}

/// Which resolved entry a user or message command targets: the command must
/// name a target, carry resolved data, and the data must hold the target.
pub fn resolve_target(target_id: Option<u64>, resolved_ids: Option<&[u64]>) -> (r: Result<
    usize,
    CommandProcessorError,
>)
    ensures
        match target_id {
            None => r == Err::<usize, CommandProcessorError>(CommandProcessorError::NoMessageTargetId),
            Some(t) => match resolved_ids {
                None => r == Err::<usize, CommandProcessorError>(
                    CommandProcessorError::NoResolvedData,
                ),
                Some(ids) => match r {
                    Ok(i) => i < ids@.len() && ids@[i as int] == t && forall|j: int|
                        0 <= j < i ==> ids@[j] != t,
                    Err(e) => e == CommandProcessorError::NoTarget && !ids@.contains(t),
                },
            },
        },
{
    let t = match target_id {
        Some(t) => t,
        None => {
            return Err(CommandProcessorError::NoMessageTargetId);
        },
    };
    let ids = match resolved_ids {
        Some(ids) => ids,
        None => {
            return Err(CommandProcessorError::NoResolvedData);
        },
    };
    let mut i: usize = 0;
    while i < ids.len()
        invariant
            i <= ids.len(),
            target_id == Some(t),
            resolved_ids == Some(ids),
            forall|j: int| 0 <= j < i ==> ids@[j] != t,
        decreases ids.len() - i,
    {
        if ids[i] == t {
            return Ok(i);
        }
        i = i + 1;
    }
    Err(CommandProcessorError::NoTarget)
}


/// The name each slash command is registered under.
pub open spec fn command_name(c: SlashCommand) -> Seq<char> {
    match c {
        SlashCommand::Help => "help"@,
        SlashCommand::Rank => "rank"@,
        SlashCommand::Xp => "xp"@,
        SlashCommand::Card => "card"@,
        SlashCommand::Leaderboard => "leaderboard"@,
    }
}

/// Every registered command is recognised by its name, and a recognised name is
/// the registered name of the command it gives: no command is missing, and no
/// two names lead to the same command.
pub proof fn law_registered_commands_recognised(c: SlashCommand, name: Seq<char>)
    ensures
        spec_slash_command(command_name(c)) == Some(c),
        spec_slash_command(name) matches Some(d) ==> name == command_name(d),
{
    reveal_strlit("help");
    reveal_strlit("rank");
    reveal_strlit("xp");
    reveal_strlit("card");
    reveal_strlit("leaderboard");
    assert("help"@[0] == 'h' && "rank"@[0] == 'r' && "xp"@[0] == 'x' && "card"@[0] == 'c'
        && "leaderboard"@[0] == 'l');
    assert("help"@ != "rank"@ && "help"@ != "xp"@ && "help"@ != "card"@ && "help"@
        != "leaderboard"@);
    assert("rank"@ != "xp"@ && "rank"@ != "card"@ && "rank"@ != "leaderboard"@);
    assert("xp"@ != "card"@ && "xp"@ != "leaderboard"@ && "card"@ != "leaderboard"@);
}

} // verus!
