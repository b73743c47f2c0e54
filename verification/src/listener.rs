//! What the bot decides when a member sends a message: how much XP it earns,
//! whether the member levelled up, and how they are congratulated.
use vstd::prelude::*;
use vstd::hash_map::StringHashMap;
use rand::Rng;
use crate::common::{
    GuildConfig, RoleReward, DEFAULT_MAX_XP_PER_MESSAGE, DEFAULT_MIN_XP_PER_MESSAGE,
    DEFAULT_MESSAGE_COOLDOWN,
};
use crate::database::OnCooldown;
use crate::rewards::{
    RoleChangeList, earned_prefix_len, get_reward_idx, get_role_changes, sort_rewards,
    sorted_rewards, spec_changed_roles, spec_total_roles,
};
use crate::interpolation::{spec_render, text_args};
use crate::mee6::{LevelInfo, is_level_of, law_level_monotonic};
use crate::text::{decimal, signed_decimal, push_decimal, push_signed_decimal, push_str, string_with_capacity};

verus! {

/// The least XP a message earns in a guild.
pub open spec fn min_xp(config: &GuildConfig) -> i16 {
    match config.min_xp_per_message {
        Some(v) => v,
        None => DEFAULT_MIN_XP_PER_MESSAGE,
    }
}

/// The most XP a message earns in a guild.
pub open spec fn max_xp(config: &GuildConfig) -> i16 {
    match config.max_xp_per_message {
        Some(v) => v,
        None => DEFAULT_MAX_XP_PER_MESSAGE,
    }
}

/// The seconds a member waits between messages that earn XP in a guild.
pub open spec fn cooldown_of(config: &GuildConfig) -> int {
    match config.cooldown {
        Some(v) => v as int,
        None => DEFAULT_MESSAGE_COOLDOWN as int,
    }
}

/// The seconds a member waits between messages that earn XP in a guild.
pub fn message_cooldown(config: &GuildConfig) -> (r: i64)
    ensures
        r == cooldown_of(config),
{
    match config.cooldown {
        Some(v) => v as i64,
        None => DEFAULT_MESSAGE_COOLDOWN as i64,
    }
}

/// `rand::rng().random_range(min..=max)`: a number drawn from the thread's
/// generator. Its documentation promises a value in the range, and a panic for
/// an empty range; which value comes is left to chance.
#[verifier::external_body]
pub(crate) fn random_between(min: i16, max: i16) -> (r: i16)
    requires
        min <= max,
    ensures
        min <= r <= max,
{
    rand::rng().random_range(min..=max)
}

/// The XP a message earns: the guild's fixed amount when its least and most are
/// the same, else a random amount between them.
pub fn xp_for_message(config: &GuildConfig) -> (r: i64)
    requires
        min_xp(config) <= max_xp(config),
    ensures
        min_xp(config) <= r <= max_xp(config),
        min_xp(config) == max_xp(config) ==> r == max_xp(config),
{
    let max = match config.max_xp_per_message {
        Some(v) => v,
        None => DEFAULT_MAX_XP_PER_MESSAGE,
    };
    let min = match config.min_xp_per_message {
        Some(v) => v,
        None => DEFAULT_MIN_XP_PER_MESSAGE,
    };
    if max == min {
        max as i64
    } else {
        random_between(min, max) as i64
    }
}

/// A member's XP and level before and after a message.
#[derive(Clone, Copy, Debug, PartialEq, Eq, Structural)]
pub struct XpUpdate {
    pub xp: u64,
    pub old_xp: u64,
    pub level: i64,
    pub old_level: i64,
}

/// Stored XP as the level arithmetic reads it: negative totals count as none.
pub open spec fn clamp_xp(total: int) -> nat {
    if total < 0 {
        0
    } else {
        total as nat
    }
}

/// Whether `level` is the level reached with `xp`.
pub open spec fn is_level_for(xp: nat, level: int) -> bool {
    level >= 0 && is_level_of(xp, level as nat)
}

impl XpUpdate {
    /// Whether the message took the member to a higher level.
    pub open spec fn spec_leveled_up(&self) -> bool {
        self.level > self.old_level
    }

    /// Whether the message took the member to a higher level.
    pub fn leveled_up(&self) -> (r: bool)
        ensures
            r == self.spec_leveled_up(),
    {
        self.level > self.old_level
    }
}

/// The XP and levels around a message that earned `xp_added`, given the total
/// stored after it.
pub fn xp_update(xp_total: i64, xp_added: i64) -> (u: XpUpdate)
    requires
        i64::MIN <= xp_total - xp_added <= i64::MAX,
    ensures
        u.xp == clamp_xp(xp_total as int),
        u.old_xp == clamp_xp(xp_total - xp_added),
        is_level_for(u.xp as nat, u.level as int),
        is_level_for(u.old_xp as nat, u.old_level as int),
{
    let xp: u64 = if xp_total < 0 {
        0
    } else {
        xp_total as u64
    };
    let before = xp_total - xp_added;
    let old_xp: u64 = if before < 0 {
        0
    } else {
        before as u64
    };
    let info = LevelInfo::new(xp);
    let old_info = LevelInfo::new(old_xp);
    let level = info.level();
    let old_level = old_info.level();
    XpUpdate { xp, old_xp, level: level as i64, old_level: old_level as i64 }
}

/// The member who sent a message, as a level-up message names them.
#[derive(Debug)]
pub struct MessageAuthor {
    pub id: u64,
    pub username: String,
    pub display_name: String,
    /// The member's nickname in the guild, if they have one.
    pub nickname: Option<String>,
}

/// The values a level-up template can use. Note that `old_xp` holds the XP
/// after the message and `xp` the XP before it.
pub open spec fn level_up_vars(author: &MessageAuthor, update: XpUpdate) -> Map<Seq<char>, Seq<char>> {
    Map::<Seq<char>, Seq<char>>::empty().insert("user_id"@, decimal(author.id as nat)).insert(
        "user_mention"@,
        "<@"@ + decimal(author.id as nat) + ">"@,
    ).insert("user_username"@, author.username@).insert(
        "user_display_name"@,
        author.display_name@,
    ).insert(
        "user_nickname"@,
        match author.nickname {
            Some(n) => n@,
            None => author.display_name@,
        },
    ).insert("old_level"@, signed_decimal(update.old_level as int)).insert(
        "level"@,
        signed_decimal(update.level as int),
    ).insert("old_xp"@, decimal(update.xp as nat)).insert("xp"@, decimal(update.old_xp as nat))
}

fn decimal_string(n: u64) -> (s: String)
    ensures
        s@ == decimal(n as nat),
{
    let mut s = string_with_capacity(20);
    push_decimal(&mut s, n);
    s
}

fn signed_decimal_string(n: i64) -> (s: String)
    ensures
        s@ == signed_decimal(n as int),
{
    let mut s = string_with_capacity(20);
    push_signed_decimal(&mut s, n);
    s
}

/// The values a level-up template can use.
pub fn level_up_args(author: &MessageAuthor, update: XpUpdate) -> (m: StringHashMap<String>)
    ensures
        text_args(m@) == level_up_vars(author, update),
{
    let mut m: StringHashMap<String> = StringHashMap::new();
    m.insert("user_id".to_string(), decimal_string(author.id));
    let mut mention = string_with_capacity(24);
    push_str(&mut mention, "<@");
    push_decimal(&mut mention, author.id);
    push_str(&mut mention, ">");
    m.insert("user_mention".to_string(), mention);
    m.insert("user_username".to_string(), author.username.clone());
    m.insert("user_display_name".to_string(), author.display_name.clone());
    let nickname = match &author.nickname {
        Some(n) => n.clone(),
        None => author.display_name.clone(),
    };
    m.insert("user_nickname".to_string(), nickname);
    m.insert("old_level".to_string(), signed_decimal_string(update.old_level));
    m.insert("level".to_string(), signed_decimal_string(update.level));
    m.insert("old_xp".to_string(), decimal_string(update.xp));
    m.insert("xp".to_string(), decimal_string(update.old_xp));
    assert(text_args(m@) =~= level_up_vars(author, update));
    m
}

/// How a member is congratulated on a new level.
#[derive(Debug)]
pub struct LevelUpMessage {
    /// The channel the message goes to.
    pub channel: u64,
    /// The message it replies to, when it goes to the channel the member wrote in.
    pub reply_to: Option<u64>,
    /// Whether the member is pinged.
    pub ping: bool,
    pub content: String,
}

/// Whether `r` is how a member who wrote message `message_id` in `channel_id`
/// is congratulated: nothing when the guild has no level-up message, else the
/// rendered template, in the guild's level-up channel if it has one (replying
/// to the message when it goes to the same channel), pinging the member unless
/// the guild turned pings off.
pub open spec fn is_level_up_message(
    config: &GuildConfig,
    channel_id: u64,
    message_id: u64,
    author: &MessageAuthor,
    update: XpUpdate,
    r: Option<LevelUpMessage>,
) -> bool {
    match config.level_up_message {
        None => r is None,
        Some(t) => r matches Some(m) && {
            &&& m.channel == match config.level_up_channel {
                Some(c) => c,
                None => channel_id,
            }
            &&& m.reply_to == if m.channel == channel_id {
                Some(message_id)
            } else {
                None::<u64>
            }
            &&& m.ping == (config.ping_on_level_up != Some(false))
            &&& m.content@ == spec_render(t@, level_up_vars(author, update))
        },
    }
}

/// How a member who wrote message `message_id` in `channel_id` is congratulated,
/// or `None` when the guild has no level-up message: in the guild's level-up
/// channel if it has one, pinging the member unless the guild turned pings off.
pub fn level_up_message(
    config: &GuildConfig,
    channel_id: u64,
    message_id: u64,
    author: &MessageAuthor,
    update: XpUpdate,
) -> (r: Option<LevelUpMessage>)
    ensures
        is_level_up_message(config, channel_id, message_id, author, update, r),
{
    match &config.level_up_message {
        None => None,
        Some(template) => {
            let channel = match config.level_up_channel {
                Some(c) => c,
                None => channel_id,
            };
            let args = level_up_args(author, update);
            let content = template.render(&args);
            let reply_to = if channel == channel_id {
                Some(message_id)
            } else {
                None
            };
            let ping = match config.ping_on_level_up {
                Some(false) => false,
                _ => true,
            };
            Some(LevelUpMessage { channel, reply_to, ping, content })
        },
    }
}


/// A message as the listener receives it.
#[derive(Debug)]
pub struct IncomingMessage {
    /// The guild it was sent in; `None` outside a guild.
    pub guild_id: Option<u64>,
    pub channel_id: u64,
    pub message_id: u64,
    /// When it was sent, in the unit the cooldowns are kept in.
    pub timestamp: i64,
    pub author_is_bot: bool,
    pub author: MessageAuthor,
    /// The author's roles in the guild; `None` when Discord sent no member.
    pub member_roles: Option<Vec<u64>>,
}

/// Why handling a message failed.
#[derive(Clone, Copy, Debug, PartialEq, Eq, Structural)]
pub enum ListenerError {
    /// A guild message came without its member.
    NoMember,
    /// An event came that the handling was not waiting for.
    OutOfOrder,
}

/// Where the handling of one message stands.
#[derive(Debug)]
pub enum MessageState {
    /// Nothing has happened yet.
    Start,
    /// Waiting for the guild's settings.
    AwaitConfig { guild_id: u64 },
    /// Waiting to learn whether the member is on cooldown.
    AwaitCooldown { guild_id: u64, config: GuildConfig },
    /// Waiting for the member's XP total after `xp_added` was stored.
    AwaitXp { guild_id: u64, config: GuildConfig, xp_added: i64 },
    /// Waiting for the guild's role rewards.
    AwaitRewards { guild_id: u64, config: GuildConfig, update: XpUpdate },
    /// Waiting to learn whether the bot may post the congratulation; `roles`
    /// is the role change that follows, if a reward was earned.
    AwaitSendPermission { guild_id: u64, message: LevelUpMessage, roles: Option<RoleChangeList> },
    /// Waiting to learn whether the bot may change the member's roles.
    AwaitRolePermission { guild_id: u64, total_roles: Vec<u64> },
    /// Done; nothing more is awaited.
    Finished,
}

/// What the outside world reports back to the handling of a message.
#[derive(Debug)]
pub enum MessageEvent {
    /// The message arrived.
    Received,
    /// The guild's settings.
    ConfigLoaded(GuildConfig),
    /// Whether the member was on cooldown when the message's time was stored.
    Cooldown(OnCooldown),
    /// The member's XP total after the XP was added.
    XpStored(i64),
    /// The guild's role rewards, in any order.
    Rewards(Vec<RoleReward>),
    /// Whether the bot may post in the congratulation's channel.
    CanSend(bool),
    /// Whether the bot may make the role changes.
    CanUpdateRoles(bool),
}

/// What the handling of a message asks the outside world to do.
#[derive(Debug)]
pub enum MessageAction {
    FetchConfig { guild_id: u64 },
    /// Store the message's time as the member's last, unless they are on cooldown.
    SetCooldown { guild_id: u64, user_id: u64, timestamp: i64, cooldown: i64 },
    AddXp { guild_id: u64, user_id: u64, amount: i64 },
    FetchRewards { guild_id: u64 },
    CheckSendPermission { channel: u64 },
    SendLevelUp(LevelUpMessage),
    CheckRolePermission { guild_id: u64, changed_roles: Vec<u64> },
    UpdateRoles { guild_id: u64, user_id: u64, roles: Vec<u64> },
    /// The handling is over, with this outcome.
    Done(Result<(), ListenerError>),
}

/// The handling ends with `result`.
pub open spec fn finishes(
    next: MessageState,
    actions: Seq<MessageAction>,
    result: Result<(), ListenerError>,
) -> bool {
    &&& next is Finished
    &&& actions == seq![MessageAction::Done(result)]
}

/// Whether `plan` is the role change for a member with `member_roles` at
/// `level`, given the guild's rewards in order: none when no reward is earned.
pub open spec fn planned_roles(
    plan: Option<RoleChangeList>,
    one_at_a_time: bool,
    member_roles: Seq<u64>,
    rewards: Seq<RoleReward>,
    level: i64,
) -> bool {
    let n = earned_prefix_len(rewards, level);
    if n == 0 {
        plan is None
    } else {
        plan matches Some(p) && {
            &&& p.total_roles@ == spec_total_roles(member_roles, rewards, n - 1, one_at_a_time)
            &&& p.changed_roles@ == spec_changed_roles(member_roles, rewards, n - 1, one_at_a_time)
        }
    }
}

/// What follows once the role change is known: the end when there is none,
/// else the check that the bot may make it.
pub open spec fn plan_step(
    guild_id: u64,
    plan: Option<RoleChangeList>,
    next: MessageState,
    actions: Seq<MessageAction>,
) -> bool {
    match plan {
        None => finishes(next, actions, Ok(())),
        Some(p) => {
            &&& next matches MessageState::AwaitRolePermission { guild_id: g, total_roles: t } && g
                == guild_id && t@ == p.total_roles@
            &&& actions.len() == 1
            &&& actions[0] matches MessageAction::CheckRolePermission { guild_id: g, changed_roles: c }
                && g == guild_id && c@ == p.changed_roles@
        },
    }
}

/// The step taken on the guild's rewards: with a new level and a level-up
/// message, the check that the bot may post it, the role change kept for
/// after; else straight on to the role change.
pub open spec fn rewards_step(
    msg: &IncomingMessage,
    guild_id: u64,
    config: GuildConfig,
    update: XpUpdate,
    rewards: Seq<RoleReward>,
    next: MessageState,
    actions: Seq<MessageAction>,
) -> bool {
    let sorted = sorted_rewards(rewards);
    let one = config.one_at_a_time == Some(true);
    match msg.member_roles {
        None => finishes(next, actions, Err(ListenerError::NoMember)),
        Some(roles) => if update.spec_leveled_up() && config.level_up_message is Some {
            &&& next matches MessageState::AwaitSendPermission { guild_id: g, message: m, roles: p }
                && {
                &&& g == guild_id
                &&& is_level_up_message(
                    &config,
                    msg.channel_id,
                    msg.message_id,
                    &msg.author,
                    update,
                    Some(m),
                )
                &&& planned_roles(p, one, roles@, sorted, update.level)
                &&& actions == seq![MessageAction::CheckSendPermission { channel: m.channel }]
            }
        } else {
            exists|p: Option<RoleChangeList>|
                #![trigger planned_roles(p, one, roles@, sorted, update.level)]
                planned_roles(p, one, roles@, sorted, update.level) && plan_step(
                    guild_id,
                    p,
                    next,
                    actions,
                )
        },
    }
}

/// The whole contract of one step of handling a message: from `state`, on
/// `event`, the handling goes to `next` and asks for `actions`, in order.
pub open spec fn message_step_spec(
    msg: &IncomingMessage,
    state: MessageState,
    event: MessageEvent,
    next: MessageState,
    actions: Seq<MessageAction>,
) -> bool {
    let out_of_order = finishes(next, actions, Err(ListenerError::OutOfOrder));
    match state {
        MessageState::Start => match event {
            MessageEvent::Received => if msg.author_is_bot || msg.guild_id is None {
                finishes(next, actions, Ok(()))
            } else if msg.member_roles is None {
                finishes(next, actions, Err(ListenerError::NoMember))
            } else {
                let g = msg.guild_id->Some_0;
                &&& next == MessageState::AwaitConfig { guild_id: g }
                &&& actions == seq![MessageAction::FetchConfig { guild_id: g }]
            },
            _ => out_of_order,
        },
        MessageState::AwaitConfig { guild_id } => match event {
            MessageEvent::ConfigLoaded(config) => {
                &&& actions == seq![
                    MessageAction::SetCooldown {
                        guild_id,
                        user_id: msg.author.id,
                        timestamp: msg.timestamp,
                        cooldown: cooldown_of(&config) as i64,
                    },
                ]
                &&& next == MessageState::AwaitCooldown { guild_id, config }
            },
            _ => out_of_order,
        },
        MessageState::AwaitCooldown { guild_id, config } => match event {
            MessageEvent::Cooldown(OnCooldown::Yes) => finishes(next, actions, Ok(())),
            MessageEvent::Cooldown(OnCooldown::No) => next matches MessageState::AwaitXp {
                guild_id: g,
                config: c,
                xp_added: a,
            } && {
                &&& g == guild_id && c == config
                &&& min_xp(&config) <= a <= max_xp(&config)
                &&& min_xp(&config) == max_xp(&config) ==> a == max_xp(&config)
                &&& actions == seq![
                    MessageAction::AddXp { guild_id, user_id: msg.author.id, amount: a },
                ]
            },
            _ => out_of_order,
        },
        MessageState::AwaitXp { guild_id, config, xp_added } => match event {
            MessageEvent::XpStored(total) => next matches MessageState::AwaitRewards {
                guild_id: g,
                config: c,
                update: u,
            } && {
                &&& g == guild_id && c == config
                &&& u.xp == clamp_xp(total as int)
                &&& u.old_xp == clamp_xp(total - xp_added)
                &&& is_level_for(u.xp as nat, u.level as int)
                &&& is_level_for(u.old_xp as nat, u.old_level as int)
                &&& actions == seq![MessageAction::FetchRewards { guild_id }]
            },
            _ => out_of_order,
        },
        MessageState::AwaitRewards { guild_id, config, update } => match event {
            MessageEvent::Rewards(rewards) => rewards_step(
                msg,
                guild_id,
                config,
                update,
                rewards@,
                next,
                actions,
            ),
            _ => out_of_order,
        },
        MessageState::AwaitSendPermission { guild_id, message, roles } => match event {
            MessageEvent::CanSend(true) => actions.len() >= 1 && actions[0]
                == MessageAction::SendLevelUp(message) && plan_step(
                guild_id,
                roles,
                next,
                actions.drop_first(),
            ),
            MessageEvent::CanSend(false) => plan_step(guild_id, roles, next, actions),
            _ => out_of_order,
        },
        MessageState::AwaitRolePermission { guild_id, total_roles } => match event {
            MessageEvent::CanUpdateRoles(true) => {
                &&& next is Finished
                &&& actions.len() == 2
                &&& actions[0] matches MessageAction::UpdateRoles { guild_id: g, user_id: u, roles: t }
                    && g == guild_id && u == msg.author.id && t@ == total_roles@
                &&& actions[1] == MessageAction::Done(Ok(()))
            },
            MessageEvent::CanUpdateRoles(false) => finishes(next, actions, Ok(())),
            _ => out_of_order,
        },
        MessageState::Finished => out_of_order,
    }
}

/// Whether the step from `state` on `event` can be taken: a random amount
/// needs a range that is not empty, and the XP before the message must fit.
pub open spec fn message_step_allowed(state: MessageState, event: MessageEvent) -> bool {
    match state {
        MessageState::AwaitCooldown { config, .. } => event matches MessageEvent::Cooldown(
            OnCooldown::No,
        ) ==> min_xp(&config) <= max_xp(&config),
        MessageState::AwaitXp { xp_added, .. } => event matches MessageEvent::XpStored(total)
            ==> i64::MIN <= total - xp_added <= i64::MAX,
        _ => true,
    }
}

fn finish(result: Result<(), ListenerError>) -> (r: (MessageState, Vec<MessageAction>))
    ensures
        finishes(r.0, r.1@, result),
{
    let mut actions: Vec<MessageAction> = Vec::new();
    actions.push(MessageAction::Done(result));
    (MessageState::Finished, actions)
}

fn continue_with_roles(guild_id: u64, plan: Option<RoleChangeList>, actions: &mut Vec<MessageAction>) -> (next: MessageState)
    ensures
        final(actions)@.len() >= old(actions)@.len(),
        final(actions)@.take(old(actions)@.len() as int) == old(actions)@,
        plan_step(guild_id, plan, next, final(actions)@.skip(old(actions)@.len() as int)),
{
    let ghost before = actions@;
    match plan {
        None => {
            actions.push(MessageAction::Done(Ok(())));
            assert(actions@.skip(before.len() as int) =~= seq![MessageAction::Done(Ok(()))]);
            assert(actions@.take(before.len() as int) =~= before);
            MessageState::Finished
        },
        Some(p) => {
            actions.push(MessageAction::CheckRolePermission { guild_id, changed_roles: p.changed_roles });
            assert(actions@.take(before.len() as int) =~= before);
            assert(actions@.skip(before.len() as int)[0] == actions@[before.len() as int]);
            MessageState::AwaitRolePermission { guild_id, total_roles: p.total_roles }
        },
    }
}

fn role_plan(config: &GuildConfig, member_roles: &[u64], rewards: &[RoleReward], level: i64) -> (plan: Option<RoleChangeList>)
    ensures
        planned_roles(plan, config.one_at_a_time == Some(true), member_roles@, rewards@, level),
{
    match get_reward_idx(rewards, level) {
        None => None,
        Some(idx) => Some(get_role_changes(config, member_roles, rewards, idx)),
    }
}

/// One step of handling a message: the message, where the handling stands and
/// what was reported give where it goes next and what is to be done, in order.
/// A bot's message or one outside a guild ends it at once, a guild message
/// without its member fails; otherwise the guild's settings are fetched, the
/// cooldown is set, and a member not on cooldown earns XP; a new level is
/// congratulated where the bot may post and the guild has a level-up message;
/// an earned reward changes the member's roles where the bot may.
pub fn message_step(msg: &IncomingMessage, state: MessageState, event: MessageEvent) -> (r: (
    MessageState,
    Vec<MessageAction>,
))
    requires
        message_step_allowed(state, event),
    ensures
        message_step_spec(msg, state, event, r.0, r.1@),
{
    match state {
        MessageState::Start => match event {
            MessageEvent::Received => {
                if msg.author_is_bot {
                    return finish(Ok(()));
                }
                let guild_id = match msg.guild_id {
                    Some(g) => g,
                    None => {
                        return finish(Ok(()));
                    },
                };
                if msg.member_roles.is_none() {
                    return finish(Err(ListenerError::NoMember));
                }
                let mut actions: Vec<MessageAction> = Vec::new();
                actions.push(MessageAction::FetchConfig { guild_id });
                (MessageState::AwaitConfig { guild_id }, actions)
            },
            _ => finish(Err(ListenerError::OutOfOrder)),
        },
        MessageState::AwaitConfig { guild_id } => match event {
            MessageEvent::ConfigLoaded(config) => {
                let cooldown = message_cooldown(&config);
                let mut actions: Vec<MessageAction> = Vec::new();
                actions.push(
                    MessageAction::SetCooldown {
                        guild_id,
                        user_id: msg.author.id,
                        timestamp: msg.timestamp,
                        cooldown,
                    },
                );
                (MessageState::AwaitCooldown { guild_id, config }, actions)
            },
            _ => finish(Err(ListenerError::OutOfOrder)),
        },
        MessageState::AwaitCooldown { guild_id, config } => match event {
            MessageEvent::Cooldown(c) => {
                if c.was_on_cooldown() {
                    return finish(Ok(()));
                }
                let amount = xp_for_message(&config);
                let mut actions: Vec<MessageAction> = Vec::new();
                actions.push(MessageAction::AddXp { guild_id, user_id: msg.author.id, amount });
                (MessageState::AwaitXp { guild_id, config, xp_added: amount }, actions)
            },
            _ => finish(Err(ListenerError::OutOfOrder)),
        },
        MessageState::AwaitXp { guild_id, config, xp_added } => match event {
            MessageEvent::XpStored(total) => {
                let update = xp_update(total, xp_added);
                let mut actions: Vec<MessageAction> = Vec::new();
                actions.push(MessageAction::FetchRewards { guild_id });
                (MessageState::AwaitRewards { guild_id, config, update }, actions)
            },
            _ => finish(Err(ListenerError::OutOfOrder)),
        },
        MessageState::AwaitRewards { guild_id, config, update } => match event {
            MessageEvent::Rewards(rewards) => {
                let ghost given = rewards@;
                let member_roles = match &msg.member_roles {
                    Some(r) => r,
                    None => {
                        return finish(Err(ListenerError::NoMember));
                    },
                };
                let mut rewards = rewards;
                sort_rewards(&mut rewards);
                let plan = role_plan(&config, member_roles.as_slice(), rewards.as_slice(), update.level);
                let mut actions: Vec<MessageAction> = Vec::new();
                if update.leveled_up() {
                    let congratulation = level_up_message(
                        &config,
                        msg.channel_id,
                        msg.message_id,
                        &msg.author,
                        update,
                    );
                    match congratulation {
                        Some(m) => {
                            actions.push(MessageAction::CheckSendPermission { channel: m.channel });
                            return (
                                MessageState::AwaitSendPermission { guild_id, message: m, roles: plan },
                                actions,
                            );
                        },
                        None => {},
                    }
                }
                let ghost p = plan;
                let next = continue_with_roles(guild_id, plan, &mut actions);
                proof {
                    assert(actions@.skip(0) == actions@);
                    assert(planned_roles(p, config.one_at_a_time == Some(true), member_roles@, sorted_rewards(given), update.level));
                }
                (next, actions)
            },
            _ => finish(Err(ListenerError::OutOfOrder)),
        },
        MessageState::AwaitSendPermission { guild_id, message, roles } => match event {
            MessageEvent::CanSend(allowed) => {
                let mut actions: Vec<MessageAction> = Vec::new();
                if allowed {
                    actions.push(MessageAction::SendLevelUp(message));
                }
                let ghost before = actions@;
                let next = continue_with_roles(guild_id, roles, &mut actions);
                proof {
                    if allowed {
                        assert(actions@.drop_first() =~= actions@.skip(1));
                        assert(actions@[0] == before[0]);
                    } else {
                        assert(actions@.skip(0) == actions@);
                    }
                }
                (next, actions)
            },
            _ => finish(Err(ListenerError::OutOfOrder)),
        },
        MessageState::AwaitRolePermission { guild_id, total_roles } => match event {
            MessageEvent::CanUpdateRoles(allowed) => {
                if !allowed {
                    return finish(Ok(()));
                }
                let mut actions: Vec<MessageAction> = Vec::new();
                actions.push(MessageAction::UpdateRoles { guild_id, user_id: msg.author.id, roles: total_roles });
                actions.push(MessageAction::Done(Ok(())));
                (MessageState::Finished, actions)
            },
            _ => finish(Err(ListenerError::OutOfOrder)),
        },
        MessageState::Finished => finish(Err(ListenerError::OutOfOrder)),
    }
}


/// A member's reward roles are brought in line on every message that earns
/// XP, not only on those that level them up: once the guild's rewards arrive
/// and the member's level earns one, the step leads to the role change for the
/// rewards earned (in order of requirement) — at once, or kept for after the
/// congratulation when a new level is to be congratulated.
pub proof fn law_rewards_synced_on_every_message(
    msg: &IncomingMessage,
    guild_id: u64,
    config: GuildConfig,
    update: XpUpdate,
    rewards: Vec<RoleReward>,
    next: MessageState,
    actions: Seq<MessageAction>,
)
    requires
        message_step_spec(
            msg,
            MessageState::AwaitRewards { guild_id, config, update },
            MessageEvent::Rewards(rewards),
            next,
            actions,
        ),
        msg.member_roles is Some,
        earned_prefix_len(sorted_rewards(rewards@), update.level) > 0,
    ensures
        ({
            let sorted = sorted_rewards(rewards@);
            let idx = earned_prefix_len(sorted, update.level) - 1;
            let one = config.one_at_a_time == Some(true);
            let member = msg.member_roles->Some_0@;
            let total = spec_total_roles(member, sorted, idx, one);
            let changed = spec_changed_roles(member, sorted, idx, one);
            if update.spec_leveled_up() && config.level_up_message is Some {
                next matches MessageState::AwaitSendPermission { guild_id: g, roles: Some(p), .. }
                    && g == guild_id && p.total_roles@ == total && p.changed_roles@ == changed
            } else {
                &&& next matches MessageState::AwaitRolePermission { guild_id: g, total_roles: t }
                    && g == guild_id && t@ == total
                &&& actions.len() == 1
                &&& actions[0] matches MessageAction::CheckRolePermission {
                    guild_id: g,
                    changed_roles: c,
                } && g == guild_id && c@ == changed
            }
        }),
{
}

/// A message that earns XP but reaches no reward changes no roles, and ends
/// the handling unless a new level is to be congratulated.
pub proof fn law_no_reward_no_role_change(
    msg: &IncomingMessage,
    guild_id: u64,
    config: GuildConfig,
    update: XpUpdate,
    rewards: Vec<RoleReward>,
    next: MessageState,
    actions: Seq<MessageAction>,
)
    requires
        message_step_spec(
            msg,
            MessageState::AwaitRewards { guild_id, config, update },
            MessageEvent::Rewards(rewards),
            next,
            actions,
        ),
        msg.member_roles is Some,
        earned_prefix_len(sorted_rewards(rewards@), update.level) == 0,
    ensures
        if update.spec_leveled_up() && config.level_up_message is Some {
            next matches MessageState::AwaitSendPermission { roles: None, .. }
        } else {
            next is Finished && actions == seq![MessageAction::Done(Ok(()))]
        },
{
}


/// A message that adds XP never lowers the member's level: the level after is
/// at least the level before, and it is higher only when the XP is.
pub proof fn law_level_never_drops(xp_total: i64, xp_added: i64, u: XpUpdate)
    requires
        xp_added >= 0,
        u.xp == clamp_xp(xp_total as int),
        u.old_xp == clamp_xp(xp_total - xp_added),
        is_level_for(u.xp as nat, u.level as int),
        is_level_for(u.old_xp as nat, u.old_level as int),
    ensures
        u.old_level <= u.level,
        u.spec_leveled_up() ==> u.old_xp < u.xp,
{
    law_level_monotonic(u.old_xp as nat, u.old_level as nat, u.xp as nat, u.level as nat);
}

/// A congratulation goes to the guild's level-up channel when it has one, else
/// to the channel the member wrote in; it replies to the member's message
/// exactly when it goes to that channel; and it pings unless the guild turned
/// pings off.
pub proof fn law_level_up_message_placement(
    config: &GuildConfig,
    channel_id: u64,
    message_id: u64,
    author: &MessageAuthor,
    update: XpUpdate,
    r: Option<LevelUpMessage>,
)
    requires
        is_level_up_message(config, channel_id, message_id, author, update, r),
    ensures
        r is Some <==> config.level_up_message is Some,
        r matches Some(m) ==> {
            &&& (config.level_up_channel matches Some(c) ==> m.channel == c)
            &&& (config.level_up_channel is None ==> m.channel == channel_id)
            &&& (m.reply_to is Some <==> m.channel == channel_id)
            &&& (m.reply_to matches Some(id) ==> id == message_id)
            &&& (!m.ping <==> config.ping_on_level_up == Some(false))
        },
{
}

/// Bots, and messages outside a guild, earn nothing: their handling ends at
/// once, having asked for nothing.
pub proof fn law_bots_earn_nothing(
    msg: &IncomingMessage,
    next: MessageState,
    actions: Seq<MessageAction>,
)
    requires
        message_step_spec(msg, MessageState::Start, MessageEvent::Received, next, actions),
        msg.author_is_bot || msg.guild_id is None,
    ensures
        next is Finished,
        actions == seq![MessageAction::Done(Ok(()))],
{
}

/// A member on cooldown earns nothing; one off cooldown earns an amount in the
/// guild's range, added to their XP in the message's guild.
pub proof fn law_cooldown_decides_xp(
    msg: &IncomingMessage,
    guild_id: u64,
    config: GuildConfig,
    cooldown: OnCooldown,
    next: MessageState,
    actions: Seq<MessageAction>,
)
    requires
        message_step_spec(
            msg,
            MessageState::AwaitCooldown { guild_id, config },
            MessageEvent::Cooldown(cooldown),
            next,
            actions,
        ),
    ensures
        cooldown == OnCooldown::Yes ==> next is Finished && actions == seq![
            MessageAction::Done(Ok(())),
        ],
        cooldown == OnCooldown::No ==> ({
            &&& actions.len() == 1
            &&& actions[0] matches MessageAction::AddXp { guild_id: g, user_id: u, amount: a } && {
                &&& g == guild_id && u == msg.author.id
                &&& min_xp(&config) <= a <= max_xp(&config)
                &&& next matches MessageState::AwaitXp { xp_added: x, .. } && x == a
            }
        }),
{
}

} // verus!
