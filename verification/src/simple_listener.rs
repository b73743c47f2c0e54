//! The first listener's handling of a message: a member earns between 15 and
//! 25 XP at most once a minute, kept by a cooldown key, and is given the role
//! of the highest reward their new level reaches.
use vstd::prelude::*;
use crate::common::RoleReward;
use crate::listener::random_between;
use crate::mee6::{LevelInfo, is_level_of};
use crate::text::{decimal, push_decimal, push_str, string_with_capacity};

verus! {

/// The least XP a message earns.
pub const SIMPLE_MIN_XP: i16 = 15;

/// The most XP a message earns.
pub const SIMPLE_MAX_XP: i16 = 25;

/// The seconds the cooldown key lives.
pub const COOLDOWN_SECONDS: u64 = 60;

/// The name of the key that marks a member of a guild as on cooldown.
pub open spec fn spec_cooldown_key(guild_id: u64, user_id: u64) -> Seq<char> {
    "cooldown-"@ + decimal(guild_id as nat) + "-"@ + decimal(user_id as nat)
}

/// The name of the key that marks a member of a guild as on cooldown.
pub fn cooldown_key(guild_id: u64, user_id: u64) -> (k: String)
    ensures
        k@ == spec_cooldown_key(guild_id, user_id),
{
    let mut k = string_with_capacity(50);
    push_str(&mut k, "cooldown-");
    push_decimal(&mut k, guild_id);
    push_str(&mut k, "-");
    push_decimal(&mut k, user_id);
    proof {
        reveal_strlit("cooldown-");
        reveal_strlit("-");
    }
    k
}

/// Whether reward `i` is a highest reward that `level` reaches.
pub open spec fn is_best_reward(rewards: Seq<RoleReward>, level: i64, i: int) -> bool {
    &&& 0 <= i < rewards.len()
    &&& rewards[i].requirement <= level
    &&& forall|j: int|
        0 <= j < rewards.len() && #[trigger] rewards[j].requirement <= level
            ==> rewards[j].requirement <= rewards[i].requirement
}

/// Whether some reward is reached at `level`.
pub open spec fn any_reached(rewards: Seq<RoleReward>, level: i64) -> bool {
    exists|j: int| 0 <= j < rewards.len() && #[trigger] rewards[j].requirement <= level
}

/// The role of a reward with the greatest requirement at or below `level`, or
/// `None` when `level` reaches no reward. Of rewards with the same greatest
/// requirement, the first.
pub fn best_reward(rewards: &[RoleReward], level: i64) -> (r: Option<u64>)
    ensures
        r is None <==> !any_reached(rewards@, level),
        r matches Some(id) ==> exists|i: int|
            #![trigger is_best_reward(rewards@, level, i)]
            is_best_reward(rewards@, level, i) && rewards@[i].id == id,
{
    let mut best: Option<usize> = None;
    let mut i: usize = 0;
    while i < rewards.len()
        invariant
            i <= rewards.len(),
            best is None ==> forall|j: int| 0 <= j < i ==> #[trigger] rewards@[j].requirement > level,
            best matches Some(b) ==> b < i && rewards@[b as int].requirement <= level && forall|j: int|
                0 <= j < i && #[trigger] rewards@[j].requirement <= level
                    ==> rewards@[j].requirement <= rewards@[b as int].requirement,
        decreases rewards.len() - i,
    {
        let req = rewards[i].requirement;
        if req <= level {
            match best {
                None => {
                    best = Some(i);
                },
                Some(b) => {
                    if req > rewards[b].requirement {
                        best = Some(i);
                    }
                },
            }
        }
        i = i + 1;
    }
    match best {
        None => None,
        Some(b) => {
            assert(is_best_reward(rewards@, level, b as int));
            Some(rewards[b].id)
        },
    }
}

/// A message as the first listener sees it.
#[derive(Debug)]
pub struct ChatMessage {
    /// The guild it was sent in; `None` outside a guild.
    pub guild_id: Option<u64>,
    pub author_id: u64,
    pub author_is_bot: bool,
}

/// Why handling a message failed.
#[derive(Clone, Copy, Debug, PartialEq, Eq, Structural)]
pub enum SaveError {
    /// An event came that the handling was not waiting for.
    OutOfOrder,
}

/// Where the handling of one message stands.
#[derive(Debug)]
pub enum SaveState {
    Start,
    /// Waiting to learn whether the cooldown key is set.
    AwaitCooldownKey { guild_id: u64, key: String },
    /// Waiting for the member's XP total.
    AwaitTotal { guild_id: u64 },
    /// Waiting for the guild's rewards, the member being at `level`.
    AwaitRewards { guild_id: u64, level: i64 },
    Finished,
}

/// What the outside world reports back.
#[derive(Debug)]
pub enum SaveEvent {
    Received,
    /// Whether the cooldown key was set (an unreadable key counts as unset).
    CooldownKey(bool),
    /// The member's stored XP total.
    TotalXp(i64),
    /// The guild's rewards.
    Rewards(Vec<RoleReward>),
}

/// What the handling asks the outside world to do, in order.
#[derive(Debug)]
pub enum SaveAction {
    ReadCooldownKey(String),
    AddXp { guild_id: u64, user_id: u64, amount: i64 },
    SetCooldownKey { key: String, seconds: u64 },
    ReadTotalXp { guild_id: u64, user_id: u64 },
    FetchRewards { guild_id: u64 },
    /// Give the member a role; a refusal is ignored.
    AddRole { guild_id: u64, user_id: u64, role: u64 },
    Done(Result<(), SaveError>),
}

/// The handling ends with `result`.
pub open spec fn save_finishes(
    next: SaveState,
    actions: Seq<SaveAction>,
    result: Result<(), SaveError>,
) -> bool {
    &&& next is Finished
    &&& actions == seq![SaveAction::Done(result)]
}

/// The whole contract of one step: from `state`, on `event`, the handling goes
/// to `next` and asks for `actions`, in order.
pub open spec fn save_step_spec(
    msg: &ChatMessage,
    state: SaveState,
    event: SaveEvent,
    next: SaveState,
    actions: Seq<SaveAction>,
) -> bool {
    let out_of_order = save_finishes(next, actions, Err(SaveError::OutOfOrder));
    match state {
        SaveState::Start => match event {
            SaveEvent::Received => match msg.guild_id {
                None => save_finishes(next, actions, Ok(())),
                Some(g) => {
                    &&& next matches SaveState::AwaitCooldownKey { guild_id, key } && guild_id == g
                        && key@ == spec_cooldown_key(g, msg.author_id)
                    &&& actions.len() == 1
                    &&& actions[0] matches SaveAction::ReadCooldownKey(k) && k@ == spec_cooldown_key(
                        g,
                        msg.author_id,
                    )
                },
            },
            _ => out_of_order,
        },
        SaveState::AwaitCooldownKey { guild_id, key } => match event {
            SaveEvent::CooldownKey(has_sent) => if msg.author_is_bot || has_sent {
                save_finishes(next, actions, Ok(()))
            } else {
                &&& next == SaveState::AwaitTotal { guild_id }
                &&& actions.len() == 3
                &&& actions[0] matches SaveAction::AddXp { guild_id: g, user_id: u, amount: a } && g
                    == guild_id && u == msg.author_id && SIMPLE_MIN_XP <= a <= SIMPLE_MAX_XP
                &&& actions[1] matches SaveAction::SetCooldownKey { key: k, seconds: s } && k@
                    == key@ && s == COOLDOWN_SECONDS
                &&& actions[2] == SaveAction::ReadTotalXp { guild_id, user_id: msg.author_id }
            },
            _ => out_of_order,
        },
        SaveState::AwaitTotal { guild_id } => match event {
            SaveEvent::TotalXp(total) => next matches SaveState::AwaitRewards { guild_id: g, level: l }
                && {
                &&& g == guild_id
                &&& l >= 0 && is_level_of((total as u64) as nat, l as nat)
                &&& actions == seq![SaveAction::FetchRewards { guild_id }]
            },
            _ => out_of_order,
        },
        SaveState::AwaitRewards { guild_id, level } => match event {
            SaveEvent::Rewards(rewards) => if !any_reached(rewards@, level) {
                save_finishes(next, actions, Ok(()))
            } else {
                &&& next is Finished
                &&& actions.len() == 2
                &&& actions[0] matches SaveAction::AddRole { guild_id: g, user_id: u, role } && g
                    == guild_id && u == msg.author_id && exists|i: int|
                    #![trigger is_best_reward(rewards@, level, i)]
                    is_best_reward(rewards@, level, i) && rewards@[i].id == role
                &&& actions[1] == SaveAction::Done(Ok(()))
            },
            _ => out_of_order,
        },
        SaveState::Finished => out_of_order,
    }
}

/// Whether the step can be taken: a total of -1 would be read as the largest
/// XP, whose level is never found.
pub open spec fn save_step_allowed(state: SaveState, event: SaveEvent) -> bool {
    state is AwaitTotal ==> (event matches SaveEvent::TotalXp(t) ==> t != -1)
}

fn save_finish(result: Result<(), SaveError>) -> (r: (SaveState, Vec<SaveAction>))
    ensures
        save_finishes(r.0, r.1@, result),
{
    let mut actions: Vec<SaveAction> = Vec::new();
    actions.push(SaveAction::Done(result));
    (SaveState::Finished, actions)
}

/// One step of the first listener's handling of a message: messages outside a
/// guild are ignored; otherwise the cooldown key is read, and a member who is
/// no bot and not on cooldown earns a random 15 to 25 XP, the key is set for a
/// minute, and the member is given the role of the highest reward their new
/// total reaches.
pub fn save_step(msg: &ChatMessage, state: SaveState, event: SaveEvent) -> (r: (
    SaveState,
    Vec<SaveAction>,
))
    requires
        save_step_allowed(state, event),
    ensures
        save_step_spec(msg, state, event, r.0, r.1@),
{
    match state {
        SaveState::Start => match event {
            SaveEvent::Received => match msg.guild_id {
                None => save_finish(Ok(())),
                Some(guild_id) => {
                    let key = cooldown_key(guild_id, msg.author_id);
                    let read = cooldown_key(guild_id, msg.author_id);
                    let mut actions: Vec<SaveAction> = Vec::new();
                    actions.push(SaveAction::ReadCooldownKey(read));
                    (SaveState::AwaitCooldownKey { guild_id, key }, actions)
                },
            },
            _ => save_finish(Err(SaveError::OutOfOrder)),
        },
        SaveState::AwaitCooldownKey { guild_id, key } => match event {
            SaveEvent::CooldownKey(has_sent) => {
                if msg.author_is_bot || has_sent {
                    return save_finish(Ok(()));
                }
                let amount = random_between(SIMPLE_MIN_XP, SIMPLE_MAX_XP) as i64;
                let mut actions: Vec<SaveAction> = Vec::new();
                actions.push(SaveAction::AddXp { guild_id, user_id: msg.author_id, amount });
                actions.push(SaveAction::SetCooldownKey { key, seconds: COOLDOWN_SECONDS });
                actions.push(SaveAction::ReadTotalXp { guild_id, user_id: msg.author_id });
                (SaveState::AwaitTotal { guild_id }, actions)
            },
            _ => save_finish(Err(SaveError::OutOfOrder)),
        },
        SaveState::AwaitTotal { guild_id } => match event {
            SaveEvent::TotalXp(total) => {
                let xp = total as u64;
                assert(total != -1i64 ==> (total as u64) < 0xffff_ffff_ffff_ffffu64) by (bit_vector);
                let info = LevelInfo::new(xp);
                let level = info.level() as i64;
                let mut actions: Vec<SaveAction> = Vec::new();
                actions.push(SaveAction::FetchRewards { guild_id });
                (SaveState::AwaitRewards { guild_id, level }, actions)
            },
            _ => save_finish(Err(SaveError::OutOfOrder)),
        },
        SaveState::AwaitRewards { guild_id, level } => match event {
            SaveEvent::Rewards(rewards) => match best_reward(rewards.as_slice(), level) {
                None => save_finish(Ok(())),
                Some(role) => {
                    let mut actions: Vec<SaveAction> = Vec::new();
                    actions.push(SaveAction::AddRole { guild_id, user_id: msg.author_id, role });
                    actions.push(SaveAction::Done(Ok(())));
                    (SaveState::Finished, actions)
                },
            },
            _ => save_finish(Err(SaveError::OutOfOrder)),
        },
        SaveState::Finished => save_finish(Err(SaveError::OutOfOrder)),
    }
}


/// Bots, and members whose cooldown key is set, earn nothing; anyone else earns
/// between 15 and 25 XP and has the key set for a minute before anything else
/// is read.
pub proof fn law_simple_cooldown_decides_xp(
    msg: &ChatMessage,
    guild_id: u64,
    key: String,
    has_sent: bool,
    next: SaveState,
    actions: Seq<SaveAction>,
)
    requires
        save_step_spec(
            msg,
            SaveState::AwaitCooldownKey { guild_id, key },
            SaveEvent::CooldownKey(has_sent),
            next,
            actions,
        ),
    ensures
        msg.author_is_bot || has_sent ==> next is Finished && actions == seq![
            SaveAction::Done(Ok(())),
        ],
        !(msg.author_is_bot || has_sent) ==> ({
            &&& actions.len() == 3
            &&& actions[0] matches SaveAction::AddXp { amount: a, .. } && 15 <= a <= 25
            &&& actions[1] matches SaveAction::SetCooldownKey { seconds: s, .. } && s == 60
        }),
{
}

/// The role given is that of a reward the level reaches, and no reward the
/// level reaches has a greater requirement; a role is given whenever the level
/// reaches some reward.
pub proof fn law_best_reward_reached(rewards: Seq<RoleReward>, level: i64, i: int)
    requires
        is_best_reward(rewards, level, i),
    ensures
        any_reached(rewards, level),
        rewards[i].requirement <= level,
        forall|j: int|
            0 <= j < rewards.len() && rewards[j].requirement <= level ==> #[trigger] rewards[j].requirement
                <= rewards[i].requirement,
{
    assert(rewards[i].requirement <= level);
}

} // verus!
