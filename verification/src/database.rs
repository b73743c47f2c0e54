//! What the storage layer decides around its queries: how ids are stored, how
//! stored rows become the bot's values, and what a write's outcome means.
use vstd::prelude::*;
use crate::common::{AuditLogEvent, AuditLogEventKind, GuildConfig, kind_from_number, kind_number};
use crate::interpolation::{Interpolation, ParseError, Template, spec_compile};

verus! {

/// Whether a message came too soon after the member's last one.
#[derive(Debug, Copy, Clone, Hash, PartialEq, Eq, Structural)]
pub enum OnCooldown {
    Yes,
    No,
}

impl OnCooldown {
    pub fn was_on_cooldown(self) -> (r: bool)
        ensures
            r == (self == OnCooldown::Yes),
    {
        match self {
            OnCooldown::Yes => true,
            OnCooldown::No => false,
        }
    }
}

/// What setting the last-message time did: the member was on cooldown exactly
/// when no row was written.
pub fn cooldown_outcome(rows_affected: u64) -> (r: OnCooldown)
    ensures
        (r == OnCooldown::No) == (rows_affected > 0),
{
    if rows_affected > 0 {
        OnCooldown::No
    } else {
        OnCooldown::Yes
    }
}

/// Reads an integer's bits as the integer of the same width and the other
/// signedness.
pub trait ReinterpretPrimitiveBits<O> {
    fn reinterpret_bits(&self) -> O;
}

impl ReinterpretPrimitiveBits<i8> for u8 {
    fn reinterpret_bits(&self) -> (r: i8)
        ensures
            r == *self as i8,
    {
        *self as i8
    }
}

impl ReinterpretPrimitiveBits<i16> for u16 {
    fn reinterpret_bits(&self) -> (r: i16)
        ensures
            r == *self as i16,
    {
        *self as i16
    }
}

impl ReinterpretPrimitiveBits<i32> for u32 {
    fn reinterpret_bits(&self) -> (r: i32)
        ensures
            r == *self as i32,
    {
        *self as i32
    }
}

impl ReinterpretPrimitiveBits<i64> for u64 {
    fn reinterpret_bits(&self) -> (r: i64)
        ensures
            r == *self as i64,
    {
        *self as i64
    }
}

impl ReinterpretPrimitiveBits<i128> for u128 {
    fn reinterpret_bits(&self) -> (r: i128)
        ensures
            r == *self as i128,
    {
        *self as i128
    }
}

impl ReinterpretPrimitiveBits<u8> for i8 {
    fn reinterpret_bits(&self) -> (r: u8)
        ensures
            r == *self as u8,
    {
        *self as u8
    }
}

impl ReinterpretPrimitiveBits<u16> for i16 {
    fn reinterpret_bits(&self) -> (r: u16)
        ensures
            r == *self as u16,
    {
        *self as u16
    }
}

impl ReinterpretPrimitiveBits<u32> for i32 {
    fn reinterpret_bits(&self) -> (r: u32)
        ensures
            r == *self as u32,
    {
        *self as u32
    }
}

impl ReinterpretPrimitiveBits<u64> for i64 {
    fn reinterpret_bits(&self) -> (r: u64)
        ensures
            r == *self as u64,
    {
        *self as u64
    }
}

impl ReinterpretPrimitiveBits<u128> for i128 {
    fn reinterpret_bits(&self) -> (r: u128)
        ensures
            r == *self as u128,
    {
        *self as u128
    }
}

/// How a Discord id is stored: its bits, read as a signed number.
pub fn id_to_db(id: u64) -> (r: i64)
    ensures
        r == id as i64,
{
    id.reinterpret_bits()
}

/// The Discord id a stored number holds. Ids are never zero.
pub fn db_to_id(db: i64) -> (r: u64)
    requires
        db != 0,
    ensures
        r == db as u64,
        r != 0,
{
    let r: u64 = db.reinterpret_bits();
    assert(r != 0) by (bit_vector)
        requires
            r == db as u64,
            db != 0,
    ;
    r
}

/// Storing an id and reading it back gives the same id, and reading a stored
/// number as an id and storing it gives the same number.
pub proof fn law_id_storage_roundtrip(id: u64, db: i64)
    ensures
        (id as i64) as u64 == id,
        (db as u64) as i64 == db,
        (id != 0) == ((id as i64) != 0),
{
    assert((id as i64) as u64 == id) by (bit_vector);
    assert((db as u64) as i64 == db) by (bit_vector);
    assert((id != 0) == ((id as i64) != 0)) by (bit_vector);
}

/// Why a storage step failed.
#[derive(Debug, PartialEq, Eq)]
pub enum Error {
    /// The database reported this error.
    Database(String),
    Interpolation(ParseError),
    UnspecifiedDelete,
    UnknownAuditLogEventKind,
}

/// What a reward deletion matches: the stored role id and the level; a reward
/// matching either goes.
pub fn reward_delete_filter(requirement: Option<i64>, role: Option<u64>) -> (r: Result<
    (Option<i64>, Option<i64>),
    Error,
>)
    ensures
        (requirement is None && role is None) ==> r == Err::<(Option<i64>, Option<i64>), Error>(
            Error::UnspecifiedDelete,
        ),
        !(requirement is None && role is None) ==> (r matches Ok((stored_role, level)) && level
            == requirement && stored_role == match role {
            Some(id) => Some(id as i64),
            None => None::<i64>,
        }),
{
    if requirement.is_none() && role.is_none() {
        return Err(Error::UnspecifiedDelete);
    }
    let stored_role = match role {
        Some(id) => Some(id_to_db(id)),
        None => None,
    };
    Ok((stored_role, requirement))
}

/// A stored audit-log row of a guild.
#[derive(Clone, Copy, Debug, PartialEq, Eq, Structural)]
pub struct AuditLogRow {
    pub target: i64,
    pub moderator: i64,
    pub timestamp: i64,
    pub previous: i64,
    pub delta: i64,
    pub kind: i64,
}

/// Whether a row is one of those asked for: on the given member, by the given
/// moderator, where those are given.
pub open spec fn row_selected(row: AuditLogRow, on_user: Option<u64>, by_moderator: Option<u64>) -> bool {
    (match by_moderator {
        Some(m) => m == row.moderator as u64,
        None => true,
    }) && (match on_user {
        Some(u) => u == row.target as u64,
        None => true,
    })
}

/// The event a row of `guild` holds, once its kind is known.
pub open spec fn row_event(guild: u64, row: AuditLogRow, kind: AuditLogEventKind) -> AuditLogEvent {
    AuditLogEvent {
        guild,
        target: row.target as u64,
        moderator: row.moderator as u64,
        timestamp: row.timestamp,
        previous: row.previous,
        delta: row.delta,
        kind,
    }
}

/// The events of the rows asked for, in order; an asked-for row of an unknown
/// kind fails the whole read.
pub open spec fn spec_audit_log_events(
    guild: u64,
    on_user: Option<u64>,
    by_moderator: Option<u64>,
    rows: Seq<AuditLogRow>,
) -> Result<Seq<AuditLogEvent>, Error>
    decreases rows.len(),
{
    if rows.len() == 0 {
        Ok(Seq::empty())
    } else {
        match spec_audit_log_events(guild, on_user, by_moderator, rows.drop_last()) {
            Err(e) => Err(e),
            Ok(events) => {
                let row = rows.last();
                if !row_selected(row, on_user, by_moderator) {
                    Ok(events)
                } else {
                    match kind_from_number(row.kind as int) {
                        None => Err(Error::UnknownAuditLogEventKind),
                        Some(kind) => Ok(events.push(row_event(guild, row, kind))),
                    }
                }
            },
        }
    }
}

/// Whether every stored id of the rows is a valid (non-zero) id.
pub open spec fn rows_hold_ids(rows: Seq<AuditLogRow>) -> bool {
    forall|i: int| 0 <= i < rows.len() ==> (#[trigger] rows[i]).target != 0 && rows[i].moderator != 0
}

/// The audit-log events of a guild's stored rows, keeping those on `on_user` and
/// by `by_moderator` where those are given.
pub fn audit_log_events(
    guild: u64,
    on_user: Option<u64>,
    by_moderator: Option<u64>,
    rows: &[AuditLogRow],
) -> (r: Result<Vec<AuditLogEvent>, Error>)
    requires
        rows_hold_ids(rows@),
    ensures
        match r {
            Ok(v) => spec_audit_log_events(guild, on_user, by_moderator, rows@) == Ok::<
                Seq<AuditLogEvent>,
                Error,
            >(v@),
            Err(e) => spec_audit_log_events(guild, on_user, by_moderator, rows@) == Err::<
                Seq<AuditLogEvent>,
                Error,
            >(e),
        },
{
    let mut logs: Vec<AuditLogEvent> = Vec::new();
    let mut i: usize = 0;
    while i < rows.len()
        invariant
            i <= rows.len(),
            rows_hold_ids(rows@),
            spec_audit_log_events(guild, on_user, by_moderator, rows@.take(i as int)) == Ok::<
                Seq<AuditLogEvent>,
                Error,
            >(logs@),
        decreases rows.len() - i,
    {
        let row = rows[i];
        assert(rows@.take(i + 1).drop_last() == rows@.take(i as int));
        assert(rows@.take(i + 1).last() == row);
        assert(rows@[i as int].target != 0 && rows@[i as int].moderator != 0);
        let target = db_to_id(row.target);
        let moderator = db_to_id(row.moderator);
        let skip = match by_moderator {
            Some(m) => m != moderator,
            None => false,
        } || match on_user {
            Some(u) => u != target,
            None => false,
        };
        if !skip {
            let kind = match AuditLogEventKind::from_i64(row.kind) {
                Some(k) => k,
                None => {
                    proof {
                        lemma_audit_log_error_stays(guild, on_user, by_moderator, rows@, i as int + 1);
                    }
                    return Err(Error::UnknownAuditLogEventKind);
                },
            };
            logs.push(
                AuditLogEvent {
                    guild,
                    target,
                    moderator,
                    timestamp: row.timestamp,
                    previous: row.previous,
                    delta: row.delta,
                    kind,
                },
            );
        }
        i = i + 1;
    }
    assert(rows@.take(rows.len() as int) == rows@);
    Ok(logs)
}

/// Once reading the first rows fails, reading more of them fails the same way.
proof fn lemma_audit_log_error_stays(
    guild: u64,
    on_user: Option<u64>,
    by_moderator: Option<u64>,
    rows: Seq<AuditLogRow>,
    n: int,
)
    requires
        0 <= n <= rows.len(),
        spec_audit_log_events(guild, on_user, by_moderator, rows.take(n)) is Err,
    ensures
        spec_audit_log_events(guild, on_user, by_moderator, rows) == spec_audit_log_events(
            guild,
            on_user,
            by_moderator,
            rows.take(n),
        ),
    decreases rows.len() - n,
{
    if n < rows.len() {
        assert(rows.take(n + 1).drop_last() == rows.take(n));
        lemma_audit_log_error_stays(guild, on_user, by_moderator, rows, n + 1);
    } else {
        assert(rows.take(n) == rows);
    }
}

/// A guild's settings as they are stored.
pub struct RawGuildConfig {
    pub one_at_a_time: Option<bool>,
    pub level_up_message: Option<String>,
    pub level_up_channel: Option<i64>,
    pub ping_on_level_up: Option<bool>,
    pub min_xp_per_message: Option<i16>,
    pub max_xp_per_message: Option<i16>,
    pub message_cooldown: Option<i16>,
    pub guild_card_default_show_off: bool,
}

impl RawGuildConfig {
    /// Turns stored settings into a guild's settings, compiling the level-up
    /// message; a message that does not compile fails with its error.
    pub fn cook(self) -> (r: Result<GuildConfig, ParseError>)
        requires
            self.level_up_channel != Some(0i64),
        ensures
            match self.level_up_message {
                Some(s) => match spec_compile(s@) {
                    Err(e) => r == Err::<GuildConfig, ParseError>(e),
                    Ok(t) => r matches Ok(gc) && gc.level_up_message matches Some(i) && i@ == t,
                },
                None => r matches Ok(gc) && gc.level_up_message is None,
            },
            r matches Ok(gc) ==> {
                &&& gc.one_at_a_time == self.one_at_a_time
                &&& gc.level_up_channel == match self.level_up_channel {
                    Some(c) => Some(c as u64),
                    None => None::<u64>,
                }
                &&& gc.ping_on_level_up == self.ping_on_level_up
                &&& gc.min_xp_per_message == self.min_xp_per_message
                &&& gc.max_xp_per_message == self.max_xp_per_message
                &&& gc.cooldown == self.message_cooldown
                &&& gc.guild_card_default_show_off == self.guild_card_default_show_off
            },
    {
        let level_up_message = match &self.level_up_message {
            Some(s) => match Interpolation::new(s.as_str()) {
                Ok(i) => Some(i),
                Err(e) => {
                    return Err(e);
                },
            },
            None => None,
        };
        let level_up_channel = match self.level_up_channel {
            Some(c) => Some(db_to_id(c)),
            None => None,
        };
        Ok(
            GuildConfig {
                one_at_a_time: self.one_at_a_time,
                level_up_message,
                level_up_channel,
                ping_on_level_up: self.ping_on_level_up,
                min_xp_per_message: self.min_xp_per_message,
                max_xp_per_message: self.max_xp_per_message,
                cooldown: self.message_cooldown,
                guild_card_default_show_off: self.guild_card_default_show_off,
            },
        )
    }
}

/// A member's stored card choices; colours are hex codes, and `None` means the
/// default.
pub struct RawCustomizations {
    pub username: Option<String>,
    pub rank: Option<String>,
    pub level: Option<String>,
    pub border: Option<String>,
    pub background: Option<String>,
    pub progress_foreground: Option<String>,
    pub progress_background: Option<String>,
    pub background_xp_count: Option<String>,
    pub foreground_xp_count: Option<String>,
    pub font: Option<String>,
    pub toy_image: Option<String>,
    pub card_layout: String,
}

/// A change to a member's card: each `Some` replaces the stored choice.
pub struct CardUpdate {
    pub username: Option<String>,
    pub rank: Option<String>,
    pub level: Option<String>,
    pub border: Option<String>,
    pub background: Option<String>,
    pub progress_background: Option<String>,
    pub progress_foreground: Option<String>,
    pub foreground_xp_count: Option<String>,
    pub background_xp_count: Option<String>,
    pub font: Option<String>,
    pub toy_image: Option<String>,
    pub card_layout: Option<String>,
    /// The layout stored when there is neither a new nor a stored one.
    pub card_layout_default: String,
}

/// A change to a guild's settings: each `Some` replaces the stored setting.
pub struct UpdateGuildConfig {
    pub level_up_message: Option<String>,
    pub level_up_channel: Option<u64>,
    pub ping_users: Option<bool>,
    pub max_xp_per_message: Option<i16>,
    pub min_xp_per_message: Option<i16>,
    pub message_cooldown: Option<i16>,
    pub one_at_a_time: Option<bool>,
    pub guild_card_default_show_off: Option<bool>,
}

impl UpdateGuildConfig {
    /// Whether the change changes nothing.
    pub open spec fn is_empty(&self) -> bool {
        &&& self.level_up_message is None
        &&& self.level_up_channel is None
        &&& self.ping_users is None
        &&& self.max_xp_per_message is None
        &&& self.min_xp_per_message is None
        &&& self.message_cooldown is None
        &&& self.one_at_a_time is None
        &&& self.guild_card_default_show_off is None
    }

    /// A change that changes nothing.
    pub fn new() -> (u: Self)
        ensures
            u.is_empty(),
    {
        UpdateGuildConfig {
            level_up_message: None,
            level_up_channel: None,
            ping_users: None,
            max_xp_per_message: None,
            min_xp_per_message: None,
            message_cooldown: None,
            one_at_a_time: None,
            guild_card_default_show_off: None,
        }
    }

    /// Sets the level-up message when one is given.
    pub fn level_up_message(self, p1: Option<String>) -> (u: Self)
        ensures
            u.level_up_message == if p1 is Some { p1 } else { self.level_up_message },
            u.level_up_channel == self.level_up_channel,
            u.ping_users == self.ping_users,
            u.max_xp_per_message == self.max_xp_per_message,
            u.min_xp_per_message == self.min_xp_per_message,
            u.message_cooldown == self.message_cooldown,
            u.one_at_a_time == self.one_at_a_time,
            u.guild_card_default_show_off == self.guild_card_default_show_off,
    {
        let mut u = self;
        if p1.is_some() {
            u.level_up_message = p1;
        }
        u
    }

    /// Sets the level-up channel when one is given.
    pub fn level_up_channel(self, p1: Option<u64>) -> (u: Self)
        ensures
            u.level_up_channel == if p1 is Some { p1 } else { self.level_up_channel },
            u.level_up_message == self.level_up_message,
            u.ping_users == self.ping_users,
            u.max_xp_per_message == self.max_xp_per_message,
            u.min_xp_per_message == self.min_xp_per_message,
            u.message_cooldown == self.message_cooldown,
            u.one_at_a_time == self.one_at_a_time,
            u.guild_card_default_show_off == self.guild_card_default_show_off,
    {
        let mut u = self;
        if p1.is_some() {
            u.level_up_channel = p1;
        }
        u
    }

    /// Sets whether members are pinged when one is given.
    pub fn ping_users(self, p1: Option<bool>) -> (u: Self)
        ensures
            u.ping_users == if p1 is Some { p1 } else { self.ping_users },
            u.level_up_message == self.level_up_message,
            u.level_up_channel == self.level_up_channel,
            u.max_xp_per_message == self.max_xp_per_message,
            u.min_xp_per_message == self.min_xp_per_message,
            u.message_cooldown == self.message_cooldown,
            u.one_at_a_time == self.one_at_a_time,
            u.guild_card_default_show_off == self.guild_card_default_show_off,
    {
        let mut u = self;
        if p1.is_some() {
            u.ping_users = p1;
        }
        u
    }

    /// Sets the most XP per message when one is given.
    pub fn max_xp_per_message(self, p1: Option<i16>) -> (u: Self)
        ensures
            u.max_xp_per_message == if p1 is Some { p1 } else { self.max_xp_per_message },
            u.level_up_message == self.level_up_message,
            u.level_up_channel == self.level_up_channel,
            u.ping_users == self.ping_users,
            u.min_xp_per_message == self.min_xp_per_message,
            u.message_cooldown == self.message_cooldown,
            u.one_at_a_time == self.one_at_a_time,
            u.guild_card_default_show_off == self.guild_card_default_show_off,
    {
        let mut u = self;
        if p1.is_some() {
            u.max_xp_per_message = p1;
        }
        u
    }

    /// Sets the least XP per message when one is given.
    pub fn min_xp_per_message(self, p1: Option<i16>) -> (u: Self)
        ensures
            u.min_xp_per_message == if p1 is Some { p1 } else { self.min_xp_per_message },
            u.level_up_message == self.level_up_message,
            u.level_up_channel == self.level_up_channel,
            u.ping_users == self.ping_users,
            u.max_xp_per_message == self.max_xp_per_message,
            u.message_cooldown == self.message_cooldown,
            u.one_at_a_time == self.one_at_a_time,
            u.guild_card_default_show_off == self.guild_card_default_show_off,
    {
        let mut u = self;
        if p1.is_some() {
            u.min_xp_per_message = p1;
        }
        u
    }

    /// Sets the message cooldown when one is given.
    pub fn message_cooldown(self, p1: Option<i16>) -> (u: Self)
        ensures
            u.message_cooldown == if p1 is Some { p1 } else { self.message_cooldown },
            u.level_up_message == self.level_up_message,
            u.level_up_channel == self.level_up_channel,
            u.ping_users == self.ping_users,
            u.max_xp_per_message == self.max_xp_per_message,
            u.min_xp_per_message == self.min_xp_per_message,
            u.one_at_a_time == self.one_at_a_time,
            u.guild_card_default_show_off == self.guild_card_default_show_off,
    {
        let mut u = self;
        if p1.is_some() {
            u.message_cooldown = p1;
        }
        u
    }

    /// Sets one reward at a time when given.
    pub fn one_at_a_time(self, p1: Option<bool>) -> (u: Self)
        ensures
            u.one_at_a_time == if p1 is Some { p1 } else { self.one_at_a_time },
            u.level_up_message == self.level_up_message,
            u.level_up_channel == self.level_up_channel,
            u.ping_users == self.ping_users,
            u.max_xp_per_message == self.max_xp_per_message,
            u.min_xp_per_message == self.min_xp_per_message,
            u.message_cooldown == self.message_cooldown,
            u.guild_card_default_show_off == self.guild_card_default_show_off,
    {
        let mut u = self;
        if p1.is_some() {
            u.one_at_a_time = p1;
        }
        u
    }

    /// Sets whether the guild's card is shown off by default when given.
    pub fn guild_card_default_show_off(self, p1: Option<bool>) -> (u: Self)
        ensures
            u.guild_card_default_show_off == if p1 is Some {
                p1
            } else {
                self.guild_card_default_show_off
            },
            u.level_up_message == self.level_up_message,
            u.level_up_channel == self.level_up_channel,
            u.ping_users == self.ping_users,
            u.max_xp_per_message == self.max_xp_per_message,
            u.min_xp_per_message == self.min_xp_per_message,
            u.message_cooldown == self.message_cooldown,
            u.one_at_a_time == self.one_at_a_time,
    {
        let mut u = self;
        if p1.is_some() {
            u.guild_card_default_show_off = p1;
        }
        u
    }
}


/// The row an audit-log event is stored as: its ids as stored numbers and its
/// kind as its number.
pub open spec fn spec_event_row(e: AuditLogEvent) -> AuditLogRow {
    AuditLogRow {
        target: e.target as i64,
        moderator: e.moderator as i64,
        timestamp: e.timestamp,
        previous: e.previous,
        delta: e.delta,
        kind: kind_number(e.kind) as i64,
    }
}

/// The row an audit-log event is stored as.
pub fn event_row(e: AuditLogEvent) -> (r: AuditLogRow)
    ensures
        r == spec_event_row(e),
{
    AuditLogRow {
        target: id_to_db(e.target),
        moderator: id_to_db(e.moderator),
        timestamp: e.timestamp,
        previous: e.previous,
        delta: e.delta,
        kind: e.kind.to_i64(),
    }
}

/// Holds of the events on `on_user` and by `by_moderator`, where those are given.
pub open spec fn event_selected(on_user: Option<u64>, by_moderator: Option<u64>) -> spec_fn(
    AuditLogEvent,
) -> bool {
    |e: AuditLogEvent|
        (match by_moderator {
            Some(m) => m == e.moderator,
            None => true,
        }) && (match on_user {
            Some(u) => u == e.target,
            None => true,
        })
}

/// The rows stored for events, in order.
pub open spec fn event_rows(events: Seq<AuditLogEvent>) -> Seq<AuditLogRow> {
    events.map_values(|e: AuditLogEvent| spec_event_row(e))
}

/// Reading back a guild's stored audit-log events gives exactly the events
/// stored, in order, that are on the member and by the moderator asked for.
pub proof fn law_audit_log_reads_back(
    guild: u64,
    on_user: Option<u64>,
    by_moderator: Option<u64>,
    events: Seq<AuditLogEvent>,
)
    requires
        forall|i: int| 0 <= i < events.len() ==> (#[trigger] events[i]).guild == guild,
    ensures
        spec_audit_log_events(guild, on_user, by_moderator, event_rows(events)) == Ok::<
            Seq<AuditLogEvent>,
            Error,
        >(events.filter(event_selected(on_user, by_moderator))),
    decreases events.len(),
{
    reveal(Seq::filter);
    let rows = event_rows(events);
    if events.len() == 0 {
        assert(rows =~= Seq::<AuditLogRow>::empty());
        assert(events.filter(event_selected(on_user, by_moderator)) =~= Seq::<AuditLogEvent>::empty());
    } else {
        let init = events.drop_last();
        assert forall|i: int| 0 <= i < init.len() implies (#[trigger] init[i]).guild == guild by {
            assert(init[i] == events[i]);
        }
        law_audit_log_reads_back(guild, on_user, by_moderator, init);
        assert(rows.drop_last() =~= event_rows(init));
        let e = events.last();
        assert(e == events[events.len() - 1]);
        let row = rows.last();
        assert(row == spec_event_row(e));
        law_id_storage_roundtrip(e.target, 0);
        law_id_storage_roundtrip(e.moderator, 0);
        assert(row_selected(row, on_user, by_moderator) == event_selected(on_user, by_moderator)(e));
        assert(kind_from_number(row.kind as int) == Some(e.kind));
        assert(row_event(guild, row, e.kind) == e);
    }
}

} // verus!
