//! What the bot knows of guild roles and of its own roles, kept up to date from
//! gateway events, and whether it may hand out given roles.
use vstd::prelude::*;
use std::collections::{HashMap, HashSet};
use vstd::std_specs::hash::{axiom_spec_hash_keys_iter, spec_hash_keys_iter};
use vstd::std_specs::iter::IteratorSpec;
use crate::text::{decimal, push_decimal, push_str, string_with_capacity};

verus! {

broadcast use vstd::std_specs::hash::group_hash_axioms;

/// The `MANAGE_ROLES` permission bit.
pub const MANAGE_ROLES: u64 = 0x1000_0000;

/// The `ADMINISTRATOR` permission bit.
pub const ADMINISTRATOR: u64 = 0x8;

/// Where a role stands in its guild's list, and what it allows.
#[derive(Copy, Clone, Debug, PartialEq, Eq, Structural)]
pub struct RoleMetadata {
    pub position: i64,
    pub permissions: u64,
}

/// A role as an event describes it.
#[derive(Copy, Clone, Debug, PartialEq, Eq, Structural)]
pub struct RoleData {
    pub id: u64,
    pub position: i64,
    pub permissions: u64,
}

/// What the cache knows: each role's metadata, each guild's roles, and the
/// bot's own roles in each guild.
pub struct CacheView {
    pub roles: Map<u64, RoleMetadata>,
    pub guild_roles: Map<u64, Set<u64>>,
    pub my_roles: Map<u64, Seq<u64>>,
    pub application_id: u64,
}

pub struct PermissionCache {
    role_cache: HashMap<u64, RoleMetadata>,
    guild_role_cache: HashMap<u64, HashSet<u64>>,
    me_cache: HashMap<u64, Vec<u64>>,
    current_application_id: u64,
}

impl View for PermissionCache {
    type V = CacheView;

    closed spec fn view(&self) -> CacheView {
        CacheView {
            roles: self.role_cache@,
            guild_roles: self.guild_role_cache@.map_values(|s: HashSet<u64>| s@),
            my_roles: self.me_cache@.map_values(|v: Vec<u64>| v@),
            application_id: self.current_application_id,
        }
    }
}

/// The gateway events the cache follows; every other event is `Other`.
pub enum CacheEvent {
    RoleCreate { guild: u64, role: RoleData },
    RoleUpdate { guild: u64, role: RoleData },
    RoleDelete { guild: u64, role: u64 },
    GuildCreate { guild: u64, roles: Vec<RoleData> },
    GuildUpdate { guild: u64, roles: Vec<RoleData> },
    GuildDelete { guild: u64 },
    MemberUpdate { user: u64, guild: u64, roles: Vec<u64> },
    MemberAdd { user: u64, guild: u64, roles: Vec<u64> },
    MemberRemove { user: u64, guild: u64 },
    Other,
}

/// Why a permission question could not be answered.
#[derive(Clone, Copy, Debug, PartialEq, Eq, Structural)]
pub enum Error {
    LockPoisoned,
    UnknownRole(u64),
}

impl Error {
    pub open spec fn spec_message(&self) -> Seq<char> {
        match self {
            Error::LockPoisoned => "RwLock Poisioned, please report this bug"@,
            Error::UnknownRole(id) => "Unknown role: <@&"@ + decimal(*id as nat) + ">"@,
        }
    }

    pub fn to_string(&self) -> (s: String)
        ensures
            s@ == self.spec_message(),
    {
        match self {
            Error::LockPoisoned => "RwLock Poisioned, please report this bug".to_string(),
            Error::UnknownRole(id) => {
                let mut s = string_with_capacity(32);
                push_str(&mut s, "Unknown role: <@&");
                push_decimal(&mut s, *id);
                push_str(&mut s, ">");
                s
            },
        }
    }
}

/// The metadata an event gives a role.
pub open spec fn meta_of(role: RoleData) -> RoleMetadata {
    RoleMetadata { position: role.position, permissions: role.permissions }
}

/// The roles known to a guild, none when it is not cached.
pub open spec fn roles_of(v: CacheView, guild: u64) -> Set<u64> {
    if v.guild_roles.contains_key(guild) {
        v.guild_roles[guild]
    } else {
        Set::empty()
    }
}

/// A role is created or changed.
pub open spec fn after_insert_role(v: CacheView, guild: u64, role: RoleData) -> CacheView {
    CacheView {
        roles: v.roles.insert(role.id, meta_of(role)),
        guild_roles: v.guild_roles.insert(guild, roles_of(v, guild).insert(role.id)),
        ..v
    }
}

/// A role is deleted; a guild left without roles is forgotten.
pub open spec fn after_remove_role(v: CacheView, guild: u64, role: u64) -> CacheView {
    CacheView {
        roles: v.roles.remove(role),
        guild_roles: if !v.guild_roles.contains_key(guild) {
            v.guild_roles
        } else if v.guild_roles[guild].remove(role).is_empty() {
            v.guild_roles.remove(guild)
        } else {
            v.guild_roles.insert(guild, v.guild_roles[guild].remove(role))
        },
        ..v
    }
}

/// The metadata map with the roles of a list recorded in order.
pub open spec fn with_roles(roles: Map<u64, RoleMetadata>, list: Seq<RoleData>) -> Map<
    u64,
    RoleMetadata,
>
    decreases list.len(),
{
    if list.len() == 0 {
        roles
    } else {
        with_roles(roles, list.drop_last()).insert(list.last().id, meta_of(list.last()))
    }
}

/// The ids of a list of roles.
pub open spec fn role_ids(list: Seq<RoleData>) -> Set<u64> {
    list.map_values(|r: RoleData| r.id).to_set()
}

/// A guild is seen whole: its role list is replaced, and every listed role's
/// metadata recorded. (Roles the guild no longer lists keep their metadata.)
pub open spec fn after_reset_guild(v: CacheView, guild: u64, list: Seq<RoleData>) -> CacheView {
    CacheView {
        roles: with_roles(v.roles, list),
        guild_roles: v.guild_roles.insert(guild, role_ids(list)),
        ..v
    }
}

/// The bot leaves a guild: the guild's roles and the bot's roles there are
/// forgotten.
pub open spec fn after_delete_guild(v: CacheView, guild: u64) -> CacheView {
    CacheView {
        roles: if v.guild_roles.contains_key(guild) {
            v.roles.remove_keys(v.guild_roles[guild])
        } else {
            v.roles
        },
        guild_roles: v.guild_roles.remove(guild),
        my_roles: v.my_roles.remove(guild),
        ..v
    }
}

/// A member's roles change; only the bot's own are kept.
pub open spec fn after_insert_self(v: CacheView, user: u64, guild: u64, roles: Seq<u64>) -> CacheView {
    if v.application_id != user {
        v
    } else {
        CacheView { my_roles: v.my_roles.insert(guild, roles), ..v }
    }
}

/// A member leaves; only the bot's own departure is kept.
pub open spec fn after_remove_self(v: CacheView, user: u64, guild: u64) -> CacheView {
    if v.application_id != user {
        v
    } else {
        CacheView { my_roles: v.my_roles.remove(guild), ..v }
    }
}

/// What an event does to the cache.
pub open spec fn after_event(v: CacheView, e: CacheEvent) -> CacheView {
    match e {
        CacheEvent::RoleCreate { guild, role } => after_insert_role(v, guild, role),
        CacheEvent::RoleUpdate { guild, role } => after_insert_role(v, guild, role),
        CacheEvent::RoleDelete { guild, role } => after_remove_role(v, guild, role),
        CacheEvent::GuildCreate { guild, roles } => after_reset_guild(v, guild, roles@),
        CacheEvent::GuildUpdate { guild, roles } => after_reset_guild(v, guild, roles@),
        CacheEvent::GuildDelete { guild } => after_delete_guild(v, guild),
        CacheEvent::MemberUpdate { user, guild, roles } => after_insert_self(v, user, guild, roles@),
        CacheEvent::MemberAdd { user, guild, roles } => after_insert_self(v, user, guild, roles@),
        CacheEvent::MemberRemove { user, guild } => after_remove_self(v, user, guild),
        CacheEvent::Other => v,
    }
}

/// The larger of two positions.
pub open spec fn max_position(a: i64, b: i64) -> i64 {
    if a >= b {
        a
    } else {
        b
    }
}

/// The bot's combined role: the highest position and every permission among
/// the known roles it holds, starting from the guild's `@everyone` role.
pub open spec fn virtual_role(roles: Map<u64, RoleMetadata>, base: RoleMetadata, mine: Seq<u64>) -> RoleMetadata
    decreases mine.len(),
{
    if mine.len() == 0 {
        base
    } else {
        let prev = virtual_role(roles, base, mine.drop_last());
        let id = mine.last();
        if roles.contains_key(id) {
            RoleMetadata {
                position: max_position(prev.position, roles[id].position),
                permissions: prev.permissions | roles[id].permissions,
            }
        } else {
            prev
        }
    }
}

/// The first of `targets` whose metadata is unknown.
pub open spec fn first_unknown(roles: Map<u64, RoleMetadata>, targets: Seq<u64>) -> Option<u64>
    decreases targets.len(),
{
    if targets.len() == 0 {
        None
    } else {
        match first_unknown(roles, targets.drop_last()) {
            Some(t) => Some(t),
            None => if roles.contains_key(targets.last()) {
                None
            } else {
                Some(targets.last())
            },
        }
    }
}

/// Whether permissions include a permission bit.
pub open spec fn has_permission(permissions: u64, bit: u64) -> bool {
    permissions & bit == bit
}

/// Whether the bot may hand out `targets` in `guild`: it must be known to be
/// in the guild, hold role management or administration, and sit above every
/// target; a role it cannot look up is an error.
pub open spec fn spec_can_add_roles(v: CacheView, guild: u64, targets: Seq<u64>) -> Result<bool, Error> {
    if !v.my_roles.contains_key(guild) {
        Ok(false)
    } else if !v.roles.contains_key(guild) {
        Err(Error::UnknownRole(guild))
    } else {
        let me = virtual_role(v.roles, v.roles[guild], v.my_roles[guild]);
        if !has_permission(me.permissions, MANAGE_ROLES) && !has_permission(
            me.permissions,
            ADMINISTRATOR,
        ) {
            Ok(false)
        } else {
            match first_unknown(v.roles, targets) {
                Some(t) => Err(Error::UnknownRole(t)),
                None => Ok(
                    forall|i: int|
                        0 <= i < targets.len() ==> #[trigger] v.roles[targets[i]].position
                            < me.position,
                ),
            }
        }
    }
}

impl PermissionCache {
    /// An empty cache for the bot with this application id.
    pub fn new(current_application_id: u64) -> (c: Self)
        ensures
            c@.roles == Map::<u64, RoleMetadata>::empty(),
            c@.guild_roles == Map::<u64, Set<u64>>::empty(),
            c@.my_roles == Map::<u64, Seq<u64>>::empty(),
            c@.application_id == current_application_id,
    {
        let c = PermissionCache {
            role_cache: HashMap::new(),
            guild_role_cache: HashMap::new(),
            me_cache: HashMap::new(),
            current_application_id,
        };
        assert(c@.guild_roles =~= Map::<u64, Set<u64>>::empty());
        assert(c@.my_roles =~= Map::<u64, Seq<u64>>::empty());
        c
    }

    /// Follows one gateway event.
    pub fn update_cache(&mut self, uc: &CacheEvent) -> (r: Result<(), Error>)
        ensures
            r is Ok,
            final(self)@ == after_event(old(self)@, *uc),
    {
        match uc {
            CacheEvent::RoleCreate { guild, role } => self.cache_insert_role(*guild, role),
            CacheEvent::RoleUpdate { guild, role } => self.cache_insert_role(*guild, role),
            CacheEvent::RoleDelete { guild, role } => self.cache_remove_role(*guild, *role),
            CacheEvent::GuildCreate { guild, roles } => self.cache_reset_guild(*guild, roles.as_slice()),
            CacheEvent::GuildUpdate { guild, roles } => self.cache_reset_guild(*guild, roles.as_slice()),
            CacheEvent::GuildDelete { guild } => self.cache_delete_guild(*guild),
            CacheEvent::MemberUpdate { user, guild, roles } => self.cache_insert_self(
                *user,
                *guild,
                roles.as_slice(),
            ),
            CacheEvent::MemberAdd { user, guild, roles } => self.cache_insert_self(
                *user,
                *guild,
                roles.as_slice(),
            ),
            CacheEvent::MemberRemove { user, guild } => self.cache_remove_self(*user, *guild),
            CacheEvent::Other => Ok(()),
        }
    }

    fn cache_insert_role(&mut self, guild_id: u64, role: &RoleData) -> (r: Result<(), Error>)
        ensures
            r is Ok,
            final(self)@ == after_insert_role(old(self)@, guild_id, *role),
    {
        let role_meta = RoleMetadata { position: role.position, permissions: role.permissions };
        self.role_cache.insert(role.id, role_meta);
        let ghost before = self.guild_role_cache@;
        let mut set = match self.guild_role_cache.remove(&guild_id) {
            Some(s) => s,
            None => HashSet::new(),
        };
        set.insert(role.id);
        self.guild_role_cache.insert(guild_id, set);
        proof {
            let v0 = old(self)@;
            assert(set@ == roles_of(v0, guild_id).insert(role.id));
            assert(self@.guild_roles =~= after_insert_role(v0, guild_id, *role).guild_roles);
            assert(self@.my_roles =~= v0.my_roles);
        }
        Ok(())
    }

    fn cache_remove_role(&mut self, guild_id: u64, role_id: u64) -> (r: Result<(), Error>)
        ensures
            r is Ok,
            final(self)@ == after_remove_role(old(self)@, guild_id, role_id),
    {
        self.role_cache.remove(&role_id);
        let removed = self.guild_role_cache.remove(&guild_id);
        match removed {
            Some(mut roles) => {
                roles.remove(&role_id);
                if !roles.is_empty() {
                    self.guild_role_cache.insert(guild_id, roles);
                }
            },
            None => {},
        }
        proof {
            let v0 = old(self)@;
            let want = after_remove_role(v0, guild_id, role_id);
            if v0.guild_roles.contains_key(guild_id) {
                if v0.guild_roles[guild_id].remove(role_id).is_empty() {
                    assert(self@.guild_roles =~= want.guild_roles);
                } else {
                    assert(self@.guild_roles =~= want.guild_roles);
                }
            } else {
                assert(self@.guild_roles =~= want.guild_roles);
            }
            assert(self@.my_roles =~= v0.my_roles);
        }
        Ok(())
    }

    fn cache_reset_guild(&mut self, guild_id: u64, roles: &[RoleData]) -> (r: Result<(), Error>)
        ensures
            r is Ok,
            final(self)@ == after_reset_guild(old(self)@, guild_id, roles@),
    {
        let mut new_guild_role_set: HashSet<u64> = HashSet::with_capacity(roles.len());
        let mut i: usize = 0;
        while i < roles.len()
            invariant
                i <= roles.len(),
                new_guild_role_set@ == role_ids(roles@.take(i as int)),
            decreases roles.len() - i,
        {
            new_guild_role_set.insert(roles[i].id);
            proof {
                lemma_role_ids_step(roles@, i as int);
            }
            i = i + 1;
        }
        assert(roles@.take(roles.len() as int) == roles@);
        self.guild_role_cache.insert(guild_id, new_guild_role_set);
        let ghost start = self.role_cache@;
        let mut j: usize = 0;
        while j < roles.len()
            invariant
                j <= roles.len(),
                self.role_cache@ == with_roles(start, roles@.take(j as int)),
                self.guild_role_cache@ == old(self).guild_role_cache@.insert(
                    guild_id,
                    new_guild_role_set,
                ),
                self.me_cache@ == old(self).me_cache@,
                self.current_application_id == old(self).current_application_id,
                start == old(self).role_cache@,
            decreases roles.len() - j,
        {
            let role = roles[j];
            self.role_cache.insert(
                role.id,
                RoleMetadata { position: role.position, permissions: role.permissions },
            );
            assert(roles@.take(j + 1).drop_last() == roles@.take(j as int));
            j = j + 1;
        }
        proof {
            let v0 = old(self)@;
            assert(self@.guild_roles =~= after_reset_guild(v0, guild_id, roles@).guild_roles);
            assert(self@.my_roles =~= v0.my_roles);
        }
        Ok(())
    }

    fn cache_delete_guild(&mut self, guild: u64) -> (r: Result<(), Error>)
        ensures
            r is Ok,
            final(self)@ == after_delete_guild(old(self)@, guild),
    {
        let removed = self.guild_role_cache.remove(&guild);
        match removed {
            Some(grc_set) => {
                let ghost start = self.role_cache@;
                let ghost all = spec_hash_keys_iter(&grc_set).remaining();
                proof {
                    axiom_spec_hash_keys_iter(&grc_set);
                }
                for item in it: grc_set.iter()
                    invariant
                        it.seq() == all,
                        self.guild_role_cache@ == old(self).guild_role_cache@.remove(guild),
                        self.me_cache@ == old(self).me_cache@,
                        self.current_application_id == old(self).current_application_id,
                        self.role_cache@ == start.remove_keys(
                            all.take(it.index()).unref().to_set(),
                        ),
                {
                    self.role_cache.remove(item);
                    proof {
                        let done = all.take(it.index()).unref();
                        let next = all.take(it.index() + 1).unref();
                        assert(next == done.push(*item));
                        lemma_push_to_set(done, *item);
                        assert(self.role_cache@ =~= start.remove_keys(next.to_set()));
                    }
                }
                proof {
                    assert(all.take(all.len() as int) == all);
                    assert(all.unref().to_set() == grc_set@);
                }
            },
            None => {},
        }
        self.me_cache.remove(&guild);
        proof {
            let v0 = old(self)@;
            let want = after_delete_guild(v0, guild);
            assert(self@.guild_roles =~= want.guild_roles);
            assert(self@.my_roles =~= want.my_roles);
            assert(self@.roles =~= want.roles);
        }
        Ok(())
    }

    fn cache_insert_self(&mut self, user_id: u64, guild_id: u64, roles: &[u64]) -> (r: Result<
        (),
        Error,
    >)
        ensures
            r is Ok,
            final(self)@ == after_insert_self(old(self)@, user_id, guild_id, roles@),
    {
        if self.current_application_id != user_id {
            return Ok(());
        }
        let mut list: Vec<u64> = Vec::with_capacity(roles.len());
        let mut i: usize = 0;
        while i < roles.len()
            invariant
                i <= roles.len(),
                list@ == roles@.take(i as int),
            decreases roles.len() - i,
        {
            list.push(roles[i]);
            i = i + 1;
            assert(list@ == roles@.take(i as int));
        }
        assert(roles@.take(roles.len() as int) == roles@);
        self.me_cache.insert(guild_id, list);
        proof {
            let v0 = old(self)@;
            assert(self@.my_roles =~= after_insert_self(v0, user_id, guild_id, roles@).my_roles);
            assert(self@.guild_roles =~= v0.guild_roles);
        }
        Ok(())
    }

    fn cache_remove_self(&mut self, user_id: u64, guild_id: u64) -> (r: Result<(), Error>)
        ensures
            r is Ok,
            final(self)@ == after_remove_self(old(self)@, user_id, guild_id),
    {
        if self.current_application_id != user_id {
            return Ok(());
        }
        self.me_cache.remove(&guild_id);
        proof {
            let v0 = old(self)@;
            assert(self@.my_roles =~= after_remove_self(v0, user_id, guild_id).my_roles);
            assert(self@.guild_roles =~= v0.guild_roles);
        }
        Ok(())
    }

    /// Whether the bot may hand out one role.
    pub fn can_add_role(&self, guild_id: u64, target_role: u64) -> (r: Result<bool, Error>)
        ensures
            r == spec_can_add_roles(self@, guild_id, seq![target_role]),
    {
        let role_list = [target_role];
        let r = self.can_add_roles(guild_id, role_list.as_slice());
        assert(role_list@ == seq![target_role]);
        r
    }

    /// Whether the bot may hand out every one of `target_roles`.
    pub fn can_add_roles(&self, guild_id: u64, target_roles: &[u64]) -> (r: Result<bool, Error>)
        ensures
            r == spec_can_add_roles(self@, guild_id, target_roles@),
    {
        let my_roles = match self.me_cache.get(&guild_id) {
            Some(v) => v,
            None => {
                return Ok(false);
            },
        };
        proof {
            assert(self@.my_roles[guild_id] == my_roles@);
        }
        let baseline = match self.role_cache.get(&guild_id) {
            Some(b) => *b,
            None => {
                return Err(Error::UnknownRole(guild_id));
            },
        };
        let ghost roles = self.role_cache@;
        let mut position = baseline.position;
        let mut permissions = baseline.permissions;
        let mut i: usize = 0;
        while i < my_roles.len()
            invariant
                i <= my_roles.len(),
                roles == self.role_cache@,
                virtual_role(roles, baseline, my_roles@.take(i as int)) == (RoleMetadata {
                    position,
                    permissions,
                }),
            decreases my_roles.len() - i,
        {
            let role_id = my_roles[i];
            assert(my_roles@.take(i + 1).drop_last() == my_roles@.take(i as int));
            match self.role_cache.get(&role_id) {
                Some(role) => {
                    if role.position > position {
                        position = role.position;
                    }
                    permissions = permissions | role.permissions;
                },
                None => {},
            }
            i = i + 1;
        }
        assert(my_roles@.take(my_roles.len() as int) == my_roles@);
        if permissions & MANAGE_ROLES != MANAGE_ROLES && permissions & ADMINISTRATOR != ADMINISTRATOR {
            return Ok(false);
        }
        let mut can_assign = true;
        let mut k: usize = 0;
        while k < target_roles.len()
            invariant
                k <= target_roles.len(),
                roles == self.role_cache@,
                self@.my_roles.contains_key(guild_id),
                roles.contains_key(guild_id),
                virtual_role(roles, roles[guild_id], self@.my_roles[guild_id]) == (RoleMetadata {
                    position,
                    permissions,
                }),
                has_permission(permissions, MANAGE_ROLES) || has_permission(
                    permissions,
                    ADMINISTRATOR,
                ),
                first_unknown(roles, target_roles@.take(k as int)) is None,
                can_assign == forall|t: int|
                    0 <= t < k ==> #[trigger] roles[target_roles@[t]].position < position,
            decreases target_roles.len() - k,
        {
            let target_role = target_roles[k];
            assert(target_roles@.take(k + 1).drop_last() == target_roles@.take(k as int));
            let target = match self.role_cache.get(&target_role) {
                Some(t) => t,
                None => {
                    proof {
                        assert(target_roles@.take(k + 1).last() == target_role);
                        assert(first_unknown(roles, target_roles@.take(k + 1)) == Some(target_role));
                        lemma_first_unknown_stays(roles, target_roles@, k as int + 1);
                    }
                    return Err(Error::UnknownRole(target_role));
                },
            };
            if target.position >= position {
                can_assign = false;
            }
            k = k + 1;
        }
        assert(target_roles@.take(target_roles.len() as int) == target_roles@);
        Ok(can_assign)
    }

    /// The bot's roles in a guild, none when it is not known to be there.
    pub fn my_roles(&self, guild_id: u64) -> (r: Result<Vec<u64>, Error>)
        ensures
            r matches Ok(v) && v@ == if self@.my_roles.contains_key(guild_id) {
                self@.my_roles[guild_id]
            } else {
                Seq::<u64>::empty()
            },
    {
        match self.me_cache.get(&guild_id) {
            Some(v) => {
                let copy = v.clone();
                assert(copy@ == v@);
                Ok(copy)
            },
            None => Ok(Vec::new()),
        }
    }
}

/// A created role is known afterwards, with the event's metadata, among its
/// guild's roles.
pub proof fn law_inserted_role_known(v: CacheView, guild: u64, role: RoleData)
    ensures
        after_insert_role(v, guild, role).roles[role.id] == meta_of(role),
        roles_of(after_insert_role(v, guild, role), guild).contains(role.id),
        after_insert_role(v, guild, role).my_roles == v.my_roles,
{
}

/// Deleting a role right after creating it forgets the role: its metadata is
/// gone, and its guild's roles are those from before without it.
pub proof fn law_remove_undoes_insert(v: CacheView, guild: u64, role: RoleData)
    ensures
        ({
            let w = after_remove_role(after_insert_role(v, guild, role), guild, role.id);
            &&& w.roles == v.roles.remove(role.id)
            &&& roles_of(w, guild) == roles_of(v, guild).remove(role.id)
            &&& w.my_roles == v.my_roles
        }),
{
    let u = after_insert_role(v, guild, role);
    let w = after_remove_role(u, guild, role.id);
    assert(u.roles.remove(role.id) =~= v.roles.remove(role.id));
    assert(roles_of(v, guild).insert(role.id).remove(role.id) =~= roles_of(v, guild).remove(
        role.id,
    ));
    if roles_of(v, guild).remove(role.id).is_empty() {
        assert(roles_of(w, guild) =~= roles_of(v, guild).remove(role.id));
    }
}

/// Another member's roles, or departure, change nothing.
pub proof fn law_other_members_ignored(v: CacheView, user: u64, guild: u64, roles: Seq<u64>)
    requires
        user != v.application_id,
    ensures
        after_insert_self(v, user, guild, roles) == v,
        after_remove_self(v, user, guild) == v,
{
}

/// After the bot leaves a guild, nothing of the guild is known: not its roles,
/// not their metadata, not the bot's roles there; and the bot may hand out no
/// roles there.
pub proof fn law_deleted_guild_forgotten(v: CacheView, guild: u64, targets: Seq<u64>)
    ensures
        !after_delete_guild(v, guild).guild_roles.contains_key(guild),
        !after_delete_guild(v, guild).my_roles.contains_key(guild),
        forall|r: u64|
            roles_of(v, guild).contains(r) ==> !(#[trigger] after_delete_guild(
                v,
                guild,
            ).roles.contains_key(r)),
        spec_can_add_roles(after_delete_guild(v, guild), guild, targets) == Ok::<bool, Error>(false),
{
}

proof fn lemma_role_ids_step(list: Seq<RoleData>, i: int)
    requires
        0 <= i < list.len(),
    ensures
        role_ids(list.take(i + 1)) == role_ids(list.take(i)).insert(list[i].id),
{
    let a = list.take(i).map_values(|r: RoleData| r.id);
    let b = list.take(i + 1).map_values(|r: RoleData| r.id);
    assert(b == a.push(list[i].id));
    assert(b.to_set() =~= a.to_set().insert(list[i].id)) by {
        assert forall|x: u64| b.to_set().contains(x) <==> a.to_set().insert(list[i].id).contains(x) by {
            if b.contains(x) {
                let j = choose|j: int| 0 <= j < b.len() && b[j] == x;
                if j < a.len() {
                    assert(a[j] == x);
                }
            }
            if a.contains(x) {
                let j = choose|j: int| 0 <= j < a.len() && a[j] == x;
                assert(b[j] == x);
            }
            if x == list[i].id {
                assert(b[i] == x);
            }
        }
    }
}

proof fn lemma_push_to_set(s: Seq<u64>, x: u64)
    ensures
        s.push(x).to_set() == s.to_set().insert(x),
{
    let t = s.push(x);
    assert forall|y: u64| t.to_set().contains(y) <==> s.to_set().insert(x).contains(y) by {
        if t.contains(y) {
            let j = choose|j: int| 0 <= j < t.len() && t[j] == y;
            if j < s.len() {
                assert(s[j] == y);
            }
        }
        if s.contains(y) {
            let j = choose|j: int| 0 <= j < s.len() && s[j] == y;
            assert(t[j] == y);
        }
        if y == x {
            assert(t[s.len() as int] == y);
        }
    }
    assert(t.to_set() =~= s.to_set().insert(x));
}

proof fn lemma_first_unknown_stays(roles: Map<u64, RoleMetadata>, targets: Seq<u64>, n: int)
    requires
        0 <= n <= targets.len(),
        first_unknown(roles, targets.take(n)) is Some,
    ensures
        first_unknown(roles, targets) == first_unknown(roles, targets.take(n)),
    decreases targets.len() - n,
{
    if n < targets.len() {
        assert(targets.take(n + 1).drop_last() == targets.take(n));
        lemma_first_unknown_stays(roles, targets, n + 1);
    } else {
        assert(targets.take(n) == targets);
    }
}


/// The cache after following `events` in order.
pub open spec fn after_events(v: CacheView, events: Seq<CacheEvent>) -> CacheView
    decreases events.len(),
{
    if events.len() == 0 {
        v
    } else {
        after_event(after_events(v, events.drop_last()), events.last())
    }
}

/// Whether an event tells the cache that the bot with `application_id` is a
/// member of `guild` (again), with its roles there.
pub open spec fn bot_joins(application_id: u64, guild: u64, e: CacheEvent) -> bool {
    match e {
        CacheEvent::MemberAdd { user, guild: g, .. } => user == application_id && g == guild,
        CacheEvent::MemberUpdate { user, guild: g, .. } => user == application_id && g == guild,
        _ => false,
    }
}

/// Whether an event tells the cache that the bot with `application_id` left
/// `guild`: the guild is deleted, or the bot is removed from it.
pub open spec fn bot_leaves(application_id: u64, guild: u64, e: CacheEvent) -> bool {
    match e {
        CacheEvent::GuildDelete { guild: g } => g == guild,
        CacheEvent::MemberRemove { user, guild: g } => user == application_id && g == guild,
        _ => false,
    }
}

proof fn lemma_stays_out(v: CacheView, guild: u64, events: Seq<CacheEvent>)
    requires
        !v.my_roles.contains_key(guild),
        forall|i: int| 0 <= i < events.len() ==> !bot_joins(v.application_id, guild, #[trigger] events[i]),
    ensures
        !after_events(v, events).my_roles.contains_key(guild),
        after_events(v, events).application_id == v.application_id,
    decreases events.len(),
{
    if events.len() > 0 {
        let init = events.drop_last();
        assert forall|i: int| 0 <= i < init.len() implies !bot_joins(
            v.application_id,
            guild,
            #[trigger] init[i],
        ) by {
            assert(init[i] == events[i]);
        }
        lemma_stays_out(v, guild, init);
        assert(!bot_joins(v.application_id, guild, events[events.len() - 1]));
    }
}

/// Once the bot has left a guild, whether the guild was deleted or the bot was
/// removed, it may hand out no roles there and knows no roles of its own there,
/// whatever other events follow, until it is told again that it is a member.
pub proof fn law_left_guild_grants_nothing(
    v: CacheView,
    guild: u64,
    leave: CacheEvent,
    events: Seq<CacheEvent>,
    targets: Seq<u64>,
)
    requires
        bot_leaves(v.application_id, guild, leave),
        forall|i: int| 0 <= i < events.len() ==> !bot_joins(v.application_id, guild, #[trigger] events[i]),
    ensures
        !after_events(after_event(v, leave), events).my_roles.contains_key(guild),
        spec_can_add_roles(after_events(after_event(v, leave), events), guild, targets) == Ok::<
            bool,
            Error,
        >(false),
{
    let w = after_event(v, leave);
    assert(!w.my_roles.contains_key(guild));
    assert(w.application_id == v.application_id);
    lemma_stays_out(w, guild, events);
}


/// The bot's combined role sits at the highest position among the guild's base
/// role and the known roles it holds: no lower than any of them, and equal to
/// one of them. Its permissions include those of the base role and of every
/// known role it holds.
pub proof fn law_virtual_role_is_highest(
    roles: Map<u64, RoleMetadata>,
    base: RoleMetadata,
    mine: Seq<u64>,
)
    ensures
        virtual_role(roles, base, mine).position >= base.position,
        forall|i: int|
            0 <= i < mine.len() && roles.contains_key(#[trigger] mine[i]) ==> virtual_role(
                roles,
                base,
                mine,
            ).position >= roles[mine[i]].position,
        virtual_role(roles, base, mine).position == base.position || exists|i: int|
            0 <= i < mine.len() && roles.contains_key(#[trigger] mine[i]) && virtual_role(
                roles,
                base,
                mine,
            ).position == roles[mine[i]].position,
        has_bits(virtual_role(roles, base, mine).permissions, base.permissions),
        forall|i: int|
            0 <= i < mine.len() && roles.contains_key(#[trigger] mine[i]) ==> has_bits(
                virtual_role(roles, base, mine).permissions,
                roles[mine[i]].permissions,
            ),
    decreases mine.len(),
{
    let v = virtual_role(roles, base, mine);
    if mine.len() == 0 {
        let b = base.permissions;
        assert(b & b == b) by (bit_vector);
    } else {
        let init = mine.drop_last();
        let prev = virtual_role(roles, base, init);
        law_virtual_role_is_highest(roles, base, init);
        let id = mine.last();
        assert forall|i: int| 0 <= i < init.len() implies #[trigger] mine[i] == init[i] by {}
        if roles.contains_key(id) {
            let x = roles[id].permissions;
            let a = prev.permissions;
            assert(has_bits(a | x, x)) by {
                assert((a | x) & x == x) by (bit_vector);
            }
            assert forall|p: u64| has_bits(a, p) implies has_bits(a | x, p) by {
                assert(a & p == p ==> (a | x) & p == p) by (bit_vector);
            }
            assert(has_bits(a | x, base.permissions));
            if v.position != base.position && v.position != roles[id].position {
                let j = choose|j: int|
                    0 <= j < init.len() && roles.contains_key(#[trigger] init[j])
                        && prev.position == roles[init[j]].position;
                assert(mine[j] == init[j]);
            }
        } else {
            if v.position != base.position {
                let j = choose|j: int|
                    0 <= j < init.len() && roles.contains_key(#[trigger] init[j])
                        && prev.position == roles[init[j]].position;
                assert(mine[j] == init[j]);
            }
        }
        assert forall|i: int|
            0 <= i < mine.len() && roles.contains_key(#[trigger] mine[i]) implies v.position
            >= roles[mine[i]].position && has_bits(v.permissions, roles[mine[i]].permissions) by {
            if i < init.len() {
                assert(mine[i] == init[i]);
            }
        }
    }
}

/// Whether `permissions` has every bit of `bits`.
pub open spec fn has_bits(permissions: u64, bits: u64) -> bool {
    permissions & bits == bits
}

proof fn lemma_all_known(roles: Map<u64, RoleMetadata>, targets: Seq<u64>)
    requires
        forall|i: int| 0 <= i < targets.len() ==> roles.contains_key(#[trigger] targets[i]),
    ensures
        first_unknown(roles, targets) is None,
    decreases targets.len(),
{
    if targets.len() > 0 {
        let init = targets.drop_last();
        assert forall|i: int| 0 <= i < init.len() implies roles.contains_key(#[trigger] init[i]) by {
            assert(init[i] == targets[i]);
        }
        lemma_all_known(roles, init);
        assert(roles.contains_key(targets[targets.len() - 1]));
    }
}

/// When the bot is known to be in a guild whose base role is known, and holds a
/// known role with role management that sits above every target, all of which
/// are known, it may hand the targets out: its highest role decides, whatever
/// other roles it holds and in whatever order.
pub proof fn law_highest_role_grants(v: CacheView, guild: u64, targets: Seq<u64>, held: u64)
    requires
        v.my_roles.contains_key(guild),
        v.roles.contains_key(guild),
        v.my_roles[guild].contains(held),
        v.roles.contains_key(held),
        has_permission(v.roles[held].permissions, MANAGE_ROLES),
        forall|i: int|
            0 <= i < targets.len() ==> v.roles.contains_key(#[trigger] targets[i])
                && v.roles[targets[i]].position < v.roles[held].position,
    ensures
        spec_can_add_roles(v, guild, targets) == Ok::<bool, Error>(true),
{
    let mine = v.my_roles[guild];
    let me = virtual_role(v.roles, v.roles[guild], mine);
    law_virtual_role_is_highest(v.roles, v.roles[guild], mine);
    let k = choose|k: int| 0 <= k < mine.len() && mine[k] == held;
    assert(v.roles.contains_key(mine[k]));
    assert(has_bits(me.permissions, v.roles[held].permissions));
    let p = me.permissions;
    let h = v.roles[held].permissions;
    assert(p & h == h && h & 0x1000_0000u64 == 0x1000_0000u64 ==> p & 0x1000_0000u64
        == 0x1000_0000u64) by (bit_vector);
    lemma_all_known(v.roles, targets);
}

proof fn lemma_with_roles_listed(roles: Map<u64, RoleMetadata>, list: Seq<RoleData>, i: int)
    requires
        0 <= i < list.len(),
        forall|j: int| i < j < list.len() ==> (#[trigger] list[j]).id != list[i].id,
    ensures
        with_roles(roles, list).contains_key(list[i].id),
        with_roles(roles, list)[list[i].id] == meta_of(list[i]),
    decreases list.len(),
{
    if i < list.len() - 1 {
        let init = list.drop_last();
        assert(list[list.len() - 1].id != list[i].id);
        assert forall|j: int| i < j < init.len() implies (#[trigger] init[j]).id != init[i].id by {
            assert(init[j] == list[j]);
        }
        lemma_with_roles_listed(roles, init, i);
    }
}

proof fn lemma_with_roles_unlisted(roles: Map<u64, RoleMetadata>, list: Seq<RoleData>, id: u64)
    requires
        forall|k: int| 0 <= k < list.len() ==> (#[trigger] list[k]).id != id,
    ensures
        with_roles(roles, list).contains_key(id) == roles.contains_key(id),
        roles.contains_key(id) ==> with_roles(roles, list)[id] == roles[id],
    decreases list.len(),
{
    if list.len() > 0 {
        let init = list.drop_last();
        assert(list[list.len() - 1].id != id);
        assert forall|k: int| 0 <= k < init.len() implies (#[trigger] init[k]).id != id by {
            assert(init[k] == list[k]);
        }
        lemma_with_roles_unlisted(roles, init, id);
    }
}

/// A guild seen whole records every listed role with the metadata the event
/// gives it (the last listing, where a role is listed twice), leaves every
/// other role's metadata as it was, and lists exactly the listed roles as the
/// guild's.
pub proof fn law_reset_guild_records_listed(v: CacheView, guild: u64, list: Seq<RoleData>)
    ensures
        forall|i: int|
            #![trigger list[i]]
            0 <= i < list.len() && (forall|j: int| i < j < list.len() ==> list[j].id != list[i].id)
                ==> after_reset_guild(v, guild, list).roles.contains_key(list[i].id)
                && after_reset_guild(v, guild, list).roles[list[i].id] == meta_of(list[i]),
        forall|id: u64|
            (forall|k: int| 0 <= k < list.len() ==> (#[trigger] list[k]).id != id) ==> (
            #[trigger] after_reset_guild(v, guild, list).roles.contains_key(id)
                == v.roles.contains_key(id) && (v.roles.contains_key(id) ==> after_reset_guild(
                v,
                guild,
                list,
            ).roles[id] == v.roles[id])),
        forall|id: u64|
            #[trigger] roles_of(after_reset_guild(v, guild, list), guild).contains(id) <==> exists|k: int|
                0 <= k < list.len() && (#[trigger] list[k]).id == id,
{
    assert forall|i: int|
        #![trigger list[i]]
        0 <= i < list.len() && (forall|j: int| i < j < list.len() ==> list[j].id != list[i].id)
            implies after_reset_guild(v, guild, list).roles.contains_key(list[i].id)
            && after_reset_guild(v, guild, list).roles[list[i].id] == meta_of(list[i]) by {
        lemma_with_roles_listed(v.roles, list, i);
    }
    assert forall|id: u64|
        (forall|k: int| 0 <= k < list.len() ==> (#[trigger] list[k]).id != id) implies (
        #[trigger] after_reset_guild(v, guild, list).roles.contains_key(id)
            == v.roles.contains_key(id) && (v.roles.contains_key(id) ==> after_reset_guild(
            v,
            guild,
            list,
        ).roles[id] == v.roles[id])) by {
        lemma_with_roles_unlisted(v.roles, list, id);
    }
    let ids = list.map_values(|r: RoleData| r.id);
    assert forall|id: u64|
        #[trigger] roles_of(after_reset_guild(v, guild, list), guild).contains(id) <==> exists|k: int|
            0 <= k < list.len() && (#[trigger] list[k]).id == id by {
        if exists|k: int| 0 <= k < list.len() && (#[trigger] list[k]).id == id {
            let k = choose|k: int| 0 <= k < list.len() && (#[trigger] list[k]).id == id;
            assert(ids[k] == id);
        }
        if ids.to_set().contains(id) {
            let k = choose|k: int| 0 <= k < ids.len() && ids[k] == id;
            assert(list[k].id == id);
        }
    }
}


/// The role reported unknown is the first target, in the order given, whose
/// metadata is unknown; none is reported exactly when every target is known.
pub proof fn law_first_unknown_is_first(roles: Map<u64, RoleMetadata>, targets: Seq<u64>)
    ensures
        first_unknown(roles, targets) is None <==> forall|i: int|
            0 <= i < targets.len() ==> roles.contains_key(#[trigger] targets[i]),
        first_unknown(roles, targets) matches Some(t) ==> exists|i: int|
            0 <= i < targets.len() && #[trigger] targets[i] == t && !roles.contains_key(t) && forall|
                j: int,
            | 0 <= j < i ==> roles.contains_key(#[trigger] targets[j]),
    decreases targets.len(),
{
    if targets.len() > 0 {
        let init = targets.drop_last();
        law_first_unknown_is_first(roles, init);
        assert forall|i: int| 0 <= i < init.len() implies #[trigger] init[i] == targets[i] by {}
        match first_unknown(roles, init) {
            Some(t) => {
                let i = choose|i: int|
                    0 <= i < init.len() && #[trigger] init[i] == t && !roles.contains_key(t)
                        && forall|j: int| 0 <= j < i ==> roles.contains_key(#[trigger] init[j]);
                assert(targets[i] == t);
                assert forall|j: int| 0 <= j < i implies roles.contains_key(#[trigger] targets[j]) by {
                    assert(init[j] == targets[j]);
                }
                assert(!roles.contains_key(targets[i]));
            },
            None => {
                if !roles.contains_key(targets.last()) {
                    let i = targets.len() - 1;
                    assert(targets[i] == targets.last());
                    assert forall|j: int| 0 <= j < i implies roles.contains_key(#[trigger] targets[j]) by {
                        assert(init[j] == targets[j]);
                    }
                } else {
                    assert forall|i: int| 0 <= i < targets.len() implies roles.contains_key(
                        #[trigger] targets[i],
                    ) by {
                        if i < init.len() {
                            assert(init[i] == targets[i]);
                        }
                    }
                }
            },
        }
    }
}

/// The bot may not hand out a known target that sits at or above its base role
/// and every known role it holds.
pub proof fn law_target_above_bot_refused(v: CacheView, guild: u64, targets: Seq<u64>, k: int)
    requires
        v.my_roles.contains_key(guild),
        v.roles.contains_key(guild),
        forall|i: int| 0 <= i < targets.len() ==> v.roles.contains_key(#[trigger] targets[i]),
        0 <= k < targets.len(),
        v.roles[targets[k]].position >= v.roles[guild].position,
        forall|i: int|
            0 <= i < v.my_roles[guild].len() && v.roles.contains_key(#[trigger] v.my_roles[guild][i])
                ==> v.roles[v.my_roles[guild][i]].position <= v.roles[targets[k]].position,
    ensures
        spec_can_add_roles(v, guild, targets) == Ok::<bool, Error>(false),
{
    let mine = v.my_roles[guild];
    law_virtual_role_is_highest(v.roles, v.roles[guild], mine);
    let me = virtual_role(v.roles, v.roles[guild], mine);
    if me.position != v.roles[guild].position {
        let i = choose|i: int|
            0 <= i < mine.len() && v.roles.contains_key(#[trigger] mine[i]) && me.position
                == v.roles[mine[i]].position;
    }
    assert(me.position <= v.roles[targets[k]].position);
    lemma_all_known(v.roles, targets);
}


/// The bot's own member events set its roles in that guild to exactly the
/// event's roles, or forget them when it leaves, and touch no other guild and
/// no role metadata.
pub proof fn law_bot_membership_recorded(v: CacheView, guild: u64, roles: Seq<u64>, other: u64)
    requires
        other != guild,
    ensures
        after_insert_self(v, v.application_id, guild, roles).my_roles.contains_key(guild),
        after_insert_self(v, v.application_id, guild, roles).my_roles[guild] == roles,
        !after_remove_self(v, v.application_id, guild).my_roles.contains_key(guild),
        after_insert_self(v, v.application_id, guild, roles).my_roles.contains_key(other)
            == v.my_roles.contains_key(other),
        after_remove_self(v, v.application_id, guild).my_roles.contains_key(other)
            == v.my_roles.contains_key(other),
        v.my_roles.contains_key(other) ==> after_insert_self(v, v.application_id, guild, roles).my_roles[other]
            == v.my_roles[other] && after_remove_self(v, v.application_id, guild).my_roles[other]
            == v.my_roles[other],
        after_insert_self(v, v.application_id, guild, roles).roles == v.roles,
        after_remove_self(v, v.application_id, guild).roles == v.roles,
{
}

} // verus!
