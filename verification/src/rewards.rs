//! Which reward roles a member should hold after reaching a level.
use vstd::prelude::*;
use crate::common::{GuildConfig, RoleReward};

verus! {

/// The ids of the rewards, in order.
pub open spec fn reward_ids(rewards: Seq<RoleReward>) -> Seq<u64> {
    rewards.map_values(|r: RoleReward| r.id)
}

/// How many rewards, from the first on, have a requirement of at most `level`.
pub open spec fn earned_prefix_len(rewards: Seq<RoleReward>, level: i64) -> nat
    decreases rewards.len(),
{
    if rewards.len() == 0 || rewards[0].requirement > level {
        0
    } else {
        1 + earned_prefix_len(rewards.drop_first(), level)
    }
}

/// Index of the last reward of the unbroken run, from the first reward on, whose
/// requirements `user_level` meets; `None` when the first reward is not met.
pub fn get_reward_idx(rewards: &[RoleReward], user_level: i64) -> (r: Option<usize>)
    ensures
        r is None <==> earned_prefix_len(rewards@, user_level) == 0,
        r matches Some(idx) ==> idx + 1 == earned_prefix_len(rewards@, user_level) && idx
            < rewards@.len(),
{
    let mut reward_idx: Option<usize> = None;
    let mut idx: usize = 0;
    proof {
        lemma_earned_prefix(rewards@, user_level);
    }
    while idx < rewards.len()
        invariant
            idx <= rewards.len(),
            forall|j: int| 0 <= j < idx ==> rewards@[j].requirement <= user_level,
            reward_idx is None <==> idx == 0,
            reward_idx matches Some(k) ==> k + 1 == idx,
        ensures
            idx <= rewards.len(),
            forall|j: int| 0 <= j < idx ==> rewards@[j].requirement <= user_level,
            idx < rewards.len() ==> rewards@[idx as int].requirement > user_level,
            reward_idx is None <==> idx == 0,
            reward_idx matches Some(k) ==> k + 1 == idx,
        decreases rewards.len() - idx,
    {
        if rewards[idx].requirement > user_level {
            break;
        }
        reward_idx = Some(idx);
        idx = idx + 1;
    }
    proof {
        let e = earned_prefix_len(rewards@, user_level);
        if e < idx {
            assert(rewards@[e as int].requirement <= user_level);
        }
        if e > idx {
            assert(rewards@[idx as int].requirement <= user_level);
        }
    }
    reward_idx
}

/// `earned_prefix_len` is the length of the longest run of met requirements.
pub proof fn lemma_earned_prefix(rewards: Seq<RoleReward>, level: i64)
    ensures
        earned_prefix_len(rewards, level) <= rewards.len(),
        forall|j: int|
            0 <= j < earned_prefix_len(rewards, level) ==> rewards[j].requirement <= level,
        earned_prefix_len(rewards, level) < rewards.len() ==> rewards[earned_prefix_len(
            rewards,
            level,
        ) as int].requirement > level,
    decreases rewards.len(),
{
    if rewards.len() > 0 && rewards[0].requirement <= level {
        let rest = rewards.drop_first();
        lemma_earned_prefix(rest, level);
        assert forall|j: int| 0 <= j < earned_prefix_len(rewards, level) implies rewards[j].requirement
            <= level by {
            if j > 0 {
                assert(rewards[j] == rest[j - 1]);
            }
        }
        if earned_prefix_len(rewards, level) < rewards.len() {
            assert(rewards[earned_prefix_len(rewards, level) as int] == rest[earned_prefix_len(
                rest,
                level,
            ) as int]);
        }
    }
}

/// The roles a member ends up with, and the roles that changed.
#[derive(Debug)]
pub struct RoleChangeList {
    pub total_roles: Vec<u64>,
    pub changed_roles: Vec<u64>,
}

/// The role rewarded just before the reward at `idx` (the first reward for `0`).
pub open spec fn previous_role(rewards: Seq<RoleReward>, idx: int) -> u64 {
    if idx == 0 {
        rewards[0].id
    } else {
        rewards[idx - 1].id
    }
}

/// The reward roles earned at reward `idx`: only that one, or all up to it.
pub open spec fn achieved_roles(rewards: Seq<RoleReward>, idx: int, one_at_a_time: bool) -> Seq<
    u64,
> {
    if one_at_a_time {
        seq![rewards[idx].id]
    } else {
        reward_ids(rewards.take(idx + 1))
    }
}

/// Holds of the roles that `member_roles` lacks.
pub open spec fn lacking(member_roles: Seq<u64>) -> spec_fn(u64) -> bool {
    |v: u64| !member_roles.contains(v)
}

/// The member's roles followed by the earned roles the member lacks.
pub open spec fn candidate_roles(
    member_roles: Seq<u64>,
    rewards: Seq<RoleReward>,
    idx: int,
    one_at_a_time: bool,
) -> Seq<u64> {
    member_roles + achieved_roles(rewards, idx, one_at_a_time).filter(lacking(member_roles))
}

/// Whether a role stays: with one reward at a time, the previous reward role goes
/// (unless the earned reward is the first).
pub open spec fn keeps_role(one_at_a_time: bool, idx: int, previous: u64, v: u64) -> bool {
    !one_at_a_time || idx == 0 || v != previous
}

/// Holds of the roles that stay.
pub open spec fn kept(one_at_a_time: bool, idx: int, previous: u64) -> spec_fn(u64) -> bool {
    |v: u64| keeps_role(one_at_a_time, idx, previous, v)
}

/// Holds of the roles that change: those that go, and those the member lacked.
pub open spec fn changed(
    one_at_a_time: bool,
    idx: int,
    previous: u64,
    member_roles: Seq<u64>,
) -> spec_fn(u64) -> bool {
    |v: u64| !keeps_role(one_at_a_time, idx, previous, v) || !member_roles.contains(v)
}

/// The roles the member should hold.
pub open spec fn spec_total_roles(
    member_roles: Seq<u64>,
    rewards: Seq<RoleReward>,
    idx: int,
    one_at_a_time: bool,
) -> Seq<u64> {
    candidate_roles(member_roles, rewards, idx, one_at_a_time).filter(
        kept(one_at_a_time, idx, previous_role(rewards, idx)),
    )
}

/// The roles added or removed, in the order they were considered.
pub open spec fn spec_changed_roles(
    member_roles: Seq<u64>,
    rewards: Seq<RoleReward>,
    idx: int,
    one_at_a_time: bool,
) -> Seq<u64> {
    candidate_roles(member_roles, rewards, idx, one_at_a_time).filter(
        changed(one_at_a_time, idx, previous_role(rewards, idx), member_roles),
    )
}

fn contains_role(roles: &[u64], id: u64) -> (r: bool)
    ensures
        r == roles@.contains(id),
{
    let mut i: usize = 0;
    while i < roles.len()
        invariant
            i <= roles.len(),
            forall|j: int| 0 <= j < i ==> roles@[j] != id,
        decreases roles.len() - i,
    {
        if roles[i] == id {
            assert(roles@[i as int] == id);
            return true;
        }
        i = i + 1;
    }
    false
}

proof fn lemma_filter_take_step(s: Seq<u64>, pred: spec_fn(u64) -> bool, i: int)
    requires
        0 <= i < s.len(),
    ensures
        s.take(i + 1).filter(pred) == if pred(s[i]) {
            s.take(i).filter(pred).push(s[i])
        } else {
            s.take(i).filter(pred)
        },
{
    reveal(Seq::filter);
    assert(s.take(i + 1).drop_last() == s.take(i));
}

/// Works out the roles a member should hold after earning the reward at
/// `reward_idx`, and which of them change.
pub fn get_role_changes(
    guild_config: &GuildConfig,
    member_roles: &[u64],
    rewards: &[RoleReward],
    reward_idx: usize,
) -> (r: RoleChangeList)
    requires
        reward_idx < rewards.len(),
    ensures
        ({
            let one = guild_config.one_at_a_time == Some(true);
            &&& r.total_roles@ == spec_total_roles(member_roles@, rewards@, reward_idx as int, one)
            &&& r.changed_roles@ == spec_changed_roles(
                member_roles@,
                rewards@,
                reward_idx as int,
                one,
            )
        }),
{
    let one_at_a_time = match guild_config.one_at_a_time {
        Some(v) => v,
        None => false,
    };
    let previous_role = if reward_idx == 0 {
        rewards[0].id
    } else {
        rewards[reward_idx - 1].id
    };
    let ghost members = member_roles@;
    let ghost idx = reward_idx as int;
    // The earned roles, in order.
    let start: usize = if one_at_a_time {
        reward_idx
    } else {
        0
    };
    let mut achieved: Vec<u64> = Vec::new();
    let mut k: usize = start;
    while k <= reward_idx
        invariant
            start <= k <= reward_idx + 1,
            reward_idx < rewards.len(),
            achieved@ == reward_ids(rewards@.subrange(start as int, k as int)),
        decreases reward_idx + 1 - k,
    {
        assert(reward_ids(rewards@.subrange(start as int, k + 1)) == reward_ids(
            rewards@.subrange(start as int, k as int),
        ).push(rewards@[k as int].id));
        achieved.push(rewards[k].id);
        k = k + 1;
    }
    proof {
        if one_at_a_time {
            assert(reward_ids(rewards@.subrange(start as int, k as int)) == seq![
                rewards@[idx].id,
            ]);
        } else {
            assert(rewards@.subrange(0, k as int) == rewards@.take(idx + 1));
        }
    }
    let ghost achieved_seq = achieved@;
    assert(achieved_seq == achieved_roles(rewards@, idx, one_at_a_time));
    // The member's roles, then the earned roles the member lacks.
    let mut candidates: Vec<u64> = Vec::new();
    let mut i: usize = 0;
    while i < member_roles.len()
        invariant
            members == member_roles@,
            i <= member_roles.len(),
            candidates@ == members.take(i as int),
        decreases member_roles.len() - i,
    {
        candidates.push(member_roles[i]);
        i = i + 1;
        assert(candidates@ == members.take(i as int));
    }
    assert(members.take(members.len() as int) == members);
    let mut j: usize = 0;
    while j < achieved.len()
        invariant
            achieved@ == achieved_seq,
            members == member_roles@,
            j <= achieved.len(),
            candidates@ == members + achieved_seq.take(j as int).filter(lacking(members)),
        decreases achieved.len() - j,
    {
        proof {
            lemma_filter_take_step(achieved_seq, lacking(members), j as int);
        }
        let v = achieved[j];
        if !contains_role(member_roles, v) {
            candidates.push(v);
        }
        j = j + 1;
    }
    assert(achieved_seq.take(achieved_seq.len() as int) == achieved_seq);
    let ghost cand = candidates@;
    assert(cand == candidate_roles(members, rewards@, idx, one_at_a_time));
    let ghost keep = kept(one_at_a_time, idx, previous_role);
    let ghost change = changed(one_at_a_time, idx, previous_role, members);
    let mut changed_roles: Vec<u64> = Vec::with_capacity(8);
    let mut total_roles: Vec<u64> = Vec::new();
    let mut m: usize = 0;
    while m < candidates.len()
        invariant
            candidates@ == cand,
            members == member_roles@,
            m <= candidates.len(),
            keep == kept(one_at_a_time, idx, previous_role),
            change == changed(one_at_a_time, idx, previous_role, members),
            idx == reward_idx,
            total_roles@ == cand.take(m as int).filter(keep),
            changed_roles@ == cand.take(m as int).filter(change),
        decreases candidates.len() - m,
    {
        proof {
            lemma_filter_take_step(cand, keep, m as int);
            lemma_filter_take_step(cand, change, m as int);
        }
        let v = candidates[m];
        let keeper = !one_at_a_time || reward_idx == 0 || v != previous_role;
        let had = contains_role(member_roles, v);
        assert(keep(v) == keeper);
        assert(change(v) == (!keeper || !had));
        if !keeper || !had {
            changed_roles.push(v);
        }
        if keeper {
            total_roles.push(v);
        }
        m = m + 1;
    }
    assert(cand.take(cand.len() as int) == cand);
    RoleChangeList { total_roles, changed_roles }
}

/// With rewards sorted by requirement, the rewards earned at a level are
/// exactly those whose requirement the level meets.
pub proof fn law_sorted_rewards_earned(rewards: Seq<RoleReward>, level: i64)
    requires
        forall|i: int, j: int|
            0 <= i <= j < rewards.len() ==> rewards[i].requirement <= rewards[j].requirement,
    ensures
        forall|j: int|
            0 <= j < rewards.len() ==> (j < earned_prefix_len(rewards, level) <==> rewards[j].requirement
                <= level),
{
    lemma_earned_prefix(rewards, level);
    let e = earned_prefix_len(rewards, level) as int;
    assert forall|j: int| 0 <= j < rewards.len() implies (j < e <==> rewards[j].requirement
        <= level) by {
        if j >= e {
            assert(rewards[e].requirement <= rewards[j].requirement);
        }
    }
}

/// Without one reward at a time, a member keeps every role they had, and every
/// role that changes is one they lacked.
pub proof fn law_all_rewards_keep_roles(member_roles: Seq<u64>, rewards: Seq<RoleReward>, idx: int)
    requires
        0 <= idx < rewards.len(),
    ensures
        forall|v: u64|
            member_roles.contains(v) ==> #[trigger] spec_total_roles(
                member_roles,
                rewards,
                idx,
                false,
            ).contains(v),
        forall|v: u64|
            #[trigger] spec_changed_roles(member_roles, rewards, idx, false).contains(v)
                ==> !member_roles.contains(v),
{
    broadcast use vstd::seq_lib::group_filter_ensures;

    let cand = candidate_roles(member_roles, rewards, idx, false);
    let keep = kept(false, idx, previous_role(rewards, idx));
    let change = changed(false, idx, previous_role(rewards, idx), member_roles);
    assert forall|v: u64| member_roles.contains(v) implies #[trigger] spec_total_roles(
        member_roles,
        rewards,
        idx,
        false,
    ).contains(v) by {
        let i = choose|i: int| 0 <= i < member_roles.len() && member_roles[i] == v;
        assert(cand[i] == v);
        cand.lemma_filter_contains(keep, i);
    }
    assert forall|v: u64| #[trigger]
        spec_changed_roles(member_roles, rewards, idx, false).contains(v) implies !member_roles.contains(
        v,
    ) by {
        let f = cand.filter(change);
        let i = choose|i: int| 0 <= i < f.len() && f[i] == v;
        assert(change(f[i]));
    }
}

/// The role of the earned reward is held afterwards; with one reward at a time
/// that needs it to differ from the role of the reward before it. Without one
/// reward at a time, every earned reward's role is held.
pub proof fn law_earned_roles_held(
    member_roles: Seq<u64>,
    rewards: Seq<RoleReward>,
    idx: int,
    one_at_a_time: bool,
)
    requires
        0 <= idx < rewards.len(),
        one_at_a_time && idx > 0 ==> rewards[idx].id != rewards[idx - 1].id,
    ensures
        spec_total_roles(member_roles, rewards, idx, one_at_a_time).contains(rewards[idx].id),
        !one_at_a_time ==> forall|j: int|
            0 <= j <= idx ==> #[trigger] spec_total_roles(
                member_roles,
                rewards,
                idx,
                false,
            ).contains(rewards[j].id),
{
    broadcast use vstd::seq_lib::group_filter_ensures;

    let achieved = achieved_roles(rewards, idx, one_at_a_time);
    let lack = lacking(member_roles);
    let added = achieved.filter(lack);
    let cand = candidate_roles(member_roles, rewards, idx, one_at_a_time);
    let keep = kept(one_at_a_time, idx, previous_role(rewards, idx));
    assert(cand == member_roles + added);
    assert forall|k: int| 0 <= k < achieved.len() implies #[trigger] cand.contains(achieved[k]) by {
        let v = achieved[k];
        if member_roles.contains(v) {
            let i = choose|i: int| 0 <= i < member_roles.len() && member_roles[i] == v;
            assert(cand[i] == v);
        } else {
            achieved.lemma_filter_contains(lack, k);
            let i = choose|i: int| 0 <= i < added.len() && added[i] == v;
            assert(cand[member_roles.len() + i] == v);
        }
    }
    assert forall|v: u64| cand.contains(v) && keep(v) implies #[trigger] cand.filter(keep).contains(
        v,
    ) by {
        let i = choose|i: int| 0 <= i < cand.len() && cand[i] == v;
        cand.lemma_filter_contains(keep, i);
    }
    if one_at_a_time {
        assert(achieved[0] == rewards[idx].id);
    } else {
        assert(achieved.len() == idx + 1);
        assert forall|j: int| 0 <= j <= idx implies #[trigger] spec_total_roles(
            member_roles,
            rewards,
            idx,
            false,
        ).contains(rewards[j].id) by {
            assert(achieved[j] == rewards[j].id);
        }
        assert(achieved[idx] == rewards[idx].id);
    }
}

/// With one reward at a time, past the first reward, the role of the reward
/// before the earned one is not held afterwards.
pub proof fn law_one_at_a_time_drops_previous(
    member_roles: Seq<u64>,
    rewards: Seq<RoleReward>,
    idx: int,
)
    requires
        0 < idx < rewards.len(),
    ensures
        !spec_total_roles(member_roles, rewards, idx, true).contains(rewards[idx - 1].id),
{
    broadcast use vstd::seq_lib::group_filter_ensures;

    let cand = candidate_roles(member_roles, rewards, idx, true);
    let keep = kept(true, idx, previous_role(rewards, idx));
    let f = cand.filter(keep);
    if f.contains(rewards[idx - 1].id) {
        let i = choose|i: int| 0 <= i < f.len() && f[i] == rewards[idx - 1].id;
        assert(keep(f[i]));
    }
}

/// Holds of the rewards granted at level `k`.
pub open spec fn at_requirement(k: i64) -> spec_fn(RoleReward) -> bool {
    |r: RoleReward| r.requirement == k
}

/// Whether rewards are in order of requirement.
pub open spec fn sorted_by_requirement(s: Seq<RoleReward>) -> bool {
    forall|i: int, j: int| 0 <= i <= j < s.len() ==> s[i].requirement <= s[j].requirement
}

/// A stable sort of `before`: in order of requirement, and for every level the
/// rewards at that level in the order they were given.
pub open spec fn stably_sorted(after: Seq<RoleReward>, before: Seq<RoleReward>) -> bool {
    &&& sorted_by_requirement(after)
    &&& forall|k: i64| #[trigger] after.filter(at_requirement(k)) == before.filter(at_requirement(k))
}

/// Where `x` goes in sorted `s` to keep it sorted and stable: after every
/// reward whose requirement is at most its own.
proof fn lemma_insert_sorted(s: Seq<RoleReward>, p: int, x: RoleReward)
    requires
        sorted_by_requirement(s),
        0 <= p <= s.len(),
        forall|i: int| 0 <= i < p ==> s[i].requirement <= x.requirement,
        forall|i: int| p <= i < s.len() ==> s[i].requirement > x.requirement,
    ensures
        sorted_by_requirement(s.insert(p, x)),
        forall|k: i64| #[trigger] s.insert(p, x).filter(at_requirement(k)) == if k == x.requirement {
            s.filter(at_requirement(k)).push(x)
        } else {
            s.filter(at_requirement(k))
        },
{
    broadcast use vstd::seq_lib::group_filter_ensures;
    broadcast use vstd::seq::group_seq_axioms;

    let t = s.insert(p, x);
    assert forall|i: int, j: int| 0 <= i <= j < t.len() implies t[i].requirement
        <= t[j].requirement by {
        if i < p && j > p {
            assert(t[j] == s[j - 1]);
        } else if i > p {
            assert(t[i] == s[i - 1] && t[j] == s[j - 1]);
        } else if j < p {
        } else if i == p && j > p {
            assert(t[j] == s[j - 1]);
        }
    }
    assert(t == s.take(p) + seq![x] + s.skip(p));
    assert(s == s.take(p) + s.skip(p));
    assert forall|k: i64| #[trigger] t.filter(at_requirement(k)) == if k == x.requirement {
        s.filter(at_requirement(k)).push(x)
    } else {
        s.filter(at_requirement(k))
    } by {
        let f = at_requirement(k);
        Seq::filter_distributes_over_add(s.take(p) + seq![x], s.skip(p), f);
        Seq::filter_distributes_over_add(s.take(p), seq![x], f);
        Seq::filter_distributes_over_add(s.take(p), s.skip(p), f);
        reveal_with_fuel(Seq::filter, 2);
        assert(seq![x].drop_last() == Seq::<RoleReward>::empty());
        assert(Seq::<RoleReward>::empty().filter(f) == Seq::<RoleReward>::empty());
        if k == x.requirement {
            s.skip(p).lemma_all_neg_filter_empty(f);
            assert(s.skip(p).filter(f) == Seq::<RoleReward>::empty());
            assert(seq![x].filter(f) == seq![x]);
        } else {
            assert(!f(x));
            assert(seq![x].filter(f) == Seq::<RoleReward>::empty());
        }
    }
}

/// The rewards sorted by requirement, rewards at the same level in the order
/// they were given (there is exactly one such order).
pub open spec fn sorted_rewards(rewards: Seq<RoleReward>) -> Seq<RoleReward> {
    choose|s: Seq<RoleReward>| stably_sorted(s, rewards)
}

/// Sorts rewards by requirement, keeping rewards at the same level in order.
pub fn sort_rewards(rewards: &mut Vec<RoleReward>)
    ensures
        stably_sorted(final(rewards)@, old(rewards)@),
        final(rewards)@ == sorted_rewards(old(rewards)@),
{
    let mut out: Vec<RoleReward> = Vec::with_capacity(rewards.len());
    let mut i: usize = 0;
    while i < rewards.len()
        invariant
            i <= rewards.len(),
            rewards@ == old(rewards)@,
            sorted_by_requirement(out@),
            forall|k: i64| #[trigger] out@.filter(at_requirement(k)) == rewards@.take(i as int).filter(
                at_requirement(k),
            ),
        decreases rewards.len() - i,
    {
        let x = rewards[i];
        let mut p: usize = 0;
        while p < out.len() && out[p].requirement <= x.requirement
            invariant
                p <= out.len(),
                forall|q: int| 0 <= q < p ==> out@[q].requirement <= x.requirement,
            decreases out.len() - p,
        {
            p = p + 1;
        }
        proof {
            assert forall|q: int| p <= q < out@.len() implies out@[q].requirement > x.requirement by {
                assert(out@[p as int].requirement > x.requirement);
                assert(out@[p as int].requirement <= out@[q].requirement);
            }
            lemma_insert_sorted(out@, p as int, x);
            assert(rewards@.take(i + 1) == rewards@.take(i as int).push(x));
            assert forall|k: i64| #[trigger] rewards@.take(i + 1).filter(at_requirement(k))
                == if k == x.requirement {
                rewards@.take(i as int).filter(at_requirement(k)).push(x)
            } else {
                rewards@.take(i as int).filter(at_requirement(k))
            } by {
                reveal(Seq::filter);
                assert(rewards@.take(i + 1).drop_last() == rewards@.take(i as int));
            }
        }
        out.insert(p, x);
        i = i + 1;
    }
    assert(rewards@.take(rewards.len() as int) == rewards@);
    *rewards = out;
    proof {
        let ghost s = rewards@;
        assert(stably_sorted(s, old(rewards)@));
        law_stable_sort_unique(sorted_rewards(old(rewards)@), s, old(rewards)@);
    }
}

proof fn lemma_sorted_filters_equal(a: Seq<RoleReward>, b: Seq<RoleReward>)
    requires
        sorted_by_requirement(a),
        sorted_by_requirement(b),
        forall|k: i64| #[trigger] a.filter(at_requirement(k)) == b.filter(at_requirement(k)),
    ensures
        a == b,
    decreases a.len() + b.len(),
{
    broadcast use vstd::seq_lib::group_filter_ensures;

    reveal(Seq::filter);
    if a.len() == 0 || b.len() == 0 {
        if b.len() > 0 {
            let k = b.last().requirement;
            b.lemma_filter_contains(at_requirement(k), b.len() - 1);
            assert(a.filter(at_requirement(k)).len() == 0);
        }
        if a.len() > 0 {
            let k = a.last().requirement;
            a.lemma_filter_contains(at_requirement(k), a.len() - 1);
            assert(b.filter(at_requirement(k)).len() == 0);
        }
        assert(a =~= b);
    } else {
        let ka = a.last().requirement;
        let kb = b.last().requirement;
        if ka < kb {
            b.lemma_filter_contains(at_requirement(kb), b.len() - 1);
            a.lemma_filter_contains_rev(at_requirement(kb), b.last());
            let i = choose|i: int| 0 <= i < a.len() && a[i] == b.last();
            assert(a[i].requirement <= a[a.len() - 1].requirement);
        }
        if kb < ka {
            a.lemma_filter_contains(at_requirement(ka), a.len() - 1);
            b.lemma_filter_contains_rev(at_requirement(ka), a.last());
            let i = choose|i: int| 0 <= i < b.len() && b[i] == a.last();
            assert(b[i].requirement <= b[b.len() - 1].requirement);
        }
        assert(ka == kb);
        assert(a.filter(at_requirement(ka)) == a.drop_last().filter(at_requirement(ka)).push(
            a.last(),
        ));
        assert(b.filter(at_requirement(ka)) == b.drop_last().filter(at_requirement(ka)).push(
            b.last(),
        ));
        assert(a.filter(at_requirement(ka)) == b.filter(at_requirement(ka)));
        assert(a.filter(at_requirement(ka)).last() == a.last());
        assert(b.filter(at_requirement(ka)).last() == b.last());
        assert(a.last() == b.last());
        assert forall|k: i64| #[trigger] a.drop_last().filter(at_requirement(k)) == b.drop_last().filter(
            at_requirement(k),
        ) by {
            if k == ka {
                assert(a.drop_last().filter(at_requirement(k)) == a.filter(
                    at_requirement(k),
                ).drop_last());
                assert(b.drop_last().filter(at_requirement(k)) == b.filter(
                    at_requirement(k),
                ).drop_last());
            } else {
                assert(a.filter(at_requirement(k)) == a.drop_last().filter(at_requirement(k)));
                assert(b.filter(at_requirement(k)) == b.drop_last().filter(at_requirement(k)));
            }
        }
        lemma_sorted_filters_equal(a.drop_last(), b.drop_last());
        assert(a =~= a.drop_last().push(a.last()));
        assert(b =~= b.drop_last().push(b.last()));
    }
}

/// A stable sort by requirement has exactly one outcome: two lists that are
/// both stable sorts of the same rewards are the same list.
pub proof fn law_stable_sort_unique(a: Seq<RoleReward>, b: Seq<RoleReward>, before: Seq<RoleReward>)
    requires
        stably_sorted(a, before),
        stably_sorted(b, before),
    ensures
        a == b,
{
    lemma_sorted_filters_equal(a, b);
}

} // verus!
