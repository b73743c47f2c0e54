//! The leaderboard page: which rows a page shows, and how each row is shown.
use vstd::prelude::*;
use crate::mee6::{LevelInfo, is_level_of};

verus! {

/// The query of a leaderboard page.
pub struct FetchQuery {
    pub offset: Option<i64>,
}

/// The page asked for (the first when none is) and the number of rows before
/// it, at a hundred rows a page.
pub fn leaderboard_page(query: &FetchQuery) -> (r: (i64, i64))
    requires
        query.offset matches Some(o) ==> i64::MIN <= o * 100 <= i64::MAX,
    ensures
        r.0 == match query.offset {
            Some(o) => o,
            None => 0,
        },
        r.1 == r.0 * 100,
{
    let offset = match query.offset {
        Some(o) => o,
        None => 0,
    };
    (offset, offset * 100)
}

/// A member as the leaderboard shows them.
pub struct LeaderboardUser {
    pub id: u64,
    pub level: u64,
    pub name: Option<String>,
    pub discriminator: Option<String>,
}

/// A member whose details were found in the user cache.
pub struct CachedUser {
    pub id: u64,
    pub name: String,
    pub discriminator: String,
}

/// The last index at which `id` occurs in `ids`.
pub open spec fn last_index(ids: Seq<u64>, id: u64) -> Option<int>
    decreases ids.len(),
{
    if ids.len() == 0 {
        None
    } else if ids.last() == id {
        Some(ids.len() - 1)
    } else {
        last_index(ids.drop_last(), id)
    }
}

/// The last cached entry for `id`.
pub open spec fn last_cached(cached: Seq<CachedUser>, id: u64) -> Option<int>
    decreases cached.len(),
{
    if cached.len() == 0 {
        None
    } else if cached.last().id == id {
        Some(cached.len() - 1)
    } else {
        last_cached(cached.drop_last(), id)
    }
}

/// The cached entry that names row `i`: rows are found by id, and a repeated
/// id finds only its last row; of several entries for an id, the last wins.
pub open spec fn naming_entry(ids: Seq<u64>, cached: Seq<CachedUser>, i: int) -> Option<int> {
    if last_index(ids, ids[i]) == Some(i) {
        last_cached(cached, ids[i])
    } else {
        None
    }
}

/// Whether a row shows a cached entry's name and discriminator.
pub open spec fn shows_entry(u: LeaderboardUser, e: CachedUser) -> bool {
    &&& (u.name matches Some(n) && n@ == e.name@)
    &&& (u.discriminator matches Some(d) && d@ == e.discriminator@)
}

/// The stored ids of the rows, read as Discord ids.
pub open spec fn row_ids(rows: Seq<(i64, i64)>) -> Seq<u64> {
    rows.map_values(|r: (i64, i64)| r.0 as u64)
}

/// Whether every row's XP can be turned into a level.
pub open spec fn rows_have_levels(rows: Seq<(i64, i64)>) -> bool {
    forall|i: int| 0 <= i < rows.len() ==> (#[trigger] rows[i]).1 as u64 != u64::MAX
}

fn last_index_of(ids: &[u64], id: u64) -> (r: Option<usize>)
    ensures
        match r {
            Some(i) => last_index(ids@, id) == Some(i as int),
            None => last_index(ids@, id) is None,
        },
{
    let mut k: usize = ids.len();
    assert(ids@.take(k as int) == ids@);
    while k > 0
        invariant
            k <= ids.len(),
            last_index(ids@, id) == last_index(ids@.take(k as int), id),
        decreases k,
    {
        assert(ids@.take(k as int).drop_last() == ids@.take(k - 1));
        if ids[k - 1] == id {
            return Some(k - 1);
        }
        k = k - 1;
    }
    None
}

fn last_cached_of(cached: &[CachedUser], id: u64) -> (r: Option<usize>)
    ensures
        match r {
            Some(i) => last_cached(cached@, id) == Some(i as int) && i < cached.len(),
            None => last_cached(cached@, id) is None,
        },
{
    let mut k: usize = cached.len();
    assert(cached@.take(k as int) == cached@);
    while k > 0
        invariant
            k <= cached.len(),
            last_cached(cached@, id) == last_cached(cached@.take(k as int), id),
        decreases k,
    {
        assert(cached@.take(k as int).drop_last() == cached@.take(k - 1));
        if cached[k - 1].id == id {
            return Some(k - 1);
        }
        k = k - 1;
    }
    None
}

/// The leaderboard rows, from the stored (id, XP) rows and the members found
/// in the user cache: each row's level, and its name where the cache has it.
pub fn leaderboard_users(rows: &[(i64, i64)], cached: &[CachedUser]) -> (users: Vec<LeaderboardUser>)
    requires
        rows_have_levels(rows@),
    ensures
        users@.len() == rows@.len(),
        forall|i: int|
            0 <= i < rows@.len() ==> {
                let u = #[trigger] users@[i];
                &&& u.id == rows@[i].0 as u64
                &&& is_level_of(rows@[i].1 as u64 as nat, u.level as nat)
                &&& match naming_entry(row_ids(rows@), cached@, i) {
                    Some(j) => shows_entry(u, cached@[j]),
                    None => u.name is None && u.discriminator is None,
                }
            },
{
    let mut ids: Vec<u64> = Vec::with_capacity(rows.len());
    let mut k: usize = 0;
    while k < rows.len()
        invariant
            k <= rows.len(),
            ids@ == row_ids(rows@.take(k as int)),
        decreases rows.len() - k,
    {
        ids.push(rows[k].0 as u64);
        k = k + 1;
        assert(ids@ == row_ids(rows@.take(k as int)));
    }
    assert(rows@.take(rows.len() as int) == rows@);
    let mut users: Vec<LeaderboardUser> = Vec::with_capacity(rows.len());
    let mut i: usize = 0;
    while i < rows.len()
        invariant
            i <= rows.len(),
            ids@ == row_ids(rows@),
            rows_have_levels(rows@),
            users@.len() == i,
            forall|t: int|
                0 <= t < i ==> {
                    let u = #[trigger] users@[t];
                    &&& u.id == rows@[t].0 as u64
                    &&& is_level_of(rows@[t].1 as u64 as nat, u.level as nat)
                    &&& match naming_entry(row_ids(rows@), cached@, t) {
                        Some(j) => shows_entry(u, cached@[j]),
                        None => u.name is None && u.discriminator is None,
                    }
                },
        decreases rows.len() - i,
    {
        let (id_db, xp) = rows[i];
        let id = id_db as u64;
        assert(rows@[i as int].1 as u64 != u64::MAX);
        let level = LevelInfo::new(xp as u64).level();
        let (name, discriminator) = match last_index_of(ids.as_slice(), id) {
            Some(last) if last == i => match last_cached_of(cached, id) {
                Some(j) => (
                    Some(cached[j].name.clone()),
                    Some(cached[j].discriminator.clone()),
                ),
                None => (None, None),
            },
            _ => (None, None),
        };
        users.push(LeaderboardUser { id, level, name, discriminator });
        i = i + 1;
    }
    users
}

} // verus!
