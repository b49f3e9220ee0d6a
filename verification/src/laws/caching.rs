//! What the cache keeps and finds, told from its tables and its list of recently used
//! statements.

use crate::cache::{
    found_after, got_new, held_under, inserted, leads_to, looked_up, lru_after, CacheView,
    ClientStatementCache, Created, Found, Got, QueryKey, TokenKey, Upgraded,
};
use crate::lru::{appended, given_up, of_another, without, Lru};
use crate::plan::{CompiledPlanState, PlanCell};
use crate::statement::PreparedStatement;
use crate::table::{Key, Table};
use std::collections::VecDeque;
use std::sync::Arc;
use vstd::prelude::*;

verus! {

/// Queries are cached apart where their texts or their profiles differ, tokens where their bytes
/// do.
pub proof fn keys_are_told_apart(
    a: QueryKey,
    b: QueryKey,
    same_query: bool,
    c: TokenKey,
    d: TokenKey,
    same_token: bool,
)
    requires
        call_ensures(<QueryKey as Key>::same, (&a, &b), same_query),
        call_ensures(<TokenKey as Key>::same, (&c, &d), same_token),
    ensures
        same_query <==> a.query@ == b.query@ && a.app_profile_id@ == b.app_profile_id@,
        same_token <==> c.token@ == d.token@,
        a@ == b@ <==> a.query@ == b.query@ && a.app_profile_id@ == b.app_profile_id@,
        c@ == d@ <==> c.token@ == d.token@,
{
}

/// A table gives what was inserted last under a key, and under other keys what it gave before.
pub proof fn tables_give_what_was_inserted<K: Key, V>(
    table: &mut Table<K, V>,
    key: K,
    value: V,
    other: K,
    before: Option<&V>,
)
    requires
        call_ensures(Table::<K, V>::get, (&*old(table), &other), before),
        call_ensures(Table::<K, V>::insert, (table, key, value), ()),
    ensures
        forall|got: Option<&V>| #[trigger]
            call_ensures(Table::<K, V>::get, (&*final(table), &other), got) ==> if other@ == key@ {
                got == Some(&value)
            } else {
                got == before
            },
{
}

/// A table gives nothing under a key that was removed, and under other keys what it gave before.
pub proof fn tables_forget_what_was_removed<K: Key, V>(
    table: &mut Table<K, V>,
    key: K,
    other: K,
    before: Option<&V>,
)
    requires
        call_ensures(Table::<K, V>::get, (&*old(table), &other), before),
        call_ensures(Table::<K, V>::remove, (table, &key), ()),
    ensures
        forall|got: Option<&V>| #[trigger]
            call_ensures(Table::<K, V>::get, (&*final(table), &other), got) ==> if other@ == key@ {
                got is None
            } else {
                got == before
            },
{
}

/// A new cache holds nothing.
pub proof fn new_caches_are_empty<W, T>(cache: ClientStatementCache<W, T>, lru: Lru<Arc<T>>)
    requires
        call_ensures(ClientStatementCache::<W, T>::new, (), cache) || call_ensures(
            <ClientStatementCache<W, T> as Default>::default,
            (),
            cache,
        ),
        call_ensures(Lru::<Arc<T>>::new, (), lru),
    ensures
        forall|key: (Seq<char>, Seq<char>)| !cache.query_to_statement@.contains_key(key),
        forall|token: Seq<u8>| !cache.token_to_statement@.contains_key(token),
        cache.active_lru@.len() == 0,
        lru@.len() == 0,
{
}

/// The entries of a list that are not those of a statement, in their order.
pub open spec fn others<S>(lru: Seq<(u64, S)>, id: u64) -> Seq<(u64, S)>
    decreases lru.len(),
{
    if lru.len() == 0 {
        lru
    } else if lru.last().0 == id {
        others(lru.drop_last(), id)
    } else {
        others(lru.drop_last(), id).push(lru.last())
    }
}

/// Going without a statement leaves the others.
proof fn without_is_others<S>(lru: Seq<(u64, S)>, id: u64)
    ensures
        without(lru, id) == others(lru, id),
        others(lru, id).len() <= lru.len(),
    decreases lru.len(),
{
    reveal(Seq::filter);
    if lru.len() > 0 {
        without_is_others(lru.drop_last(), id);
        assert(of_another::<S>(id)(lru.last()) == (lru.last().0 != id));
    } else {
        assert(without(lru, id) =~= lru);
    }
}

/// `after` is `before` with a handle added as the most recently used one; of a thousand handles
/// the least recently used one is given up for it.
pub open spec fn is_added<S>(
    before: Seq<(u64, S)>,
    id: u64,
    handle: S,
    after: Seq<(u64, S)>,
    evicted: Option<S>,
) -> bool {
    if before.len() < 1000 {
        &&& after == before.push((id, handle))
        &&& evicted is None
    } else {
        &&& after == before.skip(1).push((id, handle))
        &&& evicted == Some(before[0].1)
    }
}

/// A list that is within its bound takes a handle in as its last.
pub proof fn appending_adds<S>(lru: Seq<(u64, S)>, id: u64, handle: S)
    requires
        lru.len() <= 1000,
    ensures
        is_added(
            lru,
            id,
            handle,
            appended(lru, id, handle),
            given_up(lru, id, handle),
        ),
{
    if lru.len() == 1000 {
        assert(lru.push((id, handle)).drop_first() =~= lru.skip(1).push((id, handle)));
    }
}

/// What is added is the most recently used; a thousand handles are kept.
pub proof fn a_thousand_handles_are_kept<S>(
    lru: &mut Lru<S>,
    id: u64,
    handle: S,
    evicted: Option<S>,
)
    requires
        old(lru)@.len() <= 1000,
        call_ensures(Lru::<S>::append, (lru, id, handle), evicted),
    ensures
        is_added(old(lru)@, id, handle, final(lru)@, evicted),
{
    appending_adds(old(lru)@, id, handle);
}

/// What is promoted is the most recently used, and stands nowhere else in the list.
pub proof fn promoted_handles_come_last<S>(
    lru: &mut Lru<S>,
    id: u64,
    handle: S,
    evicted: Option<S>,
)
    requires
        old(lru)@.len() <= 1000,
        call_ensures(Lru::<S>::promote, (lru, id, handle), evicted),
    ensures
        is_added(others(old(lru)@, id), id, handle, final(lru)@, evicted),
{
    without_is_others(old(lru)@, id);
    appending_adds(others(old(lru)@, id), id, handle);
}

/// Clearing the list hands out all that it held; its length is how many handles it holds.
pub proof fn clearing_hands_out_all<S>(lru: &mut Lru<S>, held: VecDeque<(u64, S)>, n: usize)
    requires
        call_ensures(Lru::<S>::len, (&*old(lru),), n),
        call_ensures(Lru::<S>::clear, (lru,), held),
    ensures
        final(lru)@.len() == 0,
        held@ == old(lru)@,
        n == held@.len(),
{
}

/// A lookup whose weak handle led to `upgraded` brings that statement. Where it was not executed
/// for more than ten seconds, counted whole, it is made the most recently used one.
pub open spec fn is_settled<T>(
    lru: Seq<(u64, Arc<T>)>,
    upgraded: Option<Upgraded<T>>,
    now: u64,
    found: Found<T>,
    after: Seq<(u64, Arc<T>)>,
) -> bool {
    match upgraded {
        None => found.statement is None && found.evicted is None && after == lru,
        Some(u) => {
            let elapsed = if now >= u.base_instant {
                (now - u.base_instant) / 1_000_000_000
            } else {
                0
            };
            &&& found.statement == Some(u.statement)
            &&& if elapsed - u.last_executed_seconds > 10 {
                is_added(others(lru, u.id), u.id, u.statement, after, found.evicted)
            } else {
                found.evicted is None && after == lru
            }
        },
    }
}

/// A lookup of `key` brings what the handle under it leads to, and nothing where there is none.
pub open spec fn brings<K, W, T, F: Fn(&W) -> Option<Upgraded<T>>>(
    map: Map<K, W>,
    key: K,
    upgrade: F,
    lru: Seq<(u64, Arc<T>)>,
    now: u64,
    found: Found<T>,
    after: Seq<(u64, Arc<T>)>,
) -> bool {
    if map.contains_key(key) {
        exists|upgraded: Option<Upgraded<T>>| #[trigger]
            upgrade.ensures((&map[key],), upgraded) && is_settled(lru, upgraded, now, found, after)
    } else {
        found.statement is None && found.evicted is None && after == lru
    }
}

/// What a lookup does to the list and brings.
proof fn settling_settles<T>(lru: Seq<(u64, Arc<T>)>, upgraded: Option<Upgraded<T>>, now: u64)
    requires
        lru.len() <= 1000,
    ensures
        is_settled(
            lru,
            upgraded,
            now,
            found_after(lru, upgraded, now),
            lru_after(lru, upgraded, now),
        ),
{
    if let Some(u) = upgraded {
        without_is_others(lru, u.id);
        appending_adds(others(lru, u.id), u.id, u.statement);
    }
}

/// What was looked up is what the handle under the key leads to.
pub proof fn lookups_bring<K, W, T, F: Fn(&W) -> Option<Upgraded<T>>>(
    map: Map<K, W>,
    key: K,
    upgrade: F,
    lru: Seq<(u64, Arc<T>)>,
    now: u64,
    found: Found<T>,
    after: Seq<(u64, Arc<T>)>,
)
    requires
        lru.len() <= 1000,
        looked_up(held_under(map, key), upgrade, lru, now, found, after),
    ensures
        brings(map, key, upgrade, lru, now, found, after),
{
    let upgraded = choose|upgraded: Option<Upgraded<T>>|
        {
            &&& #[trigger] leads_to(held_under(map, key), upgrade, upgraded)
            &&& found == found_after(lru, upgraded, now)
            &&& after == lru_after(lru, upgraded, now)
        };
    settling_settles(lru, upgraded, now);
    if map.contains_key(key) {
        assert(upgrade.ensures((&map[key],), upgraded));
    }
}

/// Concluding a lookup touches the list of recently used statements only.
pub proof fn lookups_promote_idle_statements<W, T>(
    cache: &mut ClientStatementCache<W, T>,
    upgraded: Option<Upgraded<T>>,
    now: u64,
    found: Found<T>,
)
    requires
        old(cache).active_lru@.len() <= 1000,
        call_ensures(ClientStatementCache::<W, T>::settle, (cache, upgraded, now), found),
    ensures
        final(cache).query_to_statement@ == old(cache).query_to_statement@,
        final(cache).token_to_statement@ == old(cache).token_to_statement@,
        is_settled(old(cache).active_lru@, upgraded, now, found, final(cache).active_lru@),
{
    settling_settles(old(cache).active_lru@, upgraded, now);
}

/// A query finds what stands under its text and profile.
pub proof fn queries_find_their_statements<W, T, F: Fn(&W) -> Option<Upgraded<T>>>(
    cache: &mut ClientStatementCache<W, T>,
    query: &str,
    app_profile_id: &str,
    now: u64,
    upgrade: F,
    found: Found<T>,
)
    requires
        old(cache).active_lru@.len() <= 1000,
        call_ensures(
            ClientStatementCache::<W, T>::lookup_by_query::<F>,
            (cache, query, app_profile_id, now, upgrade),
            found,
        ),
    ensures
        final(cache).query_to_statement@ == old(cache).query_to_statement@,
        final(cache).token_to_statement@ == old(cache).token_to_statement@,
        brings(
            old(cache).query_to_statement@,
            (query@, app_profile_id@),
            upgrade,
            old(cache).active_lru@,
            now,
            found,
            final(cache).active_lru@,
        ),
{
    lookups_bring(
        old(cache).query_to_statement@,
        (query@, app_profile_id@),
        upgrade,
        old(cache).active_lru@,
        now,
        found,
        final(cache).active_lru@,
    );
}

/// A token finds what stands under its bytes.
pub proof fn tokens_find_their_statements<W, T, F: Fn(&W) -> Option<Upgraded<T>>>(
    cache: &mut ClientStatementCache<W, T>,
    token: Vec<u8>,
    now: u64,
    upgrade: F,
    found: Found<T>,
)
    requires
        old(cache).active_lru@.len() <= 1000,
        call_ensures(
            ClientStatementCache::<W, T>::lookup_by_token::<F>,
            (cache, &token, now, upgrade),
            found,
        ),
    ensures
        final(cache).query_to_statement@ == old(cache).query_to_statement@,
        final(cache).token_to_statement@ == old(cache).token_to_statement@,
        brings(
            old(cache).token_to_statement@,
            token@,
            upgrade,
            old(cache).active_lru@,
            now,
            found,
            final(cache).active_lru@,
        ),
{
    lookups_bring(
        old(cache).token_to_statement@,
        token@,
        upgrade,
        old(cache).active_lru@,
        now,
        found,
        final(cache).active_lru@,
    );
}

/// An inserted query leads to its statement; all else stays.
pub proof fn inserted_queries_lead_to_their_statement<W, T>(
    cache: &mut ClientStatementCache<W, T>,
    query: String,
    app_profile_id: String,
    statement: W,
)
    requires
        call_ensures(
            ClientStatementCache::<W, T>::insert_query,
            (cache, query, app_profile_id, statement),
            (),
        ),
    ensures
        final(cache).query_to_statement@ == old(cache).query_to_statement@.insert(
            (query@, app_profile_id@),
            statement,
        ),
        final(cache).token_to_statement@ == old(cache).token_to_statement@,
        final(cache).active_lru@ == old(cache).active_lru@,
{
}

/// An inserted token leads to its statement; all else stays.
pub proof fn inserted_tokens_lead_to_their_statement<W, T>(
    cache: &mut ClientStatementCache<W, T>,
    token: Vec<u8>,
    statement: W,
)
    requires
        call_ensures(
            ClientStatementCache::<W, T>::insert_token,
            (cache, token, statement),
            (),
        ),
    ensures
        final(cache).token_to_statement@ == old(cache).token_to_statement@.insert(
            token@,
            statement,
        ),
        final(cache).query_to_statement@ == old(cache).query_to_statement@,
        final(cache).active_lru@ == old(cache).active_lru@,
{
}

/// A removed token leads nowhere; all else stays.
pub proof fn removed_tokens_lead_nowhere<W, T>(
    cache: &mut ClientStatementCache<W, T>,
    token: Vec<u8>,
)
    requires
        call_ensures(ClientStatementCache::<W, T>::remove_token, (cache, &token), ()),
    ensures
        final(cache).token_to_statement@ == old(cache).token_to_statement@.remove(token@),
        final(cache).query_to_statement@ == old(cache).query_to_statement@,
        final(cache).active_lru@ == old(cache).active_lru@,
{
}

/// A query gets the statement that it leads to. Where it leads to none, it gets the one that is
/// made for it, which is then cached for it and the most recently used.
pub proof fn queries_get_one_statement<
    W,
    T,
    F: Fn(&W) -> Option<Upgraded<T>>,
    G: FnOnce() -> Created<W, T>,
>(
    cache: &mut ClientStatementCache<W, T>,
    query: &str,
    app_profile_id: &str,
    now: u64,
    upgrade: F,
    creator: G,
    got: Got<T>,
)
    requires
        old(cache).active_lru@.len() <= 1000,
        call_ensures(
            ClientStatementCache::<W, T>::get_or_insert_query::<F, G>,
            (cache, query, app_profile_id, now, upgrade, creator),
            got,
        ),
    ensures
        final(cache).token_to_statement@ == old(cache).token_to_statement@,
        ({
            let key = (query@, app_profile_id@);
            let held = old(cache).query_to_statement@;
            let lru = old(cache).active_lru@;
            let after = final(cache).active_lru@;
            ||| {
                &&& brings(
                    held,
                    key,
                    upgrade,
                    lru,
                    now,
                    (Found { statement: Some(got.statement), evicted: got.evicted }),
                    after,
                )
                &&& final(cache).query_to_statement@ == held
            }
            ||| {
                &&& !held.contains_key(key) || upgrade.ensures((&held[key],), None)
                &&& exists|made: Created<W, T>|
                    {
                        &&& #[trigger] creator.ensures((), made)
                        &&& got.statement == made.statement
                        &&& final(cache).query_to_statement@ == held.insert(key, made.weak)
                        &&& is_added(lru, made.id, made.statement, after, got.evicted)
                    }
            }
        }),
{
    let key = (query@, app_profile_id@);
    let held = old(cache).query_to_statement@;
    let lru = old(cache).active_lru@;
    let (found, after) = choose|found: Found<T>, after: Seq<(u64, Arc<T>)>|
        {
            &&& #[trigger] looked_up(held_under(held, key), upgrade, lru, now, found, after)
            &&& match found.statement {
                Some(s) => {
                    &&& got == (Got { statement: s, evicted: found.evicted })
                    &&& final(cache)@ == (CacheView { lru: after, ..old(cache)@ })
                },
                None => exists|made: Created<W, T>|
                    {
                        &&& #[trigger] creator.ensures((), made)
                        &&& got == got_new(old(cache)@, made)
                        &&& final(cache)@ == inserted(old(cache)@, key, made)
                    },
            }
        };
    lookups_bring(held, key, upgrade, lru, now, found, after);
    if found.statement is None {
        let made = choose|made: Created<W, T>|
            {
                &&& #[trigger] creator.ensures((), made)
                &&& got == got_new(old(cache)@, made)
                &&& final(cache)@ == inserted(old(cache)@, key, made)
            };
        appending_adds(lru, made.id, made.statement);
        assert(creator.ensures((), made));
        assert(got.statement == made.statement);
    }
}

/// Dropping a statement takes the entries of its query and of its current token out of the cache,
/// each just where it is found dead; all else stays.
pub proof fn drops_take_out_dead_entries<W, T, D: Fn(&W) -> bool>(
    cache: &mut ClientStatementCache<W, T>,
    statement: PreparedStatement,
    dead: D,
    held: Option<Arc<CompiledPlanState>>,
)
    requires
        call_ensures(PlanCell::load_full, (&statement.inner.plan_state,), held),
        call_ensures(
            ClientStatementCache::<W, T>::deregister::<D>,
            (cache, &statement, dead),
            (),
        ),
    ensures
        final(cache).active_lru@ == old(cache).active_lru@,
        ({
            let key = (statement.inner.query@, statement.inner.app_profile_id@);
            let before = old(cache).query_to_statement@;
            let after = final(cache).query_to_statement@;
            if before.contains_key(key) {
                ||| after == before.remove(key) && dead.ensures((&before[key],), true)
                ||| after == before && dead.ensures((&before[key],), false)
            } else {
                after == before
            }
        }),
        ({
            let before = old(cache).token_to_statement@;
            let after = final(cache).token_to_statement@;
            match held {
                Some(plan) if before.contains_key(plan.plan_token@) => {
                    let token = plan.plan_token@;
                    ||| after == before.remove(token) && dead.ensures((&before[token],), true)
                    ||| after == before && dead.ensures((&before[token],), false)
                },
                _ => after == before,
            }
        }),
{
}

} // verus!
