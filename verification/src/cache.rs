//! The client-scoped statement cache.
//!
//! Handles of statements come from outside: `W` is a weak handle, which may or may not
//! still lead to its statement, and `Arc<T>` a strong one, which keeps the statement
//! alive. Whether a weak handle still leads anywhere is for the caller to find out; the
//! cache decides what follows from it.

use crate::lru::{appended, given_up, without, Lru};
use crate::statement::PreparedStatement;
use crate::table::{Key, Table};
use crate::text::{mix_bytes, mix_text, mixed_bytes, mixed_text, same_bytes, same_text};
use crate::time::{elapsed_seconds, minus_or_zero, seconds_since};
use std::sync::Arc;
use vstd::prelude::*;

verus! {

/// A statement that is looked up is made the most recently used one only where it was
/// last executed more than this many seconds ago.
pub const PROMOTION_IDLE_SECONDS: u64 = 10;

/// What a raw query is cached under: its text and the application profile it runs under.
#[derive(Debug)]
pub struct QueryKey {
    pub query: String,
    pub app_profile_id: String,
}

impl View for QueryKey {
    type V = (Seq<char>, Seq<char>);

    open spec fn view(&self) -> (Seq<char>, Seq<char>) {
        (self.query@, self.app_profile_id@)
    }
}

impl Key for QueryKey {
    open spec fn digest_of(key: (Seq<char>, Seq<char>)) -> u64 {
        mixed_text(mixed_text(0, key.0), key.1)
    }

    fn digest(&self) -> (digest: u64) {
        mix_text(mix_text(0, self.query.as_str()), self.app_profile_id.as_str())
    }

    fn same(&self, other: &Self) -> (same: bool) {
        same_text(self.query.as_str(), other.query.as_str()) && same_text(
            self.app_profile_id.as_str(),
            other.app_profile_id.as_str(),
        )
    }
}

/// What a compiled statement is cached under: its plan token.
#[derive(Debug)]
pub struct TokenKey {
    pub token: Vec<u8>,
}

impl View for TokenKey {
    type V = Seq<u8>;

    open spec fn view(&self) -> Seq<u8> {
        self.token@
    }
}

impl Key for TokenKey {
    open spec fn digest_of(key: Seq<u8>) -> u64 {
        mixed_bytes(0, key)
    }

    fn digest(&self) -> (digest: u64) {
        mix_bytes(0, &self.token)
    }

    fn same(&self, other: &Self) -> (same: bool) {
        same_bytes(&self.token, &other.token)
    }
}

/// `Clone::clone` of `std::sync::Arc`: another pointer to the same value.
#[verifier::external_body]
pub(crate) fn share<T>(handle: &Arc<T>) -> (other: Arc<T>)
    ensures
        other == *handle,
{
    handle.clone()
}

/// A statement that a weak handle led to.
#[derive(Debug)]
pub struct Upgraded<T> {
    /// Tells the statement from all others that are alive
    pub id: u64,
    /// The statement
    pub statement: Arc<T>,
    /// The statement's zero of its usage clock
    pub base_instant: u64,
    /// When it was last executed, in seconds from there
    pub last_executed_seconds: u64,
}

/// A statement that was made because none was cached.
#[derive(Debug)]
pub struct Created<W, T> {
    /// Tells the statement from all others that are alive
    pub id: u64,
    /// The statement
    pub statement: Arc<T>,
    /// A weak handle of it
    pub weak: W,
}

/// What a lookup brought: the statement, if there is one, and the handle that the list
/// of recently used statements gave up for it. The latter is for the caller to drop when
/// it holds no lock.
#[derive(Debug)]
pub struct Found<T> {
    pub statement: Option<Arc<T>>,
    pub evicted: Option<Arc<T>>,
}

/// The statement for a query, and the handle that the list of recently used statements gave
/// up for it.
#[derive(Debug)]
pub struct Got<T> {
    pub statement: Arc<T>,
    pub evicted: Option<Arc<T>>,
}

impl<T> Upgraded<T> {
    /// The statement was last executed long enough ago to be promoted.
    pub open spec fn idle(self, now: u64) -> bool {
        minus_or_zero(
            elapsed_seconds(self.base_instant, now),
            self.last_executed_seconds as int,
        ) > PROMOTION_IDLE_SECONDS
    }

    /// Whether the statement was last executed long enough ago to be promoted.
    fn is_idle(&self, now: u64) -> (idle: bool)
        ensures
            idle == self.idle(now),
    {
        let elapsed = seconds_since(self.base_instant, now);
        elapsed.saturating_sub(self.last_executed_seconds) > PROMOTION_IDLE_SECONDS
    }
}

/// The list of recently used statements after a lookup that led to `upgraded`.
pub open spec fn lru_after<T>(
    lru: Seq<(u64, Arc<T>)>,
    upgraded: Option<Upgraded<T>>,
    now: u64,
) -> Seq<(u64, Arc<T>)> {
    match upgraded {
        Some(u) if u.idle(now) => appended(without(lru, u.id), u.id, u.statement),
        _ => lru,
    }
}

/// What a lookup brings that led to `upgraded`.
pub open spec fn found_after<T>(
    lru: Seq<(u64, Arc<T>)>,
    upgraded: Option<Upgraded<T>>,
    now: u64,
) -> Found<T> {
    Found {
        statement: match upgraded {
            Some(u) => Some(u.statement),
            None => None,
        },
        evicted: match upgraded {
            Some(u) if u.idle(now) => given_up(without(lru, u.id), u.id, u.statement),
            _ => None,
        },
    }
}

/// The cache as a mathematical value.
pub struct CacheView<W, T> {
    pub queries: Map<(Seq<char>, Seq<char>), W>,
    pub tokens: Map<Seq<u8>, W>,
    pub lru: Seq<(u64, Arc<T>)>,
}

/// Client-scoped prepared statement cache.
#[derive(Debug)]
#[verifier::reject_recursive_types(W)]
pub struct ClientStatementCache<W, T> {
    /// Maps raw SQL query strings, with their application profile, to statement handles
    pub query_to_statement: Table<QueryKey, W>,
    /// Maps active plan token bytes to statement handles
    pub token_to_statement: Table<TokenKey, W>,
    /// Bounded LRU cache that holds strong handles of statements
    pub active_lru: Lru<Arc<T>>,
}

impl<W, T> View for ClientStatementCache<W, T> {
    type V = CacheView<W, T>;

    open spec fn view(&self) -> CacheView<W, T> {
        CacheView {
            queries: self.query_to_statement@,
            tokens: self.token_to_statement@,
            lru: self.active_lru@,
        }
    }
}

impl<W, T> Default for ClientStatementCache<W, T> {
    fn default() -> (cache: Self)
        ensures
            cache.wf(),
            cache@.queries == Map::<(Seq<char>, Seq<char>), W>::empty(),
            cache@.tokens == Map::<Seq<u8>, W>::empty(),
            cache@.lru == Seq::<(u64, Arc<T>)>::empty(),
    {
        Self::new()
    }
}

/// The weak handle under a key led to `upgraded`: where there is none, to nothing,
/// else to something that `upgrade` may give for it.
pub open spec fn leads_to<W, T, F: Fn(&W) -> Option<Upgraded<T>>>(
    weak: Option<W>,
    upgrade: F,
    upgraded: Option<Upgraded<T>>,
) -> bool {
    match weak {
        Some(w) => upgrade.ensures((&w,), upgraded),
        None => upgraded is None,
    }
}

/// A lookup whose weak handle is `weak` brought `found` and left the list of recently used
/// statements as `after`: both follow from what the handle led to.
pub open spec fn looked_up<W, T, F: Fn(&W) -> Option<Upgraded<T>>>(
    weak: Option<W>,
    upgrade: F,
    lru: Seq<(u64, Arc<T>)>,
    now: u64,
    found: Found<T>,
    after: Seq<(u64, Arc<T>)>,
) -> bool {
    exists|upgraded: Option<Upgraded<T>>|
        {
            &&& #[trigger] leads_to(weak, upgrade, upgraded)
            &&& found == found_after(lru, upgraded, now)
            &&& after == lru_after(lru, upgraded, now)
        }
}

/// What a map holds under a key.
pub open spec fn held_under<K, V>(map: Map<K, V>, key: K) -> Option<V> {
    if map.contains_key(key) {
        Some(map[key])
    } else {
        None
    }
}

impl<W, T> ClientStatementCache<W, T> {
    /// Each key stands in its table once, and the list of recently used statements is
    /// within its bound.
    pub open spec fn wf(self) -> bool {
        &&& self.query_to_statement.wf()
        &&& self.token_to_statement.wf()
        &&& self.active_lru.wf()
    }

    /// Constructs a new ClientStatementCache.
    pub fn new() -> (cache: Self)
        ensures
            cache.wf(),
            cache@.queries == Map::<(Seq<char>, Seq<char>), W>::empty(),
            cache@.tokens == Map::<Seq<u8>, W>::empty(),
            cache@.lru == Seq::<(u64, Arc<T>)>::empty(),
    {
        ClientStatementCache {
            query_to_statement: Table::new(),
            token_to_statement: Table::new(),
            active_lru: Lru::new(),
        }
    }

    /// Inserts a query-to-statement mapping.
    pub fn insert_query(&mut self, query: String, app_profile_id: String, statement: W)
        requires
            old(self).wf(),
        ensures
            final(self).wf(),
            final(self)@ == (CacheView {
                queries: old(self)@.queries.insert((query@, app_profile_id@), statement),
                ..old(self)@
            }),
    {
        self.query_to_statement.insert(QueryKey { query, app_profile_id }, statement);
    }

    /// Inserts a token-to-statement mapping.
    pub fn insert_token(&mut self, token: Vec<u8>, statement: W)
        requires
            old(self).wf(),
        ensures
            final(self).wf(),
            final(self)@ == (CacheView {
                tokens: old(self)@.tokens.insert(token@, statement),
                ..old(self)@
            }),
    {
        self.token_to_statement.insert(TokenKey { token }, statement);
    }

    /// Removes a token-to-statement mapping.
    pub fn remove_token(&mut self, token: &Vec<u8>)
        requires
            old(self).wf(),
        ensures
            final(self).wf(),
            final(self)@ == (CacheView { tokens: old(self)@.tokens.remove(token@), ..old(self)@ }),
    {
        self.token_to_statement.remove(&TokenKey { token: token.clone() });
    }

    /// Concludes a lookup whose weak handle led to `upgraded`. Promotion to the most
    /// recently used statement is kept rare: only a statement that was idle for a while
    /// is promoted.
    pub fn settle(&mut self, upgraded: Option<Upgraded<T>>, now: u64) -> (found: Found<T>)
        requires
            old(self).wf(),
        ensures
            final(self).wf(),
            final(self)@ == (CacheView {
                lru: lru_after(old(self)@.lru, upgraded, now),
                ..old(self)@
            }),
            found == found_after(old(self)@.lru, upgraded, now),
    {
        match upgraded {
            Some(u) => {
                if u.is_idle(now) {
                    let evicted = self.active_lru.promote(u.id, share(&u.statement));
                    Found { statement: Some(u.statement), evicted }
                } else {
                    Found { statement: Some(u.statement), evicted: None }
                }
            },
            None => Found { statement: None, evicted: None },
        }
    }

    /// Looks up a statement by its query template string and application profile.
    pub fn lookup_by_query<F: Fn(&W) -> Option<Upgraded<T>>>(
        &mut self,
        query: &str,
        app_profile_id: &str,
        now: u64,
        upgrade: F,
    ) -> (found: Found<T>)
        requires
            old(self).wf(),
            forall|w: &W| upgrade.requires((w,)),
        ensures
            final(self).wf(),
            final(self)@ == (CacheView { lru: final(self)@.lru, ..old(self)@ }),
            looked_up(
                held_under(old(self)@.queries, (query@, app_profile_id@)),
                upgrade,
                old(self)@.lru,
                now,
                found,
                final(self)@.lru,
            ),
    {
        let key = QueryKey { query: query.to_owned(), app_profile_id: app_profile_id.to_owned() };
        let upgraded = match self.query_to_statement.get(&key) {
            Some(weak) => upgrade(weak),
            None => None,
        };
        assert(leads_to(
            held_under(self@.queries, (query@, app_profile_id@)),
            upgrade,
            upgraded,
        ));
        self.settle(upgraded, now)
    }

    /// Looks up a statement by its compiled plan token bytes.
    pub fn lookup_by_token<F: Fn(&W) -> Option<Upgraded<T>>>(
        &mut self,
        token: &Vec<u8>,
        now: u64,
        upgrade: F,
    ) -> (found: Found<T>)
        requires
            old(self).wf(),
            forall|w: &W| upgrade.requires((w,)),
        ensures
            final(self).wf(),
            final(self)@ == (CacheView { lru: final(self)@.lru, ..old(self)@ }),
            looked_up(
                held_under(old(self)@.tokens, token@),
                upgrade,
                old(self)@.lru,
                now,
                found,
                final(self)@.lru,
            ),
    {
        let key = TokenKey { token: token.clone() };
        let upgraded = match self.token_to_statement.get(&key) {
            Some(weak) => upgrade(weak),
            None => None,
        };
        assert(leads_to(held_under(self@.tokens, token@), upgrade, upgraded));
        self.settle(upgraded, now)
    }

    /// Looks up a statement by its query, or if it doesn't exist, inserts the one returned
    /// by `creator`. This prevents duplicate statements on concurrent cache misses.
    pub fn get_or_insert_query<
        F: Fn(&W) -> Option<Upgraded<T>>,
        G: FnOnce() -> Created<W, T>,
    >(
        &mut self,
        query: &str,
        app_profile_id: &str,
        now: u64,
        upgrade: F,
        creator: G,
    ) -> (got: Got<T>)
        requires
            old(self).wf(),
            forall|w: &W| upgrade.requires((w,)),
            creator.requires(()),
        ensures
            final(self).wf(),
            exists|found: Found<T>, lru: Seq<(u64, Arc<T>)>|
                {
                    &&& #[trigger] looked_up(
                        held_under(old(self)@.queries, (query@, app_profile_id@)),
                        upgrade,
                        old(self)@.lru,
                        now,
                        found,
                        lru,
                    )
                    &&& match found.statement {
                        Some(s) => {
                            &&& got == (Got { statement: s, evicted: found.evicted })
                            &&& final(self)@ == (CacheView { lru, ..old(self)@ })
                        },
                        None => exists|made: Created<W, T>|
                            {
                                &&& #[trigger] creator.ensures((), made)
                                &&& got == got_new(old(self)@, made)
                                &&& final(self)@ == inserted(
                                    old(self)@,
                                    (query@, app_profile_id@),
                                    made,
                                )
                            },
                    }
                },
    {
        let ghost before = self@;
        let found = self.lookup_by_query(query, app_profile_id, now, upgrade);
        let ghost looked = found;
        let ghost lru = self@.lru;
        assert(looked_up(
            held_under(before.queries, (query@, app_profile_id@)),
            upgrade,
            before.lru,
            now,
            looked,
            lru,
        ));
        match found.statement {
            Some(statement) => Got { statement, evicted: found.evicted },
            None => {
                let made = creator();
                let ghost it = made;
                let statement = share(&made.statement);
                self.insert_query(query.to_owned(), app_profile_id.to_owned(), made.weak);
                let evicted = self.active_lru.append(made.id, made.statement);
                assert(creator.ensures((), it));
                Got { statement, evicted }
            },
        }
    }

    /// Takes out what still stands in the cache for a statement that is being dropped:
    /// its query's entry and its current plan token's entry, each only where `dead` finds
    /// that no statement is behind it any more. An entry that meanwhile leads to another
    /// statement stays.
    pub fn deregister<D: Fn(&W) -> bool>(&mut self, statement: &PreparedStatement, dead: D)
        requires
            old(self).wf(),
            forall|w: &W| dead.requires((w,)),
        ensures
            final(self).wf(),
            final(self)@.lru == old(self)@.lru,
            without_if_dead(
                old(self)@.queries,
                (statement@.query, statement@.app_profile_id),
                dead,
                final(self)@.queries,
            ),
            match statement@.plan {
                Some(plan) => without_if_dead(
                    old(self)@.tokens,
                    plan.token,
                    dead,
                    final(self)@.tokens,
                ),
                None => final(self)@.tokens == old(self)@.tokens,
            },
    {
        let key = QueryKey {
            query: statement.inner.query.clone(),
            app_profile_id: statement.inner.app_profile_id.clone(),
        };
        let gone = match self.query_to_statement.get(&key) {
            Some(weak) => dead(weak),
            None => false,
        };
        if gone {
            self.query_to_statement.remove(&key);
        }
        if let Some(plan) = statement.plan_state().load_full() {
            let key = TokenKey { token: plan.plan_token.clone() };
            let gone = match self.token_to_statement.get(&key) {
                Some(weak) => dead(weak),
                None => false,
            };
            if gone {
                self.token_to_statement.remove(&key);
            }
        }
    }
}

/// The cache after a statement was made for a query and inserted.
pub open spec fn inserted<W, T>(
    cache: CacheView<W, T>,
    key: (Seq<char>, Seq<char>),
    made: Created<W, T>,
) -> CacheView<W, T> {
    CacheView {
        queries: cache.queries.insert(key, made.weak),
        lru: appended(cache.lru, made.id, made.statement),
        ..cache
    }
}

/// What comes back where a statement was made and inserted.
pub open spec fn got_new<W, T>(cache: CacheView<W, T>, made: Created<W, T>) -> Got<T> {
    Got {
        statement: made.statement,
        evicted: given_up(cache.lru, made.id, made.statement),
    }
}

/// `after` is `before` without the entry under `key`, where there is one that `dead`
/// finds dead, and `before` itself otherwise.
pub open spec fn without_if_dead<K, W, D: Fn(&W) -> bool>(
    before: Map<K, W>,
    key: K,
    dead: D,
    after: Map<K, W>,
) -> bool {
    if before.contains_key(key) {
        ||| dead.ensures((&before[key],), true) && after == before.remove(key)
        ||| dead.ensures((&before[key],), false) && after == before
    } else {
        after == before
    }
}

} // verus!
