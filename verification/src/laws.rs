//! What holds of the library as a whole: laws that relate several of its functions.
//!
//! What single calls do is told in the modules below, from the fields of what goes in and comes
//! out and in plain numbers and texts: of types and parameters ([`types`]), lifetimes
//! ([`clocks`]), the cache ([`caching`]), plans and their renewal ([`plans`]), running queries
//! ([`calls`]) and the client ([`client`]). [`demands`] says which calls may be made.

use crate::cache::{
    held_under, inserted, lru_after, without_if_dead, CacheView, Created, Upgraded,
    PROMOTION_IDLE_SECONDS,
};
use crate::client::coerces;
use crate::error::{Error, Refusal};
use crate::execute::{
    executes, expects, refusal_handled, retry_after, stepped, Action, Event, ExecutionView, Phase,
    Step, MAX_RETRIES,
};
use crate::inference::param_type;
use crate::lru::{appended, given_up, of_another, without, LRU_CAPACITY};
use crate::messages::{ExecuteQueryRequest, ExecuteView, Timestamp, Value};
use crate::plan::PlanView;
use crate::prepare::compiled;
use crate::refresh::RefreshTask;
use crate::sql::{SqlType, Type, TypeView};
use crate::statement::StatementView;
use crate::time::{
    elapsed_seconds, expiry_in_unix_nanos, ttl_of, unix_nanos, MAX_TTL, MIN_TTL, NANOS_PER_SECOND,
};
use std::sync::Arc;
use vstd::prelude::*;

pub mod caching;
pub mod calls;
pub mod client;
pub mod clocks;
pub mod demands;
pub mod plans;
pub mod types;

verus! {

/// The schema type that stands for a SQL type in a request denotes that very SQL type.
pub proof fn sql_types_survive_the_wire(sql: SqlType, ty: Type, back: Option<SqlType>)
    requires
        call_ensures(SqlType::to_pb, (&sql,), ty),
        call_ensures(SqlType::from_pb, (&ty,), back),
    ensures
        back matches Some(b) && b@ == sql@,
{
}

/// A parameter whose type is declared is compiled under that type, whatever it holds: a null,
/// a float and an array too.
pub proof fn declared_types_are_taken(value: Value, ty: Type)
    requires
        value.declared_type == Some(ty),
    ensures
        param_type(value) == Ok::<TypeView, Seq<char>>(ty@),
{
}

/// A query is sent as it is, and nothing is compiled, where compiling is switched off, where it
/// has no parameters, or where it is given by a token.
pub proof fn when_nothing_is_compiled(disabled: bool, request: ExecuteQueryRequest)
    requires
        disabled || request.params@.len() == 0 || request.prepared_query@.len() > 0,
    ensures
        !coerces(disabled, request),
{
}

/// What is cached for a query under one application profile has no bearing on the same query
/// under another.
pub proof fn profiles_are_independent<W>(
    queries: Map<(Seq<char>, Seq<char>), W>,
    query: Seq<char>,
    profile: Seq<char>,
    other: Seq<char>,
    statement: W,
)
    requires
        profile != other,
    ensures
        held_under(queries.insert((query, profile), statement), (query, other)) == held_under(
            queries,
            (query, other),
        ),
        held_under(queries.insert((query, profile), statement), (query, profile)) == Some(statement),
{
}

/// A statement that was made for a query is the one that the next lookup of that query finds,
/// and the list of recently used statements keeps it alive.
pub proof fn made_statements_are_found_again<W, T>(
    cache: CacheView<W, T>,
    key: (Seq<char>, Seq<char>),
    made: Created<W, T>,
)
    requires
        cache.lru.len() <= LRU_CAPACITY,
    ensures
        held_under(inserted(cache, key, made).queries, key) == Some(made.weak),
        inserted(cache, key, made).tokens == cache.tokens,
        inserted(cache, key, made).lru.last() == (made.id, made.statement),
{
}

/// A token leads to its statement until it is removed, whatever other tokens come and go.
pub proof fn tokens_resolve_until_removed<W>(
    tokens: Map<Seq<u8>, W>,
    token: Seq<u8>,
    other: Seq<u8>,
    statement: W,
    another: W,
)
    requires
        token != other,
    ensures
        held_under(tokens.insert(token, statement), token) == Some(statement),
        held_under(tokens.insert(token, statement).insert(other, another), token) == Some(
            statement,
        ),
        held_under(tokens.insert(token, statement).remove(other), token) == Some(statement),
        held_under(tokens.insert(token, statement).remove(token), token) is None,
{
}

/// After a renewal the replaced token and the new one both lead to their statements; once the
/// replaced one is removed, the new one still does.
pub proof fn both_tokens_resolve_during_the_grace_period<W>(
    tokens: Map<Seq<u8>, W>,
    replaced: Seq<u8>,
    token: Seq<u8>,
    statement: W,
)
    requires
        tokens.contains_key(replaced),
        replaced != token,
    ensures
        held_under(tokens.insert(token, statement), replaced) == Some(tokens[replaced]),
        held_under(tokens.insert(token, statement), token) == Some(statement),
        held_under(tokens.insert(token, statement).remove(replaced), replaced) is None,
        held_under(tokens.insert(token, statement).remove(replaced), token) == Some(statement),
{
}

/// Dropping a statement takes an entry out of the cache only where it is dead; an entry that
/// leads to a living statement stays, and so do the entries under all other keys.
pub proof fn living_entries_survive_a_drop<K, W, D: Fn(&W) -> bool>(
    before: Map<K, W>,
    key: K,
    dead: D,
    after: Map<K, W>,
    other: K,
)
    requires
        without_if_dead(before, key, dead, after),
    ensures
        other != key ==> held_under(after, other) == held_under(before, other),
        before.contains_key(key) && !dead.ensures((&before[key],), true) ==> after == before,
        before.contains_key(key) && !dead.ensures((&before[key],), false) ==> after == before.remove(
            key,
        ),
{
}

/// The list of recently used statements never outgrows its bound, whatever is looked up or
/// added.
pub proof fn recently_used_statements_are_bounded<T>(
    lru: Seq<(u64, Arc<T>)>,
    upgraded: Option<Upgraded<T>>,
    now: u64,
    id: u64,
    handle: Arc<T>,
)
    requires
        lru.len() <= LRU_CAPACITY,
    ensures
        lru_after(lru, upgraded, now).len() <= LRU_CAPACITY,
        appended(lru, id, handle).len() <= LRU_CAPACITY,
{
    if let Some(u) = upgraded {
        lru.lemma_filter_len(of_another(u.id));
    }
}

/// A promoted statement is the last in the list and stands in it once. The others keep their
/// order, and at most the first of them is given up.
pub proof fn promotion_moves_one_statement<S>(lru: Seq<(u64, S)>, id: u64, handle: S)
    requires
        lru.len() <= LRU_CAPACITY,
    ensures
        ({
            let after = appended(without(lru, id), id, handle);
            &&& after.last() == (id, handle)
            &&& forall|i: int| 0 <= i < after.len() - 1 ==> (#[trigger] after[i]).0 != id
            &&& match given_up(without(lru, id), id, handle) {
                None => after.drop_last() == without(lru, id),
                Some(gone) => {
                    &&& gone == without(lru, id)[0].1
                    &&& after.drop_last() == without(lru, id).drop_first()
                },
            }
        }),
{
    let rest = without(lru, id);
    let longer = rest.push((id, handle));
    let after = appended(rest, id, handle);
    lru.lemma_filter_len(of_another(id));
    assert forall|i: int| 0 <= i < rest.len() implies (#[trigger] rest[i]).0 != id by {
        lru.lemma_filter_pred(of_another(id), i);
    }
    if longer.len() > LRU_CAPACITY {
        assert(after.drop_last() =~= rest.drop_first());
        assert forall|i: int| 0 <= i < after.len() - 1 implies (#[trigger] after[i]).0 != id by {
            assert(after[i] == rest[i + 1]);
        }
    } else {
        assert(after.drop_last() =~= rest);
        assert forall|i: int| 0 <= i < after.len() - 1 implies (#[trigger] after[i]).0 != id by {
            assert(after[i] == rest[i]);
        }
    }
}

/// One request to the server serves all who wait for it: from when a plan was compiled until it
/// expires, the statement has that plan to give, and nothing is compiled. That is at least for
/// the minimum lifetime.
pub proof fn one_compilation_serves_all(
    statement: StatementView,
    token: Seq<u8>,
    valid_until: Option<Timestamp>,
    fallback: u128,
    now: u64,
    unix_now: u64,
    later: u64,
)
    requires
        fallback <= MAX_TTL,
        later < compiled(token, valid_until, fallback, now, unix_now).expires_at,
    ensures
        ({
            let plan = compiled(token, valid_until, fallback, now, unix_now);
            &&& (StatementView { plan: Some(plan), ..statement }).fresh_plan(later) == Some(plan)
            &&& plan.expires_at == now + ttl_of(valid_until, fallback, unix_now)
            &&& plan.expires_at >= now + MIN_TTL
        }),
{
    lifetime_in_range(valid_until, fallback, unix_now);
}

/// A lifetime is within its bounds.
proof fn lifetime_in_range(valid_until: Option<Timestamp>, fallback: u128, unix_now: u64)
    requires
        fallback <= MAX_TTL,
    ensures
        MIN_TTL <= ttl_of(valid_until, fallback, unix_now) <= MAX_TTL,
{
    if let Some(at) = valid_until {
        assert(at.seconds * NANOS_PER_SECOND <= 0x8000_0000_0000_0000 * 1_000_000_000)
            by (nonlinear_arith)
            requires
                NANOS_PER_SECOND == 1_000_000_000,
                at.seconds < 0x8000_0000_0000_0000,
        ;
    }
}

/// A plan is compiled anew once it has expired: the statement then has none to give.
pub proof fn expired_plans_are_not_given(statement: StatementView, plan: PlanView, now: u64)
    requires
        statement.plan == Some(plan),
        now >= plan.expires_at,
    ensures
        statement.fresh_plan(now) is None,
{
}

/// Evicting the plan behind a token leaves no plan with that token, and leaves a plan with
/// another token alone.
pub proof fn eviction_spares_newer_plans(statement: StatementView, token: Seq<u8>)
    ensures
        statement.evicted(token).plan matches Some(plan) ==> plan.token != token,
        statement.plan matches Some(plan) && plan.token != token ==> statement.evicted(token)
            == statement,
{
}

/// What is answered to a request to compile a query repeats when the server says that the plan
/// becomes invalid, however late it is answered: unless the server's lifetime is shorter than the
/// minimum, or over already.
pub proof fn answers_repeat_the_servers_expiry(
    token: Seq<u8>,
    at: Timestamp,
    fallback: u128,
    now: u64,
    unix_now: u64,
    passed: u64,
)
    requires
        fallback <= MAX_TTL,
        unix_nanos(at) - unix_now >= MIN_TTL,
        unix_nanos(at) - unix_now >= passed,
        now + passed <= u64::MAX,
        unix_now + passed <= u64::MAX,
    ensures
        expiry_in_unix_nanos(
            compiled(token, Some(at), fallback, now, unix_now).expires_at,
            (now + passed) as u64,
            (unix_now + passed) as u64,
        ) == unix_nanos(at),
{
    lifetime_in_range(Some(at), fallback, unix_now);
}

/// Renewals do not follow each other in a tight loop, whatever lifetimes the server hands out:
/// at least eight seconds lie between a plan's compilation and its renewal.
pub proof fn renewals_are_seconds_apart(task: RefreshTask, compiled_at: u64)
    requires
        task.wf(),
        task.expires_at == compiled_at + task.ttl,
    ensures
        task.expires_at - task.offset() >= compiled_at + 8 * NANOS_PER_SECOND,
{
}

/// A statement that was used in the last ten seconds stays where it is in the list of recently
/// used statements when it is looked up.
pub proof fn busy_statements_are_not_promoted<T>(
    lru: Seq<(u64, Arc<T>)>,
    upgraded: Upgraded<T>,
    used: u64,
    now: u64,
)
    requires
        upgraded.base_instant <= used <= now,
        upgraded.last_executed_seconds == elapsed_seconds(upgraded.base_instant, used),
        now - used <= PROMOTION_IDLE_SECONDS * NANOS_PER_SECOND,
    ensures
        lru_after(lru, Some(upgraded), now) == lru,
{
    let base = upgraded.base_instant;
    assert((now - base) / 1_000_000_000 <= (used - base) / 1_000_000_000 + 10)
        by (nonlinear_arith)
        requires
            now - used <= 10 * 1_000_000_000,
    ;
}

/// A renewal finds nothing to do where the statement has a plan that outlives the one the renewal
/// was scheduled for, by more than the renewal comes late.
pub proof fn newer_plans_stop_older_renewals(
    task: RefreshTask,
    statement: StatementView,
    plan: PlanView,
    now: u64,
)
    requires
        task.wf(),
        statement.plan == Some(plan),
        now - (task.expires_at - task.offset()) < plan.expires_at - task.expires_at,
    ensures
        task.already_done(statement, now),
{
}

/// A statement that was used recently is not idle: not while the time since is no longer than
/// the whole seconds from a plan's compilation to its renewal. The server's acceptance counts
/// as a use, so this holds however slowly it answers.
pub proof fn used_statements_are_not_idle(
    task: RefreshTask,
    statement: StatementView,
    used: u64,
    now: u64,
)
    requires
        statement.base_instant <= used <= now,
        now - used <= ((task.ttl - task.offset()) / (NANOS_PER_SECOND as int)) * NANOS_PER_SECOND,
    ensures
        !task.finds_idle(statement.marked(used), now),
{
    let limit = (task.ttl - task.offset()) / (NANOS_PER_SECOND as int);
    let base = statement.base_instant;
    assert((now - base) / 1_000_000_000 <= (used - base) / 1_000_000_000 + limit)
        by (nonlinear_arith)
        requires
            now - used <= limit * 1_000_000_000,
    ;
}

/// A statement that nobody has used for longer than that is idle, and its plan is not renewed.
pub proof fn unused_statements_are_idle(
    task: RefreshTask,
    statement: StatementView,
    used: u64,
    now: u64,
)
    requires
        statement.base_instant <= used <= now,
        now - used >= ((task.ttl - task.offset()) / (NANOS_PER_SECOND as int) + 1)
            * NANOS_PER_SECOND,
    ensures
        task.finds_idle(statement.marked(used), now),
{
    let limit = (task.ttl - task.offset()) / (NANOS_PER_SECOND as int);
    let base = statement.base_instant;
    assert((now - base) / 1_000_000_000 >= (used - base) / 1_000_000_000 + limit + 1)
        by (nonlinear_arith)
        requires
            now - used >= (limit + 1) * 1_000_000_000,
    ;
    assert(elapsed_seconds(base, used) <= used);
}

/// A call that is bound by a token which has been replaced meanwhile is sent with the token of
/// the latest plan.
pub proof fn replaced_tokens_are_swapped<T>(
    call: ExecutionView<T>,
    statement: StatementView,
    latest: PlanView,
)
    requires
        call.seeks_token(),
        statement.plan == Some(latest),
    ensures
        call.up_to_date(statement).sent() == (ExecuteView {
            prepared_query: latest.token,
            ..call.request
        }),
{
}

/// An attempt with a token that the cache does not know ends with the server's refusal, and
/// nothing is compiled.
pub proof fn unknown_tokens_are_not_recovered<W, T, F: Fn(&W) -> Option<Upgraded<T>>>(
    before: ExecutionView<T>,
    refusal: Refusal,
    cache: CacheView<W, T>,
    upgrade: F,
    now: u64,
    after: ExecutionView<T>,
    cache_after: CacheView<W, T>,
    step: Step<T>,
)
    requires
        before.statement is None,
        !cache.tokens.contains_key(before.token),
        refusal_handled(before, refusal, cache, upgrade, now, after, cache_after, step),
    ensures
        step.action == Action::<T>::Done(Err(Error::RpcError(refusal.status))),
        after.phase is Ended,
{
}

/// One step of a call, with all that it reads and changes.
pub struct Taken<W, T> {
    pub before: ExecutionView<T>,
    pub event: Event,
    pub cache: CacheView<W, T>,
    pub statement: Option<StatementView>,
    pub now: u64,
    pub after: ExecutionView<T>,
    pub cache_after: CacheView<W, T>,
    pub statement_after: Option<StatementView>,
    pub step: Step<T>,
}

/// Each of `steps` is a step of one and the same call, which runs `request`, and each begins
/// where the one before ended. The cache and the statements may change in between.
pub open spec fn is_run<W, T, F: Fn(&W) -> Option<Upgraded<T>>>(
    request: ExecuteView,
    instance_prefix: Seq<char>,
    upgrade: F,
    steps: Seq<Taken<W, T>>,
) -> bool {
    &&& steps.len() > 0 ==> begins(request, steps[0].before)
    &&& forall|i: int|
        0 <= i < steps.len() ==> is_taken(#[trigger] steps[i], instance_prefix, upgrade)
    &&& forall|i: int|
        0 < i < steps.len() ==> (#[trigger] steps[i]).before == steps[i - 1].after
}

/// A call that has just begun to run `request`.
pub open spec fn begins<T>(request: ExecuteView, call: ExecutionView<T>) -> bool {
    ||| call == ExecutionView::<T>::fresh(request, Phase::Compiling)
    ||| call == ExecutionView::<T>::fresh(request, Phase::Unbound)
}

/// A single step is one that a call takes.
pub open spec fn is_taken<W, T, F: Fn(&W) -> Option<Upgraded<T>>>(
    taken: Taken<W, T>,
    instance_prefix: Seq<char>,
    upgrade: F,
) -> bool {
    &&& expects(taken.before.phase, taken.event)
    &&& taken.statement is Some <==> taken.before.wants() is Some
    &&& stepped(
        taken.before,
        taken.event,
        instance_prefix,
        taken.cache,
        taken.statement,
        upgrade,
        taken.now,
        taken.after,
        taken.cache_after,
        taken.statement_after,
        taken.step,
    )
}

/// How many attempts the steps send.
pub open spec fn sends<W, T>(steps: Seq<Taken<W, T>>) -> nat
    decreases steps.len(),
{
    if steps.len() == 0 {
        0
    } else {
        sends(steps.drop_last()) + if steps.last().step.action is Send {
            1nat
        } else {
            0
        }
    }
}

/// How often the steps have a statement compiled anew.
pub open spec fn recompilations<W, T>(steps: Seq<Taken<W, T>>) -> nat
    decreases steps.len(),
{
    if steps.len() == 0 {
        0
    } else {
        recompilations(steps.drop_last()) + if steps.last().step.action is GetOrPrepare {
            1nat
        } else {
            0
        }
    }
}

/// How often a call has something compiled: its query, where it is given as text, and a statement
/// for each time that this is called for.
pub open spec fn compilations<W, T>(steps: Seq<Taken<W, T>>) -> nat {
    recompilations(steps) + if steps.len() > 0 && steps[0].before.phase is Compiling {
        1nat
    } else {
        0
    }
}

/// Nobody else compiles the statement during the call: whenever its plan is found to have expired,
/// the statement has no plan with another token.
pub open spec fn unaided<W, T>(steps: Seq<Taken<W, T>>) -> bool {
    forall|i: int|
        0 <= i < steps.len() && (#[trigger] steps[i]).before.phase is Recovering
            ==> !has_newer_plan(steps[i])
}

/// The statement of a step has a plan with a token other than the call's.
pub open spec fn has_newer_plan<W, T>(taken: Taken<W, T>) -> bool {
    taken.statement->0.plan matches Some(plan) && plan.token != taken.before.token
}

/// The attempts that a call has repeated fit its phase.
spec fn in_bounds<T>(call: ExecutionView<T>) -> bool {
    &&& call.retry_count <= MAX_RETRIES
    &&& call.phase is Recovering || call.phase is Recompiling ==> call.retry_count < MAX_RETRIES
    &&& call.phase is Compiling || call.phase is Unbound || call.phase is Bound
        ==> call.retry_count == 0
}

/// The attempts that a call has sent so far, told from where it stands.
spec fn sent_so_far<T>(call: ExecutionView<T>) -> int {
    match call.phase {
        Phase::Sent | Phase::Recovering(_) | Phase::Recompiling => call.retry_count + 1,
        _ => call.retry_count as int,
    }
}

/// The repeated attempts that a call has begun to prepare for, told from where it stands.
spec fn repeated_so_far<T>(call: ExecutionView<T>) -> int {
    match call.phase {
        Phase::Recompiling => call.retry_count + 1,
        _ => call.retry_count as int,
    }
}

/// A step keeps the bounds, uses up steps, and counts its attempt.
proof fn one_step<W, T, F: Fn(&W) -> Option<Upgraded<T>>>(
    taken: Taken<W, T>,
    instance_prefix: Seq<char>,
    upgrade: F,
)
    requires
        in_bounds(taken.before),
        is_taken(taken, instance_prefix, upgrade),
    ensures
        in_bounds(taken.after),
        taken.after.steps_left() < taken.before.steps_left(),
        taken.after.phase !is Ended ==> sent_so_far(taken.after) == sent_so_far(taken.before)
            + if taken.step.action is Send {
            1int
        } else {
            0
        },
        taken.after.phase is Ended ==> taken.step.action !is Send,
        sent_so_far(taken.before) <= MAX_RETRIES + 1,
        taken.after.phase is Ended ==> taken.step.action !is GetOrPrepare,
        repeated_so_far(taken.before) <= MAX_RETRIES,
        taken.after.phase !is Ended ==> repeated_so_far(taken.after) >= repeated_so_far(
            taken.before,
        ) + if taken.step.action is GetOrPrepare {
            1int
        } else {
            0
        },
        taken.after.phase !is Ended && (taken.before.phase is Recovering ==> !has_newer_plan(taken))
            ==> repeated_so_far(taken.after) == repeated_so_far(taken.before)
            + if taken.step.action is GetOrPrepare {
            1int
        } else {
            0
        },
{
}

/// The state after a run.
spec fn run_so_far<W, T, F: Fn(&W) -> Option<Upgraded<T>>>(
    request: ExecuteView,
    instance_prefix: Seq<char>,
    upgrade: F,
    steps: Seq<Taken<W, T>>,
) -> bool {
    let last = steps.last().after;
    &&& in_bounds(last)
    &&& steps.len() + last.steps_left() <= 15
    &&& sends(steps) <= MAX_RETRIES + 1
    &&& last.phase !is Ended ==> sends(steps) == sent_so_far(last)
    &&& recompilations(steps) <= MAX_RETRIES
    &&& last.phase !is Ended ==> recompilations(steps) <= repeated_so_far(last)
    &&& last.phase !is Ended && unaided(steps) ==> recompilations(steps) == repeated_so_far(last)
}

/// A run without its last step is a run.
proof fn shorter_run<W, T, F: Fn(&W) -> Option<Upgraded<T>>>(
    request: ExecuteView,
    instance_prefix: Seq<char>,
    upgrade: F,
    steps: Seq<Taken<W, T>>,
)
    requires
        is_run(request, instance_prefix, upgrade, steps),
        steps.len() > 1,
    ensures
        is_run(request, instance_prefix, upgrade, steps.drop_last()),
        unaided(steps) ==> unaided(steps.drop_last()),
{
    let before = steps.drop_last();
    if unaided(steps) {
        assert forall|i: int|
            0 <= i < before.len() && (#[trigger] before[i]).before.phase is Recovering implies
            !has_newer_plan(before[i]) by {
            assert(before[i] == steps[i]);
        }
    }
    assert forall|i: int| 0 <= i < before.len() implies is_taken(
        #[trigger] before[i],
        instance_prefix,
        upgrade,
    ) by {
        assert(before[i] == steps[i]);
    }
    assert forall|i: int| 0 < i < before.len() implies (#[trigger] before[i]).before == before[i
        - 1].after by {
        assert(before[i] == steps[i]);
        assert(before[i - 1] == steps[i - 1]);
    }
}

/// The bounds hold after every run.
proof fn all_steps<W, T, F: Fn(&W) -> Option<Upgraded<T>>>(
    request: ExecuteView,
    instance_prefix: Seq<char>,
    upgrade: F,
    steps: Seq<Taken<W, T>>,
)
    requires
        is_run(request, instance_prefix, upgrade, steps),
        steps.len() > 0,
    ensures
        run_so_far(request, instance_prefix, upgrade, steps),
    decreases steps.len(),
{
    let n = steps.len() as int;
    let before = steps.drop_last();
    assert(is_taken(steps[n - 1], instance_prefix, upgrade));
    if n == 1 {
        assert(begins(request, steps[0].before));
        one_step(steps[0], instance_prefix, upgrade);
        assert(sends(before) == 0);
        assert(recompilations(before) == 0);
    } else {
        shorter_run(request, instance_prefix, upgrade, steps);
        all_steps(request, instance_prefix, upgrade, before);
        assert(steps[n - 1].before == steps[n - 2].after);
        assert(before.last() == steps[n - 2]);
        one_step(steps[n - 1], instance_prefix, upgrade);
    }
}

/// A call sends its request at most three times, whatever the server answers, has something
/// compiled at most three times, and comes to an end: it takes at most fifteen steps.
pub proof fn calls_come_to_an_end<W, T, F: Fn(&W) -> Option<Upgraded<T>>>(
    request: ExecuteView,
    instance_prefix: Seq<char>,
    upgrade: F,
    steps: Seq<Taken<W, T>>,
)
    requires
        is_run(request, instance_prefix, upgrade, steps),
    ensures
        sends(steps) <= MAX_RETRIES + 1,
        recompilations(steps) <= MAX_RETRIES,
        compilations(steps) <= MAX_RETRIES + 1,
        steps.len() <= 15,
        forall|i: int|
            0 <= i < steps.len() - 1 ==> !((#[trigger] steps[i]).step.action is Done),
{
    if steps.len() > 0 {
        all_steps(request, instance_prefix, upgrade, steps);
        assert(steps.last().after.steps_left() >= 0);
        assert forall|i: int| 0 <= i < steps.len() - 1 implies !((
        #[trigger] steps[i]).step.action is Done) by {
            assert(is_taken(steps[i], instance_prefix, upgrade));
            assert(is_taken(steps[i + 1], instance_prefix, upgrade));
            assert(steps[i + 1].before == steps[i].after);
        }
    }
}

/// What a call stands for fits the request that it was begun with: only the query text, the token
/// and the data format are the call's own, and the text and the format only where the query was
/// compiled.
spec fn stands_for<T>(request: ExecuteView, compiled: bool, call: ExecutionView<T>) -> bool {
    let now = call.request;
    &&& now.instance_name == request.instance_name
    &&& now.app_profile_id == request.app_profile_id
    &&& now.resume_token == request.resume_token
    &&& now.params == request.params
    &&& compiled || call.phase !is Compiling
    &&& if compiled && call.phase !is Compiling && call.phase !is Ended {
        now.query == Seq::<char>::empty() && now.data_format is None
    } else if !compiled {
        now.query == request.query && now.data_format == request.data_format
    } else {
        true
    }
}

/// A step keeps what a call stands for, and sends it.
proof fn one_step_stands_for<W, T, F: Fn(&W) -> Option<Upgraded<T>>>(
    request: ExecuteView,
    compiled: bool,
    taken: Taken<W, T>,
    instance_prefix: Seq<char>,
    upgrade: F,
)
    requires
        stands_for(request, compiled, taken.before),
        is_taken(taken, instance_prefix, upgrade),
    ensures
        stands_for(request, compiled, taken.after),
        taken.step.action matches Action::Send(outgoing) ==> sends_for(
            request,
            compiled,
            outgoing.request@,
        ),
{
}

/// `sent` asks for what `request` asks for: its query text and data format are left out where the
/// query was compiled, and only the token may be another.
pub open spec fn sends_for(request: ExecuteView, compiled: bool, sent: ExecuteView) -> bool {
    sent == if compiled {
        ExecuteView {
            query: Seq::empty(),
            data_format: None,
            prepared_query: sent.prepared_query,
            ..request
        }
    } else {
        ExecuteView { prepared_query: sent.prepared_query, ..request }
    }
}

/// What a call stands for is kept to the end of every run.
proof fn all_steps_stand_for<W, T, F: Fn(&W) -> Option<Upgraded<T>>>(
    request: ExecuteView,
    instance_prefix: Seq<char>,
    upgrade: F,
    steps: Seq<Taken<W, T>>,
    at: int,
)
    requires
        is_run(request, instance_prefix, upgrade, steps),
        0 <= at < steps.len(),
    ensures
        stands_for(request, steps[0].before.phase is Compiling, steps[at].before),
    decreases at,
{
    let compiled = steps[0].before.phase is Compiling;
    if at == 0 {
        assert(begins(request, steps[0].before));
    } else {
        all_steps_stand_for(request, instance_prefix, upgrade, steps, at - 1);
        assert(is_taken(steps[at - 1], instance_prefix, upgrade));
        one_step_stands_for(request, compiled, steps[at - 1], instance_prefix, upgrade);
        assert(steps[at].before == steps[at - 1].after);
    }
}

/// Every attempt of a call asks for what the caller asked for. A query that was compiled first
/// goes out by its token, without its text and without a data format; any other goes out as it
/// came, but for its token.
pub proof fn calls_send_what_was_asked<W, T, F: Fn(&W) -> Option<Upgraded<T>>>(
    request: ExecuteView,
    instance_prefix: Seq<char>,
    upgrade: F,
    steps: Seq<Taken<W, T>>,
    at: int,
)
    requires
        is_run(request, instance_prefix, upgrade, steps),
        0 <= at < steps.len(),
    ensures
        steps[at].step.action matches Action::Send(outgoing) ==> sends_for(
            request,
            steps[0].before.phase is Compiling,
            outgoing.request@,
        ),
{
    all_steps_stand_for(request, instance_prefix, upgrade, steps, at);
    assert(is_taken(steps[at], instance_prefix, upgrade));
    one_step_stands_for(
        request,
        steps[0].before.phase is Compiling,
        steps[at],
        instance_prefix,
        upgrade,
    );
}

/// Where a call fails on an expired plan although its statement is known, it was sent three
/// times. Unless somebody else compiled the statement meanwhile, the call had it compiled twice.
pub proof fn expiry_is_final_after_three_attempts<W, T, F: Fn(&W) -> Option<Upgraded<T>>>(
    request: ExecuteView,
    instance_prefix: Seq<char>,
    upgrade: F,
    steps: Seq<Taken<W, T>>,
    refusal: Refusal,
)
    requires
        is_run(request, instance_prefix, upgrade, steps),
        steps.len() > 0,
        steps.last().event == Event::Refused(refusal),
        refusal.expired(),
        steps.last().before.statement is Some,
        steps.last().step.action is Done,
    ensures
        sends(steps) == MAX_RETRIES + 1,
        unaided(steps) ==> recompilations(steps) == MAX_RETRIES,
        steps.last().step.action == Action::<T>::Done(Err(Error::RpcError(refusal.status))),
{
    let n = steps.len() as int;
    let before = steps.drop_last();
    assert(is_taken(steps[n - 1], instance_prefix, upgrade));
    if n == 1 {
        assert(begins(request, steps[0].before));
    } else {
        shorter_run(request, instance_prefix, upgrade, steps);
        all_steps(request, instance_prefix, upgrade, before);
        assert(steps[n - 1].before == steps[n - 2].after);
        assert(before.last() == steps[n - 2]);
    }
}

/// The sum of some numbers.
pub open spec fn total(numbers: Seq<nat>) -> nat
    decreases numbers.len(),
{
    if numbers.len() == 0 {
        0
    } else {
        total(numbers.drop_last()) + numbers.last()
    }
}

/// The sum of numbers within a bound is within the product.
proof fn total_is_bounded(numbers: Seq<nat>, bound: nat)
    requires
        forall|i: int| 0 <= i < numbers.len() ==> #[trigger] numbers[i] <= bound,
    ensures
        total(numbers) <= numbers.len() * bound,
    decreases numbers.len(),
{
    if numbers.len() > 0 {
        let rest = numbers.drop_last();
        assert forall|i: int| 0 <= i < rest.len() implies #[trigger] rest[i] <= bound by {
            assert(rest[i] == numbers[i]);
        }
        total_is_bounded(rest, bound);
        assert(rest.len() * bound + bound == numbers.len() * bound) by (nonlinear_arith)
            requires
                rest.len() + 1 == numbers.len(),
        ;
    }
}

/// One of the calls that a statement makes when it is executed with retries.
pub struct Tried<W, T> {
    /// The statement when its plan is asked for, and the time then
    pub statement: StatementView,
    pub now: u64,
    /// The token of the plan that came of it
    pub token: Seq<u8>,
    /// The values that the statement's parameters are bound to
    pub params: Seq<(String, Value)>,
    /// How many calls were repeated so far
    pub retry_count: u32,
    /// The steps of the call
    pub steps: Seq<Taken<W, T>>,
    /// What the server refused it with, where it did
    pub refusal: Refusal,
    /// The statement when the refusal arrives
    pub refused: StatementView,
}

/// `tried` runs the plan of its statement, from its beginning to its end. A request that is given
/// by a token is not compiled first.
pub open spec fn is_tried<W, T, F: Fn(&W) -> Option<Upgraded<T>>>(
    tried: Tried<W, T>,
    instance_prefix: Seq<char>,
    upgrade: F,
) -> bool {
    let request = executes(tried.statement, instance_prefix, tried.token, tried.params);
    &&& is_run(request, instance_prefix, upgrade, tried.steps)
    &&& tried.steps.len() > 0
    &&& tried.steps[0].before == ExecutionView::<T>::fresh(request, Phase::Unbound)
    &&& tried.steps.last().step.action is Done
}

/// `calls` are those that a statement makes, one after the other, when it is executed with
/// retries: each but the last failed on a refusal after which it tries again.
pub open spec fn is_retried<W, T, F: Fn(&W) -> Option<Upgraded<T>>>(
    calls: Seq<Tried<W, T>>,
    instance_prefix: Seq<char>,
    upgrade: F,
) -> bool {
    &&& calls.len() > 0
    &&& calls[0].retry_count == 0
    &&& forall|i: int|
        0 <= i < calls.len() ==> is_tried(#[trigger] calls[i], instance_prefix, upgrade)
    &&& forall|i: int| 0 < i < calls.len() ==> follows(calls[i - 1], #[trigger] calls[i])
}

/// `next` is made because of what `tried` was refused with.
pub open spec fn follows<W, T>(tried: Tried<W, T>, next: Tried<W, T>) -> bool {
    &&& tried.steps.last().step.action == Action::<T>::Done(
        Err(Error::RpcError(tried.refusal.status)),
    )
    &&& retry_after(tried.refusal, tried.retry_count) == Ok::<u32, Error>(next.retry_count)
}

/// How many attempts the calls send.
pub open spec fn all_sends<W, T>(calls: Seq<Tried<W, T>>) -> nat {
    total(calls.map_values(|tried: Tried<W, T>| sends(tried.steps)))
}

/// How often a call and what leads to it have the statement compiled: once to begin with, where
/// the statement has no plan to give, and as often as the call asks for it.
pub open spec fn compilations_of<W, T>(tried: Tried<W, T>) -> nat {
    compilations(tried.steps) + if tried.statement.fresh_plan(tried.now) is None {
        1nat
    } else {
        0
    }
}

/// How often the calls have the statement compiled.
pub open spec fn all_compilations<W, T>(calls: Seq<Tried<W, T>>) -> nat {
    total(calls.map_values(|tried: Tried<W, T>| compilations_of(tried)))
}

/// The retry count goes up by one from each call to the next.
proof fn retries_are_counted<W, T, F: Fn(&W) -> Option<Upgraded<T>>>(
    calls: Seq<Tried<W, T>>,
    instance_prefix: Seq<char>,
    upgrade: F,
    at: int,
)
    requires
        is_retried(calls, instance_prefix, upgrade),
        0 <= at < calls.len(),
    ensures
        calls[at].retry_count == at,
        at <= MAX_RETRIES,
    decreases at,
{
    if at > 0 {
        retries_are_counted(calls, instance_prefix, upgrade, at - 1);
        assert(follows(calls[at - 1], calls[at]));
    }
}

/// A statement that is executed with retries makes at most three calls, whatever the server
/// answers. They send at most nine requests and have the statement compiled at most nine times.
pub proof fn retries_within_retries_are_bounded<W, T, F: Fn(&W) -> Option<Upgraded<T>>>(
    calls: Seq<Tried<W, T>>,
    instance_prefix: Seq<char>,
    upgrade: F,
)
    requires
        is_retried(calls, instance_prefix, upgrade),
    ensures
        calls.len() <= MAX_RETRIES + 1,
        all_sends(calls) <= 9,
        all_compilations(calls) <= 9,
{
    let last = calls.len() - 1;
    retries_are_counted(calls, instance_prefix, upgrade, last);
    let sent = calls.map_values(|tried: Tried<W, T>| sends(tried.steps));
    let made = calls.map_values(|tried: Tried<W, T>| compilations_of(tried));
    assert forall|i: int| 0 <= i < calls.len() implies #[trigger] sent[i] <= 3 && made[i] <= 3 by {
        assert(is_tried(calls[i], instance_prefix, upgrade));
        let tried = calls[i];
        calls_come_to_an_end(
            executes(tried.statement, instance_prefix, tried.token, tried.params),
            instance_prefix,
            upgrade,
            tried.steps,
        );
    }
    assert forall|i: int| 0 <= i < made.len() implies #[trigger] made[i] <= 3 by {
        assert(sent[i] <= 3);
    }
    total_is_bounded(sent, 3);
    total_is_bounded(made, 3);
}

/// A call ended because the plan had expired, although its statement was known.
pub open spec fn ends_expired<W, T>(tried: Tried<W, T>) -> bool {
    &&& tried.steps.last().event == Event::Refused(tried.refusal)
    &&& tried.refusal.expired()
    &&& tried.steps.last().before.statement is Some
}

/// Nobody but the calls compiles the statement, which has no plan to begin with, and the server
/// hands out one and the same token each time.
pub open spec fn one_token_for_all<W, T>(calls: Seq<Tried<W, T>>) -> bool {
    &&& calls[0].statement.fresh_plan(calls[0].now) is None
    &&& forall|i: int| 0 <= i < calls.len() ==> unaided((#[trigger] calls[i]).steps)
    &&& forall|i: int| 0 < i < calls.len() ==> goes_on_from(calls[i - 1], #[trigger] calls[i])
}

/// `next` finds the statement as `tried` left it after its refusal, when the statement's plan still
/// had the token that `tried` began with.
pub open spec fn goes_on_from<W, T>(tried: Tried<W, T>, next: Tried<W, T>) -> bool {
    &&& tried.refused.plan matches Some(plan) ==> plan.token == tried.token
    &&& next.statement.plan == tried.refused.evicted(tried.token).plan
}

/// Where the server refuses every attempt because the plan has expired, a statement that is
/// executed with retries makes exactly three calls and sends exactly nine requests before it
/// fails with the last refusal. Where the server hands out the same token each time, and nobody
/// else compiles the statement, it is compiled exactly nine times.
pub proof fn persistent_expiry_takes_nine_requests<W, T, F: Fn(&W) -> Option<Upgraded<T>>>(
    calls: Seq<Tried<W, T>>,
    instance_prefix: Seq<char>,
    upgrade: F,
)
    requires
        is_retried(calls, instance_prefix, upgrade),
        forall|i: int| 0 <= i < calls.len() ==> ends_expired(#[trigger] calls[i]),
        retry_after(calls.last().refusal, calls.last().retry_count) is Err,
    ensures
        calls.len() == MAX_RETRIES + 1,
        all_sends(calls) == 9,
        one_token_for_all(calls) ==> all_compilations(calls) == 9,
        retry_after(calls.last().refusal, calls.last().retry_count) == Err::<u32, Error>(
            Error::RpcError(calls.last().refusal.status),
        ),
{
    let last = calls.len() - 1;
    retries_are_counted(calls, instance_prefix, upgrade, last);
    assert(ends_expired(calls[last]));
    let sent = calls.map_values(|tried: Tried<W, T>| sends(tried.steps));
    let made = calls.map_values(|tried: Tried<W, T>| compilations_of(tried));
    assert forall|i: int| 0 <= i < calls.len() implies #[trigger] sent[i] == 3 && (
    one_token_for_all(calls) ==> made[i] == 3) by {
        let tried = calls[i];
        assert(is_tried(tried, instance_prefix, upgrade));
        assert(ends_expired(tried));
        expiry_is_final_after_three_attempts(
            executes(tried.statement, instance_prefix, tried.token, tried.params),
            instance_prefix,
            upgrade,
            tried.steps,
            tried.refusal,
        );
        if one_token_for_all(calls) {
            assert(unaided(tried.steps));
            if i > 0 {
                assert(goes_on_from(calls[i - 1], calls[i]));
            }
            assert(tried.statement.fresh_plan(tried.now) is None);
        }
    }
    reveal_with_fuel(total, 4);
    assert(sent[0] == 3 && sent[1] == 3 && sent[2] == 3);
    assert(sent.drop_last().last() == sent[1]);
    assert(sent.drop_last().drop_last().last() == sent[0]);
    assert(made.drop_last().last() == made[1]);
    assert(made.drop_last().drop_last().last() == made[0]);
}

} // verus!
