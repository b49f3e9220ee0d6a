//! What each event leads a call to, told from the fields of the call, of its request and of the
//! refusal.

use crate::cache::{held_under, looked_up, ClientStatementCache, Found, Upgraded};
use crate::error::{Code, Error, Refusal};
use crate::execute::{Action, Event, ExecuteQuery, Phase, Step};
use crate::laws::caching::{brings, lookups_bring};
use crate::laws::client::headers_carry_all_but_control_characters_in;
use crate::laws::plans::{
    breaks_the_header, gives_none, gives_same, is_routing_header, same_but_for_use_and_plan,
    statements_with_one_view, used_at,
};
use crate::laws::types::{
    params_with_one_view_are_the_same, requests_with_one_view_are_the_same, same_params,
    same_request,
};
use crate::messages::{ExecuteQueryRequest, PrepareQueryResponse, Value};
use crate::plan::{CompiledPlanState, PlanCell};
use crate::statement::PreparedStatement;
use crate::text::{contains, occurs_at, occurs_in, same_bytes, same_text, strip_prefix};
use std::sync::Arc;
use vstd::prelude::*;

verus! {

/// A text holds another just where it is something, the other, and something more.
pub proof fn texts_hold_their_parts(hay: Seq<char>, needle: Seq<char>)
    ensures
        occurs_in(hay, needle) <==> exists|before: Seq<char>, after: Seq<char>|
            hay == #[trigger] (before + needle + after),
{
    if occurs_in(hay, needle) {
        let at = choose|at: int| occurs_at(hay, needle, at);
        assert(hay =~= hay.take(at) + needle + hay.skip(at + needle.len()));
    }
    if exists|before: Seq<char>, after: Seq<char>| hay == #[trigger] (before + needle + after) {
        let (before, after) = choose|before: Seq<char>, after: Seq<char>|
            hay == #[trigger] (before + needle + after);
        let at = before.len() as int;
        assert(hay.subrange(at, at + needle.len()) =~= needle);
        assert(occurs_at(hay, needle, at));
    }
}

/// What the helpers on texts and bytes say.
pub proof fn texts_are_compared_whole(
    a: &str,
    b: &str,
    holds: bool,
    rest: Option<String>,
    same: bool,
    c: Vec<u8>,
    d: Vec<u8>,
    same_as: bool,
)
    requires
        call_ensures(contains, (a, b), holds),
        call_ensures(strip_prefix, (a, b), rest),
        call_ensures(same_text, (a, b), same),
        call_ensures(same_bytes, (&c, &d), same_as),
    ensures
        holds <==> exists|before: Seq<char>, after: Seq<char>|
            a@ == #[trigger] (before + b@ + after),
        match rest {
            Some(r) => a@ == b@ + r@,
            None => forall|r: Seq<char>| a@ != #[trigger] (b@ + r),
        },
        same <==> a@ == b@,
        same_as <==> c@ == d@,
{
    texts_hold_their_parts(a@, b@);
    if rest is None {
        assert forall|r: Seq<char>| a@ != #[trigger] (b@ + r) by {
            assert(b@.is_prefix_of(b@ + r));
        }
    }
}

/// Each outside failure becomes the error that carries it.
pub proof fn failures_become_their_errors(
    io: std::io::Error,
    from_io: Error,
    transport: tonic::transport::Error,
    from_transport: Error,
    status: tonic::Status,
    from_status: Error,
    credentials: gcp_auth::Error,
    from_credentials: Error,
)
    requires
        call_ensures(<Error as From<std::io::Error>>::from, (io,), from_io),
        call_ensures(<Error as From<tonic::transport::Error>>::from, (transport,), from_transport),
        call_ensures(<Error as From<tonic::Status>>::from, (status,), from_status),
        call_ensures(<Error as From<gcp_auth::Error>>::from, (credentials,), from_credentials),
    ensures
        from_io == Error::IoError(io),
        from_transport == Error::TransportError(transport),
        from_status == Error::RpcError(status),
        from_credentials == Error::GCPAuthError(credentials),
{
}

/// The message holds the mark that the server sets where a plan has expired.
pub open spec fn is_marked(message: Seq<char>) -> bool {
    exists|before: Seq<char>, after: Seq<char>|
        message == #[trigger] (before + "PREPARED_QUERY_EXPIRED"@ + after)
}

/// The code is one of the two under which the server says that a plan has expired.
pub open spec fn is_expiry_code(code: Code) -> bool {
    code is InvalidArgument || code is FailedPrecondition
}

/// Whether a plan has expired is told by the code and the mark in the message, and by nothing
/// else.
pub proof fn expiry_is_told_by_code_and_mark(refusal: Refusal, expired: bool)
    requires
        call_ensures(Refusal::is_plan_expired, (&refusal,), expired),
    ensures
        expired <==> is_expiry_code(refusal.code) && is_marked(refusal.message@),
{
    texts_hold_their_parts(refusal.message@, "PREPARED_QUERY_EXPIRED"@);
}

/// The expiry of a refusal.
proof fn expired_as_told(refusal: Refusal)
    ensures
        refusal.expired() <==> is_expiry_code(refusal.code) && is_marked(refusal.message@),
{
    texts_hold_their_parts(refusal.message@, "PREPARED_QUERY_EXPIRED"@);
}

/// The call is the same but for where it stands.
pub open spec fn same_but_for_phase<T>(a: ExecuteQuery<T>, b: ExecuteQuery<T>) -> bool {
    &&& same_request(a.request, b.request)
    &&& a.token_to_use@ == b.token_to_use@
    &&& a.retry_count == b.retry_count
    &&& a.cached_stmt == b.cached_stmt
}

/// The requests are the same but for their tokens.
pub open spec fn same_but_for_token(a: ExecuteQueryRequest, b: ExecuteQueryRequest) -> bool {
    &&& a.instance_name@ == b.instance_name@
    &&& a.app_profile_id@ == b.app_profile_id@
    &&& a.query@ == b.query@
    &&& a.resume_token@ == b.resume_token@
    &&& same_params(a.params@, b.params@)
    &&& a.data_format == b.data_format
}

/// The caches hold the same.
pub open spec fn same_cache<W, T>(
    a: ClientStatementCache<W, T>,
    b: ClientStatementCache<W, T>,
) -> bool {
    &&& a.query_to_statement@ == b.query_to_statement@
    &&& a.token_to_statement@ == b.token_to_statement@
    &&& a.active_lru@ == b.active_lru@
}

/// The statements are the same in all.
pub open spec fn same_statement(a: PreparedStatement, b: PreparedStatement) -> bool {
    &&& same_but_for_use_and_plan(a, b)
    &&& a.inner.plan_state@ == b.inner.plan_state@
    &&& a.inner.last_executed_seconds == b.inner.last_executed_seconds
}

/// The statement `b` was used at `now`, and is otherwise the same.
pub open spec fn is_used(a: PreparedStatement, b: PreparedStatement, now: u64) -> bool {
    &&& same_but_for_use_and_plan(a, b)
    &&& a.inner.plan_state@ == b.inner.plan_state@
    &&& used_at(a.inner, b.inner, now)
}

/// A statement is wanted where the next step is about one: the known one before and after an
/// attempt, or the one that is to recover the call.
pub proof fn calls_want_the_statement_they_speak_of<T>(
    call: ExecuteQuery<T>,
    wanted: Option<Arc<T>>,
)
    requires
        call_ensures(ExecuteQuery::<T>::wants, (&call,), wanted),
    ensures
        wanted == match call.phase {
            Phase::Bound | Phase::Ready | Phase::Sent => call.cached_stmt,
            Phase::Recovering(statement) => Some(statement),
            Phase::Compiling | Phase::Unbound | Phase::Recompiling | Phase::Ended => None,
        },
{
}

/// A refusal whose message lacks the mark, whatever its code, or which comes under another code,
/// whatever its message, ends the call after that attempt with its very status. The cache and the
/// statement stay as they are, and nothing is compiled or sent again.
pub proof fn other_refusals_end_the_call<W, T, F: Fn(&W) -> Option<Upgraded<T>>>(
    call: &mut ExecuteQuery<T>,
    instance_prefix: &str,
    cache: &mut ClientStatementCache<W, T>,
    statement: Option<&mut PreparedStatement>,
    refusal: Refusal,
    now: u64,
    upgrade: F,
    step: Step<T>,
)
    requires
        call_ensures(
            ExecuteQuery::<T>::step::<W, F>,
            (call, instance_prefix, cache, statement, Event::Refused(refusal), now, upgrade),
            step,
        ),
        !is_marked(refusal.message@) || !is_expiry_code(refusal.code),
    ensures
        step.action == Action::<T>::Done(Err(Error::RpcError(refusal.status))),
        step.evicted is None,
        final(call).phase is Ended,
        same_but_for_phase(*final(call), *old(call)),
        same_cache(*final(cache), *old(cache)),
        statement matches Some(s) ==> same_statement(*final(s), *s),
{
    expired_as_told(refusal);
    requests_with_one_view_are_the_same(final(call).request, old(call).request);
    if let Some(s) = statement {
        statements_with_one_view(*final(s), *s);
    }
}

/// An attempt that was repeated twice is not repeated again, whatever the refusal says: the call
/// ends with it, and the cache and the statement stay as they are.
pub proof fn attempts_are_repeated_twice_at_most<W, T, F: Fn(&W) -> Option<Upgraded<T>>>(
    call: &mut ExecuteQuery<T>,
    instance_prefix: &str,
    cache: &mut ClientStatementCache<W, T>,
    statement: Option<&mut PreparedStatement>,
    refusal: Refusal,
    now: u64,
    upgrade: F,
    step: Step<T>,
)
    requires
        call_ensures(
            ExecuteQuery::<T>::step::<W, F>,
            (call, instance_prefix, cache, statement, Event::Refused(refusal), now, upgrade),
            step,
        ),
        old(call).retry_count >= 2,
    ensures
        step.action == Action::<T>::Done(Err(Error::RpcError(refusal.status))),
        step.evicted is None,
        final(call).phase is Ended,
        same_but_for_phase(*final(call), *old(call)),
        same_cache(*final(cache), *old(cache)),
        statement matches Some(s) ==> same_statement(*final(s), *s),
{
    requests_with_one_view_are_the_same(final(call).request, old(call).request);
    if let Some(s) = statement {
        statements_with_one_view(*final(s), *s);
    }
}

/// A refusal that says that the plan has expired takes the token out of the cache, up to twice in
/// a call. The call then recovers through the statement that it knows, or else through the one
/// that the token led to; where there is none, it ends with the refusal.
pub proof fn expired_plans_are_recovered<W, T, F: Fn(&W) -> Option<Upgraded<T>>>(
    call: &mut ExecuteQuery<T>,
    instance_prefix: &str,
    cache: &mut ClientStatementCache<W, T>,
    statement: Option<&mut PreparedStatement>,
    refusal: Refusal,
    now: u64,
    upgrade: F,
    step: Step<T>,
)
    requires
        call_ensures(
            ExecuteQuery::<T>::step::<W, F>,
            (call, instance_prefix, cache, statement, Event::Refused(refusal), now, upgrade),
            step,
        ),
        is_marked(refusal.message@),
        is_expiry_code(refusal.code),
        old(call).retry_count < 2,
        old(cache).active_lru@.len() <= 1000,
    ensures
        same_but_for_phase(*final(call), *old(call)),
        statement matches Some(s) ==> same_statement(*final(s), *s),
        final(cache).query_to_statement@ == old(cache).query_to_statement@,
        final(cache).token_to_statement@ == old(cache).token_to_statement@.remove(
            old(call).token_to_use@,
        ),
        match old(call).cached_stmt {
            Some(known) => {
                &&& final(cache).active_lru@ == old(cache).active_lru@
                &&& final(call).phase == Phase::Recovering(known)
                &&& step.action is Continue
                &&& step.evicted is None
            },
            None => {
                &&& brings(
                    old(cache).token_to_statement@,
                    old(call).token_to_use@,
                    upgrade,
                    old(cache).active_lru@,
                    now,
                    (Found {
                        statement: match final(call).phase {
                            Phase::Recovering(found) => Some(found),
                            _ => None,
                        },
                        evicted: step.evicted,
                    }),
                    final(cache).active_lru@,
                )
                &&& match final(call).phase {
                    Phase::Recovering(_) => step.action is Continue,
                    Phase::Ended => step.action == Action::<T>::Done(
                        Err(Error::RpcError(refusal.status)),
                    ),
                    _ => false,
                }
            },
        },
{
    expired_as_told(refusal);
    requests_with_one_view_are_the_same(final(call).request, old(call).request);
    if let Some(s) = statement {
        statements_with_one_view(*final(s), *s);
    }
    if old(call).cached_stmt is None {
        let tokens = old(cache).token_to_statement@;
        let token = old(call).token_to_use@;
        let lru = old(cache).active_lru@;
        let lru_after = final(cache).active_lru@;
        let found = Found {
            statement: match final(call).phase {
                Phase::Recovering(found) => Some(found),
                _ => None,
            },
            evicted: step.evicted,
        };
        assert(looked_up(
            held_under(tokens, token),
            upgrade,
            lru,
            now,
            found,
            lru_after,
        ));
        lookups_bring(tokens, token, upgrade, lru, now, found, lru_after);
    }
}

/// An accepted attempt ends the call well, and is a use of its statement.
pub proof fn accepted_attempts_end_the_call<W, T, F: Fn(&W) -> Option<Upgraded<T>>>(
    call: &mut ExecuteQuery<T>,
    instance_prefix: &str,
    cache: &mut ClientStatementCache<W, T>,
    statement: Option<&mut PreparedStatement>,
    now: u64,
    upgrade: F,
    step: Step<T>,
)
    requires
        call_ensures(
            ExecuteQuery::<T>::step::<W, F>,
            (call, instance_prefix, cache, statement, Event::Accepted, now, upgrade),
            step,
        ),
    ensures
        step.action == Action::<T>::Done(Ok(())),
        step.evicted is None,
        final(call).phase is Ended,
        same_but_for_phase(*final(call), *old(call)),
        same_cache(*final(cache), *old(cache)),
        statement matches Some(s) ==> is_used(*final(s), *s, now),
{
    requests_with_one_view_are_the_same(final(call).request, old(call).request);
    if let Some(s) = statement {
        statements_with_one_view(*final(s), *s);
    }
}

/// A compiled query is run by its token: the token takes the place of the text and the format,
/// all else that was asked for stays, and the statement that the cache has for the text is known.
pub proof fn compiled_queries_are_run_by_token<W, T, F: Fn(&W) -> Option<Upgraded<T>>>(
    call: &mut ExecuteQuery<T>,
    instance_prefix: &str,
    cache: &mut ClientStatementCache<W, T>,
    statement: Option<&mut PreparedStatement>,
    response: PrepareQueryResponse,
    now: u64,
    upgrade: F,
    step: Step<T>,
)
    requires
        call_ensures(
            ExecuteQuery::<T>::step::<W, F>,
            (call, instance_prefix, cache, statement, Event::Compiled(Ok(response)), now, upgrade),
            step,
        ),
        old(cache).active_lru@.len() <= 1000,
    ensures
        step.action is Continue,
        final(call).phase is Unbound,
        final(call).token_to_use@ == response.prepared_query@,
        final(call).retry_count == old(call).retry_count,
        final(call).request.prepared_query@ == response.prepared_query@,
        final(call).request.query@.len() == 0,
        final(call).request.data_format is None,
        final(call).request.instance_name@ == old(call).request.instance_name@,
        final(call).request.app_profile_id@ == old(call).request.app_profile_id@,
        final(call).request.resume_token@ == old(call).request.resume_token@,
        same_params(final(call).request.params@, old(call).request.params@),
        final(cache).query_to_statement@ == old(cache).query_to_statement@,
        final(cache).token_to_statement@ == old(cache).token_to_statement@,
        brings(
            old(cache).query_to_statement@,
            (old(call).request.query@, old(call).request.app_profile_id@),
            upgrade,
            old(cache).active_lru@,
            now,
            (Found { statement: final(call).cached_stmt, evicted: step.evicted }),
            final(cache).active_lru@,
        ),
        statement matches Some(s) ==> same_statement(*final(s), *s),
{
    params_with_one_view_are_the_same(final(call).request.params@, old(call).request.params@);
    if let Some(s) = statement {
        statements_with_one_view(*final(s), *s);
    }
    let queries = old(cache).query_to_statement@;
    let key = (old(call).request.query@, old(call).request.app_profile_id@);
    let lru = old(cache).active_lru@;
    let found = Found { statement: final(call).cached_stmt, evicted: step.evicted };
    let lru_after = final(cache).active_lru@;
    assert(looked_up(
        held_under(queries, key),
        upgrade,
        lru,
        now,
        found,
        lru_after,
    ));
    lookups_bring(queries, key, upgrade, lru, now, found, lru_after);
}

/// Where the query or the statement cannot be compiled, the call ends with just that error.
pub proof fn failed_compilations_end_the_call<W, T, F: Fn(&W) -> Option<Upgraded<T>>>(
    call: &mut ExecuteQuery<T>,
    instance_prefix: &str,
    cache: &mut ClientStatementCache<W, T>,
    statement: Option<&mut PreparedStatement>,
    event: Event,
    error: Error,
    now: u64,
    upgrade: F,
    step: Step<T>,
)
    requires
        event == Event::Compiled(Err(error)) || event == Event::Plan(Err(error)),
        call_ensures(
            ExecuteQuery::<T>::step::<W, F>,
            (call, instance_prefix, cache, statement, event, now, upgrade),
            step,
        ),
    ensures
        step.action == Action::<T>::Done(Err(error)),
        step.evicted is None,
        final(call).phase is Ended,
        same_but_for_phase(*final(call), *old(call)),
        same_cache(*final(cache), *old(cache)),
        statement matches Some(s) ==> same_statement(*final(s), *s),
{
    requests_with_one_view_are_the_same(final(call).request, old(call).request);
    if let Some(s) = statement {
        statements_with_one_view(*final(s), *s);
    }
}

/// A statement that was compiled anew gives the token of the next attempt, which is one more
/// repetition.
pub proof fn recompiled_statements_give_the_token<W, T, F: Fn(&W) -> Option<Upgraded<T>>>(
    call: &mut ExecuteQuery<T>,
    instance_prefix: &str,
    cache: &mut ClientStatementCache<W, T>,
    statement: Option<&mut PreparedStatement>,
    plan: Arc<CompiledPlanState>,
    now: u64,
    upgrade: F,
    step: Step<T>,
)
    requires
        old(call).retry_count < 2,
        call_ensures(
            ExecuteQuery::<T>::step::<W, F>,
            (call, instance_prefix, cache, statement, Event::Plan(Ok(plan)), now, upgrade),
            step,
        ),
    ensures
        step.action is Continue,
        step.evicted is None,
        final(call).phase is Ready,
        final(call).token_to_use@ == plan.plan_token@,
        final(call).retry_count == old(call).retry_count + 1,
        final(call).cached_stmt == old(call).cached_stmt,
        same_request(final(call).request, old(call).request),
        same_cache(*final(cache), *old(cache)),
        statement matches Some(s) ==> same_statement(*final(s), *s),
{
    requests_with_one_view_are_the_same(final(call).request, old(call).request);
    if let Some(s) = statement {
        statements_with_one_view(*final(s), *s);
    }
}

/// A call that has a token and no text looks for the statement behind the token; another goes on
/// as it is.
pub proof fn tokens_are_looked_up_before_use<W, T, F: Fn(&W) -> Option<Upgraded<T>>>(
    call: &mut ExecuteQuery<T>,
    instance_prefix: &str,
    cache: &mut ClientStatementCache<W, T>,
    statement: Option<&mut PreparedStatement>,
    now: u64,
    upgrade: F,
    step: Step<T>,
)
    requires
        old(call).phase is Unbound,
        call_ensures(
            ExecuteQuery::<T>::step::<W, F>,
            (call, instance_prefix, cache, statement, Event::Go, now, upgrade),
            step,
        ),
        old(cache).active_lru@.len() <= 1000,
    ensures
        step.action is Continue,
        same_request(final(call).request, old(call).request),
        final(call).token_to_use@ == old(call).token_to_use@,
        final(call).retry_count == old(call).retry_count,
        final(cache).query_to_statement@ == old(cache).query_to_statement@,
        final(cache).token_to_statement@ == old(cache).token_to_statement@,
        statement matches Some(s) ==> same_statement(*final(s), *s),
        if old(call).token_to_use@.len() > 0 && old(call).request.query@.len() == 0 {
            &&& final(call).phase is Bound || final(call).phase is Ready
            &&& final(call).phase is Ready ==> final(call).cached_stmt == old(call).cached_stmt
            &&& brings(
                old(cache).token_to_statement@,
                old(call).token_to_use@,
                upgrade,
                old(cache).active_lru@,
                now,
                (Found {
                    statement: if final(call).phase is Bound {
                        final(call).cached_stmt
                    } else {
                        None
                    },
                    evicted: step.evicted,
                }),
                final(cache).active_lru@,
            )
        } else {
            &&& final(call).phase is Ready
            &&& final(call).cached_stmt == old(call).cached_stmt
            &&& final(cache).active_lru@ == old(cache).active_lru@
            &&& step.evicted is None
        },
{
    requests_with_one_view_are_the_same(final(call).request, old(call).request);
    if let Some(s) = statement {
        statements_with_one_view(*final(s), *s);
    }
    if old(call).token_to_use@.len() > 0 && old(call).request.query@.len() == 0 {
        let tokens = old(cache).token_to_statement@;
        let token = old(call).token_to_use@;
        let lru = old(cache).active_lru@;
        let lru_after = final(cache).active_lru@;
        let found = Found {
            statement: if final(call).phase is Bound {
                final(call).cached_stmt
            } else {
                None
            },
            evicted: step.evicted,
        };
        assert(looked_up(
            held_under(tokens, token),
            upgrade,
            lru,
            now,
            found,
            lru_after,
        ));
        lookups_bring(tokens, token, upgrade, lru, now, found, lru_after);
    }
}

/// A call that is bound to a statement takes over the token of the plan that the statement holds,
/// and its own where the statement holds none; that is a use of the statement.
pub proof fn bound_calls_take_the_latest_token<W, T, F: Fn(&W) -> Option<Upgraded<T>>>(
    call: &mut ExecuteQuery<T>,
    instance_prefix: &str,
    cache: &mut ClientStatementCache<W, T>,
    statement: &mut PreparedStatement,
    now: u64,
    upgrade: F,
    held: Option<Arc<CompiledPlanState>>,
    step: Step<T>,
)
    requires
        old(call).phase is Bound,
        call_ensures(PlanCell::load_full, (&old(statement).inner.plan_state,), held),
        call_ensures(
            ExecuteQuery::<T>::step::<W, F>,
            (call, instance_prefix, cache, Some(statement), Event::Go, now, upgrade),
            step,
        ),
    ensures
        step.action is Continue,
        step.evicted is None,
        final(call).phase is Ready,
        final(call).retry_count == old(call).retry_count,
        final(call).cached_stmt == old(call).cached_stmt,
        same_but_for_token(final(call).request, old(call).request),
        match held {
            Some(latest) => {
                &&& final(call).token_to_use@ == latest.plan_token@
                &&& final(call).request.prepared_query@ == latest.plan_token@ || latest.plan_token@
                    == old(call).token_to_use@ && final(call).request.prepared_query@ == old(
                    call,
                ).request.prepared_query@
            },
            None => {
                &&& final(call).token_to_use@ == old(call).token_to_use@
                &&& final(call).request.prepared_query@ == old(call).request.prepared_query@
            },
        },
        same_cache(*final(cache), *old(cache)),
        is_used(*final(statement), *old(statement), now),
{
    params_with_one_view_are_the_same(final(call).request.params@, old(call).request.params@);
    statements_with_one_view(*final(statement), *old(statement));
}

/// A statement that is to recover a call gives the token of the plan it holds, unless that is the
/// expired one: that one is dropped. Where no plan is left, that very statement is to be compiled.
pub proof fn recovering_calls_use_newer_plans<W, T, F: Fn(&W) -> Option<Upgraded<T>>>(
    call: &mut ExecuteQuery<T>,
    instance_prefix: &str,
    cache: &mut ClientStatementCache<W, T>,
    statement: &mut PreparedStatement,
    handle: Arc<T>,
    now: u64,
    upgrade: F,
    held: Option<Arc<CompiledPlanState>>,
    step: Step<T>,
)
    requires
        old(call).phase == Phase::Recovering(handle),
        old(call).retry_count < 2,
        call_ensures(PlanCell::load_full, (&old(statement).inner.plan_state,), held),
        call_ensures(
            ExecuteQuery::<T>::step::<W, F>,
            (call, instance_prefix, cache, Some(statement), Event::Go, now, upgrade),
            step,
        ),
    ensures
        step.evicted is None,
        same_request(final(call).request, old(call).request),
        final(call).cached_stmt == old(call).cached_stmt,
        same_cache(*final(cache), *old(cache)),
        same_but_for_use_and_plan(*final(statement), *old(statement)),
        final(statement).inner.last_executed_seconds == old(statement).inner.last_executed_seconds,
        match held {
            Some(newer) if newer.plan_token@ != old(call).token_to_use@ => {
                &&& step.action is Continue
                &&& final(call).phase is Ready
                &&& final(call).token_to_use@ == newer.plan_token@
                &&& final(call).retry_count == old(call).retry_count + 1
                &&& gives_same(final(statement).inner.plan_state, held)
            },
            _ => {
                &&& step.action == Action::<T>::GetOrPrepare(handle)
                &&& final(call).phase is Recompiling
                &&& final(call).token_to_use@ == old(call).token_to_use@
                &&& final(call).retry_count == old(call).retry_count
                &&& gives_none(final(statement).inner.plan_state)
            },
        },
{
    requests_with_one_view_are_the_same(final(call).request, old(call).request);
    statements_with_one_view(*final(statement), *old(statement));
}

/// An attempt asks for what the call asks for, with the call's token where there is one, under the
/// routing header of the instance and the profile. It is a use of the statement. Where the header
/// cannot be written, the call ends.
pub proof fn attempts_ask_for_what_was_asked<W, T, F: Fn(&W) -> Option<Upgraded<T>>>(
    call: &mut ExecuteQuery<T>,
    instance_prefix: &str,
    cache: &mut ClientStatementCache<W, T>,
    statement: Option<&mut PreparedStatement>,
    now: u64,
    upgrade: F,
    step: Step<T>,
)
    requires
        old(call).phase is Ready,
        call_ensures(
            ExecuteQuery::<T>::step::<W, F>,
            (call, instance_prefix, cache, statement, Event::Go, now, upgrade),
            step,
        ),
    ensures
        step.evicted is None,
        same_but_for_phase(*final(call), *old(call)),
        same_cache(*final(cache), *old(cache)),
        statement matches Some(s) ==> is_used(*final(s), *s, now),
        if breaks_the_header(instance_prefix@, old(call).request.app_profile_id@) {
            &&& step.action matches Action::Done(Err(e)) && e is MetadataError
            &&& final(call).phase is Ended
        } else {
            &&& final(call).phase is Sent
            &&& step.action matches Action::Send(outgoing) && {
                &&& same_but_for_token(outgoing.request, old(call).request)
                &&& outgoing.request.prepared_query@ == if old(call).token_to_use@.len() > 0 {
                    old(call).token_to_use@
                } else {
                    old(call).request.prepared_query@
                }
                &&& outgoing.request_params matches Some(value) && is_routing_header(
                    value@,
                    instance_prefix@,
                    old(call).request.app_profile_id@,
                )
            }
        },
{
    headers_carry_all_but_control_characters_in(
        instance_prefix@,
        old(call).request.app_profile_id@,
    );
    requests_with_one_view_are_the_same(final(call).request, old(call).request);
    if let Some(s) = statement {
        statements_with_one_view(*final(s), *s);
    }
    if let Action::Send(outgoing) = step.action {
        params_with_one_view_are_the_same(outgoing.request.params@, old(call).request.params@);
    }
}

/// A statement is run by its plan's token, on the instance and under its profile, with the
/// parameters as they are given and no text.
pub proof fn statements_are_run_by_their_token(
    statement: PreparedStatement,
    instance_prefix: &str,
    plan: CompiledPlanState,
    params: Vec<(String, Value)>,
    request: ExecuteQueryRequest,
)
    requires
        call_ensures(
            PreparedStatement::execute,
            (&statement, instance_prefix, &plan, params),
            request,
        ),
    ensures
        request.instance_name@ == instance_prefix@,
        request.app_profile_id@ == statement.inner.app_profile_id@,
        request.query@.len() == 0,
        request.prepared_query@ == plan.plan_token@,
        request.resume_token@.len() == 0,
        request.params@ == params@,
        request.data_format is None,
{
}

/// A statement is run again just where the refusal says that its plan has expired and it was
/// repeated less than twice: the plan's token leaves the cache, the statement drops the plan if it
/// still holds it, and one more repetition is counted. Any other refusal is the caller's, and
/// changes nothing.
pub proof fn statements_are_run_again_where_the_plan_expired<W, T>(
    statement: &mut PreparedStatement,
    cache: &mut ClientStatementCache<W, T>,
    plan: CompiledPlanState,
    refusal: Refusal,
    retry_count: u32,
    held: Option<Arc<CompiledPlanState>>,
    next: Result<u32, Error>,
)
    requires
        call_ensures(PlanCell::load_full, (&old(statement).inner.plan_state,), held),
        call_ensures(
            PreparedStatement::execute_with_retry::<W, T>,
            (statement, cache, &plan, refusal, retry_count),
            next,
        ),
    ensures
        same_but_for_use_and_plan(*final(statement), *old(statement)),
        final(statement).inner.last_executed_seconds == old(statement).inner.last_executed_seconds,
        final(cache).query_to_statement@ == old(cache).query_to_statement@,
        final(cache).active_lru@ == old(cache).active_lru@,
        if is_expiry_code(refusal.code) && is_marked(refusal.message@) && retry_count < 2 {
            &&& next matches Ok(count) && count == retry_count + 1
            &&& final(cache).token_to_statement@ == old(cache).token_to_statement@.remove(
                plan.plan_token@,
            )
            &&& match held {
                Some(p) if p.plan_token@ == plan.plan_token@ => gives_none(
                    final(statement).inner.plan_state,
                ),
                _ => gives_same(final(statement).inner.plan_state, held),
            }
        } else {
            &&& next == Err::<u32, Error>(Error::RpcError(refusal.status))
            &&& final(cache).token_to_statement@ == old(cache).token_to_statement@
            &&& gives_same(final(statement).inner.plan_state, held)
        },
{
    expired_as_told(refusal);
    statements_with_one_view(*final(statement), *old(statement));
}

} // verus!
