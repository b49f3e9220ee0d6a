//! What statements do with their plans, told from the calls themselves.

use crate::cache::ClientStatementCache;
use crate::error::{Error, Refusal};
use crate::laws::client::headers_carry_all_but_control_characters_in;
use crate::laws::types::{asking_compiles, compiles, denoting_is_same_kind, same_kind};
use crate::messages::{PrepareQueryRequest, PrepareQueryResponse, Timestamp};
use crate::plan::{CompiledPlanState, PlanCell};
use crate::prepare::{Outgoing, PrepareStep, Prepared};
use crate::refresh::{RefreshTask, Rotated, WakeUp};
use crate::sql::SqlType;
use crate::statement::{typed_names, PreparedStatement, PreparedStatementInner};
use std::sync::Arc;
use vstd::prelude::*;
use vstd::utf8::encode_utf8;

verus! {

/// Whatever is loaded from the cell is a plan with this token and expiry.
pub open spec fn gives(cell: PlanCell, token: Seq<u8>, expires_at: int) -> bool {
    forall|plan: Option<Arc<CompiledPlanState>>| #[trigger]
        call_ensures(PlanCell::load_full, (&cell,), plan) ==> (plan matches Some(p)
            && p.plan_token@ == token && p.expires_at == expires_at)
}

/// Nothing is loaded from the cell.
pub open spec fn gives_none(cell: PlanCell) -> bool {
    forall|plan: Option<Arc<CompiledPlanState>>| #[trigger]
        call_ensures(PlanCell::load_full, (&cell,), plan) ==> plan is None
}

/// What was loaded from one cell is what is loaded from the other.
pub open spec fn gives_same(cell: PlanCell, held: Option<Arc<CompiledPlanState>>) -> bool {
    match held {
        Some(p) => gives(cell, p.plan_token@, p.expires_at as int),
        None => gives_none(cell),
    }
}

/// The same statement but for its plan and its last use.
pub open spec fn same_but_for_use_and_plan(a: PreparedStatement, b: PreparedStatement) -> bool {
    &&& a.inner.query@ == b.inner.query@
    &&& a.inner.app_profile_id@ == b.inner.app_profile_id@
    &&& a.inner.base_instant == b.inner.base_instant
    &&& a.inner.param_types@.len() == b.inner.param_types@.len()
    &&& forall|i: int|
        0 <= i < a.inner.param_types@.len() ==> (#[trigger] a.inner.param_types@[i]).0@
            == b.inner.param_types@[i].0@ && a.inner.param_types@[i].1@
            == b.inner.param_types@[i].1@
}

/// The statement was last used at `now`, in whole seconds from its base; where `now` lies before
/// the base, its last use is what it was.
pub open spec fn used_at(a: PreparedStatementInner, b: PreparedStatementInner, now: u64) -> bool {
    if now >= b.base_instant {
        a.last_executed_seconds * 1_000_000_000 <= now - b.base_instant < (a.last_executed_seconds
            + 1) * 1_000_000_000
    } else {
        a.last_executed_seconds == b.last_executed_seconds
    }
}

/// Statements with one view differ in nothing.
pub proof fn statements_with_one_view(a: PreparedStatement, b: PreparedStatement)
    requires
        a@.query == b@.query,
        a@.app_profile_id == b@.app_profile_id,
        a@.base_instant == b@.base_instant,
        a@.param_types == b@.param_types,
    ensures
        same_but_for_use_and_plan(a, b),
{
    let ta = a@.param_types;
    let tb = b@.param_types;
    assert(ta.len() == a.inner.param_types@.len() && tb.len() == b.inner.param_types@.len());
    assert forall|i: int| 0 <= i < ta.len() implies (#[trigger] a.inner.param_types@[i]).0@
        == b.inner.param_types@[i].0@ && a.inner.param_types@[i].1@
        == b.inner.param_types@[i].1@ by {
        assert(ta[i] == tb[i]);
    }
}

/// A new cell gives nothing.
pub proof fn new_cells_are_empty(cell: PlanCell)
    requires
        call_ensures(PlanCell::empty, (), cell),
    ensures
        gives_none(cell),
{
}

/// A cell gives what was stored in it last.
pub proof fn cells_give_what_was_stored(cell: &mut PlanCell, plan: Option<Arc<CompiledPlanState>>)
    requires
        call_ensures(PlanCell::store, (cell, plan), ()),
    ensures
        gives_same(*final(cell), plan),
{
}

/// A cell gives what was swapped into it, and hands out what it gave before.
pub proof fn swaps_hand_out_what_was_there(
    cell: &mut PlanCell,
    plan: Option<Arc<CompiledPlanState>>,
    swapped: Option<Arc<CompiledPlanState>>,
)
    requires
        call_ensures(PlanCell::swap, (cell, plan), swapped),
    ensures
        gives_same(*final(cell), plan),
        gives_same(*old(cell), swapped),
{
}

/// Evicting the plan behind a token empties a cell that holds a plan with that token, and leaves
/// any other cell as it is.
pub proof fn evictions_go_by_the_token(
    cell: &mut PlanCell,
    token: Vec<u8>,
    held: Option<Arc<CompiledPlanState>>,
)
    requires
        call_ensures(PlanCell::load_full, (&*old(cell),), held),
        call_ensures(PlanCell::evict, (cell, &token), ()),
    ensures
        match held {
            Some(p) if p.plan_token@ == token@ => gives_none(*final(cell)),
            _ => gives_same(*final(cell), held),
        },
{
}

/// The same of a statement's plan; nothing else of the statement changes.
pub proof fn statements_drop_only_the_expired_plan(
    statement: &mut PreparedStatement,
    token: Vec<u8>,
    held: Option<Arc<CompiledPlanState>>,
)
    requires
        call_ensures(PlanCell::load_full, (&old(statement).inner.plan_state,), held),
        call_ensures(PreparedStatement::evict, (statement, &token), ()),
    ensures
        match held {
            Some(p) if p.plan_token@ == token@ => gives_none(final(statement).inner.plan_state),
            _ => gives_same(final(statement).inner.plan_state, held),
        },
        same_but_for_use_and_plan(*final(statement), *old(statement)),
        final(statement).inner.last_executed_seconds == old(statement).inner.last_executed_seconds,
{
    statements_with_one_view(*final(statement), *old(statement));
}

/// A plan is fresh up to its expiry and not from then on.
pub proof fn plans_are_fresh_until_they_expire(plan: CompiledPlanState, now: u64, fresh: bool)
    requires
        call_ensures(CompiledPlanState::is_fresh, (&plan, now), fresh),
    ensures
        fresh <==> now < plan.expires_at,
{
}

/// A new statement has its text, profile and declared parameters, no plan, and was not used yet.
pub proof fn new_statements_are_as_declared(
    query: String,
    app_profile_id: String,
    param_types: Vec<(String, SqlType)>,
    now: u64,
    statement: PreparedStatement,
    plain: PreparedStatement,
)
    requires
        call_ensures(
            PreparedStatement::with_parameter_types,
            (query, app_profile_id, param_types, now),
            statement,
        ),
        call_ensures(PreparedStatement::new, (query, app_profile_id, now), plain),
    ensures
        statement.inner.query@ == query@ && plain.inner.query@ == query@,
        statement.inner.app_profile_id@ == app_profile_id@,
        plain.inner.app_profile_id@ == app_profile_id@,
        gives_none(statement.inner.plan_state) && gives_none(plain.inner.plan_state),
        statement.inner.base_instant == now && plain.inner.base_instant == now,
        statement.inner.last_executed_seconds == 0 && plain.inner.last_executed_seconds == 0,
        plain.inner.param_types@.len() == 0,
        statement.inner.param_types@.len() == param_types@.len(),
        forall|i: int|
            0 <= i < param_types@.len() ==> (#[trigger] statement.inner.param_types@[i]).0@
                == param_types@[i].0@ && statement.inner.param_types@[i].1@ == param_types@[i].1@,
{
    let held = statement@.param_types;
    assert(held.len() == statement.inner.param_types@.len());
    assert(typed_names(param_types@).len() == param_types@.len());
    assert(plain@.param_types.len() == plain.inner.param_types@.len());
    assert forall|i: int| 0 <= i < param_types@.len() implies (
    #[trigger] statement.inner.param_types@[i]).0@ == param_types@[i].0@
        && statement.inner.param_types@[i].1@ == param_types@[i].1@ by {
        assert(held[i] == typed_names(param_types@)[i]);
    }
}

/// A statement and its inner state are one another's, and the plan is the inner state's.
pub proof fn statements_are_their_inner_state(
    inner: PreparedStatementInner,
    statement: PreparedStatement,
    back: PreparedStatementInner,
    cell: &PlanCell,
)
    requires
        call_ensures(PreparedStatement::from_inner, (inner,), statement),
        call_ensures(PreparedStatement::into_inner, (statement,), back),
        call_ensures(PreparedStatement::plan_state, (&statement,), cell),
    ensures
        back == inner,
        *cell == inner.plan_state,
{
}

/// A statement with declared parameters is compiled under just these: each goes out under its name
/// and as the schema type of its SQL type's name.
pub proof fn declared_parameters_reach_the_server(
    query: String,
    app_profile_id: String,
    param_types: Vec<(String, SqlType)>,
    now: u64,
    statement: PreparedStatement,
    instance_prefix: &str,
    request: PrepareQueryRequest,
)
    requires
        call_ensures(
            PreparedStatement::with_parameter_types,
            (query, app_profile_id, param_types, now),
            statement,
        ),
        call_ensures(PreparedStatement::prepare_request, (&statement, instance_prefix), request),
    ensures
        request.instance_name@ == instance_prefix@,
        request.query@ == query@,
        request.app_profile_id@ == app_profile_id@,
        request.param_types@.len() == param_types@.len(),
        forall|i: int|
            0 <= i < param_types@.len() ==> (#[trigger] request.param_types@[i]).0@
                == param_types@[i].0@ && same_kind(param_types@[i].1, request.param_types@[i].1),
{
    let held = statement@.param_types;
    assert(held.len() == param_types@.len());
    assert forall|i: int| 0 <= i < param_types@.len() implies (
    #[trigger] request.param_types@[i]).0@ == param_types@[i].0@ && same_kind(
        param_types@[i].1,
        request.param_types@[i].1,
    ) by {
        assert(held[i] == typed_names(param_types@)[i]);
        assert(held[i] == (param_types@[i].0@, param_types@[i].1@));
        denoting_is_same_kind(param_types@[i].1, request.param_types@[i].1);
    }
}

/// Marking a statement as used records the time and nothing else.
pub proof fn marks_record_the_last_use(statement: &mut PreparedStatement, now: u64)
    requires
        call_ensures(PreparedStatement::mark_used, (statement, now), ()),
    ensures
        used_at(final(statement).inner, old(statement).inner, now),
        same_but_for_use_and_plan(*final(statement), *old(statement)),
        final(statement).inner.plan_state@ == old(statement).inner.plan_state@,
{
    statements_with_one_view(*final(statement), *old(statement));
}

/// A statement gives its plan while the plan has not expired, and none otherwise.
pub proof fn statements_give_fresh_plans(
    statement: PreparedStatement,
    now: u64,
    held: Option<Arc<CompiledPlanState>>,
    plan: Option<Arc<CompiledPlanState>>,
)
    requires
        call_ensures(PlanCell::load_full, (&statement.inner.plan_state,), held),
        call_ensures(PreparedStatement::fresh_plan, (&statement, now), plan),
    ensures
        plan is Some <==> held is Some && now < held->0.expires_at,
        plan matches Some(p) ==> p.plan_token@ == held->0.plan_token@ && p.expires_at
            == held->0.expires_at,
{
}

/// Asking a statement for its plan is a use of it, and gives the plan just while that is fresh.
pub proof fn asking_for_a_plan_is_a_use(
    statement: &mut PreparedStatement,
    now: u64,
    held: Option<Arc<CompiledPlanState>>,
    plan: Option<Arc<CompiledPlanState>>,
)
    requires
        call_ensures(PlanCell::load_full, (&old(statement).inner.plan_state,), held),
        call_ensures(PreparedStatement::get_or_prepare, (statement, now), plan),
    ensures
        plan is Some <==> held is Some && now < held->0.expires_at,
        plan matches Some(p) ==> p.plan_token@ == held->0.plan_token@ && p.expires_at
            == held->0.expires_at,
        used_at(final(statement).inner, old(statement).inner, now),
        same_but_for_use_and_plan(*final(statement), *old(statement)),
        gives_same(final(statement).inner.plan_state, held),
{
    statements_with_one_view(*final(statement), *old(statement));
}

/// The value of the routing header for an instance and a profile.
pub open spec fn is_routing_header(
    value: Seq<u8>,
    instance_prefix: Seq<char>,
    app_profile_id: Seq<char>,
) -> bool {
    value == encode_utf8("name="@ + instance_prefix + "&app_profile_id="@ + app_profile_id)
}

/// Some byte of the routing header is one that no header carries: a control character other than
/// the tab.
pub open spec fn breaks_the_header(
    instance_prefix: Seq<char>,
    app_profile_id: Seq<char>,
) -> bool {
    let bytes = encode_utf8("name="@ + instance_prefix + "&app_profile_id="@ + app_profile_id);
    exists|i: int|
        0 <= i < bytes.len() && #[trigger] bytes[i] != 9 && (bytes[i] < 32 || bytes[i] == 127)
}

/// Under the statement's lock a fresh plan is given and nothing is sent. Otherwise the statement
/// is entered in the query index under its text and profile, and the request goes out that
/// compiles it, or the header cannot be written.
pub proof fn one_compilation_at_a_time<W, T>(
    statement: PreparedStatement,
    cache: &mut ClientStatementCache<W, T>,
    weak: W,
    instance_prefix: &str,
    now: u64,
    held: Option<Arc<CompiledPlanState>>,
    step: Result<PrepareStep, Error>,
)
    requires
        call_ensures(PlanCell::load_full, (&statement.inner.plan_state,), held),
        call_ensures(
            PreparedStatement::begin_prepare::<W, T>,
            (&statement, cache, weak, instance_prefix, now),
            step,
        ),
    ensures
        final(cache).token_to_statement@ == old(cache).token_to_statement@,
        final(cache).active_lru@ == old(cache).active_lru@,
        match held {
            Some(plan) if now < plan.expires_at => {
                &&& step matches Ok(PrepareStep::Ready(p)) && p.plan_token@ == plan.plan_token@
                    && p.expires_at == plan.expires_at
                &&& final(cache).query_to_statement@ == old(cache).query_to_statement@
            },
            _ => {
                let profile = statement.inner.app_profile_id@;
                &&& final(cache).query_to_statement@ == old(cache).query_to_statement@.insert(
                    (statement.inner.query@, profile),
                    weak,
                )
                &&& if breaks_the_header(instance_prefix@, profile) {
                    step matches Err(e) && e is MetadataError
                } else {
                    step matches Ok(PrepareStep::Send(outgoing)) && compiles(
                        outgoing.request,
                        statement,
                        instance_prefix@,
                    ) && (outgoing.request_params matches Some(value) && is_routing_header(
                        value@,
                        instance_prefix@,
                        profile,
                    ))
                }
            },
        },
{
    headers_carry_all_but_control_characters_in(
        instance_prefix@,
        statement.inner.app_profile_id@,
    );
    if let Ok(PrepareStep::Send(outgoing)) = step {
        asking_compiles(outgoing.request, statement, instance_prefix@);
    }
}

/// How long a plan lives that the server has just compiled, in nanoseconds.
pub open spec fn lives_for(
    ttl: int,
    valid_until: Option<Timestamp>,
    otherwise: int,
    unix_now: u64,
) -> bool {
    let told = match valid_until {
        Some(at) => at.seconds * 1_000_000_000 + at.nanos - unix_now,
        None => otherwise,
    };
    ttl == if told < 10_000_000_000 {
        10_000_000_000
    } else {
        told
    }
}

/// A compiled statement holds the plan that the server sent, until the server's deadline or for an
/// hour, and its token leads to it; it counts as used, and its renewal is scheduled. A refusal is
/// the caller's error and changes nothing.
pub proof fn replies_become_plans<W, T>(
    statement: &mut PreparedStatement,
    cache: &mut ClientStatementCache<W, T>,
    weak: W,
    reply: Result<PrepareQueryResponse, Refusal>,
    now: u64,
    unix_now: u64,
    prepared: Result<Prepared, Error>,
)
    requires
        call_ensures(
            PreparedStatement::prepare_query_rpc::<W, T>,
            (statement, cache, weak, reply, now, unix_now),
            prepared,
        ),
    ensures
        final(cache).query_to_statement@ == old(cache).query_to_statement@,
        final(cache).active_lru@ == old(cache).active_lru@,
        same_but_for_use_and_plan(*final(statement), *old(statement)),
        match reply {
            Ok(response) => {
                &&& prepared matches Ok(p) && {
                    &&& lives_for(
                        p.refresh.ttl as int,
                        response.valid_until,
                        3_600_000_000_000,
                        unix_now,
                    )
                    &&& p.plan.plan_token@ == response.prepared_query@
                    &&& p.plan.expires_at == now + p.refresh.ttl
                    &&& p.refresh.expires_at == p.plan.expires_at
                    &&& gives(
                        final(statement).inner.plan_state,
                        response.prepared_query@,
                        now + p.refresh.ttl,
                    )
                }
                &&& used_at(final(statement).inner, old(statement).inner, now)
                &&& final(cache).token_to_statement@ == old(cache).token_to_statement@.insert(
                    response.prepared_query@,
                    weak,
                )
            },
            Err(refusal) => {
                &&& prepared matches Err(e) && e == Error::RpcError(refusal.status)
                &&& final(statement).inner.plan_state@ == old(statement).inner.plan_state@
                &&& final(statement).inner.last_executed_seconds
                    == old(statement).inner.last_executed_seconds
                &&& final(cache).token_to_statement@ == old(cache).token_to_statement@
            },
        },
{
    statements_with_one_view(*final(statement), *old(statement));
}

/// `offset` is a minute for lifetimes of more than five, and a fifth of others, rounded down.
pub open spec fn is_renewal_offset(offset: int, ttl: u128) -> bool {
    if ttl > 300_000_000_000 {
        offset == 60_000_000_000
    } else {
        5 * offset <= ttl < 5 * offset + 5
    }
}

/// A renewal is due its offset before the plan expires.
pub proof fn renewals_are_due_before_expiry(task: RefreshTask, at: u128)
    requires
        call_ensures(RefreshTask::refresh_instant, (&task,), at),
    ensures
        at < task.expires_at,
        is_renewal_offset(task.expires_at - at, task.ttl),
{
}

/// A renewal that is scheduled keeps the lifetime and the expiry it was scheduled with.
pub proof fn renewals_keep_their_lifetime(ttl: u128, expires_at: u128, task: RefreshTask)
    requires
        call_ensures(PreparedStatement::schedule_proactive_refresh, (ttl, expires_at), task),
    ensures
        task.ttl == ttl,
        task.expires_at == expires_at,
{
}

/// A renewal that wakes up goes on where the statement is still there and was used since the plan
/// was compiled, in whole seconds, and stops otherwise.
pub proof fn renewals_go_on_while_the_statement_is_used(
    task: RefreshTask,
    statement: Option<&PreparedStatement>,
    now: u64,
    offset: int,
    found: WakeUp,
)
    requires
        is_renewal_offset(offset, task.ttl),
        call_ensures(RefreshTask::wake, (&task, statement, now), found),
    ensures
        statement is None <==> found is Dropped,
        statement matches Some(s) ==> {
            let elapsed = if now >= s.inner.base_instant {
                (now - s.inner.base_instant) / 1_000_000_000
            } else {
                0
            };
            found is Idle <==> elapsed - s.inner.last_executed_seconds > (task.ttl - offset)
                / 1_000_000_000
        },
{
}

/// A renewal asks for a plan unless the statement has one that outlives the moment by more than
/// the offset; the request compiles the statement, and its header is left out only where it cannot
/// be written.
pub proof fn renewals_ask_unless_done(
    task: RefreshTask,
    statement: PreparedStatement,
    instance_prefix: &str,
    now: u64,
    offset: int,
    held: Option<Arc<CompiledPlanState>>,
    outgoing: Option<Outgoing<PrepareQueryRequest>>,
)
    requires
        is_renewal_offset(offset, task.ttl),
        call_ensures(PlanCell::load_full, (&statement.inner.plan_state,), held),
        call_ensures(RefreshTask::begin, (&task, &statement, instance_prefix, now), outgoing),
    ensures
        outgoing is None <==> held is Some && held->0.expires_at > now + offset,
        outgoing matches Some(o) ==> {
            &&& compiles(o.request, statement, instance_prefix@)
            &&& match o.request_params {
                Some(value) => is_routing_header(
                    value@,
                    instance_prefix@,
                    statement.inner.app_profile_id@,
                ),
                None => breaks_the_header(instance_prefix@, statement.inner.app_profile_id@),
            }
        },
{
    headers_carry_all_but_control_characters_in(
        instance_prefix@,
        statement.inner.app_profile_id@,
    );
    if let Some(o) = outgoing {
        asking_compiles(o.request, statement, instance_prefix@);
    }
}

/// From when it is due on, a renewal whose statement still has the plan that it was scheduled for
/// always asks for a new one: no plan is left to expire for having been taken for renewed.
pub proof fn due_renewals_go_ahead(
    task: RefreshTask,
    statement: PreparedStatement,
    instance_prefix: &str,
    due: u128,
    now: u64,
    held: Option<Arc<CompiledPlanState>>,
    outgoing: Option<Outgoing<PrepareQueryRequest>>,
)
    requires
        call_ensures(RefreshTask::refresh_instant, (&task,), due),
        now >= due,
        call_ensures(PlanCell::load_full, (&statement.inner.plan_state,), held),
        held is None || held->0.expires_at <= task.expires_at,
        call_ensures(RefreshTask::begin, (&task, &statement, instance_prefix, now), outgoing),
    ensures
        outgoing is Some,
{
    renewals_are_due_before_expiry(task, due);
    renewals_ask_unless_done(
        task,
        statement,
        instance_prefix,
        now,
        task.expires_at - due,
        held,
        outgoing,
    );
}

/// A renewed plan is the one that the server sent, until its deadline or for as long as the plan
/// before; its token leads to the statement, whose last use is what it was. A replaced token is
/// handed out to be retired later. A refusal changes nothing and ends the renewals.
pub proof fn renewals_rotate_the_plan<W, T>(
    task: RefreshTask,
    statement: &mut PreparedStatement,
    cache: &mut ClientStatementCache<W, T>,
    weak: W,
    reply: Result<PrepareQueryResponse, Refusal>,
    now: u64,
    unix_now: u64,
    held: Option<Arc<CompiledPlanState>>,
    rotated: Option<Rotated>,
)
    requires
        call_ensures(PlanCell::load_full, (&old(statement).inner.plan_state,), held),
        call_ensures(
            RefreshTask::finish::<W, T>,
            (&task, statement, cache, weak, reply, now, unix_now),
            rotated,
        ),
    ensures
        final(cache).query_to_statement@ == old(cache).query_to_statement@,
        final(cache).active_lru@ == old(cache).active_lru@,
        same_but_for_use_and_plan(*final(statement), *old(statement)),
        final(statement).inner.last_executed_seconds == old(statement).inner.last_executed_seconds,
        match reply {
            Ok(response) => {
                &&& rotated matches Some(r) && {
                    &&& lives_for(
                        r.next.ttl as int,
                        response.valid_until,
                        task.ttl as int,
                        unix_now,
                    )
                    &&& r.next.expires_at == now + r.next.ttl
                    &&& gives(
                        final(statement).inner.plan_state,
                        response.prepared_query@,
                        now + r.next.ttl,
                    )
                    &&& match held {
                        Some(before) if before.plan_token@ != response.prepared_query@ => r.retire
                            matches Some(token) && token@ == before.plan_token@,
                        _ => r.retire is None,
                    }
                }
                &&& final(cache).token_to_statement@ == old(cache).token_to_statement@.insert(
                    response.prepared_query@,
                    weak,
                )
            },
            Err(_) => {
                &&& rotated is None
                &&& gives_same(final(statement).inner.plan_state, held)
                &&& final(cache).token_to_statement@ == old(cache).token_to_statement@
            },
        },
{
    statements_with_one_view(*final(statement), *old(statement));
}

} // verus!
