//! Which calls may be made: all that the library asks of its callers.

use crate::cache::{ClientStatementCache, Created, Upgraded};
use crate::client::{is_made_for, valid_uri, BigTable, BigTableConnection};
use crate::error::{Error, Refusal};
use crate::execute::{Event, ExecuteQuery, Phase};
use crate::messages::{ExecuteQueryRequest, PrepareQueryRequest, PrepareQueryResponse};
use crate::plan::CompiledPlanState;
use crate::prepare::Prepared;
use crate::refresh::{RefreshTask, Rotated};
use crate::sql::SqlType;
use crate::statement::PreparedStatement;
use vstd::prelude::*;

verus! {

/// No name stands twice in the list.
pub open spec fn names_differ<V>(named: Seq<(String, V)>) -> bool {
    forall|i: int, j: int|
        0 <= i < j < named.len() ==> (#[trigger] named[i]).0@ != (#[trigger] named[j]).0@
}

/// A query may be run, whatever it asks for, unless a parameter is given twice.
pub proof fn any_query_may_be_run<T>(client: BigTable, request: ExecuteQueryRequest)
    requires
        names_differ(request.params@),
    ensures
        call_requires(BigTable::execute_query::<T>, (&client, request)),
{
}

/// A statement may be made for any query and compiled and renewed at any time, unless a parameter
/// is declared twice.
pub proof fn any_statement_may_be_compiled<W, T>(
    request: PrepareQueryRequest,
    query: String,
    app_profile_id: String,
    param_types: Vec<(String, SqlType)>,
    now: u64,
    statement: PreparedStatement,
    instance_prefix: &str,
    task: RefreshTask,
    cache: &mut ClientStatementCache<W, T>,
    weak: W,
)
    requires
        names_differ(request.param_types@),
        names_differ(param_types@),
        names_differ(statement.inner.param_types@),
        old(cache).wf(),
    ensures
        call_requires(BigTable::statement_for, (&request, now)),
        call_requires(
            PreparedStatement::with_parameter_types,
            (query, app_profile_id, param_types, now),
        ),
        call_requires(PreparedStatement::prepare_request, (&statement, instance_prefix)),
        call_requires(RefreshTask::begin, (&task, &statement, instance_prefix, now)),
        call_requires(
            PreparedStatement::begin_prepare::<W, T>,
            (&statement, cache, weak, instance_prefix, now),
        ),
{
}

/// Any reply to a compilation may be taken in, and the renewal that follows from it may go on to
/// its next wake-up, whatever lifetimes the server hands out.
pub proof fn any_reply_may_be_taken_in<W, T>(
    statement: &mut PreparedStatement,
    cache: &mut ClientStatementCache<W, T>,
    weak: W,
    reply: Result<PrepareQueryResponse, Refusal>,
    now: u64,
    unix_now: u64,
    prepared: Result<Prepared, Error>,
)
    requires
        old(cache).wf(),
        call_ensures(
            PreparedStatement::prepare_query_rpc::<W, T>,
            (statement, cache, weak, reply, now, unix_now),
            prepared,
        ),
    ensures
        call_requires(
            PreparedStatement::prepare_query_rpc::<W, T>,
            (statement, cache, weak, reply, now, unix_now),
        ),
        prepared matches Ok(p) ==> call_requires(RefreshTask::refresh_instant, (&p.refresh,)),
{
}

/// The same of the reply to a renewal.
pub proof fn any_renewal_may_go_on<W, T>(
    task: RefreshTask,
    statement: &mut PreparedStatement,
    cache: &mut ClientStatementCache<W, T>,
    weak: W,
    reply: Result<PrepareQueryResponse, Refusal>,
    now: u64,
    unix_now: u64,
    rotated: Option<Rotated>,
)
    requires
        10_000_000_000 <= task.ttl <= 10_000_000_000_000_000_000_000_000_000,
        task.ttl <= task.expires_at,
        old(cache).wf(),
        call_ensures(
            RefreshTask::finish::<W, T>,
            (&task, statement, cache, weak, reply, now, unix_now),
            rotated,
        ),
    ensures
        call_requires(RefreshTask::refresh_instant, (&task,)),
        call_requires(
            RefreshTask::finish::<W, T>,
            (&task, statement, cache, weak, reply, now, unix_now),
        ),
        rotated matches Some(r) ==> call_requires(RefreshTask::refresh_instant, (&r.next,)),
{
}

/// Any refusal may be decided on, after any number of repetitions.
pub proof fn any_refusal_may_be_decided_on<W, T>(
    statement: &mut PreparedStatement,
    cache: &mut ClientStatementCache<W, T>,
    plan: CompiledPlanState,
    refusal: Refusal,
    retry_count: u32,
)
    requires
        old(cache).wf(),
    ensures
        call_requires(
            PreparedStatement::execute_with_retry::<W, T>,
            (statement, cache, &plan, refusal, retry_count),
        ),
{
}

/// The event is one that the caller can have for a call that stands there.
pub open spec fn may_come<T>(phase: Phase<T>, event: Event) -> bool {
    match event {
        Event::Compiled(_) => phase is Compiling,
        Event::Accepted | Event::Refused(_) => phase is Sent,
        Event::Plan(_) => phase is Recompiling,
        Event::Go => phase is Unbound || phase is Bound || phase is Ready || phase is Recovering,
    }
}

/// A call may be taken on by every event that can come where it stands, with the statement that
/// it wants.
pub proof fn any_event_may_be_taken_in<W, T, F: Fn(&W) -> Option<Upgraded<T>>>(
    call: &mut ExecuteQuery<T>,
    instance_prefix: &str,
    cache: &mut ClientStatementCache<W, T>,
    statement: Option<&mut PreparedStatement>,
    event: Event,
    now: u64,
    upgrade: F,
)
    requires
        names_differ(old(call).request.params@),
        old(call).retry_count <= 2,
        old(call).phase is Bound ==> old(call).cached_stmt is Some,
        old(call).phase is Recovering || old(call).phase is Recompiling ==> old(call).retry_count
            < 2,
        old(call).phase is Compiling || old(call).phase is Unbound || old(call).phase is Bound
            ==> old(call).retry_count == 0,
        old(cache).wf(),
        may_come(old(call).phase, event),
        statement is Some <==> match old(call).phase {
            Phase::Bound | Phase::Ready | Phase::Sent => old(call).cached_stmt is Some,
            Phase::Recovering(_) => true,
            _ => false,
        },
        forall|w: &W| upgrade.requires((w,)),
    ensures
        call_requires(
            ExecuteQuery::<T>::step::<W, F>,
            (call, instance_prefix, cache, statement, event, now, upgrade),
        ),
{
}

/// A query may be prepared, whatever it asks for, unless a parameter is declared twice.
pub proof fn any_query_may_be_prepared<
    W,
    T,
    F: Fn(&W) -> Option<Upgraded<T>>,
    G: FnOnce(PreparedStatement) -> Created<W, T>,
>(
    client: BigTable,
    cache: &mut ClientStatementCache<W, T>,
    request: PrepareQueryRequest,
    now: u64,
    upgrade: F,
    wrap: G,
)
    requires
        names_differ(request.param_types@),
        old(cache).wf(),
        forall|w: &W| upgrade.requires((w,)),
        forall|s: PreparedStatement| #[trigger]
            is_made_for(s, request, now) ==> wrap.requires((s,)),
    ensures
        call_requires(
            BigTable::prepare_query::<W, T, F, G>,
            (&client, cache, &request, now, upgrade, wrap),
        ),
{
}

/// A connection may be made to the service, to any Unix socket, and to any endpoint that makes a
/// URI.
pub proof fn any_endpoint_may_be_connected_to(
    endpoint: &str,
    path: Seq<char>,
    project_id: &str,
    instance_name: &str,
    is_read_only: bool,
    channel_size: usize,
)
    requires
        endpoint@ == "unix://"@ + path || valid_uri("http://"@ + endpoint@),
    ensures
        call_requires(
            BigTableConnection::new_with_emulator,
            (endpoint, project_id, instance_name, is_read_only, channel_size),
        ),
        call_requires(
            BigTableConnection::new,
            (Some(endpoint), project_id, instance_name, is_read_only, channel_size),
        ),
        call_requires(
            BigTableConnection::new,
            (None, project_id, instance_name, is_read_only, channel_size),
        ),
{
    assert("unix://"@.is_prefix_of("unix://"@ + path));
}

} // verus!
