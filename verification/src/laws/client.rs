//! What the client makes of names, endpoints, headers and requests, told in plain text.

use crate::cache::{
    got_new, held_under, inserted, looked_up, CacheView, ClientStatementCache, Created, Found, Got,
    Upgraded,
};
use crate::client::{
    is_made_for, valid_uri, BigTable, BigTableConnection, Target, SERVICE_DOMAIN, SERVICE_URI,
};
use crate::error::Error;
use crate::execute::{Action, ExecuteQuery};
use crate::laws::caching::{appending_adds, brings, is_added, lookups_bring};
use crate::laws::plans::{breaks_the_header, gives_none, is_routing_header};
use crate::laws::types::{
    failures_name_the_first, is_declared_for, is_type_of, lacks_type,
    made_statements_declare_what_was_asked, requests_with_one_view_are_the_same, same_request,
    same_type, says_why, typed_unless_lacking, types_are_those_of,
};
use crate::messages::{ExecuteQueryRequest, PrepareQueryRequest, PrepareQueryResponse};
use crate::metadata::{
    fits_header, header_byte, request_params, routing_text, REQUEST_PARAMS_HEADER,
};
use crate::plan::CompiledPlanState;
use crate::rows::{get_row_range_from_prefix, key_before, RowRange, RowSet};
use crate::statement::PreparedStatement;
use std::sync::Arc;
use vstd::prelude::*;
use vstd::utf8::encode_utf8;

verus! {

/// The service is reached by TLS under the name that its certificate is checked against, and the
/// routing header has the name that the service looks for.
pub proof fn the_service_goes_by_its_name()
    ensures
        SERVICE_DOMAIN@ == "bigtable.googleapis.com"@,
        SERVICE_URI@ == "https://"@ + SERVICE_DOMAIN@,
        REQUEST_PARAMS_HEADER@ == "x-goog-request-params"@,
{
    reveal_strlit("https://");
    reveal_strlit("bigtable.googleapis.com");
    reveal_strlit("https://bigtable.googleapis.com");
    assert(SERVICE_URI@ =~= "https://"@ + SERVICE_DOMAIN@);
}

/// A header carries a routing text just where no byte of it breaks the header.
pub proof fn headers_carry_all_but_control_characters_in(
    instance_prefix: Seq<char>,
    app_profile_id: Seq<char>,
)
    ensures
        fits_header(routing_text(instance_prefix, app_profile_id)) <==> !breaks_the_header(
            instance_prefix,
            app_profile_id,
        ),
        routing_text(instance_prefix, app_profile_id) == "name="@ + instance_prefix
            + "&app_profile_id="@ + app_profile_id,
{
    let bytes = encode_utf8(
        "name="@ + instance_prefix + "&app_profile_id="@ + app_profile_id,
    );
    assert(routing_text(instance_prefix, app_profile_id) == "name="@ + instance_prefix
        + "&app_profile_id="@ + app_profile_id);
    if breaks_the_header(instance_prefix, app_profile_id) {
        let i = choose|i: int|
            0 <= i < bytes.len() && #[trigger] bytes[i] != 9 && (bytes[i] < 32 || bytes[i] == 127);
        assert(!header_byte(bytes[i]));
    } else {
        assert forall|i: int| 0 <= i < bytes.len() implies header_byte(#[trigger] bytes[i]) by {
        }
    }
}

/// The routing header names the instance and the profile, and is turned down just where it holds
/// a control character other than the tab.
pub proof fn routing_headers_name_instance_and_profile(
    instance_prefix: &str,
    app_profile_id: &str,
    value: Result<Vec<u8>, Error>,
)
    requires
        call_ensures(request_params, (instance_prefix, app_profile_id), value),
    ensures
        match value {
            Ok(bytes) => !breaks_the_header(instance_prefix@, app_profile_id@) && is_routing_header(
                bytes@,
                instance_prefix@,
                app_profile_id@,
            ),
            Err(e) => breaks_the_header(instance_prefix@, app_profile_id@) && e is MetadataError,
        },
{
    headers_carry_all_but_control_characters_in(instance_prefix@, app_profile_id@);
}

/// The connection names the instance of the project and its tables, and asks for no more access
/// than it needs.
pub open spec fn is_for(
    connection: BigTableConnection,
    project_id: Seq<char>,
    instance_name: Seq<char>,
    is_read_only: bool,
) -> bool {
    &&& connection.instance_prefix@ == "projects/"@ + project_id + "/instances/"@ + instance_name
    &&& connection.table_prefix@ == "projects/"@ + project_id + "/instances/"@ + instance_name
        + "/tables/"@
    &&& is_read_only ==> connection.scope@
        == "https://www.googleapis.com/auth/bigtable.data.readonly"@
    &&& !is_read_only ==> connection.scope@ == "https://www.googleapis.com/auth/bigtable.data"@
}

/// The connection goes to the emulator at the endpoint.
pub open spec fn reaches(
    connection: BigTableConnection,
    endpoint: Seq<char>,
    channel_size: usize,
) -> bool {
    match connection.target {
        Target::Service => false,
        Target::UnixSocket(path) => endpoint == "unix://"@ + path@ && connection.channel_size == 1,
        Target::Http(uri) => {
            &&& forall|path: Seq<char>| endpoint != #[trigger] ("unix://"@ + path)
            &&& uri@ == "http://"@ + endpoint
            &&& valid_uri(uri@)
            &&& connection.channel_size == if channel_size == 0 {
                1
            } else {
                channel_size
            }
        },
    }
}

/// A text starts with a prefix just where it is the prefix and something more.
proof fn prefix_and_rest(text: Seq<char>, prefix: Seq<char>)
    ensures
        prefix.is_prefix_of(text) <==> exists|rest: Seq<char>| text == #[trigger] (prefix + rest),
{
    if prefix.is_prefix_of(text) {
        let rest = text.skip(prefix.len() as int);
        assert(text =~= prefix + rest);
    }
    if exists|rest: Seq<char>| text == #[trigger] (prefix + rest) {
        let rest = choose|rest: Seq<char>| text == #[trigger] (prefix + rest);
        assert(prefix =~= (prefix + rest).subrange(0, prefix.len() as int));
    }
}

/// A connection to an emulator goes through a Unix socket just where the endpoint says so, on one
/// channel, and by HTTP otherwise, on as many channels as asked for.
pub proof fn emulators_are_reached_as_their_endpoint_says(
    endpoint: &str,
    project_id: &str,
    instance_name: &str,
    is_read_only: bool,
    channel_size: usize,
    connection: BigTableConnection,
)
    requires
        call_ensures(
            BigTableConnection::new_with_emulator,
            (endpoint, project_id, instance_name, is_read_only, channel_size),
            connection,
        ),
    ensures
        is_for(connection, project_id@, instance_name@, is_read_only),
        reaches(connection, endpoint@, channel_size),
{
    prefix_and_rest(endpoint@, "unix://"@);
}

/// A connection goes to the emulator that the environment names, and to the service, on at least
/// one channel, where it names none.
pub proof fn connections_go_to_the_emulator_or_the_service(
    emulator_host: Option<&str>,
    project_id: &str,
    instance_name: &str,
    is_read_only: bool,
    channel_size: usize,
    connection: BigTableConnection,
)
    requires
        call_ensures(
            BigTableConnection::new,
            (emulator_host, project_id, instance_name, is_read_only, channel_size),
            connection,
        ),
    ensures
        is_for(connection, project_id@, instance_name@, is_read_only),
        match emulator_host {
            Some(endpoint) => reaches(connection, endpoint@, channel_size),
            None => {
                &&& connection.target is Service
                &&& connection.channel_size == if channel_size == 0 {
                    1
                } else {
                    channel_size
                }
            },
        },
{
    if let Some(endpoint) = emulator_host {
        prefix_and_rest(endpoint@, "unix://"@);
    }
}

/// The endpoint is a socket, or makes a URI.
pub open spec fn can_be_reached(endpoint: Seq<char>) -> bool {
    ||| exists|path: Seq<char>| endpoint == #[trigger] ("unix://"@ + path)
    ||| valid_uri("http://"@ + endpoint)
}

/// Endpoints are tried before they are used: there is a connection just where the endpoint can be
/// reached, and it is the one that is made without trying.
pub proof fn endpoints_are_tried(
    emulator_host: Option<&str>,
    endpoint: &str,
    project_id: &str,
    instance_name: &str,
    is_read_only: bool,
    channel_size: usize,
    connection: Option<BigTableConnection>,
    to_emulator: Option<BigTableConnection>,
)
    requires
        call_ensures(
            BigTableConnection::try_new,
            (emulator_host, project_id, instance_name, is_read_only, channel_size),
            connection,
        ),
        call_ensures(
            BigTableConnection::try_new_with_emulator,
            (endpoint, project_id, instance_name, is_read_only, channel_size),
            to_emulator,
        ),
    ensures
        to_emulator is Some <==> can_be_reached(endpoint@),
        to_emulator matches Some(c) ==> is_for(c, project_id@, instance_name@, is_read_only)
            && reaches(c, endpoint@, channel_size),
        connection is Some <==> (emulator_host matches Some(host) ==> can_be_reached(host@)),
        connection matches Some(c) ==> is_for(c, project_id@, instance_name@, is_read_only)
            && match emulator_host {
            Some(host) => reaches(c, host@, channel_size),
            None => c.target is Service && c.channel_size == if channel_size == 0 {
                1
            } else {
                channel_size
            },
        },
{
    prefix_and_rest(endpoint@, "unix://"@);
    if let Some(host) = emulator_host {
        prefix_and_rest(host@, "unix://"@);
    }
}

/// A client has the names of its connection, and compiles raw queries unless the environment says
/// just "true"; the switch is set to what it is set to, and tables are named after the instance.
pub proof fn clients_follow_their_connection(
    connection: BigTableConnection,
    disable_prepare: Option<&str>,
    client: BigTable,
    table_name: &str,
    full_name: String,
    instance_name: &str,
)
    requires
        call_ensures(BigTableConnection::client, (&connection, disable_prepare), client),
        call_ensures(BigTable::get_full_table_name, (&client, table_name), full_name),
        call_ensures(BigTable::instance_name, (&client,), instance_name),
    ensures
        instance_name@ == connection.instance_prefix@,
        full_name@ == connection.table_prefix@ + table_name@,
        client.execute_query_with_prepare_disabled <==> (disable_prepare matches Some(value)
            && value@ == "true"@),
{
}

/// Setting the switch sets it, and nothing else.
pub proof fn the_switch_is_set(client: &mut BigTable, disabled: bool)
    requires
        call_ensures(
            BigTable::set_execute_query_with_prepare_disabled,
            (client, disabled),
            (),
        ),
    ensures
        final(client).execute_query_with_prepare_disabled == disabled,
        final(client).instance_prefix@ == old(client).instance_prefix@,
        final(client).table_prefix@ == old(client).table_prefix@,
{
}

/// A call has just begun to run the request: nothing was sent or repeated, and no statement is
/// known.
pub open spec fn has_begun<T>(call: ExecuteQuery<T>, request: ExecuteQueryRequest) -> bool {
    &&& same_request(call.request, request)
    &&& call.token_to_use@ == request.prepared_query@
    &&& call.retry_count == 0
    &&& call.cached_stmt is None
}

/// A query with text, parameters and no token is compiled first, unless that is switched off,
/// however many parameters it has: the first thing to do is to compile its text on the client's
/// instance and under its profile, with the type of each parameter, or else the call ends with the
/// error for the first parameter without a type. Any other query goes on as it is.
pub proof fn raw_queries_are_compiled_first<T>(
    client: BigTable,
    request: ExecuteQueryRequest,
    begun: (ExecuteQuery<T>, Action<T>),
)
    requires
        call_ensures(BigTable::execute_query::<T>, (&client, request), begun),
    ensures
        has_begun(begun.0, request),
        if client.execute_query_with_prepare_disabled || request.query@.len() == 0
            || request.params@.len() == 0 || request.prepared_query@.len() > 0 {
            begun.1 is Continue && begun.0.phase is Unbound
        } else if exists|i: int|
            0 <= i < request.params@.len() && lacks_type((#[trigger] request.params@[i]).1) {
            &&& begun.0.phase is Ended
            &&& begun.1 matches Action::Done(Err(e)) && exists|i: int|
                {
                    &&& 0 <= i < request.params@.len()
                    &&& lacks_type((#[trigger] request.params@[i]).1)
                    &&& forall|j: int| 0 <= j < i ==> !lacks_type((#[trigger] request.params@[j]).1)
                    &&& e matches Error::ParameterTypeInferenceFailed(field, detail) && field@
                        == request.params@[i].0@ && says_why(detail@, request.params@[i].1.kind)
                }
        } else {
            &&& begun.0.phase is Compiling
            &&& begun.1 matches Action::Compile(prepare) && {
                &&& prepare.instance_name@ == client.instance_prefix@
                &&& prepare.app_profile_id@ == request.app_profile_id@
                &&& prepare.query@ == request.query@
                &&& prepare.data_format is None
                &&& prepare.param_types@.len() == request.params@.len()
                &&& forall|i: int|
                    0 <= i < request.params@.len() ==> (#[trigger] prepare.param_types@[i]).0@
                        == request.params@[i].0@ && match request.params@[i].1.declared_type {
                        Some(ty) => same_type(prepare.param_types@[i].1, ty),
                        None => is_type_of(prepare.param_types@[i].1, request.params@[i].1.kind->0),
                    }
            }
        },
{
    requests_with_one_view_are_the_same(begun.0.request, request);
    typed_unless_lacking(request.params@);
    match begun.1 {
        Action::Compile(prepare) => {
            types_are_those_of(prepare.param_types@, request.params@);
        },
        Action::Done(Err(e)) => {
            failures_name_the_first(request.params@, e);
        },
        _ => {},
    }
}

/// A query to compile gets the statement that it leads to. Where it leads to none, a statement
/// with its text, profile and parameters is made, without a plan and unused, cached under the text
/// and the profile, and made the most recently used.
pub proof fn queries_are_prepared_once<
    W,
    T,
    F: Fn(&W) -> Option<Upgraded<T>>,
    G: FnOnce(PreparedStatement) -> Created<W, T>,
>(
    client: BigTable,
    cache: &mut ClientStatementCache<W, T>,
    request: PrepareQueryRequest,
    now: u64,
    upgrade: F,
    wrap: G,
    got: Got<T>,
)
    requires
        old(cache).active_lru@.len() <= 1000,
        call_ensures(
            BigTable::prepare_query::<W, T, F, G>,
            (&client, cache, &request, now, upgrade, wrap),
            got,
        ),
    ensures
        final(cache).token_to_statement@ == old(cache).token_to_statement@,
        ({
            let key = (request.query@, request.app_profile_id@);
            let held = old(cache).query_to_statement@;
            let lru = old(cache).active_lru@;
            let after = final(cache).active_lru@;
            ||| {
                &&& brings(
                    held,
                    key,
                    upgrade,
                    lru,
                    now,
                    (Found { statement: Some(got.statement), evicted: got.evicted }),
                    after,
                )
                &&& final(cache).query_to_statement@ == held
            }
            ||| {
                &&& !held.contains_key(key) || upgrade.ensures((&held[key],), None)
                &&& exists|statement: PreparedStatement, made: Created<W, T>|
                    {
                        &&& #[trigger] wrap.ensures((statement,), made)
                        &&& declares(statement, request, now)
                        &&& got.statement == made.statement
                        &&& final(cache).query_to_statement@ == held.insert(key, made.weak)
                        &&& is_added(lru, made.id, made.statement, after, got.evicted)
                    }
            }
        }),
{
    let key = (request.query@, request.app_profile_id@);
    let held = old(cache).query_to_statement@;
    let lru = old(cache).active_lru@;
    let (found, after) = choose|found: Found<T>, after: Seq<(u64, Arc<T>)>|
        {
            &&& #[trigger] looked_up(held_under(held, key), upgrade, lru, now, found, after)
            &&& match found.statement {
                Some(s) => {
                    &&& got == (Got { statement: s, evicted: found.evicted })
                    &&& final(cache)@ == (CacheView { lru: after, ..old(cache)@ })
                },
                None => exists|statement: PreparedStatement, made: Created<W, T>|
                    {
                        &&& is_made_for(statement, request, now)
                        &&& #[trigger] wrap.ensures((statement,), made)
                        &&& got == got_new(old(cache)@, made)
                        &&& final(cache)@ == inserted(old(cache)@, key, made)
                    },
            }
        };
    lookups_bring(held, key, upgrade, lru, now, found, after);
    if found.statement is None {
        let (statement, made) = choose|statement: PreparedStatement, made: Created<W, T>|
            {
                &&& is_made_for(statement, request, now)
                &&& #[trigger] wrap.ensures((statement,), made)
                &&& got == got_new(old(cache)@, made)
                &&& final(cache)@ == inserted(old(cache)@, key, made)
            };
        appending_adds(lru, made.id, made.statement);
        made_statements_declare_what_was_asked(request, now, statement);
        assert(wrap.ensures((statement,), made) && declares(statement, request, now));
    }
}

/// The statement declares what a request asks to compile, has no plan and was not used.
pub open spec fn declares(
    statement: PreparedStatement,
    request: PrepareQueryRequest,
    now: u64,
) -> bool {
    &&& statement.inner.query@ == request.query@
    &&& statement.inner.app_profile_id@ == request.app_profile_id@
    &&& gives_none(statement.inner.plan_state)
    &&& statement.inner.base_instant == now
    &&& statement.inner.last_executed_seconds == 0
    &&& statement.inner.param_types@.len() == request.param_types@.len()
    &&& forall|i: int|
        0 <= i < request.param_types@.len() ==> (#[trigger] statement.inner.param_types@[i]).0@
            == request.param_types@[i].0@ && is_declared_for(
            statement.inner.param_types@[i].1,
            request.param_types@[i].1,
        )
}

/// What is answered to a request to compile a query is the plan's token, and its expiry by how far
/// it is off.
pub proof fn answers_carry_token_and_expiry(
    plan: CompiledPlanState,
    now: u64,
    unix_now: u64,
    response: PrepareQueryResponse,
)
    requires
        call_ensures(BigTable::prepared_response, (&plan, now, unix_now), response),
    ensures
        response.prepared_query@ == plan.plan_token@,
        response.valid_until matches Some(at) && 0 <= at.nanos < 1_000_000_000 && at.seconds
            * 1_000_000_000 + at.nanos == if plan.expires_at >= now {
            unix_now + plan.expires_at - now
        } else {
            unix_now as int
        },
{
}

/// One key stands before another where it is a proper prefix of it, or smaller at the first byte
/// at which they differ.
pub proof fn keys_are_ordered_byte_by_byte(a: Seq<u8>, b: Seq<u8>)
    ensures
        key_before(a, b) <==> {
            ||| a.len() < b.len() && a == b.take(a.len() as int)
            ||| exists|i: int|
                {
                    &&& 0 <= i < a.len() && i < b.len()
                    &&& a.take(i) == b.take(i)
                    &&& #[trigger] a[i] < b[i]
                }
        },
    decreases a.len(),
{
    if a.len() == 0 {
        assert(a =~= b.take(0));
    }
    if a.len() > 0 && b.len() > 0 {
        let ra = a.drop_first();
        let rb = b.drop_first();
        keys_are_ordered_byte_by_byte(ra, rb);
        if a[0] == b[0] {
            if ra.len() < rb.len() && ra == rb.take(ra.len() as int) {
                assert(a =~= b.take(a.len() as int)) by {
                    assert forall|k: int| 0 <= k < a.len() implies a[k] == b[k] by {
                        if k > 0 {
                            assert(ra[k - 1] == rb.take(ra.len() as int)[k - 1]);
                        }
                    }
                }
            }
            if a.len() < b.len() && a == b.take(a.len() as int) {
                assert(ra =~= rb.take(ra.len() as int)) by {
                    assert forall|k: int| 0 <= k < ra.len() implies ra[k] == rb[k] by {
                        assert(a[k + 1] == b.take(a.len() as int)[k + 1]);
                    }
                }
            }
            if exists|i: int|
                {
                    &&& 0 <= i < ra.len() && i < rb.len()
                    &&& ra.take(i) == rb.take(i)
                    &&& #[trigger] ra[i] < rb[i]
                } {
                let i = choose|i: int|
                    {
                        &&& 0 <= i < ra.len() && i < rb.len()
                        &&& ra.take(i) == rb.take(i)
                        &&& #[trigger] ra[i] < rb[i]
                    };
                assert(a.take(i + 1) =~= b.take(i + 1)) by {
                    assert forall|k: int| 0 <= k < i + 1 implies a[k] == b[k] by {
                        if k > 0 {
                            assert(ra.take(i)[k - 1] == rb.take(i)[k - 1]);
                        }
                    }
                }
                assert(a[i + 1] < b[i + 1]);
            }
            if exists|i: int|
                {
                    &&& 0 <= i < a.len() && i < b.len()
                    &&& a.take(i) == b.take(i)
                    &&& #[trigger] a[i] < b[i]
                } {
                let i = choose|i: int|
                    {
                        &&& 0 <= i < a.len() && i < b.len()
                        &&& a.take(i) == b.take(i)
                        &&& #[trigger] a[i] < b[i]
                    };
                assert(ra.take(i - 1) =~= rb.take(i - 1)) by {
                    assert forall|k: int| 0 <= k < i - 1 implies ra[k] == rb[k] by {
                        assert(a.take(i)[k + 1] == b.take(i)[k + 1]);
                    }
                }
                assert(ra[i - 1] < rb[i - 1]);
            }
        } else {
            if a[0] < b[0] {
                assert(a.take(0) =~= b.take(0));
            } else {
                if a.len() < b.len() && a == b.take(a.len() as int) {
                    assert(a[0] == b.take(a.len() as int)[0]);
                }
                assert forall|i: int|
                    0 <= i < a.len() && i < b.len() && a.take(i) == b.take(
                        i,
                    ) implies !(#[trigger] a[i] < b[i]) by {
                    if i > 0 {
                        assert(a.take(i)[0] == b.take(i)[0]);
                    }
                }
            }
        }
    }
}

/// A range for a prefix holds just the keys that start with it: those that are the prefix and
/// something more.
pub proof fn prefix_ranges_hold_what_starts_with_the_prefix(
    prefix: Vec<u8>,
    range: RowRange,
    key: Seq<u8>,
)
    requires
        call_ensures(get_row_range_from_prefix, (prefix,), range),
    ensures
        range.start_key@ == prefix@,
        (!key_before(key, range.start_key@) && (range.end_key matches Some(end) ==> key_before(
            key,
            end@,
        ))) <==> exists|rest: Seq<u8>| key == #[trigger] (prefix@ + rest),
{
    assert(range.contains(key) <==> prefix@.is_prefix_of(key));
    prefixed_keys(prefix@, key);
}

/// The rows with a prefix are one range and no single keys; the range holds just the keys that
/// start with the prefix.
pub proof fn prefixed_rows_are_one_range(prefix: Vec<u8>, rows: RowSet, key: Seq<u8>)
    requires
        call_ensures(RowSet::with_prefix, (prefix,), rows),
    ensures
        rows.row_keys@.len() == 0,
        rows.row_ranges@.len() == 1,
        rows.row_ranges@[0].start_key@ == prefix@,
        (!key_before(key, prefix@) && (rows.row_ranges@[0].end_key matches Some(end) ==> key_before(
            key,
            end@,
        ))) <==> exists|rest: Seq<u8>| key == #[trigger] (prefix@ + rest),
{
    assert(rows.row_ranges@[0].contains(key) <==> prefix@.is_prefix_of(key));
    prefixed_keys(prefix@, key);
}

/// A key starts with a prefix just where it is the prefix and something more.
proof fn prefixed_keys(prefix: Seq<u8>, key: Seq<u8>)
    ensures
        prefix.is_prefix_of(key) <==> exists|rest: Seq<u8>| key == #[trigger] (prefix + rest),
{
    if prefix.is_prefix_of(key) {
        let rest = key.skip(prefix.len() as int);
        assert(key =~= prefix + rest);
    }
    if exists|rest: Seq<u8>| key == #[trigger] (prefix + rest) {
        let rest = choose|rest: Seq<u8>| key == #[trigger] (prefix + rest);
        assert(prefix =~= (prefix + rest).subrange(0, prefix.len() as int));
    }
}

} // verus!
