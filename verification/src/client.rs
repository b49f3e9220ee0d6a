//! The client: where it connects to, how it names things, and how it turns raw queries
//! into compiled ones.

use crate::cache::{
    got_new, held_under, inserted, looked_up, CacheView, ClientStatementCache, Created, Found, Got,
    Upgraded,
};
use crate::execute::{Action, ExecuteQuery, ExecutionView, Phase};
use crate::inference::{
    all_typed, first_untyped, infer_param_types, is_inference_failure, param_type, types_of,
};
use crate::messages::{ExecuteQueryRequest, PrepareQueryRequest, PrepareQueryResponse};
use crate::plan::CompiledPlanState;
use crate::sql::{sql_of, SqlType, SqlTypeView, Type};
use crate::statement::{typed_names, PreparedStatement, StatementView};
use crate::text::{same_text, strip_prefix};
use crate::time::{expiry_in_unix_nanos, expiry_timestamp, unix_nanos, NANOS_PER_SECOND};
use std::sync::Arc;
use vstd::prelude::*;

verus! {

/// The scheme of an emulator that listens on a Unix domain socket.
pub const UNIX_SCHEME: &'static str = "unix://";

/// The scheme of an emulator that listens on a host and port.
pub const HTTP_SCHEME: &'static str = "http://";

/// The address of the service.
pub const SERVICE_URI: &'static str = "https://bigtable.googleapis.com";

/// The name that the certificate of the service is checked against.
pub const SERVICE_DOMAIN: &'static str = "bigtable.googleapis.com";

/// What access to read is asked for under.
pub const READ_ONLY_SCOPE: &'static str = "https://www.googleapis.com/auth/bigtable.data.readonly";

/// What access to read and write is asked for under.
pub const READ_WRITE_SCOPE: &'static str = "https://www.googleapis.com/auth/bigtable.data";

/// The value of the environment variable that switches the compilation of raw queries off.
pub const PREPARE_DISABLED: &'static str = "true";

pub const PROJECTS_PART: &'static str = "projects/";

pub const INSTANCES_PART: &'static str = "/instances/";

pub const TABLES_PART: &'static str = "/tables/";

/// Where a connection goes.
#[derive(Debug, Clone)]
pub enum Target {
    /// To the service
    Service,
    /// To an emulator that listens on the Unix domain socket at this path
    UnixSocket(String),
    /// To an emulator at this address
    Http(String),
}

/// For initiate a Bigtable connection, then a `Bigtable` client can be made from it.
#[derive(Debug, Clone)]
pub struct BigTableConnection {
    /// What the names of all tables start with (projects/.../instances/.../tables/)
    pub table_prefix: String,
    /// The instance (projects/.../instances/...)
    pub instance_prefix: String,
    /// Where to connect to
    pub target: Target,
    /// How many channels to open; the requests are balanced onto them
    pub channel_size: usize,
    /// The OAuth2 scope to ask for
    pub scope: String,
}

/// The name of an instance.
pub open spec fn instance_path(project_id: Seq<char>, instance_name: Seq<char>) -> Seq<char> {
    PROJECTS_PART@ + project_id + INSTANCES_PART@ + instance_name
}

/// How many channels are opened where `asked` are asked for: at least one.
pub open spec fn at_least_one(asked: usize) -> usize {
    if asked == 0 {
        1
    } else {
        asked
    }
}

/// The scope that access is asked for under.
pub open spec fn scope_of(is_read_only: bool) -> Seq<char> {
    if is_read_only {
        READ_ONLY_SCOPE@
    } else {
        READ_WRITE_SCOPE@
    }
}

/// Whether the text is a URI that a channel can be opened to: the verdict of the parser of URIs.
pub uninterp spec fn valid_uri(text: Seq<char>) -> bool;

/// `tonic::transport::Channel::from_shared`: whether the text parses as a URI. That depends on the
/// text alone; which texts do is left to the parser.
#[verifier::external_body]
fn channel_from_shared(text: &str) -> (valid: bool)
    ensures
        valid == valid_uri(text@),
{
    tonic::transport::Channel::from_shared(text.to_owned()).is_ok()
}

/// The endpoint of an emulator is a Unix domain socket, or it makes a URI.
pub open spec fn is_endpoint(emulator_endpoint: Seq<char>) -> bool {
    UNIX_SCHEME@.is_prefix_of(emulator_endpoint) || valid_uri(HTTP_SCHEME@ + emulator_endpoint)
}

/// The address of an emulator that listens on a host and port.
fn http_uri(emulator_endpoint: &str) -> (uri: String)
    ensures
        uri@ == HTTP_SCHEME@ + emulator_endpoint@,
{
    let mut uri = HTTP_SCHEME.to_owned();
    uri.append(emulator_endpoint);
    uri
}

/// `connection` is one to an emulator: through a Unix domain socket, on a single channel,
/// where the endpoint starts with that scheme, else by HTTP.
pub open spec fn goes_to_emulator(
    connection: BigTableConnection,
    emulator_endpoint: Seq<char>,
    channel_size: usize,
) -> bool {
    if UNIX_SCHEME@.is_prefix_of(emulator_endpoint) {
        &&& connection.target matches Target::UnixSocket(path) && emulator_endpoint == UNIX_SCHEME@
            + path@
        &&& connection.channel_size == 1
    } else {
        &&& connection.target matches Target::Http(uri) && uri@ == HTTP_SCHEME@ + emulator_endpoint
            && valid_uri(uri@)
        &&& connection.channel_size == at_least_one(channel_size)
    }
}

/// `connection` names its instance and tables, and asks for access, as it should.
pub open spec fn names_instance(
    connection: BigTableConnection,
    project_id: Seq<char>,
    instance_name: Seq<char>,
    is_read_only: bool,
) -> bool {
    &&& connection.instance_prefix@ == instance_path(project_id, instance_name)
    &&& connection.table_prefix@ == instance_path(project_id, instance_name) + TABLES_PART@
    &&& connection.scope@ == scope_of(is_read_only)
}

/// Names of an instance and its tables, and the scope to ask for.
fn names(project_id: &str, instance_name: &str, is_read_only: bool) -> (names: (
    String,
    String,
    String,
))
    ensures
        names.0@ == instance_path(project_id@, instance_name@) + TABLES_PART@,
        names.1@ == instance_path(project_id@, instance_name@),
        names.2@ == scope_of(is_read_only),
{
    let mut instance_prefix = PROJECTS_PART.to_owned();
    instance_prefix.append(project_id);
    instance_prefix.append(INSTANCES_PART);
    instance_prefix.append(instance_name);
    let mut table_prefix = instance_prefix.clone();
    table_prefix.append(TABLES_PART);
    let scope = if is_read_only {
        READ_ONLY_SCOPE.to_owned()
    } else {
        READ_WRITE_SCOPE.to_owned()
    };
    (table_prefix, instance_prefix, scope)
}

impl BigTableConnection {
    /// A connection to the BigTable instance named `instance_name`. If read-only access is
    /// required, the `read_only` flag should be used to reduce the requested OAuth2 scope.
    ///
    /// `emulator_host` is the value of the BIGTABLE_EMULATOR_HOST environment variable; where
    /// it is set, the connection goes to that emulator.
    ///
    /// `channel_size` defines the number of connections (or channels) established to Bigtable
    /// service, and the requests are load balanced onto all the channels.
    pub fn new(
        emulator_host: Option<&str>,
        project_id: &str,
        instance_name: &str,
        is_read_only: bool,
        channel_size: usize,
    ) -> (connection: Self)
        requires
            emulator_host matches Some(endpoint) ==> is_endpoint(endpoint@),
        ensures
            names_instance(connection, project_id@, instance_name@, is_read_only),
            match emulator_host {
                Some(endpoint) => goes_to_emulator(connection, endpoint@, channel_size),
                None => connection.target is Service && connection.channel_size == at_least_one(
                    channel_size,
                ),
            },
    {
        match emulator_host {
            Some(endpoint) => Self::new_with_emulator(
                endpoint,
                project_id,
                instance_name,
                is_read_only,
                channel_size,
            ),
            None => {
                let (table_prefix, instance_prefix, scope) = names(
                    project_id,
                    instance_name,
                    is_read_only,
                );
                let channel_size = if channel_size == 0 {
                    1
                } else {
                    channel_size
                };
                BigTableConnection {
                    table_prefix,
                    instance_prefix,
                    target: Target::Service,
                    channel_size,
                    scope,
                }
            },
        }
    }

    /// A connection to a BigTable emulator at `emulator_endpoint`. Officially, that is only
    /// host:port, but unix:///path/to/unix.sock also works.
    pub fn new_with_emulator(
        emulator_endpoint: &str,
        project_id: &str,
        instance_name: &str,
        is_read_only: bool,
        channel_size: usize,
    ) -> (connection: Self)
        requires
            is_endpoint(emulator_endpoint@),
        ensures
            names_instance(connection, project_id@, instance_name@, is_read_only),
            goes_to_emulator(connection, emulator_endpoint@, channel_size),
    {
        let (table_prefix, instance_prefix, scope) = names(
            project_id,
            instance_name,
            is_read_only,
        );
        match strip_prefix(emulator_endpoint, UNIX_SCHEME) {
            Some(path) => BigTableConnection {
                table_prefix,
                instance_prefix,
                target: Target::UnixSocket(path),
                channel_size: 1,
                scope,
            },
            None => {
                let uri = http_uri(emulator_endpoint);
                let channel_size = if channel_size == 0 {
                    1
                } else {
                    channel_size
                };
                BigTableConnection {
                    table_prefix,
                    instance_prefix,
                    target: Target::Http(uri),
                    channel_size,
                    scope,
                }
            },
        }
    }

    /// A connection as [`BigTableConnection::new`] gives it; none where the emulator's endpoint is
    /// not one.
    pub fn try_new(
        emulator_host: Option<&str>,
        project_id: &str,
        instance_name: &str,
        is_read_only: bool,
        channel_size: usize,
    ) -> (connection: Option<Self>)
        ensures
            connection is Some <==> (emulator_host matches Some(endpoint) ==> is_endpoint(
                endpoint@,
            )),
            connection matches Some(c) ==> {
                &&& names_instance(c, project_id@, instance_name@, is_read_only)
                &&& match emulator_host {
                    Some(endpoint) => goes_to_emulator(c, endpoint@, channel_size),
                    None => c.target is Service && c.channel_size == at_least_one(channel_size),
                }
            },
    {
        if let Some(endpoint) = emulator_host {
            if !Self::accepts_endpoint(endpoint) {
                return None;
            }
        }
        Some(Self::new(emulator_host, project_id, instance_name, is_read_only, channel_size))
    }

    /// A connection as [`BigTableConnection::new_with_emulator`] gives it; none where the endpoint
    /// is not one.
    pub fn try_new_with_emulator(
        emulator_endpoint: &str,
        project_id: &str,
        instance_name: &str,
        is_read_only: bool,
        channel_size: usize,
    ) -> (connection: Option<Self>)
        ensures
            connection is Some <==> is_endpoint(emulator_endpoint@),
            connection matches Some(c) ==> {
                &&& names_instance(c, project_id@, instance_name@, is_read_only)
                &&& goes_to_emulator(c, emulator_endpoint@, channel_size)
            },
    {
        if !Self::accepts_endpoint(emulator_endpoint) {
            return None;
        }
        Some(
            Self::new_with_emulator(
                emulator_endpoint,
                project_id,
                instance_name,
                is_read_only,
                channel_size,
            ),
        )
    }

    /// Whether an emulator can be reached at the endpoint.
    fn accepts_endpoint(emulator_endpoint: &str) -> (accepts: bool)
        ensures
            accepts == is_endpoint(emulator_endpoint@),
    {
        strip_prefix(emulator_endpoint, UNIX_SCHEME).is_some() || channel_from_shared(
            http_uri(emulator_endpoint).as_str(),
        )
    }

    /// Create a new BigTable client by cloning needed properties. `disable_prepare` is the
    /// value of the BIGTABLE_RUST_DISABLE_SQL_PREPARE_IN_EXECUTE environment variable, where
    /// it is set.
    pub fn client(&self, disable_prepare: Option<&str>) -> (client: BigTable)
        ensures
            client.instance_prefix@ == self.instance_prefix@,
            client.table_prefix@ == self.table_prefix@,
            client.execute_query_with_prepare_disabled == (disable_prepare matches Some(value)
                && value@ == PREPARE_DISABLED@),
    {
        let disabled = match disable_prepare {
            Some(value) => same_text(value, PREPARE_DISABLED),
            None => false,
        };
        BigTable {
            instance_prefix: self.instance_prefix.clone(),
            table_prefix: self.table_prefix.clone(),
            execute_query_with_prepare_disabled: disabled,
        }
    }
}

/// What a Bigtable client knows besides its connection.
#[derive(Debug, Clone)]
pub struct BigTable {
    pub instance_prefix: String,
    pub table_prefix: String,
    pub execute_query_with_prepare_disabled: bool,
}

/// A raw query is compiled before it is run: it has text and parameters, it is not given
/// by a token already, and compiling has not been switched off.
pub open spec fn coerces(disabled: bool, request: ExecuteQueryRequest) -> bool {
    &&& !disabled
    &&& request.query@.len() > 0
    &&& request.params@.len() > 0
    &&& request.prepared_query@.len() == 0
}

/// `prepare` asks to compile the raw query of `request`, under the types of its parameters.
pub open spec fn compiles_query_of(
    prepare: PrepareQueryRequest,
    request: ExecuteQueryRequest,
    instance_prefix: Seq<char>,
) -> bool {
    &&& prepare.instance_name@ == instance_prefix
    &&& prepare.app_profile_id@ == request.app_profile_id@
    &&& prepare.query@ == request.query@
    &&& types_of(prepare.param_types@, request.params@)
    &&& prepare.data_format is None
}

/// The SQL type of a parameter that is declared with a schema type. One that denotes no SQL
/// type is passed as bytes.
pub open spec fn sql_or_bytes(ty: Type) -> SqlTypeView {
    match sql_of(ty@) {
        Some(sql) => sql,
        None => SqlTypeView::Bytes,
    }
}

/// The names of parameters with their SQL types.
pub open spec fn declared(types: Seq<(String, Type)>) -> Seq<(Seq<char>, SqlTypeView)> {
    types.map_values(|p: (String, Type)| (p.0@, sql_or_bytes(p.1)))
}

/// The statement that is made for a request to compile a query.
pub open spec fn made_for(request: PrepareQueryRequest, now: u64) -> StatementView {
    StatementView {
        query: request.query@,
        app_profile_id: request.app_profile_id@,
        param_types: declared(request.param_types@),
        plan: None,
        base_instant: now,
        last_executed_seconds: 0,
    }
}

/// `statement` is the one that is made for `request`.
pub open spec fn is_made_for(
    statement: PreparedStatement,
    request: PrepareQueryRequest,
    now: u64,
) -> bool {
    statement.wf() && statement@ == made_for(request, now)
}

impl BigTable {
    /// Return the instance prefix name (projects/.../instances/...)
    pub fn instance_name(&self) -> (name: &str)
        ensures
            name@ == self.instance_prefix@,
    {
        self.instance_prefix.as_str()
    }

    /// Configure whether execute_query automatically prepares plans first.
    ///
    /// Defaults to false (automatic pre-compilation active by default).
    /// Pass true to disable and globally bypass preparation, forcing all direct SQL queries
    /// to execute legacy-style directly on the database gateway.
    pub fn set_execute_query_with_prepare_disabled(&mut self, disabled: bool)
        ensures
            *final(self) == (BigTable {
                execute_query_with_prepare_disabled: disabled,
                ..*old(self)
            }),
    {
        self.execute_query_with_prepare_disabled = disabled;
    }

    /// Provide a convenient method to get full table, which can be used for building requests
    pub fn get_full_table_name(&self, table_name: &str) -> (name: String)
        ensures
            name@ == self.table_prefix@ + table_name@,
    {
        let mut name = self.table_prefix.clone();
        name.append(table_name);
        name
    }

    /// Begins to run a query. Where the client is to compile it first, that is the first thing
    /// to do; where the type of a parameter is then not declared and cannot be told, the call
    /// ends with the error for the first such parameter. Otherwise the request goes on as it is.
    pub fn execute_query<T>(&self, request: ExecuteQueryRequest) -> (begun: (
        ExecuteQuery<T>,
        Action<T>,
    ))
        requires
            request.wf(),
        ensures
            begun.0.wf(),
            if coerces(self.execute_query_with_prepare_disabled, request) {
                match begun.1 {
                    Action::Compile(prepare) => {
                        &&& all_typed(request.params@)
                        &&& compiles_query_of(prepare, request, self.instance_prefix@)
                        &&& prepare.wf()
                        &&& begun.0@ == ExecutionView::<T>::fresh(request@, Phase::Compiling)
                    },
                    Action::Done(Err(e)) => {
                        &&& !all_typed(request.params@)
                        &&& exists|at: int|
                            #[trigger] first_untyped(request.params@, at) && is_inference_failure(
                                e,
                                request.params@[at].0@,
                                param_type(request.params@[at].1)->Err_0,
                            )
                        &&& begun.0@ == ExecutionView::<T>::fresh(request@, Phase::Ended)
                    },
                    _ => false,
                }
            } else {
                &&& begun.1 is Continue
                &&& begun.0@ == ExecutionView::<T>::fresh(request@, Phase::Unbound)
            },
    {
        if self.execute_query_with_prepare_disabled || request.query.as_str().is_empty()
            || request.params.len() == 0 || request.prepared_query.len() > 0 {
            return (ExecuteQuery::start(request, Phase::Unbound), Action::Continue);
        }
        match infer_param_types(&request.params) {
            Ok(param_types) => {
                proof {
                    assert forall|a: int, b: int| 0 <= a < b < param_types@.len() implies (
                    #[trigger] param_types@[a]).0@ != (#[trigger] param_types@[b]).0@ by {
                        assert(request.params@[a].0@ != request.params@[b].0@);
                    }
                }
                let prepare = PrepareQueryRequest {
                    instance_name: self.instance_prefix.clone(),
                    app_profile_id: request.app_profile_id.clone(),
                    query: request.query.clone(),
                    param_types,
                    data_format: None,
                };
                (ExecuteQuery::start(request, Phase::Compiling), Action::Compile(prepare))
            },
            Err(e) => (ExecuteQuery::start(request, Phase::Ended), Action::Done(Err(e))),
        }
    }

    /// The statement for a request to compile a query.
    pub fn statement_for(request: &PrepareQueryRequest, now: u64) -> (statement: PreparedStatement)
        requires
            request.wf(),
        ensures
            is_made_for(statement, *request, now),
    {
        let types = &request.param_types;
        let mut param_types: Vec<(String, SqlType)> = Vec::new();
        let mut i: usize = 0;
        while i < types.len()
            invariant
                types@ == request.param_types@,
                i <= types@.len(),
                param_types@.len() == i,
                forall|k: int|
                    0 <= k < i ==> (#[trigger] param_types@[k]).0@ == types@[k].0@
                        && param_types@[k].1@ == sql_or_bytes(types@[k].1),
            decreases types@.len() - i,
        {
            let sql_type = match SqlType::from_pb(&types[i].1) {
                Some(sql_type) => sql_type,
                None => SqlType::Bytes,
            };
            param_types.push((types[i].0.clone(), sql_type));
            i += 1;
        }
        proof {
            assert forall|a: int, b: int| 0 <= a < b < param_types@.len() implies (
            #[trigger] param_types@[a]).0@ != (#[trigger] param_types@[b]).0@ by {
                assert(types@[a].0@ != types@[b].0@);
            }
            assert(typed_names(param_types@) =~= declared(types@));
        }
        PreparedStatement::with_parameter_types(
            request.query.clone(),
            request.app_profile_id.clone(),
            param_types,
            now,
        )
    }

    /// The statement that compiles the query of a request: the one that the cache holds for
    /// the query and application profile, else a new one, which `wrap` makes a shared handle
    /// of and which is entered in the cache.
    pub fn prepare_query<
        W,
        T,
        F: Fn(&W) -> Option<Upgraded<T>>,
        G: FnOnce(PreparedStatement) -> Created<W, T>,
    >(
        &self,
        cache: &mut ClientStatementCache<W, T>,
        request: &PrepareQueryRequest,
        now: u64,
        upgrade: F,
        wrap: G,
    ) -> (got: Got<T>)
        requires
            request.wf(),
            old(cache).wf(),
            forall|w: &W| upgrade.requires((w,)),
            forall|s: PreparedStatement| #[trigger] is_made_for(s, *request, now) ==> wrap.requires(
                (s,),
            ),
        ensures
            final(cache).wf(),
            exists|found: Found<T>, lru: Seq<(u64, Arc<T>)>|
                {
                    &&& #[trigger] looked_up(
                        held_under(old(cache)@.queries, (request.query@, request.app_profile_id@)),
                        upgrade,
                        old(cache)@.lru,
                        now,
                        found,
                        lru,
                    )
                    &&& match found.statement {
                        Some(s) => {
                            &&& got == (Got { statement: s, evicted: found.evicted })
                            &&& final(cache)@ == (CacheView { lru, ..old(cache)@ })
                        },
                        None => exists|statement: PreparedStatement, made: Created<W, T>|
                            {
                                &&& is_made_for(statement, *request, now)
                                &&& #[trigger] wrap.ensures((statement,), made)
                                &&& got == got_new(old(cache)@, made)
                                &&& final(cache)@ == inserted(
                                    old(cache)@,
                                    (request.query@, request.app_profile_id@),
                                    made,
                                )
                            },
                    }
                },
    {
        let creator = || -> (made: Created<W, T>)
            requires
                request.wf(),
                forall|s: PreparedStatement| #[trigger]
                    is_made_for(s, *request, now) ==> wrap.requires((s,)),
            ensures
                exists|s: PreparedStatement|
                    is_made_for(s, *request, now) && #[trigger] wrap.ensures((s,), made),
            {
                let statement = Self::statement_for(request, now);
                wrap(statement)
            };
        cache.get_or_insert_query(
            request.query.as_str(),
            request.app_profile_id.as_str(),
            now,
            upgrade,
            creator,
        )
    }

    /// What is answered to a request to compile a query: the token of the plan, and when it
    /// expires.
    pub fn prepared_response(
        plan: &CompiledPlanState,
        now: u64,
        unix_now: u64,
    ) -> (response: PrepareQueryResponse)
        requires
            expiry_in_unix_nanos(plan.expires_at, now, unix_now) / (NANOS_PER_SECOND as int)
                <= i64::MAX,
        ensures
            response.prepared_query@ == plan@.token,
            response.valid_until matches Some(at) && unix_nanos(at) == expiry_in_unix_nanos(
                plan.expires_at,
                now,
                unix_now,
            ) && 0 <= at.nanos < NANOS_PER_SECOND,
    {
        PrepareQueryResponse {
            prepared_query: plan.plan_token.clone(),
            valid_until: Some(expiry_timestamp(plan.expires_at, now, unix_now)),
        }
    }
}

} // verus!
