//! Scenarios that run the library's decisions against a server in memory, on a clock that
//! the scenario moves.

use bigtable_rs::cache::{ClientStatementCache, Created, QueryKey, TokenKey, Upgraded};
use bigtable_rs::client::{BigTable, BigTableConnection};
use bigtable_rs::error::{Code, Error, Refusal};
use bigtable_rs::execute::{Action, Event, ExecuteQuery};
use bigtable_rs::messages::{
    duplicate_params, DataFormat, ExecuteQueryRequest, Kind, PrepareQueryRequest, PrepareQueryResponse,
    Timestamp, Value,
};
use bigtable_rs::plan::CompiledPlanState;
use bigtable_rs::prepare::{Outgoing, PrepareStep};
use bigtable_rs::refresh::{RefreshTask, WakeUp};
use bigtable_rs::sql::{SqlType, Type, TypeKind};
use bigtable_rs::statement::PreparedStatement;
use bigtable_rs::time::TOKEN_GRACE;
use std::cell::RefCell;
use std::sync::{Arc, Weak};

const SECOND: u64 = 1_000_000_000;

const SQL: &str = "SELECT * FROM table WHERE col = @param1";

type Cell = RefCell<PreparedStatement>;

fn upgrade(weak: &Weak<Cell>) -> Option<Upgraded<Cell>> {
    let statement = weak.upgrade()?;
    let id = Arc::as_ptr(&statement) as u64;
    let base_instant = statement.borrow().inner.base_instant;
    let last_executed_seconds = statement.borrow().inner.last_executed_seconds;
    Some(Upgraded {
        id,
        statement,
        base_instant,
        last_executed_seconds,
    })
}

fn wrap(statement: PreparedStatement) -> Created<Weak<Cell>, Cell> {
    let statement = Arc::new(RefCell::new(statement));
    Created {
        id: Arc::as_ptr(&statement) as u64,
        weak: Arc::downgrade(&statement),
        statement,
    }
}

fn refusal_of(status: tonic::Status) -> Refusal {
    let code = match status.code() {
        tonic::Code::InvalidArgument => Code::InvalidArgument,
        tonic::Code::FailedPrecondition => Code::FailedPrecondition,
        tonic::Code::Unavailable => Code::Unavailable,
        _ => Code::Unknown,
    };
    Refusal {
        code,
        message: status.message().to_owned(),
        status,
    }
}

struct Server {
    prepare_call_count: usize,
    execute_call_count: usize,
    next_prepare_token: &'static str,
    distinct_tokens: bool,
    next_prepare_ttl_secs: u64,
    should_expire_on_execute: bool,
    execute_always_expire: bool,
    expiry: fn(&'static str) -> tonic::Status,
    prepare_fail_count: usize,
    unreachable: bool,
    execute_delay: u64,
    prepared_requests: Vec<Outgoing<PrepareQueryRequest>>,
    executed_requests: Vec<Outgoing<ExecuteQueryRequest>>,
}

struct World {
    client: BigTable,
    cache: ClientStatementCache<Weak<Cell>, Cell>,
    server: Server,
    now: u64,
    unix_now: u64,
    timers: Vec<(RefreshTask, Weak<Cell>)>,
    retirements: Vec<(u64, Vec<u8>)>,
}

impl World {
    fn new() -> World {
        let connection = BigTableConnection::new_with_emulator(
            "127.0.0.1:9099",
            "mock-project",
            "mock-instance",
            false,
            1,
        );
        World {
            client: connection.client(None),
            cache: ClientStatementCache::new(),
            server: Server {
                prepare_call_count: 0,
                execute_call_count: 0,
                next_prepare_token: "initial_token",
                distinct_tokens: false,
                next_prepare_ttl_secs: 3600,
                should_expire_on_execute: false,
                execute_always_expire: false,
                expiry: |m| tonic::Status::failed_precondition(m),
                prepare_fail_count: 0,
                unreachable: false,
                execute_delay: 0,
                prepared_requests: Vec::new(),
                executed_requests: Vec::new(),
            },
            now: 5_000 * SECOND,
            unix_now: 1_700_000_000 * SECOND,
            timers: Vec::new(),
            retirements: Vec::new(),
        }
    }

    fn statement(&self, query: &str) -> Arc<Cell> {
        Arc::new(RefCell::new(PreparedStatement::new(
            query.to_string(),
            "default".to_string(),
            self.now,
        )))
    }

    /// Moves the clock at once and then wakes what is due.
    fn advance(&mut self, seconds: u64) {
        self.now += seconds * SECOND;
        self.unix_now += seconds * SECOND;
        self.wake();
    }

    /// Lets time pass, and wakes what is due when it is due.
    fn wait(&mut self, seconds: u64) {
        for _ in 0..seconds {
            self.advance(1);
        }
    }

    fn wake(&mut self) {
        let now = self.now;
        let (due, later): (Vec<_>, Vec<_>) = std::mem::take(&mut self.timers)
            .into_iter()
            .partition(|(task, _)| task.refresh_instant() <= now as u128);
        self.timers = later;
        for (task, weak) in due {
            self.refresh(task, weak);
        }
        let (over, running): (Vec<_>, Vec<_>) = std::mem::take(&mut self.retirements)
            .into_iter()
            .partition(|(at, _)| *at <= now);
        self.retirements = running;
        for (_, token) in over {
            self.cache.remove_token(&token);
        }
    }

    fn refresh(&mut self, task: RefreshTask, weak: Weak<Cell>) {
        let Some(statement) = self.awake(task, &weak) else {
            return;
        };
        let outgoing = task.begin(
            &statement.borrow(),
            self.client.instance_name(),
            self.now,
        );
        if let Some(outgoing) = outgoing {
            let reply = self.serve_prepare(outgoing);
            self.refreshed(task, &statement, reply);
        }
    }

    fn awake(&mut self, task: RefreshTask, weak: &Weak<Cell>) -> Option<Arc<Cell>> {
        let statement = weak.upgrade();
        let found = match &statement {
            Some(s) => task.wake(Some(&s.borrow()), self.now),
            None => task.wake(None, self.now),
        };
        if found == WakeUp::Refresh {
            statement
        } else {
            None
        }
    }

    fn refreshed(
        &mut self,
        task: RefreshTask,
        statement: &Arc<Cell>,
        reply: Result<PrepareQueryResponse, Refusal>,
    ) {
        let rotated = task.finish(
            &mut statement.borrow_mut(),
            &mut self.cache,
            Arc::downgrade(statement),
            reply,
            self.now,
            self.unix_now,
        );
        if let Some(rotated) = rotated {
            if let Some(token) = rotated.retire {
                self.retirements.push((self.now + TOKEN_GRACE, token));
            }
            self.timers.push((rotated.next, Arc::downgrade(statement)));
        }
    }

    fn serve_prepare(
        &mut self,
        outgoing: Outgoing<PrepareQueryRequest>,
    ) -> Result<PrepareQueryResponse, Refusal> {
        if self.server.unreachable {
            return Err(refusal_of(tonic::Status::unavailable("connection refused")));
        }
        self.server.prepare_call_count += 1;
        self.server.prepared_requests.push(outgoing);
        if self.server.prepare_fail_count > 0 {
            self.server.prepare_fail_count -= 1;
            return Err(refusal_of(tonic::Status::unavailable("Transient failure")));
        }
        let mut prepared_query = self.server.next_prepare_token.as_bytes().to_vec();
        if self.server.distinct_tokens {
            prepared_query.push(self.server.prepare_call_count as u8);
        }
        let until = self.unix_now + self.server.next_prepare_ttl_secs * SECOND;
        Ok(PrepareQueryResponse {
            prepared_query,
            valid_until: Some(Timestamp {
                seconds: (until / SECOND) as i64,
                nanos: (until % SECOND) as i32,
            }),
        })
    }

    fn serve_execute(&mut self, outgoing: Outgoing<ExecuteQueryRequest>) -> Result<(), Refusal> {
        if self.server.unreachable {
            return Err(refusal_of(tonic::Status::unavailable("connection refused")));
        }
        self.server.execute_call_count += 1;
        self.server.executed_requests.push(outgoing);
        self.wait(self.server.execute_delay);
        if self.server.execute_always_expire || self.server.should_expire_on_execute {
            self.server.should_expire_on_execute = false;
            return Err(refusal_of((self.server.expiry)(
                "PREPARED_QUERY_EXPIRED: the prepared query has expired",
            )));
        }
        Ok(())
    }

    fn get_or_prepare(&mut self, statement: &Arc<Cell>) -> Result<Arc<CompiledPlanState>, Error> {
        if let Some(plan) = statement.borrow_mut().get_or_prepare(self.now) {
            return Ok(plan);
        }
        self.get_or_prepare_under_lock(statement)
    }

    fn get_or_prepare_under_lock(
        &mut self,
        statement: &Arc<Cell>,
    ) -> Result<Arc<CompiledPlanState>, Error> {
        let step = statement.borrow().begin_prepare(
            &mut self.cache,
            Arc::downgrade(statement),
            self.client.instance_name(),
            self.now,
        )?;
        match step {
            PrepareStep::Ready(plan) => Ok(plan),
            PrepareStep::Send(outgoing) => {
                let reply = self.serve_prepare(outgoing);
                let prepared = statement.borrow_mut().prepare_query_rpc(
                    &mut self.cache,
                    Arc::downgrade(statement),
                    reply,
                    self.now,
                    self.unix_now,
                )?;
                self.timers
                    .push((prepared.refresh, Arc::downgrade(statement)));
                Ok(prepared.plan)
            }
        }
    }

    fn prepare_query(
        &mut self,
        request: PrepareQueryRequest,
    ) -> Result<PrepareQueryResponse, Error> {
        let got = self
            .client
            .prepare_query(&mut self.cache, &request, self.now, upgrade, wrap);
        let plan = self.get_or_prepare(&got.statement)?;
        Ok(BigTable::prepared_response(&plan, self.now, self.unix_now))
    }

    fn execute_query(&mut self, request: ExecuteQueryRequest) -> Result<(), Error> {
        let (mut call, mut action): (ExecuteQuery<Cell>, Action<Cell>) =
            self.client.execute_query(request);
        loop {
            if let Action::Done(result) = action {
                return result;
            }
            let event = self.perform(action);
            action = self.step(&mut call, event);
        }
    }

    fn perform(&mut self, action: Action<Cell>) -> Event {
        match action {
            Action::Continue => Event::Go,
            Action::Compile(request) => Event::Compiled(self.prepare_query(request)),
            Action::Send(outgoing) => match self.serve_execute(outgoing) {
                Ok(()) => Event::Accepted,
                Err(refusal) => Event::Refused(refusal),
            },
            Action::GetOrPrepare(statement) => Event::Plan(self.get_or_prepare(&statement)),
            Action::Done(_) => panic!("the call is over"),
        }
    }

    fn step(&mut self, call: &mut ExecuteQuery<Cell>, event: Event) -> Action<Cell> {
        let prefix = self.client.instance_name().to_owned();
        let step = match call.wants() {
            Some(statement) => call.step(
                &prefix,
                &mut self.cache,
                Some(&mut statement.borrow_mut()),
                event,
                self.now,
                upgrade,
            ),
            None => call.step(&prefix, &mut self.cache, None, event, self.now, upgrade),
        };
        step.action
    }

    /// Begins all the calls at once and takes them on in turn: each asks for its statement, finds
    /// no plan and queues for the statement's lock before any of them is compiled.
    fn stampede(&mut self, requests: Vec<ExecuteQueryRequest>) -> Vec<Arc<Cell>> {
        let mut waiting = Vec::new();
        for request in requests {
            let (call, action): (ExecuteQuery<Cell>, Action<Cell>) =
                self.client.execute_query(request);
            let prepare = match action {
                Action::Compile(prepare) => prepare,
                _ => panic!("expected a query to compile"),
            };
            let got = self
                .client
                .prepare_query(&mut self.cache, &prepare, self.now, upgrade, wrap);
            let plan = got.statement.borrow_mut().get_or_prepare(self.now);
            assert!(plan.is_none());
            waiting.push((call, got.statement));
        }
        let mut running = Vec::new();
        let mut statements = Vec::new();
        for (call, statement) in waiting {
            let plan = self.get_or_prepare_under_lock(&statement).unwrap();
            let response = BigTable::prepared_response(&plan, self.now, self.unix_now);
            running.push((call, Event::Compiled(Ok(response))));
            statements.push(statement);
        }
        let mut accepted = 0;
        while !running.is_empty() {
            let mut still = Vec::new();
            for (mut call, event) in running {
                let action = self.step(&mut call, event);
                if let Action::Done(result) = action {
                    result.unwrap();
                    accepted += 1;
                } else {
                    let event = self.perform(action);
                    still.push((call, event));
                }
            }
            running = still;
        }
        assert_eq!(accepted, statements.len());
        statements
    }

    fn execute(
        &mut self,
        statement: &Arc<Cell>,
        params: Vec<(String, Value)>,
    ) -> Result<(), Error> {
        statement.borrow_mut().mark_used(self.now);
        let plan = self.get_or_prepare(statement)?;
        let request = statement
            .borrow()
            .execute(self.client.instance_name(), &plan, params);
        self.execute_query(request)
    }

    fn execute_with_retry(
        &mut self,
        statement: &Arc<Cell>,
        params: Vec<(String, Value)>,
    ) -> Result<(), Error> {
        let mut retry_count: u32 = 0;
        loop {
            statement.borrow_mut().mark_used(self.now);
            let plan = self.get_or_prepare(statement)?;
            let request = statement.borrow().execute(
                self.client.instance_name(),
                &plan,
                duplicate_params(&params),
            );
            match self.execute_query(request) {
                Err(Error::RpcError(status)) => {
                    retry_count = statement.borrow_mut().execute_with_retry(
                        &mut self.cache,
                        &plan,
                        refusal_of(status),
                        retry_count,
                    )?;
                }
                other => return other,
            }
        }
    }

    fn lookup_by_query(&mut self, query: &str, app_profile_id: &str) -> Option<Arc<Cell>> {
        self.cache
            .lookup_by_query(query, app_profile_id, self.now, upgrade)
            .statement
    }

    fn lookup_by_token(&mut self, token: &str) -> Option<Arc<Cell>> {
        self.cache
            .lookup_by_token(&token.as_bytes().to_vec(), self.now, upgrade)
            .statement
    }

    fn raw(&self, query: &str, params: Vec<(String, Value)>) -> ExecuteQueryRequest {
        ExecuteQueryRequest {
            instance_name: self.client.instance_name().to_string(),
            app_profile_id: "default".to_string(),
            query: query.to_string(),
            prepared_query: Vec::new(),
            resume_token: Vec::new(),
            params,
            data_format: None,
        }
    }

    fn without_profile(&self, query: &str, params: Vec<(String, Value)>) -> ExecuteQueryRequest {
        ExecuteQueryRequest {
            instance_name: "projects/mock-project/instances/mock-instance".to_string(),
            app_profile_id: String::new(),
            ..self.raw(query, params)
        }
    }

    fn by_token(&self, token: &str, params: Vec<(String, Value)>) -> ExecuteQueryRequest {
        ExecuteQueryRequest {
            prepared_query: token.as_bytes().to_vec(),
            ..self.raw("", params)
        }
    }

    fn to_prepare(&self, query: &str, app_profile_id: &str) -> PrepareQueryRequest {
        PrepareQueryRequest {
            instance_name: self.client.instance_name().to_string(),
            app_profile_id: app_profile_id.to_string(),
            query: query.to_string(),
            param_types: vec![("param1".to_string(), Type::of(TypeKind::StringType))],
            data_format: None,
        }
    }

    fn last_token_sent(&self) -> Vec<u8> {
        self.server
            .executed_requests
            .last()
            .unwrap()
            .request
            .prepared_query
            .clone()
    }
}

fn token_of(statement: &Arc<Cell>) -> Vec<u8> {
    let plan = statement.borrow().plan_state().load_full().unwrap();
    plan.plan_token.clone()
}

fn value(kind: Option<Kind>) -> Value {
    Value {
        kind,
        declared_type: None,
    }
}

fn param1() -> Vec<(String, Value)> {
    vec![(
        "param1".to_string(),
        value(Some(Kind::StringValue("val1".to_string()))),
    )]
}

fn failed_param(result: Result<(), Error>) -> (String, String) {
    match result {
        Err(Error::ParameterTypeInferenceFailed(field, msg)) => (field, msg),
        other => panic!("expected ParameterTypeInferenceFailed, got: {:?}", other),
    }
}

#[test]
fn test_prepared_statement_singleflight() {
    let mut world = World::new();
    let stmt = world.statement("SELECT * FROM table");
    for _ in 0..50 {
        assert!(stmt.borrow_mut().get_or_prepare(world.now).is_none());
    }
    for _ in 0..50 {
        let plan = world.get_or_prepare_under_lock(&stmt).unwrap();
        assert_eq!(plan.plan_token, b"initial_token");
    }
    assert_eq!(world.server.prepare_call_count, 1);
}

#[test]
fn test_prepared_statement_reactive_retry() {
    let mut world = World::new();
    let stmt = world.statement("SELECT * FROM table");
    let plan = world.get_or_prepare(&stmt).unwrap();
    assert_eq!(plan.plan_token, b"initial_token");

    world.server.next_prepare_token = "new_token";
    world.server.should_expire_on_execute = true;
    world.execute_with_retry(&stmt, Vec::new()).unwrap();

    assert_eq!(token_of(&stmt), b"new_token");
    assert_eq!(world.server.prepare_call_count, 2);
    assert_eq!(world.server.execute_call_count, 2);
}

#[test]
fn test_proactive_background_refresh_rotation() {
    let mut world = World::new();
    let stmt = world.statement("SELECT * FROM table");
    world.server.next_prepare_ttl_secs = 30;
    world.execute_with_retry(&stmt, Vec::new()).unwrap();
    assert_eq!(token_of(&stmt), b"initial_token");
    assert_eq!(world.server.prepare_call_count, 1);

    world.server.next_prepare_token = "token_v2";
    world.advance(22);
    world.execute_with_retry(&stmt, Vec::new()).unwrap();
    world.advance(3);
    assert_eq!(token_of(&stmt), b"token_v2");
    assert_eq!(world.server.prepare_call_count, 2);
}

#[test]
fn test_prepared_statement_idle_pollution_guard() {
    let mut world = World::new();
    let stmt = world.statement("SELECT * FROM table");
    world.server.next_prepare_ttl_secs = 3600;
    let plan_v1 = world.get_or_prepare(&stmt).unwrap();
    assert_eq!(plan_v1.plan_token, b"initial_token");

    world.server.next_prepare_token = "token_v2";
    world.advance(3541);
    world.wait(10);
    assert_eq!(token_of(&stmt), b"initial_token");
    assert_eq!(world.server.prepare_call_count, 1);
}

#[test]
fn test_client_transparent_raw_query_caching() {
    let mut world = World::new();
    for _ in 0..5 {
        let request = world.raw(SQL, param1());
        world.execute_query(request).unwrap();
    }
    assert_eq!(world.server.prepare_call_count, 1);
    assert_eq!(world.server.execute_call_count, 5);
}

#[test]
fn test_client_prepare_bind_execute() {
    let mut world = World::new();
    let prepare_resp = world
        .prepare_query(world.to_prepare(SQL, "default"))
        .unwrap();
    assert_eq!(prepare_resp.prepared_query, b"initial_token");
    world
        .execute_query(world.by_token("initial_token", param1()))
        .unwrap();
    assert_eq!(world.server.prepare_call_count, 1);
    assert_eq!(world.server.execute_call_count, 1);
}

#[test]
fn test_client_proactive_refresh_under_paused_time() {
    let mut world = World::new();
    world.server.next_prepare_ttl_secs = 30;
    world.execute_query(world.raw(SQL, param1())).unwrap();
    assert_eq!(world.server.prepare_call_count, 1);

    world.server.next_prepare_token = "token_v2";
    world.advance(22);
    world.execute_query(world.raw(SQL, param1())).unwrap();
    world.advance(3);
    assert!(world.lookup_by_token("token_v2").is_some());
}

#[test]
fn test_client_reactive_invalidation_and_retry() {
    let mut world = World::new();
    world.execute_query(world.raw(SQL, param1())).unwrap();
    assert_eq!(world.server.prepare_call_count, 1);

    world.server.next_prepare_token = "refreshed_token";
    world.server.should_expire_on_execute = true;
    world.execute_query(world.raw(SQL, param1())).unwrap();
    assert_eq!(world.server.prepare_call_count, 2);
    assert_eq!(world.server.execute_call_count, 3);
    assert!(world.lookup_by_token("refreshed_token").is_some());
}

#[test]
fn test_client_raw_query_transparent_caching() {
    let mut world = World::new();
    for _ in 0..5 {
        world.execute_query(world.raw(SQL, param1())).unwrap();
        world.advance(20);
    }
    assert_eq!(world.server.prepare_call_count, 1);
    assert_eq!(world.server.execute_call_count, 5);
}

#[test]
fn test_client_raw_query_proactive_refresh() {
    let mut world = World::new();
    world.server.next_prepare_ttl_secs = 30;
    world.execute_query(world.raw(SQL, param1())).unwrap();
    assert_eq!(world.server.prepare_call_count, 1);

    world.server.next_prepare_token = "token_v2";
    world.advance(22);
    world.execute_query(world.raw(SQL, param1())).unwrap();
    world.advance(3);
    assert!(world.lookup_by_token("token_v2").is_some());

    world.execute_query(world.raw(SQL, param1())).unwrap();
    assert_eq!(world.last_token_sent(), b"token_v2");
}

#[test]
fn test_client_raw_query_reactive_retry() {
    let mut world = World::new();
    world.execute_query(world.raw(SQL, param1())).unwrap();
    assert_eq!(world.server.prepare_call_count, 1);

    world.server.next_prepare_token = "refreshed_token";
    world.server.should_expire_on_execute = true;
    world.execute_query(world.raw(SQL, param1())).unwrap();
    assert_eq!(world.server.prepare_call_count, 2);
    assert_eq!(world.server.execute_call_count, 3);
    assert!(world.lookup_by_token("refreshed_token").is_some());
    assert!(world.lookup_by_token("initial_token").is_none());
}

#[test]
fn test_concurrency_singleflight_stampede() {
    let mut world = World::new();
    let requests = (0..50).map(|_| world.raw(SQL, param1())).collect();
    let statements = world.stampede(requests);
    for statement in &statements {
        assert!(Arc::ptr_eq(statement, &statements[0]));
    }
    assert_eq!(world.server.prepare_call_count, 1);
    assert_eq!(world.server.execute_call_count, 50);
}

#[test]
fn test_ttl_safety_floor_override() {
    let mut world = World::new();
    world.server.next_prepare_ttl_secs = 2;
    let stmt = world.statement("SELECT * FROM table");
    let start_time = world.now;
    let plan = world.get_or_prepare(&stmt).unwrap();
    assert_eq!(plan.expires_at - start_time as u128, 10 * SECOND as u128);
}

#[test]
fn test_token_pruning_leak_safety() {
    let mut world = World::new();
    world.server.next_prepare_ttl_secs = 30;
    world.execute_query(world.raw(SQL, param1())).unwrap();
    assert!(world.lookup_by_token("initial_token").is_some());

    world.server.next_prepare_token = "token_v2";
    world.advance(22);
    world.execute_query(world.raw(SQL, param1())).unwrap();
    world.advance(3);
    assert!(world.lookup_by_token("token_v2").is_some());
    assert!(world.lookup_by_token("initial_token").is_some());

    world.advance(11);
    assert!(world.lookup_by_token("initial_token").is_none());
    assert!(world.lookup_by_token("token_v2").is_some());
}

#[test]
fn test_weak_reference_cleanup_and_lru() {
    let mut world = World::new();
    world.server.next_prepare_ttl_secs = 30;
    let query = "SELECT * FROM table WHERE id = 1";
    world.execute_query(world.raw(query, param1())).unwrap();
    let weak_stmt = Arc::downgrade(&world.lookup_by_query(query, "default").unwrap());
    assert!(weak_stmt.upgrade().is_some());

    let held = world.cache.active_lru.clear();
    assert_eq!(held.len(), 1);
    assert_eq!(world.cache.active_lru.len(), 0);
    drop(held);
    assert!(weak_stmt.upgrade().is_none());
    world.advance(24);
    assert_eq!(world.server.prepare_call_count, 1);
    assert!(world.lookup_by_query(query, "default").is_none());

    for i in 0..1005 {
        let unique_query = format!("SELECT * FROM table WHERE id = {}", i);
        let now = world.now;
        world.cache.get_or_insert_query(
            &unique_query,
            "default",
            now,
            upgrade,
            || wrap(PreparedStatement::new(unique_query.clone(), "default".to_string(), now)),
        );
    }
    assert_eq!(world.cache.active_lru.len(), 1000);
    assert!(world
        .lookup_by_query("SELECT * FROM table WHERE id = 4", "default")
        .is_none());
    assert!(world
        .lookup_by_query("SELECT * FROM table WHERE id = 5", "default")
        .is_some());
}

#[test]
fn test_client_prepare_bind_execute_basic() {
    let mut world = World::new();
    let prepare_resp = world
        .prepare_query(world.to_prepare(SQL, "default"))
        .unwrap();
    assert_eq!(prepare_resp.prepared_query, b"initial_token");
    assert!(world.lookup_by_query(SQL, "default").is_some());
    assert!(world.lookup_by_token("initial_token").is_some());
    world
        .execute_query(world.by_token("initial_token", param1()))
        .unwrap();
    assert_eq!(world.server.prepare_call_count, 1);
    assert_eq!(world.server.execute_call_count, 1);
}

#[test]
fn test_client_prepare_bind_execute_transparent_swap() {
    let mut world = World::new();
    world.server.next_prepare_ttl_secs = 30;
    let prepare_resp = world
        .prepare_query(world.to_prepare(SQL, "default"))
        .unwrap();
    assert_eq!(prepare_resp.prepared_query, b"initial_token");

    world.server.next_prepare_token = "token_v2";
    world.advance(22);
    world
        .execute_query(world.by_token("initial_token", param1()))
        .unwrap();
    world.advance(1);
    world
        .execute_query(world.by_token("initial_token", param1()))
        .unwrap();
    world.advance(2);
    assert!(world.lookup_by_token("token_v2").is_some());

    world.server.executed_requests.clear();
    world
        .execute_query(world.by_token("initial_token", param1()))
        .unwrap();
    assert_eq!(world.server.executed_requests.len(), 1);
    assert_eq!(world.last_token_sent(), b"token_v2");
}

#[test]
fn test_client_prepare_bind_execute_reactive_retry() {
    let mut world = World::new();
    let prepare_resp = world
        .prepare_query(world.to_prepare(SQL, "default"))
        .unwrap();
    assert_eq!(prepare_resp.prepared_query, b"initial_token");

    world.server.next_prepare_token = "refreshed_token";
    world.server.should_expire_on_execute = true;
    world
        .execute_query(world.by_token("initial_token", param1()))
        .unwrap();
    assert_eq!(world.server.prepare_call_count, 2);
    assert_eq!(world.server.execute_call_count, 2);
    assert!(world.lookup_by_token("refreshed_token").is_some());
    assert!(world.lookup_by_token("initial_token").is_none());
}

#[test]
fn test_use_case_a_populates_cache_for_use_case_b() {
    let mut world = World::new();
    let sql = "SELECT * FROM table WHERE id = @id";
    let stmt = world.statement(sql);
    let plan = world.get_or_prepare(&stmt).unwrap();
    assert_eq!(plan.plan_token, b"initial_token");
    assert_eq!(world.server.prepare_call_count, 1);
    assert!(world.lookup_by_query(sql, "default").is_some());

    let params = vec![("id".to_string(), value(Some(Kind::IntValue(42))))];
    world.execute_query(world.raw(sql, params)).unwrap();
    assert_eq!(world.server.prepare_call_count, 1);
}

#[test]
fn test_execute_query_with_prepare_disabled_skips_prepare() {
    let mut world = World::new();
    world.client.set_execute_query_with_prepare_disabled(true);
    world.execute_query(world.raw(SQL, param1())).unwrap();
    assert_eq!(world.server.prepare_call_count, 0);
    assert_eq!(world.server.execute_call_count, 1);
    let sent = &world.server.executed_requests[0].request;
    assert_eq!(sent.query, SQL);
    assert!(sent.prepared_query.is_empty());
}

#[test]
fn test_prepared_statement_execute_non_retry() {
    let mut world = World::new();
    let stmt = world.statement("SELECT * FROM table");
    world.execute(&stmt, Vec::new()).unwrap();
    assert_eq!(world.server.prepare_call_count, 1);
    assert_eq!(world.server.execute_call_count, 1);
    world.execute(&stmt, Vec::new()).unwrap();
    assert_eq!(world.server.prepare_call_count, 1);
    assert_eq!(world.server.execute_call_count, 2);
}

#[test]
fn test_execute_query_expired_token_unknown_to_cache_returns_error() {
    let mut world = World::new();
    world.server.should_expire_on_execute = true;
    let result = world.execute_query(world.by_token("token-from-another-client", Vec::new()));
    assert!(matches!(
        result,
        Err(Error::RpcError(status)) if status.code() == tonic::Code::FailedPrecondition
    ));
    assert_eq!(world.server.prepare_call_count, 0);
    assert_eq!(world.server.execute_call_count, 1);
}

#[test]
fn test_execute_query_raw_sql_without_params_skips_prepare() {
    let mut world = World::new();
    world
        .execute_query(world.raw("SELECT COUNT(*) FROM table", Vec::new()))
        .unwrap();
    assert_eq!(world.server.prepare_call_count, 0);
    assert_eq!(world.server.execute_call_count, 1);
}

#[test]
fn test_prepared_statement_with_parameter_types_compiles_and_executes() {
    let mut world = World::new();
    let stmt = Arc::new(RefCell::new(PreparedStatement::with_parameter_types(
        "SELECT * FROM table WHERE id = @id".to_string(),
        "default".to_string(),
        vec![
            ("id".to_string(), SqlType::Int64),
            ("label".to_string(), SqlType::String),
            ("score".to_string(), SqlType::Float64),
        ],
        world.now,
    )));
    let plan = world.get_or_prepare(&stmt).unwrap();
    assert_eq!(plan.plan_token, b"initial_token");
    assert_eq!(world.server.prepare_call_count, 1);
    let sent = &world.server.prepared_requests[0];
    assert_eq!(
        sent.request.instance_name,
        "projects/mock-project/instances/mock-instance"
    );
    assert_eq!(sent.request.query, "SELECT * FROM table WHERE id = @id");
    assert_eq!(sent.request.app_profile_id, "default");
    let types = &sent.request.param_types;
    assert_eq!(types.len(), 3);
    assert_eq!(types[0].0, "id");
    assert!(matches!(types[0].1.kind, Some(TypeKind::Int64Type)));
    assert_eq!(types[1].0, "label");
    assert!(matches!(types[1].1.kind, Some(TypeKind::StringType)));
    assert_eq!(types[2].0, "score");
    assert!(matches!(types[2].1.kind, Some(TypeKind::Float64Type)));
    assert_eq!(
        sent.request_params.as_deref(),
        Some(&b"name=projects/mock-project/instances/mock-instance&app_profile_id=default"[..])
    );

    let plan2 = world.get_or_prepare(&stmt).unwrap();
    assert_eq!(plan2.plan_token, b"initial_token");
    assert_eq!(world.server.prepare_call_count, 1);
}

#[test]
fn test_get_or_prepare_recompiles_when_client_side_expires_at_passes() {
    let mut world = World::new();
    let stmt = world.statement("SELECT * FROM table");
    let plan_v1 = world.get_or_prepare(&stmt).unwrap();
    assert_eq!(plan_v1.plan_token, b"initial_token");
    assert_eq!(world.server.prepare_call_count, 1);

    let expired_plan = Arc::new(CompiledPlanState {
        plan_token: b"initial_token".to_vec(),
        expires_at: (world.now - SECOND) as u128,
    });
    stmt.borrow_mut()
        .inner
        .plan_state
        .store(Some(expired_plan));

    world.server.next_prepare_token = "recompiled_token";
    let plan_v2 = world.get_or_prepare(&stmt).unwrap();
    assert_eq!(plan_v2.plan_token, b"recompiled_token");
    assert_eq!(world.server.prepare_call_count, 2);
}

#[test]
fn test_execute_query_float_param_without_explicit_type_returns_inference_error() {
    let mut world = World::new();
    let params = vec![(
        "score".to_string(),
        value(Some(Kind::FloatValue(1.5f64.to_bits()))),
    )];
    let (field, msg) = failed_param(world.execute_query(world.raw("SELECT @score", params)));
    assert_eq!(field, "score");
    assert!(msg.contains("float"));
    assert_eq!(world.server.prepare_call_count, 0);
}

#[test]
fn test_execute_query_null_param_without_explicit_type_returns_inference_error() {
    let mut world = World::new();
    let params = vec![("optional_field".to_string(), value(None))];
    let (field, msg) =
        failed_param(world.execute_query(world.raw("SELECT @optional_field", params)));
    assert_eq!(field, "optional_field");
    assert!(msg.contains("Null/None"));
    assert_eq!(world.server.prepare_call_count, 0);
}

#[test]
fn test_execute_query_array_param_without_explicit_type_returns_inference_error() {
    let mut world = World::new();
    let params = vec![("arr".to_string(), value(Some(Kind::ArrayValue(Vec::new()))))];
    let (field, msg) = failed_param(world.execute_query(world.raw("SELECT @arr", params)));
    assert_eq!(field, "arr");
    assert!(msg.contains("ARRAY"));
    assert_eq!(world.server.prepare_call_count, 0);
}

#[test]
fn test_execute_query_explicit_with_type_bypasses_inference_guard() {
    let mut world = World::new();
    let params = vec![
        (
            "float_param".to_string(),
            value(Some(Kind::FloatValue(1.5f64.to_bits()))).with_type(SqlType::Float64),
        ),
        (
            "null_param".to_string(),
            value(None).with_type(SqlType::String),
        ),
        (
            "array_param".to_string(),
            value(Some(Kind::ArrayValue(Vec::new())))
                .with_type(SqlType::Array(Box::new(SqlType::Int64))),
        ),
    ];
    world
        .execute_query(world.raw("SELECT @float_param, @null_param, @array_param", params))
        .unwrap();
    assert_eq!(world.server.prepare_call_count, 1);
    assert_eq!(world.server.execute_call_count, 1);
}

#[test]
fn test_prepare_query_different_app_profile_ids_get_independent_cache_entries() {
    let mut world = World::new();
    let sql = "SELECT * FROM table WHERE id = @id";
    world.server.next_prepare_token = "token_a";
    let resp_a = world
        .prepare_query(world.to_prepare(sql, "profile_a"))
        .unwrap();
    assert_eq!(resp_a.prepared_query, b"token_a");
    assert_eq!(world.server.prepare_call_count, 1);

    world.server.next_prepare_token = "token_b";
    let resp_b = world
        .prepare_query(world.to_prepare(sql, "profile_b"))
        .unwrap();
    assert_eq!(resp_b.prepared_query, b"token_b");
    assert_eq!(world.server.prepare_call_count, 2);

    assert!(world.lookup_by_query(sql, "profile_a").is_some());
    assert!(world.lookup_by_query(sql, "profile_b").is_some());

    let resp_a2 = world
        .prepare_query(world.to_prepare(sql, "profile_a"))
        .unwrap();
    assert_eq!(resp_a2.prepared_query, b"token_a");
    assert_eq!(world.server.prepare_call_count, 2);
}

#[test]
fn test_concurrent_stampede_different_app_profiles() {
    let mut world = World::new();
    let mut requests = Vec::new();
    for profile in ["profile_a", "profile_b"] {
        for _ in 0..25 {
            let params = vec![(
                "id".to_string(),
                value(Some(Kind::StringValue("val".to_string()))),
            )];
            let mut request = world.raw("SELECT * FROM table WHERE id = @id", params);
            request.app_profile_id = profile.to_string();
            requests.push(request);
        }
    }
    let statements = world.stampede(requests);
    for (i, statement) in statements.iter().enumerate() {
        assert!(Arc::ptr_eq(statement, &statements[i / 25 * 25]));
    }
    assert!(!Arc::ptr_eq(&statements[0], &statements[25]));
    assert_eq!(world.server.prepare_call_count, 2);
    assert_eq!(world.server.execute_call_count, 50);
}

#[test]
fn test_concurrent_stampede_on_expired_token_recovery() {
    let mut world = World::new();
    let stmt = world.statement("SELECT * FROM table");
    let plan = world.get_or_prepare(&stmt).unwrap();
    assert_eq!(plan.plan_token, b"initial_token");
    assert_eq!(world.server.prepare_call_count, 1);

    let expired_plan = Arc::new(CompiledPlanState {
        plan_token: b"initial_token".to_vec(),
        expires_at: (world.now - SECOND) as u128,
    });
    stmt.borrow_mut()
        .inner
        .plan_state
        .store(Some(expired_plan));

    world.server.next_prepare_token = "recompiled_token";
    for _ in 0..50 {
        assert!(stmt.borrow_mut().get_or_prepare(world.now).is_none());
    }
    for _ in 0..50 {
        let p = world.get_or_prepare_under_lock(&stmt).unwrap();
        assert_eq!(p.plan_token, b"recompiled_token");
    }
    assert_eq!(world.server.prepare_call_count, 2);
}

#[test]
fn test_persistent_expired_plan_bubbles_error() {
    let mut world = World::new();
    let stmt = world.statement("SELECT * FROM table");
    world.server.execute_always_expire = true;
    let res = world.execute_with_retry(&stmt, Vec::new());
    assert!(res.is_err());
    assert_eq!(world.server.prepare_call_count, 9);
    assert_eq!(world.server.execute_call_count, 9);
}

#[test]
fn persistent_expiry_keeps_plans_with_new_tokens_for_the_next_call() {
    let mut world = World::new();
    let stmt = world.statement("SELECT * FROM table");
    world.server.execute_always_expire = true;
    world.server.distinct_tokens = true;
    let res = world.execute_with_retry(&stmt, Vec::new());
    assert!(matches!(
        res,
        Err(Error::RpcError(status)) if status.code() == tonic::Code::FailedPrecondition
    ));
    assert_eq!(world.server.execute_call_count, 9);
    assert_eq!(world.server.prepare_call_count, 7);
}

#[test]
fn a_plan_is_given_until_it_expires() {
    let mut world = World::new();
    world.server.next_prepare_ttl_secs = 100;
    let stmt = world.statement(SQL);
    world.get_or_prepare(&stmt).unwrap();
    world.timers.clear();
    world.advance(99);
    assert!(stmt.borrow_mut().get_or_prepare(world.now).is_some());
    world.advance(1);
    assert!(stmt.borrow_mut().get_or_prepare(world.now).is_none());
}

#[test]
fn test_transient_compilation_failure_recovery() {
    let mut world = World::new();
    let stmt = world.statement("SELECT * FROM table");
    world.server.prepare_fail_count = 1;
    let res1 = world.get_or_prepare(&stmt);
    assert!(matches!(
        res1,
        Err(Error::RpcError(status)) if status.message() == "Transient failure"
    ));
    let res2 = world.get_or_prepare(&stmt);
    assert_eq!(res2.unwrap().plan_token, b"initial_token");
    assert_eq!(world.server.prepare_call_count, 2);
}

#[test]
fn test_proactive_refresh_slow_network_response() {
    let mut world = World::new();
    world.server.next_prepare_ttl_secs = 30;
    let stmt = world.statement("SELECT * FROM table");
    world.execute_with_retry(&stmt, Vec::new()).unwrap();
    assert_eq!(token_of(&stmt), b"initial_token");
    assert_eq!(world.server.prepare_call_count, 1);

    world.server.next_prepare_token = "token_v2";
    world.advance(22);
    world.execute_with_retry(&stmt, Vec::new()).unwrap();
    let (task, weak) = world.timers.pop().unwrap();
    world.advance(3);
    assert!(task.refresh_instant() <= world.now as u128);

    // The renewal holds the statement's lock while its request is under way.
    let refreshing = world.awake(task, &weak).unwrap();
    let outgoing = task
        .begin(
            &refreshing.borrow(),
            "projects/mock-project/instances/mock-instance",
            world.now,
        )
        .unwrap();
    let reply = world.serve_prepare(outgoing);
    assert_eq!(world.server.prepare_call_count, 2);

    // The plan expires meanwhile, and another caller queues for the lock.
    world.advance(7);
    assert!(stmt.borrow_mut().get_or_prepare(world.now).is_none());

    world.advance(3);
    world.refreshed(task, &refreshing, reply);
    let plan = world.get_or_prepare_under_lock(&stmt).unwrap();
    assert_eq!(plan.plan_token, b"token_v2");
    assert_eq!(world.server.prepare_call_count, 2);
}

#[test]
fn test_proactive_refresh_pruning_after_reactive_retry() {
    let mut world = World::new();
    world.server.next_prepare_ttl_secs = 30;
    let stmt = world.statement("SELECT * FROM table");
    world.execute_with_retry(&stmt, Vec::new()).unwrap();

    world.advance(19);
    world.server.next_prepare_token = "reactive_token";
    world.server.next_prepare_ttl_secs = 3600;
    world.server.should_expire_on_execute = true;
    world.execute_with_retry(&stmt, Vec::new()).unwrap();
    assert_eq!(token_of(&stmt), b"reactive_token");

    world.advance(10);
    assert_eq!(token_of(&stmt), b"reactive_token");
    assert_eq!(world.server.prepare_call_count, 2);
}

#[test]
fn test_execute_query_slow_response_does_not_cause_idle_guard_false_positive() {
    let mut world = World::new();
    world.server.next_prepare_ttl_secs = 30;
    let sql = "SELECT * FROM table WHERE id = @id";
    let params = || vec![("id".to_string(), value(Some(Kind::IntValue(1))))];
    world.execute_query(world.raw(sql, params())).unwrap();
    assert_eq!(world.server.prepare_call_count, 1);

    world.server.next_prepare_token = "token_v2";
    world.server.execute_delay = 10;
    world.advance(22);
    world.execute_query(world.raw(sql, params())).unwrap();
    world.server.execute_delay = 0;
    world.advance(3);
    assert!(world.lookup_by_token("token_v2").is_some());
    assert_eq!(world.server.prepare_call_count, 2);
}

#[test]
fn an_answer_counts_as_a_use() {
    let mut world = World::new();
    let stmt = world.statement("SELECT * FROM table");
    world.server.execute_delay = 7;
    world.execute(&stmt, Vec::new()).unwrap();
    assert_eq!(stmt.borrow().inner.last_executed_seconds, 7);
    world.server.should_expire_on_execute = true;
    world.server.execute_always_expire = true;
    assert!(world.execute(&stmt, Vec::new()).is_err());
    assert_eq!(stmt.borrow().inner.last_executed_seconds, 7 + 2 * 7);
}

#[test]
fn test_disable_sql_prepare_environment_variable() {
    let mut world = World::new();
    let connection = BigTableConnection::new_with_emulator(
        "127.0.0.1:50051",
        "mock-project",
        "mock-instance",
        false,
        1,
    );
    world.client = connection.client(Some("true"));
    let params = vec![(
        "param".to_string(),
        value(Some(Kind::StringValue("val".to_string()))),
    )];
    world
        .execute_query(world.raw("SELECT * FROM table WHERE val = @param", params))
        .unwrap();
    assert_eq!(world.server.prepare_call_count, 0);
    assert_eq!(world.server.execute_call_count, 1);
}

#[test]
fn test_stable_scalar_inference() {
    let mut world = World::new();
    world.server.unreachable = true;
    let params = vec![
        (
            "string_param".to_string(),
            value(Some(Kind::StringValue("test-string".to_string()))),
        ),
        ("int_param".to_string(), value(Some(Kind::IntValue(12345)))),
        ("bool_param".to_string(), value(Some(Kind::BoolValue(true)))),
    ];
    let err = world
        .execute_query(world.without_profile("SELECT * FROM my_table WHERE col = @string_param", params))
        .unwrap_err();
    assert!(!matches!(err, Error::ParameterTypeInferenceFailed(_, _)));
    assert!(matches!(err, Error::RpcError(_)));
}

#[test]
fn test_explicit_type_bypass() {
    let mut world = World::new();
    world.server.unreachable = true;
    let params = vec![
        (
            "float_param".to_string(),
            value(Some(Kind::FloatValue(123.45f64.to_bits()))).with_type(SqlType::Float64),
        ),
        (
            "null_param".to_string(),
            value(None).with_type(SqlType::String),
        ),
        (
            "array_param".to_string(),
            value(Some(Kind::ArrayValue(Vec::new())))
                .with_type(SqlType::Array(Box::new(SqlType::Int64))),
        ),
    ];
    let err = world
        .execute_query(world.without_profile("SELECT @float_param, @null_param, @array_param", params))
        .unwrap_err();
    assert!(!matches!(err, Error::ParameterTypeInferenceFailed(_, _)));
}

#[test]
fn test_safeguard_null_inference_rejection() {
    let mut world = World::new();
    let params = vec![("bad_null".to_string(), value(None))];
    let (field, msg) = failed_param(world.execute_query(world.without_profile("SELECT @bad_null", params)));
    assert_eq!(field, "bad_null");
    assert!(msg.contains("Null/None"));
}

#[test]
fn test_safeguard_float_inference_rejection() {
    let mut world = World::new();
    let params = vec![(
        "bad_float".to_string(),
        value(Some(Kind::FloatValue(123.45f64.to_bits()))),
    )];
    let (field, msg) = failed_param(world.execute_query(world.without_profile("SELECT @bad_float", params)));
    assert_eq!(field, "bad_float");
    assert!(msg.contains("float"));
}

#[test]
fn test_safeguard_array_inference_rejection() {
    let mut world = World::new();
    let params = vec![(
        "bad_array".to_string(),
        value(Some(Kind::ArrayValue(Vec::new()))),
    )];
    let (field, msg) = failed_param(world.execute_query(world.without_profile("SELECT @bad_array", params)));
    assert_eq!(field, "bad_array");
    assert!(msg.contains("ARRAY"));
}

#[test]
fn test_safeguard_struct_inference_rejection() {
    let mut world = World::new();
    let params = vec![(
        "bad_struct".to_string(),
        value(Some(Kind::ArrayValue(Vec::new()))),
    )];
    let (field, msg) = failed_param(world.execute_query(world.without_profile("SELECT @bad_struct", params)));
    assert_eq!(field, "bad_struct");
    assert!(msg.contains("STRUCT"));
}

#[test]
fn test_explicit_struct_type_bypass() {
    let mut world = World::new();
    world.server.unreachable = true;
    let params = vec![(
        "struct_param".to_string(),
        value(Some(Kind::ArrayValue(Vec::new()))).with_type(SqlType::Struct(vec![
            ("name".to_string(), SqlType::String),
            ("age".to_string(), SqlType::Int64),
        ])),
    )];
    let err = world
        .execute_query(world.without_profile("SELECT @struct_param", params))
        .unwrap_err();
    assert!(!matches!(err, Error::ParameterTypeInferenceFailed(_, _)));
}

#[test]
fn test_explicit_map_type_bypass() {
    let mut world = World::new();
    world.server.unreachable = true;
    let params = vec![(
        "map_param".to_string(),
        value(Some(Kind::ArrayValue(Vec::new()))).with_type(SqlType::MapOf {
            key_type: Box::new(SqlType::String),
            value_type: Box::new(SqlType::Int64),
        }),
    )];
    let err = world
        .execute_query(world.without_profile("SELECT @map_param", params))
        .unwrap_err();
    assert!(!matches!(err, Error::ParameterTypeInferenceFailed(_, _)));
}

#[test]
fn an_expired_plan_is_recognised_under_either_code() {
    let expiries: [fn(&'static str) -> tonic::Status; 2] = [
        |m| tonic::Status::failed_precondition(m),
        |m| tonic::Status::invalid_argument(m),
    ];
    for expiry in expiries {
        let mut world = World::new();
        world.server.expiry = expiry;
        world.execute_query(world.raw(SQL, param1())).unwrap();
        world.server.should_expire_on_execute = true;
        world.server.next_prepare_token = "second";
        world.execute_query(world.raw(SQL, param1())).unwrap();
        assert_eq!(world.last_token_sent(), b"second");
        assert_eq!(world.server.execute_call_count, 3);
    }
}

#[test]
fn other_refusals_end_the_call_at_once() {
    let mut world = World::new();
    world.server.expiry = |m| tonic::Status::unavailable(m);
    world.server.execute_always_expire = true;
    let result = world.execute_query(world.raw(SQL, param1()));
    assert!(matches!(
        result,
        Err(Error::RpcError(status)) if status.code() == tonic::Code::Unavailable
    ));
    assert_eq!(world.server.execute_call_count, 1);
    assert_eq!(world.server.prepare_call_count, 1);
    assert!(world.lookup_by_token("initial_token").is_some());
}

#[test]
fn a_call_is_sent_three_times_at_most() {
    let mut world = World::new();
    world.server.execute_always_expire = true;
    let result = world.execute_query(world.raw(SQL, param1()));
    assert!(matches!(result, Err(Error::RpcError(_))));
    assert_eq!(world.server.execute_call_count, 3);
    assert_eq!(world.server.prepare_call_count, 3);
}

#[test]
fn a_call_fails_where_the_statement_cannot_be_compiled_anew() {
    let mut world = World::new();
    world.execute_query(world.raw(SQL, param1())).unwrap();
    world.server.should_expire_on_execute = true;
    world.server.prepare_fail_count = 1;
    let result = world.execute_query(world.raw(SQL, param1()));
    assert!(matches!(
        result,
        Err(Error::RpcError(status)) if status.message() == "Transient failure"
    ));
    let stmt = world.lookup_by_query(SQL, "default").unwrap();
    assert!(stmt.borrow().plan_state().load_full().is_none());
}

#[test]
fn a_plan_compiled_meanwhile_is_used_without_compiling() {
    let mut world = World::new();
    let stmt = world.statement(SQL);
    world.get_or_prepare(&stmt).unwrap();
    let (mut call, action): (ExecuteQuery<Cell>, Action<Cell>) = world
        .client
        .execute_query(world.by_token("initial_token", param1()));
    let prefix = world.client.instance_name().to_owned();
    assert!(matches!(action, Action::Continue));
    // Bound, and sent with the token it came with.
    let step = call.step(&prefix, &mut world.cache, None, Event::Go, world.now, upgrade);
    assert!(matches!(step.action, Action::Continue));
    let step = call.step(
        &prefix,
        &mut world.cache,
        Some(&mut stmt.borrow_mut()),
        Event::Go,
        world.now,
        upgrade,
    );
    assert!(matches!(step.action, Action::Continue));
    let step = call.step(
        &prefix,
        &mut world.cache,
        Some(&mut stmt.borrow_mut()),
        Event::Go,
        world.now,
        upgrade,
    );
    match step.action {
        Action::Send(outgoing) => assert_eq!(outgoing.request.prepared_query, b"initial_token"),
        _ => panic!("expected a request"),
    }
    // Another caller compiles the statement before the refusal arrives.
    stmt.borrow_mut()
        .inner
        .plan_state
        .store(Some(Arc::new(CompiledPlanState {
            plan_token: b"theirs".to_vec(),
            expires_at: u128::MAX,
        })));
    let refusal = refusal_of(tonic::Status::failed_precondition("PREPARED_QUERY_EXPIRED"));
    let step = call.step(
        &prefix,
        &mut world.cache,
        Some(&mut stmt.borrow_mut()),
        Event::Refused(refusal),
        world.now,
        upgrade,
    );
    assert!(matches!(step.action, Action::Continue));
    assert!(world.lookup_by_token("initial_token").is_none());
    let step = call.step(
        &prefix,
        &mut world.cache,
        Some(&mut stmt.borrow_mut()),
        Event::Go,
        world.now,
        upgrade,
    );
    assert!(matches!(step.action, Action::Continue));
    let step = call.step(
        &prefix,
        &mut world.cache,
        Some(&mut stmt.borrow_mut()),
        Event::Go,
        world.now,
        upgrade,
    );
    match step.action {
        Action::Send(outgoing) => assert_eq!(outgoing.request.prepared_query, b"theirs"),
        _ => panic!("expected a request"),
    }
    assert_eq!(token_of(&stmt), b"theirs");
    assert_eq!(world.server.prepare_call_count, 1);
}

#[test]
fn a_profile_that_no_header_carries_is_an_error() {
    let mut world = World::new();
    let mut request = world.raw("SELECT 1", Vec::new());
    request.app_profile_id = "de\nfault".to_string();
    let result = world.execute_query(request);
    assert!(matches!(result, Err(Error::MetadataError(_))));
    assert_eq!(world.server.execute_call_count, 0);

    let stmt = Arc::new(RefCell::new(PreparedStatement::new(
        "SELECT 1".to_string(),
        "de\nfault".to_string(),
        world.now,
    )));
    let result = world.get_or_prepare(&stmt);
    assert!(matches!(result, Err(Error::MetadataError(_))));
    assert_eq!(world.server.prepare_call_count, 0);
    assert!(world.lookup_by_query("SELECT 1", "de\nfault").is_some());

    // A renewal leaves the header out.
    let task = PreparedStatement::schedule_proactive_refresh(
        30 * SECOND as u128,
        (world.now + 30 * SECOND) as u128,
    );
    let outgoing = task.begin(&stmt.borrow(), "prefix", world.now).unwrap();
    assert!(outgoing.request_params.is_none());
}

#[test]
fn headers_carry_text_outside_ascii() {
    let mut world = World::new();
    let mut request = world.raw("SELECT 1", Vec::new());
    request.app_profile_id = "pr\u{f6}fil\t1".to_string();
    world.execute_query(request).unwrap();
    assert_eq!(
        world.server.executed_requests[0].request_params.as_deref(),
        Some(
            "name=projects/mock-project/instances/mock-instance&app_profile_id=pr\u{f6}fil\t1"
                .as_bytes()
        )
    );
}

#[test]
fn the_answer_to_a_prepare_says_when_the_plan_expires() {
    let mut world = World::new();
    world.unix_now += 250;
    let response = world
        .prepare_query(world.to_prepare(SQL, "default"))
        .unwrap();
    let at = response.valid_until.unwrap();
    assert_eq!(at.seconds, 1_700_000_000 + 3600);
    assert_eq!(at.nanos, 250);
    world.advance(100);
    let again = world
        .prepare_query(world.to_prepare(SQL, "default"))
        .unwrap();
    assert_eq!(again.valid_until.unwrap().seconds, 1_700_000_000 + 3600);
    assert_eq!(world.server.prepare_call_count, 1);
}

#[test]
fn renewals_go_on_while_the_statement_is_used() {
    let mut world = World::new();
    world.server.next_prepare_ttl_secs = 30;
    let stmt = world.statement(SQL);
    world.execute(&stmt, Vec::new()).unwrap();
    for _ in 0..20 {
        world.wait(10);
        world.execute(&stmt, Vec::new()).unwrap();
    }
    assert_eq!(world.server.prepare_call_count, 1 + 200 / 24);
    assert_eq!(world.timers.len(), 1);
    drop(stmt);
    world.wait(60);
    assert!(world.timers.is_empty());
    assert_eq!(world.server.prepare_call_count, 1 + 200 / 24);
}

#[test]
fn a_refused_renewal_changes_nothing_and_is_the_last() {
    let mut world = World::new();
    world.server.next_prepare_ttl_secs = 30;
    let stmt = world.statement(SQL);
    world.execute(&stmt, Vec::new()).unwrap();
    world.server.prepare_fail_count = 1;
    world.server.next_prepare_token = "token_v2";
    world.wait(20);
    world.execute(&stmt, Vec::new()).unwrap();
    world.wait(5);
    assert_eq!(world.server.prepare_call_count, 2);
    assert_eq!(token_of(&stmt), b"initial_token");
    assert!(world.timers.is_empty());
    assert!(world.lookup_by_token("token_v2").is_none());
    world.wait(5);
    world.execute(&stmt, Vec::new()).unwrap();
    assert_eq!(token_of(&stmt), b"token_v2");
}

#[test]
fn a_renewal_without_a_lifetime_keeps_the_one_before() {
    let mut world = World::new();
    world.server.next_prepare_ttl_secs = 50;
    let stmt = world.statement(SQL);
    world.get_or_prepare(&stmt).unwrap();
    let (task, _) = world.timers.pop().unwrap();
    assert_eq!(task.ttl, 50 * SECOND as u128);
    assert_eq!(
        task.refresh_instant(),
        (world.now + 40 * SECOND) as u128
    );
    let reply = Ok(PrepareQueryResponse {
        prepared_query: b"token_v2".to_vec(),
        valid_until: None,
    });
    let rotated = task
        .finish(
            &mut stmt.borrow_mut(),
            &mut world.cache,
            Arc::downgrade(&stmt),
            reply,
            world.now + SECOND,
            world.unix_now,
        )
        .unwrap();
    assert_eq!(rotated.next.ttl, 50 * SECOND as u128);
    assert_eq!(
        rotated.next.expires_at,
        (world.now + 51 * SECOND) as u128
    );
    assert_eq!(rotated.retire.as_deref(), Some(&b"initial_token"[..]));
    let same = Ok(PrepareQueryResponse {
        prepared_query: b"token_v2".to_vec(),
        valid_until: None,
    });
    let rotated = task
        .finish(
            &mut stmt.borrow_mut(),
            &mut world.cache,
            Arc::downgrade(&stmt),
            same,
            world.now,
            world.unix_now,
        )
        .unwrap();
    assert!(rotated.retire.is_none());
}

#[test]
fn a_plan_without_a_lifetime_lives_an_hour() {
    let mut world = World::new();
    let stmt = world.statement(SQL);
    let reply = Ok(PrepareQueryResponse {
        prepared_query: b"t".to_vec(),
        valid_until: None,
    });
    let prepared = stmt
        .borrow_mut()
        .prepare_query_rpc(
            &mut world.cache,
            Arc::downgrade(&stmt),
            reply,
            world.now,
            world.unix_now,
        )
        .unwrap();
    assert_eq!(
        prepared.plan.expires_at,
        (world.now + 3600 * SECOND) as u128
    );
    assert_eq!(
        prepared.refresh.refresh_instant(),
        (world.now + 3540 * SECOND) as u128
    );
}

#[test]
fn dropping_a_statement_clears_its_entries_and_no_others() {
    let mut world = World::new();
    let stmt = world.statement(SQL);
    world.get_or_prepare(&stmt).unwrap();
    let other = world.statement("SELECT 2");
    world.server.next_prepare_token = "other_token";
    world.get_or_prepare(&other).unwrap();

    // A live entry stays where its statement is dropped twice over.
    world
        .cache
        .deregister(&stmt.borrow(), |w| w.strong_count() == 0);
    assert!(world.lookup_by_query(SQL, "default").is_some());
    assert!(world.lookup_by_token("initial_token").is_some());

    let cached = |world: &World, query: &str, token: &str| {
        let query = QueryKey {
            query: query.to_string(),
            app_profile_id: "default".to_string(),
        };
        let token = TokenKey {
            token: token.as_bytes().to_vec(),
        };
        (
            world.cache.query_to_statement.get(&query).is_some(),
            world.cache.token_to_statement.get(&token).is_some(),
        )
    };
    assert_eq!(cached(&world, SQL, "initial_token"), (true, true));
    let gone = Arc::try_unwrap(stmt).ok().unwrap().into_inner();
    world.cache.deregister(&gone, |w| w.strong_count() == 0);
    assert_eq!(cached(&world, SQL, "initial_token"), (false, false));
    assert_eq!(cached(&world, "SELECT 2", "other_token"), (true, true));
    assert!(world.lookup_by_query("SELECT 2", "default").is_some());
    assert!(world.lookup_by_token("other_token").is_some());
}

#[test]
fn compiled_queries_go_out_without_text_and_others_as_they_came() {
    let mut world = World::new();
    let mut request = world.raw(SQL, param1());
    request.data_format = Some(DataFormat::ProtoFormat);
    request.resume_token = vec![7];
    world.execute_query(request.duplicate()).unwrap();
    let sent = &world.server.executed_requests[0].request;
    assert_eq!(sent.query, "");
    assert_eq!(sent.prepared_query, b"initial_token");
    assert!(sent.data_format.is_none());
    assert_eq!(sent.resume_token, [7]);
    assert_eq!(sent.instance_name, request.instance_name);
    assert_eq!(sent.app_profile_id, "default");
    assert_eq!(format!("{:?}", sent.params), format!("{:?}", param1()));

    world.client.set_execute_query_with_prepare_disabled(true);
    world.execute_query(request.duplicate()).unwrap();
    let sent = &world.server.executed_requests[1].request;
    assert_eq!(format!("{:?}", sent), format!("{:?}", request));
}

#[test]
fn renewals_are_eight_seconds_apart_at_least() {
    let mut world = World::new();
    world.server.next_prepare_ttl_secs = 0;
    let stmt = world.statement(SQL);
    world.get_or_prepare(&stmt).unwrap();
    assert_eq!(
        world.timers[0].0.refresh_instant(),
        (world.now + 8 * SECOND) as u128
    );
}
