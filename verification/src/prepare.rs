//! Compiling a statement: at most one request to the server at a time, and none while
//! the current plan is fresh.
//!
//! A caller first asks [`PreparedStatement::get_or_prepare`]. Where that gives no plan, it
//! takes the statement's own lock, asks [`PreparedStatement::begin_prepare`], sends the
//! request that comes back, and hands the reply to
//! [`PreparedStatement::prepare_query_rpc`].

use crate::cache::{share, CacheView, ClientStatementCache};
use crate::error::{Error, Refusal};
use crate::messages::{PrepareQueryRequest, PrepareQueryResponse, Timestamp};
use crate::metadata::{fits_header, request_params, routing_text};
use crate::plan::{plan_view, CompiledPlanState, PlanView};
use crate::refresh::RefreshTask;
use crate::sql::{sql_of, SqlTypeView, Type};
use crate::statement::{PreparedStatement, StatementView};
use crate::time::{plan_ttl, ttl_of, DEFAULT_TTL};
use std::sync::Arc;
use vstd::prelude::*;
use vstd::utf8::encode_utf8;

verus! {

/// A request that is ready to be sent.
#[derive(Debug)]
pub struct Outgoing<R> {
    pub request: R,
    /// The value of the routing header, where it has one
    pub request_params: Option<Vec<u8>>,
}

/// How a caller that holds the statement's lock goes on.
#[derive(Debug)]
pub enum PrepareStep {
    /// The plan is there: nothing to send
    Ready(Arc<CompiledPlanState>),
    /// Send this request and hand on the reply
    Send(Outgoing<PrepareQueryRequest>),
}

/// A newly compiled plan, and when to renew it.
#[derive(Debug)]
pub struct Prepared {
    pub plan: Arc<CompiledPlanState>,
    pub refresh: RefreshTask,
}

/// The request carries each parameter under its name and declared type.
pub open spec fn carries_types(
    types: Seq<(String, Type)>,
    params: Seq<(Seq<char>, SqlTypeView)>,
) -> bool {
    &&& types.len() == params.len()
    &&& forall|i: int|
        0 <= i < params.len() ==> (#[trigger] types[i]).0@ == params[i].0 && sql_of(types[i].1@)
            == Some(params[i].1)
}

/// `request` asks to compile `statement` on the given instance.
pub open spec fn asks_to_compile(
    request: PrepareQueryRequest,
    statement: StatementView,
    instance_prefix: Seq<char>,
) -> bool {
    &&& request.instance_name@ == instance_prefix
    &&& request.app_profile_id@ == statement.app_profile_id
    &&& request.query@ == statement.query
    &&& carries_types(request.param_types@, statement.param_types)
    &&& request.data_format is None
}

/// The plan that a reply brings: its token, and its expiry on the monotonic clock.
pub open spec fn compiled(
    token: Seq<u8>,
    valid_until: Option<Timestamp>,
    fallback: u128,
    now: u64,
    unix_now: u64,
) -> PlanView {
    PlanView { token, expires_at: (now + ttl_of(valid_until, fallback, unix_now)) as u128 }
}

impl PreparedStatement {
    /// Returns the active compiled plan, if it has not expired. Asking counts as a use of
    /// the statement.
    pub fn get_or_prepare(&mut self, now: u64) -> (plan: Option<Arc<CompiledPlanState>>)
        ensures
            final(self)@ == old(self)@.marked(now),
            final(self).wf() == old(self).wf(),
            plan_view(plan) == old(self)@.fresh_plan(now),
    {
        self.mark_used(now);
        self.fresh_plan(now)
    }

    /// The request that compiles the statement.
    pub fn prepare_request(&self, instance_prefix: &str) -> (request: PrepareQueryRequest)
        requires
            self.wf(),
        ensures
            asks_to_compile(request, self@, instance_prefix@),
            request.wf(),
    {
        let declared = &self.inner.param_types;
        let mut param_types: Vec<(String, Type)> = Vec::new();
        let mut i: usize = 0;
        while i < declared.len()
            invariant
                declared@ == self.inner.param_types@,
                i <= declared@.len(),
                carries_types(param_types@, self@.param_types.take(i as int)),
            decreases declared@.len() - i,
        {
            let ghost before = param_types@;
            param_types.push((declared[i].0.clone(), declared[i].1.to_pb()));
            i += 1;
            proof {
                let all = self@.param_types;
                assert forall|k: int| 0 <= k < i implies (#[trigger] param_types@[k]).0@ == all.take(
                    i as int,
                )[k].0 && sql_of(param_types@[k].1@) == Some(all.take(i as int)[k].1) by {
                    if k < i - 1 {
                        assert(param_types@[k] == before[k]);
                        assert(all.take(i as int)[k] == all.take(i - 1)[k]);
                    }
                }
            }
        }
        proof {
            assert(self@.param_types.take(i as int) =~= self@.param_types);
            assert forall|a: int, b: int| 0 <= a < b < param_types@.len() implies (
            #[trigger] param_types@[a]).0@ != (#[trigger] param_types@[b]).0@ by {
                assert(self@.param_types[a].0 == declared@[a].0@);
                assert(self@.param_types[b].0 == declared@[b].0@);
            }
        }
        PrepareQueryRequest {
            instance_name: instance_prefix.to_owned(),
            app_profile_id: self.inner.app_profile_id.clone(),
            query: self.inner.query.clone(),
            param_types,
            data_format: None,
        }
    }

    /// Checks once more, now that the lock is held, whether another caller has compiled
    /// the statement meanwhile. If not, the statement is entered in the query index, so
    /// that raw queries with the same text share its plan, and the request that compiles
    /// it comes back.
    pub fn begin_prepare<W, T>(
        &self,
        cache: &mut ClientStatementCache<W, T>,
        weak: W,
        instance_prefix: &str,
        now: u64,
    ) -> (step: Result<PrepareStep, Error>)
        requires
            self.wf(),
            old(cache).wf(),
        ensures
            final(cache).wf(),
            match self@.fresh_plan(now) {
                Some(plan) => {
                    &&& step matches Ok(PrepareStep::Ready(p)) && (*p)@ == plan
                    &&& final(cache)@ == old(cache)@
                },
                None => {
                    &&& final(cache)@ == (CacheView {
                        queries: old(cache)@.queries.insert(
                            (self@.query, self@.app_profile_id),
                            weak,
                        ),
                        ..old(cache)@
                    })
                    &&& match step {
                        Ok(PrepareStep::Send(outgoing)) => {
                            let text = routing_text(instance_prefix@, self@.app_profile_id);
                            &&& fits_header(text)
                            &&& asks_to_compile(outgoing.request, self@, instance_prefix@)
                            &&& outgoing.request.wf()
                            &&& outgoing.request_params matches Some(value) && value@
                                == encode_utf8(text)
                        },
                        Ok(PrepareStep::Ready(_)) => false,
                        Err(e) => {
                            &&& !fits_header(routing_text(instance_prefix@, self@.app_profile_id))
                            &&& e is MetadataError
                        },
                    }
                },
            },
    {
        if let Some(plan) = self.fresh_plan(now) {
            return Ok(PrepareStep::Ready(plan));
        }
        cache.insert_query(self.inner.query.clone(), self.inner.app_profile_id.clone(), weak);
        let request = self.prepare_request(instance_prefix);
        match request_params(instance_prefix, self.inner.app_profile_id.as_str()) {
            Ok(value) => Ok(PrepareStep::Send(Outgoing { request, request_params: Some(value) })),
            Err(e) => Err(e),
        }
    }

    /// Takes in the reply to the request that compiles the statement: the new token is
    /// entered in the cache, the statement counts as used, and the plan becomes its current
    /// one. A refusal changes nothing.
    pub fn prepare_query_rpc<W, T>(
        &mut self,
        cache: &mut ClientStatementCache<W, T>,
        weak: W,
        reply: Result<PrepareQueryResponse, Refusal>,
        now: u64,
        unix_now: u64,
    ) -> (prepared: Result<Prepared, Error>)
        requires
            old(cache).wf(),
        ensures
            final(cache).wf(),
            final(self).wf() == old(self).wf(),
            match reply {
                Ok(response) => {
                    let ttl = ttl_of(response.valid_until, DEFAULT_TTL, unix_now);
                    let plan = compiled(
                        response.prepared_query@,
                        response.valid_until,
                        DEFAULT_TTL,
                        now,
                        unix_now,
                    );
                    &&& prepared matches Ok(p) && (*p.plan)@ == plan && p.refresh.ttl == ttl
                        && p.refresh.expires_at == plan.expires_at && p.refresh.wf()
                    &&& plan.expires_at == now + ttl
                    &&& final(self)@ == (StatementView {
                        plan: Some(plan),
                        ..old(self)@.marked(now)
                    })
                    &&& final(cache)@ == (CacheView {
                        tokens: old(cache)@.tokens.insert(plan.token, weak),
                        ..old(cache)@
                    })
                },
                Err(refusal) => {
                    &&& prepared matches Err(e) && e == Error::RpcError(refusal.status)
                    &&& final(self)@ == old(self)@
                    &&& final(cache)@ == old(cache)@
                },
            },
    {
        match reply {
            Ok(response) => {
                let ttl = plan_ttl(response.valid_until, DEFAULT_TTL, unix_now);
                let expires_at: u128 = now as u128 + ttl;
                let token = response.prepared_query.clone();
                let plan = Arc::new(
                    CompiledPlanState { plan_token: response.prepared_query, expires_at },
                );
                cache.insert_token(token, weak);
                self.mark_used(now);
                let refresh = Self::schedule_proactive_refresh(ttl, expires_at);
                self.inner.plan_state.store(Some(share(&plan)));
                Ok(Prepared { plan, refresh })
            },
            Err(refusal) => Err(Error::RpcError(refusal.status)),
        }
    }
}

} // verus!
