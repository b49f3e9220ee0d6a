//! Renewing plans in the background, before they expire.
//!
//! A [`RefreshTask`] says when to wake up. On waking, [`RefreshTask::wake`] decides whether
//! to go on; under the statement's lock, [`RefreshTask::begin`] gives the request to send,
//! and [`RefreshTask::finish`] takes in the reply and says what comes next.

use crate::cache::{share, CacheView, ClientStatementCache};
use crate::error::Refusal;
use crate::messages::{PrepareQueryRequest, PrepareQueryResponse};
use crate::metadata::{fits_header, request_params, routing_text};
use crate::plan::CompiledPlanState;
use crate::prepare::{asks_to_compile, compiled, Outgoing};
use crate::statement::{PreparedStatement, StatementView};
use crate::text::same_bytes;
use crate::time::{
    elapsed_seconds, minus_or_zero, offset_of, plan_ttl, refresh_offset, seconds_since, ttl_of,
    MAX_TTL, MIN_TTL, NANOS_PER_SECOND,
};
use std::sync::Arc;
use vstd::prelude::*;
use vstd::utf8::encode_utf8;

verus! {

/// A renewal that is due some time before a plan expires.
#[derive(Debug, Clone, Copy)]
pub struct RefreshTask {
    /// How long the plan lives, from when it was compiled
    pub ttl: u128,
    /// When the plan expires
    pub expires_at: u128,
}

/// What a task finds when it wakes up.
#[derive(Debug, Clone, Copy, PartialEq, Eq, Structural)]
pub enum WakeUp {
    /// The statement is gone: stop
    Dropped,
    /// Nobody has used the statement for the lifetime of the plan: stop
    Idle,
    /// Go on
    Refresh,
}

/// What follows from a renewed plan.
#[derive(Debug)]
pub struct Rotated {
    /// The next renewal
    pub next: RefreshTask,
    /// The token that was replaced: to be removed from the cache after a grace period
    pub retire: Option<Vec<u8>>,
}

impl PreparedStatement {
    /// The renewal of a plan, due a minute prior to its expiration, or a fifth of its
    /// lifetime for short-lived plans.
    pub fn schedule_proactive_refresh(ttl: u128, expires_at: u128) -> (task: RefreshTask)
        ensures
            task.ttl == ttl,
            task.expires_at == expires_at,
    {
        RefreshTask { ttl, expires_at }
    }
}

impl RefreshTask {
    /// The plan was not compiled before the clock's zero, and lives no shorter and no longer
    /// than plans do.
    pub open spec fn wf(self) -> bool {
        MIN_TTL <= self.ttl <= MAX_TTL && self.ttl <= self.expires_at
    }

    /// How long before the expiry the renewal is due.
    pub open spec fn offset(self) -> int {
        offset_of(self.ttl)
    }

    /// Nobody has used the statement since the plan was compiled, or nearly so: longer
    /// than from the compilation to the renewal, in whole seconds.
    pub open spec fn finds_idle(self, statement: StatementView, now: u64) -> bool {
        minus_or_zero(
            elapsed_seconds(statement.base_instant, now),
            statement.last_executed_seconds as int,
        ) > (self.ttl - self.offset()) / (NANOS_PER_SECOND as int)
    }

    /// Another caller has compiled the statement meanwhile: its plan is not about to expire.
    pub open spec fn already_done(self, statement: StatementView, now: u64) -> bool {
        statement.plan matches Some(plan) && plan.expires_at > now + self.offset()
    }

    /// When to wake up.
    pub fn refresh_instant(&self) -> (at: u128)
        requires
            self.wf(),
        ensures
            at == self.expires_at - self.offset(),
            at < self.expires_at,
    {
        self.expires_at - refresh_offset(self.ttl)
    }

    /// Decides on waking whether to go on: not where the statement was dropped, nor where
    /// it has been idle.
    pub fn wake(&self, statement: Option<&PreparedStatement>, now: u64) -> (found: WakeUp)
        ensures
            found == (match statement {
                None => WakeUp::Dropped,
                Some(s) => if self.finds_idle(s@, now) {
                    WakeUp::Idle
                } else {
                    WakeUp::Refresh
                },
            }),
    {
        match statement {
            None => WakeUp::Dropped,
            Some(s) => {
                let elapsed = seconds_since(s.inner.base_instant, now);
                let unused: u64 = elapsed.saturating_sub(s.inner.last_executed_seconds);
                let limit: u128 = (self.ttl - refresh_offset(self.ttl)) / NANOS_PER_SECOND as u128;
                if unused as u128 > limit {
                    WakeUp::Idle
                } else {
                    WakeUp::Refresh
                }
            },
        }
    }

    /// The request that renews the plan, unless the plan has been renewed already. A
    /// routing header that cannot be written is left out.
    pub fn begin(
        &self,
        statement: &PreparedStatement,
        instance_prefix: &str,
        now: u64,
    ) -> (outgoing: Option<Outgoing<PrepareQueryRequest>>)
        requires
            statement.wf(),
        ensures
            outgoing is None <==> self.already_done(statement@, now),
            outgoing matches Some(o) ==> {
                let text = routing_text(instance_prefix@, statement@.app_profile_id);
                &&& asks_to_compile(o.request, statement@, instance_prefix@)
                &&& o.request.wf()
                &&& match o.request_params {
                    Some(value) => fits_header(text) && value@ == encode_utf8(text),
                    None => !fits_header(text),
                }
            },
    {
        if let Some(current) = statement.inner.plan_state.load_full() {
            if current.expires_at > now as u128 + refresh_offset(self.ttl) {
                return None;
            }
        }
        let request = statement.prepare_request(instance_prefix);
        let params = match request_params(
            instance_prefix,
            statement.inner.app_profile_id.as_str(),
        ) {
            Ok(value) => Some(value),
            Err(_) => None,
        };
        Some(Outgoing { request, request_params: params })
    }

    /// Takes in the reply. The new token is entered in the cache and the new plan becomes
    /// the current one; the old token stays in the cache for a grace period. A lifetime
    /// that the server does not tell is that of the plan before. A refusal changes nothing
    /// and ends the renewals.
    pub fn finish<W, T>(
        &self,
        statement: &mut PreparedStatement,
        cache: &mut ClientStatementCache<W, T>,
        weak: W,
        reply: Result<PrepareQueryResponse, Refusal>,
        now: u64,
        unix_now: u64,
    ) -> (rotated: Option<Rotated>)
        requires
            self.wf(),
            old(cache).wf(),
        ensures
            final(cache).wf(),
            final(statement).wf() == old(statement).wf(),
            match reply {
                Ok(response) => {
                    let ttl = ttl_of(response.valid_until, self.ttl, unix_now);
                    let plan = compiled(
                        response.prepared_query@,
                        response.valid_until,
                        self.ttl,
                        now,
                        unix_now,
                    );
                    &&& plan.expires_at == now + ttl
                    &&& final(statement)@ == (StatementView { plan: Some(plan), ..old(statement)@ })
                    &&& final(cache)@ == (CacheView {
                        tokens: old(cache)@.tokens.insert(plan.token, weak),
                        ..old(cache)@
                    })
                    &&& rotated matches Some(r) && {
                        &&& r.next.ttl == ttl
                        &&& r.next.expires_at == plan.expires_at
                        &&& r.next.wf()
                        &&& match old(statement)@.plan {
                            Some(before) if before.token != plan.token => r.retire matches Some(t)
                                && t@ == before.token,
                            _ => r.retire is None,
                        }
                    }
                },
                Err(_) => {
                    &&& rotated is None
                    &&& final(statement)@ == old(statement)@
                    &&& final(cache)@ == old(cache)@
                },
            },
    {
        match reply {
            Ok(response) => {
                let ttl = plan_ttl(response.valid_until, self.ttl, unix_now);
                let expires_at: u128 = now as u128 + ttl;
                let token = response.prepared_query.clone();
                let new_plan = Arc::new(
                    CompiledPlanState { plan_token: response.prepared_query, expires_at },
                );
                cache.insert_token(token, weak);
                let old_plan = statement.inner.plan_state.swap(Some(share(&new_plan)));
                let retire = match old_plan {
                    Some(before) => if same_bytes(&before.plan_token, &new_plan.plan_token) {
                        None
                    } else {
                        Some(before.plan_token.clone())
                    },
                    None => None,
                };
                let next = PreparedStatement::schedule_proactive_refresh(ttl, expires_at);
                Some(Rotated { next, retire })
            },
            Err(_) => None,
        }
    }
}

} // verus!
