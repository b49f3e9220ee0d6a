//! Prepared statements: what is known of a query that is compiled once and run often.

use crate::messages::distinct_names;
use crate::plan::{plan_view, CompiledPlanState, PlanCell, PlanView};
use crate::sql::{SqlType, SqlTypeView};
use crate::time::{elapsed_seconds, seconds_since};
use std::sync::Arc;
use vstd::prelude::*;

verus! {

/// Inner state of a prepared statement.
pub struct PreparedStatementInner {
    /// The raw SQL query template (e.g., "SELECT * FROM users WHERE id = @id")
    pub query: String,
    /// The default application profile routing
    pub app_profile_id: String,
    /// Expected SQL type declarations of query parameters for server compilation
    pub param_types: Vec<(String, SqlType)>,
    /// The compiled plan, if there is one
    pub plan_state: PlanCell,
    /// Fixed base instant to calculate relative elapsed time
    pub base_instant: u64,
    /// Elapsed seconds since base_instant when last executed
    pub last_executed_seconds: u64,
}

/// A statement as a mathematical value.
#[verifier::ext_equal]
pub struct StatementView {
    pub query: Seq<char>,
    pub app_profile_id: Seq<char>,
    pub param_types: Seq<(Seq<char>, SqlTypeView)>,
    pub plan: Option<PlanView>,
    pub base_instant: u64,
    pub last_executed_seconds: u64,
}

/// The names and types of parameters as mathematical values.
pub open spec fn typed_names(params: Seq<(String, SqlType)>) -> Seq<(Seq<char>, SqlTypeView)> {
    params.map_values(|p: (String, SqlType)| (p.0@, p.1@))
}

impl StatementView {
    /// The statement after it was used at `now`: a clock that stands before the
    /// statement's base changes nothing.
    pub open spec fn marked(self, now: u64) -> StatementView {
        if now >= self.base_instant {
            StatementView {
                last_executed_seconds: elapsed_seconds(self.base_instant, now) as u64,
                ..self
            }
        } else {
            self
        }
    }

    /// The current plan, where it has not expired.
    pub open spec fn fresh_plan(self, now: u64) -> Option<PlanView> {
        match self.plan {
            Some(plan) if plan.fresh(now) => Some(plan),
            _ => None,
        }
    }

    /// The statement after the plan behind `token` was found to have expired: a newer
    /// plan stays.
    pub open spec fn evicted(self, token: Seq<u8>) -> StatementView {
        match self.plan {
            Some(plan) if plan.token == token => StatementView { plan: None, ..self },
            _ => self,
        }
    }
}

impl View for PreparedStatementInner {
    type V = StatementView;

    open spec fn view(&self) -> StatementView {
        StatementView {
            query: self.query@,
            app_profile_id: self.app_profile_id@,
            param_types: typed_names(self.param_types@),
            plan: self.plan_state@,
            base_instant: self.base_instant,
            last_executed_seconds: self.last_executed_seconds,
        }
    }
}

impl PreparedStatementInner {
    /// No parameter is declared twice.
    pub open spec fn wf(self) -> bool {
        distinct_names(self.param_types@)
    }
}

/// Exposes a prepared query statement handle.
pub struct PreparedStatement {
    pub inner: PreparedStatementInner,
}

impl View for PreparedStatement {
    type V = StatementView;

    open spec fn view(&self) -> StatementView {
        self.inner@
    }
}

impl PreparedStatement {
    /// No parameter is declared twice.
    pub open spec fn wf(self) -> bool {
        self.inner.wf()
    }

    /// Constructs a new PreparedStatement without parameterized types.
    pub fn new(query: String, app_profile_id: String, now: u64) -> (statement: Self)
        ensures
            statement.wf(),
            statement@ == (StatementView {
                query: query@,
                app_profile_id: app_profile_id@,
                param_types: Seq::empty(),
                plan: None,
                base_instant: now,
                last_executed_seconds: 0,
            }),
    {
        Self::with_parameter_types(query, app_profile_id, Vec::new(), now)
    }

    /// Constructs a new PreparedStatement with expected parameterized types.
    pub fn with_parameter_types(
        query: String,
        app_profile_id: String,
        param_types: Vec<(String, SqlType)>,
        now: u64,
    ) -> (statement: Self)
        requires
            distinct_names(param_types@),
        ensures
            statement.wf(),
            statement@ == (StatementView {
                query: query@,
                app_profile_id: app_profile_id@,
                param_types: typed_names(param_types@),
                plan: None,
                base_instant: now,
                last_executed_seconds: 0,
            }),
    {
        PreparedStatement {
            inner: PreparedStatementInner {
                query,
                app_profile_id,
                param_types,
                plan_state: PlanCell::empty(),
                base_instant: now,
                last_executed_seconds: 0,
            },
        }
    }

    /// Constructs PreparedStatement from an inner state.
    pub fn from_inner(inner: PreparedStatementInner) -> (statement: Self)
        ensures
            statement.inner == inner,
            statement@ == inner@,
    {
        PreparedStatement { inner }
    }

    /// Returns the inner state of the prepared statement.
    pub fn into_inner(self) -> (inner: PreparedStatementInner)
        ensures
            inner == self.inner,
            inner@ == self@,
    {
        self.inner
    }

    /// Access the plan state reference.
    pub fn plan_state(&self) -> (cell: &PlanCell)
        ensures
            cell@ == self@.plan,
            *cell == self.inner.plan_state,
    {
        &self.inner.plan_state
    }

    /// Updates the usage activity log timestamp to prevent cache pollution
    pub fn mark_used(&mut self, now: u64)
        ensures
            final(self)@ == old(self)@.marked(now),
            final(self).wf() == old(self).wf(),
    {
        if now >= self.inner.base_instant {
            self.inner.last_executed_seconds = seconds_since(self.inner.base_instant, now);
        }
    }

    /// The current plan, where it has not expired.
    pub fn fresh_plan(&self, now: u64) -> (plan: Option<Arc<CompiledPlanState>>)
        ensures
            plan_view(plan) == self@.fresh_plan(now),
    {
        match self.inner.plan_state.load_full() {
            Some(plan) => if plan.is_fresh(now) {
                Some(plan)
            } else {
                None
            },
            None => None,
        }
    }

    /// Drops the current plan where its token is `token`. A plan that was compiled
    /// meanwhile has another token, and stays.
    pub fn evict(&mut self, token: &Vec<u8>)
        ensures
            final(self)@ == old(self)@.evicted(token@),
            final(self).wf() == old(self).wf(),
    {
        self.inner.plan_state.evict(token);
    }
}

} // verus!
