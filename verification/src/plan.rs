//! Compiled query plans, and the cell that holds the plan of a statement.

use crate::text::same_bytes;
use arc_swap::ArcSwapOption;
use std::sync::Arc;
use vstd::prelude::*;

verus! {

/// Represents a compiled, cached query plan reference.
#[derive(Debug)]
pub struct CompiledPlanState {
    /// The opaque compiled prepared query plan token bytes returned by the server
    pub plan_token: Vec<u8>,
    /// When the plan expires, in nanoseconds on the monotonic clock
    pub expires_at: u128,
}

/// A plan as a mathematical value.
pub struct PlanView {
    pub token: Seq<u8>,
    pub expires_at: u128,
}

impl PlanView {
    /// The plan has not expired yet.
    pub open spec fn fresh(self, now: u64) -> bool {
        now < self.expires_at
    }
}

impl View for CompiledPlanState {
    type V = PlanView;

    open spec fn view(&self) -> PlanView {
        PlanView { token: self.plan_token@, expires_at: self.expires_at }
    }
}

impl CompiledPlanState {
    /// Whether the plan has not expired yet.
    pub fn is_fresh(&self, now: u64) -> (fresh: bool)
        ensures
            fresh == self@.fresh(now),
    {
        (now as u128) < self.expires_at
    }
}

/// The plan behind an optional shared reference.
pub open spec fn plan_view(plan: Option<Arc<CompiledPlanState>>) -> Option<PlanView> {
    match plan {
        Some(p) => Some((*p)@),
        None => None,
    }
}

/// The cell that holds the current plan of a statement, if it has one: an
/// `arc_swap::ArcSwapOption`. Verified code writes to it through `&mut` only, so
/// nothing comes between two of its accesses.
#[verifier::external_body]
pub struct PlanCell {
    inner: ArcSwapOption<CompiledPlanState>,
}

/// The token and expiry of the plan that a cell holds: one element, or none.
pub uninterp spec fn cell_contents(cell: PlanCell) -> Seq<(Seq<u8>, u128)>;

/// A plan as an element of a cell's contents.
pub open spec fn as_contents(plan: Option<Arc<CompiledPlanState>>) -> Seq<(Seq<u8>, u128)> {
    match plan {
        Some(p) => seq![(p.plan_token@, p.expires_at)],
        None => Seq::empty(),
    }
}

impl View for PlanCell {
    type V = Option<PlanView>;

    open spec fn view(&self) -> Option<PlanView> {
        let contents = cell_contents(*self);
        if contents.len() == 0 {
            None
        } else {
            Some(PlanView { token: contents[0].0, expires_at: contents[0].1 })
        }
    }
}

/// `arc_swap::ArcSwapOption::empty`: a cell that holds no plan.
#[verifier::external_body]
fn arc_swap_empty() -> (cell: PlanCell)
    ensures
        cell_contents(cell) == as_contents(None),
{
    PlanCell { inner: ArcSwapOption::empty() }
}

/// `arc_swap::ArcSwapOption::load_full`: the plan that the cell holds.
#[verifier::external_body]
fn arc_swap_load_full(cell: &PlanCell) -> (plan: Option<Arc<CompiledPlanState>>)
    ensures
        as_contents(plan) == cell_contents(*cell),
{
    cell.inner.load_full()
}

/// `arc_swap::ArcSwapOption::store`: the cell holds the given plan afterwards.
#[verifier::external_body]
fn arc_swap_store(cell: &mut PlanCell, plan: Option<Arc<CompiledPlanState>>)
    ensures
        cell_contents(*final(cell)) == as_contents(plan),
{
    cell.inner.store(plan)
}

/// `arc_swap::ArcSwapOption::swap`: the cell holds the given plan afterwards, and
/// the one that it held before comes back.
#[verifier::external_body]
fn arc_swap_swap(cell: &mut PlanCell, plan: Option<Arc<CompiledPlanState>>) -> (old_plan: Option<
    Arc<CompiledPlanState>,
>)
    ensures
        cell_contents(*final(cell)) == as_contents(plan),
        as_contents(old_plan) == cell_contents(*old(cell)),
{
    cell.inner.swap(plan)
}

/// `arc_swap::ArcSwapOption::compare_and_swap`, with what the cell holds at the moment
/// (`arc_swap::ArcSwapOption::load`) as the value to compare with: nothing comes between the
/// two, so the cell holds the given plan afterwards, and the one that it held before comes back.
#[verifier::external_body]
fn arc_swap_compare_and_swap(cell: &mut PlanCell, plan: Option<Arc<CompiledPlanState>>) -> (
    old_plan: Option<Arc<CompiledPlanState>>)
    ensures
        cell_contents(*final(cell)) == as_contents(plan),
        as_contents(old_plan) == cell_contents(*old(cell)),
{
    let current = cell.inner.load();
    arc_swap::Guard::into_inner(cell.inner.compare_and_swap(&current, plan))
}

impl PlanCell {
    /// A cell without a plan.
    pub fn empty() -> (cell: PlanCell)
        ensures
            cell@ is None,
    {
        arc_swap_empty()
    }

    /// The current plan.
    pub fn load_full(&self) -> (plan: Option<Arc<CompiledPlanState>>)
        ensures
            plan_view(plan) == self@,
    {
        arc_swap_load_full(self)
    }

    /// Makes `plan` the current plan.
    pub fn store(&mut self, plan: Option<Arc<CompiledPlanState>>)
        ensures
            final(self)@ == plan_view(plan),
    {
        arc_swap_store(self, plan)
    }

    /// Makes `plan` the current plan and returns the one before.
    pub fn swap(&mut self, plan: Option<Arc<CompiledPlanState>>) -> (old_plan: Option<
        Arc<CompiledPlanState>,
    >)
        ensures
            final(self)@ == plan_view(plan),
            plan_view(old_plan) == old(self)@,
    {
        arc_swap_swap(self, plan)
    }

    /// Drops the current plan where it has the given token.
    pub fn evict(&mut self, token: &Vec<u8>)
        ensures
            final(self)@ == (match old(self)@ {
                Some(plan) if plan.token == token@ => None,
                _ => old(self)@,
            }),
    {
        if let Some(current) = self.load_full() {
            if same_bytes(&current.plan_token, token) {
                let _evicted = arc_swap_compare_and_swap(self, None);
            }
        }
    }
}

} // verus!
