//! Running a query: compiling it where it is given as text, binding it to the latest plan,
//! and recovering where the server has dropped that plan.
//!
//! An [`ExecuteQuery`] is one call. It decides; its caller acts. The caller starts with what
//! `BigTable::execute_query` gives and from then on performs each [`Action`] and hands what
//! came of it to [`ExecuteQuery::step`] as an [`Event`], until the action is
//! [`Action::Done`].

use crate::cache::{
    held_under, looked_up, share, CacheView, ClientStatementCache, Found, Upgraded,
};
use crate::error::{Error, Refusal};
use crate::messages::{
    named_values, ExecuteQueryRequest, ExecuteView, PrepareQueryRequest, PrepareQueryResponse,
    Value,
};
use crate::metadata::{fits_header, request_params, routing_text};
use crate::plan::CompiledPlanState;
use crate::prepare::Outgoing;
use crate::statement::{PreparedStatement, StatementView};
use crate::text::same_bytes;
use std::sync::Arc;
use vstd::prelude::*;
use vstd::utf8::encode_utf8;

verus! {

/// How often a request is sent again after the server dropped its plan.
pub const MAX_RETRIES: u32 = 2;

/// Where a call stands.
#[derive(Debug)]
pub enum Phase<T> {
    /// Its query is being compiled
    Compiling,
    /// It is to be bound to the statement behind its token
    Unbound,
    /// The statement behind its token was found
    Bound,
    /// The next attempt is to be sent
    Ready,
    /// An attempt was sent
    Sent,
    /// The plan has expired, and this statement may have another
    Recovering(Arc<T>),
    /// The statement is being compiled anew
    Recompiling,
    /// It is over
    Ended,
}

/// What the caller is to do next.
#[derive(Debug)]
pub enum Action<T> {
    /// Nothing: go on with [`Event::Go`]
    Continue,
    /// Compile the query, and go on with [`Event::Compiled`]
    Compile(PrepareQueryRequest),
    /// Send the request, and go on with [`Event::Accepted`] or [`Event::Refused`]
    Send(Outgoing<ExecuteQueryRequest>),
    /// Get or compile the plan of the statement, and go on with [`Event::Plan`]
    GetOrPrepare(Arc<T>),
    /// The call is over: its last attempt was accepted, or it failed
    Done(Result<(), Error>),
}

/// What came of an action.
#[derive(Debug)]
pub enum Event {
    /// There was nothing to do
    Go,
    /// The query was compiled, or could not be
    Compiled(Result<PrepareQueryResponse, Error>),
    /// The server accepted the request
    Accepted,
    /// The server refused the request
    Refused(Refusal),
    /// The plan of the statement, or why there is none
    Plan(Result<Arc<CompiledPlanState>, Error>),
}

/// What is to be done next, and the handle that the list of recently used statements gave up
/// meanwhile.
#[derive(Debug)]
pub struct Step<T> {
    pub action: Action<T>,
    pub evicted: Option<Arc<T>>,
}

/// One call that runs a query.
#[derive(Debug)]
pub struct ExecuteQuery<T> {
    /// What the caller asked for
    pub request: ExecuteQueryRequest,
    /// The token that the next attempt is sent with; none where it is empty
    pub token_to_use: Vec<u8>,
    /// How many attempts were repeated so far
    pub retry_count: u32,
    /// The statement behind the query, where the cache has one
    pub cached_stmt: Option<Arc<T>>,
    /// Where the call stands
    pub phase: Phase<T>,
}

/// A call as a mathematical value.
#[verifier::ext_equal]
pub struct ExecutionView<T> {
    pub request: ExecuteView,
    pub token: Seq<u8>,
    pub retry_count: u32,
    pub statement: Option<Arc<T>>,
    pub phase: Phase<T>,
}

impl<T> View for ExecuteQuery<T> {
    type V = ExecutionView<T>;

    open spec fn view(&self) -> ExecutionView<T> {
        ExecutionView {
            request: self.request@,
            token: self.token_to_use@,
            retry_count: self.retry_count,
            statement: self.cached_stmt,
            phase: self.phase,
        }
    }
}

/// The phase is left on that event.
pub open spec fn expects<T>(phase: Phase<T>, event: Event) -> bool {
    match phase {
        Phase::Compiling => event is Compiled,
        Phase::Sent => event is Accepted || event is Refused,
        Phase::Recompiling => event is Plan,
        Phase::Ended => false,
        _ => event is Go,
    }
}

impl<T> ExecutionView<T> {
    /// The call is to be bound to the statement behind its token: it has a token and no query
    /// text.
    pub open spec fn seeks_token(self) -> bool {
        self.token.len() > 0 && self.request.query.len() == 0
    }

    /// The statement that the next step reads or changes.
    pub open spec fn wants(self) -> Option<Arc<T>> {
        match self.phase {
            Phase::Bound | Phase::Ready | Phase::Sent => self.statement,
            Phase::Recovering(statement) => Some(statement),
            _ => None,
        }
    }

    /// The request that an attempt sends: where there is a token, it is sent with the token.
    pub open spec fn sent(self) -> ExecuteView {
        ExecuteView {
            prepared_query: if self.token.len() > 0 {
                self.token
            } else {
                self.request.prepared_query
            },
            ..self.request
        }
    }

    /// The call in another phase.
    pub open spec fn at(self, phase: Phase<T>) -> ExecutionView<T> {
        ExecutionView { phase, ..self }
    }

    /// The call after its query was compiled: the token of the plan stands in place of the
    /// text, and the statement is the one that the cache holds for the text.
    pub open spec fn compiled(self, token: Seq<u8>, statement: Option<Arc<T>>) -> ExecutionView<T> {
        ExecutionView {
            request: ExecuteView {
                prepared_query: token,
                query: Seq::empty(),
                data_format: None,
                ..self.request
            },
            token,
            statement,
            phase: Phase::Unbound,
            ..self
        }
    }

    /// The call after the statement behind its token was looked for.
    pub open spec fn bound_to(self, statement: Option<Arc<T>>) -> ExecutionView<T> {
        match statement {
            Some(s) => ExecutionView { statement: Some(s), phase: Phase::Bound, ..self },
            None => self.at(Phase::Ready),
        }
    }

    /// The call with the token of the latest plan, where its own was replaced meanwhile.
    pub open spec fn up_to_date(self, statement: StatementView) -> ExecutionView<T> {
        match statement.plan {
            Some(latest) if latest.token != self.token => ExecutionView {
                request: ExecuteView { prepared_query: latest.token, ..self.request },
                token: latest.token,
                phase: Phase::Ready,
                ..self
            },
            _ => self.at(Phase::Ready),
        }
    }

    /// The call before its next attempt, which is sent with `token`.
    pub open spec fn retried(self, token: Seq<u8>) -> ExecutionView<T> {
        ExecutionView {
            token,
            retry_count: (self.retry_count + 1) as u32,
            phase: Phase::Ready,
            ..self
        }
    }

    /// How many attempts may still be sent.
    pub open spec fn sends_left(self) -> int {
        match self.phase {
            Phase::Ended => 0,
            Phase::Sent | Phase::Recovering(_) | Phase::Recompiling => MAX_RETRIES
                - self.retry_count,
            _ => MAX_RETRIES + 1 - self.retry_count,
        }
    }

    /// How many steps may still be taken.
    pub open spec fn steps_left(self) -> int {
        4 * self.sends_left() + match self.phase {
            Phase::Compiling => 3,
            Phase::Unbound => 2,
            Phase::Bound => 1,
            Phase::Ready => 0,
            Phase::Sent => 3,
            Phase::Recovering(_) => 2,
            Phase::Recompiling => 1,
            Phase::Ended => 0int,
        }
    }

    /// The call that runs a request which has not been compiled.
    pub open spec fn fresh(request: ExecuteView, phase: Phase<T>) -> ExecutionView<T> {
        ExecutionView {
            request,
            token: request.prepared_query,
            retry_count: 0,
            statement: None,
            phase,
        }
    }
}

/// A step that only says what is to be done.
pub open spec fn only<T>(action: Action<T>) -> Step<T> {
    Step { action, evicted: None }
}

/// A step that ends the call with an error.
pub open spec fn fails<T>(error: Error) -> Step<T> {
    only(Action::Done(Err(error)))
}

/// `outgoing` is the attempt of a call, with its routing header.
pub open spec fn is_attempt<T>(
    outgoing: Outgoing<ExecuteQueryRequest>,
    call: ExecutionView<T>,
    instance_prefix: Seq<char>,
) -> bool {
    &&& outgoing.request@ == call.sent()
    &&& outgoing.request.wf()
    &&& outgoing.request_params matches Some(value) && value@ == encode_utf8(
        routing_text(instance_prefix, call.request.app_profile_id),
    )
}

impl<T> ExecuteQuery<T> {
    /// No parameter is given twice, no attempt was repeated too often, and there is a
    /// statement where the phase speaks of one.
    pub open spec fn wf(self) -> bool {
        &&& self.request.wf()
        &&& self.retry_count <= MAX_RETRIES
        &&& self.phase is Bound ==> self.cached_stmt is Some
        &&& self.phase is Recovering || self.phase is Recompiling ==> self.retry_count < MAX_RETRIES
        &&& self.phase is Compiling || self.phase is Unbound || self.phase is Bound
            ==> self.retry_count == 0
    }

    /// The call that runs `request`, at its beginning.
    pub(crate) fn start(request: ExecuteQueryRequest, phase: Phase<T>) -> (call: Self)
        requires
            request.wf(),
            phase is Compiling || phase is Unbound || phase is Ended,
        ensures
            call.wf(),
            call@ == ExecutionView::<T>::fresh(request@, phase),
    {
        let token_to_use = request.prepared_query.clone();
        ExecuteQuery { request, token_to_use, retry_count: 0, cached_stmt: None, phase }
    }

    /// The statement that the caller hands to the next step.
    pub fn wants(&self) -> (statement: Option<Arc<T>>)
        ensures
            statement == self@.wants(),
    {
        match &self.phase {
            Phase::Bound | Phase::Ready | Phase::Sent => match &self.cached_stmt {
                Some(s) => Some(share(s)),
                None => None,
            },
            Phase::Recovering(s) => Some(share(s)),
            _ => None,
        }
    }

    /// The query was compiled. The statement that the cache now holds for its text is kept in
    /// mind, and the token takes the place of the text.
    fn on_compiled<W, F: Fn(&W) -> Option<Upgraded<T>>>(
        &mut self,
        cache: &mut ClientStatementCache<W, T>,
        response: PrepareQueryResponse,
        now: u64,
        upgrade: F,
    ) -> (step: Step<T>)
        requires
            old(self).wf(),
            old(self).phase is Compiling,
            old(cache).wf(),
            forall|w: &W| upgrade.requires((w,)),
        ensures
            final(self).wf(),
            final(cache).wf(),
            final(cache)@ == (CacheView { lru: final(cache)@.lru, ..old(cache)@ }),
            exists|found: Found<T>|
                {
                    &&& #[trigger] looked_up(
                        held_under(
                            old(cache)@.queries,
                            (old(self)@.request.query, old(self)@.request.app_profile_id),
                        ),
                        upgrade,
                        old(cache)@.lru,
                        now,
                        found,
                        final(cache)@.lru,
                    )
                    &&& final(self)@ == old(self)@.compiled(
                        response.prepared_query@,
                        found.statement,
                    )
                    &&& step == (Step { action: Action::Continue, evicted: found.evicted })
                },
    {
        let found = cache.lookup_by_query(
            self.request.query.as_str(),
            self.request.app_profile_id.as_str(),
            now,
            upgrade,
        );
        self.cached_stmt = found.statement;
        self.token_to_use = response.prepared_query.clone();
        self.request.prepared_query = response.prepared_query;
        self.request.query = String::new();
        self.request.data_format = None;
        self.phase = Phase::Unbound;
        Step { action: Action::Continue, evicted: found.evicted }
    }

    /// Looks for the statement behind the token.
    fn on_unbound<W, F: Fn(&W) -> Option<Upgraded<T>>>(
        &mut self,
        cache: &mut ClientStatementCache<W, T>,
        now: u64,
        upgrade: F,
    ) -> (step: Step<T>)
        requires
            old(self).wf(),
            old(self).phase is Unbound,
            old(cache).wf(),
            forall|w: &W| upgrade.requires((w,)),
        ensures
            final(self).wf(),
            final(cache).wf(),
            if old(self)@.seeks_token() {
                &&& final(cache)@ == (CacheView { lru: final(cache)@.lru, ..old(cache)@ })
                &&& exists|found: Found<T>|
                    {
                        &&& #[trigger] looked_up(
                            held_under(old(cache)@.tokens, old(self)@.token),
                            upgrade,
                            old(cache)@.lru,
                            now,
                            found,
                            final(cache)@.lru,
                        )
                        &&& final(self)@ == old(self)@.bound_to(found.statement)
                        &&& step == (Step { action: Action::Continue, evicted: found.evicted })
                    }
            } else {
                &&& final(cache)@ == old(cache)@
                &&& final(self)@ == old(self)@.at(Phase::Ready)
                &&& step == only::<T>(Action::Continue)
            },
    {
        if self.token_to_use.len() == 0 || !self.request.query.as_str().is_empty() {
            self.phase = Phase::Ready;
            return Step { action: Action::Continue, evicted: None };
        }
        let found = cache.lookup_by_token(&self.token_to_use, now, upgrade);
        let ghost looked = found;
        match found.statement {
            Some(s) => {
                self.cached_stmt = Some(s);
                self.phase = Phase::Bound;
            },
            None => {
                self.phase = Phase::Ready;
            },
        }
        assert(self@ == old(self)@.bound_to(looked.statement));
        Step { action: Action::Continue, evicted: found.evicted }
    }

    /// Takes over the token of the latest plan. The statement counts as used.
    fn on_bound(&mut self, statement: &mut PreparedStatement, now: u64) -> (step: Step<T>)
        requires
            old(self).wf(),
            old(self).phase is Bound,
        ensures
            final(self).wf(),
            final(self)@ == old(self)@.up_to_date(old(statement)@),
            final(statement)@ == old(statement)@.marked(now),
            final(statement).wf() == old(statement).wf(),
            step == only::<T>(Action::Continue),
    {
        statement.mark_used(now);
        if let Some(latest) = statement.inner.plan_state.load_full() {
            if !same_bytes(&latest.plan_token, &self.token_to_use) {
                self.token_to_use = latest.plan_token.clone();
                self.request.prepared_query = latest.plan_token.clone();
            }
        }
        self.phase = Phase::Ready;
        Step { action: Action::Continue, evicted: None }
    }

    /// Gives the request of the next attempt.
    fn on_ready(&mut self, instance_prefix: &str) -> (step: Step<T>)
        requires
            old(self).wf(),
            old(self).phase is Ready,
        ensures
            final(self).wf(),
            step.evicted is None,
            if fits_header(routing_text(instance_prefix@, old(self)@.request.app_profile_id)) {
                &&& step.action matches Action::Send(outgoing) && is_attempt(
                    outgoing,
                    old(self)@,
                    instance_prefix@,
                )
                &&& final(self)@ == old(self)@.at(Phase::Sent)
            } else {
                &&& step.action matches Action::Done(Err(e)) && e is MetadataError
                &&& final(self)@ == old(self)@.at(Phase::Ended)
            },
    {
        let mut request = self.request.duplicate();
        if self.token_to_use.len() > 0 {
            request.prepared_query = self.token_to_use.clone();
        }
        match request_params(instance_prefix, self.request.app_profile_id.as_str()) {
            Ok(value) => {
                self.phase = Phase::Sent;
                Step {
                    action: Action::Send(Outgoing { request, request_params: Some(value) }),
                    evicted: None,
                }
            },
            Err(e) => {
                self.phase = Phase::Ended;
                Step { action: Action::Done(Err(e)), evicted: None }
            },
        }
    }

    /// The server refused an attempt. The call ends with the refusal, unless the refusal says
    /// that the plan has expired, not too many attempts were repeated, and a statement is known
    /// that can be compiled anew. Where only the last of these fails, the expired token has
    /// left the cache all the same.
    fn on_refused<W, F: Fn(&W) -> Option<Upgraded<T>>>(
        &mut self,
        cache: &mut ClientStatementCache<W, T>,
        refusal: Refusal,
        now: u64,
        upgrade: F,
    ) -> (step: Step<T>)
        requires
            old(self).wf(),
            old(self).phase is Sent,
            old(cache).wf(),
            forall|w: &W| upgrade.requires((w,)),
        ensures
            final(self).wf(),
            final(cache).wf(),
            refusal_handled(
                old(self)@,
                refusal,
                old(cache)@,
                upgrade,
                now,
                final(self)@,
                final(cache)@,
                step,
            ),
    {
        if !refusal.is_plan_expired() || self.retry_count >= MAX_RETRIES {
            self.phase = Phase::Ended;
            return Step { action: Action::Done(Err(Error::RpcError(refusal.status))), evicted: None };
        }
        let mut evicted = None;
        let statement = match &self.cached_stmt {
            Some(s) => Some(share(s)),
            None => {
                let found = cache.lookup_by_token(&self.token_to_use, now, upgrade);
                evicted = found.evicted;
                found.statement
            },
        };
        let ghost found = Found { statement, evicted };
        cache.remove_token(&self.token_to_use);
        assert(old(self)@.statement is None ==> looked_up(
            held_under(old(cache)@.tokens, old(self)@.token),
            upgrade,
            old(cache)@.lru,
            now,
            found,
            cache@.lru,
        ));
        match statement {
            Some(s) => {
                self.phase = Phase::Recovering(s);
                assert(self@ == old(self)@.at(Phase::Recovering(found.statement->0)));
                Step { action: Action::Continue, evicted }
            },
            None => {
                self.phase = Phase::Ended;
                Step { action: Action::Done(Err(Error::RpcError(refusal.status))), evicted }
            },
        }
    }

    /// Looks for the token of the next attempt in the statement. A plan that was compiled
    /// meanwhile is used as it is. Where the statement still holds the expired plan, that plan
    /// is dropped; the statement is then compiled, as it is where there is no plan at all.
    fn on_recovering(&mut self, statement: &mut PreparedStatement) -> (step: Step<T>)
        requires
            old(self).wf(),
            old(self).phase is Recovering,
        ensures
            final(self).wf(),
            final(statement).wf() == old(statement).wf(),
            final(statement)@ == old(statement)@.evicted(old(self)@.token),
            match final(statement)@.plan {
                Some(current) => {
                    &&& final(self)@ == old(self)@.retried(current.token)
                    &&& step == only::<T>(Action::Continue)
                },
                None => {
                    &&& final(self)@ == old(self)@.at(Phase::Recompiling)
                    &&& step == only(Action::GetOrPrepare(old(self)@.wants()->0))
                },
            },
    {
        statement.evict(&self.token_to_use);
        match statement.inner.plan_state.load_full() {
            Some(current) => {
                self.token_to_use = current.plan_token.clone();
                self.retry_count += 1;
                self.phase = Phase::Ready;
                Step { action: Action::Continue, evicted: None }
            },
            None => {
                let action = match &self.phase {
                    Phase::Recovering(s) => Action::GetOrPrepare(share(s)),
                    _ => Action::Continue,
                };
                self.phase = Phase::Recompiling;
                Step { action, evicted: None }
            },
        }
    }

    /// The statement was compiled anew: the next attempt is sent with its new token.
    fn on_recompiled(&mut self, plan: &CompiledPlanState) -> (step: Step<T>)
        requires
            old(self).wf(),
            old(self).phase is Recompiling,
        ensures
            final(self).wf(),
            final(self)@ == old(self)@.retried(plan@.token),
            step == only::<T>(Action::Continue),
    {
        self.token_to_use = plan.plan_token.clone();
        self.retry_count += 1;
        self.phase = Phase::Ready;
        Step { action: Action::Continue, evicted: None }
    }

    /// Ends the call with an error.
    fn fail(&mut self, error: Error) -> (step: Step<T>)
        requires
            old(self).wf(),
        ensures
            final(self).wf(),
            final(self)@ == old(self)@.at(Phase::Ended),
            step == fails::<T>(error),
    {
        self.phase = Phase::Ended;
        Step { action: Action::Done(Err(error)), evicted: None }
    }

    /// Takes in what came of the last action and says what is to be done next. `statement` is
    /// the one behind the handle that [`ExecuteQuery::wants`] gives. Sending an attempt counts
    /// as a use of it, and so does the server's acceptance, so that a statement whose queries
    /// are answered slowly is not taken for idle.
    pub fn step<W, F: Fn(&W) -> Option<Upgraded<T>>>(
        &mut self,
        instance_prefix: &str,
        cache: &mut ClientStatementCache<W, T>,
        statement: Option<&mut PreparedStatement>,
        event: Event,
        now: u64,
        upgrade: F,
    ) -> (step: Step<T>)
        requires
            old(self).wf(),
            old(cache).wf(),
            expects(old(self)@.phase, event),
            statement is Some <==> old(self)@.wants() is Some,
            forall|w: &W| upgrade.requires((w,)),
        ensures
            final(self).wf(),
            final(cache).wf(),
            stepped(
                old(self)@,
                event,
                instance_prefix@,
                old(cache)@,
                match statement {
                    Some(s) => Some(s@),
                    None => None,
                },
                upgrade,
                now,
                final(self)@,
                final(cache)@,
                match statement {
                    Some(s) => Some(final(s)@),
                    None => None,
                },
                step,
            ),
            match statement {
                Some(s) => final(s).wf() == s.wf(),
                None => true,
            },
            final(self)@.steps_left() < old(self)@.steps_left(),
            final(self)@.sends_left() <= old(self)@.sends_left() - (if step.action is Send {
                1int
            } else {
                0
            }),
    {
        match event {
            Event::Compiled(reply) => match reply {
                Ok(response) => self.on_compiled(cache, response, now, upgrade),
                Err(e) => self.fail(e),
            },
            Event::Accepted => {
                if let Some(s) = statement {
                    s.mark_used(now);
                }
                self.phase = Phase::Ended;
                Step { action: Action::Done(Ok(())), evicted: None }
            },
            Event::Refused(refusal) => self.on_refused(cache, refusal, now, upgrade),
            Event::Plan(plan) => match plan {
                Ok(plan) => self.on_recompiled(&*plan),
                Err(e) => self.fail(e),
            },
            Event::Go => match statement {
                Some(s) => match &self.phase {
                    Phase::Bound => self.on_bound(s, now),
                    Phase::Recovering(_) => self.on_recovering(s),
                    _ => {
                        s.mark_used(now);
                        self.on_ready(instance_prefix)
                    },
                },
                None => match &self.phase {
                    Phase::Unbound => self.on_unbound(cache, now, upgrade),
                    _ => self.on_ready(instance_prefix),
                },
            },
        }
    }
}

/// What a refused attempt leads to.
pub open spec fn refusal_handled<W, T, F: Fn(&W) -> Option<Upgraded<T>>>(
    before: ExecutionView<T>,
    refusal: Refusal,
    cache: CacheView<W, T>,
    upgrade: F,
    now: u64,
    after: ExecutionView<T>,
    cache_after: CacheView<W, T>,
    step: Step<T>,
) -> bool {
    if refusal.expired() && before.retry_count < MAX_RETRIES {
        &&& cache_after.queries == cache.queries
        &&& cache_after.tokens == cache.tokens.remove(before.token)
        &&& match before.statement {
            Some(s) => {
                &&& cache_after.lru == cache.lru
                &&& after == before.at(Phase::Recovering(s))
                &&& step == only::<T>(Action::Continue)
            },
            None => exists|found: Found<T>|
                {
                    &&& #[trigger] looked_up(
                        held_under(cache.tokens, before.token),
                        upgrade,
                        cache.lru,
                        now,
                        found,
                        cache_after.lru,
                    )
                    &&& step.evicted == found.evicted
                    &&& match found.statement {
                        Some(s) => {
                            &&& after == before.at(Phase::Recovering(s))
                            &&& step.action == Action::<T>::Continue
                        },
                        None => {
                            &&& after == before.at(Phase::Ended)
                            &&& step.action == Action::<T>::Done(
                                Err(Error::RpcError(refusal.status)),
                            )
                        },
                    }
                },
        }
    } else {
        &&& cache_after == cache
        &&& after == before.at(Phase::Ended)
        &&& step == fails::<T>(Error::RpcError(refusal.status))
    }
}

/// One step of a call: from `before`, on `event`, to `after` and `step`. The cache and the
/// statement that the call wants go along.
pub open spec fn stepped<W, T, F: Fn(&W) -> Option<Upgraded<T>>>(
    before: ExecutionView<T>,
    event: Event,
    instance_prefix: Seq<char>,
    cache: CacheView<W, T>,
    statement: Option<StatementView>,
    upgrade: F,
    now: u64,
    after: ExecutionView<T>,
    cache_after: CacheView<W, T>,
    statement_after: Option<StatementView>,
    step: Step<T>,
) -> bool {
    let marked = match statement {
        Some(s) => Some(s.marked(now)),
        None => None,
    };
    match event {
        Event::Compiled(Ok(response)) => {
            &&& statement_after == statement
            &&& cache_after == (CacheView { lru: cache_after.lru, ..cache })
            &&& exists|found: Found<T>|
                {
                    &&& #[trigger] looked_up(
                        held_under(
                            cache.queries,
                            (before.request.query, before.request.app_profile_id),
                        ),
                        upgrade,
                        cache.lru,
                        now,
                        found,
                        cache_after.lru,
                    )
                    &&& after == before.compiled(response.prepared_query@, found.statement)
                    &&& step == (Step { action: Action::Continue, evicted: found.evicted })
                }
        },
        Event::Compiled(Err(e)) | Event::Plan(Err(e)) => {
            &&& statement_after == statement
            &&& cache_after == cache
            &&& after == before.at(Phase::Ended)
            &&& step == fails::<T>(e)
        },
        Event::Plan(Ok(plan)) => {
            &&& statement_after == statement
            &&& cache_after == cache
            &&& after == before.retried((*plan)@.token)
            &&& step == only::<T>(Action::Continue)
        },
        Event::Accepted => {
            &&& statement_after == marked
            &&& cache_after == cache
            &&& after == before.at(Phase::Ended)
            &&& step == only::<T>(Action::Done(Ok(())))
        },
        Event::Refused(refusal) => {
            &&& statement_after == statement
            &&& refusal_handled(before, refusal, cache, upgrade, now, after, cache_after, step)
        },
        Event::Go => match before.phase {
            Phase::Unbound => {
                &&& statement_after == statement
                &&& if before.seeks_token() {
                    &&& cache_after == (CacheView { lru: cache_after.lru, ..cache })
                    &&& exists|found: Found<T>|
                        {
                            &&& #[trigger] looked_up(
                                held_under(cache.tokens, before.token),
                                upgrade,
                                cache.lru,
                                now,
                                found,
                                cache_after.lru,
                            )
                            &&& after == before.bound_to(found.statement)
                            &&& step == (Step { action: Action::Continue, evicted: found.evicted })
                        }
                } else {
                    &&& cache_after == cache
                    &&& after == before.at(Phase::Ready)
                    &&& step == only::<T>(Action::Continue)
                }
            },
            Phase::Bound => {
                &&& statement_after == marked
                &&& cache_after == cache
                &&& after == before.up_to_date(statement->0)
                &&& step == only::<T>(Action::Continue)
            },
            Phase::Recovering(handle) => {
                &&& statement_after == Some((statement->0).evicted(before.token))
                &&& cache_after == cache
                &&& match statement_after->0.plan {
                    Some(current) => {
                        &&& after == before.retried(current.token)
                        &&& step == only::<T>(Action::Continue)
                    },
                    None => {
                        &&& after == before.at(Phase::Recompiling)
                        &&& step == only(Action::GetOrPrepare(handle))
                    },
                }
            },
            _ => {
                &&& statement_after == marked
                &&& cache_after == cache
                &&& step.evicted is None
                &&& if fits_header(routing_text(instance_prefix, before.request.app_profile_id)) {
                    &&& step.action matches Action::Send(outgoing) && is_attempt(
                        outgoing,
                        before,
                        instance_prefix,
                    )
                    &&& after == before.at(Phase::Sent)
                } else {
                    &&& step.action matches Action::Done(Err(e)) && e is MetadataError
                    &&& after == before.at(Phase::Ended)
                }
            },
        },
    }
}

impl PreparedStatement {
    /// Binds dynamic parameter values to the compiled statement: the request that runs its
    /// plan carries the plan's token and no query text.
    pub fn execute(
        &self,
        instance_prefix: &str,
        plan: &CompiledPlanState,
        params: Vec<(String, Value)>,
    ) -> (request: ExecuteQueryRequest)
        ensures
            request@ == executes(self@, instance_prefix@, plan@.token, params@),
            request.params@ == params@,
    {
        ExecuteQueryRequest {
            instance_name: instance_prefix.to_owned(),
            app_profile_id: self.inner.app_profile_id.clone(),
            query: String::new(),
            prepared_query: plan.plan_token.clone(),
            resume_token: Vec::new(),
            params,
            data_format: None,
        }
    }

    /// Reactive retry: decides what follows where the server refused to run `plan` after
    /// `retry_count` repeated attempts. An expired plan is evicted and the attempt repeated,
    /// up to a limit; the new count comes back. Any other refusal is the caller's error.
    pub fn execute_with_retry<W, T>(
        &mut self,
        cache: &mut ClientStatementCache<W, T>,
        plan: &CompiledPlanState,
        refusal: Refusal,
        retry_count: u32,
    ) -> (next: Result<u32, Error>)
        requires
            old(cache).wf(),
        ensures
            final(cache).wf(),
            final(self).wf() == old(self).wf(),
            next == retry_after(refusal, retry_count),
            if refusal.expired() && retry_count < MAX_RETRIES {
                &&& final(self)@ == old(self)@.evicted(plan@.token)
                &&& final(cache)@ == (CacheView {
                    tokens: old(cache)@.tokens.remove(plan@.token),
                    ..old(cache)@
                })
            } else {
                &&& final(self)@ == old(self)@
                &&& final(cache)@ == old(cache)@
            },
    {
        if !refusal.is_plan_expired() || retry_count >= MAX_RETRIES {
            return Err(Error::RpcError(refusal.status));
        }
        cache.remove_token(&plan.plan_token);
        self.evict(&plan.plan_token);
        Ok(retry_count + 1)
    }
}

/// What a statement that is executed with retries does after a refusal: where the plan has
/// expired, it tries again, up to a limit, and counts up; otherwise it fails.
pub open spec fn retry_after(refusal: Refusal, retry_count: u32) -> Result<u32, Error> {
    if refusal.expired() && retry_count < MAX_RETRIES {
        Ok((retry_count + 1) as u32)
    } else {
        Err(Error::RpcError(refusal.status))
    }
}

/// The request that runs the plan behind `token` of a statement.
pub open spec fn executes(
    statement: StatementView,
    instance_prefix: Seq<char>,
    token: Seq<u8>,
    params: Seq<(String, Value)>,
) -> ExecuteView {
    ExecuteView {
        instance_name: instance_prefix,
        app_profile_id: statement.app_profile_id,
        query: Seq::empty(),
        prepared_query: token,
        resume_token: Seq::empty(),
        params: named_values(params),
        data_format: None,
    }
}

} // verus!
