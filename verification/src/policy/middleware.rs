//! The chain: a request runs through the policies in their order, until one
//! of them answers it or all have let it pass.
//!
//! The chain stops where a policy asks the token store a question
//! (`ChainProgress::Suspended`) or has something reported
//! (`ChainProgress::Reporting`), and goes on from there once the caller has
//! the answer or has written the report (`PolicyLayer::resume`).

use crate::http::{
    has_prefix, lemma_without_prefix, remove_prefixed, without_prefix, Header, Request,
    RequestView, Response, ResponseView,
};
use crate::policy::traits::{
    answer_view, LogRecord, LogRecordView, LookupAnswer, LookupAnswerView, Policy, PolicyResult,
    PolicyResultView, PolicyStep, PolicyStepView, TokenQuery, TokenQueryView,
};
use vstd::prelude::*;

verus! {

/// The request as the first policy sees it: without the headers whose name,
/// in small letters, begins with `x-bouncer-`. Only the gateway sets those.
pub open spec fn scrubbed(request: RequestView) -> RequestView {
    RequestView { headers: without_prefix(request.headers, "x-bouncer-"@), ..request }
}

/// Clear all headers that start with `x-bouncer-`.
pub fn clear_bouncer_headers(headers: &mut Vec<Header>)
    ensures
        final(headers).deep_view() == without_prefix(old(headers).deep_view(), "x-bouncer-"@),
{
    let kept = remove_prefixed(headers, "x-bouncer-");
    *headers = kept;
}

/// Where a request stands after the chain has run as far as it can.
pub enum ChainProgress {
    /// Every policy let the request pass: hand it to the proxy handler.
    Forward(Request),
    /// A policy answered the request: no later policy sees it, and nothing
    /// is forwarded.
    Respond(Response),
    /// The policy at `position` asks `query` of the token store.
    Suspended { position: usize, request: Request, query: TokenQuery },
    /// The policy at `position` wants `record` written down.
    Reporting { position: usize, request: Request, record: LogRecord },
}

pub enum ChainProgressView {
    Forward(RequestView),
    Respond(ResponseView),
    Suspended { position: int, request: RequestView, query: TokenQueryView },
    Reporting { position: int, request: RequestView, record: LogRecordView },
}

impl View for ChainProgress {
    type V = ChainProgressView;

    open spec fn view(&self) -> ChainProgressView {
        match self {
            ChainProgress::Forward(request) => ChainProgressView::Forward(request@),
            ChainProgress::Respond(response) => ChainProgressView::Respond(response@),
            ChainProgress::Suspended { position, request, query } => ChainProgressView::Suspended {
                position: *position as int,
                request: request@,
                query: query@,
            },
            ChainProgress::Reporting { position, request, record } => ChainProgressView::Reporting {
                position: *position as int,
                request: request@,
                record: record@,
            },
        }
    }
}

/// How far `request` gets when it is handed to the policy at `position`:
/// each policy sees what the one before it let pass.
pub open spec fn chain_from<P: Policy>(
    policies: Seq<P>,
    position: int,
    request: RequestView,
) -> ChainProgressView
    decreases policies.len() - position,
{
    if position < 0 || position >= policies.len() {
        ChainProgressView::Forward(request)
    } else {
        match policies[position].step(request) {
            PolicyStepView::Done(PolicyResultView::Continue(next)) => chain_from(
                policies,
                position + 1,
                next,
            ),
            PolicyStepView::Done(PolicyResultView::Terminate(response)) => ChainProgressView::Respond(
                response,
            ),
            PolicyStepView::Lookup { request: held, query } => ChainProgressView::Suspended {
                position,
                request: held,
                query,
            },
            PolicyStepView::Report { request: held, record } => ChainProgressView::Reporting {
                position,
                request: held,
                record,
            },
        }
    }
}

/// How far a request gets once the policy at `position` has decided `result`.
pub open spec fn chain_after<P: Policy>(
    policies: Seq<P>,
    position: int,
    result: PolicyResultView,
) -> ChainProgressView {
    match result {
        PolicyResultView::Continue(next) => chain_from(policies, position + 1, next),
        PolicyResultView::Terminate(response) => ChainProgressView::Respond(response),
    }
}

/// Our middleware layer: the policies of the chain, in their order.
pub struct PolicyLayer<P: Policy> {
    policies: Vec<P>,
}

impl<P: Policy> PolicyLayer<P> {
    /// The policies of the chain, in their order.
    pub closed spec fn chain(&self) -> Seq<P> {
        self.policies@
    }

    /// A layer of the given policies, in their order.
    pub fn new(policies: Vec<P>) -> (r: Self)
        ensures
            r.chain() == policies@,
    {
        PolicyLayer { policies }
    }

    /// The number of policies in the chain.
    pub fn len(&self) -> (n: usize)
        ensures
            n == self.chain().len(),
    {
        self.policies.len()
    }

    /// Runs an inbound request through the chain: the headers that only the
    /// gateway may set are taken from it, then the policies see it in turn.
    pub fn call(&self, request: Request) -> (progress: ChainProgress)
        ensures
            progress@ == chain_from(self.chain(), 0, scrubbed(request@)),
    {
        let mut current = request;
        clear_bouncer_headers(&mut current.headers);
        self.run_from(0, current)
    }

    /// Goes on after the policy at `position` was given the store's answer,
    /// or, where it had something reported, with `Ok(None)` once that is
    /// written down.
    pub fn resume(&self, position: usize, request: Request, answer: LookupAnswer) -> (progress:
        ChainProgress)
        requires
            position < self.chain().len(),
        ensures
            progress@ == chain_after(
                self.chain(),
                position as int,
                self.chain()[position as int].outcome(request@, answer_view(answer)),
            ),
    {
        assert(position < self.policies.len());
        match self.policies[position].resume(request, answer) {
            PolicyResult::Continue(next) => self.run_from(position + 1, next),
            PolicyResult::Terminate(response) => ChainProgress::Respond(response),
        }
    }

    /// Hands `request` to the policy at `position` and to those after it.
    pub fn run_from(&self, position: usize, request: Request) -> (progress: ChainProgress)
        ensures
            progress@ == chain_from(self.chain(), position as int, request@),
    {
        let mut current = request;
        let mut i: usize = position;
        while i < self.policies.len()
            invariant
                chain_from(self.chain(), position as int, request@) == chain_from(
                    self.chain(),
                    i as int,
                    current@,
                ),
            decreases self.policies.len() - i,
        {
            match self.policies[i].process(current) {
                PolicyStep::Done(PolicyResult::Continue(next)) => {
                    current = next;
                },
                PolicyStep::Done(PolicyResult::Terminate(response)) => {
                    return ChainProgress::Respond(response);
                },
                PolicyStep::Lookup { request: held, query } => {
                    return ChainProgress::Suspended { position: i, request: held, query };
                },
                PolicyStep::Report { request: held, record } => {
                    return ChainProgress::Reporting { position: i, request: held, record };
                },
            }
            i += 1;
        }
        ChainProgress::Forward(current)
    }
}

/// Makes a layer of a list of policies.
pub trait PolicyChainExt<P: Policy> {
    spec fn members(&self) -> Seq<P>;

    fn into_layer(self) -> (layer: PolicyLayer<P>)
        ensures
            layer.chain() == self.members(),
    ;
}

impl<P: Policy> PolicyChainExt<P> for Vec<P> {
    open spec fn members(&self) -> Seq<P> {
        self@
    }

    fn into_layer(self) -> (layer: PolicyLayer<P>) {
        PolicyLayer::new(self)
    }
}

/// How a request ends: it is forwarded, or it is answered by a policy.
pub enum ChainOutcome {
    Forward(RequestView),
    Respond(ResponseView),
}

/// What a policy decides on a request when it is resumed with `answer`
/// where it hands the request back.
pub open spec fn verdict<P: Policy>(
    policy: P,
    request: RequestView,
    answer: LookupAnswerView,
) -> PolicyResultView {
    match policy.step(request) {
        PolicyStepView::Done(result) => result,
        PolicyStepView::Lookup { request: held, query } => policy.outcome(held, answer),
        PolicyStepView::Report { request: held, record } => policy.outcome(held, answer),
    }
}

/// How `request` ends when it is handed to the policy at `position` and the
/// policy at `i` is resumed with `answers[i]`.
pub open spec fn run<P: Policy>(
    policies: Seq<P>,
    position: int,
    request: RequestView,
    answers: Seq<LookupAnswerView>,
) -> ChainOutcome
    decreases policies.len() - position,
{
    if position < 0 || position >= policies.len() {
        ChainOutcome::Forward(request)
    } else {
        match verdict(policies[position], request, answers[position]) {
            PolicyResultView::Continue(next) => run(policies, position + 1, next, answers),
            PolicyResultView::Terminate(response) => ChainOutcome::Respond(response),
        }
    }
}

/// How a request ends once the policy at `position` has decided `result`.
pub open spec fn run_after<P: Policy>(
    policies: Seq<P>,
    position: int,
    result: PolicyResultView,
    answers: Seq<LookupAnswerView>,
) -> ChainOutcome {
    match result {
        PolicyResultView::Continue(next) => run(policies, position + 1, next, answers),
        PolicyResultView::Terminate(response) => ChainOutcome::Respond(response),
    }
}

/// The request that the policy at `position` sees in the run of `request`
/// from the start of the chain; `None` where the run ends before it.
/// `position` may be the length of the chain: that is what the proxy
/// handler sees.
pub open spec fn observed<P: Policy>(
    policies: Seq<P>,
    position: int,
    request: RequestView,
    answers: Seq<LookupAnswerView>,
) -> Option<RequestView>
    decreases position,
{
    if position <= 0 {
        Some(request)
    } else {
        match observed(policies, position - 1, request, answers) {
            Some(seen) => match verdict(policies[position - 1], seen, answers[position - 1]) {
                PolicyResultView::Continue(next) => Some(next),
                PolicyResultView::Terminate(response) => None,
            },
            None => None,
        }
    }
}

/// The chain that stops and is resumed ends as `run` says: where it does not
/// stop, `run` ends as it does; where it stops at a policy, `run` ends as
/// the chain does from there, once that policy is resumed.
pub proof fn lemma_progress_is_run<P: Policy>(
    policies: Seq<P>,
    position: int,
    request: RequestView,
    answers: Seq<LookupAnswerView>,
)
    requires
        0 <= position,
    ensures
        match chain_from(policies, position, request) {
            ChainProgressView::Forward(last) => run(policies, position, request, answers)
                == ChainOutcome::Forward(last),
            ChainProgressView::Respond(response) => run(policies, position, request, answers)
                == ChainOutcome::Respond(response),
            ChainProgressView::Suspended { position: at, request: held, query } => {
                &&& position <= at < policies.len()
                &&& policies[at].step(observed_from(policies, position, at, request, answers))
                    == (PolicyStepView::Lookup { request: held, query })
                &&& run(policies, position, request, answers) == run_after(
                    policies,
                    at,
                    policies[at].outcome(held, answers[at]),
                    answers,
                )
            },
            ChainProgressView::Reporting { position: at, request: held, record } => {
                &&& position <= at < policies.len()
                &&& policies[at].step(observed_from(policies, position, at, request, answers))
                    == (PolicyStepView::Report { request: held, record })
                &&& run(policies, position, request, answers) == run_after(
                    policies,
                    at,
                    policies[at].outcome(held, answers[at]),
                    answers,
                )
            },
        },
    decreases policies.len() - position,
{
    if position < policies.len() {
        match policies[position].step(request) {
            PolicyStepView::Done(PolicyResultView::Continue(next)) => {
                lemma_progress_is_run(policies, position + 1, next, answers);
                match chain_from(policies, position + 1, next) {
                    ChainProgressView::Suspended { position: at, request: held, query } => {
                        lemma_observed_from_step(policies, position, at, request, answers);
                    },
                    ChainProgressView::Reporting { position: at, request: held, record } => {
                        lemma_observed_from_step(policies, position, at, request, answers);
                    },
                    _ => {},
                }
            },
            _ => {},
        }
    }
}

/// The request that the policy at `to` sees when `request` is handed to the
/// policy at `from` and every policy in between lets it pass.
pub open spec fn observed_from<P: Policy>(
    policies: Seq<P>,
    from: int,
    to: int,
    request: RequestView,
    answers: Seq<LookupAnswerView>,
) -> RequestView
    decreases to - from,
{
    if to <= from {
        request
    } else {
        match verdict(policies[from], request, answers[from]) {
            PolicyResultView::Continue(next) => observed_from(policies, from + 1, to, next, answers),
            PolicyResultView::Terminate(response) => request,
        }
    }
}

proof fn lemma_observed_from_step<P: Policy>(
    policies: Seq<P>,
    from: int,
    to: int,
    request: RequestView,
    answers: Seq<LookupAnswerView>,
)
    requires
        from < to,
        verdict(policies[from], request, answers[from]) is Continue,
    ensures
        observed_from(policies, from, to, request, answers) == observed_from(
            policies,
            from + 1,
            to,
            verdict(policies[from], request, answers[from])->Continue_0,
            answers,
        ),
{
}

/// The run from the start is the run from any policy that the request
/// reaches, on the request that this policy sees.
pub proof fn lemma_run_from_observed<P: Policy>(
    policies: Seq<P>,
    position: int,
    request: RequestView,
    answers: Seq<LookupAnswerView>,
)
    requires
        0 <= position <= policies.len(),
        observed(policies, position, request, answers) is Some,
    ensures
        run(policies, 0, request, answers) == run(
            policies,
            position,
            observed(policies, position, request, answers)->Some_0,
            answers,
        ),
    decreases position,
{
    if position > 0 {
        lemma_run_from_observed(policies, position - 1, request, answers);
    }
}

/// Policies run in their order: a policy sees a request only if every
/// policy before it has seen it and let it pass, and what it sees is what
/// the policy just before it let pass.
pub proof fn lemma_chain_order<P: Policy>(
    policies: Seq<P>,
    earlier: int,
    later: int,
    request: RequestView,
    answers: Seq<LookupAnswerView>,
)
    requires
        0 <= earlier < later,
        observed(policies, later, request, answers) is Some,
    ensures
        observed(policies, earlier, request, answers) is Some,
        verdict(
            policies[earlier],
            observed(policies, earlier, request, answers)->Some_0,
            answers[earlier],
        ) is Continue,
        observed(policies, later, request, answers) == Some(
            verdict(
                policies[later - 1],
                observed(policies, later - 1, request, answers)->Some_0,
                answers[later - 1],
            )->Continue_0,
        ),
    decreases later - earlier,
{
    if earlier + 1 < later {
        lemma_chain_order(policies, earlier + 1, later, request, answers);
        lemma_chain_order(policies, earlier, earlier + 1, request, answers);
    }
}

/// Once a policy answers a request, the request ends there: the client gets
/// exactly that response, no later policy sees the request, and neither
/// does the proxy handler.
pub proof fn lemma_short_circuit<P: Policy>(
    policies: Seq<P>,
    position: int,
    request: RequestView,
    answers: Seq<LookupAnswerView>,
    response: ResponseView,
)
    requires
        0 <= position < policies.len(),
        observed(policies, position, request, answers) is Some,
        verdict(
            policies[position],
            observed(policies, position, request, answers)->Some_0,
            answers[position],
        ) == PolicyResultView::Terminate(response),
    ensures
        run(policies, 0, request, answers) == ChainOutcome::Respond(response),
        forall|later: int|
            position < later ==> #[trigger] observed(policies, later, request, answers) is None,
{
    lemma_run_from_observed(policies, position, request, answers);
    assert forall|later: int| position < later implies #[trigger] observed(
        policies,
        later,
        request,
        answers,
    ) is None by {
        if observed(policies, later, request, answers) is Some {
            lemma_chain_order(policies, position, later, request, answers);
        }
    }
}

/// A request that every policy lets pass is forwarded as the last policy
/// left it.
pub proof fn lemma_all_pass<P: Policy>(
    policies: Seq<P>,
    request: RequestView,
    answers: Seq<LookupAnswerView>,
)
    requires
        observed(policies, policies.len() as int, request, answers) is Some,
    ensures
        run(policies, 0, request, answers) == ChainOutcome::Forward(
            observed(policies, policies.len() as int, request, answers)->Some_0,
        ),
{
    lemma_run_from_observed(policies, policies.len() as int, request, answers);
}

/// No header that the client sent under a name beginning with `x-bouncer-`,
/// in whatever case, is in the request that the first policy sees; every
/// other header of the client is.
pub proof fn lemma_header_trust(request: RequestView)
    ensures
        forall|i: int|
            0 <= i < scrubbed(request).headers.len() ==> {
                &&& !has_prefix(#[trigger] scrubbed(request).headers[i], "x-bouncer-"@)
                &&& request.headers.contains(scrubbed(request).headers[i])
            },
        forall|i: int|
            0 <= i < request.headers.len() && !has_prefix(
                #[trigger] request.headers[i],
                "x-bouncer-"@,
            ) ==> scrubbed(request).headers.contains(request.headers[i]),
{
    lemma_without_prefix(request.headers, "x-bouncer-"@);
}

} // verus!
