//! The governance module's bindings, and a workflow that takes a proposal from
//! submission through a validator's vote to the end of its voting period.
use vstd::prelude::*;
use crate::codec::{
    amount_to_string, decimal, decode_params_response, decode_proposal_response,
    decode_submit_response, decode_vote_response, encode_params_request,
    encode_proposal_request, encode_submit_proposal, encode_vote, params_request_bytes,
    params_response_of, proposal_request_bytes, proposal_response_of, submit_proposal_bytes,
    submit_response_of, vote_bytes, vote_response_of,
};
use crate::error::RunnerError;
use crate::module::Module;
use crate::runner::{
    executed_as, finish_execute, finish_query, queried_as, ExecuteResponse, RawExecuteResponse,
    Runner, RunnerExecuteResult, RunnerResult, SigningAccount,
};
use crate::types::{
    Any, Coin, Duration, MsgSubmitProposal, MsgSubmitProposalResponse, MsgVote, MsgVoteResponse,
    QueryParamsRequest, QueryParamsResponse, QueryProposalRequest, QueryProposalResponse,
    VoteOption, WasmCoin,
};

verus! {

pub const SUBMIT_PROPOSAL_TYPE_URL: &'static str = "/cosmos.gov.v1beta1.MsgSubmitProposal";

pub const VOTE_TYPE_URL: &'static str = "/cosmos.gov.v1beta1.MsgVote";

pub const QUERY_PARAMS_TYPE_URL: &'static str = "/cosmos.gov.v1beta1.Query/Params";

pub const QUERY_PROPOSAL_TYPE_URL: &'static str = "/cosmos.gov.v1beta1.Query/Proposal";

/// The routing key and encoded bytes of a proposal submission.
pub fn submit_proposal_request(msg: &MsgSubmitProposal) -> (r: (String, Vec<u8>))
    ensures
        r.0@ == SUBMIT_PROPOSAL_TYPE_URL@,
        r.1@ == submit_proposal_bytes(*msg),
{
    (SUBMIT_PROPOSAL_TYPE_URL.to_owned(), encode_submit_proposal(msg))
}

/// The routing key and encoded bytes of a vote.
pub fn vote_request(msg: &MsgVote) -> (r: (String, Vec<u8>))
    ensures
        r.0@ == VOTE_TYPE_URL@,
        r.1@ == vote_bytes(*msg),
{
    (VOTE_TYPE_URL.to_owned(), encode_vote(msg))
}

/// The routing key and encoded bytes of a parameters query.
pub fn query_params_request(req: &QueryParamsRequest) -> (r: (String, Vec<u8>))
    ensures
        r.0@ == QUERY_PARAMS_TYPE_URL@,
        r.1@ == params_request_bytes(*req),
{
    (QUERY_PARAMS_TYPE_URL.to_owned(), encode_params_request(req))
}

/// The routing key and encoded bytes of a proposal query.
pub fn query_proposal_request(req: &QueryProposalRequest) -> (r: (String, Vec<u8>))
    ensures
        r.0@ == QUERY_PROPOSAL_TYPE_URL@,
        r.1@ == proposal_request_bytes(*req),
{
    (QUERY_PROPOSAL_TYPE_URL.to_owned(), encode_proposal_request(req))
}

/// The result of a submission from the runner's answer.
pub fn finish_submit_proposal(raw: RunnerResult<RawExecuteResponse>) -> (r: RunnerExecuteResult<
    MsgSubmitProposalResponse,
>)
    ensures
        executed_as(raw, submit_response_of(raw->Ok_0.data@), r),
{
    let raw = raw?;
    let decoded = decode_submit_response(&raw.data);
    finish_execute(raw, decoded)
}

/// The result of a vote from the runner's answer.
pub fn finish_vote(raw: RunnerResult<RawExecuteResponse>) -> (r: RunnerExecuteResult<
    MsgVoteResponse,
>)
    ensures
        executed_as(raw, vote_response_of(raw->Ok_0.data@), r),
{
    let raw = raw?;
    let decoded = decode_vote_response(&raw.data);
    finish_execute(raw, decoded)
}

/// The result of a parameters query from the runner's answer.
pub fn finish_query_params(raw: RunnerResult<Vec<u8>>) -> (r: RunnerResult<QueryParamsResponse>)
    ensures
        queried_as(raw, params_response_of(raw->Ok_0@), r),
{
    let raw = raw?;
    finish_query(decode_params_response(&raw))
}

/// The result of a proposal query from the runner's answer.
pub fn finish_query_proposal(raw: RunnerResult<Vec<u8>>) -> (r: RunnerResult<
    QueryProposalResponse,
>)
    ensures
        queried_as(raw, proposal_response_of(raw->Ok_0@), r),
{
    let raw = raw?;
    finish_query(decode_proposal_response(&raw))
}

/// The governance module over a borrowed runner.
pub struct Gov<'a, R: Runner> {
    runner: &'a R,
}

impl<'a, R: Runner> Module<'a, R> for Gov<'a, R> {
    closed spec fn runner_of(&self) -> &'a R {
        self.runner
    }

    fn new(runner: &'a R) -> (r: Self) {
        Gov { runner }
    }
}

impl<'a, R: Runner> Gov<'a, R> {
    /// Submits a proposal signed by `signer`.
    pub fn submit_proposal(&self, msg: &MsgSubmitProposal, signer: &SigningAccount) -> (r:
        RunnerExecuteResult<MsgSubmitProposalResponse>)
        ensures
            r is Ok ==> submit_response_of(r->Ok_0.raw_data@) == Some(r->Ok_0.data),
    {
        let (route, bytes) = submit_proposal_request(msg);
        finish_submit_proposal(self.runner.execute_raw(route.as_str(), bytes, signer))
    }

    /// Casts a vote signed by `signer`.
    pub fn vote(&self, msg: &MsgVote, signer: &SigningAccount) -> (r: RunnerExecuteResult<
        MsgVoteResponse,
    >)
        ensures
            r is Ok ==> vote_response_of(r->Ok_0.raw_data@) == Some(r->Ok_0.data),
    {
        let (route, bytes) = vote_request(msg);
        finish_vote(self.runner.execute_raw(route.as_str(), bytes, signer))
    }

    /// Queries the governance parameters of one kind: "voting", "tallying" or
    /// "deposit".
    pub fn query_params(&self, req: &QueryParamsRequest) -> (r: RunnerResult<QueryParamsResponse>)
    {
        let (route, bytes) = query_params_request(req);
        finish_query_params(self.runner.query_raw(route.as_str(), bytes))
    }

    /// Queries one proposal by its id.
    pub fn query_proposal(&self, req: &QueryProposalRequest) -> (r: RunnerResult<QueryProposalResponse>) {
        let (route, bytes) = query_proposal_request(req);
        finish_query_proposal(self.runner.query_raw(route.as_str(), bytes))
    }

    /// Submits a proposal whose content is `msg`, encoded and tagged with
    /// `msg_type_url`, with `initial_deposit` as its deposit.
    pub fn submit_executable_proposal(
        &self,
        msg_type_url: String,
        msg: Vec<u8>,
        initial_deposit: Vec<WasmCoin>,
        proposer: String,
        signer: &SigningAccount,
    ) -> (r: RunnerExecuteResult<MsgSubmitProposalResponse>)
        ensures
            r is Ok ==> submit_response_of(r->Ok_0.raw_data@) == Some(r->Ok_0.data),
    {
        let proposal = executable_proposal(msg_type_url, msg, initial_deposit, proposer);
        self.submit_proposal(&proposal, signer)
    }
}

/// `p` is `c` in the form that a transaction carries: the same
/// denomination, and the amount as a decimal string.
pub open spec fn coin_carries(p: Coin, c: WasmCoin) -> bool {
    p.denom == c.denom && p.amount@ == decimal(c.amount as nat)
}

/// Each coin with its amount written in decimal, in order.
pub fn to_proto_coins(coins: Vec<WasmCoin>) -> (r: Vec<Coin>)
    ensures
        r.len() == coins.len(),
        forall|i: int| 0 <= i < r.len() ==> coin_carries(#[trigger] r[i], coins[i]),
{
    let mut r: Vec<Coin> = Vec::new();
    let mut i: usize = 0;
    while i < coins.len()
        invariant
            i <= coins.len(),
            r.len() == i,
            forall|j: int| 0 <= j < i ==> coin_carries(#[trigger] r[j], coins[j]),
        decreases coins.len() - i,
    {
        let c = &coins[i];
        r.push(Coin { denom: c.denom.clone(), amount: amount_to_string(c.amount) });
        i = i + 1;
    }
    r
}

/// The proposal message whose content is `msg` tagged with `msg_type_url`.
pub fn executable_proposal(
    msg_type_url: String,
    msg: Vec<u8>,
    initial_deposit: Vec<WasmCoin>,
    proposer: String,
) -> (r: MsgSubmitProposal)
    ensures
        r.content == Some(Any { type_url: msg_type_url, value: msg }),
        r.proposer == proposer,
        r.initial_deposit.len() == initial_deposit.len(),
        forall|i: int|
            0 <= i < initial_deposit.len() ==> coin_carries(
                #[trigger] r.initial_deposit[i],
                initial_deposit[i],
            ),
{
    MsgSubmitProposal {
        content: Some(Any { type_url: msg_type_url, value: msg }),
        initial_deposit: to_proto_coins(initial_deposit),
        proposer,
    }
}

/// What a workflow needs of the chain beyond running messages.
pub trait ChainControl: Runner {
    /// The signing account of the chain's first validator.
    fn get_first_validator_signing_account(&self) -> RunnerResult<SigningAccount>;

    /// Moves the chain's clock forward by `seconds`.
    fn increase_time(&self, seconds: u64);
}

/// The request for the parameters of one kind.
pub fn params_request(params_type: &str) -> (r: QueryParamsRequest)
    ensures
        r.params_type@ == params_type@,
{
    QueryParamsRequest { params_type: params_type.to_owned() }
}

/// The minimum deposit of the deposit parameters; their absence from an
/// answered query is an `InvariantViolation`.
pub fn min_deposit_of(params: QueryParamsResponse) -> (r: RunnerResult<Vec<Coin>>)
    ensures
        match params.deposit_params {
            Some(d) => r == Ok::<Vec<Coin>, RunnerError>(d.min_deposit),
            None => r is Err && r->Err_0 is InvariantViolation,
        },
{
    match params.deposit_params {
        Some(d) => Ok(d.min_deposit),
        None => Err(RunnerError::InvariantViolation { msg: "deposit params must exist".to_owned() }),
    }
}

/// The proposal whose content is `msg` tagged with `msg_type_url`, with
/// `deposit` as its deposit.
pub fn proposal_with_deposit(
    msg_type_url: String,
    msg: Vec<u8>,
    deposit: Vec<Coin>,
    proposer: String,
) -> (r: MsgSubmitProposal)
    ensures
        r == (MsgSubmitProposal {
            content: Some(Any { type_url: msg_type_url, value: msg }),
            initial_deposit: deposit,
            proposer,
        }),
{
    MsgSubmitProposal {
        content: Some(Any { type_url: msg_type_url, value: msg }),
        initial_deposit: deposit,
        proposer,
    }
}

pub open spec fn yes_vote_spec(proposal_id: u64, voter: String) -> MsgVote {
    MsgVote { proposal_id, voter, option: VoteOption::Yes.code() }
}

/// A yes vote by `voter` on the proposal that `submitted` reports.
pub fn yes_vote(submitted: &MsgSubmitProposalResponse, voter: String) -> (r: MsgVote)
    ensures
        r == yes_vote_spec(submitted.proposal_id, voter),
{
    MsgVote { proposal_id: submitted.proposal_id, voter, option: VoteOption::Yes.to_i32() }
}

/// The voting period of `params`, where it is there and not negative.
pub open spec fn voting_period_of(params: QueryParamsResponse) -> Option<Duration> {
    match params.voting_params {
        Some(v) => match v.voting_period {
            Some(p) => if p.seconds >= 0 { Some(p) } else { None },
            None => None,
        },
        None => None,
    }
}

/// One second more than the whole seconds of `p`.
pub open spec fn seconds_past(p: Duration) -> u64 {
    (p.seconds + 1) as u64
}

/// The seconds to move the clock so that the voting period is strictly over:
/// one more than the period's whole seconds. A missing or negative period is
/// an `InvariantViolation`.
pub fn time_to_pass_voting(params: QueryParamsResponse) -> (r: RunnerResult<u64>)
    ensures
        match voting_period_of(params) {
            Some(p) => r == Ok::<u64, RunnerError>(seconds_past(p)),
            None => r is Err && r->Err_0 is InvariantViolation,
        },
{
    let missing = RunnerError::InvariantViolation { msg: "voting period must exist".to_owned() };
    match params.voting_params {
        Some(v) => match v.voting_period {
            Some(p) => if p.seconds >= 0 {
                Ok(p.seconds as u64 + 1)
            } else {
                Err(RunnerError::InvariantViolation { msg: "voting period must not be negative".to_owned() })
            },
            None => Err(missing),
        },
        None => Err(missing),
    }
}

/// Where a proposal's course stands, with what it still carries.
pub enum ProposalStage {
    AwaitDepositParams { msg_type_url: String, msg: Vec<u8>, proposer: String },
    AwaitSubmission,
    AwaitValidator { submitted: ExecuteResponse<MsgSubmitProposalResponse> },
    AwaitVote { submitted: ExecuteResponse<MsgSubmitProposalResponse> },
    AwaitVotingParams { submitted: ExecuteResponse<MsgSubmitProposalResponse> },
    AwaitTime { submitted: ExecuteResponse<MsgSubmitProposalResponse> },
    Finished,
}

/// What the chain answered to the last action.
pub enum ProposalEvent {
    Params(RunnerResult<QueryParamsResponse>),
    Submitted(RunnerExecuteResult<MsgSubmitProposalResponse>),
    Validator(RunnerResult<SigningAccount>),
    Voted(RunnerExecuteResult<MsgVoteResponse>),
    TimeIncreased,
}

/// The next thing to do against the chain.
pub enum ProposalAction {
    QueryParams(QueryParamsRequest),
    Submit(MsgSubmitProposal),
    FetchValidator,
    /// Cast the vote, signed by the account given with it.
    Vote(MsgVote, SigningAccount),
    IncreaseTime(u64),
    Done(RunnerExecuteResult<MsgSubmitProposalResponse>),
}

pub open spec fn stage_rank(s: ProposalStage) -> nat {
    match s {
        ProposalStage::AwaitDepositParams { .. } => 6,
        ProposalStage::AwaitSubmission => 5,
        ProposalStage::AwaitValidator { .. } => 4,
        ProposalStage::AwaitVote { .. } => 3,
        ProposalStage::AwaitVotingParams { .. } => 2,
        ProposalStage::AwaitTime { .. } => 1,
        ProposalStage::Finished => 0,
    }
}

/// The course ends with `e`, the error of a step, unchanged.
pub open spec fn ends_with(next: ProposalStage, action: ProposalAction, e: RunnerError) -> bool {
    next is Finished && action == ProposalAction::Done(
        Err::<ExecuteResponse<MsgSubmitProposalResponse>, RunnerError>(e),
    )
}

/// The course ends because the chain answered something it cannot go on from.
pub open spec fn ends_broken(next: ProposalStage, action: ProposalAction) -> bool {
    next is Finished && action is Done && action->Done_0 is Err
        && action->Done_0->Err_0 is InvariantViolation
}

/// One step of a proposal's course: from `stage` and the chain's answer
/// `event` to the next stage and action.
pub open spec fn proposal_step(
    stage: ProposalStage,
    event: ProposalEvent,
    next: ProposalStage,
    action: ProposalAction,
) -> bool {
    match stage {
        ProposalStage::AwaitDepositParams { msg_type_url, msg, proposer } => match event {
            ProposalEvent::Params(Ok(p)) => match p.deposit_params {
                Some(d) => next is AwaitSubmission && action == ProposalAction::Submit(
                    MsgSubmitProposal {
                        content: Some(Any { type_url: msg_type_url, value: msg }),
                        initial_deposit: d.min_deposit,
                        proposer,
                    },
                ),
                None => ends_broken(next, action),
            },
            ProposalEvent::Params(Err(e)) => ends_with(next, action, e),
            _ => ends_broken(next, action),
        },
        ProposalStage::AwaitSubmission => match event {
            ProposalEvent::Submitted(Ok(s)) => next == ProposalStage::AwaitValidator { submitted: s }
                && action is FetchValidator,
            ProposalEvent::Submitted(Err(e)) => ends_with(next, action, e),
            _ => ends_broken(next, action),
        },
        ProposalStage::AwaitValidator { submitted } => match event {
            ProposalEvent::Validator(Ok(v)) => next == ProposalStage::AwaitVote { submitted }
                && action is Vote
                && action->Vote_0.proposal_id == submitted.data.proposal_id
                && action->Vote_0.voter@ == v.address@
                && action->Vote_0.option == VoteOption::Yes.code()
                && action->Vote_1 == v,
            ProposalEvent::Validator(Err(e)) => ends_with(next, action, e),
            _ => ends_broken(next, action),
        },
        ProposalStage::AwaitVote { submitted } => match event {
            ProposalEvent::Voted(Ok(_)) => next == ProposalStage::AwaitVotingParams { submitted }
                && action is QueryParams
                && action->QueryParams_0.params_type@ == "voting"@,
            ProposalEvent::Voted(Err(e)) => ends_with(next, action, e),
            _ => ends_broken(next, action),
        },
        ProposalStage::AwaitVotingParams { submitted } => match event {
            ProposalEvent::Params(Ok(p)) => match voting_period_of(p) {
                Some(d) => next == ProposalStage::AwaitTime { submitted }
                    && action == ProposalAction::IncreaseTime(seconds_past(d))
                    && seconds_past(d) > d.seconds,
                None => ends_broken(next, action),
            },
            ProposalEvent::Params(Err(e)) => ends_with(next, action, e),
            _ => ends_broken(next, action),
        },
        ProposalStage::AwaitTime { submitted } => match event {
            ProposalEvent::TimeIncreased => next is Finished && action == ProposalAction::Done(
                Ok::<ExecuteResponse<MsgSubmitProposalResponse>, RunnerError>(submitted),
            ),
            _ => ends_broken(next, action),
        },
        ProposalStage::Finished => ends_broken(next, action),
    }
}

fn broken(msg: &str) -> (r: (ProposalStage, ProposalAction))
    ensures
        ends_broken(r.0, r.1),
{
    let e = RunnerError::InvariantViolation { msg: msg.to_owned() };
    (ProposalStage::Finished, ProposalAction::Done(Err(e)))
}

fn failed(e: RunnerError) -> (r: (ProposalStage, ProposalAction))
    ensures
        ends_with(r.0, r.1, e),
{
    (ProposalStage::Finished, ProposalAction::Done(Err(e)))
}

/// The first stage and action of a proposal's course: query the deposit
/// parameters.
pub fn start_proposal(msg_type_url: String, msg: Vec<u8>, proposer: String) -> (r: (
    ProposalStage,
    ProposalAction,
))
    ensures
        r.0 == (ProposalStage::AwaitDepositParams { msg_type_url, msg, proposer }),
        r.1 is QueryParams,
        r.1->QueryParams_0.params_type@ == "deposit"@,
{
    (
        ProposalStage::AwaitDepositParams { msg_type_url, msg, proposer },
        ProposalAction::QueryParams(params_request("deposit")),
    )
}

/// The step of a proposal's course that follows the chain's answer `event`.
/// Submission carries the queried minimum deposit; the vote is a yes by the
/// validator on the id that the submission returned; the clock moves one
/// second past the voting period; the course ends with the submission's
/// result, or with the first error unchanged.
pub fn next_proposal_step(stage: ProposalStage, event: ProposalEvent) -> (r: (
    ProposalStage,
    ProposalAction,
))
    ensures
        proposal_step(stage, event, r.0, r.1),
        r.1 is Done <==> r.0 is Finished,
        !(stage is Finished) ==> stage_rank(r.0) < stage_rank(stage),
{
    match stage {
        ProposalStage::AwaitDepositParams { msg_type_url, msg, proposer } => match event {
            ProposalEvent::Params(Ok(p)) => match min_deposit_of(p) {
                Ok(d) => (
                    ProposalStage::AwaitSubmission,
                    ProposalAction::Submit(proposal_with_deposit(msg_type_url, msg, d, proposer)),
                ),
                Err(_) => broken("deposit params must exist"),
            },
            ProposalEvent::Params(Err(e)) => failed(e),
            _ => broken("expected the deposit params"),
        },
        ProposalStage::AwaitSubmission => match event {
            ProposalEvent::Submitted(Ok(s)) => (
                ProposalStage::AwaitValidator { submitted: s },
                ProposalAction::FetchValidator,
            ),
            ProposalEvent::Submitted(Err(e)) => failed(e),
            _ => broken("expected the submission's result"),
        },
        ProposalStage::AwaitValidator { submitted } => match event {
            ProposalEvent::Validator(Ok(v)) => {
                let ballot = yes_vote(&submitted.data, v.address());
                (ProposalStage::AwaitVote { submitted }, ProposalAction::Vote(ballot, v))
            },
            ProposalEvent::Validator(Err(e)) => failed(e),
            _ => broken("expected the validator account"),
        },
        ProposalStage::AwaitVote { submitted } => match event {
            ProposalEvent::Voted(Ok(_)) => (
                ProposalStage::AwaitVotingParams { submitted },
                ProposalAction::QueryParams(params_request("voting")),
            ),
            ProposalEvent::Voted(Err(e)) => failed(e),
            _ => broken("expected the vote's result"),
        },
        ProposalStage::AwaitVotingParams { submitted } => match event {
            ProposalEvent::Params(Ok(p)) => match time_to_pass_voting(p) {
                Ok(seconds) => (ProposalStage::AwaitTime { submitted }, ProposalAction::IncreaseTime(seconds)),
                Err(_) => broken("voting period must exist"),
            },
            ProposalEvent::Params(Err(e)) => failed(e),
            _ => broken("expected the voting params"),
        },
        ProposalStage::AwaitTime { submitted } => match event {
            ProposalEvent::TimeIncreased => (ProposalStage::Finished, ProposalAction::Done(Ok(submitted))),
            _ => broken("expected the clock to have moved"),
        },
        ProposalStage::Finished => broken("the course is over"),
    }
}

/// The submission that a stage or a final result carries decodes from its
/// own raw bytes.
pub open spec fn decoded_submission(stage: ProposalStage, action: ProposalAction) -> bool {
    &&& match stage {
        ProposalStage::AwaitValidator { submitted } => submit_response_of(submitted.raw_data@) == Some(submitted.data),
        ProposalStage::AwaitVote { submitted } => submit_response_of(submitted.raw_data@) == Some(submitted.data),
        ProposalStage::AwaitVotingParams { submitted } => submit_response_of(submitted.raw_data@) == Some(submitted.data),
        ProposalStage::AwaitTime { submitted } => submit_response_of(submitted.raw_data@) == Some(submitted.data),
        _ => true,
    }
    &&& match action {
        ProposalAction::Done(Ok(x)) => submit_response_of(x.raw_data@) == Some(x.data),
        _ => true,
    }
}

/// The governance module together with the chain control that a proposal's
/// whole course needs.
pub struct GovWithAppAccess<'a, A: ChainControl> {
    gov: Gov<'a, A>,
    app: &'a A,
}

impl<'a, A: ChainControl> GovWithAppAccess<'a, A> {
    pub closed spec fn app_spec(&self) -> &'a A {
        self.app
    }

    pub closed spec fn gov_spec(&self) -> &Gov<'a, A> {
        &self.gov
    }

    pub fn new(app: &'a A) -> (r: Self)
        ensures
            r.app_spec() == app,
            r.gov_spec().runner_of() == app,
    {
        GovWithAppAccess { gov: Gov { runner: app }, app }
    }

    /// The plain governance module over the same chain.
    pub fn to_gov(&self) -> (r: &Gov<'a, A>)
        ensures
            r == self.gov_spec(),
    {
        &self.gov
    }

    /// Submits a proposal whose content is `msg`, encoded and tagged with
    /// `msg_type_url`, with the chain's minimum deposit; has the first
    /// validator vote yes on it; and moves the clock one second past the
    /// voting period. Returns the submission's result. The first failing
    /// step ends the workflow with its error. Each step is the one that
    /// `next_proposal_step` gives for the chain's last answer.
    pub fn propose_and_execute(
        &self,
        msg_type_url: String,
        msg: Vec<u8>,
        proposer: String,
        signer: &SigningAccount,
    ) -> (r: RunnerExecuteResult<MsgSubmitProposalResponse>)
        ensures
            r is Ok ==> submit_response_of(r->Ok_0.raw_data@) == Some(r->Ok_0.data),
    {
        let (mut stage, mut action) = start_proposal(msg_type_url, msg, proposer);
        loop
            invariant
                action is Done <==> stage is Finished,
                decoded_submission(stage, action),
            decreases stage_rank(stage),
        {
            let event = match action {
                ProposalAction::Done(r) => {
                    return r;
                },
                ProposalAction::QueryParams(req) => ProposalEvent::Params(self.gov.query_params(&req)),
                ProposalAction::Submit(m) => ProposalEvent::Submitted(self.gov.submit_proposal(&m, signer)),
                ProposalAction::FetchValidator => ProposalEvent::Validator(
                    self.app.get_first_validator_signing_account(),
                ),
                ProposalAction::Vote(ballot, validator) => ProposalEvent::Voted(
                    self.gov.vote(&ballot, &validator),
                ),
                ProposalAction::IncreaseTime(seconds) => {
                    self.app.increase_time(seconds);
                    ProposalEvent::TimeIncreased
                },
            };
            let (next, act) = next_proposal_step(stage, event);
            stage = next;
            action = act;
        }
    }
}

} // verus!
