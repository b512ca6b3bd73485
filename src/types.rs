//! The governance messages that the bindings send and receive, as plain values.
use vstd::prelude::*;

verus! {

/// An amount of one denomination, with the amount as a decimal string.
#[derive(Clone, Debug, PartialEq, Eq)]
pub struct Coin {
    pub denom: String,
    pub amount: String,
}

/// An amount of one denomination, with the amount as an integer.
#[derive(Clone, Debug, PartialEq, Eq)]
pub struct WasmCoin {
    pub denom: String,
    pub amount: u128,
}

/// An encoded message tagged with the type URL that names its schema.
#[derive(Clone, Debug, PartialEq, Eq)]
pub struct Any {
    pub type_url: String,
    pub value: Vec<u8>,
}

/// A signed span of time.
#[derive(Clone, Copy, Debug, PartialEq, Eq)]
pub struct Duration {
    pub seconds: i64,
    pub nanos: i32,
}

#[derive(Clone, Debug, PartialEq, Eq)]
pub struct MsgSubmitProposal {
    pub content: Option<Any>,
    pub initial_deposit: Vec<Coin>,
    pub proposer: String,
}

#[derive(Clone, Copy, Debug, PartialEq, Eq)]
pub struct MsgSubmitProposalResponse {
    pub proposal_id: u64,
}

#[derive(Clone, Debug, PartialEq, Eq)]
pub struct MsgVote {
    pub proposal_id: u64,
    pub voter: String,
    pub option: i32,
}

#[derive(Clone, Copy, Debug, PartialEq, Eq)]
pub struct MsgVoteResponse {}

#[derive(Clone, Copy, Debug, PartialEq, Eq)]
pub enum VoteOption {
    Unspecified,
    Yes,
    Abstain,
    No,
    NoWithVeto,
}

impl VoteOption {
    pub open spec fn code(self) -> i32 {
        match self {
            VoteOption::Unspecified => 0,
            VoteOption::Yes => 1,
            VoteOption::Abstain => 2,
            VoteOption::No => 3,
            VoteOption::NoWithVeto => 4,
        }
    }

    /// The wire code of the option.
    pub fn to_i32(self) -> (r: i32)
        ensures
            r == self.code(),
    {
        match self {
            VoteOption::Unspecified => 0,
            VoteOption::Yes => 1,
            VoteOption::Abstain => 2,
            VoteOption::No => 3,
            VoteOption::NoWithVeto => 4,
        }
    }
}

#[derive(Clone, Debug, PartialEq, Eq)]
pub struct QueryParamsRequest {
    pub params_type: String,
}

#[derive(Clone, Debug, PartialEq, Eq)]
pub struct DepositParams {
    pub min_deposit: Vec<Coin>,
    pub max_deposit_period: Option<Duration>,
}

#[derive(Clone, Copy, Debug, PartialEq, Eq)]
pub struct VotingParams {
    pub voting_period: Option<Duration>,
}

#[derive(Clone, Debug, PartialEq, Eq)]
pub struct TallyParams {
    pub quorum: Vec<u8>,
    pub threshold: Vec<u8>,
    pub veto_threshold: Vec<u8>,
}

#[derive(Clone, Debug, PartialEq, Eq)]
pub struct QueryParamsResponse {
    pub voting_params: Option<VotingParams>,
    pub deposit_params: Option<DepositParams>,
    pub tally_params: Option<TallyParams>,
}

#[derive(Clone, Copy, Debug, PartialEq, Eq)]
pub struct QueryProposalRequest {
    pub proposal_id: u64,
}

/// A proposal as the chain reports it: its id, content, status code and the
/// deposit paid so far.
#[derive(Clone, Debug, PartialEq, Eq)]
pub struct Proposal {
    pub proposal_id: u64,
    pub content: Option<Any>,
    pub status: i32,
    pub total_deposit: Vec<Coin>,
}

#[derive(Clone, Debug, PartialEq, Eq)]
pub struct QueryProposalResponse {
    pub proposal: Option<Proposal>,
}

} // verus!
