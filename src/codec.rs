//! Protobuf encoding and decoding of the governance messages, done by prost on
//! neutron-std's generated types, and the decimal form of coin amounts.
use vstd::prelude::*;
use crate::types::{
    Any, Coin, DepositParams, Duration, MsgSubmitProposal, MsgSubmitProposalResponse, MsgVote,
    MsgVoteResponse, Proposal, QueryParamsRequest, QueryParamsResponse, QueryProposalRequest,
    QueryProposalResponse, TallyParams, VotingParams,
};
use neutron_std::types::cosmos::base::v1beta1 as pb_base;
use neutron_std::types::cosmos::gov::v1beta1 as pb_gov;
use prost::Message;

verus! {

/// The character of a decimal digit.
pub open spec fn digit_char(d: nat) -> char {
    if d == 0 { '0' }
    else if d == 1 { '1' }
    else if d == 2 { '2' }
    else if d == 3 { '3' }
    else if d == 4 { '4' }
    else if d == 5 { '5' }
    else if d == 6 { '6' }
    else if d == 7 { '7' }
    else if d == 8 { '8' }
    else { '9' }
}

/// The decimal form of `n`: no sign, no leading zero but for zero itself.
pub open spec fn decimal(n: nat) -> Seq<char>
    decreases n,
{
    if n < 10 {
        seq![digit_char(n)]
    } else {
        decimal(n / 10).push(digit_char(n % 10))
    }
}

/// The value of a decimal digit character.
pub open spec fn digit_value(c: char) -> nat {
    if c == '1' { 1 }
    else if c == '2' { 2 }
    else if c == '3' { 3 }
    else if c == '4' { 4 }
    else if c == '5' { 5 }
    else if c == '6' { 6 }
    else if c == '7' { 7 }
    else if c == '8' { 8 }
    else if c == '9' { 9 }
    else { 0 }
}

/// The number that a string of decimal digits reads as.
pub open spec fn decimal_value(s: Seq<char>) -> nat
    decreases s.len(),
{
    if s.len() == 0 {
        0
    } else {
        decimal_value(s.drop_last()) * 10 + digit_value(s.last())
    }
}

proof fn lemma_digit(d: nat)
    requires
        d < 10,
    ensures
        digit_value(digit_char(d)) == d,
        '0' <= digit_char(d) <= '9',
{
}

/// Writing an amount in decimal loses nothing: the string reads back as the
/// same number, and holds only digits.
pub proof fn lemma_decimal_round_trip(n: nat)
    ensures
        decimal_value(decimal(n)) == n,
        decimal(n).len() > 0,
        forall|i: int| 0 <= i < decimal(n).len() ==> '0' <= #[trigger] decimal(n)[i] <= '9',
    decreases n,
{
    if n < 10 {
        lemma_digit(n);
        let s = decimal(n);
        assert(s.drop_last() =~= Seq::<char>::empty());
        assert(decimal_value(s.drop_last()) == 0);
        assert(decimal_value(s) == decimal_value(s.drop_last()) * 10 + digit_value(s.last()));
    } else {
        lemma_decimal_round_trip(n / 10);
        lemma_digit(n % 10);
        let s = decimal(n / 10).push(digit_char(n % 10));
        assert(s.drop_last() =~= decimal(n / 10));
        assert(s.last() == digit_char(n % 10));
        assert((n / 10) * 10 + n % 10 == n) by (nonlinear_arith);
        assert(decimal(n) == s);
        assert(decimal_value(s) == decimal_value(s.drop_last()) * 10 + digit_value(s.last()));
    }
}

/// The protobuf encoding of a `MsgSubmitProposal`.
pub uninterp spec fn submit_proposal_bytes(m: MsgSubmitProposal) -> Seq<u8>;

/// The protobuf encoding of a `MsgVote`.
pub uninterp spec fn vote_bytes(m: MsgVote) -> Seq<u8>;

/// The protobuf encoding of a `QueryParamsRequest`.
pub uninterp spec fn params_request_bytes(m: QueryParamsRequest) -> Seq<u8>;

/// The protobuf encoding of a `QueryProposalRequest`.
pub uninterp spec fn proposal_request_bytes(m: QueryProposalRequest) -> Seq<u8>;

/// What prost decodes a `QueryProposalResponse` from, if the bytes parse.
pub uninterp spec fn proposal_response_of(b: Seq<u8>) -> Option<QueryProposalResponse>;

/// What prost decodes a `MsgSubmitProposalResponse` from, if the bytes parse.
pub uninterp spec fn submit_response_of(b: Seq<u8>) -> Option<MsgSubmitProposalResponse>;

/// What prost decodes a `MsgVoteResponse` from, if the bytes parse.
pub uninterp spec fn vote_response_of(b: Seq<u8>) -> Option<MsgVoteResponse>;

/// What prost decodes a `QueryParamsResponse` from, if the bytes parse.
pub uninterp spec fn params_response_of(b: Seq<u8>) -> Option<QueryParamsResponse>;

/// Relies on cosmwasm_std::Uint128's `Display`, which writes the inner `u128`
/// in decimal.
#[verifier::external_body]
pub(crate) fn amount_to_string(n: u128) -> (r: String)
    ensures
        r@ == decimal(n as nat),
{
    cosmwasm_std::Uint128::new(n).to_string()
}

/// Relies on prost's `Message::encode_to_vec` for neutron-std's
/// `MsgSubmitProposal`: a result that depends on the message alone.
#[verifier::external_body]
pub(crate) fn encode_submit_proposal(m: &MsgSubmitProposal) -> (r: Vec<u8>)
    ensures
        r@ == submit_proposal_bytes(*m),
{
    let content = m.content.as_ref().map(
        |a| neutron_std::shim::Any { type_url: a.type_url.clone(), value: a.value.clone() },
    );
    let initial_deposit = m.initial_deposit.iter().map(
        |c| pb_base::Coin { denom: c.denom.clone(), amount: c.amount.clone() },
    ).collect();
    pb_gov::MsgSubmitProposal { content, initial_deposit, proposer: m.proposer.clone() }
        .encode_to_vec()
}

/// Relies on prost's `Message::encode_to_vec` for neutron-std's `MsgVote`: a
/// result that depends on the message alone.
#[verifier::external_body]
pub(crate) fn encode_vote(m: &MsgVote) -> (r: Vec<u8>)
    ensures
        r@ == vote_bytes(*m),
{
    pb_gov::MsgVote { proposal_id: m.proposal_id, voter: m.voter.clone(), option: m.option }
        .encode_to_vec()
}

/// Relies on prost's `Message::encode_to_vec` for neutron-std's
/// `QueryParamsRequest`: a result that depends on the message alone.
#[verifier::external_body]
pub(crate) fn encode_params_request(m: &QueryParamsRequest) -> (r: Vec<u8>)
    ensures
        r@ == params_request_bytes(*m),
{
    pb_gov::QueryParamsRequest { params_type: m.params_type.clone() }.encode_to_vec()
}

/// Relies on prost's `Message::encode_to_vec` for neutron-std's
/// `QueryProposalRequest`: a result that depends on the message alone.
#[verifier::external_body]
pub(crate) fn encode_proposal_request(m: &QueryProposalRequest) -> (r: Vec<u8>)
    ensures
        r@ == proposal_request_bytes(*m),
{
    pb_gov::QueryProposalRequest { proposal_id: m.proposal_id }.encode_to_vec()
}

/// Relies on prost's `Message::decode` for neutron-std's
/// `QueryProposalResponse`: a result that depends on the bytes alone.
#[verifier::external_body]
pub(crate) fn decode_proposal_response(b: &Vec<u8>) -> (r: Result<QueryProposalResponse, String>)
    ensures
        r is Ok <==> proposal_response_of(b@) is Some,
        r is Ok ==> proposal_response_of(b@) == Some(r->Ok_0),
{
    let d = pb_gov::QueryProposalResponse::decode(b.as_slice()).map_err(|e| e.to_string())?;
    Ok(QueryProposalResponse { proposal: d.proposal.map(|p| Proposal {
        proposal_id: p.proposal_id,
        content: p.content.map(|a| Any { type_url: a.type_url, value: a.value }),
        status: p.status,
        total_deposit: p.total_deposit.into_iter().map(|c| Coin { denom: c.denom, amount: c.amount }).collect(),
    }) })
}

/// Relies on prost's `Message::decode` for neutron-std's
/// `MsgSubmitProposalResponse`: a result that depends on the bytes alone.
#[verifier::external_body]
pub(crate) fn decode_submit_response(b: &Vec<u8>) -> (r: Result<MsgSubmitProposalResponse, String>)
    ensures
        r is Ok <==> submit_response_of(b@) is Some,
        r is Ok ==> submit_response_of(b@) == Some(r->Ok_0),
{
    pb_gov::MsgSubmitProposalResponse::decode(b.as_slice())
        .map(|d| MsgSubmitProposalResponse { proposal_id: d.proposal_id })
        .map_err(|e| e.to_string())
}

/// Relies on prost's `Message::decode` for neutron-std's `MsgVoteResponse`: a
/// result that depends on the bytes alone.
#[verifier::external_body]
pub(crate) fn decode_vote_response(b: &Vec<u8>) -> (r: Result<MsgVoteResponse, String>)
    ensures
        r is Ok <==> vote_response_of(b@) is Some,
        r is Ok ==> vote_response_of(b@) == Some(r->Ok_0),
{
    pb_gov::MsgVoteResponse::decode(b.as_slice())
        .map(|_| MsgVoteResponse {})
        .map_err(|e| e.to_string())
}

/// Relies on prost's `Message::decode` for neutron-std's
/// `QueryParamsResponse`: a result that depends on the bytes alone.
#[verifier::external_body]
pub(crate) fn decode_params_response(b: &Vec<u8>) -> (r: Result<QueryParamsResponse, String>)
    ensures
        r is Ok <==> params_response_of(b@) is Some,
        r is Ok ==> params_response_of(b@) == Some(r->Ok_0),
{
    let d = pb_gov::QueryParamsResponse::decode(b.as_slice()).map_err(|e| e.to_string())?;
    let dur = |p: Option<neutron_std::shim::Duration>| p.map(|p| Duration { seconds: p.seconds, nanos: p.nanos });
    Ok(QueryParamsResponse {
        voting_params: d.voting_params.map(|v| VotingParams { voting_period: dur(v.voting_period) }),
        deposit_params: d.deposit_params.map(|p| DepositParams {
            min_deposit: p.min_deposit.into_iter().map(|c| Coin { denom: c.denom, amount: c.amount }).collect(),
            max_deposit_period: dur(p.max_deposit_period),
        }),
        tally_params: d.tally_params.map(|t| TallyParams { quorum: t.quorum, threshold: t.threshold, veto_threshold: t.veto_threshold }),
    })
}

} // verus!
