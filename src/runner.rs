//! The seam between typed bindings and the chain: a runner takes encoded
//! requests addressed by type URL and hands back encoded results.
use vstd::prelude::*;
use crate::error::RunnerError;

verus! {

/// A credential that signs transactions; the harness reads only its address.
#[derive(Clone, Debug, PartialEq, Eq)]
pub struct SigningAccount {
    pub address: String,
}

impl SigningAccount {
    pub fn new(address: String) -> (r: SigningAccount)
        ensures
            r.address == address,
    {
        SigningAccount { address }
    }

    /// The account's address.
    pub fn address(&self) -> (r: String)
        ensures
            r@ == self.address@,
    {
        self.address.clone()
    }
}

/// What the chain reports for a transaction: the result payload still
/// encoded, and its log.
#[derive(Clone, Debug, PartialEq, Eq)]
pub struct RawExecuteResponse {
    pub data: Vec<u8>,
    pub log: String,
}

/// A transaction's result with its payload decoded.
#[derive(Clone, Debug, PartialEq, Eq)]
pub struct ExecuteResponse<T> {
    pub data: T,
    pub raw_data: Vec<u8>,
    pub log: String,
}

pub type RunnerExecuteResult<T> = Result<ExecuteResponse<T>, RunnerError>;

pub type RunnerResult<T> = Result<T, RunnerError>;

/// The chain that runs transactions and answers queries. Each call reaches
/// the chain exactly once; a rejection comes back as `ExecuteError` or
/// `QueryError` with the chain's own message.
pub trait Runner {
    /// Submits `msg`, encoded, as a transaction routed by `type_url` and
    /// signed by `signer`.
    fn execute_raw(&self, type_url: &str, msg: Vec<u8>, signer: &SigningAccount) -> RunnerResult<
        RawExecuteResponse,
    >;

    /// Sends `msg`, encoded, as a read-only query routed by `type_url`.
    fn query_raw(&self, type_url: &str, msg: Vec<u8>) -> RunnerResult<Vec<u8>>;
}

/// `r` is what a binding owes for the runner's answer `raw` to a transaction,
/// where `decoded` is what its payload decodes to: the runner's error
/// unchanged, the decoded payload, or `DecodeError` where it does not decode.
pub open spec fn executed_as<T>(
    raw: RunnerResult<RawExecuteResponse>,
    decoded: Option<T>,
    r: RunnerExecuteResult<T>,
) -> bool {
    match raw {
        Err(e) => r == Err::<ExecuteResponse<T>, RunnerError>(e),
        Ok(x) => match decoded {
            Some(d) => r == Ok::<ExecuteResponse<T>, RunnerError>(
                ExecuteResponse { data: d, raw_data: x.data, log: x.log },
            ),
            None => r is Err && r->Err_0 is DecodeError,
        },
    }
}

/// `r` is what a binding owes for the runner's answer `raw` to a query, where
/// `decoded` is what the answer decodes to.
pub open spec fn queried_as<T>(raw: RunnerResult<Vec<u8>>, decoded: Option<T>, r: RunnerResult<T>) -> bool {
    match raw {
        Err(e) => r == Err::<T, RunnerError>(e),
        Ok(_) => match decoded {
            Some(d) => r == Ok::<T, RunnerError>(d),
            None => r is Err && r->Err_0 is DecodeError,
        },
    }
}

/// The typed result of a transaction, from what the chain reported and what
/// its payload decoded to: a decode failure becomes `DecodeError`.
pub fn finish_execute<T>(raw: RawExecuteResponse, decoded: Result<T, String>) -> (r:
    RunnerExecuteResult<T>)
    ensures
        match decoded {
            Ok(d) => r == Ok::<ExecuteResponse<T>, RunnerError>(
                ExecuteResponse { data: d, raw_data: raw.data, log: raw.log },
            ),
            Err(m) => r == Err::<ExecuteResponse<T>, RunnerError>(
                RunnerError::DecodeError { msg: m },
            ),
        },
{
    match decoded {
        Ok(data) => Ok(ExecuteResponse { data, raw_data: raw.data, log: raw.log }),
        Err(msg) => Err(RunnerError::DecodeError { msg }),
    }
}

/// The typed result of a query, from what its payload decoded to: a decode
/// failure becomes `DecodeError`.
pub fn finish_query<T>(decoded: Result<T, String>) -> (r: RunnerResult<T>)
    ensures
        match decoded {
            Ok(d) => r == Ok::<T, RunnerError>(d),
            Err(m) => r == Err::<T, RunnerError>(RunnerError::DecodeError { msg: m }),
        },
{
    match decoded {
        Ok(data) => Ok(data),
        Err(msg) => Err(RunnerError::DecodeError { msg }),
    }
}

} // verus!
