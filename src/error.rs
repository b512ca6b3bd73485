use vstd::prelude::*;

verus! {

/// The failure of one call against the chain; exactly one kind is held.
#[derive(Clone, Debug, PartialEq, Eq)]
pub enum RunnerError {
    /// A request could not be serialized.
    EncodeError { msg: String },
    /// Response bytes did not match the expected schema.
    DecodeError { msg: String },
    /// The chain rejected a transaction; its message is kept verbatim.
    ExecuteError { msg: String },
    /// The chain could not answer a query; its message is kept verbatim.
    QueryError { msg: String },
    /// A query succeeded but lacked data the workflow cannot go on without.
    InvariantViolation { msg: String },
}

impl RunnerError {
    /// The message carried by the error, whatever its kind.
    pub fn message(&self) -> (r: &String)
        ensures
            r == self.msg_spec(),
    {
        match self {
            RunnerError::EncodeError { msg } => msg,
            RunnerError::DecodeError { msg } => msg,
            RunnerError::ExecuteError { msg } => msg,
            RunnerError::QueryError { msg } => msg,
            RunnerError::InvariantViolation { msg } => msg,
        }
    }

    pub open spec fn msg_spec(&self) -> &String {
        match self {
            RunnerError::EncodeError { msg } => msg,
            RunnerError::DecodeError { msg } => msg,
            RunnerError::ExecuteError { msg } => msg,
            RunnerError::QueryError { msg } => msg,
            RunnerError::InvariantViolation { msg } => msg,
        }
    }
}

} // verus!
