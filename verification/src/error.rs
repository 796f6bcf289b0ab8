//! Failure kinds of the request/callback protocol.

use vstd::prelude::*;

verus! {

/// Every way an invocation of the consumer can abort. Each failure aborts the
/// whole invocation: no request is emitted and no outcome is produced.
#[derive(Clone, Copy, Debug, PartialEq, Eq, Structural)]
pub enum ContractError {
    /// The oracle address was asked for before it was stored.
    NotInitialized,
    /// The funds attached to a request do not cover the quoted fee.
    InsufficientFunds,
    /// The fee query to the oracle produced no reply.
    OracleUnreachable,
    /// The fee query's reply could not be decoded.
    OracleMalformedResponse,
    /// A callback came from somewhere other than the configured oracle, or
    /// answers a request this consumer never made.
    Unauthorized,
    /// The correlation payload of a callback could not be decoded.
    MalformedPayload,
    /// A callback carried no entropy bytes at all.
    EmptyEntropy,
}

} // verus!
