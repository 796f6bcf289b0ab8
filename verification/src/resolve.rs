//! Deriving the observable outcome from the oracle's entropy.

use vstd::prelude::*;

use crate::error::ContractError;
use crate::identity::Identity;
use crate::payload::{decode_payload, spec_decode_payload};

verus! {

/// The two sides of the flip.
#[derive(Clone, Copy, Debug, PartialEq, Eq, Structural)]
pub enum Outcome {
    Heads,
    Tails,
}

/// The observable result of one callback: which side came up, and which
/// caller's request it answers (recovered from the correlation payload).
pub struct FlipResult {
    pub outcome: Outcome,
    pub original_caller: Identity,
}

/// The outcome a run of entropy resolves to: heads when its last byte is
/// even, tails when odd. A parity test on one uniformly random byte is
/// statistically fair and needs no further extraction.
pub open spec fn spec_outcome(entropy: Seq<u8>) -> Outcome
    recommends
        entropy.len() > 0,
{
    if entropy.last() % 2 == 0 {
        Outcome::Heads
    } else {
        Outcome::Tails
    }
}

/// The outcome is a pure function of the last byte alone: two entropy runs
/// that end in the same byte resolve to the same side.
pub proof fn lemma_outcome_depends_on_last_byte(e1: Seq<u8>, e2: Seq<u8>)
    requires
        e1.len() > 0,
        e2.len() > 0,
        e1.last() == e2.last(),
    ensures
        spec_outcome(e1) == spec_outcome(e2),
{
}

/// Turns the entropy and the returned correlation payload into the outcome.
/// A payload that does not decode fails as `MalformedPayload`; entropy with
/// no bytes fails as `EmptyEntropy` rather than trusting a missing byte.
pub fn resolve(entropy: &Vec<u8>, correlation_payload: &Vec<u8>) -> (r: Result<
    FlipResult,
    ContractError,
>)
    ensures
        spec_decode_payload(correlation_payload@) is None ==> r == Err::<
            FlipResult,
            ContractError,
        >(ContractError::MalformedPayload),
        spec_decode_payload(correlation_payload@) is Some && entropy@.len() == 0 ==> r == Err::<
            FlipResult,
            ContractError,
        >(ContractError::EmptyEntropy),
        spec_decode_payload(correlation_payload@) matches Some(id) ==> (entropy@.len() > 0 ==> (
        r matches Ok(f) && f.outcome == spec_outcome(entropy@) && f.original_caller@ == id)),
{
    let original_caller = match decode_payload(correlation_payload) {
        Ok(id) => id,
        Err(e) => { return Err(e) },
    };
    if entropy.len() == 0 {
        return Err(ContractError::EmptyEntropy);
    }
    let last: u8 = entropy[entropy.len() - 1];
    let outcome = if last % 2 == 0 {
        Outcome::Heads
    } else {
        Outcome::Tails
    };
    Ok(FlipResult { outcome, original_caller })
}

} // verus!
