//! Authenticating the oracle's callback before anything in it is trusted.

use vstd::prelude::*;

use crate::config::{Config, ConfigStore};
use crate::error::ContractError;
use crate::identity::Identity;
use crate::payload::spec_decode_payload;
use crate::resolve::{resolve, spec_outcome, FlipResult};

verus! {

/// An inbound callback as the host delivers it: who sent the enclosing
/// message, which requester the oracle answers, the entropy bytes, and the
/// correlation payload handed back from the matching request.
pub struct Callback {
    pub sender: Identity,
    pub requester: Identity,
    pub entropy: Vec<u8>,
    pub correlation_payload: Vec<u8>,
}

/// Validates a callback's provenance, and only that. It passes exactly when
/// the enclosing message came from the configured oracle and the callback
/// answers a request this very consumer made; any other callback is
/// `Unauthorized`, whatever it carries. Both checks come before any look at
/// the payload: trusting unauthenticated content even transiently is a
/// forbidden state.
pub fn authenticate(callback: Callback, own_address: &Identity, config: &Config) -> (r: Result<
    Callback,
    ContractError,
>)
    ensures
        r is Ok <==> (callback.sender@ == config.oracle_address@ && callback.requester@
            == own_address@),
        r matches Ok(c) ==> c == callback,
        r is Err ==> r == Err::<Callback, ContractError>(ContractError::Unauthorized),
{
    if !callback.sender.equals(&config.oracle_address) {
        return Err(ContractError::Unauthorized);
    }
    if !callback.requester.equals(own_address) {
        return Err(ContractError::Unauthorized);
    }
    Ok(callback)
}

/// The callback entry point. Loads the configuration, authenticates the
/// callback and resolves the outcome; a failure at any step aborts the
/// invocation with no outcome produced.
pub fn receive_entropy(store: &ConfigStore, own_address: &Identity, callback: Callback) -> (r:
    Result<FlipResult, ContractError>)
    ensures
        !store.spec_initialized() ==> r == Err::<FlipResult, ContractError>(
            ContractError::NotInitialized,
        ),
        store.spec_initialized() && !(callback.sender@ == store.spec_oracle()
            && callback.requester@ == own_address@) ==> r == Err::<FlipResult, ContractError>(
            ContractError::Unauthorized,
        ),
        store.spec_initialized() && callback.sender@ == store.spec_oracle() && callback.requester@
            == own_address@ ==> {
            &&& spec_decode_payload(callback.correlation_payload@) is None ==> r == Err::<
                FlipResult,
                ContractError,
            >(ContractError::MalformedPayload)
            &&& spec_decode_payload(callback.correlation_payload@) is Some
                && callback.entropy@.len() == 0 ==> r == Err::<FlipResult, ContractError>(
                ContractError::EmptyEntropy,
            )
            &&& spec_decode_payload(callback.correlation_payload@) matches Some(id) ==> (
            callback.entropy@.len() > 0 ==> (r matches Ok(f) && f.outcome == spec_outcome(
                callback.entropy@,
            ) && f.original_caller@ == id))
        },
{
    let config = match store.load() {
        Ok(config) => config,
        Err(e) => { return Err(e) },
    };
    let authenticated = match authenticate(callback, own_address, config) {
        Ok(c) => c,
        Err(e) => { return Err(e) },
    };
    resolve(&authenticated.entropy, &authenticated.correlation_payload)
}

} // verus!
