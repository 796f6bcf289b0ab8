//! Dispatching a request for entropy: fee accounting and construction of the
//! one outbound message.

use vstd::prelude::*;

use crate::config::ConfigStore;
use crate::error::ContractError;
use crate::fee::{spec_decode_fee_reply, quote_fee_from_reply};
use crate::identity::Identity;
use crate::payload::{encode_payload, spec_encode_payload};

verus! {

/// One denomination of funds attached to a call. The dispatcher sums the
/// amounts of all attached coins without looking at the denominations:
/// checking that they are the chain's native token is deliberately left to
/// the caller, and a payment in the wrong denomination would be accepted as
/// if it were sufficient.
pub struct Coin {
    pub denom: Vec<u8>,
    pub amount: u128,
}

/// The one outbound message of a successful request: the gas provisioned for
/// the callback, this consumer's own address for the oracle to call back,
/// a payment of exactly the quoted fee, and the opaque correlation payload
/// the oracle must hand back unchanged.
pub struct OutboundRequest {
    pub gas_budget: u64,
    pub callback_address: Identity,
    pub fee_payment: u128,
    pub correlation_payload: Vec<u8>,
}

/// Total of the amounts attached to a call, across all denominations.
pub open spec fn spec_sum_funds(funds: Seq<Coin>) -> int
    decreases funds.len(),
{
    if funds.len() == 0 {
        0
    } else {
        spec_sum_funds(funds.drop_last()) + funds.last().amount
    }
}

/// A prefix of the attached coins never sums to more than all of them.
proof fn lemma_sum_funds_take_le(funds: Seq<Coin>, n: int)
    requires
        0 <= n <= funds.len(),
    ensures
        spec_sum_funds(funds.take(n)) <= spec_sum_funds(funds),
    decreases funds.len() - n,
{
    if n < funds.len() {
        assert(funds.take(n + 1).drop_last() =~= funds.take(n));
        lemma_sum_funds_take_le(funds, n + 1);
    } else {
        assert(funds.take(n) =~= funds);
    }
}

/// Sums the attached funds, naively across denominations.
pub fn sum_funds(funds: &Vec<Coin>) -> (total: u128)
    requires
        spec_sum_funds(funds@) <= u128::MAX,
    ensures
        total == spec_sum_funds(funds@),
{
    let mut total: u128 = 0;
    let mut i: usize = 0;
    while i < funds.len()
        invariant
            0 <= i <= funds@.len(),
            spec_sum_funds(funds@) <= u128::MAX,
            total == spec_sum_funds(funds@.take(i as int)),
        decreases funds@.len() - i,
    {
        proof {
            assert(funds@.take(i + 1).drop_last() =~= funds@.take(i as int));
            assert(funds@.take(i + 1).last() == funds@[i as int]);
            lemma_sum_funds_take_le(funds@, i + 1);
        }
        total = total + funds[i].amount;
        i = i + 1;
    }
    proof {
        assert(funds@.take(funds@.len() as int) =~= funds@);
    }
    total
}

/// Validates the payment and constructs the outbound request. With the paid
/// amount short of the quoted fee the whole invocation fails as
/// `InsufficientFunds` and nothing is emitted. Otherwise exactly one request
/// is built, paying exactly the quoted fee — not the full amount sent; any
/// excess stays with the caller's transaction and is not refunded here.
pub fn dispatch_request(
    own_address: Identity,
    caller: &Identity,
    paid_funds: u128,
    gas_budget: u64,
    quoted_fee: u128,
) -> (r: Result<OutboundRequest, ContractError>)
    requires
        caller@.len() <= u32::MAX,
    ensures
        paid_funds < quoted_fee ==> r == Err::<OutboundRequest, ContractError>(
            ContractError::InsufficientFunds,
        ),
        paid_funds >= quoted_fee ==> (r matches Ok(req) && {
            &&& req.gas_budget == gas_budget
            &&& req.callback_address@ == own_address@
            &&& req.fee_payment == quoted_fee
            &&& req.correlation_payload@ == spec_encode_payload(caller@)
        }),
{
    if paid_funds < quoted_fee {
        return Err(ContractError::InsufficientFunds);
    }
    let correlation_payload: Vec<u8> = encode_payload(caller);
    Ok(
        OutboundRequest {
            gas_budget,
            callback_address: own_address,
            fee_payment: quoted_fee,
            correlation_payload,
        },
    )
}

/// The request entry point. Loads the configuration, quotes the fee from the
/// oracle's reply, checks the attached funds and builds the outbound
/// request; each step's failure aborts the invocation with no request
/// emitted. `fee_reply` is what the oracle's fee query returned, `None` when
/// the query itself failed.
pub fn request_entropy(
    store: &ConfigStore,
    own_address: Identity,
    caller: &Identity,
    funds: &Vec<Coin>,
    gas_budget: u64,
    fee_reply: &Option<Vec<u8>>,
) -> (r: Result<OutboundRequest, ContractError>)
    requires
        caller@.len() <= u32::MAX,
        spec_sum_funds(funds@) <= u128::MAX,
    ensures
        !store.spec_initialized() ==> r == Err::<OutboundRequest, ContractError>(
            ContractError::NotInitialized,
        ),
        store.spec_initialized() && fee_reply is None ==> r == Err::<
            OutboundRequest,
            ContractError,
        >(ContractError::OracleUnreachable),
        store.spec_initialized() ==> (fee_reply matches Some(bytes) ==> (spec_decode_fee_reply(
            bytes@,
        ) is Err ==> r == Err::<OutboundRequest, ContractError>(
            ContractError::OracleMalformedResponse,
        ))),
        store.spec_initialized() ==> (fee_reply matches Some(bytes) ==> (spec_decode_fee_reply(
            bytes@,
        ) matches Ok(fee) ==> {
            &&& spec_sum_funds(funds@) < fee ==> r == Err::<OutboundRequest, ContractError>(
                ContractError::InsufficientFunds,
            )
            &&& spec_sum_funds(funds@) >= fee ==> (r matches Ok(req) && {
                &&& req.gas_budget == gas_budget
                &&& req.callback_address@ == own_address@
                &&& req.fee_payment == fee
                &&& req.correlation_payload@ == spec_encode_payload(caller@)
            })
        })),
{
    let config = match store.load() {
        Ok(config) => config,
        Err(e) => { return Err(e) },
    };
    let quoted_fee: u64 = match quote_fee_from_reply(fee_reply) {
        Ok(fee) => fee,
        Err(e) => { return Err(e) },
    };
    let paid_funds: u128 = sum_funds(funds);
    dispatch_request(own_address, caller, paid_funds, gas_budget, quoted_fee as u128)
}

} // verus!
