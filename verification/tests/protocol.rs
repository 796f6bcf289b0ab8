//! End-to-end and per-component tests of the consumer protocol, on concrete
//! values.

use entropy_consumer::callback::{authenticate, receive_entropy, Callback};
use entropy_consumer::config::ConfigStore;
use entropy_consumer::error::ContractError;
use entropy_consumer::identity::Identity;
use entropy_consumer::payload::{decode_payload, encode_payload};
use entropy_consumer::request::{dispatch_request, request_entropy, sum_funds, Coin};
use entropy_consumer::resolve::{resolve, Outcome};

fn id(bytes: &[u8]) -> Identity {
    Identity::new(bytes.to_vec())
}

#[test]
fn identity_compares_by_bytes() {
    assert!(id(b"oracle").equals(&id(b"oracle")));
    assert!(!id(b"oracle").equals(&id(b"other")));
    assert!(!id(b"oracle").equals(&id(b"oracl")));
}

#[test]
fn load_before_initialize_fails() {
    let store = ConfigStore::empty();
    assert_eq!(store.load().err(), Some(ContractError::NotInitialized));
}

#[test]
fn load_after_initialize_returns_oracle() {
    let store = ConfigStore::initialize(id(b"oracle"));
    let config = store.load().ok().unwrap();
    assert!(config.oracle_address.equals(&id(b"oracle")));
}

#[test]
fn payload_round_trip() {
    let caller = id(b"caller-address");
    let payload = encode_payload(&caller);
    assert_eq!(payload.len(), 4 + caller.bytes.len());
    assert_eq!(&payload[..4], &[0, 0, 0, 14]);
    let decoded = decode_payload(&payload).ok().unwrap();
    assert!(decoded.equals(&caller));
}

#[test]
fn payload_round_trip_empty_identity() {
    let caller = id(b"");
    let payload = encode_payload(&caller);
    assert_eq!(payload, vec![0, 0, 0, 0]);
    let decoded = decode_payload(&payload).ok().unwrap();
    assert!(decoded.equals(&caller));
}

#[test]
fn payload_too_short_is_malformed() {
    assert_eq!(decode_payload(&vec![0, 0, 1]).err(), Some(ContractError::MalformedPayload));
}

#[test]
fn payload_with_wrong_length_is_malformed() {
    // Claims two bytes follow, but three do.
    let payload = vec![0, 0, 0, 2, 7, 7, 7];
    assert_eq!(decode_payload(&payload).err(), Some(ContractError::MalformedPayload));
}

#[test]
fn sum_funds_is_naive_across_denominations() {
    let funds = vec![
        Coin { denom: b"uluna".to_vec(), amount: 300 },
        Coin { denom: b"uusd".to_vec(), amount: 150 },
        Coin { denom: b"uluna".to_vec(), amount: 50 },
    ];
    assert_eq!(sum_funds(&funds), 500);
    assert_eq!(sum_funds(&vec![]), 0);
}

#[test]
fn quote_fee_adds_protocol_fee_and_rounded_up_gas_cost() {
    // 10 gas at 3/2 units per gas: 15, plus a protocol fee of 5.
    assert_eq!(entropy_consumer::fee::quote_fee(10, 5, 3, 2), 20);
    // 7 gas at 1/3 units per gas rounds up to 3.
    assert_eq!(entropy_consumer::fee::quote_fee(7, 0, 1, 3), 3);
    // A zero budget costs exactly the protocol fee.
    assert_eq!(entropy_consumer::fee::quote_fee(0, 9, 5, 1), 9);
}

#[test]
fn quote_fee_never_decreases_with_gas_budget() {
    let mut previous: u128 = 0;
    for gas in [0u64, 1, 2, 10, 100, 100_000, u64::MAX] {
        let quote = entropy_consumer::fee::quote_fee(gas, 5, 3, 2);
        assert!(quote >= previous);
        previous = quote;
    }
}

#[test]
fn fee_reply_decodes() {
    let reply = b"{\"fee\":123,\"gas_price\":\"1.5\"}".to_vec();
    assert_eq!(entropy_consumer::fee::decode_fee_reply(&reply), Ok(123));
    let bare = b"{\"fee\":0}".to_vec();
    assert_eq!(entropy_consumer::fee::decode_fee_reply(&bare), Ok(0));
    let max = format!("{{\"fee\":{}}}", u64::MAX).into_bytes();
    assert_eq!(entropy_consumer::fee::decode_fee_reply(&max), Ok(u64::MAX));
}

#[test]
fn fee_reply_malformed_inputs_are_rejected() {
    let cases: Vec<Vec<u8>> = vec![
        b"".to_vec(),
        b"{\"fee\":".to_vec(),               // nothing after the prefix
        b"{\"fee\":}".to_vec(),              // no digits
        b"{\"fee\":12".to_vec(),             // no terminator
        b"{\"fee\":12x}".to_vec(),           // bad terminator
        b"{\"fee\":01}".to_vec(),            // leading zero
        b"{\"Fee\":12}".to_vec(),            // wrong field name
        b"{\"fee\":18446744073709551616}".to_vec(), // one past u64::MAX
    ];
    for reply in cases {
        assert_eq!(
            entropy_consumer::fee::decode_fee_reply(&reply),
            Err(ContractError::OracleMalformedResponse),
        );
    }
}

#[test]
fn missing_fee_reply_means_unreachable() {
    assert_eq!(
        entropy_consumer::fee::quote_fee_from_reply(&None),
        Err(ContractError::OracleUnreachable),
    );
    assert_eq!(
        entropy_consumer::fee::quote_fee_from_reply(&Some(b"{\"fee\":7}".to_vec())),
        Ok(7),
    );
}

#[test]
fn dispatch_underpayment_fails_with_no_request() {
    let r = dispatch_request(id(b"self"), &id(b"caller"), 499, 100_000, 500);
    assert!(matches!(r, Err(ContractError::InsufficientFunds)));
}

#[test]
fn dispatch_exact_payment_pays_exactly_the_quote() {
    let r = dispatch_request(id(b"self"), &id(b"caller"), 500, 100_000, 500).ok().unwrap();
    assert_eq!(r.fee_payment, 500);
    assert_eq!(r.gas_budget, 100_000);
    assert!(r.callback_address.equals(&id(b"self")));
    assert_eq!(r.correlation_payload, encode_payload(&id(b"caller")));
}

#[test]
fn dispatch_overpayment_still_pays_only_the_quote() {
    let r = dispatch_request(id(b"self"), &id(b"caller"), 10_000, 100_000, 500).ok().unwrap();
    assert_eq!(r.fee_payment, 500);
}

#[test]
fn request_entropy_without_configuration_fails() {
    let store = ConfigStore::empty();
    let r = request_entropy(
        &store,
        id(b"self"),
        &id(b"caller"),
        &vec![],
        100_000,
        &Some(b"{\"fee\":500}".to_vec()),
    );
    assert!(matches!(r, Err(ContractError::NotInitialized)));
}

#[test]
fn authenticate_rejects_wrong_sender() {
    let store = ConfigStore::initialize(id(b"oracle"));
    let config = store.load().ok().unwrap();
    let callback = Callback {
        sender: id(b"imposter"),
        requester: id(b"self"),
        entropy: vec![0],
        correlation_payload: vec![],
    };
    let r = authenticate(callback, &id(b"self"), config);
    assert!(matches!(r, Err(ContractError::Unauthorized)));
}

#[test]
fn authenticate_rejects_wrong_requester_even_from_oracle() {
    let store = ConfigStore::initialize(id(b"oracle"));
    let config = store.load().ok().unwrap();
    let callback = Callback {
        sender: id(b"oracle"),
        requester: id(b"someone-else"),
        entropy: vec![0],
        correlation_payload: vec![],
    };
    let r = authenticate(callback, &id(b"self"), config);
    assert!(matches!(r, Err(ContractError::Unauthorized)));
}

#[test]
fn authenticate_passes_genuine_callback_through_unchanged() {
    let store = ConfigStore::initialize(id(b"oracle"));
    let config = store.load().ok().unwrap();
    let callback = Callback {
        sender: id(b"oracle"),
        requester: id(b"self"),
        entropy: vec![9, 9, 9],
        correlation_payload: vec![1, 2, 3],
    };
    let c = authenticate(callback, &id(b"self"), config).ok().unwrap();
    assert_eq!(c.entropy, vec![9, 9, 9]);
    assert_eq!(c.correlation_payload, vec![1, 2, 3]);
}

#[test]
fn resolve_is_parity_of_last_byte() {
    let payload = encode_payload(&id(b"caller"));
    let heads = resolve(&vec![5, 5, 0x00], &payload).ok().unwrap();
    assert!(matches!(heads.outcome, Outcome::Heads));
    let tails = resolve(&vec![0x00, 0x01], &payload).ok().unwrap();
    assert!(matches!(tails.outcome, Outcome::Tails));
    let single = resolve(&vec![0x02], &payload).ok().unwrap();
    assert!(matches!(single.outcome, Outcome::Heads));
}

#[test]
fn resolve_empty_entropy_fails() {
    let payload = encode_payload(&id(b"caller"));
    let r = resolve(&vec![], &payload);
    assert!(matches!(r, Err(ContractError::EmptyEntropy)));
}

#[test]
fn resolve_malformed_payload_fails() {
    let r = resolve(&vec![1, 2, 3], &vec![9, 9]);
    assert!(matches!(r, Err(ContractError::MalformedPayload)));
}

#[test]
fn full_round_heads_up_to_tails() {
    // Deployment stores the oracle address.
    let store = ConfigStore::initialize(id(b"oracle"));
    let own = id(b"consumer");
    let caller = id(b"player");

    // The caller attaches exactly the quoted fee for a 100000 gas budget.
    let fee_reply = Some(b"{\"fee\":500,\"gas_price\":\"0.005\"}".to_vec());
    let funds = vec![Coin { denom: b"uluna".to_vec(), amount: 500 }];
    let request = request_entropy(&store, id(b"consumer"), &caller, &funds, 100_000, &fee_reply)
        .ok()
        .unwrap();
    assert_eq!(request.fee_payment, 500);
    assert_eq!(request.gas_budget, 100_000);
    assert!(request.callback_address.equals(&own));
    assert_eq!(request.correlation_payload, encode_payload(&caller));

    // The oracle calls back with entropy ending in an odd byte.
    let callback = Callback {
        sender: id(b"oracle"),
        requester: id(b"consumer"),
        entropy: vec![0xAA, 0xBB, 0x07],
        correlation_payload: request.correlation_payload,
    };
    let flip = receive_entropy(&store, &own, callback).ok().unwrap();
    assert!(matches!(flip.outcome, Outcome::Tails));
    assert!(flip.original_caller.equals(&caller));
}

#[test]
fn full_round_rejects_forged_callback() {
    let store = ConfigStore::initialize(id(b"oracle"));
    let own = id(b"consumer");
    let caller = id(b"player");
    let callback = Callback {
        sender: id(b"forger"),
        requester: id(b"consumer"),
        entropy: vec![0xAA, 0xBB, 0x07],
        correlation_payload: encode_payload(&caller),
    };
    let r = receive_entropy(&store, &own, callback);
    assert!(matches!(r, Err(ContractError::Unauthorized)));
}

#[test]
fn insufficient_funds_end_to_end() {
    let store = ConfigStore::initialize(id(b"oracle"));
    let caller = id(b"player");
    let fee_reply = Some(b"{\"fee\":500}".to_vec());
    let funds = vec![Coin { denom: b"uluna".to_vec(), amount: 499 }];
    let r = request_entropy(&store, id(b"consumer"), &caller, &funds, 100_000, &fee_reply);
    assert!(matches!(r, Err(ContractError::InsufficientFunds)));
}

#[test]
fn oracle_reply_errors_end_to_end() {
    let store = ConfigStore::initialize(id(b"oracle"));
    let caller = id(b"player");
    let r = request_entropy(&store, id(b"consumer"), &caller, &vec![], 100_000, &None);
    assert!(matches!(r, Err(ContractError::OracleUnreachable)));
    let garbled = Some(b"fee 500".to_vec());
    let r = request_entropy(&store, id(b"consumer"), &caller, &vec![], 100_000, &garbled);
    assert!(matches!(r, Err(ContractError::OracleMalformedResponse)));
}
