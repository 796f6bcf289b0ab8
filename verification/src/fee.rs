//! Quoting the fee that the oracle charges for servicing one request.
//!
//! The fee can be obtained two ways, and both are covered here: computing it
//! locally from the oracle's published parameters (flat protocol fee plus a
//! per-gas price), or delegating to the oracle's own fee query and decoding
//! its reply.

use vstd::prelude::*;

use vstd::arithmetic::div_mod::{lemma_div_is_ordered, lemma_div_pos_is_pos};
use vstd::arithmetic::mul::{lemma_mul_inequality, lemma_mul_nonnegative, lemma_mul_upper_bound};

use crate::error::ContractError;

verus! {

/// Cost in native units of `gas_budget` gas at a price of
/// `price_num / price_den` units per gas unit, rounded up: a fractional
/// price must never undercharge.
pub open spec fn spec_gas_cost(gas_budget: int, price_num: int, price_den: int) -> int
    recommends
        price_den > 0,
{
    (gas_budget * price_num + price_den - 1) / price_den
}

/// The fee owed for a request with the given callback gas budget: the
/// oracle's flat protocol fee plus the cost of the gas.
pub open spec fn spec_quote_fee(
    gas_budget: int,
    protocol_fee: int,
    price_num: int,
    price_den: int,
) -> int
    recommends
        price_den > 0,
{
    protocol_fee + spec_gas_cost(gas_budget, price_num, price_den)
}

/// Computes the fee for `gas_budget` gas locally, from the oracle's published
/// protocol fee and per-gas price `price_num / price_den`.
pub fn quote_fee(gas_budget: u64, protocol_fee: u64, price_num: u64, price_den: u64) -> (q: u128)
    requires
        price_den > 0,
    ensures
        q == spec_quote_fee(
            gas_budget as int,
            protocol_fee as int,
            price_num as int,
            price_den as int,
        ),
{
    proof {
        lemma_mul_nonnegative(gas_budget as int, price_num as int);
        lemma_mul_upper_bound(gas_budget as int, u64::MAX as int, price_num as int, u64::MAX as int);
    }
    let cost_num: u128 = (gas_budget as u128) * (price_num as u128) + ((price_den - 1) as u128);
    let cost: u128 = cost_num / (price_den as u128);
    proof {
        assert(cost_num as int / (price_den as int) <= cost_num as int) by (nonlinear_arith)
            requires
                cost_num >= 0,
                price_den >= 1,
        ;
    }
    (protocol_fee as u128) + cost
}

/// The law of the quote: a quoted fee is never negative, and raising the gas
/// budget never lowers the quote.
pub proof fn lemma_quote_fee_monotone(
    g1: int,
    g2: int,
    protocol_fee: int,
    price_num: int,
    price_den: int,
)
    requires
        0 <= g1 <= g2,
        0 <= protocol_fee,
        0 <= price_num,
        0 < price_den,
    ensures
        0 <= spec_quote_fee(g1, protocol_fee, price_num, price_den),
        spec_quote_fee(g1, protocol_fee, price_num, price_den) <= spec_quote_fee(
            g2,
            protocol_fee,
            price_num,
            price_den,
        ),
{
    lemma_mul_nonnegative(g1, price_num);
    lemma_div_pos_is_pos(g1 * price_num + price_den - 1, price_den);
    lemma_mul_inequality(g1, g2, price_num);
    lemma_div_is_ordered(
        g1 * price_num + price_den - 1,
        g2 * price_num + price_den - 1,
        price_den,
    );
}

/// The bytes `{"fee":` that open the oracle's fee-query reply.
pub open spec fn spec_fee_reply_prefix() -> Seq<u8> {
    seq![123u8, 34u8, 102u8, 101u8, 101u8, 34u8, 58u8]
}

/// `b` is an ASCII decimal digit.
pub open spec fn spec_is_digit(b: u8) -> bool {
    48 <= b <= 57
}

/// Index of the first byte at or after `i` that is not a decimal digit
/// (the length of `p` when the digits run to its end).
pub open spec fn spec_digits_end(p: Seq<u8>, i: int) -> int
    recommends
        0 <= i <= p.len(),
    decreases p.len() - i,
{
    if i < p.len() && spec_is_digit(p[i]) {
        spec_digits_end(p, i + 1)
    } else {
        i
    }
}

/// Value of a run of decimal digits, most significant first.
pub open spec fn spec_digits_val(d: Seq<u8>) -> int
    decreases d.len(),
{
    if d.len() == 0 {
        0
    } else {
        spec_digits_val(d.drop_last()) * 10 + (d.last() - 48)
    }
}

/// The reply opens with `{"fee":`, an unsigned decimal number follows (at
/// least one digit, no leading zero, value within `u64`), and the number is
/// closed by a comma or a closing brace. What follows the fee field (the
/// oracle also reports the gas price it used) is not interpreted.
pub open spec fn spec_fee_reply_valid(p: Seq<u8>) -> bool {
    let j = spec_digits_end(p, 7);
    &&& p.len() > 7
    &&& p.take(7) == spec_fee_reply_prefix()
    &&& j > 7
    &&& j < p.len()
    &&& (p[j] == 44 || p[j] == 125)
    &&& (p[7] != 48 || j == 8)
    &&& spec_digits_val(p.subrange(7, j)) <= u64::MAX
}

/// The fee carried by a well-formed reply.
pub open spec fn spec_fee_reply_value(p: Seq<u8>) -> int
    recommends
        spec_fee_reply_valid(p),
{
    spec_digits_val(p.subrange(7, spec_digits_end(p, 7)))
}

/// What decoding a reply yields: the fee of a well-formed reply, and
/// `OracleMalformedResponse` for anything else.
pub open spec fn spec_decode_fee_reply(p: Seq<u8>) -> Result<u64, ContractError> {
    if spec_fee_reply_valid(p) {
        Ok(spec_fee_reply_value(p) as u64)
    } else {
        Err(ContractError::OracleMalformedResponse)
    }
}

proof fn lemma_digits_end_props(p: Seq<u8>, i: int)
    requires
        0 <= i <= p.len(),
    ensures
        i <= spec_digits_end(p, i) <= p.len(),
        forall|k: int| i <= k < spec_digits_end(p, i) ==> spec_is_digit(p[k]),
        spec_digits_end(p, i) == p.len() || !spec_is_digit(p[spec_digits_end(p, i)]),
    decreases p.len() - i,
{
    if i < p.len() && spec_is_digit(p[i]) {
        lemma_digits_end_props(p, i + 1);
    }
}

proof fn lemma_digits_val_nonneg(d: Seq<u8>)
    requires
        forall|k: int| 0 <= k < d.len() ==> spec_is_digit(#[trigger] d[k]),
    ensures
        spec_digits_val(d) >= 0,
    decreases d.len(),
{
    if d.len() > 0 {
        lemma_digits_val_nonneg(d.drop_last());
    }
}

/// Appending digits to a run never lowers its value.
proof fn lemma_digits_val_mono(p: Seq<u8>, a: int, b: int, c: int)
    requires
        0 <= a <= b <= c <= p.len(),
        forall|k: int| a <= k < c ==> spec_is_digit(#[trigger] p[k]),
    ensures
        0 <= spec_digits_val(p.subrange(a, b)) <= spec_digits_val(p.subrange(a, c)),
    decreases c - b,
{
    assert forall|k: int| 0 <= k < p.subrange(a, b).len() implies spec_is_digit(
        #[trigger] p.subrange(a, b)[k],
    ) by {
        assert(p.subrange(a, b)[k] == p[a + k]);
    }
    lemma_digits_val_nonneg(p.subrange(a, b));
    if b < c {
        assert(p.subrange(a, b + 1).drop_last() =~= p.subrange(a, b));
        assert(p.subrange(a, b + 1).last() == p[b]);
        lemma_digits_val_mono(p, a, b + 1, c);
    } else {
        assert(p.subrange(a, b) =~= p.subrange(a, c));
    }
}

/// Decodes the oracle's fee-query reply. Exactly the well-formed replies
/// decode; every other byte string is a malformed response.
pub fn decode_fee_reply(reply: &Vec<u8>) -> (r: Result<u64, ContractError>)
    ensures
        r == spec_decode_fee_reply(reply@),
{
    let ghost p: Seq<u8> = reply@;
    if reply.len() < 8 {
        return Err(ContractError::OracleMalformedResponse);
    }
    if !(reply[0] == 123 && reply[1] == 34 && reply[2] == 102 && reply[3] == 101 && reply[4] == 101
        && reply[5] == 34 && reply[6] == 58) {
        proof {
            assert(p.take(7) != spec_fee_reply_prefix());
        }
        return Err(ContractError::OracleMalformedResponse);
    }
    proof {
        assert(p.take(7) =~= spec_fee_reply_prefix());
    }
    let mut i: usize = 7;
    let mut val: u64 = 0;
    while i < reply.len() && 48 <= reply[i] && reply[i] <= 57
        invariant
            7 <= i <= p.len(),
            p == reply@,
            p.len() >= 8,
            forall|k: int| 7 <= k < i ==> spec_is_digit(#[trigger] p[k]),
            spec_digits_end(p, 7) == spec_digits_end(p, i as int),
            val == spec_digits_val(p.subrange(7, i as int)),
        decreases p.len() - i,
    {
        let b: u8 = reply[i];
        let digit: u64 = (b - 48) as u64;
        proof {
            assert(spec_digits_end(p, i as int) == spec_digits_end(p, i + 1));
            assert(p.subrange(7, i + 1).drop_last() =~= p.subrange(7, i as int));
            assert(p.subrange(7, i + 1).last() == p[i as int]);
        }
        if val > (u64::MAX - digit) / 10 {
            proof {
                let j = spec_digits_end(p, 7);
                lemma_digits_end_props(p, i + 1);
                assert(val * 10 + digit > u64::MAX) by (nonlinear_arith)
                    requires
                        val > (u64::MAX - digit) / 10,
                        0 <= digit <= 9,
                ;
                lemma_digits_val_mono(p, 7, i + 1, j);
            }
            return Err(ContractError::OracleMalformedResponse);
        }
        proof {
            assert(val * 10 + digit <= u64::MAX) by (nonlinear_arith)
                requires
                    val <= (u64::MAX - digit) / 10,
                    0 <= digit <= 9,
            ;
        }
        val = val * 10 + digit;
        i = i + 1;
    }
    proof {
        assert(spec_digits_end(p, i as int) == i);
        lemma_digits_end_props(p, 7);
    }
    if i == 7 {
        return Err(ContractError::OracleMalformedResponse);
    }
    if i == reply.len() {
        return Err(ContractError::OracleMalformedResponse);
    }
    let terminator: u8 = reply[i];
    if !(terminator == 44 || terminator == 125) {
        return Err(ContractError::OracleMalformedResponse);
    }
    if reply[7] == 48 && i > 8 {
        return Err(ContractError::OracleMalformedResponse);
    }
    Ok(val)
}

/// Obtains the fee for one request by delegation: the oracle was asked, and
/// this turns what came back into the quote. No reply at all means the
/// oracle was unreachable; a reply that does not parse is malformed.
pub fn quote_fee_from_reply(reply: &Option<Vec<u8>>) -> (r: Result<u64, ContractError>)
    ensures
        reply is None ==> r == Err::<u64, ContractError>(ContractError::OracleUnreachable),
        reply matches Some(bytes) ==> r == spec_decode_fee_reply(bytes@),
{
    match reply {
        None => Err(ContractError::OracleUnreachable),
        Some(bytes) => decode_fee_reply(bytes),
    }
}

} // verus!
