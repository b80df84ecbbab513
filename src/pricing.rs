//! Slippage bound, deadline, allowance threshold and the decoding of a read-only answer.
use crate::amount::{be_value, lemma_be_value_bound, lemma_be_value_concat, max_value, pow256, Amount};
use crate::error::BridgeError;
use vstd::prelude::*;

verus! {

broadcast use vstd::array::group_array_axioms;

/// The smallest output a swap accepts for a quote of `q`: 97.5% of it, dividing
/// before multiplying.
pub open spec fn min_output_of(q: nat) -> nat {
    (q / 40) * 39
}

/// The value a read-only call answered with: its first 32 bytes, big-endian.
pub open spec fn response_value(response: Seq<u8>) -> nat {
    be_value(response.subrange(0, 32))
}

/// Whether an allowance counts as unlimited: it exceeds half the largest amount.
pub open spec fn is_effectively_unlimited(allowance: nat) -> bool {
    allowance > max_value() / 2
}

/// `(quoted / 40) * 39`, which never exceeds `quoted` and equals it only at zero.
pub fn min_output(quoted: &Amount) -> (r: Amount)
    ensures
        r.value() == min_output_of(quoted.value()),
        r.value() <= quoted.value(),
        r.value() == quoted.value() <==> quoted.value() == 0,
{
    let q = quoted.div_small(40);
    proof {
        lemma_min_output_bound(quoted.value());
        quoted.lemma_value_bound();
    }
    match q.checked_mul_small(39) {
        Some(r) => r,
        None => {
            // the product is below `quoted`, so it always fits
            proof {
                assert(false);
            }
            Amount::zero()
        },
    }
}

/// The slippage bound never exceeds the quote, and reaches it only at zero.
pub proof fn lemma_min_output_bound(q: nat)
    ensures
        min_output_of(q) <= q,
        min_output_of(q) == q <==> q == 0,
{
    let d = q / 40;
    let r = q % 40;
    assert(q == 40 * d + r && 0 <= r < 40) by {
        vstd::arithmetic::div_mod::lemma_fundamental_div_mod(q as int, 40);
    }
    assert(d * 39 <= q);
    if q > 0 {
        assert(d * 39 < q);
    }
}

/// The on-chain deadline `now + timeout`, or `Overflow` where it does not fit in 256 bits.
pub fn deadline(now: &Amount, timeout: u64) -> (r: Result<Amount, BridgeError>)
    ensures
        r is Ok <==> now.value() + timeout <= max_value(),
        r matches Ok(d) ==> d.value() == now.value() + timeout,
        r is Err ==> r == Err::<Amount, BridgeError>(BridgeError::Overflow),
{
    let t = Amount::from_u64(timeout);
    match now.checked_add(&t) {
        Some(d) => Ok(d),
        None => Err(BridgeError::Overflow),
    }
}

/// Whether `allowance` exceeds half the largest amount, i.e. its top bit is set.
pub fn exceeds_half_max(allowance: &Amount) -> (r: bool)
    ensures
        r == is_effectively_unlimited(allowance.value()),
{
    let top = allowance.bytes[0];
    proof {
        let s = allowance.bytes@;
        let head = s.subrange(0, 1);
        let rest = s.subrange(1, 32);
        assert(head + rest =~= s);
        lemma_be_value_concat(head, rest);
        assert(head.drop_last() =~= Seq::<u8>::empty());
        assert(be_value(Seq::<u8>::empty()) == 0);
        assert(be_value(head) == top as nat);
        lemma_be_value_bound(rest);
        let p = pow256(31);
        assert(pow256(32) == 256 * p);
        let v = be_value(rest);
        let b = top as nat;
        assert(max_value() / 2 == 128 * p - 1);
        assert(b >= 128 ==> b * p + v > 128 * p - 1) by (nonlinear_arith)
            requires
                v >= 0,
                p >= 1,
        ;
        assert(b < 128 ==> b * p + v <= 128 * p - 1) by (nonlinear_arith)
            requires
                v < p,
        ;
    }
    top >= 128
}

/// Decodes the 256-bit value a read-only call answered with; `MalformedResponse` where
/// the answer is shorter than 32 bytes.
pub fn decode_amount(response: &[u8]) -> (r: Result<Amount, BridgeError>)
    ensures
        r is Ok <==> response@.len() >= 32,
        r matches Ok(a) ==> a.value() == response_value(response@),
        r is Err ==> r == Err::<Amount, BridgeError>(BridgeError::MalformedResponse),
{
    if response.len() < 32 {
        Err(BridgeError::MalformedResponse)
    } else {
        Ok(Amount::from_be_slice(response))
    }
}

/// Decodes an allowance and tells whether it counts as unlimited; `MalformedResponse`
/// where the answer is shorter than 32 bytes.
pub fn decode_allowance(response: &[u8]) -> (r: Result<bool, BridgeError>)
    ensures
        r is Ok <==> response@.len() >= 32,
        r matches Ok(b) ==> b == is_effectively_unlimited(response_value(response@)),
        r is Err ==> r == Err::<bool, BridgeError>(BridgeError::MalformedResponse),
{
    match decode_amount(response) {
        Ok(a) => Ok(exceeds_half_max(&a)),
        Err(e) => Err(e),
    }
}

} // verus!
