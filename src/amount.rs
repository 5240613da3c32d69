use vstd::prelude::*;

use crate::error::SwapError;

verus! {

/// Base units of either asset per unit requested: the native currency counts
/// in 10^-9 of a coin, and the token has nine decimals.
pub const SCALE_FACTOR: u64 = 1_000_000_000;

/// Number of payload bytes that encode the amount.
pub const AMOUNT_LEN: usize = 8;

/// The unsigned integer whose little-endian bytes are `s`.
pub open spec fn le_value(s: Seq<u8>) -> nat
    decreases s.len(),
{
    if s.len() == 0 {
        0
    } else {
        s[0] as nat + 256 * le_value(s.drop_first())
    }
}

/// 256 to the power `n`.
pub open spec fn pow256(n: nat) -> nat
    decreases n,
{
    if n == 0 {
        1
    } else {
        256 * pow256((n - 1) as nat)
    }
}

/// What decoding a payload gives: its first eight bytes read little-endian.
pub open spec fn decoded(input: Seq<u8>) -> Result<u64, SwapError> {
    if input.len() < AMOUNT_LEN {
        Err(SwapError::MalformedInput)
    } else {
        Ok(le_value(input.subrange(0, AMOUNT_LEN as int)) as u64)
    }
}

/// Whether `amount` may be swapped: nonzero, and still a `u64` once scaled.
pub open spec fn amount_in_range(amount: u64) -> bool {
    1 <= amount && amount * SCALE_FACTOR <= u64::MAX
}

/// What validation gives: the scaled amount, or why it is refused.
pub open spec fn scaled(amount: u64) -> Result<u64, SwapError> {
    if amount_in_range(amount) {
        Ok((amount * SCALE_FACTOR) as u64)
    } else {
        Err(SwapError::InvalidAmount)
    }
}

proof fn lemma_le_value_bound(s: Seq<u8>)
    ensures
        le_value(s) < pow256(s.len()),
    decreases s.len(),
{
    if s.len() > 0 {
        lemma_le_value_bound(s.drop_first());
        assert(s.drop_first().len() == (s.len() - 1) as nat);
    }
}

proof fn lemma_pow256_8()
    ensures
        pow256(8) == 0x1_0000_0000_0000_0000,
{
    reveal_with_fuel(pow256, 9);
}

/// Reads the amount from the first eight bytes of `input`, little-endian;
/// a shorter payload is malformed.
pub fn decode_amount(input: &[u8]) -> (r: Result<u64, SwapError>)
    ensures
        r == decoded(input@),
{
    if input.len() < AMOUNT_LEN {
        return Err(SwapError::MalformedInput);
    }
    let ghost head = input@.subrange(0, AMOUNT_LEN as int);
    let mut value: u64 = 0;
    let mut i: usize = AMOUNT_LEN;
    proof {
        lemma_pow256_8();
    }
    while i > 0
        invariant
            i <= AMOUNT_LEN,
            AMOUNT_LEN <= input@.len(),
            head == input@.subrange(0, AMOUNT_LEN as int),
            pow256(8) == 0x1_0000_0000_0000_0000,
            value as nat == le_value(head.subrange(i as int, AMOUNT_LEN as int)),
        decreases i,
    {
        let ghost rest = head.subrange(i as int, AMOUNT_LEN as int);
        let ghost next = head.subrange(i - 1, AMOUNT_LEN as int);
        proof {
            assert(next.drop_first() =~= rest);
            assert(next[0] == input@[i - 1]);
            lemma_le_value_bound(next);
            assert(pow256(next.len()) <= pow256(8)) by {
                lemma_pow256_mono(next.len(), 8);
            }
        }
        value = (input[i - 1] as u64) + 256 * value;
        i = i - 1;
    }
    assert(head.subrange(0, AMOUNT_LEN as int) =~= head);
    Ok(value)
}

proof fn lemma_pow256_mono(a: nat, b: nat)
    requires
        a <= b,
    ensures
        pow256(a) <= pow256(b),
    decreases b,
{
    if a < b {
        lemma_pow256_mono(a, (b - 1) as nat);
    }
}

/// Checks `amount` and scales it by `SCALE_FACTOR`, with integer arithmetic
/// only; zero, or an amount whose scaled value would not fit, is refused.
pub fn scale_amount(amount: u64) -> (r: Result<u64, SwapError>)
    ensures
        r == scaled(amount),
        r is Ok <==> 1 <= amount && amount * SCALE_FACTOR <= u64::MAX,
{
    if amount == 0 {
        return Err(SwapError::InvalidAmount);
    }
    match amount.checked_mul(SCALE_FACTOR) {
        Some(v) => Ok(v),
        None => Err(SwapError::InvalidAmount),
    }
}

} // verus!
