//! Byte-sequence helpers shared by the dictionary, the options record and the
//! translation engine.

use vstd::prelude::*;

verus! {

/// Byte-for-byte comparison of two sequences.
pub fn bytes_equal(left: &[u8], right: &[u8]) -> (same: bool)
    ensures
        same == (left@ == right@),
{
    if left.len() != right.len() {
        return false;
    }
    let mut index: usize = 0;
    while index < left.len()
        invariant
            left@.len() == right@.len(),
            index <= left@.len(),
            forall|k: int| 0 <= k < index ==> left@[k] == right@[k],
        decreases left@.len() - index,
    {
        if left[index] != right[index] {
            return false;
        }
        index += 1;
    }
    assert(left@ =~= right@);
    true
}

/// The ASCII code of a decimal digit.
pub open spec fn digit_byte(digit: nat) -> u8
    recommends
        digit < 10,
{
    (48 + digit) as u8
}

/// The decimal numeral of `value`, most significant digit first, without
/// leading zeros; zero is written `0`.
pub open spec fn decimal_digits(value: nat) -> Seq<u8>
    decreases value,
{
    if value < 10 {
        seq![digit_byte(value)]
    } else {
        decimal_digits(value / 10).push(digit_byte(value % 10))
    }
}

/// Appends the decimal numeral of `value` to `out`.
pub fn push_decimal(out: &mut Vec<u8>, value: u32)
    ensures
        final(out)@ == old(out)@ + decimal_digits(value as nat),
{
    // Collect the digits least significant first, then append them reversed.
    let mut reversed: Vec<u8> = Vec::new();
    let mut rest: u32 = value;
    while rest >= 10
        invariant
            decimal_digits(value as nat) == decimal_digits(rest as nat) + reversed@.reverse(),
        decreases rest,
    {
        let digit: u8 = (rest % 10) as u8;
        let ghost before = reversed@;
        reversed.push(48 + digit);
        proof {
            let tail = seq![digit_byte((rest % 10) as nat)];
            assert(reversed@.reverse() =~= tail + before.reverse());
            assert(decimal_digits(rest as nat) == decimal_digits((rest / 10) as nat) + tail);
            assert(decimal_digits((rest / 10) as nat) + (tail + before.reverse())
                =~= (decimal_digits((rest / 10) as nat) + tail) + before.reverse());
        }
        rest = rest / 10;
    }
    let ghost start = out@;
    out.push(48 + (rest as u8));
    assert(out@ =~= start + decimal_digits(rest as nat));
    let mut remaining: usize = reversed.len();
    while remaining > 0
        invariant
            remaining <= reversed@.len(),
            out@ == start + decimal_digits(rest as nat) + reversed@.reverse().subrange(
                0,
                reversed@.len() - remaining,
            ),
        decreases remaining,
    {
        remaining -= 1;
        let ghost before = out@;
        out.push(reversed[remaining]);
        proof {
            let rev = reversed@.reverse();
            let done = reversed@.len() - remaining - 1;
            assert(rev[done] == reversed@[remaining as int]);
            assert(rev.subrange(0, done + 1) =~= rev.subrange(0, done).push(rev[done]));
            assert(out@ =~= start + decimal_digits(rest as nat) + rev.subrange(0, done + 1));
        }
    }
    proof {
        let rev = reversed@.reverse();
        assert(rev.subrange(0, reversed@.len() as int) =~= rev);
        assert(start + decimal_digits(rest as nat) + rev =~= start + (decimal_digits(rest as nat)
            + rev));
    }
}

} // verus!
