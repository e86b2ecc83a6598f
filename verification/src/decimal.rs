//! Decimal rendering of sequence numbers.
//!
//! The envelope carries the sequence number as a canonical JSON number. The
//! digits are produced here, in verified code, so that the encoder can be
//! handed an exact textual form of the number.

use vstd::prelude::*;

verus! {

/// The ASCII decimal digits of a natural number, most significant first,
/// without a sign and without leading zeroes (`0` is rendered as `"0"`).
pub open spec fn dec_digits(n: nat) -> Seq<u8>
    decreases n,
{
    if n < 10 {
        seq![(48 + n) as u8]
    } else {
        dec_digits(n / 10) + seq![(48 + n % 10) as u8]
    }
}

fn push_dec_digits(n: u64, out: &mut Vec<u8>)
    ensures
        final(out)@ == old(out)@ + dec_digits(n as nat),
    decreases n,
{
    if n < 10 {
        out.push(48 + (n as u8));
    } else {
        push_dec_digits(n / 10, out);
        let d = (n % 10) as u8;
        out.push(48 + d);
        proof {
            assert(out@ =~= old(out)@ + dec_digits(n as nat));
        }
    }
}

/// Render a sequence number as its ASCII decimal digits.
pub fn u64_dec_digits(n: u64) -> (r: Vec<u8>)
    ensures
        r@ == dec_digits(n as nat),
{
    let mut out: Vec<u8> = Vec::new();
    push_dec_digits(n, &mut out);
    proof {
        assert(out@ =~= dec_digits(n as nat));
    }
    out
}

} // verus!
