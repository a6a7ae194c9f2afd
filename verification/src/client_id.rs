//! Application ids: an id is accepted when it is exactly 18 bytes long and
//! reads as an unsigned 64-bit decimal number.

use vstd::prelude::*;

verus! {

/// The byte value of `'+'`.
pub const PLUS_SIGN: u8 = 43;

/// The byte value of `'0'`.
pub const DIGIT_ZERO: u8 = 48;

/// The byte value of `'9'`.
pub const DIGIT_NINE: u8 = 57;

/// The number of bytes of an application id.
pub const CLIENT_ID_LEN: usize = 18;

pub open spec fn is_ascii_digit(b: u8) -> bool {
    DIGIT_ZERO <= b <= DIGIT_NINE
}

pub open spec fn all_digits(d: Seq<u8>) -> bool {
    forall|i: int| 0 <= i < d.len() ==> is_ascii_digit(#[trigger] d[i])
}

/// The number that a sequence of decimal digits denotes, most significant first.
pub open spec fn decimal_value(d: Seq<u8>) -> nat
    decreases d.len(),
{
    if d.len() == 0 {
        0
    } else {
        decimal_value(d.drop_last()) * 10 + (d.last() - DIGIT_ZERO) as nat
    }
}

/// The digits that an unsigned number is read from: all bytes, after one
/// optional leading `'+'`.
pub open spec fn unsigned_digits(b: Seq<u8>) -> Seq<u8> {
    if b.len() > 0 && b[0] == PLUS_SIGN {
        b.drop_first()
    } else {
        b
    }
}

/// What reading `b` as an unsigned 64-bit decimal number gives: an optional
/// `'+'` followed by at least one digit, nothing else, and a value that fits.
pub open spec fn spec_parse_u64(b: Seq<u8>) -> Option<u64> {
    let d = unsigned_digits(b);
    if d.len() > 0 && all_digits(d) && decimal_value(d) <= u64::MAX {
        Some(decimal_value(d) as u64)
    } else {
        None
    }
}

/// An application id is accepted when its text is 18 bytes long and reads as
/// an unsigned 64-bit number.
pub open spec fn spec_is_valid_client_id(b: Seq<u8>) -> bool {
    b.len() == CLIENT_ID_LEN && spec_parse_u64(b) is Some
}

pub open spec fn pow10(n: nat) -> nat
    decreases n,
{
    if n == 0 {
        1
    } else {
        10 * pow10((n - 1) as nat)
    }
}

/// A longer run of digits never denotes a smaller number than its prefix.
pub proof fn lemma_prefix_value_le(d: Seq<u8>, k: int)
    requires
        all_digits(d),
        0 <= k <= d.len(),
    ensures
        decimal_value(d.take(k)) <= decimal_value(d),
    decreases d.len(),
{
    if k == d.len() {
        assert(d.take(k) =~= d);
    } else {
        let p = d.drop_last();
        assert(d.take(k) =~= p.take(k));
        assert(is_ascii_digit(d[d.len() - 1]));
        lemma_prefix_value_le(p, k);
    }
}

/// `n` digits denote a number below `10^n`.
pub proof fn lemma_value_below_pow10(d: Seq<u8>)
    requires
        all_digits(d),
    ensures
        decimal_value(d) < pow10(d.len()),
    decreases d.len(),
{
    if d.len() > 0 {
        let p = d.drop_last();
        assert(is_ascii_digit(d[d.len() - 1]));
        lemma_value_below_pow10(p);
    }
}

/// Reads `b` as an unsigned 64-bit decimal number, as `str::parse::<u64>`
/// does: `None` where that reports an error.
pub fn parse_u64(b: &[u8]) -> (r: Option<u64>)
    ensures
        r == spec_parse_u64(b@),
{
    let n = b.len();
    if n == 0 {
        return None;
    }
    let start: usize = if b[0] == PLUS_SIGN {
        1
    } else {
        0
    };
    let ghost d = unsigned_digits(b@);
    assert(d =~= b@.subrange(start as int, n as int));
    if start == n {
        return None;
    }
    let mut acc: u64 = 0;
    let mut i: usize = start;
    while i < n
        invariant
            start <= i <= n,
            n == b@.len(),
            start < n,
            d =~= b@.subrange(start as int, n as int),
            d == unsigned_digits(b@),
            all_digits(d.take(i - start)),
            acc as nat == decimal_value(d.take(i - start)),
        decreases n - i,
    {
        let c = b[i];
        let ghost k: int = i - start;
        assert(d[k] == c);
        if c < DIGIT_ZERO || c > DIGIT_NINE {
            assert(!all_digits(d));
            return None;
        }
        assert(d.take(k + 1).drop_last() =~= d.take(k));
        assert(d.take(k + 1).last() == c);
        assert(all_digits(d.take(k + 1)));
        let digit: u64 = (c - DIGIT_ZERO) as u64;
        match acc.checked_mul(10) {
            None => {
                proof {
                    if all_digits(d) {
                        lemma_prefix_value_le(d, k + 1);
                    }
                }
                return None;
            },
            Some(m) => {
                match m.checked_add(digit) {
                    None => {
                        proof {
                            if all_digits(d) {
                                lemma_prefix_value_le(d, k + 1);
                            }
                        }
                        return None;
                    },
                    Some(v) => {
                        acc = v;
                    },
                }
            },
        }
        i = i + 1;
    }
    assert(d.take(n - start) =~= d);
    Some(acc)
}

/// Whether `text` is an acceptable application id: 18 bytes that read as an
/// unsigned 64-bit number.
pub fn is_valid_client_id(text: &str) -> (valid: bool)
    ensures
        valid == spec_is_valid_client_id(vstd::utf8::encode_utf8(text@)),
{
    let bytes = text.as_bytes();
    let long_enough = bytes.len() == CLIENT_ID_LEN;
    let parsed = parse_u64(bytes);
    parsed.is_some() && long_enough
}

/// An id is accepted exactly when it has 18 bytes, each a decimal digit but
/// for an optional leading `'+'`: an 18-byte id never overflows.
pub proof fn lemma_valid_client_id_shape(b: Seq<u8>)
    ensures
        spec_is_valid_client_id(b) <==> (b.len() == CLIENT_ID_LEN && (all_digits(b) || (
        b[0] == PLUS_SIGN && all_digits(b.drop_first())))),
{
    if b.len() == CLIENT_ID_LEN {
        let d = unsigned_digits(b);
        if all_digits(d) {
            lemma_value_below_pow10(d);
            assert(pow10(d.len()) <= 1_000_000_000_000_000_000) by {
                reveal_with_fuel(pow10, 19);
            }
        }
        if all_digits(b) {
            assert(is_ascii_digit(b[0]));
        }
        if b[0] == PLUS_SIGN {
            assert(!is_ascii_digit(b[0]));
        }
    }
}

} // verus!
