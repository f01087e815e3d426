//! Parsing of the party size that a user or an operator message carries: a
//! decimal numeral, accepted exactly when the standard `u8` parse would
//! accept it, then held to the supported range.
use vstd::prelude::*;

use crate::booking_info::valid_person_number;
use crate::constants::{MAX_SUPPORTED_PERSONS, MIN_SUPPORTED_PERSONS};

verus! {

/// The byte is an ASCII decimal digit.
pub open spec fn is_ascii_digit(b: u8) -> bool {
    48 <= b <= 57
}

/// The numeric value of a string of digit bytes, most significant first.
pub open spec fn digits_value(s: Seq<u8>) -> int
    decreases s.len(),
{
    if s.len() == 0 {
        0
    } else {
        digits_value(s.drop_last()) * 10 + (s.last() - 48)
    }
}

/// The digit part of a numeral: everything after an optional leading plus
/// sign.
pub open spec fn numeral_digits(s: Seq<u8>) -> Seq<u8> {
    if s.len() > 0 && s[0] == 43 {
        s.subrange(1, s.len() as int)
    } else {
        s
    }
}

/// The bytes spell a numeral that fits a `u8`: an optional plus sign, one
/// digit or more, value at most 255.
pub open spec fn is_u8_numeral(s: Seq<u8>) -> bool {
    let d = numeral_digits(s);
    &&& d.len() > 0
    &&& forall|i: int| 0 <= i < d.len() ==> is_ascii_digit(#[trigger] d[i])
    &&& digits_value(d) <= 255
}

/// Once a digit prefix already exceeds 255, appending more digits cannot
/// bring the value back down.
proof fn lemma_digits_value_grows(d: Seq<u8>, k: int)
    requires
        0 <= k <= d.len(),
        forall|i: int| k <= i < d.len() ==> is_ascii_digit(#[trigger] d[i]),
        digits_value(d.take(k)) > 255,
    ensures
        digits_value(d) > 255,
    decreases d.len() - k,
{
    if k < d.len() {
        assert(d.take(k + 1) =~= d.take(k).push(d[k]));
        assert(d.take(k + 1).drop_last() =~= d.take(k));
        lemma_digits_value_grows(d, k + 1);
    } else {
        assert(d.take(k) =~= d);
    }
}

/// Parses a decimal numeral as the standard `u8` parse does: an optional
/// leading plus sign, then one or more digits, with a value of at most 255.
/// Anything else — an empty string, a stray byte, a value past 255 — is
/// rejected.
pub fn parse_u8(bytes: &Vec<u8>) -> (r: Option<u8>)
    ensures
        r.is_some() == is_u8_numeral(bytes@),
        r.is_some() ==> r.unwrap() as int == digits_value(numeral_digits(bytes@)),
{
    let start: usize = if bytes.len() > 0 && bytes[0] == 43u8 {
        1
    } else {
        0
    };
    let ghost d = numeral_digits(bytes@);
    proof {
        assert(d =~= bytes@.subrange(start as int, bytes@.len() as int));
    }
    if bytes.len() == start {
        return None;
    }
    let mut acc: u32 = 0;
    let mut j: usize = start;
    while j < bytes.len()
        invariant
            start <= j <= bytes@.len(),
            start <= 1,
            d == numeral_digits(bytes@),
            d =~= bytes@.subrange(start as int, bytes@.len() as int),
            forall|i: int| start <= i < j ==> is_ascii_digit(#[trigger] bytes@[i]),
            acc <= 255,
            acc as int == digits_value(bytes@.subrange(start as int, j as int)),
        decreases bytes@.len() - j,
    {
        let b = bytes[j];
        if !(48 <= b && b <= 57) {
            proof {
                assert(d[j - start] == bytes@[j as int]);
                assert(!is_u8_numeral(bytes@));
            }
            return None;
        }
        proof {
            assert(bytes@.subrange(start as int, j + 1) =~= bytes@.subrange(
                start as int,
                j as int,
            ).push(bytes@[j as int]));
            assert(bytes@.subrange(start as int, j + 1).drop_last() =~= bytes@.subrange(
                start as int,
                j as int,
            ));
        }
        acc = acc * 10 + (b - 48) as u32;
        if acc > 255 {
            proof {
                let k: int = j + 1 - start;
                assert(d.take(k) =~= bytes@.subrange(start as int, j + 1));
                if forall|i: int| k <= i < d.len() ==> is_ascii_digit(#[trigger] d[i]) {
                    lemma_digits_value_grows(d, k);
                    assert(!is_u8_numeral(bytes@));
                } else {
                    let bad = choose|i: int| k <= i < d.len() && !is_ascii_digit(#[trigger] d[i]);
                    assert(!is_u8_numeral(bytes@));
                }
            }
            return None;
        }
        j = j + 1;
    }
    proof {
        assert(bytes@.subrange(start as int, j as int) =~= d);
        assert(is_u8_numeral(bytes@));
    }
    Some(acc as u8)
}

/// Parses the party size of a request: a numeral the standard `u8` parse
/// accepts, whose value lies in the supported range.
pub fn parse_person_number(bytes: &Vec<u8>) -> (r: Option<u8>)
    ensures
        r.is_some() == (is_u8_numeral(bytes@) && valid_person_number(
            digits_value(numeral_digits(bytes@)) as u8,
        )),
        r.is_some() ==> r.unwrap() as int == digits_value(numeral_digits(bytes@)),
{
    match parse_u8(bytes) {
        None => None,
        Some(n) => {
            if MIN_SUPPORTED_PERSONS <= n && n <= MAX_SUPPORTED_PERSONS {
                Some(n)
            } else {
                None
            }
        },
    }
}

} // verus!
