use vstd::prelude::*;
use vstd::utf8::encode_utf8;

verus! {

/// The ASCII code of `0`.
pub const ZERO: u8 = 48;

/// The ASCII code of `9`.
pub const NINE: u8 = 57;

/// The ASCII code of `+`.
pub const PLUS: u8 = 43;

/// Whether a byte is an ASCII decimal digit.
pub open spec fn is_digit_byte(b: u8) -> bool {
    ZERO <= b && b <= NINE
}

/// Whether every byte is an ASCII decimal digit.
pub open spec fn all_digits(digits: Seq<u8>) -> bool {
    forall|i: int| 0 <= i < digits.len() ==> is_digit_byte(#[trigger] digits[i])
}

/// The number a string of decimal digits denotes.
pub open spec fn decimal_value(digits: Seq<u8>) -> nat
    decreases digits.len(),
{
    if digits.len() == 0 {
        0
    } else {
        (10 * decimal_value(digits.drop_last()) + (digits.last() - ZERO)) as nat
    }
}

/// The digits of an unsigned decimal number: an optional leading `+` is dropped.
pub open spec fn unsigned_digits(bytes: Seq<u8>) -> Seq<u8> {
    if bytes.len() > 0 && bytes[0] == PLUS {
        bytes.drop_first()
    } else {
        bytes
    }
}

/// The `usize` an agent option string denotes: an optional `+` followed by at
/// least one decimal digit, with a value that fits in `usize`.
pub open spec fn parsed_address(bytes: Seq<u8>) -> Option<usize> {
    let digits = unsigned_digits(bytes);
    if digits.len() > 0 && all_digits(digits) && decimal_value(digits) <= usize::MAX {
        Some(decimal_value(digits) as usize)
    } else {
        None
    }
}

/// A longer string of digits never denotes a smaller number.
proof fn lemma_decimal_value_prefix(digits: Seq<u8>, k: int)
    requires
        all_digits(digits),
        0 <= k <= digits.len(),
    ensures
        decimal_value(digits.subrange(0, k)) <= decimal_value(digits),
    decreases digits.len(),
{
    if k < digits.len() {
        let shorter = digits.drop_last();
        assert(all_digits(shorter)) by {
            assert forall|i: int| 0 <= i < shorter.len() implies is_digit_byte(#[trigger] shorter[i]) by {
                assert(shorter[i] == digits[i]);
            }
        }
        lemma_decimal_value_prefix(shorter, k);
        assert(shorter.subrange(0, k) =~= digits.subrange(0, k));
    } else {
        assert(digits.subrange(0, k) =~= digits);
    }
}

/// Reads the address an agent receives as its option string, the way
/// `usize::from_str` does: `None` unless the text is an optional `+` followed by
/// decimal digits whose value fits in `usize`.
pub fn parse_agent_address(options: &str) -> (address: Option<usize>)
    ensures
        address == parsed_address(encode_utf8(options@)),
{
    let bytes = options.as_bytes();
    let ghost all = bytes@;
    let mut start: usize = 0;
    if bytes.len() > 0 && bytes[0] == PLUS {
        start = 1;
    }
    let ghost digits = all.subrange(start as int, all.len() as int);
    assert(digits =~= unsigned_digits(all));
    if start == bytes.len() {
        return None;
    }
    let mut value: usize = 0;
    let mut i: usize = start;
    while i < bytes.len()
        invariant
            bytes@ == all,
            all == encode_utf8(options@),
            digits == all.subrange(start as int, all.len() as int),
            digits == unsigned_digits(all),
            start <= i <= all.len(),
            all_digits(all.subrange(start as int, i as int)),
            value == decimal_value(all.subrange(start as int, i as int)),
        decreases all.len() - i,
    {
        let b = bytes[i];
        let ghost prefix = all.subrange(start as int, i as int);
        let ghost next = all.subrange(start as int, i + 1);
        assert(next.drop_last() =~= prefix);
        if b < ZERO || b > NINE {
            assert(!all_digits(digits)) by {
                assert(digits[i - start] == b);
            }
            return None;
        }
        assert(all_digits(next)) by {
            assert forall|j: int| 0 <= j < next.len() implies is_digit_byte(#[trigger] next[j]) by {
                if j < prefix.len() {
                    assert(next[j] == prefix[j]);
                }
            }
        }
        assert(next =~= digits.subrange(0, (i + 1 - start) as int));
        let scaled = value.checked_mul(10);
        match scaled {
            None => {
                proof {
                    if all_digits(digits) {
                        lemma_decimal_value_prefix(digits, (i + 1 - start) as int);
                    }
                }
                return None;
            },
            Some(v) => {
                let sum = v.checked_add((b - ZERO) as usize);
                match sum {
                    None => {
                        proof {
                            if all_digits(digits) {
                                lemma_decimal_value_prefix(digits, (i + 1 - start) as int);
                            }
                        }
                        return None;
                    },
                    Some(w) => {
                        value = w;
                    },
                }
            },
        }
        i = i + 1;
    }
    assert(all.subrange(start as int, i as int) =~= digits);
    Some(value)
}

} // verus!
