//! The rules by which a parsed head becomes a framed request: the length of
//! its body and whether the connection outlives it.

use crate::request::bytes_equal;
use vstd::prelude::*;
use vstd::string::StringSliceAdditionalSpecFns;

verus! {

/// The header that gives the length of the body.
pub const CONTENT_LENGTH: &'static str = "Content-Length";

/// The header that says what becomes of the connection.
pub const CONNECTION: &'static str = "Connection";

/// The `Connection` value that asks for the connection to be closed.
pub const CLOSE: &'static str = "close";

/// The `Connection` value that asks for the connection to be kept.
pub const KEEP_ALIVE: &'static str = "keep-alive";

/// `b` is one of the characters `0` to `9`.
pub open spec fn is_digit(b: u8) -> bool {
    48 <= b <= 57
}

/// Every byte of `digits` is a decimal digit.
pub open spec fn all_digits(digits: Seq<u8>) -> bool {
    forall|i: int| 0 <= i < digits.len() ==> is_digit(#[trigger] digits[i])
}

/// The number that `digits` spells in base ten, most significant digit
/// first.
pub open spec fn decimal_value(digits: Seq<u8>) -> nat
    decreases digits.len(),
{
    if digits.len() == 0 {
        0
    } else {
        decimal_value(digits.drop_last()) * 10 + (digits.last() - 48) as nat
    }
}

/// `text` without the one plus sign that may lead it.
pub open spec fn unsigned_part(text: Seq<u8>) -> Seq<u8> {
    if text.len() > 0 && text[0] == 43 {
        text.skip(1)
    } else {
        text
    }
}

/// The body length that a `Content-Length` value states.
///
/// A value states a length where it is text made of an optional plus sign
/// and at least one decimal digit, and the number fits the machine's word.
/// Any other value, one that is not valid UTF-8 among them, states none.
pub open spec fn content_length(text: Seq<u8>) -> Option<usize> {
    let digits = unsigned_part(text);
    if digits.len() > 0 && all_digits(digits) && decimal_value(digits) <= usize::MAX {
        Some(decimal_value(digits) as usize)
    } else {
        None
    }
}

/// A number never gets smaller by more digits behind it.
pub proof fn lemma_decimal_value_grows(digits: Seq<u8>, k: int)
    requires
        0 <= k <= digits.len(),
        all_digits(digits),
    ensures
        decimal_value(digits.take(k)) <= decimal_value(digits),
    decreases digits.len(),
{
    if k == digits.len() {
        assert(digits.take(k) =~= digits);
    } else {
        let shorter = digits.drop_last();
        assert(shorter.take(k) =~= digits.take(k));
        assert(is_digit(digits[digits.len() - 1]));
        assert forall|i: int| 0 <= i < shorter.len() implies is_digit(#[trigger] shorter[i]) by {
            assert(shorter[i] == digits[i]);
        }
        lemma_decimal_value_grows(shorter, k);
    }
}

/// Reads the body length off a `Content-Length` value.
pub fn parse_content_length(text: &[u8]) -> (length: Option<usize>)
    ensures
        length == content_length(text@),
{
    let len = text.len();
    let first: usize = if len > 0 && text[0] == 43 {
        1
    } else {
        0
    };
    let ghost digits = unsigned_part(text@);
    assert(digits =~= text@.skip(first as int));
    if first == len {
        return None;
    }
    let mut value: usize = 0;
    let mut i: usize = first;
    assert(digits.take(0) =~= Seq::<u8>::empty());
    while i < len
        invariant
            first <= i <= len,
            len == text@.len(),
            digits == text@.skip(first as int),
            digits == unsigned_part(text@),
            all_digits(digits.take(i - first)),
            value == decimal_value(digits.take(i - first)),
        decreases len - i,
    {
        let b = text[i];
        let ghost seen = digits.take(i - first + 1);
        assert(seen.drop_last() =~= digits.take(i - first));
        assert(seen.last() == b);
        if b < 48 || b > 57 {
            assert(!is_digit(digits[i - first]));
            return None;
        }
        assert forall|j: int| 0 <= j < seen.len() implies is_digit(#[trigger] seen[j]) by {
            if j < seen.len() - 1 {
                assert(seen[j] == digits.take(i - first)[j]);
            }
        }
        let next = match value.checked_mul(10) {
            Some(tens) => tens.checked_add((b - 48) as usize),
            None => None,
        };
        match next {
            Some(n) => {
                value = n;
            },
            None => {
                proof {
                    assert(decimal_value(seen) > usize::MAX);
                    if all_digits(digits) {
                        lemma_decimal_value_grows(digits, i - first + 1);
                    }
                }
                return None;
            },
        }
        i = i + 1;
    }
    assert(digits.take(i - first) =~= digits);
    Some(value)
}

/// Whether the connection outlives a request of minor version `version`
/// whose last `Connection` header, if it has one, is `connection`.
///
/// An HTTP/1.1 connection persists unless the request says `close`; an
/// older one persists only where the request says `keep-alive`.
pub open spec fn keeps_alive(version: Option<u8>, connection: Option<Seq<u8>>) -> bool {
    if version is Some && version->0 >= 1 {
        connection != Some(CLOSE.spec_bytes())
    } else {
        connection == Some(KEEP_ALIVE.spec_bytes())
    }
}

/// The bytes of `value`, where there are any.
pub open spec fn slice_view(value: Option<&[u8]>) -> Option<Seq<u8>> {
    match value {
        Some(v) => Some(v@),
        None => None,
    }
}

/// Decides whether the connection outlives the request.
pub fn persists(version: Option<u8>, connection: Option<&[u8]>) -> (keep: bool)
    ensures
        keep == keeps_alive(version, slice_view(connection)),
{
    let modern = match version {
        Some(v) => v >= 1,
        None => false,
    };
    match connection {
        Some(value) => if modern {
            !bytes_equal(value, CLOSE.as_bytes())
        } else {
            bytes_equal(value, KEEP_ALIVE.as_bytes())
        },
        None => modern,
    }
}

} // verus!
