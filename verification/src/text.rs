//! Helpers on strings and UTF-8 bytes that the rest of the crate builds on:
//! comparing text, reading a decimal number, and finding where text can be
//! cut without splitting a character.

use vstd::prelude::*;
use vstd::string::*;
use vstd::utf8::*;

verus! {

broadcast use vstd::utf8::group_utf8_lib;

/// The values of the items of a sequence, in order.
pub open spec fn views<T: View>(items: Seq<T>) -> Seq<T::V> {
    Seq::new(items.len(), |i: int| items[i]@)
}

/// Two character sequences with the same UTF-8 encoding are the same sequence.
pub proof fn lemma_encode_utf8_injective(a: Seq<char>, b: Seq<char>)
    requires
        encode_utf8(a) == encode_utf8(b),
    ensures
        a == b,
{
    encode_utf8_decode_utf8(a);
    encode_utf8_decode_utf8(b);
}

/// Whether two string slices hold the same text.
pub fn str_eq(a: &str, b: &str) -> (r: bool)
    ensures
        r == (a@ == b@),
{
    let x = a.as_bytes();
    let y = b.as_bytes();
    if x.len() != y.len() {
        return false;
    }
    let mut i: usize = 0;
    while i < x.len()
        invariant
            x@.len() == y@.len(),
            i <= x@.len(),
            x@ == encode_utf8(a@),
            y@ == encode_utf8(b@),
            forall|j: int| 0 <= j < i ==> x@[j] == y@[j],
        decreases x@.len() - i,
    {
        if x[i] != y[i] {
            return false;
        }
        i = i + 1;
    }
    proof {
        assert(x@ =~= y@);
        lemma_encode_utf8_injective(a@, b@);
    }
    true
}

/// Whether `b` is an ASCII decimal digit.
pub open spec fn is_digit(b: u8) -> bool {
    0x30 <= b <= 0x39
}

/// The number that the decimal digits `digits` write.
pub open spec fn decimal_value(digits: Seq<u8>) -> nat
    decreases digits.len(),
{
    if digits.len() == 0 {
        0
    } else {
        decimal_value(digits.drop_last()) * 10 + (digits.last() - 0x30) as nat
    }
}

/// The `usize` written by `digits`: there is one when `digits` is one or
/// more ASCII decimal digits and nothing else, and the number fits.
pub open spec fn decimal_usize(digits: Seq<u8>) -> Option<usize> {
    if digits.len() > 0 && (forall|i: int| 0 <= i < digits.len() ==> is_digit(#[trigger] digits[i]))
        && decimal_value(digits) <= usize::MAX {
        Some(decimal_value(digits) as usize)
    } else {
        None
    }
}

/// A longer run of digits writes a number at least as large as its prefix.
pub proof fn lemma_decimal_value_grows(digits: Seq<u8>, k: int)
    requires
        0 <= k <= digits.len(),
    ensures
        decimal_value(digits.take(k)) <= decimal_value(digits),
    decreases digits.len() - k,
{
    if k == digits.len() {
        assert(digits.take(k) =~= digits);
    } else {
        lemma_decimal_value_grows(digits.drop_last(), k);
        assert(digits.drop_last().take(k) =~= digits.take(k));
    }
}

/// Reads `digits` as a decimal `usize`.
pub fn parse_decimal(digits: &str) -> (r: Option<usize>)
    ensures
        r == decimal_usize(digits.spec_bytes()),
{
    let bytes = digits.as_bytes();
    if bytes.len() == 0 {
        return None;
    }
    let mut value: usize = 0;
    let mut i: usize = 0;
    while i < bytes.len()
        invariant
            i <= bytes@.len(),
            bytes@ == digits.spec_bytes(),
            forall|j: int| 0 <= j < i ==> is_digit(#[trigger] bytes@[j]),
            value == decimal_value(bytes@.take(i as int)),
        decreases bytes@.len() - i,
    {
        let b: u8 = bytes[i];
        if b < 0x30 || b > 0x39 {
            return None;
        }
        let d: usize = (b - 0x30) as usize;
        proof {
            assert(bytes@.take(i + 1).drop_last() =~= bytes@.take(i as int));
            assert(bytes@.take(i + 1).last() == b);
            lemma_decimal_value_grows(bytes@, i + 1);
        }
        if value > (usize::MAX - d) / 10 {
            assert(decimal_value(bytes@.take(i + 1)) > usize::MAX) by (nonlinear_arith)
                requires
                    decimal_value(bytes@.take(i + 1)) == value * 10 + d,
                    value > (usize::MAX - d) / 10,
                    0 <= d <= 9,
            ;
            return None;
        }
        assert(value * 10 + d <= usize::MAX) by (nonlinear_arith)
            requires
                value <= (usize::MAX - d) / 10,
                0 <= d <= 9,
        ;
        value = value * 10 + d;
        i = i + 1;
    }
    proof {
        assert(bytes@.take(i as int) =~= bytes@);
    }
    Some(value)
}

/// The greatest character boundary of the UTF-8 text `bytes` that is at most
/// `limit`: the length of the longest prefix of whole characters that fits in
/// `limit` bytes.
pub open spec fn floor_boundary(bytes: Seq<u8>, limit: int) -> int
    decreases limit,
{
    if limit <= 0 {
        0
    } else if limit <= bytes.len() && is_char_boundary(bytes, limit) {
        limit
    } else {
        floor_boundary(bytes, limit - 1)
    }
}

/// `floor_boundary` is a boundary within the limit, and no boundary lies
/// between it and the limit.
pub proof fn lemma_floor_boundary(bytes: Seq<u8>, limit: int)
    requires
        valid_utf8(bytes),
        0 <= limit,
    ensures
        0 <= floor_boundary(bytes, limit) <= limit,
        floor_boundary(bytes, limit) <= bytes.len(),
        is_char_boundary(bytes, floor_boundary(bytes, limit)),
        forall|m: int|
            floor_boundary(bytes, limit) < m <= limit && m <= bytes.len() ==> !is_char_boundary(
                bytes,
                m,
            ),
        limit >= bytes.len() ==> floor_boundary(bytes, limit) == bytes.len(),
    decreases limit,
{
    if limit > 0 {
        if limit <= bytes.len() && is_char_boundary(bytes, limit) {
        } else {
            lemma_floor_boundary(bytes, limit - 1);
        }
    }
}

/// A boundary `n` with no boundary in `(n, limit]` is the floor boundary.
pub proof fn lemma_floor_boundary_unique(bytes: Seq<u8>, limit: int, n: int)
    requires
        valid_utf8(bytes),
        0 <= n <= limit <= bytes.len(),
        is_char_boundary(bytes, n),
        forall|m: int| n < m <= limit ==> !is_char_boundary(bytes, m),
    ensures
        floor_boundary(bytes, limit) == n,
    decreases limit - n,
{
    if n < limit {
        lemma_floor_boundary_unique(bytes, limit - 1, n);
    }
}

/// The character that starts at boundary `i` occupies `width` bytes, all but
/// the first of them continuation bytes, and ends on the next boundary.
pub proof fn lemma_char_at_boundary(bytes: Seq<u8>, i: int)
    requires
        valid_utf8(bytes),
        0 <= i < bytes.len(),
        is_char_boundary(bytes, i),
    ensures
        ({
            let width = length_of_first_scalar(bytes.subrange(i, bytes.len() as int));
            &&& 1 <= width <= 4
            &&& i + width <= bytes.len()
            &&& is_char_boundary(bytes, i + width)
            &&& forall|k: int| i < k < i + width ==> is_continuation_byte(#[trigger] bytes[k])
        }),
{
    let tail = bytes.subrange(i, bytes.len() as int);
    let width = length_of_first_scalar(tail);
    valid_utf8_split(bytes, i);
    assert(valid_first_scalar(tail));
    assert(valid_utf8(pop_first_scalar(tail)));
    assert forall|k: int| i < k < i + width implies is_continuation_byte(#[trigger] bytes[k]) by {
        assert(bytes[k] == tail[k - i]);
    }
    if i + width < bytes.len() {
        let rest = pop_first_scalar(tail);
        assert(rest =~= bytes.subrange(i + width, bytes.len() as int));
        assert(valid_first_scalar(rest));
        assert(rest[0] == bytes[i + width]);
        is_char_boundary_iff_not_is_continuation_byte(bytes, i + width);
    } else {
        is_char_boundary_start_end_of_seq(bytes);
    }
}

/// How many bytes of `s` fit in `room` bytes without splitting a character.
pub fn fit_len(s: &str, room: usize) -> (n: usize)
    ensures
        n == floor_boundary(s.spec_bytes(), room as int),
        n <= room,
        n <= s.spec_bytes().len(),
{
    let bytes = s.as_bytes();
    let limit: usize = if bytes.len() < room {
        bytes.len()
    } else {
        room
    };
    proof {
        lemma_floor_boundary(bytes@, room as int);
        lemma_floor_boundary(bytes@, limit as int);
    }
    let mut i: usize = limit;
    while i > 0 && (bytes[i - 1] & 0xC0) == 0x80
        invariant
            bytes@ == s.spec_bytes(),
            i <= limit <= bytes@.len(),
            forall|k: int| i <= k < limit ==> is_continuation_byte(#[trigger] bytes@[k]),
        decreases i,
    {
        proof {
            utf8_byte_ranges_bitwise(bytes@[i - 1]);
        }
        i = i - 1;
    }
    if i == 0 {
        proof {
            if limit > 0 {
                assert(valid_first_scalar(bytes@));
                assert(is_continuation_byte(bytes@[0]));
            }
        }
        return 0;
    }
    let start: usize = i - 1;
    let lead: u8 = bytes[start];
    let width: usize = if lead <= 127 {
        1
    } else if 192 <= lead && lead <= 223 {
        2
    } else if 224 <= lead && lead <= 239 {
        3
    } else if 240 <= lead && lead <= 247 {
        4
    } else {
        1
    };
    proof {
        utf8_byte_ranges_bitwise(lead);
        is_char_boundary_iff_not_is_continuation_byte(bytes@, start as int);
        lemma_char_at_boundary(bytes@, start as int);
        let tail = bytes@.subrange(start as int, bytes@.len() as int);
        assert(tail[0] == lead);
        assert(width == length_of_first_scalar(tail));
        assert forall|m: int| start < m < limit implies !is_char_boundary(bytes@, m) by {
            is_char_boundary_iff_not_is_continuation_byte(bytes@, m);
        }
        if start + width <= limit {
            if start + width < limit {
                is_char_boundary_iff_not_is_continuation_byte(bytes@, start + width);
            }
            lemma_floor_boundary_unique(bytes@, limit as int, limit as int);
        } else {
            is_char_boundary_iff_not_is_continuation_byte(bytes@, limit as int);
            lemma_floor_boundary_unique(bytes@, limit as int, start as int);
        }
    }
    if start + width <= limit {
        start + width
    } else {
        start
    }
}

} // verus!
