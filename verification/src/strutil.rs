//! Decimal rendering and parsing over `String` views, fully specified.

use vstd::prelude::*;

verus! {

/// The character for one decimal digit value.
pub open spec fn digit_char(d: int) -> char {
    if d == 0 {
        '0'
    } else if d == 1 {
        '1'
    } else if d == 2 {
        '2'
    } else if d == 3 {
        '3'
    } else if d == 4 {
        '4'
    } else if d == 5 {
        '5'
    } else if d == 6 {
        '6'
    } else if d == 7 {
        '7'
    } else if d == 8 {
        '8'
    } else {
        '9'
    }
}

/// The usual decimal rendering of a natural number, most significant digit
/// first, with no leading zeros (and "0" for zero).
pub open spec fn spec_u64_string(n: int) -> Seq<char>
    decreases n,
{
    if n < 10 {
        seq![digit_char(n)]
    } else {
        spec_u64_string(n / 10).push(digit_char(n % 10))
    }
}

/// Whether a character is a decimal digit.
pub open spec fn is_digit(c: char) -> bool {
    48 <= c as int <= 57
}

/// The value of one decimal digit character.
pub open spec fn digit_val(c: char) -> int {
    c as int - 48
}

/// The value of a digit string, most significant digit first.
pub open spec fn spec_digits_val(s: Seq<char>) -> int
    decreases s.len(),
{
    if s.len() == 0 {
        0
    } else {
        spec_digits_val(s.drop_last()) * 10 + digit_val(s.last())
    }
}

/// Whether every character of the string is a decimal digit.
pub open spec fn all_digits(s: Seq<char>) -> bool {
    forall|i: int| 0 <= i < s.len() ==> is_digit(#[trigger] s[i])
}

/// The digit part of an optionally signed decimal string: everything after a
/// leading `+` or `-`, or the whole string.
pub open spec fn spec_digit_part(s: Seq<char>) -> Seq<char> {
    if s.len() > 0 && (s[0] == '+' || s[0] == '-') {
        s.drop_first()
    } else {
        s
    }
}

/// Whether the string parses as an `i32`: an optional sign, at least one
/// digit, nothing else, and a value within `i32`'s range.
pub open spec fn is_i32_string(s: Seq<char>) -> bool {
    let d = spec_digit_part(s);
    &&& d.len() >= 1
    &&& all_digits(d)
    &&& (if s.len() > 0 && s[0] == '-' {
        spec_digits_val(d) <= 0x8000_0000
    } else {
        spec_digits_val(d) <= 0x7fff_ffff
    })
}

/// The `i32` value of a string satisfying `is_i32_string`.
pub open spec fn spec_i32_value(s: Seq<char>) -> int {
    if s.len() > 0 && s[0] == '-' {
        -spec_digits_val(spec_digit_part(s))
    } else {
        spec_digits_val(spec_digit_part(s))
    }
}

/// A character outside ASCII is neither a digit nor a sign, so a string
/// holding one cannot be a decimal number.
proof fn lemma_non_ascii_not_i32(s: Seq<char>, i: int)
    requires
        0 <= i < s.len(),
        !('\0' <= s[i] <= '\u{7f}'),
    ensures
        !is_i32_string(s),
{
    let d = spec_digit_part(s);
    if is_i32_string(s) {
        if s.len() > 0 && (s[0] == '+' || s[0] == '-') {
            assert(i != 0);
            assert(d[i - 1] == s[i]);
            assert(is_digit(d[i - 1]));
        } else {
            assert(d[i] == s[i]);
            assert(is_digit(d[i]));
        }
    }
}

/// Extending a digit string by one character multiplies its value by ten and
/// adds the new digit.
proof fn lemma_digits_val_extend(s: Seq<char>, st: int, i: int)
    requires
        0 <= st <= i < s.len(),
    ensures
        spec_digits_val(s.subrange(st, i + 1)) == spec_digits_val(s.subrange(st, i)) * 10
            + digit_val(s[i]),
{
    let ext = s.subrange(st, i + 1);
    assert(ext.drop_last() =~= s.subrange(st, i));
    assert(ext.last() == s[i]);
}

/// Parse an optionally signed decimal `i32`, accepting exactly the strings
/// `is_i32_string` describes.
pub fn parse_i32(s: &str) -> (r: Option<i32>)
    ensures
        r is Some <==> is_i32_string(s@),
        r matches Some(v) ==> v as int == spec_i32_value(s@),
{
    if !s.is_ascii() {
        proof {
            let k = choose|k: int| 0 <= k < s@.len() && !('\0' <= #[trigger] s@[k] <= '\u{7f}');
            lemma_non_ascii_not_i32(s@, k);
        }
        return None;
    }
    let bytes = s.as_bytes();
    proof {
        broadcast use vstd::string::is_ascii_spec_bytes;

        assert(bytes@.len() == s@.len());
        assert(forall|k: int| 0 <= k < s@.len() ==> bytes@[k] == (#[trigger] s@[k]) as u8);
    }
    let n = bytes.len();
    if n == 0 {
        return None;
    }
    let negative = bytes[0] == 45;
    let signed = negative || bytes[0] == 43;
    let st: usize = if signed {
        1
    } else {
        0
    };
    proof {
        assert(spec_digit_part(s@) =~= s@.subrange(st as int, n as int));
        assert(spec_digit_part(s@) == s@.subrange(st as int, n as int));
    }
    if st == n {
        return None;
    }
    let mut acc: u64 = 0;
    let mut i: usize = st;
    while i < n
        invariant
            st <= i <= n,
            n == s@.len(),
            bytes@.len() == n,
            forall|k: int| 0 <= k < s@.len() ==> bytes@[k] == (#[trigger] s@[k]) as u8,
            vstd::utf8::is_ascii_chars(s@),
            spec_digit_part(s@) == s@.subrange(st as int, n as int),
            all_digits(s@.subrange(st as int, i as int)),
            0 <= spec_digits_val(s@.subrange(st as int, i as int)),
            spec_digits_val(s@.subrange(st as int, i as int)) <= 0xffff_ffff ==> acc
                == spec_digits_val(s@.subrange(st as int, i as int)),
            spec_digits_val(s@.subrange(st as int, i as int)) > 0xffff_ffff ==> acc > 0xffff_ffff,
            acc <= 0xa_0000_0000,
        decreases n - i,
    {
        let c = bytes[i];
        if c < 48 || c > 57 {
            proof {
                let d = spec_digit_part(s@);
                assert(d[i - st] == s@[i as int]);
                assert(!is_digit(s@[i as int]));
            }
            return None;
        }
        proof {
            lemma_digits_val_extend(s@, st as int, i as int);
            assert(all_digits(s@.subrange(st as int, (i + 1) as int))) by {
                let ext = s@.subrange(st as int, (i + 1) as int);
                assert(forall|k: int|
                    0 <= k < ext.len() ==> #[trigger] ext[k] == s@[st as int + k]);
                assert(is_digit(s@[i as int]));
            }
        }
        let d = (c - 48) as u64;
        if acc > 0xffff_ffff {
            acc = 0x1_0000_0000;
        } else {
            acc = acc * 10 + d;
        }
        i = i + 1;
    }
    proof {
        assert(s@.subrange(st as int, n as int) == spec_digit_part(s@));
    }
    if negative {
        if acc > 0x8000_0000 {
            return None;
        }
        let v: i64 = -(acc as i64);
        Some(v as i32)
    } else {
        if acc > 0x7fff_ffff {
            return None;
        }
        Some(acc as i32)
    }
}

/// One decimal digit as a string slice.
fn digit_str(d: u64) -> (r: &'static str)
    requires
        d < 10,
    ensures
        r@ =~= seq![digit_char(d as int)],
{
    proof {
        reveal_strlit("0");
        reveal_strlit("1");
        reveal_strlit("2");
        reveal_strlit("3");
        reveal_strlit("4");
        reveal_strlit("5");
        reveal_strlit("6");
        reveal_strlit("7");
        reveal_strlit("8");
        reveal_strlit("9");
    }
    if d == 0 {
        "0"
    } else if d == 1 {
        "1"
    } else if d == 2 {
        "2"
    } else if d == 3 {
        "3"
    } else if d == 4 {
        "4"
    } else if d == 5 {
        "5"
    } else if d == 6 {
        "6"
    } else if d == 7 {
        "7"
    } else if d == 8 {
        "8"
    } else {
        "9"
    }
}

/// Render a `u64` in decimal.
pub fn u64_to_string(n: u64) -> (s: String)
    ensures
        s@ == spec_u64_string(n as int),
    decreases n,
{
    if n < 10 {
        digit_str(n).to_owned()
    } else {
        let mut s = u64_to_string(n / 10);
        s.append(digit_str(n % 10));
        proof {
            assert(s@ =~= spec_u64_string(n as int / 10).push(digit_char(n as int % 10)));
        }
        s
    }
}

/// Render an `i32` in decimal, with a leading minus sign when negative.
pub fn i32_to_string(n: i32) -> (s: String)
    ensures
        n >= 0 ==> s@ == spec_u64_string(n as int),
        n < 0 ==> s@ == seq!['-'] + spec_u64_string(-(n as int)),
{
    if n >= 0 {
        u64_to_string(n as u64)
    } else {
        let neg: i64 = n as i64;
        let mag: u64 = (-neg) as u64;
        assert(mag == -(n as int));
        let mut s = "-".to_owned();
        let tail = u64_to_string(mag);
        s.append(tail.as_str());
        proof {
            reveal_strlit("-");
            assert(s@ =~= seq!['-'] + spec_u64_string(-(n as int)));
        }
        s
    }
}

} // verus!
