//! Sanitizing and parsing the numeric text fields.
//!
//! The presentation layer hands the controller free-form text for the
//! interval and hold-duration fields.  [`sanitize_string`] normalizes
//! such a field in place — keep only numeric characters, strip leading
//! zeros, cap the length — and [`parse_u32_or_zero`] turns the text into
//! a number, substituting zero for anything malformed rather than
//! surfacing an error.

use vstd::prelude::*;
use vstd::string::*;

verus! {

/// Whether `char::is_numeric` holds of `c`.  Deciding that takes the
/// Unicode number categories, so the predicate is named, not spelled
/// out; everything downstream speaks of the name.
pub uninterp spec fn is_numeric_char(c: char) -> bool;

/// The characters of `s` for which `char::is_numeric` holds, in order.
pub open spec fn numeric_chars_of(s: Seq<char>) -> Seq<char> {
    s.filter(|c: char| is_numeric_char(c))
}

/// Relies on sanitizer's `StringSanitizer::numeric`, which keeps exactly
/// the characters of the string for which `char::is_numeric` holds, in
/// their original order, and drops the rest.
#[verifier::external_body]
fn numeric_only(s: &str) -> (r: String)
    ensures
        r@ == s@.filter(|c: char| is_numeric_char(c)),
        r@ == numeric_chars_of(s@),
{
    let mut z = sanitizer::prelude::StringSanitizer::from(s);
    z.numeric();
    z.get()
}

/// `s` with leading zeros removed, except that a single final zero is
/// kept: `0`, `00`, ... all become `0`.
pub open spec fn strip_leading_zeros(s: Seq<char>) -> Seq<char>
    decreases s.len(),
{
    if s.len() > 1 && s[0] == '0' {
        strip_leading_zeros(s.drop_first())
    } else {
        s
    }
}

/// `s` cut down to at most `cap` characters.
pub open spec fn truncate_to(s: Seq<char>, cap: nat) -> Seq<char> {
    if s.len() > cap {
        s.take(cap as int)
    } else {
        s
    }
}

/// What sanitizing a field leaves behind: its numeric characters, less
/// leading zeros, capped in length.
pub open spec fn sanitize_spec(s: Seq<char>, cap: nat) -> Seq<char> {
    truncate_to(strip_leading_zeros(numeric_chars_of(s)), cap)
}

/// Normalize a numeric text field in place: drop every character that is
/// not numeric, strip leading zeros (keeping a lone `0`), and truncate
/// to at most `max_length` characters.
pub fn sanitize_string(string: &mut String, max_length: usize)
    ensures
        final(string)@ == sanitize_spec(old(string)@, max_length as nat),
{
    let digits: String = numeric_only(string.as_str());
    let len: usize = digits.as_str().unicode_len();
    let mut start: usize = 0;
    proof {
        assert(digits@.skip(0) =~= digits@);
    }
    while start + 1 < len && digits.as_str().get_char(start) == '0'
        invariant
            len == digits@.len(),
            start <= len,
            len > 0 ==> start < len,
            len == 0 ==> start == 0,
            strip_leading_zeros(digits@) == strip_leading_zeros(digits@.skip(start as int)),
        decreases len - start,
    {
        proof {
            let tail = digits@.skip(start as int);
            assert(tail[0] == digits@[start as int]);
            assert(tail.drop_first() =~= digits@.skip(start as int + 1));
        }
        start = start + 1;
    }
    proof {
        let tail = digits@.skip(start as int);
        if start + 1 < len {
            assert(tail[0] != '0');
        }
        assert(strip_leading_zeros(tail) == tail);
    }
    let keep: usize = len - start;
    let take_n: usize = if keep > max_length {
        max_length
    } else {
        keep
    };
    let trimmed: &str = digits.as_str().substring_char(start, start + take_n);
    proof {
        let tail = digits@.skip(start as int);
        assert(trimmed@ =~= truncate_to(tail, max_length as nat));
    }
    *string = trimmed.to_owned();
}

/// Whether `c` is one of the decimal digits `0` through `9`.
pub open spec fn is_ascii_digit_char(c: char) -> bool {
    48 <= c as int && c as int <= 57
}

/// The numeric value of a decimal digit.
pub open spec fn digit_val(c: char) -> int {
    c as int - 48
}

/// Whether every character of `s` is a decimal digit.
pub open spec fn all_ascii_digits(s: Seq<char>) -> bool {
    forall|i: int| 0 <= i < s.len() ==> is_ascii_digit_char(s[i])
}

/// The number the digit string `s` denotes, most significant first.
pub open spec fn digits_val(s: Seq<char>) -> int
    decreases s.len(),
{
    if s.len() == 0 {
        0
    } else {
        digits_val(s.drop_last()) * 10 + digit_val(s.last())
    }
}

/// What parsing a field yields: the denoted number where `s` is a
/// non-empty string of decimal digits whose value fits in a `u32`, and
/// the default zero for anything else.
pub open spec fn parse_or_zero(s: Seq<char>) -> int {
    if s.len() > 0 && all_ascii_digits(s) && digits_val(s) <= u32::MAX {
        digits_val(s)
    } else {
        0
    }
}

/// A digit string denotes a non-negative number.
proof fn lemma_digits_val_nonneg(s: Seq<char>)
    requires
        all_ascii_digits(s),
    ensures
        digits_val(s) >= 0,
    decreases s.len(),
{
    if s.len() == 0 {
    } else {
        assert(all_ascii_digits(s.drop_last())) by {
            assert(forall|i: int|
                0 <= i < s.len() - 1 ==> s.drop_last()[i] == s[i] && is_ascii_digit_char(s[i]));
        }
        lemma_digits_val_nonneg(s.drop_last());
        assert(is_ascii_digit_char(s.last()));
    }
}

/// A prefix of a digit string denotes at most what the whole denotes.
proof fn lemma_digits_val_prefix_le(s: Seq<char>, j: int)
    requires
        all_ascii_digits(s),
        0 <= j <= s.len(),
    ensures
        digits_val(s.take(j)) <= digits_val(s),
    decreases s.len() - j,
{
    if j == s.len() {
        assert(s.take(j) =~= s);
    } else {
        assert(all_ascii_digits(s.take(j))) by {
            assert(forall|i: int| 0 <= i < j ==> s.take(j)[i] == s[i] && is_ascii_digit_char(s[i]));
        }
        lemma_digits_val_nonneg(s.take(j));
        assert(s.take(j + 1).drop_last() =~= s.take(j));
        assert(s.take(j + 1).last() == s[j]);
        assert(is_ascii_digit_char(s[j]));
        lemma_digits_val_prefix_le(s, j + 1);
    }
}

/// Parse a numeric text field: the denoted value for a non-empty string
/// of decimal digits that fits in a `u32`, and zero — the recovery
/// default — for an empty, non-numeric or too-large field.
pub fn parse_u32_or_zero(s: &str) -> (r: u32)
    ensures
        r as int == parse_or_zero(s@),
{
    let len: usize = s.unicode_len();
    if len == 0 {
        return 0;
    }
    let mut i: usize = 0;
    let mut acc: u64 = 0;
    while i < len
        invariant
            len == s@.len(),
            i <= len,
            all_ascii_digits(s@.take(i as int)),
            acc as int == digits_val(s@.take(i as int)),
            acc <= u32::MAX as u64,
        decreases len - i,
    {
        let c: char = s.get_char(i);
        let v: u32 = c as u32;
        if v < 48 || v > 57 {
            proof {
                assert(!is_ascii_digit_char(s@[i as int]));
                assert(!all_ascii_digits(s@));
            }
            return 0;
        }
        proof {
            assert(s@.take(i as int + 1).drop_last() =~= s@.take(i as int));
            assert(s@.take(i as int + 1).last() == s@[i as int]);
            assert(all_ascii_digits(s@.take(i as int + 1))) by {
                assert(forall|k: int|
                    0 <= k < i as int + 1 ==> s@.take(i as int + 1)[k] == s@[k]);
            }
        }
        acc = acc * 10 + ((v - 48) as u64);
        if acc > u32::MAX as u64 {
            proof {
                if all_ascii_digits(s@) {
                    lemma_digits_val_prefix_le(s@, i as int + 1);
                }
            }
            return 0;
        }
        i = i + 1;
    }
    proof {
        assert(s@.take(len as int) =~= s@);
    }
    acc as u32
}

} // verus!
