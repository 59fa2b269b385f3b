//! Character classes and small text conversions used by the request rules.

use vstd::prelude::*;
use vstd::utf8::{decode_utf8, encode_utf8, valid_utf8};

verus! {

broadcast use vstd::string::group_string_axioms;

/// A Unicode scalar value in general category `Cc` (control codes):
/// U+0000..U+001F and U+007F..U+009F.
pub open spec fn is_control_char(c: char) -> bool {
    (c as u32) < 0x20 || (0x7f <= (c as u32) && (c as u32) < 0xa0)
}

/// A character with the Unicode `White_Space` property.
pub open spec fn is_white_space(c: char) -> bool {
    let u = c as u32;
    ||| 0x09 <= u <= 0x0d
    ||| u == 0x20
    ||| u == 0x85
    ||| u == 0xa0
    ||| u == 0x1680
    ||| 0x2000 <= u <= 0x200a
    ||| u == 0x2028
    ||| u == 0x2029
    ||| u == 0x202f
    ||| u == 0x205f
    ||| u == 0x3000
}

/// Whether some character of `s` is a control character.
pub open spec fn has_control_char(s: Seq<char>) -> bool {
    exists|i: int| 0 <= i < s.len() && is_control_char(s[i])
}

/// Whether `s` holds nothing but white space: what is left after trimming
/// white space from both ends is empty.
pub open spec fn is_blank(s: Seq<char>) -> bool {
    forall|i: int| 0 <= i < s.len() ==> is_white_space(s[i])
}

/// Whether `c` occurs in `s`.
pub open spec fn has_char(s: Seq<char>, c: char) -> bool {
    exists|i: int| 0 <= i < s.len() && s[i] == c
}

/// Tests whether `c` is a control character (general category `Cc`).
pub fn char_is_control(c: char) -> (r: bool)
    ensures
        r == is_control_char(c),
{
    let u = c as u32;
    u < 0x20 || (0x7f <= u && u < 0xa0)
}

/// Tests whether `c` has the Unicode `White_Space` property.
pub fn char_is_white_space(c: char) -> (r: bool)
    ensures
        r == is_white_space(c),
{
    let u = c as u32;
    (0x09 <= u && u <= 0x0d) || u == 0x20 || u == 0x85 || u == 0xa0 || u == 0x1680 || (0x2000
        <= u && u <= 0x200a) || u == 0x2028 || u == 0x2029 || u == 0x202f || u == 0x205f || u
        == 0x3000
}

/// Scans `s` for a control character.
pub fn contains_control_char(s: &str) -> (r: bool)
    ensures
        r == has_control_char(s@),
{
    let mut found = false;
    for c in it: s.chars()
        invariant
            it.seq() == s@,
            found == (exists|j: int| 0 <= j < it.index() && is_control_char(s@[j])),
    {
        if char_is_control(c) {
            found = true;
        }
    }
    found
}

/// Scans `s` for the character `c`.
pub fn contains_char(s: &str, c: char) -> (r: bool)
    ensures
        r == has_char(s@, c),
{
    let mut found = false;
    for d in it: s.chars()
        invariant
            it.seq() == s@,
            found == (exists|j: int| 0 <= j < it.index() && s@[j] == c),
    {
        if d == c {
            found = true;
        }
    }
    found
}

/// Whether `s` is empty once white space is trimmed from both ends.
pub fn trims_to_empty(s: &str) -> (r: bool)
    ensures
        r == is_blank(s@),
{
    let mut blank = true;
    for c in it: s.chars()
        invariant
            it.seq() == s@,
            blank == (forall|j: int| 0 <= j < it.index() ==> is_white_space(s@[j])),
    {
        if !char_is_white_space(c) {
            blank = false;
        }
    }
    blank
}

/// Appends `c` to `s` by `String::push`, which adds one character at the end.
#[verifier::external_body]
pub(crate) fn push_char(s: &mut String, c: char)
    ensures
        final(s)@ == old(s)@.push(c),
{
    s.push(c);
}

/// A byte that an HTTP header value may carry as text: visible ASCII or tab.
pub open spec fn is_visible_ascii(b: u8) -> bool {
    (32 <= b && b < 127) || b == 9
}

/// The characters of a byte sequence read as ASCII, one character per byte.
pub open spec fn ascii_text(b: Seq<u8>) -> Seq<char> {
    Seq::new(b.len(), |i: int| b[i] as char)
}

/// The text of a header value: present exactly when every byte is visible
/// ASCII or tab, and then the bytes read as characters.
pub open spec fn header_text_spec(b: Seq<u8>) -> Option<Seq<char>> {
    if forall|i: int| 0 <= i < b.len() ==> is_visible_ascii(b[i]) {
        Some(ascii_text(b))
    } else {
        None
    }
}

/// Reads a header value as text, as the HTTP header type's `to_str` does:
/// the value is text only when all of its bytes are visible ASCII or tab.
pub fn header_text(b: &[u8]) -> (r: Option<String>)
    ensures
        match r {
            Some(s) => header_text_spec(b@) == Some(s@),
            None => header_text_spec(b@) is None,
        },
{
    let mut out = String::new();
    let mut i: usize = 0;
    while i < b.len()
        invariant
            0 <= i <= b.len(),
            out@ =~= ascii_text(b@.subrange(0, i as int)),
            forall|j: int| 0 <= j < i ==> is_visible_ascii(b@[j]),
        decreases b.len() - i,
    {
        let x = b[i];
        if !((32 <= x && x < 127) || x == 9) {
            return None;
        }
        push_char(&mut out, x as char);
        i = i + 1;
    }
    assert(b@.subrange(0, b@.len() as int) =~= b@);
    Some(out)
}

/// Text that is all ASCII is encoded in UTF-8 by its own character codes.
pub proof fn lemma_ascii_text_bytes(b: Seq<u8>)
    requires
        forall|i: int| 0 <= i < b.len() ==> b[i] < 128,
    ensures
        encode_utf8(ascii_text(b)) == b,
{
    let t = ascii_text(b);
    assert(vstd::utf8::is_ascii_chars(t)) by {
        assert forall|i: int| 0 <= i < t.len() implies '\0' <= #[trigger] t[i] <= '\u{7f}' by {
            assert(b[i] < 128);
        }
    }
    vstd::utf8::is_ascii_chars_encode_utf8(t);
    assert forall|i: int| 0 <= i < b.len() implies encode_utf8(t)[i] == b[i] by {
        assert(t[i] as u8 == encode_utf8(t)[i]);
        assert((b[i] as char) as u8 == b[i]);
    }
    assert(encode_utf8(t) =~= b);
}

/// A name for the text that `String::from_utf8_lossy` makes of a byte
/// sequence, which replaces each invalid UTF-8 sequence by U+FFFD.
pub uninterp spec fn utf8_lossy(bytes: Seq<u8>) -> Seq<char>;

/// Decodes `bytes` by `String::from_utf8_lossy`. Its result is named
/// `utf8_lossy(bytes)`; on valid UTF-8 input it is the decoded text. How
/// invalid sequences are replaced is left unsaid.
#[verifier::external_body]
pub(crate) fn text_of_bytes_lossy(bytes: &[u8]) -> (r: String)
    ensures
        r@ == utf8_lossy(bytes@),
        valid_utf8(bytes@) ==> r@ == decode_utf8(bytes@),
{
    String::from_utf8_lossy(bytes).into_owned()
}

/// An ASCII decimal digit.
pub open spec fn is_digit(b: u8) -> bool {
    48 <= b <= 57
}

/// The number written by a sequence of decimal digits, most significant first.
pub open spec fn digits_value(d: Seq<u8>) -> nat
    decreases d.len(),
{
    if d.len() == 0 {
        0
    } else {
        digits_value(d.drop_last()) * 10 + (d.last() - 48) as nat
    }
}

/// Whether every byte of `d` is a decimal digit.
pub open spec fn all_digits(d: Seq<u8>) -> bool {
    forall|i: int| 0 <= i < d.len() ==> is_digit(#[trigger] d[i])
}

/// The length of the sign that may open a decimal text: one for `+` or `-`.
pub open spec fn sign_len(s: Seq<u8>) -> int {
    if s.len() > 0 && (s[0] == 45 || s[0] == 43) {
        1
    } else {
        0
    }
}

/// The `i64` that a text denotes in decimal, as `str::parse::<i64>` reads it:
/// an optional `+` or `-` sign, then one or more ASCII digits, and the value
/// must lie in the range of `i64`. Anything else denotes no number.
pub open spec fn parse_i64_spec(s: Seq<u8>) -> Option<i64> {
    let d = s.subrange(sign_len(s), s.len() as int);
    if d.len() == 0 || !all_digits(d) {
        None
    } else {
        let v: int = if s[0] == 45 {
            -(digits_value(d) as int)
        } else {
            digits_value(d) as int
        };
        if i64::MIN <= v <= i64::MAX {
            Some(v as i64)
        } else {
            None
        }
    }
}

/// Reads a decimal `i64`, accepting exactly the texts `str::parse::<i64>`
/// accepts.
pub fn parse_i64(s: &str) -> (r: Option<i64>)
    ensures
        r == parse_i64_spec(encode_utf8(s@)),
{
    parse_i64_bytes(s.as_bytes())
}

/// Reads a decimal `i64` from the bytes of a text.
pub fn parse_i64_bytes(b: &[u8]) -> (r: Option<i64>)
    ensures
        r == parse_i64_spec(b@),
{
    let n = b.len();
    if n == 0 {
        return None;
    }
    let start: usize = if b[0] == 45 || b[0] == 43 {
        1
    } else {
        0
    };
    let ghost d = b@.subrange(start as int, n as int);
    assert(start == sign_len(b@));
    if start == n {
        return None;
    }
    let limit: u128 = 9223372036854775808;
    let mut mag: u128 = 0;
    let mut big = false;
    let mut i: usize = start;
    while i < n
        invariant
            start <= i <= n,
            n == b@.len(),
            d == b@.subrange(start as int, n as int),
            start == sign_len(b@),
            limit == 9223372036854775808,
            all_digits(b@.subrange(start as int, i as int)),
            big ==> digits_value(b@.subrange(start as int, i as int)) > limit,
            !big ==> mag == digits_value(b@.subrange(start as int, i as int)) && mag <= limit,
        decreases n - i,
    {
        let x = b[i];
        if !(48 <= x && x <= 57) {
            assert(d[i - start] == x);
            assert(!all_digits(d));
            return None;
        }
        let ghost prev = b@.subrange(start as int, i as int);
        let ghost ext = b@.subrange(start as int, i + 1);
        assert(ext.drop_last() =~= prev);
        assert(ext.last() == x);
        assert(all_digits(ext)) by {
            assert forall|k: int| 0 <= k < ext.len() implies is_digit(#[trigger] ext[k]) by {
                if k < prev.len() {
                    assert(ext[k] == prev[k]);
                }
            }
        }
        assert(digits_value(ext) == digits_value(prev) * 10 + (x - 48) as nat);
        if !big {
            let next = mag * 10 + (x - 48) as u128;
            if next > limit {
                big = true;
            } else {
                mag = next;
            }
        }
        i = i + 1;
    }
    if big {
        None
    } else if b[0] == 45 {
        Some((0 - (mag as i128)) as i64)
    } else if mag < limit {
        Some(mag as i64)
    } else {
        None
    }
}

} // verus!
