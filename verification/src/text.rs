//! Small helpers on strings.

use vstd::prelude::*;

verus! {

/// Whether two string slices hold the same characters.
pub fn same_text(a: &str, b: &str) -> (same: bool)
    ensures
        same == (a@ == b@),
{
    let left = a.to_owned();
    let right = b.to_owned();
    left == right
}

/// Whether `prefix` is a prefix of `s`, as a statement over characters.
pub open spec fn has_prefix(s: Seq<char>, prefix: Seq<char>) -> bool {
    prefix.len() <= s.len() && s.subrange(0, prefix.len() as int) == prefix
}

/// Removes `prefix` from the front of `s`.
///
/// Returns the rest of `s` when it starts with `prefix`, and `None` when it
/// does not.
pub fn strip_prefix(s: &str, prefix: &str) -> (rest: Option<String>)
    ensures
        has_prefix(s@, prefix@) <==> rest.is_some(),
        rest.is_some() ==> rest.unwrap()@ == s@.subrange(prefix@.len() as int, s@.len() as int),
{
    let n: usize = s.unicode_len();
    let m: usize = prefix.unicode_len();
    if m > n {
        return None;
    }
    let head = s.substring_char(0, m);
    if same_text(head, prefix) {
        let tail = s.substring_char(m, n);
        Some(tail.to_owned())
    } else {
        None
    }
}

/// The character that stands for the decimal digit `d`.
pub open spec fn digit_char(d: int) -> char {
    if d == 0 {
        '0'
    } else if d == 1 {
        '1'
    } else if d == 2 {
        '2'
    } else if d == 3 {
        '3'
    } else if d == 4 {
        '4'
    } else if d == 5 {
        '5'
    } else if d == 6 {
        '6'
    } else if d == 7 {
        '7'
    } else if d == 8 {
        '8'
    } else {
        '9'
    }
}

/// The decimal digits of `n`, most significant first, without leading zeros.
pub open spec fn decimal_digits(n: nat) -> Seq<char>
    decreases n,
{
    if n < 10 {
        seq![digit_char(n as int)]
    } else {
        decimal_digits(n / 10).push(digit_char((n % 10) as int))
    }
}

/// The decimal text of an integer: a minus sign for a negative one, then the
/// digits of its magnitude.
pub open spec fn decimal_text(i: int) -> Seq<char> {
    if i < 0 {
        seq!['-'] + decimal_digits((-i) as nat)
    } else {
        decimal_digits(i as nat)
    }
}

fn digit_text(d: u64) -> (text: &'static str)
    requires
        d < 10,
    ensures
        text@ == seq![digit_char(d as int)],
{
    proof {
        reveal_strlit("0");
        reveal_strlit("1");
        reveal_strlit("2");
        reveal_strlit("3");
        reveal_strlit("4");
        reveal_strlit("5");
        reveal_strlit("6");
        reveal_strlit("7");
        reveal_strlit("8");
        reveal_strlit("9");
    }
    let text = if d == 0 {
        "0"
    } else if d == 1 {
        "1"
    } else if d == 2 {
        "2"
    } else if d == 3 {
        "3"
    } else if d == 4 {
        "4"
    } else if d == 5 {
        "5"
    } else if d == 6 {
        "6"
    } else if d == 7 {
        "7"
    } else if d == 8 {
        "8"
    } else {
        "9"
    };
    assert(text@ =~= seq![digit_char(d as int)]);
    text
}

/// Writes a natural number in decimal.
pub fn decimal(n: u64) -> (text: String)
    ensures
        text@ == decimal_digits(n as nat),
    decreases n,
{
    if n < 10 {
        String::from_str(digit_text(n))
    } else {
        let head = decimal(n / 10);
        let text = head.concat(digit_text(n % 10));
        assert(text@ =~= decimal_digits((n / 10) as nat).push(digit_char((n % 10) as int)));
        text
    }
}

/// Writes a signed integer in decimal.
pub fn signed_decimal(i: i32) -> (text: String)
    ensures
        text@ == decimal_text(i as int),
{
    if i < 0 {
        let magnitude: u64 = (-(i as i64)) as u64;
        proof {
            reveal_strlit("-");
        }
        let text = String::from_str("-").concat(decimal(magnitude).as_str());
        assert(text@ =~= seq!['-'] + decimal_digits((-i) as nat));
        text
    } else {
        decimal(i as u64)
    }
}

/// What lossy decoding makes of bytes that are not well-formed UTF-8: the
/// characters of the well-formed parts, with a replacement character for
/// each malformed part.
pub uninterp spec fn utf8_lossy(bytes: Seq<u8>) -> Seq<char>;

/// The text that lossy decoding makes of a byte sequence. Bytes that are
/// well-formed UTF-8 decode to exactly the text they encode.
pub open spec fn lossy_text(bytes: Seq<u8>) -> Seq<char> {
    if vstd::utf8::valid_utf8(bytes) {
        vstd::utf8::decode_utf8(bytes)
    } else {
        utf8_lossy(bytes)
    }
}

/// Calls `String::from_utf8_lossy`.
///
/// Trusted: the result depends on the bytes alone, and bytes that are
/// well-formed UTF-8 decode to exactly the text they encode.
#[verifier::external_body]
fn from_utf8_lossy(bytes: &Vec<u8>) -> (text: String)
    ensures
        vstd::utf8::valid_utf8(bytes@) ==> text@ == vstd::utf8::decode_utf8(bytes@),
        !vstd::utf8::valid_utf8(bytes@) ==> text@ == utf8_lossy(bytes@),
{
    String::from_utf8_lossy(bytes).into_owned()
}

/// Decodes bytes as UTF-8, lossily.
pub fn decode_lossy(bytes: &Vec<u8>) -> (text: String)
    ensures
        text@ == lossy_text(bytes@),
{
    from_utf8_lossy(bytes)
}

/// Text that is encoded and then decoded comes back unchanged.
pub proof fn lemma_decode_encoded(text: Seq<char>)
    ensures
        lossy_text(vstd::utf8::encode_utf8(text)) == text,
{
    vstd::utf8::encode_utf8_valid_utf8(text);
    vstd::utf8::encode_utf8_decode_utf8(text);
}

} // verus!
