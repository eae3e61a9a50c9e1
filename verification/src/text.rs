//! Text helpers shared by the library: ASCII byte strings, decimal numbers and
//! placeholder substitution.
use vstd::prelude::*;
use vstd::utf8::*;
use vstd::string::{StrSliceExecFns, StringExecFns};

verus! {

/// The characters of a sequence of ASCII bytes.
pub open spec fn ascii_text(bytes: Seq<u8>) -> Seq<char> {
    bytes.map_values(|b: u8| b as char)
}

pub open spec fn all_ascii(bytes: Seq<u8>) -> bool {
    forall|i: int| 0 <= i < bytes.len() ==> #[trigger] bytes[i] < 128
}

/// Calls `String::from_utf8`.
///
/// Claimed (std documentation): the bytes are accepted exactly when they are valid UTF-8,
/// and the string then holds the characters they encode.
#[verifier::external_body]
fn string_from_utf8(bytes: Vec<u8>) -> (text: Option<String>)
    ensures
        text is Some <==> valid_utf8(bytes@),
        text matches Some(s) ==> s@ == decode_utf8(bytes@),
{
    String::from_utf8(bytes).ok()
}

proof fn lemma_ascii_bytes_utf8(bytes: Seq<u8>)
    requires
        all_ascii(bytes),
    ensures
        valid_utf8(bytes),
        decode_utf8(bytes) == ascii_text(bytes),
{
    let chars = ascii_text(bytes);
    assert(is_ascii_chars(chars)) by {
        assert forall|i| 0 <= i < chars.len() implies '\0' <= #[trigger] chars[i] <= '\u{7f}' by {
            assert(bytes[i] < 128);
        }
    }
    is_ascii_chars_encode_utf8(chars);
    assert forall|i| 0 <= i < bytes.len() implies encode_utf8(chars)[i] == bytes[i] by {
        let b = bytes[i];
        assert(chars[i] == b as char);
        assert(b < 128);
    }
    assert(encode_utf8(chars) =~= bytes);
    encode_utf8_valid_utf8(chars);
    encode_utf8_decode_utf8(chars);
}

/// The string whose characters are the given ASCII bytes.
pub fn ascii_string(bytes: Vec<u8>) -> (text: String)
    requires
        all_ascii(bytes@),
    ensures
        text@ == ascii_text(bytes@),
{
    proof {
        lemma_ascii_bytes_utf8(bytes@);
    }
    string_from_utf8(bytes).unwrap()
}


/// Whether the placeholder `{}` starts at position `i`.
pub open spec fn placeholder_at(s: Seq<char>, i: int) -> bool {
    0 <= i && i + 1 < s.len() && s[i] == '{' && s[i + 1] == '}'
}

/// Whether the text holds the placeholder `{}`.
pub open spec fn has_placeholder(s: Seq<char>) -> bool {
    exists|i: int| placeholder_at(s, i)
}

/// The first position, from `k` on, at which the placeholder `{}` starts.
pub open spec fn first_placeholder_from(s: Seq<char>, k: int) -> Option<int>
    decreases s.len() - k,
{
    if k < 0 || k + 1 >= s.len() {
        None
    } else if placeholder_at(s, k) {
        Some(k)
    } else {
        first_placeholder_from(s, k + 1)
    }
}

/// The text with its first placeholder `{}` replaced by `with`; unchanged without one.
pub open spec fn replace_first_placeholder(s: Seq<char>, with: Seq<char>) -> Seq<char> {
    match first_placeholder_from(s, 0) {
        Some(i) => s.take(i) + with + s.skip(i + 2),
        None => s,
    }
}

/// The text with every placeholder `{}` replaced by `with`, scanning from left to right.
pub open spec fn replace_all_placeholders(s: Seq<char>, with: Seq<char>) -> Seq<char>
    decreases s.len(),
{
    match first_placeholder_from(s, 0) {
        Some(i) => if 0 <= i && i + 2 <= s.len() {
            s.take(i) + with + replace_all_placeholders(s.skip(i + 2), with)
        } else {
            s
        },
        None => s,
    }
}

proof fn lemma_first_placeholder_from(s: Seq<char>, k: int)
    requires
        0 <= k,
    ensures
        first_placeholder_from(s, k) matches Some(i) ==> k <= i && placeholder_at(s, i) && forall|
            j: int,
        | k <= j < i ==> !placeholder_at(s, j),
        first_placeholder_from(s, k) is None ==> forall|j: int| k <= j ==> !placeholder_at(s, j),
    decreases s.len() - k,
{
    if k + 1 >= s.len() {
    } else if placeholder_at(s, k) {
    } else {
        lemma_first_placeholder_from(s, k + 1);
    }
}

/// The position of the first placeholder `{}` in the text.
pub fn find_placeholder(s: &str) -> (position: Option<usize>)
    ensures
        position matches Some(i) ==> Some(i as int) == first_placeholder_from(s@, 0),
        position is None ==> first_placeholder_from(s@, 0) is None,
{
    let n = s.unicode_len();
    let mut i: usize = 0;
    proof {
        lemma_first_placeholder_from(s@, 0);
    }
    while i < n && i + 1 < n
        invariant
            n == s@.len(),
            0 <= i,
            i <= n || n == 0,
            first_placeholder_from(s@, 0) == first_placeholder_from(s@, i as int),
        decreases n - i,
    {
        if s.get_char(i) == '{' && s.get_char(i + 1) == '}' {
            return Some(i);
        }
        i = i + 1;
    }
    None
}

/// Whether the text holds the placeholder `{}`.
pub fn contains_placeholder(s: &str) -> (found: bool)
    ensures
        found == has_placeholder(s@),
{
    proof {
        lemma_first_placeholder_from(s@, 0);
    }
    find_placeholder(s).is_some()
}

/// The text with its first placeholder `{}` replaced by `with`.
pub fn replace_first(s: &str, with: &str) -> (replaced: String)
    ensures
        replaced@ == replace_first_placeholder(s@, with@),
{
    match find_placeholder(s) {
        Some(i) => {
            proof {
                lemma_first_placeholder_from(s@, 0);
            }
            let n = s.unicode_len();
            let mut replaced = String::from_str(s.substring_char(0, i));
            replaced.append(with);
            replaced.append(s.substring_char(i + 2, n));
            assert(s@.subrange(i + 2, n as int) =~= s@.skip(i + 2));
            assert(s@.subrange(0, i as int) =~= s@.take(i as int));
            replaced
        },
        None => String::from_str(s),
    }
}

/// The text with every placeholder `{}` replaced by `with`.
pub fn replace_all(s: &str, with: &str) -> (replaced: String)
    ensures
        replaced@ == replace_all_placeholders(s@, with@),
    decreases s@.len(),
{
    match find_placeholder(s) {
        Some(i) => {
            proof {
                lemma_first_placeholder_from(s@, 0);
            }
            let n = s.unicode_len();
            let rest = s.substring_char(i + 2, n);
            assert(rest@ =~= s@.skip(i + 2));
            let mut replaced = String::from_str(s.substring_char(0, i));
            assert(s@.subrange(0, i as int) =~= s@.take(i as int));
            replaced.append(with);
            let tail = replace_all(rest, with);
            replaced.append(tail.as_str());
            replaced
        },
        None => String::from_str(s),
    }
}


/// The character of a decimal digit.
pub open spec fn digit_char(d: nat) -> char {
    (48 + d) as char
}

/// The decimal digits of a natural number, without leading zeros.
pub open spec fn decimal_text(n: nat) -> Seq<char>
    decreases n,
{
    if n < 10 {
        seq![digit_char(n)]
    } else {
        decimal_text(n / 10).push(digit_char(n % 10))
    }
}

/// The decimal text of an integer: its digits, after a `-` when it is negative.
pub open spec fn signed_decimal_text(n: int) -> Seq<char> {
    if n < 0 {
        seq!['-'] + decimal_text((-n) as nat)
    } else {
        decimal_text(n as nat)
    }
}

fn digit_str(d: u64) -> (s: &'static str)
    requires
        d < 10,
    ensures
        s@ == seq![digit_char(d as nat)],
{
    proof {
        reveal_strlit("0");
        reveal_strlit("1");
        reveal_strlit("2");
        reveal_strlit("3");
        reveal_strlit("4");
        reveal_strlit("5");
        reveal_strlit("6");
        reveal_strlit("7");
        reveal_strlit("8");
        reveal_strlit("9");
    }
    let s = if d == 0 {
        "0"
    } else if d == 1 {
        "1"
    } else if d == 2 {
        "2"
    } else if d == 3 {
        "3"
    } else if d == 4 {
        "4"
    } else if d == 5 {
        "5"
    } else if d == 6 {
        "6"
    } else if d == 7 {
        "7"
    } else if d == 8 {
        "8"
    } else {
        "9"
    };
    assert(s@ =~= seq![digit_char(d as nat)]);
    s
}

/// The decimal text of an unsigned number.
pub fn decimal_string(n: u64) -> (text: String)
    ensures
        text@ == decimal_text(n as nat),
    decreases n,
{
    if n < 10 {
        String::from_str(digit_str(n))
    } else {
        let mut text = decimal_string(n / 10);
        text.append(digit_str(n % 10));
        text
    }
}

/// The decimal text of a signed number.
pub fn signed_decimal_string(n: i64) -> (text: String)
    ensures
        text@ == signed_decimal_text(n as int),
{
    if n < 0 {
        let magnitude: u64 = if n == i64::MIN {
            9223372036854775808u64
        } else {
            (-n) as u64
        };
        let digits = decimal_string(magnitude);
        let mut text = String::from_str("-");
        proof {
            reveal_strlit("-");
        }
        text.append(digits.as_str());
        assert(text@ =~= seq!['-'] + decimal_text((-n) as nat));
        text
    } else {
        decimal_string(n as u64)
    }
}

} // verus!
