//! Character-level text rules: which bodies count as blank, and how a raw
//! header value is rendered as text.
use vstd::prelude::*;

verus! {

/// True of the characters that count as whitespace when a body is tested
/// for blankness: the Unicode `White_Space` code points, the set that
/// `str::trim` strips.
pub open spec fn is_space_char(c: char) -> bool {
    let u = c as u32;
    ||| (9 <= u && u <= 13)
    ||| u == 32
    ||| u == 0x85
    ||| u == 0xA0
    ||| u == 0x1680
    ||| (0x2000 <= u && u <= 0x200A)
    ||| u == 0x2028
    ||| u == 0x2029
    ||| u == 0x202F
    ||| u == 0x205F
    ||| u == 0x3000
}

/// A string is blank when every character is whitespace; in particular the
/// empty string is blank.
pub open spec fn is_blank(s: Seq<char>) -> bool {
    forall|i: int| 0 <= i < s.len() ==> is_space_char(s[i])
}

/// Executable test for [`is_space_char`].
pub fn is_space(c: char) -> (r: bool)
    ensures
        r == is_space_char(c),
{
    let u = c as u32;
    (9 <= u && u <= 13) || u == 32 || u == 0x85 || u == 0xA0 || u == 0x1680
        || (0x2000 <= u && u <= 0x200A) || u == 0x2028 || u == 0x2029 || u == 0x202F
        || u == 0x205F || u == 0x3000
}

/// Executable test for [`is_blank`].
pub fn str_is_blank(s: &str) -> (r: bool)
    ensures
        r == is_blank(s@),
{
    let n = s.unicode_len();
    let mut i: usize = 0;
    while i < n
        invariant
            n == s@.len(),
            i <= n,
            forall|j: int| 0 <= j < i ==> is_space_char(s@[j]),
        decreases n - i,
    {
        let c = s.get_char(i);
        if !is_space(c) {
            assert(!is_space_char(s@[i as int]));
            return false;
        }
        i += 1;
    }
    true
}

/// What the outbound body becomes: a present body that is blank counts as
/// absent; anything else is kept as it is.
pub open spec fn normalized_body_spec(body: Option<Seq<char>>) -> Option<Seq<char>> {
    match body {
        Some(b) => if is_blank(b) {
            None
        } else {
            Some(b)
        },
        None => None,
    }
}

/// Drops a body that is blank, so that no body is attached for it.
pub fn normalize_body(body: Option<String>) -> (r: Option<String>)
    ensures
        r.deep_view() == normalized_body_spec(body.deep_view()),
{
    match body {
        Some(b) => if str_is_blank(b.as_str()) {
            None
        } else {
            Some(b)
        },
        None => None,
    }
}

/// True of the bytes a header value may show as text: visible ASCII,
/// space and horizontal tab.
pub open spec fn is_visible_ascii_byte(b: u8) -> bool {
    (32 <= b && b < 127) || b == 9
}

/// The characters spelt by a run of ASCII bytes, one per byte.
pub open spec fn ascii_chars_of(bs: Seq<u8>) -> Seq<char> {
    bs.map_values(|b: u8| b as char)
}

/// How a raw header value reads as text: its bytes as characters where all
/// of them are visible ASCII, and the placeholder `"<invalid>"` otherwise.
pub open spec fn header_value_text_spec(bs: Seq<u8>) -> Seq<char> {
    if forall|i: int| 0 <= i < bs.len() ==> is_visible_ascii_byte(bs[i]) {
        ascii_chars_of(bs)
    } else {
        "<invalid>"@
    }
}

/// Relies on `core::str::from_utf8`: bytes below 128 are valid UTF-8 and
/// decode to the characters with the same code points, one per byte.
#[verifier::external_body]
fn ascii_to_string(bytes: &Vec<u8>) -> (r: String)
    requires
        forall|i: int| 0 <= i < bytes@.len() ==> bytes@[i] < 128,
    ensures
        r@ == ascii_chars_of(bytes@),
{
    match core::str::from_utf8(bytes.as_slice()) {
        Ok(s) => s.to_owned(),
        Err(_) => String::new(),
    }
}

/// Renders one raw header value as text: the value itself where every byte
/// is visible ASCII, and `"<invalid>"` otherwise.
pub fn header_value_text(bytes: &Vec<u8>) -> (r: String)
    ensures
        r@ == header_value_text_spec(bytes@),
{
    let n = bytes.len();
    let mut i: usize = 0;
    while i < n
        invariant
            n == bytes@.len(),
            i <= n,
            forall|j: int| 0 <= j < i ==> is_visible_ascii_byte(bytes@[j]),
        decreases n - i,
    {
        let b = bytes[i];
        if !((32 <= b && b < 127) || b == 9) {
            assert(!is_visible_ascii_byte(bytes@[i as int]));
            return String::from_str("<invalid>");
        }
        i += 1;
    }
    ascii_to_string(bytes)
}

/// Law: a blank body and an absent body are normalized alike, so attaching
/// either leads to the same outbound request.
pub proof fn lemma_blank_body_like_absent(b: Seq<char>)
    requires
        is_blank(b),
    ensures
        normalized_body_spec(Some(b)) == normalized_body_spec(None),
{
}

} // verus!
