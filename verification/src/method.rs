//! The request method: recognising one of the supported verbs from a
//! caller-supplied string, insensitively to ASCII letter case.
use vstd::prelude::*;

verus! {

/// The verbs a request may carry.
#[derive(Clone, Copy, PartialEq, Eq, Structural, Debug)]
pub enum Method {
    Get,
    Post,
    Put,
    Delete,
    Patch,
    Head,
}

/// The canonical (upper-case) spelling of a verb.
pub open spec fn method_name(m: Method) -> Seq<char> {
    match m {
        Method::Get => "GET"@,
        Method::Post => "POST"@,
        Method::Put => "PUT"@,
        Method::Delete => "DELETE"@,
        Method::Patch => "PATCH"@,
        Method::Head => "HEAD"@,
    }
}

/// `c` is an upper-case ASCII letter.
pub open spec fn is_upper(c: char) -> bool {
    65 <= c as u32 && c as u32 <= 90
}

/// `l` is the lower-case form of the upper-case ASCII letter `u`.
pub open spec fn lower_of_upper(l: char, u: char) -> bool {
    is_upper(u) && l as u32 == u as u32 + 32
}

/// `c` spells the upper-case ASCII letter `u`, in either case.
pub open spec fn char_case_matches(c: char, u: char) -> bool {
    c == u || lower_of_upper(c, u)
}

/// `s` spells the upper-case name `u`, each character in either case.
pub open spec fn matches_upper(s: Seq<char>, u: Seq<char>) -> bool {
    s.len() == u.len() && (forall|i: int| 0 <= i < s.len() ==> char_case_matches(s[i], u[i]))
}

/// Which verb, if any, a method string denotes: the one whose canonical
/// spelling it matches up to ASCII letter case.
pub open spec fn parsed_method(s: Seq<char>) -> Option<Method> {
    if matches_upper(s, "GET"@) {
        Some(Method::Get)
    } else if matches_upper(s, "POST"@) {
        Some(Method::Post)
    } else if matches_upper(s, "PUT"@) {
        Some(Method::Put)
    } else if matches_upper(s, "DELETE"@) {
        Some(Method::Delete)
    } else if matches_upper(s, "PATCH"@) {
        Some(Method::Patch)
    } else if matches_upper(s, "HEAD"@) {
        Some(Method::Head)
    } else {
        None
    }
}

/// Executable test for [`char_case_matches`].
fn char_matches(c: char, u: char) -> (r: bool)
    ensures
        r == char_case_matches(c, u),
{
    let cu = c as u32;
    let uu = u as u32;
    c == u || (65 <= uu && uu <= 90 && cu == uu + 32)
}

/// Executable test for [`matches_upper`].
fn matches_method_name(s: &str, name: &str) -> (r: bool)
    ensures
        r == matches_upper(s@, name@),
{
    let n = s.unicode_len();
    if n != name.unicode_len() {
        return false;
    }
    let mut i: usize = 0;
    while i < n
        invariant
            n == s@.len(),
            n == name@.len(),
            i <= n,
            forall|j: int| 0 <= j < i ==> char_case_matches(s@[j], name@[j]),
        decreases n - i,
    {
        if !char_matches(s.get_char(i), name.get_char(i)) {
            assert(!char_case_matches(s@[i as int], name@[i as int]));
            return false;
        }
        i += 1;
    }
    true
}

/// `a` and `b` are the same character up to ASCII letter case.
pub open spec fn char_case_equiv(a: char, b: char) -> bool {
    a == b || lower_of_upper(a, b) || lower_of_upper(b, a)
}

/// `s` and `t` are the same string up to ASCII letter case.
pub open spec fn case_equiv(s: Seq<char>, t: Seq<char>) -> bool {
    s.len() == t.len() && (forall|i: int| 0 <= i < s.len() ==> char_case_equiv(s[i], t[i]))
}

/// Every character of `u` is an upper-case ASCII letter.
pub open spec fn all_upper(u: Seq<char>) -> bool {
    forall|i: int| 0 <= i < u.len() ==> is_upper(u[i])
}

proof fn lemma_char_matches_equiv(a: char, b: char, u: char)
    requires
        is_upper(u),
        char_case_equiv(a, b),
    ensures
        char_case_matches(a, u) == char_case_matches(b, u),
{
}

proof fn lemma_matches_upper_equiv(s: Seq<char>, t: Seq<char>, u: Seq<char>)
    requires
        all_upper(u),
        case_equiv(s, t),
    ensures
        matches_upper(s, u) == matches_upper(t, u),
{
    if s.len() == u.len() {
        assert forall|i: int| 0 <= i < s.len() implies char_case_matches(s[i], u[i])
            == char_case_matches(t[i], u[i]) by {
            lemma_char_matches_equiv(s[i], t[i], u[i]);
        }
    }
}

/// Law: the method check is insensitive to ASCII letter case — two method
/// strings that differ only in the case of their letters are recognised as
/// the same verb, or both rejected.
pub proof fn lemma_method_case_insensitive(s: Seq<char>, t: Seq<char>)
    requires
        case_equiv(s, t),
    ensures
        parsed_method(s) == parsed_method(t),
{
    reveal_strlit("GET");
    reveal_strlit("POST");
    reveal_strlit("PUT");
    reveal_strlit("DELETE");
    reveal_strlit("PATCH");
    reveal_strlit("HEAD");
    lemma_matches_upper_equiv(s, t, "GET"@);
    lemma_matches_upper_equiv(s, t, "POST"@);
    lemma_matches_upper_equiv(s, t, "PUT"@);
    lemma_matches_upper_equiv(s, t, "DELETE"@);
    lemma_matches_upper_equiv(s, t, "PATCH"@);
    lemma_matches_upper_equiv(s, t, "HEAD"@);
}

/// The message a request with an unrecognised method fails with; it names
/// the offending string.
pub open spec fn unsupported_method_message(s: Seq<char>) -> Seq<char> {
    "Unsupported HTTP method: "@ + s
}

/// Recognises the verb a method string denotes, in any ASCII letter case,
/// or reports the string as unsupported.
pub fn parse_method(method: &str) -> (r: Result<Method, String>)
    ensures
        match parsed_method(method@) {
            Some(m) => r == Ok::<Method, String>(m),
            None => (r matches Err(e) && e@ == unsupported_method_message(method@)),
        },
{
    if matches_method_name(method, "GET") {
        Ok(Method::Get)
    } else if matches_method_name(method, "POST") {
        Ok(Method::Post)
    } else if matches_method_name(method, "PUT") {
        Ok(Method::Put)
    } else if matches_method_name(method, "DELETE") {
        Ok(Method::Delete)
    } else if matches_method_name(method, "PATCH") {
        Ok(Method::Patch)
    } else if matches_method_name(method, "HEAD") {
        Ok(Method::Head)
    } else {
        let mut e = String::from_str("Unsupported HTTP method: ");
        e.append(method);
        Err(e)
    }
}

} // verus!
