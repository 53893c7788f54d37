//! Conditional request headers and the rule for what a header may hold.

use crate::error::RuarangoErr;
use reqwest::header::{HeaderMap, HeaderName, HeaderValue};
use vstd::prelude::*;
use vstd::string::*;

verus! {

/// The headers that requests of this library may carry.
#[derive(Clone, Copy, Debug, PartialEq, Eq, Structural)]
pub enum HeaderKind {
    /// `if-match`: act only on this revision
    IfMatch,
    /// `if-none-match`: act only on another revision
    IfNoneMatch,
    /// `rev`: act only on this revision
    Rev,
}

/// The name under which a header is sent.
pub open spec fn header_name(k: HeaderKind) -> Seq<char> {
    match k {
        HeaderKind::IfMatch => "if-match"@,
        HeaderKind::IfNoneMatch => "if-none-match"@,
        HeaderKind::Rev => "rev"@,
    }
}

impl HeaderKind {
    /// The name under which this header is sent.
    pub fn name(self) -> (r: &'static str)
        ensures
            r@ == header_name(self),
    {
        match self {
            HeaderKind::IfMatch => "if-match",
            HeaderKind::IfNoneMatch => "if-none-match",
            HeaderKind::Rev => "rev",
        }
    }
}

/// A character that a header value may hold: a tab, or any character but
/// the control characters below 32 and `DEL`.
pub open spec fn valid_header_char(c: char) -> bool {
    c == '\t' || (c as u32 >= 32 && c as u32 != 127)
}

/// A text that can be sent as a header value.
pub open spec fn valid_header_value(s: Seq<char>) -> bool {
    forall|i: int| 0 <= i < s.len() ==> valid_header_char(#[trigger] s[i])
}

/// `reqwest::header::HeaderValue`, declared so that values of it can be
/// carried; its contents are read through `header_value_text`.
#[verifier::external_type_specification]
#[verifier::external_body]
pub struct ExHeaderValue(HeaderValue);

/// `reqwest::header::HeaderMap`, declared so that the headers of a request
/// can be held in it; its contents are read through `header_map_entries`.
#[verifier::external_type_specification]
#[verifier::external_body]
#[verifier::reject_recursive_types(T)]
pub struct ExHeaderMap<T>(HeaderMap<T>);

/// The text that a header value holds.
pub uninterp spec fn header_value_text(v: HeaderValue) -> Seq<char>;

/// What a header map holds: under each header name, the texts of its values
/// in the order in which they were appended.
pub uninterp spec fn header_map_entries(m: HeaderMap) -> Map<Seq<char>, Seq<Seq<char>>>;

/// Trusted: `HeaderValue::from_str` (from the `http` crate) accepts exactly
/// the texts whose UTF-8 bytes are all a tab or at least 32 and not 127, and
/// the value then holds that text. A character at or above 128 is written
/// with bytes at or above 128 only, so acceptance is `valid_header_value`
/// over the characters.
#[verifier::external_body]
fn header_value_from_str(s: &str) -> (r: Option<HeaderValue>)
    ensures
        r is Some <==> valid_header_value(s@),
        r matches Some(v) ==> header_value_text(v) == s@,
{
    HeaderValue::from_str(s).ok()
}

/// Trusted: `HeaderMap::new` gives a map without headers.
#[verifier::external_body]
fn header_map_new() -> (r: HeaderMap)
    ensures
        header_map_entries(r).dom() == Set::<Seq<char>>::empty(),
{
    HeaderMap::new()
}

/// Trusted: `HeaderMap::append` under `HeaderName::from_static(name)` adds
/// the value after those already held under that name. `from_static` takes
/// the library's header names, which are lower-case tokens; the map it is
/// given holds no header, so its capacity is never exceeded.
#[verifier::external_body]
fn header_map_append(m: &mut HeaderMap, name: &'static str, v: HeaderValue)
    requires
        exists|k: HeaderKind| name@ == #[trigger] header_name(k),
        header_map_entries(*old(m)).dom() == Set::<Seq<char>>::empty(),
    ensures
        header_map_entries(*final(m)) == header_map_entries(*old(m)).insert(
            name@,
            seq![header_value_text(v)],
        ),
{
    let _ = m.append(HeaderName::from_static(name), v);
}

/// `value` as an owned text, when it can be sent in a header.
pub fn checked_header_value(value: &str) -> (r: Result<String, RuarangoErr>)
    ensures
        valid_header_value(value@) ==> (r matches Ok(v) && v@ == value@),
        !valid_header_value(value@) ==> (r matches Err(RuarangoErr::InvalidHeader { value: v })
            && v@ == value@),
{
    if header_value_from_str(value).is_some() {
        Ok(String::from_str(value))
    } else {
        Err(RuarangoErr::InvalidHeader { value: String::from_str(value) })
    }
}

/// The headers made of one header of kind `kind` holding `value`, when the
/// value can be sent in a header.
pub fn one_header(kind: HeaderKind, value: &str) -> (r: Result<HeaderMap, RuarangoErr>)
    ensures
        valid_header_value(value@) ==> (r matches Ok(m) && header_map_entries(m) == map![
            header_name(kind) => seq![value@],
        ]),
        !valid_header_value(value@) ==> (r matches Err(RuarangoErr::InvalidHeader { value: v })
            && v@ == value@),
{
    match header_value_from_str(value) {
        Some(v) => {
            let mut m = header_map_new();
            proof {
                assert(header_map_entries(m) =~= Map::empty());
            }
            header_map_append(&mut m, kind.name(), v);
            proof {
                assert(header_map_entries(m) =~= map![header_name(kind) => seq![value@]]);
            }
            Ok(m)
        },
        None => Err(RuarangoErr::InvalidHeader { value: String::from_str(value) }),
    }
}

/// The names under which the conditional headers are sent, one name for
/// each kind.
pub proof fn lemma_header_names(a: HeaderKind, b: HeaderKind)
    ensures
        header_name(HeaderKind::IfMatch) == "if-match"@,
        header_name(HeaderKind::IfNoneMatch) == "if-none-match"@,
        header_name(HeaderKind::Rev) == "rev"@,
        a != b ==> header_name(a) != header_name(b),
{
    reveal_strlit("if-match");
    reveal_strlit("if-none-match");
    reveal_strlit("rev");
    let (x, y) = (header_name(a), header_name(b));
    if x =~= y {
        assert(x[0] == y[0] && x[3] == y[3]);
    }
}

} // verus!
