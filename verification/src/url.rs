//! Url parsing and joining, done by the `url` crate through `reqwest`.

use crate::error::RuarangoErr;
use vstd::prelude::*;
use vstd::string::*;

verus! {

/// The text held in an optional owned text.
pub open spec fn opt_string_view(o: Option<String>) -> Option<Seq<char>> {
    match o {
        Some(s) => Some(s@),
        None => None,
    }
}

/// The serialization of the url that `reqwest::Url::parse` makes of `input`,
/// or `None` when it refuses `input`.
pub uninterp spec fn parsed_url(input: Seq<char>) -> Option<Seq<char>>;

/// The serialization of the url that `reqwest::Url::join` makes of `input`
/// relative to the url whose serialization is `base`; or, when `base` or the
/// join is refused, the message of the `url` crate's error.
pub uninterp spec fn joined_url(base: Seq<char>, input: Seq<char>) -> Result<Seq<char>, Seq<char>>;

/// The texts held in a result of owned texts.
pub open spec fn result_string_view(r: Result<String, String>) -> Result<Seq<char>, Seq<char>> {
    match r {
        Ok(s) => Ok(s@),
        Err(e) => Err(e@),
    }
}

/// Trusted: calls `reqwest::Url::parse` (the `url` crate's `Url::parse`) and
/// hands back the serialization of the parsed url. The contract only names
/// the outcome: it is a function of `input` alone.
#[verifier::external_body]
pub(crate) fn url_parse(input: &str) -> (r: Option<String>)
    ensures
        opt_string_view(r) == parsed_url(input@),
{
    match reqwest::Url::parse(input) {
        Ok(u) => Some(String::from(u.as_str())),
        Err(_) => None,
    }
}

/// Trusted: calls `reqwest::Url::join` on the url that `base` serializes
/// and hands back the serialization of the result, or the message of the
/// `url` crate's error. `base` is read back with `Url::parse`, which gives
/// the same url again for a serialization that the `url` crate produced.
/// The contract only names the outcome: it is a function of `base` and
/// `input` alone.
#[verifier::external_body]
pub(crate) fn url_join(base: &str, input: &str) -> (r: Result<String, String>)
    ensures
        result_string_view(r) == joined_url(base@, input@),
{
    match reqwest::Url::parse(base) {
        Ok(b) => match b.join(input) {
            Ok(u) => Ok(String::from(u.as_str())),
            Err(e) => Err(e.to_string()),
        },
        Err(e) => Err(e.to_string()),
    }
}

/// The url of a request: `suffix` joined to the connection's url `base`.
/// Fails with `InvalidUrl` when the url crate refuses the join.
pub fn request_url(base: &str, suffix: &str) -> (r: Result<String, RuarangoErr>)
    ensures
        joined_url(base@, suffix@) matches Ok(u) ==> (r matches Ok(s) && s@ == u),
        joined_url(base@, suffix@) is Err ==> (r matches Err(RuarangoErr::InvalidUrl { suffix: s })
            && s@ == suffix@),
{
    match url_join(base, suffix) {
        Ok(u) => Ok(u),
        Err(_) => Err(RuarangoErr::InvalidUrl { suffix: String::from_str(suffix) }),
    }
}

} // verus!
