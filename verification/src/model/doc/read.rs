//! Document read configuration.

use crate::error::{BuilderError, RuarangoErr};
use crate::header::{header_map_entries, header_name, one_header, valid_header_value, HeaderKind};
use reqwest::header::HeaderMap;
use crate::query::{push_segment, slash_join};
use vstd::prelude::*;
use vstd::string::*;

verus! {

/// Read document configuration
#[derive(Clone, Debug, Default)]
pub struct ReadConfig {
    /// The collection to read the document from
    pub collection: String,
    /// The document `_key`
    pub key: String,
    /// The document is returned only if its revision differs from this one;
    /// otherwise the server answers 304.
    pub if_none_match: Option<String>,
    /// The document is returned only if its revision is this one; otherwise
    /// the server answers 412.
    pub if_match: Option<String>,
}

/// The text held in an optional owned text.
pub open spec fn opt_text(o: Option<String>) -> Option<Seq<char>> {
    match o {
        Some(s) => Some(s@),
        None => None,
    }
}

/// The conditional header that a request carries, by precedence among the
/// candidates: the first one that is set, or none.
pub open spec fn first_header(cands: Seq<(HeaderKind, Option<Seq<char>>)>) -> Option<
    (HeaderKind, Seq<char>),
>
    decreases cands.len(),
{
    if cands.len() == 0 {
        None
    } else {
        match cands[0].1 {
            Some(v) => Some((cands[0].0, v)),
            None => first_header(cands.drop_first()),
        }
    }
}

/// What `add_headers` returns for the chosen conditional header: no headers
/// when there is none; that one header when its value can be sent; the
/// rejected value otherwise.
pub open spec fn headers_outcome(
    chosen: Option<(HeaderKind, Seq<char>)>,
    r: Result<Option<HeaderMap>, RuarangoErr>,
) -> bool {
    match chosen {
        None => r matches Ok(None),
        Some((k, v)) => if valid_header_value(v) {
            r matches Ok(Some(h)) && header_map_entries(h) == map![header_name(k) => seq![v]]
        } else {
            r matches Err(RuarangoErr::InvalidHeader { value }) && value@ == v
        },
    }
}

/// The conditional header goes by precedence: when the candidate at `i` is
/// the first one that is set, it is the one sent.
pub proof fn lemma_first_header_precedence(cands: Seq<(HeaderKind, Option<Seq<char>>)>, i: int)
    requires
        0 <= i < cands.len(),
        cands[i].1 is Some,
        forall|j: int| 0 <= j < i ==> (#[trigger] cands[j]).1 is None,
    ensures
        first_header(cands) == Some((cands[i].0, cands[i].1->0)),
    decreases i,
{
    if i > 0 {
        let rest = cands.drop_first();
        assert forall|j: int| 0 <= j < i - 1 implies (#[trigger] rest[j]).1 is None by {
            assert(rest[j] == cands[j + 1]);
        }
        assert(cands[0].1 is None);
        lemma_first_header_precedence(rest, i - 1);
    }
}

/// A request carries headers exactly when one of its candidates is set, and
/// `add_headers` never fails for want of one: its only error is a value that
/// cannot be sent.
pub proof fn lemma_headers_iff_candidate(
    cands: Seq<(HeaderKind, Option<Seq<char>>)>,
    r: Result<Option<HeaderMap>, RuarangoErr>,
)
    requires
        headers_outcome(first_header(cands), r),
    ensures
        (r matches Ok(None)) <==> first_header(cands) is None,
        r is Err ==> r matches Err(RuarangoErr::InvalidHeader { .. }),
{
}

/// The headers made of one header of kind `kind` holding `value`.
pub fn single_header(kind: HeaderKind, value: &str) -> (r: Result<Option<HeaderMap>, RuarangoErr>)
    ensures
        headers_outcome(Some((kind, value@)), r),
{
    match one_header(kind, value) {
        Ok(h) => Ok(Some(h)),
        Err(e) => Err(e),
    }
}

impl ReadConfig {
    /// The candidates for the conditional header, by precedence.
    pub open spec fn header_candidates(self) -> Seq<(HeaderKind, Option<Seq<char>>)> {
        seq![
            (HeaderKind::IfMatch, opt_text(self.if_match)),
            (HeaderKind::IfNoneMatch, opt_text(self.if_none_match)),
        ]
    }

    /// `base/collection/key`
    pub open spec fn suffix_spec(self, base: Seq<char>) -> Seq<char> {
        base + "/"@ + self.collection@ + "/"@ + self.key@
    }

    /// The url suffix of the read request.
    pub fn build_suffix(&self, base: &str) -> (r: String)
        ensures
            r@ == self.suffix_spec(base@),
    {
        let mut url = slash_join(base, self.collection.as_str());
        push_segment(&mut url, self.key.as_str());
        url
    }

    /// Does the request carry a conditional header?
    pub fn has_header(&self) -> (r: bool)
        ensures
            r == (first_header(self.header_candidates()) is Some),
    {
        proof {
            reveal_with_fuel(first_header, 3);
        }
        self.if_match.is_some() || self.if_none_match.is_some()
    }

    /// The conditional header of the request: `if-match` when it is set,
    /// else `if-none-match` when that is set, else none.
    pub fn add_headers(&self) -> (r: Result<Option<HeaderMap>, RuarangoErr>)
        ensures
            headers_outcome(first_header(self.header_candidates()), r),
    {
        proof {
            reveal_with_fuel(first_header, 3);
        }
        let mut headers = None;
        if self.has_header() {
            if let Some(rev) = &self.if_match {
                headers = single_header(HeaderKind::IfMatch, rev.as_str())?;
            } else if let Some(rev) = &self.if_none_match {
                headers = single_header(HeaderKind::IfNoneMatch, rev.as_str())?;
            } else {
                return Err(
                    RuarangoErr::Unreachable {
                        msg: String::from_str(
                            "One of 'if_match' or 'if_none_match' should be true!",
                        ),
                    },
                );
            }
        }
        Ok(headers)
    }
}

/// Builds a [`ReadConfig`]; `collection` and `key` must be set.
#[derive(Clone, Debug, Default)]
pub struct ReadConfigBuilder {
    pub collection: Option<String>,
    pub key: Option<String>,
    pub if_none_match: Option<String>,
    pub if_match: Option<String>,
}

impl ReadConfigBuilder {
    /// A builder with nothing set.
    pub fn default() -> (r: Self)
        ensures
            r.collection is None && r.key is None && r.if_none_match is None && r.if_match is None,
    {
        ReadConfigBuilder { collection: None, key: None, if_none_match: None, if_match: None }
    }

    /// The collection to read the document from
    pub fn collection(self, v: &str) -> (r: Self)
        ensures
            r == (Self { collection: r.collection, ..self }),
            r.collection matches Some(s) && s@ == v@,
    {
        Self { collection: Some(String::from_str(v)), ..self }
    }

    /// The document `_key`
    pub fn key(self, v: &str) -> (r: Self)
        ensures
            r == (Self { key: r.key, ..self }),
            r.key matches Some(s) && s@ == v@,
    {
        Self { key: Some(String::from_str(v)), ..self }
    }

    /// Return the document only if its revision differs from this one
    pub fn if_none_match(self, v: &str) -> (r: Self)
        ensures
            r == (Self { if_none_match: r.if_none_match, ..self }),
            r.if_none_match matches Some(s) && s@ == v@,
    {
        Self { if_none_match: Some(String::from_str(v)), ..self }
    }

    /// Return the document only if its revision is this one
    pub fn if_match(self, v: &str) -> (r: Self)
        ensures
            r == (Self { if_match: r.if_match, ..self }),
            r.if_match matches Some(s) && s@ == v@,
    {
        Self { if_match: Some(String::from_str(v)), ..self }
    }

    /// The configuration, when `collection` and `key` are set.
    pub fn build(self) -> (r: Result<ReadConfig, BuilderError>)
        ensures
            self.collection is None ==> (r matches Err(BuilderError::UninitializedField(f))
                && f@ == "collection"@),
            self.collection is Some && self.key is None ==> (r matches Err(
                BuilderError::UninitializedField(f),
            ) && f@ == "key"@),
            self.collection is Some && self.key is Some ==> (r matches Ok(c) && c == (ReadConfig {
                collection: self.collection->0,
                key: self.key->0,
                if_none_match: self.if_none_match,
                if_match: self.if_match,
            })),
    {
        match (self.collection, self.key) {
            (Some(collection), Some(key)) => Ok(
                ReadConfig {
                    collection,
                    key,
                    if_none_match: self.if_none_match,
                    if_match: self.if_match,
                },
            ),
            (None, _) => Err(BuilderError::UninitializedField("collection")),
            (Some(_), None) => Err(BuilderError::UninitializedField("key")),
        }
    }
}

/// What a request whose conditional header is named `name` and holds `v`
/// gets from `add_headers`: exactly that one header when `v` can be sent,
/// else the error that refuses `v`.
pub open spec fn sends_header(
    r: Result<Option<HeaderMap>, RuarangoErr>,
    name: Seq<char>,
    v: Seq<char>,
) -> bool {
    if valid_header_value(v) {
        r matches Ok(Some(h)) && header_map_entries(h) == map![name => seq![v]]
    } else {
        r matches Err(RuarangoErr::InvalidHeader { value }) && value@ == v
    }
}

/// The header of a document read (`r`, what `add_headers` gives): the
/// `if-match` revision when one is set, else the `if-none-match` revision
/// when one is set, else no header.
pub proof fn lemma_read_headers(c: ReadConfig, r: Result<Option<HeaderMap>, RuarangoErr>)
    requires
        headers_outcome(first_header(c.header_candidates()), r),
    ensures
        c.if_match matches Some(v) ==> sends_header(r, "if-match"@, v@),
        c.if_match is None ==> (c.if_none_match matches Some(v) ==> sends_header(
            r,
            "if-none-match"@,
            v@,
        )),
        c.if_match is None && c.if_none_match is None ==> r matches Ok(None),
{
    reveal_with_fuel(first_header, 3);
}

/// The url of a document read (`r`, what `build_suffix` gives): the
/// document's key under its collection under `base`.
pub proof fn lemma_read_url(c: ReadConfig, base: Seq<char>, r: Seq<char>)
    requires
        r == c.suffix_spec(base),
    ensures
        r == base + "/"@ + c.collection@ + "/"@ + c.key@,
{
}

} // verus!
