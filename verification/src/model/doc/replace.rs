//! Document replace configuration.

use crate::error::{BuilderError, RuarangoErr};
use crate::header::HeaderKind;
use reqwest::header::HeaderMap;
use crate::model::doc::read::{first_header, headers_outcome, opt_text, sends_header, single_header};
use crate::query::{
    flag_param, lemma_flag_names,
    distinct_flags, flags_params, lemma_flags_params_unfold,
    add_flag, is_true, keep_true, lemma_query_empty, only_true, opt_qp, push_segment,
    query_string, slash_join, QpFlag,
};
use vstd::prelude::*;
use vstd::string::*;

verus! {

/// Document replace configuration
#[derive(Clone, Debug, Default)]
pub struct ReplaceConfig<T> {
    /// The collection to replace the document in
    pub collection: String,
    /// The `_key` of the document to replace
    pub key: String,
    /// The new document
    pub document: T,
    /// Wait until the operation has been synced to disk.
    pub wait_for_sync: Option<bool>,
    /// When false, the `_rev` attribute of the given document is a
    /// precondition.
    pub ignore_revs: Option<bool>,
    /// Additionally return the complete new document under `new`.
    pub return_new: Option<bool>,
    /// Additionally return the complete old document under `old`.
    pub return_old: Option<bool>,
    /// Return an empty object: no metadata and no documents.
    pub silent: Option<bool>,
    /// Replace only if the document has this revision.
    pub if_match: Option<String>,
}

impl<T> ReplaceConfig<T> {
    /// The flags of the request, in the order in which they are sent.
    pub open spec fn flag_slots(self) -> Seq<(QpFlag, Option<bool>)> {
        if self.silent == Some(true) {
            seq![(QpFlag::WaitForSync, self.wait_for_sync), (QpFlag::Silent, self.silent), (QpFlag::IgnoreRevs, self.ignore_revs)]
        } else {
            seq![(QpFlag::WaitForSync, self.wait_for_sync), (QpFlag::ReturnNew, only_true(self.return_new)), (QpFlag::ReturnOld, only_true(self.return_old)), (QpFlag::IgnoreRevs, self.ignore_revs)]
        }
    }

    /// The query parameters of the request, in order: `waitForSync` when
    /// set; then `silent=true` when silent, else `returnNew=true` and
    /// `returnOld=true` for those set to true; then `ignoreRevs` when set.
    pub open spec fn params(self) -> Seq<Seq<char>> {
        opt_qp(self.wait_for_sync, QpFlag::WaitForSync) + (if self.silent == Some(true) {
            opt_qp(self.silent, QpFlag::Silent)
        } else {
            opt_qp(only_true(self.return_new), QpFlag::ReturnNew) + opt_qp(
                only_true(self.return_old),
                QpFlag::ReturnOld,
            )
        }) + opt_qp(self.ignore_revs, QpFlag::IgnoreRevs)
    }

    /// `base/collection/key` and the query string.
    pub open spec fn suffix_spec(self, base: Seq<char>) -> Seq<char> {
        base + "/"@ + self.collection@ + "/"@ + self.key@ + query_string(self.params())
    }

    /// The candidates for the conditional header, by precedence.
    pub open spec fn header_candidates(self) -> Seq<(HeaderKind, Option<Seq<char>>)> {
        seq![(HeaderKind::IfMatch, opt_text(self.if_match))]
    }

    /// The url suffix of the replace request.
    pub fn build_suffix(&self, base: &str) -> (r: String)
        ensures
            r@ == self.suffix_spec(base@),
    {
        let mut url = slash_join(base, self.collection.as_str());
        push_segment(&mut url, self.key.as_str());
        let ghost prefix = url@;
        let mut has_qp = false;
        proof {
            lemma_query_empty(prefix);
        }
        let ghost ps0 = Seq::<Seq<char>>::empty();
        add_flag(
            self.wait_for_sync,
            &mut url,
            &mut has_qp,
            QpFlag::WaitForSync,
            Ghost(prefix),
            Ghost(ps0),
        );
        let ghost ps1 = ps0 + opt_qp(self.wait_for_sync, QpFlag::WaitForSync);
        let ghost mut ps2 = ps1;
        if is_true(self.silent) {
            add_flag(self.silent, &mut url, &mut has_qp, QpFlag::Silent, Ghost(prefix), Ghost(ps1));
            proof {
                ps2 = ps1 + opt_qp(self.silent, QpFlag::Silent);
            }
        } else {
            add_flag(
                keep_true(self.return_new),
                &mut url,
                &mut has_qp,
                QpFlag::ReturnNew,
                Ghost(prefix),
                Ghost(ps1),
            );
            let ghost psn = ps1 + opt_qp(only_true(self.return_new), QpFlag::ReturnNew);
            add_flag(
                keep_true(self.return_old),
                &mut url,
                &mut has_qp,
                QpFlag::ReturnOld,
                Ghost(prefix),
                Ghost(psn),
            );
            proof {
                ps2 = psn + opt_qp(only_true(self.return_old), QpFlag::ReturnOld);
            }
        }
        add_flag(
            self.ignore_revs,
            &mut url,
            &mut has_qp,
            QpFlag::IgnoreRevs,
            Ghost(prefix),
            Ghost(ps2),
        );
        proof {
            assert(ps2 + opt_qp(self.ignore_revs, QpFlag::IgnoreRevs) =~= self.params());
        }
        url
    }

    /// Does the request carry a conditional header?
    pub fn has_header(&self) -> (r: bool)
        ensures
            r == (first_header(self.header_candidates()) is Some),
    {
        proof {
            reveal_with_fuel(first_header, 2);
        }
        self.if_match.is_some()
    }

    /// The `if-match` header, when `if_match` is set.
    pub fn add_headers(&self) -> (r: Result<Option<HeaderMap>, RuarangoErr>)
        ensures
            headers_outcome(first_header(self.header_candidates()), r),
    {
        proof {
            reveal_with_fuel(first_header, 2);
        }
        let mut headers = None;
        if self.has_header() {
            if let Some(rev) = &self.if_match {
                headers = single_header(HeaderKind::IfMatch, rev.as_str())?;
            } else {
                return Err(
                    RuarangoErr::Unreachable {
                        msg: String::from_str("'if_match' should be true!"),
                    },
                );
            }
        }
        Ok(headers)
    }
}

/// A silent replace asks for no documents back: with `silent` set to true,
/// the url is the same whatever `return_new` and `return_old` say.
pub proof fn lemma_silent_replace_returns_nothing<T>(
    c: ReplaceConfig<T>,
    return_new: Option<bool>,
    return_old: Option<bool>,
    base: Seq<char>,
)
    requires
        c.silent == Some(true),
    ensures
        c.suffix_spec(base) == (ReplaceConfig { return_new, return_old, ..c }).suffix_spec(base),
{
}

/// `returnNew` and `returnOld` are sent only as `true`: setting one of them
/// to false gives the url of leaving it unset.
pub proof fn lemma_replace_false_return_is_unset<T>(c: ReplaceConfig<T>, base: Seq<char>)
    ensures
        (ReplaceConfig { return_new: Some(false), ..c }).suffix_spec(base) == (ReplaceConfig {
            return_new: None,
            ..c
        }).suffix_spec(base),
        (ReplaceConfig { return_old: Some(false), ..c }).suffix_spec(base) == (ReplaceConfig {
            return_old: None,
            ..c
        }).suffix_spec(base),
{
}

/// Builds a [`ReplaceConfig`]; `collection`, `key` and `document` must be
/// set.
#[derive(Clone, Debug)]
pub struct ReplaceConfigBuilder<T> {
    pub collection: Option<String>,
    pub key: Option<String>,
    pub document: Option<T>,
    pub wait_for_sync: Option<bool>,
    pub ignore_revs: Option<bool>,
    pub return_new: Option<bool>,
    pub return_old: Option<bool>,
    pub silent: Option<bool>,
    pub if_match: Option<String>,
}

impl<T> ReplaceConfigBuilder<T> {
    /// A builder with nothing set.
    pub fn default() -> (r: Self)
        ensures
            r == (Self {
                collection: None,
                key: None,
                document: None,
                wait_for_sync: None,
                ignore_revs: None,
                return_new: None,
                return_old: None,
                silent: None,
                if_match: None,
            }),
    {
        ReplaceConfigBuilder {
            collection: None,
            key: None,
            document: None,
            wait_for_sync: None,
            ignore_revs: None,
            return_new: None,
            return_old: None,
            silent: None,
            if_match: None,
        }
    }

    /// The collection to replace the document in
    pub fn collection(self, v: &str) -> (r: Self)
        ensures
            r == (Self { collection: r.collection, ..self }),
            r.collection matches Some(s) && s@ == v@,
    {
        Self { collection: Some(String::from_str(v)), ..self }
    }

    /// The `_key` of the document to replace
    pub fn key(self, v: &str) -> (r: Self)
        ensures
            r == (Self { key: r.key, ..self }),
            r.key matches Some(s) && s@ == v@,
    {
        Self { key: Some(String::from_str(v)), ..self }
    }

    /// The new document
    pub fn document(self, v: T) -> (r: Self)
        ensures
            r == (Self { document: Some(v), ..self }),
    {
        Self { document: Some(v), ..self }
    }

    /// Wait until the operation has been synced to disk.
    pub fn wait_for_sync(self, v: bool) -> (r: Self)
        ensures
            r == (Self { wait_for_sync: Some(v), ..self }),
    {
        Self { wait_for_sync: Some(v), ..self }
    }

    /// When false, the `_rev` of the given document is a precondition.
    pub fn ignore_revs(self, v: bool) -> (r: Self)
        ensures
            r == (Self { ignore_revs: Some(v), ..self }),
    {
        Self { ignore_revs: Some(v), ..self }
    }

    /// Additionally return the complete new document.
    pub fn return_new(self, v: bool) -> (r: Self)
        ensures
            r == (Self { return_new: Some(v), ..self }),
    {
        Self { return_new: Some(v), ..self }
    }

    /// Additionally return the complete old document.
    pub fn return_old(self, v: bool) -> (r: Self)
        ensures
            r == (Self { return_old: Some(v), ..self }),
    {
        Self { return_old: Some(v), ..self }
    }

    /// Return an empty object.
    pub fn silent(self, v: bool) -> (r: Self)
        ensures
            r == (Self { silent: Some(v), ..self }),
    {
        Self { silent: Some(v), ..self }
    }

    /// Replace only if the document has this revision.
    pub fn if_match(self, v: &str) -> (r: Self)
        ensures
            r == (Self { if_match: r.if_match, ..self }),
            r.if_match matches Some(s) && s@ == v@,
    {
        Self { if_match: Some(String::from_str(v)), ..self }
    }

    /// The configuration, when `collection`, `key` and `document` are set.
    pub fn build(self) -> (r: Result<ReplaceConfig<T>, BuilderError>)
        ensures
            self.collection is None ==> (r matches Err(BuilderError::UninitializedField(f))
                && f@ == "collection"@),
            self.collection is Some && self.key is None ==> (r matches Err(
                BuilderError::UninitializedField(f),
            ) && f@ == "key"@),
            self.collection is Some && self.key is Some && self.document is None ==> (r matches Err(
                BuilderError::UninitializedField(f),
            ) && f@ == "document"@),
            self.collection is Some && self.key is Some && self.document is Some ==> (r matches Ok(
                c,
            ) && c == (ReplaceConfig {
                collection: self.collection->0,
                key: self.key->0,
                document: self.document->0,
                wait_for_sync: self.wait_for_sync,
                ignore_revs: self.ignore_revs,
                return_new: self.return_new,
                return_old: self.return_old,
                silent: self.silent,
                if_match: self.if_match,
            })),
    {
        match (self.collection, self.key, self.document) {
            (Some(collection), Some(key), Some(document)) => Ok(
                ReplaceConfig {
                    collection,
                    key,
                    document,
                    wait_for_sync: self.wait_for_sync,
                    ignore_revs: self.ignore_revs,
                    return_new: self.return_new,
                    return_old: self.return_old,
                    silent: self.silent,
                    if_match: self.if_match,
                },
            ),
            (None, _, _) => Err(BuilderError::UninitializedField("collection")),
            (Some(_), None, _) => Err(BuilderError::UninitializedField("key")),
            (Some(_), Some(_), None) => Err(BuilderError::UninitializedField("document")),
        }
    }
}

/// Each flag of a replace request is sent at most once, in a fixed order:
/// the parameters are the texts of a list of distinct flags, and the query
/// string puts a single `?` in front of them (see `lemma_query_string_marks`).
pub proof fn lemma_replace_flags_once<T>(c: ReplaceConfig<T>)
    ensures
        distinct_flags(c.flag_slots()),
        c.params() == flags_params(c.flag_slots()),
{
    lemma_flags_params_unfold(c.flag_slots());
}

/// The url of a replace request (`r`, what `build_suffix` gives): the key
/// under the collection under `base`, then `waitForSync` with its value;
/// then `silent=true` when silent is true, else `returnNew=true` and
/// `returnOld=true` for those set to true; then `ignoreRevs` with its value.
pub proof fn lemma_replace_url<T>(c: ReplaceConfig<T>, base: Seq<char>, r: Seq<char>)
    requires
        r == c.suffix_spec(base),
    ensures
        r == base + "/"@ + c.collection@ + "/"@ + c.key@ + query_string(
            flag_param("waitForSync"@, c.wait_for_sync) + (if c.silent == Some(true) {
                flag_param("silent"@, Some(true))
            } else {
                flag_param(
                    "returnNew"@,
                    if c.return_new == Some(true) {
                        Some(true)
                    } else {
                        None
                    },
                ) + flag_param(
                    "returnOld"@,
                    if c.return_old == Some(true) {
                        Some(true)
                    } else {
                        None
                    },
                )
            }) + flag_param("ignoreRevs"@, c.ignore_revs),
        ),
{
    lemma_flag_names(QpFlag::WaitForSync, c.wait_for_sync);
    lemma_flag_names(QpFlag::Silent, c.silent);
    lemma_flag_names(QpFlag::ReturnNew, only_true(c.return_new));
    lemma_flag_names(QpFlag::ReturnOld, only_true(c.return_old));
    lemma_flag_names(QpFlag::IgnoreRevs, c.ignore_revs);
}

/// The header of a replace (`r`, what `add_headers` gives): the `if-match`
/// revision when one is set, else no header.
pub proof fn lemma_replace_headers<T>(c: ReplaceConfig<T>, r: Result<Option<HeaderMap>, RuarangoErr>)
    requires
        headers_outcome(first_header(c.header_candidates()), r),
    ensures
        c.if_match matches Some(v) ==> sends_header(r, "if-match"@, v@),
        c.if_match is None ==> r matches Ok(None),
{
    reveal_with_fuel(first_header, 2);
}

} // verus!
