//! Documents read configuration

use crate::error::BuilderError;
use crate::query::{
    flag_param, lemma_flag_names,
    flags_params, lemma_flags_params_unfold,
    add_flag, add_mode, lemma_query_empty, lemma_query_push, opt_mode, opt_qp, opt_view, push_qp,
    query_string, slash_join, QpFlag, QueryParam,
};
use vstd::prelude::*;
use vstd::string::*;

verus! {

/// Documents read configuration
#[derive(Clone, Debug)]
pub struct ReadsConfig<T> {
    /// The collection to read the documents from
    pub collection: String,
    /// When false, a `_rev` in a search document must match.
    pub ignore_revs: Option<bool>,
    /// The search documents to read
    pub documents: Vec<T>,
}

impl<T> ReadsConfig<T> {
    /// The query parameters of the request: `onlyget=true`, then
    /// `ignoreRevs` when set.
    pub open spec fn params(self) -> Seq<Seq<char>> {
        seq!["onlyget=true"@] + opt_qp(self.ignore_revs, QpFlag::IgnoreRevs)
    }

    /// `base/collection` and the query string.
    pub open spec fn suffix_spec(self, base: Seq<char>) -> Seq<char> {
        base + "/"@ + self.collection@ + query_string(self.params())
    }

    /// The url suffix of the request.
    pub fn build_suffix(&self, base: &str) -> (r: String)
        ensures
            r@ == self.suffix_spec(base@),
    {
        let mut url = slash_join(base, self.collection.as_str());
        let ghost prefix = url@;
        let mut has_qp = false;
        push_qp(&mut url, &mut has_qp, &QueryParam::OnlyGet);
        let ghost ps = seq!["onlyget=true"@];
        proof {
            lemma_query_push(Seq::empty(), "onlyget=true"@);
            assert(Seq::<Seq<char>>::empty().push("onlyget=true"@) =~= ps);
            assert(url@ == prefix + query_string(ps));
        }
        add_flag(self.ignore_revs, &mut url, &mut has_qp, QpFlag::IgnoreRevs, Ghost(prefix), Ghost(ps));
        url
    }
}

/// Builds a [`ReadsConfig`]; `collection` and `documents` must be set.
#[derive(Clone, Debug)]
pub struct ReadsConfigBuilder<T> {
    pub collection: Option<String>,
    pub ignore_revs: Option<bool>,
    pub documents: Option<Vec<T>>,
}

impl<T> ReadsConfigBuilder<T> {
    /// A builder with nothing set.
    pub fn default() -> (r: Self)
        ensures
            r == (Self { collection: None, ignore_revs: None, documents: None }),
    {
        ReadsConfigBuilder { collection: None, ignore_revs: None, documents: None }
    }

    /// The collection to read the documents from
    pub fn collection(self, v: &str) -> (r: Self)
        ensures
            r == (Self { collection: r.collection, ..self }),
            r.collection matches Some(s) && s@ == v@,
    {
        Self { collection: Some(String::from_str(v)), ..self }
    }

    /// When false, a `_rev` in a search document must match.
    pub fn ignore_revs(self, v: bool) -> (r: Self)
        ensures
            r == (Self { ignore_revs: Some(v), ..self }),
    {
        Self { ignore_revs: Some(v), ..self }
    }

    /// The search documents to read
    pub fn documents(self, v: Vec<T>) -> (r: Self)
        ensures
            r == (Self { documents: Some(v), ..self }),
    {
        Self { documents: Some(v), ..self }
    }

    /// The configuration, when every required field is set.
    pub fn build(self) -> (r: Result<ReadsConfig<T>, BuilderError>)
        ensures
            self.collection is None ==> (r matches Err(BuilderError::UninitializedField(f)) && f@ == "collection"@),
            self.collection is Some && self.documents is None ==> (r matches Err(BuilderError::UninitializedField(f)) && f@ == "documents"@),
            self.collection is Some && self.documents is Some ==> (r matches Ok(c) && c == (ReadsConfig { collection: self.collection->0, ignore_revs: self.ignore_revs, documents: self.documents->0 })),
    {
        let collection = match self.collection {
            Some(v) => v,
            None => return Err(BuilderError::UninitializedField("collection")),
        };
        let documents = match self.documents {
            Some(v) => v,
            None => return Err(BuilderError::UninitializedField("documents")),
        };
        Ok(ReadsConfig { collection, ignore_revs: self.ignore_revs, documents })
    }
}

/// A reads request sends `onlyget=true` once, then `ignoreRevs` at most
/// once; the query string puts a single `?` in front of them (see
/// `lemma_query_string_marks`).
pub proof fn lemma_reads_flags_once<T>(c: ReadsConfig<T>)
    ensures
        c.params() == seq!["onlyget=true"@] + flags_params(seq![(QpFlag::IgnoreRevs, c.ignore_revs)]),
{
    lemma_flags_params_unfold(seq![(QpFlag::IgnoreRevs, c.ignore_revs)]);
}

/// The url of a reads request (`r`, what `build_suffix` gives): the
/// collection under `base`, then `onlyget=true`, then `ignoreRevs` with the
/// value it was set to.
pub proof fn lemma_reads_url<T>(c: ReadsConfig<T>, base: Seq<char>, r: Seq<char>)
    requires
        r == c.suffix_spec(base),
    ensures
        r == base + "/"@ + c.collection@ + query_string(
            seq!["onlyget=true"@] + flag_param("ignoreRevs"@, c.ignore_revs),
        ),
{
    lemma_flag_names(QpFlag::IgnoreRevs, c.ignore_revs);
}

} // verus!
