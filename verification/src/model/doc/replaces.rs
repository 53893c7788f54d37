//! Documents replace configuration

use crate::error::BuilderError;
use crate::query::{
    flag_param, lemma_flag_names,
    distinct_flags, flags_params, lemma_flags_params_unfold,
    add_flag, add_mode, lemma_query_empty, lemma_query_push, opt_mode, opt_qp, opt_view, push_qp,
    query_string, slash_join, QpFlag, QueryParam,
};
use vstd::prelude::*;
use vstd::string::*;

verus! {

/// Documents replace configuration
#[derive(Clone, Debug)]
pub struct ReplacesConfig<T> {
    /// The collection to replace the documents in
    pub collection: String,
    /// The new documents
    pub documents: Vec<T>,
    /// Wait until the operation has been synced to disk.
    pub wait_for_sync: Option<bool>,
    /// When false, the `_rev` of each given document is a precondition.
    pub ignore_revs: Option<bool>,
    /// Additionally return the complete new documents under `new`.
    pub return_new: Option<bool>,
    /// Additionally return the complete old documents under `old`.
    pub return_old: Option<bool>,
}

impl<T> ReplacesConfig<T> {
    /// The flags of the request, in the order in which they are sent.
    pub open spec fn flag_slots(self) -> Seq<(QpFlag, Option<bool>)> {
        seq![(QpFlag::WaitForSync, self.wait_for_sync), (QpFlag::ReturnNew, self.return_new), (QpFlag::ReturnOld, self.return_old), (QpFlag::IgnoreRevs, self.ignore_revs)]
    }

    /// The query parameters of the request: `waitForSync`, `returnNew`, `returnOld` and `ignoreRevs`, each when set, in that order.
    pub open spec fn params(self) -> Seq<Seq<char>> {
        opt_qp(self.wait_for_sync, QpFlag::WaitForSync) + opt_qp(self.return_new, QpFlag::ReturnNew) + opt_qp(self.return_old, QpFlag::ReturnOld) + opt_qp(self.ignore_revs, QpFlag::IgnoreRevs)
    }

    /// `base/collection` and the query string.
    pub open spec fn suffix_spec(self, base: Seq<char>) -> Seq<char> {
        base + "/"@ + self.collection@ + query_string(self.params())
    }

    /// The url suffix of the request.
    pub fn build_suffix(&self, base: &str) -> (r: String)
        ensures
            r@ == self.suffix_spec(base@),
    {
        let mut url = slash_join(base, self.collection.as_str());
        let ghost prefix = url@;
        let mut has_qp = false;
        proof {
            lemma_query_empty(prefix);
        }
        let ghost ps = Seq::<Seq<char>>::empty();
        add_flag(self.wait_for_sync, &mut url, &mut has_qp, QpFlag::WaitForSync, Ghost(prefix), Ghost(ps));
        let ghost ps = ps + opt_qp(self.wait_for_sync, QpFlag::WaitForSync);
        add_flag(self.return_new, &mut url, &mut has_qp, QpFlag::ReturnNew, Ghost(prefix), Ghost(ps));
        let ghost ps = ps + opt_qp(self.return_new, QpFlag::ReturnNew);
        add_flag(self.return_old, &mut url, &mut has_qp, QpFlag::ReturnOld, Ghost(prefix), Ghost(ps));
        let ghost ps = ps + opt_qp(self.return_old, QpFlag::ReturnOld);
        add_flag(self.ignore_revs, &mut url, &mut has_qp, QpFlag::IgnoreRevs, Ghost(prefix), Ghost(ps));
        let ghost ps = ps + opt_qp(self.ignore_revs, QpFlag::IgnoreRevs);
        proof {
            assert(ps =~= self.params());
        }
        url
    }
}

/// Builds a [`ReplacesConfig`]; `collection` and `documents` must be set.
#[derive(Clone, Debug)]
pub struct ReplacesConfigBuilder<T> {
    pub collection: Option<String>,
    pub documents: Option<Vec<T>>,
    pub wait_for_sync: Option<bool>,
    pub ignore_revs: Option<bool>,
    pub return_new: Option<bool>,
    pub return_old: Option<bool>,
}

impl<T> ReplacesConfigBuilder<T> {
    /// A builder with nothing set.
    pub fn default() -> (r: Self)
        ensures
            r == (Self { collection: None, documents: None, wait_for_sync: None, ignore_revs: None, return_new: None, return_old: None }),
    {
        ReplacesConfigBuilder { collection: None, documents: None, wait_for_sync: None, ignore_revs: None, return_new: None, return_old: None }
    }

    /// The collection to replace the documents in
    pub fn collection(self, v: &str) -> (r: Self)
        ensures
            r == (Self { collection: r.collection, ..self }),
            r.collection matches Some(s) && s@ == v@,
    {
        Self { collection: Some(String::from_str(v)), ..self }
    }

    /// The new documents
    pub fn documents(self, v: Vec<T>) -> (r: Self)
        ensures
            r == (Self { documents: Some(v), ..self }),
    {
        Self { documents: Some(v), ..self }
    }

    /// Wait until the operation has been synced to disk.
    pub fn wait_for_sync(self, v: bool) -> (r: Self)
        ensures
            r == (Self { wait_for_sync: Some(v), ..self }),
    {
        Self { wait_for_sync: Some(v), ..self }
    }

    /// When false, the `_rev` of each given document is a precondition.
    pub fn ignore_revs(self, v: bool) -> (r: Self)
        ensures
            r == (Self { ignore_revs: Some(v), ..self }),
    {
        Self { ignore_revs: Some(v), ..self }
    }

    /// Additionally return the complete new documents under `new`.
    pub fn return_new(self, v: bool) -> (r: Self)
        ensures
            r == (Self { return_new: Some(v), ..self }),
    {
        Self { return_new: Some(v), ..self }
    }

    /// Additionally return the complete old documents under `old`.
    pub fn return_old(self, v: bool) -> (r: Self)
        ensures
            r == (Self { return_old: Some(v), ..self }),
    {
        Self { return_old: Some(v), ..self }
    }

    /// The configuration, when every required field is set.
    pub fn build(self) -> (r: Result<ReplacesConfig<T>, BuilderError>)
        ensures
            self.collection is None ==> (r matches Err(BuilderError::UninitializedField(f)) && f@ == "collection"@),
            self.collection is Some && self.documents is None ==> (r matches Err(BuilderError::UninitializedField(f)) && f@ == "documents"@),
            self.collection is Some && self.documents is Some ==> (r matches Ok(c) && c == (ReplacesConfig { collection: self.collection->0, documents: self.documents->0, wait_for_sync: self.wait_for_sync, ignore_revs: self.ignore_revs, return_new: self.return_new, return_old: self.return_old })),
    {
        let collection = match self.collection {
            Some(v) => v,
            None => return Err(BuilderError::UninitializedField("collection")),
        };
        let documents = match self.documents {
            Some(v) => v,
            None => return Err(BuilderError::UninitializedField("documents")),
        };
        Ok(ReplacesConfig { collection, documents, wait_for_sync: self.wait_for_sync, ignore_revs: self.ignore_revs, return_new: self.return_new, return_old: self.return_old })
    }
}

/// Each flag of a replaces request is sent at most once, in a fixed order:
/// the parameters are the texts of a list of distinct flags, and the query
/// string puts a single `?` in front of them (see `lemma_query_string_marks`).
pub proof fn lemma_replaces_flags_once<T>(c: ReplacesConfig<T>)
    ensures
        distinct_flags(c.flag_slots()),
        c.params() == flags_params(c.flag_slots()),
{
    lemma_flags_params_unfold(c.flag_slots());
}

/// The url of a replaces request (`r`, what `build_suffix` gives): the
/// collection under `base`, then `waitForSync`, `returnNew`, `returnOld` and
/// `ignoreRevs`, each sent with the value it was set to, in that order.
pub proof fn lemma_replaces_url<T>(c: ReplacesConfig<T>, base: Seq<char>, r: Seq<char>)
    requires
        r == c.suffix_spec(base),
    ensures
        r == base + "/"@ + c.collection@ + query_string(
            flag_param("waitForSync"@, c.wait_for_sync) + flag_param("returnNew"@, c.return_new)
                + flag_param("returnOld"@, c.return_old) + flag_param("ignoreRevs"@, c.ignore_revs),
        ),
{
    lemma_flag_names(QpFlag::WaitForSync, c.wait_for_sync);
    lemma_flag_names(QpFlag::ReturnNew, c.return_new);
    lemma_flag_names(QpFlag::ReturnOld, c.return_old);
    lemma_flag_names(QpFlag::IgnoreRevs, c.ignore_revs);
}

} // verus!
