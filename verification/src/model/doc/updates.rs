//! Documents update configuration

use crate::error::BuilderError;
use crate::query::{
    flag_param, lemma_flag_names,
    distinct_flags, flags_params, lemma_flags_params_unfold,
    add_flag, add_mode, lemma_query_empty, lemma_query_push, opt_mode, opt_qp, opt_view, push_qp,
    query_string, slash_join, QpFlag, QueryParam,
};
use vstd::prelude::*;
use vstd::string::*;

verus! {

/// Documents update configuration
#[derive(Clone, Debug)]
pub struct UpdatesConfig<T> {
    /// The collection to update the documents in
    pub collection: String,
    /// The patch documents
    pub documents: Vec<T>,
    /// Wait until the operation has been synced to disk.
    pub wait_for_sync: Option<bool>,
    /// Additionally return the complete new documents under `new`.
    pub return_new: Option<bool>,
    /// Additionally return the complete old documents under `old`.
    pub return_old: Option<bool>,
    /// When false, attributes set to `null` in the patch are removed.
    pub keep_null: Option<bool>,
    /// Merge objects present in both the existing and the patch document.
    pub merge_objects: Option<bool>,
    /// When false, the `_rev` of each given document is a precondition.
    pub ignore_revs: Option<bool>,
}

impl<T> UpdatesConfig<T> {
    /// The flags of the request, in the order in which they are sent.
    pub open spec fn flag_slots(self) -> Seq<(QpFlag, Option<bool>)> {
        seq![(QpFlag::WaitForSync, self.wait_for_sync), (QpFlag::ReturnNew, self.return_new), (QpFlag::ReturnOld, self.return_old), (QpFlag::KeepNull, self.keep_null), (QpFlag::MergeObjects, self.merge_objects), (QpFlag::IgnoreRevs, self.ignore_revs)]
    }

    /// The query parameters of the request: `waitForSync`, `returnNew`, `returnOld`, `keepNull`, `mergeObjects` and `ignoreRevs`, each when set, in that order.
    pub open spec fn params(self) -> Seq<Seq<char>> {
        opt_qp(self.wait_for_sync, QpFlag::WaitForSync) + opt_qp(self.return_new, QpFlag::ReturnNew) + opt_qp(self.return_old, QpFlag::ReturnOld) + opt_qp(self.keep_null, QpFlag::KeepNull) + opt_qp(self.merge_objects, QpFlag::MergeObjects) + opt_qp(self.ignore_revs, QpFlag::IgnoreRevs)
    }

    /// `base/collection` and the query string.
    pub open spec fn suffix_spec(self, base: Seq<char>) -> Seq<char> {
        base + "/"@ + self.collection@ + query_string(self.params())
    }

    /// The url suffix of the request.
    pub fn build_suffix(&self, base: &str) -> (r: String)
        ensures
            r@ == self.suffix_spec(base@),
    {
        let mut url = slash_join(base, self.collection.as_str());
        let ghost prefix = url@;
        let mut has_qp = false;
        proof {
            lemma_query_empty(prefix);
        }
        let ghost ps = Seq::<Seq<char>>::empty();
        add_flag(self.wait_for_sync, &mut url, &mut has_qp, QpFlag::WaitForSync, Ghost(prefix), Ghost(ps));
        let ghost ps = ps + opt_qp(self.wait_for_sync, QpFlag::WaitForSync);
        add_flag(self.return_new, &mut url, &mut has_qp, QpFlag::ReturnNew, Ghost(prefix), Ghost(ps));
        let ghost ps = ps + opt_qp(self.return_new, QpFlag::ReturnNew);
        add_flag(self.return_old, &mut url, &mut has_qp, QpFlag::ReturnOld, Ghost(prefix), Ghost(ps));
        let ghost ps = ps + opt_qp(self.return_old, QpFlag::ReturnOld);
        add_flag(self.keep_null, &mut url, &mut has_qp, QpFlag::KeepNull, Ghost(prefix), Ghost(ps));
        let ghost ps = ps + opt_qp(self.keep_null, QpFlag::KeepNull);
        add_flag(self.merge_objects, &mut url, &mut has_qp, QpFlag::MergeObjects, Ghost(prefix), Ghost(ps));
        let ghost ps = ps + opt_qp(self.merge_objects, QpFlag::MergeObjects);
        add_flag(self.ignore_revs, &mut url, &mut has_qp, QpFlag::IgnoreRevs, Ghost(prefix), Ghost(ps));
        let ghost ps = ps + opt_qp(self.ignore_revs, QpFlag::IgnoreRevs);
        proof {
            assert(ps =~= self.params());
        }
        url
    }
}

/// Builds a [`UpdatesConfig`]; `collection` and `documents` must be set.
#[derive(Clone, Debug)]
pub struct UpdatesConfigBuilder<T> {
    pub collection: Option<String>,
    pub documents: Option<Vec<T>>,
    pub wait_for_sync: Option<bool>,
    pub return_new: Option<bool>,
    pub return_old: Option<bool>,
    pub keep_null: Option<bool>,
    pub merge_objects: Option<bool>,
    pub ignore_revs: Option<bool>,
}

impl<T> UpdatesConfigBuilder<T> {
    /// A builder with nothing set.
    pub fn default() -> (r: Self)
        ensures
            r == (Self { collection: None, documents: None, wait_for_sync: None, return_new: None, return_old: None, keep_null: None, merge_objects: None, ignore_revs: None }),
    {
        UpdatesConfigBuilder { collection: None, documents: None, wait_for_sync: None, return_new: None, return_old: None, keep_null: None, merge_objects: None, ignore_revs: None }
    }

    /// The collection to update the documents in
    pub fn collection(self, v: &str) -> (r: Self)
        ensures
            r == (Self { collection: r.collection, ..self }),
            r.collection matches Some(s) && s@ == v@,
    {
        Self { collection: Some(String::from_str(v)), ..self }
    }

    /// The patch documents
    pub fn documents(self, v: Vec<T>) -> (r: Self)
        ensures
            r == (Self { documents: Some(v), ..self }),
    {
        Self { documents: Some(v), ..self }
    }

    /// Wait until the operation has been synced to disk.
    pub fn wait_for_sync(self, v: bool) -> (r: Self)
        ensures
            r == (Self { wait_for_sync: Some(v), ..self }),
    {
        Self { wait_for_sync: Some(v), ..self }
    }

    /// Additionally return the complete new documents under `new`.
    pub fn return_new(self, v: bool) -> (r: Self)
        ensures
            r == (Self { return_new: Some(v), ..self }),
    {
        Self { return_new: Some(v), ..self }
    }

    /// Additionally return the complete old documents under `old`.
    pub fn return_old(self, v: bool) -> (r: Self)
        ensures
            r == (Self { return_old: Some(v), ..self }),
    {
        Self { return_old: Some(v), ..self }
    }

    /// When false, attributes set to `null` in the patch are removed.
    pub fn keep_null(self, v: bool) -> (r: Self)
        ensures
            r == (Self { keep_null: Some(v), ..self }),
    {
        Self { keep_null: Some(v), ..self }
    }

    /// Merge objects present in both the existing and the patch document.
    pub fn merge_objects(self, v: bool) -> (r: Self)
        ensures
            r == (Self { merge_objects: Some(v), ..self }),
    {
        Self { merge_objects: Some(v), ..self }
    }

    /// When false, the `_rev` of each given document is a precondition.
    pub fn ignore_revs(self, v: bool) -> (r: Self)
        ensures
            r == (Self { ignore_revs: Some(v), ..self }),
    {
        Self { ignore_revs: Some(v), ..self }
    }

    /// The configuration, when every required field is set.
    pub fn build(self) -> (r: Result<UpdatesConfig<T>, BuilderError>)
        ensures
            self.collection is None ==> (r matches Err(BuilderError::UninitializedField(f)) && f@ == "collection"@),
            self.collection is Some && self.documents is None ==> (r matches Err(BuilderError::UninitializedField(f)) && f@ == "documents"@),
            self.collection is Some && self.documents is Some ==> (r matches Ok(c) && c == (UpdatesConfig { collection: self.collection->0, documents: self.documents->0, wait_for_sync: self.wait_for_sync, return_new: self.return_new, return_old: self.return_old, keep_null: self.keep_null, merge_objects: self.merge_objects, ignore_revs: self.ignore_revs })),
    {
        let collection = match self.collection {
            Some(v) => v,
            None => return Err(BuilderError::UninitializedField("collection")),
        };
        let documents = match self.documents {
            Some(v) => v,
            None => return Err(BuilderError::UninitializedField("documents")),
        };
        Ok(UpdatesConfig { collection, documents, wait_for_sync: self.wait_for_sync, return_new: self.return_new, return_old: self.return_old, keep_null: self.keep_null, merge_objects: self.merge_objects, ignore_revs: self.ignore_revs })
    }
}

/// Each flag of a updates request is sent at most once, in a fixed order:
/// the parameters are the texts of a list of distinct flags, and the query
/// string puts a single `?` in front of them (see `lemma_query_string_marks`).
pub proof fn lemma_updates_flags_once<T>(c: UpdatesConfig<T>)
    ensures
        distinct_flags(c.flag_slots()),
        c.params() == flags_params(c.flag_slots()),
{
    lemma_flags_params_unfold(c.flag_slots());
}

/// The url of an updates request (`r`, what `build_suffix` gives): the
/// collection under `base`, then `waitForSync`, `returnNew`, `returnOld`,
/// `keepNull`, `mergeObjects` and `ignoreRevs`, each sent with the value it
/// was set to, in that order.
pub proof fn lemma_updates_url<T>(c: UpdatesConfig<T>, base: Seq<char>, r: Seq<char>)
    requires
        r == c.suffix_spec(base),
    ensures
        r == base + "/"@ + c.collection@ + query_string(
            flag_param("waitForSync"@, c.wait_for_sync) + flag_param("returnNew"@, c.return_new)
                + flag_param("returnOld"@, c.return_old) + flag_param("keepNull"@, c.keep_null)
                + flag_param("mergeObjects"@, c.merge_objects) + flag_param(
                "ignoreRevs"@,
                c.ignore_revs,
            ),
        ),
{
    lemma_flag_names(QpFlag::WaitForSync, c.wait_for_sync);
    lemma_flag_names(QpFlag::ReturnNew, c.return_new);
    lemma_flag_names(QpFlag::ReturnOld, c.return_old);
    lemma_flag_names(QpFlag::KeepNull, c.keep_null);
    lemma_flag_names(QpFlag::MergeObjects, c.merge_objects);
    lemma_flag_names(QpFlag::IgnoreRevs, c.ignore_revs);
}

} // verus!
