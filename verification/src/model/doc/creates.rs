//! Documents creation configuration

use crate::error::BuilderError;
use crate::query::{
    flag_param, lemma_flag_names,
    distinct_flags, flags_params, lemma_flags_params_unfold,
    add_flag, add_mode, is_true, lemma_query_empty, lemma_query_push, opt_mode, opt_qp, opt_view, push_qp,
    query_string, slash_join, QpFlag, QueryParam,
};
use crate::model::doc::{mode_text, OverwriteMode};
use vstd::prelude::*;
use vstd::string::*;

verus! {

/// Documents creation configuration
#[derive(Clone, Debug)]
pub struct CreatesConfig<T> {
    /// The collection to create the documents in
    pub collection: String,
    /// Wait until the documents have been synced to disk.
    pub wait_for_sync: Option<bool>,
    /// Additionally return the complete new documents under `new`.
    pub return_new: Option<bool>,
    /// Additionally return the complete old documents under `old`; only with an overwrite.
    pub return_old: Option<bool>,
    /// When true, return an empty object: no metadata and no documents; sent
    /// whenever it is set.
    pub silent: Option<bool>,
    /// Replace a document whose `_key` exists already instead of failing.
    pub overwrite: Option<bool>,
    /// What to do with a document whose `_key` exists already; supersedes `overwrite`.
    pub overwrite_mode: Option<OverwriteMode>,
    /// When false, attributes set to `null` are removed (update overwrites only).
    pub keep_null: Option<bool>,
    /// Merge objects present in both documents (update overwrites only).
    pub merge_objects: Option<bool>,
    /// The documents to create
    pub document: Vec<T>,
}

/// The overwrite mode's name, when there is one.
pub open spec fn mode_name(m: Option<OverwriteMode>) -> Option<Seq<char>> {
    match m {
        Some(m) => Some(mode_text(m)),
        None => None,
    }
}

impl<T> CreatesConfig<T> {
    /// The flags sent before the overwrite mode, in order.
    pub open spec fn flag_slots_before(self) -> Seq<(QpFlag, Option<bool>)> {
        if self.silent == Some(true) {
            seq![(QpFlag::WaitForSync, self.wait_for_sync), (QpFlag::Silent, self.silent)]
        } else {
            seq![
                (QpFlag::WaitForSync, self.wait_for_sync),
                (QpFlag::Silent, self.silent),
                (QpFlag::ReturnNew, self.return_new),
                (QpFlag::ReturnOld, self.return_old),
            ]
        }
    }

    /// The flags sent after the overwrite mode, in order.
    pub open spec fn flag_slots_after(self) -> Seq<(QpFlag, Option<bool>)> {
        match self.overwrite_mode {
            Some(OverwriteMode::Update) => seq![(QpFlag::KeepNull, self.keep_null), (QpFlag::MergeObjects, self.merge_objects)],
            Some(_) => Seq::empty(),
            None => seq![(QpFlag::Overwrite, self.overwrite)],
        }
    }

    /// `silent` when set; then, unless silent is true, `returnNew` and
    /// `returnOld` when set.
    pub open spec fn return_params(self) -> Seq<Seq<char>> {
        if self.silent == Some(true) {
            opt_qp(self.silent, QpFlag::Silent)
        } else {
            opt_qp(self.silent, QpFlag::Silent) + opt_qp(self.return_new, QpFlag::ReturnNew)
                + opt_qp(self.return_old, QpFlag::ReturnOld)
        }
    }

    /// `overwriteMode` with, for the update mode, `keepNull` and
    /// `mergeObjects` when set; or, with no mode, `overwrite` when set.
    pub open spec fn overwrite_params(self) -> Seq<Seq<char>> {
        match self.overwrite_mode {
            Some(m) => opt_mode(mode_name(self.overwrite_mode)) + if m == OverwriteMode::Update {
                opt_qp(self.keep_null, QpFlag::KeepNull) + opt_qp(
                    self.merge_objects,
                    QpFlag::MergeObjects,
                )
            } else {
                Seq::empty()
            },
            None => opt_qp(self.overwrite, QpFlag::Overwrite),
        }
    }

    /// The query parameters of the request, in order: `waitForSync` when
    /// set, then the return parameters, then the overwrite parameters.
    pub open spec fn params(self) -> Seq<Seq<char>> {
        opt_qp(self.wait_for_sync, QpFlag::WaitForSync) + self.return_params()
            + self.overwrite_params()
    }

    /// `base/collection` and the query string.
    pub open spec fn suffix_spec(self, base: Seq<char>) -> Seq<char> {
        base + "/"@ + self.collection@ + query_string(self.params())
    }

    fn add_returns(
        &self,
        url: &mut String,
        has_qp: &mut bool,
        Ghost(prefix): Ghost<Seq<char>>,
        Ghost(ps): Ghost<Seq<Seq<char>>>,
    )
        requires
            old(url)@ == prefix + query_string(ps),
            *old(has_qp) == (ps.len() > 0),
        ensures
            final(url)@ == prefix + query_string(ps + self.return_params()),
            *final(has_qp) == ((ps + self.return_params()).len() > 0),
    {
        add_flag(self.silent, url, has_qp, QpFlag::Silent, Ghost(prefix), Ghost(ps));
        let ghost pss = ps + opt_qp(self.silent, QpFlag::Silent);
        if !is_true(self.silent) {
            add_flag(self.return_new, url, has_qp, QpFlag::ReturnNew, Ghost(prefix), Ghost(pss));
            let ghost psn = pss + opt_qp(self.return_new, QpFlag::ReturnNew);
            add_flag(self.return_old, url, has_qp, QpFlag::ReturnOld, Ghost(prefix), Ghost(psn));
            proof {
                assert(psn + opt_qp(self.return_old, QpFlag::ReturnOld) =~= ps + self.return_params());
            }
        }
    }

    fn add_overwrite(
        &self,
        url: &mut String,
        has_qp: &mut bool,
        Ghost(prefix): Ghost<Seq<char>>,
        Ghost(ps): Ghost<Seq<Seq<char>>>,
    )
        requires
            old(url)@ == prefix + query_string(ps),
            *old(has_qp) == (ps.len() > 0),
        ensures
            final(url)@ == prefix + query_string(ps + self.overwrite_params()),
            *final(has_qp) == ((ps + self.overwrite_params()).len() > 0),
    {
        if let Some(mode) = self.overwrite_mode {
            let name = mode.as_str();
            add_mode(Some(name), url, has_qp, Ghost(prefix), Ghost(ps));
            let ghost psm = ps + opt_mode(mode_name(self.overwrite_mode));
            assert(opt_view(Some(name)) == mode_name(self.overwrite_mode));
            if mode == OverwriteMode::Update {
                add_flag(self.keep_null, url, has_qp, QpFlag::KeepNull, Ghost(prefix), Ghost(psm));
                let ghost psk = psm + opt_qp(self.keep_null, QpFlag::KeepNull);
                add_flag(self.merge_objects, url, has_qp, QpFlag::MergeObjects, Ghost(prefix), Ghost(psk));
                proof {
                    assert(psk + opt_qp(self.merge_objects, QpFlag::MergeObjects) =~= ps
                        + self.overwrite_params());
                }
            } else {
                proof {
                    assert(psm =~= ps + self.overwrite_params());
                }
            }
        } else if self.overwrite.is_some() {
            add_flag(self.overwrite, url, has_qp, QpFlag::Overwrite, Ghost(prefix), Ghost(ps));
        } else {
            proof {
                assert(ps + self.overwrite_params() =~= ps);
            }
        }
    }

    /// The url suffix of the request.
    pub fn build_suffix(&self, base: &str) -> (r: String)
        ensures
            r@ == self.suffix_spec(base@),
    {
        let mut url = slash_join(base, self.collection.as_str());
        let ghost prefix = url@;
        let mut has_qp = false;
        proof {
            lemma_query_empty(prefix);
        }
        let ghost ps0 = Seq::<Seq<char>>::empty();
        add_flag(self.wait_for_sync, &mut url, &mut has_qp, QpFlag::WaitForSync, Ghost(prefix), Ghost(ps0));
        let ghost ps1 = ps0 + opt_qp(self.wait_for_sync, QpFlag::WaitForSync);
        self.add_returns(&mut url, &mut has_qp, Ghost(prefix), Ghost(ps1));
        let ghost ps2 = ps1 + self.return_params();
        self.add_overwrite(&mut url, &mut has_qp, Ghost(prefix), Ghost(ps2));
        proof {
            assert(ps2 + self.overwrite_params() =~= self.params());
        }
        url
    }
}

/// The overwrite mode supersedes the overwrite flag: with a mode set, the url
/// is the same whatever `overwrite` says.
pub proof fn lemma_mode_supersedes_overwrite<T>(
    c: CreatesConfig<T>,
    overwrite: Option<bool>,
    base: Seq<char>,
)
    requires
        c.overwrite_mode is Some,
    ensures
        c.suffix_spec(base) == (CreatesConfig { overwrite, ..c }).suffix_spec(base),
{
}

/// `keepNull` and `mergeObjects` control update-inserts only: with another
/// mode, or none, the url is the same whatever they say.
pub proof fn lemma_update_flags_only_for_update<T>(
    c: CreatesConfig<T>,
    keep_null: Option<bool>,
    merge_objects: Option<bool>,
    base: Seq<char>,
)
    requires
        c.overwrite_mode != Some(OverwriteMode::Update),
    ensures
        c.suffix_spec(base) == (CreatesConfig { keep_null, merge_objects, ..c }).suffix_spec(base),
{
}

/// A silent create asks for no documents back: with `silent` set to true,
/// the url is the same whatever `return_new` and `return_old` say.
pub proof fn lemma_silent_create_returns_nothing<T>(
    c: CreatesConfig<T>,
    return_new: Option<bool>,
    return_old: Option<bool>,
    base: Seq<char>,
)
    requires
        c.silent == Some(true),
    ensures
        c.suffix_spec(base) == (CreatesConfig { return_new, return_old, ..c }).suffix_spec(base),
{
}

/// Builds a [`CreatesConfig`]; `collection` and `document` must be set.
#[derive(Clone, Debug)]
pub struct CreatesConfigBuilder<T> {
    pub collection: Option<String>,
    pub wait_for_sync: Option<bool>,
    pub return_new: Option<bool>,
    pub return_old: Option<bool>,
    pub silent: Option<bool>,
    pub overwrite: Option<bool>,
    pub overwrite_mode: Option<OverwriteMode>,
    pub keep_null: Option<bool>,
    pub merge_objects: Option<bool>,
    pub document: Option<Vec<T>>,
}

impl<T> CreatesConfigBuilder<T> {
    /// A builder with nothing set.
    pub fn default() -> (r: Self)
        ensures
            r == (Self { collection: None, wait_for_sync: None, return_new: None, return_old: None, silent: None, overwrite: None, overwrite_mode: None, keep_null: None, merge_objects: None, document: None }),
    {
        CreatesConfigBuilder { collection: None, wait_for_sync: None, return_new: None, return_old: None, silent: None, overwrite: None, overwrite_mode: None, keep_null: None, merge_objects: None, document: None }
    }

    /// The collection to create the documents in
    pub fn collection(self, v: &str) -> (r: Self)
        ensures
            r == (Self { collection: r.collection, ..self }),
            r.collection matches Some(s) && s@ == v@,
    {
        Self { collection: Some(String::from_str(v)), ..self }
    }

    /// Wait until the documents have been synced to disk.
    pub fn wait_for_sync(self, v: bool) -> (r: Self)
        ensures
            r == (Self { wait_for_sync: Some(v), ..self }),
    {
        Self { wait_for_sync: Some(v), ..self }
    }

    /// Additionally return the complete new documents under `new`.
    pub fn return_new(self, v: bool) -> (r: Self)
        ensures
            r == (Self { return_new: Some(v), ..self }),
    {
        Self { return_new: Some(v), ..self }
    }

    /// Additionally return the complete old documents under `old`; only with an overwrite.
    pub fn return_old(self, v: bool) -> (r: Self)
        ensures
            r == (Self { return_old: Some(v), ..self }),
    {
        Self { return_old: Some(v), ..self }
    }

    /// When true, return an empty object: no metadata and no documents; sent
    /// whenever it is set.
    pub fn silent(self, v: bool) -> (r: Self)
        ensures
            r == (Self { silent: Some(v), ..self }),
    {
        Self { silent: Some(v), ..self }
    }

    /// Replace a document whose `_key` exists already instead of failing.
    pub fn overwrite(self, v: bool) -> (r: Self)
        ensures
            r == (Self { overwrite: Some(v), ..self }),
    {
        Self { overwrite: Some(v), ..self }
    }

    /// What to do with a document whose `_key` exists already; supersedes `overwrite`.
    pub fn overwrite_mode(self, v: OverwriteMode) -> (r: Self)
        ensures
            r == (Self { overwrite_mode: Some(v), ..self }),
    {
        Self { overwrite_mode: Some(v), ..self }
    }

    /// When false, attributes set to `null` are removed (update overwrites only).
    pub fn keep_null(self, v: bool) -> (r: Self)
        ensures
            r == (Self { keep_null: Some(v), ..self }),
    {
        Self { keep_null: Some(v), ..self }
    }

    /// Merge objects present in both documents (update overwrites only).
    pub fn merge_objects(self, v: bool) -> (r: Self)
        ensures
            r == (Self { merge_objects: Some(v), ..self }),
    {
        Self { merge_objects: Some(v), ..self }
    }

    /// The documents to create
    pub fn document(self, v: Vec<T>) -> (r: Self)
        ensures
            r == (Self { document: Some(v), ..self }),
    {
        Self { document: Some(v), ..self }
    }

    /// The configuration, when every required field is set.
    pub fn build(self) -> (r: Result<CreatesConfig<T>, BuilderError>)
        ensures
            self.collection is None ==> (r matches Err(BuilderError::UninitializedField(f)) && f@ == "collection"@),
            self.collection is Some && self.document is None ==> (r matches Err(BuilderError::UninitializedField(f)) && f@ == "document"@),
            self.collection is Some && self.document is Some ==> (r matches Ok(c) && c == (CreatesConfig { collection: self.collection->0, wait_for_sync: self.wait_for_sync, return_new: self.return_new, return_old: self.return_old, silent: self.silent, overwrite: self.overwrite, overwrite_mode: self.overwrite_mode, keep_null: self.keep_null, merge_objects: self.merge_objects, document: self.document->0 })),
    {
        let collection = match self.collection {
            Some(v) => v,
            None => return Err(BuilderError::UninitializedField("collection")),
        };
        let document = match self.document {
            Some(v) => v,
            None => return Err(BuilderError::UninitializedField("document")),
        };
        Ok(CreatesConfig { collection, wait_for_sync: self.wait_for_sync, return_new: self.return_new, return_old: self.return_old, silent: self.silent, overwrite: self.overwrite, overwrite_mode: self.overwrite_mode, keep_null: self.keep_null, merge_objects: self.merge_objects, document })
    }
}

/// Each flag of a create request is sent at most once, in a fixed order,
/// and so is the overwrite mode: the parameters are the texts of a list of
/// distinct flags with the mode, when there is one, in between; the query
/// string puts a single `?` in front of them (see `lemma_query_string_marks`).
pub proof fn lemma_creates_flags_once<T>(c: CreatesConfig<T>)
    ensures
        distinct_flags(c.flag_slots_before() + c.flag_slots_after()),
        c.params() == flags_params(c.flag_slots_before()) + opt_mode(mode_name(c.overwrite_mode))
            + flags_params(c.flag_slots_after()),
        opt_mode(mode_name(c.overwrite_mode)).len() <= 1,
{
    let b = c.flag_slots_before();
    let a = c.flag_slots_after();
    lemma_flags_params_unfold(b);
    lemma_flags_params_unfold(a);
    assert(flags_params(Seq::<(QpFlag, Option<bool>)>::empty()) =~= Seq::<Seq<char>>::empty());
    let ab = b + a;
    assert forall|i: int, j: int| 0 <= i < j < ab.len() implies #[trigger] ab[i].0 != #[trigger] ab[j].0 by {
        assert(ab[i] == if i < b.len() { b[i] } else { a[i - b.len()] });
        assert(ab[j] == if j < b.len() { b[j] } else { a[j - b.len()] });
    }
    assert(c.params() =~= flags_params(b) + opt_mode(mode_name(c.overwrite_mode)) + flags_params(a));
}

/// The url of a create request (`r`, what `build_suffix` gives), from its
/// fields: the collection under `base`; `waitForSync` and `silent` with
/// their values; unless silent is true, `returnNew` and `returnOld` with
/// their values; then either the overwrite mode by name, followed for the
/// update mode by `keepNull` and `mergeObjects` with their values, or, with
/// no mode, `overwrite` with its value.
pub proof fn lemma_creates_url<T>(c: CreatesConfig<T>, base: Seq<char>, r: Seq<char>)
    requires
        r == c.suffix_spec(base),
    ensures
        r == base + "/"@ + c.collection@ + query_string(
            flag_param("waitForSync"@, c.wait_for_sync) + flag_param("silent"@, c.silent) + (if c.silent
                == Some(true) {
                Seq::empty()
            } else {
                flag_param("returnNew"@, c.return_new) + flag_param("returnOld"@, c.return_old)
            }) + match c.overwrite_mode {
                Some(OverwriteMode::Update) => seq!["overwriteMode="@ + "update"@] + flag_param(
                    "keepNull"@,
                    c.keep_null,
                ) + flag_param("mergeObjects"@, c.merge_objects),
                Some(OverwriteMode::Ignore) => seq!["overwriteMode="@ + "ignore"@],
                Some(OverwriteMode::Replace) => seq!["overwriteMode="@ + "replace"@],
                Some(OverwriteMode::Conflict) => seq!["overwriteMode="@ + "conflict"@],
                None => flag_param("overwrite"@, c.overwrite),
            },
        ),
{
    lemma_flag_names(QpFlag::WaitForSync, c.wait_for_sync);
    lemma_flag_names(QpFlag::Silent, c.silent);
    lemma_flag_names(QpFlag::ReturnNew, c.return_new);
    lemma_flag_names(QpFlag::ReturnOld, c.return_old);
    lemma_flag_names(QpFlag::KeepNull, c.keep_null);
    lemma_flag_names(QpFlag::MergeObjects, c.merge_objects);
    lemma_flag_names(QpFlag::Overwrite, c.overwrite);
    let a = flag_param("waitForSync"@, c.wait_for_sync);
    let b = flag_param("silent"@, c.silent);
    let rs = if c.silent == Some(true) {
        Seq::<Seq<char>>::empty()
    } else {
        flag_param("returnNew"@, c.return_new) + flag_param("returnOld"@, c.return_old)
    };
    let ov = match c.overwrite_mode {
        Some(OverwriteMode::Update) => seq!["overwriteMode="@ + "update"@] + flag_param(
            "keepNull"@,
            c.keep_null,
        ) + flag_param("mergeObjects"@, c.merge_objects),
        Some(OverwriteMode::Ignore) => seq!["overwriteMode="@ + "ignore"@],
        Some(OverwriteMode::Replace) => seq!["overwriteMode="@ + "replace"@],
        Some(OverwriteMode::Conflict) => seq!["overwriteMode="@ + "conflict"@],
        None => flag_param("overwrite"@, c.overwrite),
    };
    assert(c.return_params() =~= b + rs);
    assert(c.overwrite_params() =~= ov);
    assert(c.params() =~= a + b + rs + ov);
}

} // verus!
