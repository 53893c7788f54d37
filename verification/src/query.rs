//! Query strings: separators, query parameters and their text.

use vstd::prelude::*;
use vstd::string::*;

verus! {

/// The separator written before a query parameter: `?` for the first one,
/// `&` for every later one.
pub open spec fn sep(has_qp: bool) -> Seq<char> {
    if has_qp {
        "&"@
    } else {
        "?"@
    }
}

/// The query string that lists the parameter texts `ps` in order: empty when
/// there are none, else `?` before the first and `&` before each later one.
pub open spec fn query_string(ps: Seq<Seq<char>>) -> Seq<char>
    decreases ps.len(),
{
    if ps.len() == 0 {
        Seq::empty()
    } else {
        query_string(ps.drop_last()) + sep(ps.len() > 1) + ps.last()
    }
}

/// A query parameter that the `ArangoDB` HTTP API understands.
pub enum QueryParam {
    DropCollection(bool),
    DropCollections(bool),
    IgnoreRevs(bool),
    KeepNull(bool),
    MergeObjects(bool),
    OnlyGet,
    Overwrite(bool),
    OverwriteMode(String),
    ReturnNew(bool),
    ReturnOld(bool),
    Silent(bool),
    WaitForSync(bool),
}

/// The boolean query parameters, by name.
#[derive(Clone, Copy, Debug, PartialEq, Eq, Structural)]
pub enum QpFlag {
    DropCollection,
    DropCollections,
    IgnoreRevs,
    KeepNull,
    MergeObjects,
    Overwrite,
    ReturnNew,
    ReturnOld,
    Silent,
    WaitForSync,
}

/// `name=true` or `name=false`.
pub open spec fn flag_text(name: Seq<char>, v: bool) -> Seq<char> {
    name + "="@ + if v {
        "true"@
    } else {
        "false"@
    }
}

/// The name under which a boolean parameter is sent.
pub open spec fn flag_name(flag: QpFlag) -> Seq<char> {
    match flag {
        QpFlag::DropCollection => "dropCollection"@,
        QpFlag::DropCollections => "dropCollections"@,
        QpFlag::IgnoreRevs => "ignoreRevs"@,
        QpFlag::KeepNull => "keepNull"@,
        QpFlag::MergeObjects => "mergeObjects"@,
        QpFlag::Overwrite => "overwrite"@,
        QpFlag::ReturnNew => "returnNew"@,
        QpFlag::ReturnOld => "returnOld"@,
        QpFlag::Silent => "silent"@,
        QpFlag::WaitForSync => "waitForSync"@,
    }
}

/// The text of a query parameter, as it stands in a url.
pub open spec fn qp_text(qp: QueryParam) -> Seq<char> {
    match qp {
        QueryParam::DropCollection(v) => flag_text("dropCollection"@, v),
        QueryParam::DropCollections(v) => flag_text("dropCollections"@, v),
        QueryParam::IgnoreRevs(v) => flag_text("ignoreRevs"@, v),
        QueryParam::KeepNull(v) => flag_text("keepNull"@, v),
        QueryParam::MergeObjects(v) => flag_text("mergeObjects"@, v),
        QueryParam::OnlyGet => "onlyget=true"@,
        QueryParam::Overwrite(v) => flag_text("overwrite"@, v),
        QueryParam::OverwriteMode(m) => "overwriteMode="@ + m@,
        QueryParam::ReturnNew(v) => flag_text("returnNew"@, v),
        QueryParam::ReturnOld(v) => flag_text("returnOld"@, v),
        QueryParam::Silent(v) => flag_text("silent"@, v),
        QueryParam::WaitForSync(v) => flag_text("waitForSync"@, v),
    }
}

/// The parameter texts that an optional flag contributes: none when it is
/// unset, else its one text.
pub open spec fn opt_qp(opt: Option<bool>, flag: QpFlag) -> Seq<Seq<char>> {
    match opt {
        Some(v) => seq![flag_text(flag_name(flag), v)],
        None => Seq::empty(),
    }
}

/// Appending one more parameter text extends the query string by the right
/// separator and that text.
pub proof fn lemma_query_push(ps: Seq<Seq<char>>, t: Seq<char>)
    ensures
        query_string(ps.push(t)) == query_string(ps) + sep(ps.len() > 0) + t,
{
    assert(ps.push(t).drop_last() =~= ps);
}

/// Appending the texts of an optional flag to a parameter list extends its
/// query string exactly as `add_qp` extends a url.
pub proof fn lemma_query_opt(ps: Seq<Seq<char>>, opt: Option<bool>, flag: QpFlag)
    ensures
        opt is None ==> query_string(ps + opt_qp(opt, flag)) == query_string(ps),
        opt is Some ==> query_string(ps + opt_qp(opt, flag)) == query_string(ps) + sep(ps.len()
            > 0) + flag_text(flag_name(flag), opt->0),
{
    match opt {
        Some(v) => {
            assert(ps + opt_qp(opt, flag) =~= ps.push(flag_text(flag_name(flag), v)));
            lemma_query_push(ps, flag_text(flag_name(flag), v));
        },
        None => {
            assert(ps + opt_qp(opt, flag) =~= ps);
        },
    }
}

fn flag_str(v: bool) -> (r: &'static str)
    ensures
        r@ == (if v {
            "true"@
        } else {
            "false"@
        }),
{
    if v {
        "true"
    } else {
        "false"
    }
}

fn flag_param_text(name: &str, v: bool) -> (r: String)
    ensures
        r@ == flag_text(name@, v),
{
    let mut s = String::from_str(name);
    s.append("=");
    s.append(flag_str(v));
    s
}

impl QpFlag {
    /// The name under which this parameter is sent.
    pub fn name(self) -> (r: &'static str)
        ensures
            r@ == flag_name(self),
    {
        match self {
            QpFlag::DropCollection => "dropCollection",
            QpFlag::DropCollections => "dropCollections",
            QpFlag::IgnoreRevs => "ignoreRevs",
            QpFlag::KeepNull => "keepNull",
            QpFlag::MergeObjects => "mergeObjects",
            QpFlag::Overwrite => "overwrite",
            QpFlag::ReturnNew => "returnNew",
            QpFlag::ReturnOld => "returnOld",
            QpFlag::Silent => "silent",
            QpFlag::WaitForSync => "waitForSync",
        }
    }

    /// The query parameter that sets this flag to `v`.
    pub fn with_value(self, v: bool) -> (r: QueryParam)
        ensures
            qp_text(r) == flag_text(flag_name(self), v),
    {
        match self {
            QpFlag::DropCollection => QueryParam::DropCollection(v),
            QpFlag::DropCollections => QueryParam::DropCollections(v),
            QpFlag::IgnoreRevs => QueryParam::IgnoreRevs(v),
            QpFlag::KeepNull => QueryParam::KeepNull(v),
            QpFlag::MergeObjects => QueryParam::MergeObjects(v),
            QpFlag::Overwrite => QueryParam::Overwrite(v),
            QpFlag::ReturnNew => QueryParam::ReturnNew(v),
            QpFlag::ReturnOld => QueryParam::ReturnOld(v),
            QpFlag::Silent => QueryParam::Silent(v),
            QpFlag::WaitForSync => QueryParam::WaitForSync(v),
        }
    }
}

impl QueryParam {
    /// The text of this parameter, as it stands in a url.
    pub fn to_query_text(&self) -> (r: String)
        ensures
            r@ == qp_text(*self),
    {
        match self {
            QueryParam::DropCollection(v) => flag_param_text("dropCollection", *v),
            QueryParam::DropCollections(v) => flag_param_text("dropCollections", *v),
            QueryParam::IgnoreRevs(v) => flag_param_text("ignoreRevs", *v),
            QueryParam::KeepNull(v) => flag_param_text("keepNull", *v),
            QueryParam::MergeObjects(v) => flag_param_text("mergeObjects", *v),
            QueryParam::OnlyGet => String::from_str("onlyget=true"),
            QueryParam::Overwrite(v) => flag_param_text("overwrite", *v),
            QueryParam::OverwriteMode(m) => {
                let mut s = String::from_str("overwriteMode=");
                s.append(m.as_str());
                s
            },
            QueryParam::ReturnNew(v) => flag_param_text("returnNew", *v),
            QueryParam::ReturnOld(v) => flag_param_text("returnOld", *v),
            QueryParam::Silent(v) => flag_param_text("silent", *v),
            QueryParam::WaitForSync(v) => flag_param_text("waitForSync", *v),
        }
    }
}

/// Appends the separator that the next query parameter needs and hands the
/// url back.
pub fn prepend_sep(url: &mut String, has_qp: bool) -> (r: &mut String)
    ensures
        r@ == old(url)@ + sep(has_qp),
        final(url)@ == final(r)@,
{
    if has_qp {
        url.append("&");
    } else {
        url.append("?");
    }
    url
}

/// Appends one query parameter, with its separator, and records that the url
/// now has one.
pub fn push_qp(url: &mut String, has_qp: &mut bool, param: &QueryParam)
    ensures
        final(url)@ == old(url)@ + sep(*old(has_qp)) + qp_text(*param),
        *final(has_qp),
{
    let _ = prepend_sep(url, *has_qp);
    let text = param.to_query_text();
    url.append(text.as_str());
    *has_qp = true;
}

/// Appends the boolean parameter `flag` when `opt` holds a value; leaves the
/// url as it is otherwise.
pub fn add_qp(opt: Option<bool>, url: &mut String, has_qp: &mut bool, flag: QpFlag)
    ensures
        opt is None ==> final(url)@ == old(url)@ && *final(has_qp) == *old(has_qp),
        opt is Some ==> final(url)@ == old(url)@ + sep(*old(has_qp)) + flag_text(
            flag_name(flag),
            opt->0,
        ) && *final(has_qp),
{
    if let Some(v) = opt {
        let kind = flag.with_value(v);
        push_qp(url, has_qp, &kind);
    }
}

/// Appends `overwriteMode=<mode>` when `opt` holds a mode; leaves the url as
/// it is otherwise.
pub fn add_qps(opt: Option<&str>, url: &mut String, has_qp: &mut bool)
    ensures
        opt is None ==> final(url)@ == old(url)@ && *final(has_qp) == *old(has_qp),
        opt is Some ==> final(url)@ == old(url)@ + sep(*old(has_qp)) + "overwriteMode="@
            + opt->0@ && *final(has_qp),
{
    if let Some(mode) = opt {
        let kind = QueryParam::OverwriteMode(String::from_str(mode));
        push_qp(url, has_qp, &kind);
    }
}

/// Appends `flag` when `opt` holds a value, keeping the url equal to a fixed
/// prefix followed by the query string of the parameters added so far.
pub(crate) fn add_flag(
    opt: Option<bool>,
    url: &mut String,
    has_qp: &mut bool,
    flag: QpFlag,
    Ghost(prefix): Ghost<Seq<char>>,
    Ghost(ps): Ghost<Seq<Seq<char>>>,
)
    requires
        old(url)@ == prefix + query_string(ps),
        *old(has_qp) == (ps.len() > 0),
    ensures
        final(url)@ == prefix + query_string(ps + opt_qp(opt, flag)),
        *final(has_qp) == ((ps + opt_qp(opt, flag)).len() > 0),
{
    proof {
        lemma_query_opt(ps, opt, flag);
    }
    add_qp(opt, url, has_qp, flag);
}

/// The parameter texts that an optional overwrite mode contributes.
pub open spec fn opt_mode(opt: Option<Seq<char>>) -> Seq<Seq<char>> {
    match opt {
        Some(m) => seq!["overwriteMode="@ + m],
        None => Seq::empty(),
    }
}

/// Appends `overwriteMode=<mode>` when `opt` holds a mode, keeping the url
/// equal to a fixed prefix followed by the query string of the parameters
/// added so far.
pub(crate) fn add_mode(
    opt: Option<&str>,
    url: &mut String,
    has_qp: &mut bool,
    Ghost(prefix): Ghost<Seq<char>>,
    Ghost(ps): Ghost<Seq<Seq<char>>>,
)
    requires
        old(url)@ == prefix + query_string(ps),
        *old(has_qp) == (ps.len() > 0),
    ensures
        final(url)@ == prefix + query_string(ps + opt_mode(opt_view(opt))),
        *final(has_qp) == ((ps + opt_mode(opt_view(opt))).len() > 0),
{
    proof {
        match opt {
            Some(m) => {
                assert(ps + opt_mode(opt_view(opt)) =~= ps.push("overwriteMode="@ + m@));
                lemma_query_push(ps, "overwriteMode="@ + m@);
            },
            None => {
                assert(ps + opt_mode(opt_view(opt)) =~= ps);
            },
        }
    }
    add_qps(opt, url, has_qp);
}

/// The text held in an optional text.
pub open spec fn opt_view(opt: Option<&str>) -> Option<Seq<char>> {
    match opt {
        Some(s) => Some(s@),
        None => None,
    }
}

/// The empty parameter list has the empty query string.
pub proof fn lemma_query_empty(prefix: Seq<char>)
    ensures
        prefix + query_string(Seq::empty()) == prefix,
{
    assert(prefix + query_string(Seq::empty()) =~= prefix);
}

/// The number of times `c` stands in `s`.
pub open spec fn char_count(s: Seq<char>, c: char) -> nat
    decreases s.len(),
{
    if s.len() == 0 {
        0
    } else {
        char_count(s.drop_last(), c) + if s.last() == c {
            1nat
        } else {
            0nat
        }
    }
}

/// The number of times `c` stands in the texts `ps`, all together.
pub open spec fn texts_char_count(ps: Seq<Seq<char>>, c: char) -> nat
    decreases ps.len(),
{
    if ps.len() == 0 {
        0
    } else {
        texts_char_count(ps.drop_last(), c) + char_count(ps.last(), c)
    }
}

/// Counting in two texts one after the other adds up.
pub proof fn lemma_char_count_concat(a: Seq<char>, b: Seq<char>, c: char)
    ensures
        char_count(a + b, c) == char_count(a, c) + char_count(b, c),
    decreases b.len(),
{
    if b.len() == 0 {
        assert(a + b =~= a);
    } else {
        lemma_char_count_concat(a, b.drop_last(), c);
        assert((a + b).drop_last() =~= a + b.drop_last());
        assert((a + b).last() == b.last());
    }
}

/// The shape of a query string: it starts with `?` when there is a
/// parameter; it holds one `?` besides those in the parameter texts, and
/// one `&` fewer than there are parameters besides those in the texts.
/// So for parameter texts without `?` and `&` there is exactly one `?`, in
/// front, and the parameters are separated by `&`.
pub proof fn lemma_query_string_marks(ps: Seq<Seq<char>>)
    ensures
        ps.len() > 0 ==> query_string(ps).len() > 0 && query_string(ps)[0] == '?',
        char_count(query_string(ps), '?') == (if ps.len() > 0 {
            1nat
        } else {
            0nat
        }) + texts_char_count(ps, '?'),
        char_count(query_string(ps), '&') + (if ps.len() > 0 {
            1nat
        } else {
            0nat
        }) == ps.len() + texts_char_count(ps, '&'),
    decreases ps.len(),
{
    reveal_strlit("?");
    reveal_strlit("&");
    if ps.len() > 0 {
        let d = ps.drop_last();
        lemma_query_string_marks(d);
        let q = query_string(d);
        lemma_char_count_concat(q, sep(ps.len() > 1), '?');
        lemma_char_count_concat(q + sep(ps.len() > 1), ps.last(), '?');
        lemma_char_count_concat(q, sep(ps.len() > 1), '&');
        lemma_char_count_concat(q + sep(ps.len() > 1), ps.last(), '&');
        assert(char_count("?"@, '?') == 1) by {
            reveal_strlit("?");
            assert("?"@.len() == 1);
            assert("?"@.last() == '?');
            assert("?"@.drop_last() =~= Seq::<char>::empty());
            assert(char_count(Seq::<char>::empty(), '?') == 0);
        }
        assert(char_count("?"@, '&') == 0) by {
            reveal_strlit("?");
            assert("?"@.len() == 1);
            assert("?"@.last() == '?');
            assert("?"@.drop_last() =~= Seq::<char>::empty());
            assert(char_count(Seq::<char>::empty(), '&') == 0);
        }
        assert(char_count("&"@, '&') == 1) by {
            reveal_strlit("&");
            assert("&"@.len() == 1);
            assert("&"@.last() == '&');
            assert("&"@.drop_last() =~= Seq::<char>::empty());
            assert(char_count(Seq::<char>::empty(), '&') == 0);
        }
        assert(char_count("&"@, '?') == 0) by {
            reveal_strlit("&");
            assert("&"@.len() == 1);
            assert("&"@.last() == '&');
            assert("&"@.drop_last() =~= Seq::<char>::empty());
            assert(char_count(Seq::<char>::empty(), '?') == 0);
        }
        if d.len() == 0 {
            assert(q =~= Seq::<char>::empty());
            assert((q + sep(ps.len() > 1) + ps.last())[0] == '?');
        } else {
            assert((q + sep(ps.len() > 1) + ps.last())[0] == q[0]);
        }
    }
}

/// The parameter texts of a list of optional flags, in the list's order:
/// one text for each flag that holds a value, none for the others.
pub open spec fn flags_params(fs: Seq<(QpFlag, Option<bool>)>) -> Seq<Seq<char>>
    decreases fs.len(),
{
    if fs.len() == 0 {
        Seq::empty()
    } else {
        flags_params(fs.drop_last()) + opt_qp(fs.last().1, fs.last().0)
    }
}

/// No flag stands twice in the list.
pub open spec fn distinct_flags(fs: Seq<(QpFlag, Option<bool>)>) -> bool {
    forall|i: int, j: int| 0 <= i < j < fs.len() ==> #[trigger] fs[i].0 != #[trigger] fs[j].0
}

/// The flags of a list give at most one text each, in the list's order:
/// the texts of the list's first part, then those of the rest.
pub proof fn lemma_flags_params_split(a: Seq<(QpFlag, Option<bool>)>, b: Seq<(QpFlag, Option<bool>)>)
    ensures
        flags_params(a + b) == flags_params(a) + flags_params(b),
        flags_params(a).len() <= a.len(),
    decreases a.len() + b.len(),
{
    if b.len() == 0 {
        assert(a + b =~= a);
        assert(flags_params(a) + flags_params(b) =~= flags_params(a));
        if a.len() > 0 {
            lemma_flags_params_split(a.drop_last(), Seq::empty());
        }
    } else {
        lemma_flags_params_split(a, b.drop_last());
        assert((a + b).drop_last() =~= a + b.drop_last());
        assert((a + b).last() == b.last());
        assert(flags_params(a) + flags_params(b) =~= flags_params(a) + flags_params(b.drop_last())
            + opt_qp(b.last().1, b.last().0));
    }
}

/// The texts of the flags `x`, `y`, ... given one after the other.
pub proof fn lemma_flags_params_unfold(fs: Seq<(QpFlag, Option<bool>)>)
    ensures
        fs.len() == 1 ==> flags_params(fs) == opt_qp(fs[0].1, fs[0].0),
        fs.len() == 2 ==> flags_params(fs) == opt_qp(fs[0].1, fs[0].0) + opt_qp(fs[1].1, fs[1].0),
        fs.len() == 3 ==> flags_params(fs) == opt_qp(fs[0].1, fs[0].0) + opt_qp(fs[1].1, fs[1].0)
            + opt_qp(fs[2].1, fs[2].0),
        fs.len() == 4 ==> flags_params(fs) == opt_qp(fs[0].1, fs[0].0) + opt_qp(fs[1].1, fs[1].0)
            + opt_qp(fs[2].1, fs[2].0) + opt_qp(fs[3].1, fs[3].0),
        fs.len() == 5 ==> flags_params(fs) == opt_qp(fs[0].1, fs[0].0) + opt_qp(fs[1].1, fs[1].0)
            + opt_qp(fs[2].1, fs[2].0) + opt_qp(fs[3].1, fs[3].0) + opt_qp(fs[4].1, fs[4].0),
        fs.len() == 6 ==> flags_params(fs) == opt_qp(fs[0].1, fs[0].0) + opt_qp(fs[1].1, fs[1].0)
            + opt_qp(fs[2].1, fs[2].0) + opt_qp(fs[3].1, fs[3].0) + opt_qp(fs[4].1, fs[4].0)
            + opt_qp(fs[5].1, fs[5].0),
    decreases fs.len(),
{
    if fs.len() > 0 {
        let d = fs.drop_last();
        lemma_flags_params_unfold(d);
        assert(flags_params(Seq::<(QpFlag, Option<bool>)>::empty()) =~= Seq::<Seq<char>>::empty());
        if fs.len() == 1 {
            assert(d =~= Seq::<(QpFlag, Option<bool>)>::empty());
            assert(Seq::<Seq<char>>::empty() + opt_qp(fs[0].1, fs[0].0) =~= opt_qp(fs[0].1, fs[0].0));
        }
    }
}

/// The text of a boolean query parameter named `name` that was set to `o`,
/// as a list of one (`name=true` or `name=false`); nothing when it is unset.
pub open spec fn flag_param(name: Seq<char>, o: Option<bool>) -> Seq<Seq<char>> {
    match o {
        Some(true) => seq![name + "="@ + "true"@],
        Some(false) => seq![name + "="@ + "false"@],
        None => Seq::empty(),
    }
}

/// The text of every query parameter, given by its name and its value:
/// `name=value` with the names that the `ArangoDB` HTTP API understands.
pub proof fn lemma_query_param_texts(qp: QueryParam, r: Seq<char>)
    requires
        r == qp_text(qp),
    ensures
        qp matches QueryParam::DropCollection(v) ==> seq![r] == flag_param(
            "dropCollection"@,
            Some(v),
        ),
        qp matches QueryParam::DropCollections(v) ==> seq![r] == flag_param(
            "dropCollections"@,
            Some(v),
        ),
        qp matches QueryParam::IgnoreRevs(v) ==> seq![r] == flag_param("ignoreRevs"@, Some(v)),
        qp matches QueryParam::KeepNull(v) ==> seq![r] == flag_param("keepNull"@, Some(v)),
        qp matches QueryParam::MergeObjects(v) ==> seq![r] == flag_param("mergeObjects"@, Some(v)),
        qp matches QueryParam::OnlyGet ==> r == "onlyget=true"@,
        qp matches QueryParam::Overwrite(v) ==> seq![r] == flag_param("overwrite"@, Some(v)),
        qp matches QueryParam::OverwriteMode(m) ==> r == "overwriteMode="@ + m@,
        qp matches QueryParam::ReturnNew(v) ==> seq![r] == flag_param("returnNew"@, Some(v)),
        qp matches QueryParam::ReturnOld(v) ==> seq![r] == flag_param("returnOld"@, Some(v)),
        qp matches QueryParam::Silent(v) ==> seq![r] == flag_param("silent"@, Some(v)),
        qp matches QueryParam::WaitForSync(v) ==> seq![r] == flag_param("waitForSync"@, Some(v)),
{
}

/// The name of every boolean flag, as the `ArangoDB` HTTP API spells it;
/// the text that a flag contributes is its name, `=`, and its value.
pub proof fn lemma_flag_names(flag: QpFlag, o: Option<bool>)
    ensures
        opt_qp(o, flag) == flag_param(
            match flag {
                QpFlag::DropCollection => "dropCollection"@,
                QpFlag::DropCollections => "dropCollections"@,
                QpFlag::IgnoreRevs => "ignoreRevs"@,
                QpFlag::KeepNull => "keepNull"@,
                QpFlag::MergeObjects => "mergeObjects"@,
                QpFlag::Overwrite => "overwrite"@,
                QpFlag::ReturnNew => "returnNew"@,
                QpFlag::ReturnOld => "returnOld"@,
                QpFlag::Silent => "silent"@,
                QpFlag::WaitForSync => "waitForSync"@,
            },
            o,
        ),
{
}

/// `base/seg`.
pub fn slash_join(base: &str, seg: &str) -> (r: String)
    ensures
        r@ == base@ + "/"@ + seg@,
{
    let mut s = String::from_str(base);
    s.append("/");
    s.append(seg);
    s
}

/// Appends `/seg`.
pub fn push_segment(url: &mut String, seg: &str)
    ensures
        final(url)@ == old(url)@ + "/"@ + seg@,
{
    url.append("/");
    url.append(seg);
}

/// `Some(true)` stays; anything else becomes `None`.
pub open spec fn only_true(o: Option<bool>) -> Option<bool> {
    if o == Some(true) {
        Some(true)
    } else {
        None
    }
}

/// Is the flag set to `true`?
pub fn is_true(o: Option<bool>) -> (r: bool)
    ensures
        r == (o == Some(true)),
{
    match o {
        Some(v) => v,
        None => false,
    }
}

/// `Some(true)` stays; anything else becomes `None`.
pub fn keep_true(o: Option<bool>) -> (r: Option<bool>)
    ensures
        r == only_true(o),
{
    if is_true(o) {
        Some(true)
    } else {
        None
    }
}

} // verus!
