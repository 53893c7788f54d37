//! Inputs and outputs of document operations.

use vstd::prelude::*;
use vstd::string::*;

pub mod creates;
pub mod deletes;
pub mod output;
pub mod read;
pub mod reads;
pub mod replace;
pub mod replaces;
pub mod updates;

pub use creates::{CreatesConfig, CreatesConfigBuilder};
pub use deletes::{DeletesConfig, DeletesConfigBuilder};
pub use read::{ReadConfig, ReadConfigBuilder};
pub use reads::{ReadsConfig, ReadsConfigBuilder};
pub use replace::{ReplaceConfig, ReplaceConfigBuilder};
pub use replaces::{ReplacesConfig, ReplacesConfigBuilder};
pub use updates::{UpdatesConfig, UpdatesConfigBuilder};

verus! {

/// The path of the document API.
pub const BASE_DOC_SUFFIX: &'static str = "_api/document";

/// Overwrite Modes
#[derive(Clone, Copy, Debug, PartialEq, Eq, Structural)]
pub enum OverwriteMode {
    /// If a document with the specified `_key` value exists already,
    /// nothing will be done and no write operation will be carried out.
    Ignore,
    /// If a document with the specified `_key` value exists already,
    /// it will be patched (partially updated) with the specified document value.
    Update,
    /// If a document with the specified `_key` value exists already,
    /// it will be overwritten with the specified document value.
    Replace,
    /// If a document with the specified `_key` value exists already,
    /// return a unique constraint violation error so that the insert fails.
    Conflict,
}

/// The name of an overwrite mode, as the server reads it.
pub open spec fn mode_text(m: OverwriteMode) -> Seq<char> {
    match m {
        OverwriteMode::Ignore => "ignore"@,
        OverwriteMode::Update => "update"@,
        OverwriteMode::Replace => "replace"@,
        OverwriteMode::Conflict => "conflict"@,
    }
}

/// `c` with an upper-case ASCII letter turned into lower case.
pub open spec fn ascii_lower(c: char) -> char {
    if 'A' <= c && c <= 'Z' {
        ((c as u32) + 32) as char
    } else {
        c
    }
}

/// `a` and `b` are equal once upper-case ASCII letters are lowered.
pub open spec fn eq_ignore_case(a: Seq<char>, b: Seq<char>) -> bool {
    a.len() == b.len() && forall|i: int| 0 <= i < a.len() ==> ascii_lower(#[trigger] a[i])
        == ascii_lower(b[i])
}

fn lower(c: char) -> (r: char)
    ensures
        r == ascii_lower(c),
{
    if 'A' <= c && c <= 'Z' {
        ((c as u8) + 32) as char
    } else {
        c
    }
}

fn eq_ignore_case_exec(a: &str, b: &str) -> (r: bool)
    ensures
        r == eq_ignore_case(a@, b@),
{
    let n = a.unicode_len();
    if n != b.unicode_len() {
        return false;
    }
    let mut i: usize = 0;
    while i < n
        invariant
            n == a@.len(),
            n == b@.len(),
            i <= n,
            forall|j: int| 0 <= j < i ==> ascii_lower(#[trigger] a@[j]) == ascii_lower(b@[j]),
        decreases n - i,
    {
        if lower(a.get_char(i)) != lower(b.get_char(i)) {
            return false;
        }
        i += 1;
    }
    true
}

impl OverwriteMode {
    /// The name of this mode, as the server reads it.
    pub fn as_str(self) -> (r: &'static str)
        ensures
            r@ == mode_text(self),
    {
        match self {
            OverwriteMode::Ignore => "ignore",
            OverwriteMode::Update => "update",
            OverwriteMode::Replace => "replace",
            OverwriteMode::Conflict => "conflict",
        }
    }

    /// The name of this mode, as an owned text.
    pub fn to_string(&self) -> (r: String)
        ensures
            r@ == mode_text(*self),
    {
        String::from_str(self.as_str())
    }

    /// The mode whose name `s` is, in any mix of upper and lower case; `None`
    /// when `s` names no mode.
    pub fn from_name(s: &str) -> (r: Option<OverwriteMode>)
        ensures
            r == mode_of_name(s@),
    {
        if eq_ignore_case_exec(s, "ignore") {
            Some(OverwriteMode::Ignore)
        } else if eq_ignore_case_exec(s, "replace") {
            Some(OverwriteMode::Replace)
        } else if eq_ignore_case_exec(s, "update") {
            Some(OverwriteMode::Update)
        } else if eq_ignore_case_exec(s, "conflict") {
            Some(OverwriteMode::Conflict)
        } else {
            None
        }
    }
}

/// The mode whose name `s` is, in any mix of upper and lower case.
pub open spec fn mode_of_name(s: Seq<char>) -> Option<OverwriteMode> {
    if eq_ignore_case(s, "ignore"@) {
        Some(OverwriteMode::Ignore)
    } else if eq_ignore_case(s, "replace"@) {
        Some(OverwriteMode::Replace)
    } else if eq_ignore_case(s, "update"@) {
        Some(OverwriteMode::Update)
    } else if eq_ignore_case(s, "conflict"@) {
        Some(OverwriteMode::Conflict)
    } else {
        None
    }
}

proof fn lemma_eq_ignore_case_trans(a: Seq<char>, b: Seq<char>, c: Seq<char>)
    requires
        eq_ignore_case(a, b),
    ensures
        eq_ignore_case(a, c) == eq_ignore_case(b, c),
{
    if eq_ignore_case(b, c) {
        assert forall|i: int| 0 <= i < a.len() implies ascii_lower(#[trigger] a[i]) == ascii_lower(
            c[i],
        ) by {
            assert(ascii_lower(b[i]) == ascii_lower(c[i]));
        }
    }
    if eq_ignore_case(a, c) {
        assert forall|i: int| 0 <= i < b.len() implies ascii_lower(#[trigger] b[i]) == ascii_lower(
            c[i],
        ) by {
            assert(ascii_lower(a[i]) == ascii_lower(c[i]));
        }
    }
}

/// Reading back the name of a mode gives that mode again.
pub proof fn lemma_mode_name_roundtrip(m: OverwriteMode)
    ensures
        mode_of_name(mode_text(m)) == Some(m),
{
    reveal_strlit("ignore");
    reveal_strlit("replace");
    reveal_strlit("update");
    reveal_strlit("conflict");
    let t = mode_text(m);
    assert(eq_ignore_case(t, t));
    match m {
        OverwriteMode::Ignore => {},
        OverwriteMode::Replace => {
            assert(ascii_lower(t[0]) != ascii_lower("ignore"@[0]));
        },
        OverwriteMode::Update => {
            assert(ascii_lower(t[0]) != ascii_lower("ignore"@[0]));
        },
        OverwriteMode::Conflict => {
            assert(ascii_lower(t[0]) != ascii_lower("update"@[0]));
        },
    }
}

/// Mode names are read without regard to case: two texts that differ only
/// in the case of ASCII letters name the same mode, or none.
pub proof fn lemma_mode_name_ignores_case(s: Seq<char>, t: Seq<char>)
    requires
        eq_ignore_case(s, t),
    ensures
        mode_of_name(s) == mode_of_name(t),
{
    lemma_eq_ignore_case_trans(s, t, "ignore"@);
    lemma_eq_ignore_case_trans(s, t, "replace"@);
    lemma_eq_ignore_case_trans(s, t, "update"@);
    lemma_eq_ignore_case_trans(s, t, "conflict"@);
}

/// The names under which the overwrite modes are sent, one name for each
/// mode.
pub proof fn lemma_mode_names(a: OverwriteMode, b: OverwriteMode)
    ensures
        mode_text(OverwriteMode::Ignore) == "ignore"@,
        mode_text(OverwriteMode::Update) == "update"@,
        mode_text(OverwriteMode::Replace) == "replace"@,
        mode_text(OverwriteMode::Conflict) == "conflict"@,
        a != b ==> mode_text(a) != mode_text(b),
{
    lemma_mode_name_roundtrip(a);
    lemma_mode_name_roundtrip(b);
}

} // verus!
