//! Input and output models of the `ArangoDB` HTTP API.

use crate::text::{bool_text, decimal, push_bool, push_decimal};
use vstd::prelude::*;
use vstd::string::*;

pub mod coll;
pub mod cursor;
pub mod db;
pub mod doc;
pub mod graph;

verus! {

/// The error body that the server sends with a failed request.
#[derive(Clone, Debug, PartialEq, Eq)]
pub struct BaseErr {
    /// Is this an error?
    pub error: bool,
    /// The error code
    pub code: u16,
    /// The `ArangoDB` code
    pub error_num: usize,
    /// The error message
    pub error_message: Option<String>,
}

/// `label` and the text held in `v`, or nothing when `v` is `None`.
pub open spec fn opt_field(label: Seq<char>, v: Option<String>) -> Seq<char> {
    match v {
        Some(s) => label + s@,
        None => Seq::empty(),
    }
}

/// Appends `label` and the text held in `v`, when there is one.
pub fn push_opt_field(s: &mut String, label: &str, v: &Option<String>)
    ensures
        final(s)@ == old(s)@ + opt_field(label@, *v),
{
    match v {
        Some(t) => {
            s.append(label);
            s.append(t.as_str());
        },
        None => {
            proof {
                assert(old(s)@ + opt_field(label@, *v) =~= old(s)@);
            }
        },
    }
}

/// The text of a base error: its flag, code, number and message, when there
/// is one.
pub open spec fn base_err_text(e: BaseErr) -> Seq<char> {
    "error: "@ + bool_text(e.error) + ", code: "@ + decimal(e.code as nat) + ", error_num: "@
        + decimal(e.error_num as nat) + opt_field(", error_message: "@, e.error_message)
}

impl BaseErr {
    /// Is this an error?
    pub fn error(&self) -> (r: &bool)
        ensures
            *r == self.error,
    {
        &self.error
    }

    /// The error code
    pub fn code(&self) -> (r: &u16)
        ensures
            *r == self.code,
    {
        &self.code
    }

    /// The `ArangoDB` code
    pub fn error_num(&self) -> (r: &usize)
        ensures
            *r == self.error_num,
    {
        &self.error_num
    }

    /// The error message
    pub fn error_message(&self) -> (r: &Option<String>)
        ensures
            *r == self.error_message,
    {
        &self.error_message
    }

    /// The text of this error.
    pub fn to_string(&self) -> (r: String)
        ensures
            r@ == base_err_text(*self),
    {
        let mut s = String::from_str("error: ");
        push_bool(&mut s, self.error);
        s.append(", code: ");
        push_decimal(&mut s, self.code as u64);
        s.append(", error_num: ");
        push_decimal(&mut s, self.error_num as u64);
        push_opt_field(&mut s, ", error_message: ", &self.error_message);
        s
    }
}

} // verus!
