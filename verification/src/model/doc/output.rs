//! Document output structs.

use crate::model::{opt_field, push_opt_field};
use crate::text::{bool_text, decimal, push_bool, push_decimal};
use vstd::prelude::*;
use vstd::string::*;

verus! {

/// Document metadata output
#[derive(Clone, Debug)]
pub struct DocMeta<N, O> {
    /// Contains the document key
    pub key: String,
    /// Contains the document identifier
    pub id: String,
    /// Contains the document revision
    pub rev: String,
    /// Contains the old document revision, for some `overwrite`s
    pub old_rev: Option<String>,
    /// Contains the new document, if `return_new` was enabled
    pub new_doc: Option<N>,
    /// Contains the old document, if `return_old` was enabled
    pub old_doc: Option<O>,
}

impl<N, O> DocMeta<N, O> {
    /// Contains the document key
    pub fn key(&self) -> (r: &String)
        ensures
            r@ == self.key@,
    {
        &self.key
    }

    /// Contains the document identifier
    pub fn id(&self) -> (r: &String)
        ensures
            r@ == self.id@,
    {
        &self.id
    }

    /// Contains the document revision
    pub fn rev(&self) -> (r: &String)
        ensures
            r@ == self.rev@,
    {
        &self.rev
    }

    /// Contains the old document revision, for some `overwrite`s
    pub fn old_rev(&self) -> (r: &Option<String>)
        ensures
            *r == self.old_rev,
    {
        &self.old_rev
    }

    /// Contains the new document, if `return_new` was enabled
    pub fn new_doc(&self) -> (r: &Option<N>)
        ensures
            *r == self.new_doc,
    {
        &self.new_doc
    }

    /// Contains the old document, if `return_old` was enabled
    pub fn old_doc(&self) -> (r: &Option<O>)
        ensures
            *r == self.old_doc,
    {
        &self.old_doc
    }
}

/// The error body that some document endpoints send on a failed
/// precondition or a conflict.
#[derive(Clone, Debug, PartialEq, Eq)]
pub struct DocErr {
    /// Is this an error?
    pub error: bool,
    /// The error code
    pub code: u16,
    /// The `ArangoDB` code
    pub error_num: usize,
    /// The error message
    pub error_message: Option<String>,
    /// Contains the document key
    pub key: Option<String>,
    /// Contains the document identifier
    pub id: Option<String>,
    /// Contains the document revision
    pub rev: Option<String>,
}

/// The text of a document error: flag, code and number, then each optional
/// field that is present, in a fixed order.
pub open spec fn doc_err_text(e: DocErr) -> Seq<char> {
    "error: "@ + bool_text(e.error) + ", code: "@ + decimal(e.code as nat) + ", error_num: "@
        + decimal(e.error_num as nat) + opt_field(", error_message: "@, e.error_message)
        + opt_field(", key: "@, e.key) + opt_field(", id: "@, e.id) + opt_field(", rev: "@, e.rev)
}

impl DocErr {
    /// Is this an error?
    pub fn error(&self) -> (r: &bool)
        ensures
            *r == self.error,
    {
        &self.error
    }

    /// The error code
    pub fn code(&self) -> (r: &u16)
        ensures
            *r == self.code,
    {
        &self.code
    }

    /// The `ArangoDB` code
    pub fn error_num(&self) -> (r: &usize)
        ensures
            *r == self.error_num,
    {
        &self.error_num
    }

    /// The error message
    pub fn error_message(&self) -> (r: &Option<String>)
        ensures
            *r == self.error_message,
    {
        &self.error_message
    }

    /// Contains the document key
    pub fn key(&self) -> (r: &Option<String>)
        ensures
            *r == self.key,
    {
        &self.key
    }

    /// Contains the document identifier
    pub fn id(&self) -> (r: &Option<String>)
        ensures
            *r == self.id,
    {
        &self.id
    }

    /// Contains the document revision
    pub fn rev(&self) -> (r: &Option<String>)
        ensures
            *r == self.rev,
    {
        &self.rev
    }

    /// The text of this error.
    pub fn to_string(&self) -> (r: String)
        ensures
            r@ == doc_err_text(*self),
    {
        let mut s = String::from_str("error: ");
        push_bool(&mut s, self.error);
        s.append(", code: ");
        push_decimal(&mut s, self.code as u64);
        s.append(", error_num: ");
        push_decimal(&mut s, self.error_num as u64);
        push_opt_field(&mut s, ", error_message: ", &self.error_message);
        push_opt_field(&mut s, ", key: ", &self.key);
        push_opt_field(&mut s, ", id: ", &self.id);
        push_opt_field(&mut s, ", rev: ", &self.rev);
        s
    }
}

} // verus!
