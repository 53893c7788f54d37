//! The errors of this library and their messages.

use crate::model::doc::output::{doc_err_text, DocErr};
use crate::model::{base_err_text, BaseErr};
use crate::text::{decimal, push_decimal};
use vstd::prelude::*;
use vstd::string::*;

verus! {

/// When bad things happen
#[derive(Clone, Debug, PartialEq, Eq)]
pub enum RuarangoErr {
    /// Invalid body error
    InvalidBody {
        /// error
        err: String,
        /// body
        body: String,
    },
    /// Unreachable
    Unreachable {
        /// message
        msg: String,
    },
    /// Invalid connection url
    InvalidConnectionUrl,
    /// invalid document response
    InvalidDocResponse {
        /// status
        status: u16,
        /// error
        err: Option<DocErr>,
    },
    /// Invalid cursor response
    InvalidCursorResponse {
        /// status
        status: u16,
    },
    /// Un-authorized
    Forbidden {
        /// error
        err: Option<DocErr>,
    },
    /// The request resource is not found
    NotFound {
        /// error
        err: Option<DocErr>,
    },
    /// Unmodified document
    NotModified,
    /// A precondition has failed
    PreconditionFailed {
        /// error
        err: Option<DocErr>,
    },
    /// A bad request was made
    BadRequest {
        /// error
        err: Option<DocErr>,
    },
    /// A conflict has occurred
    Conflict {
        /// error
        err: Option<DocErr>,
    },
    /// cursor request error
    Cursor {
        /// Error
        err: Option<BaseErr>,
    },
    /// A value that cannot be sent in an HTTP header; its message is that of
    /// the `http` crate's error for such a value
    InvalidHeader {
        /// the rejected value
        value: String,
    },
    /// A request url that cannot be made from the connection's url
    InvalidUrl {
        /// the path that could not be joined to the connection's url
        suffix: String,
    },
    /// A batch answer whose body is not an array
    NotAnArray,
    /// An error of the `url` crate, by its message
    Url {
        /// the message of the `url` crate's error
        msg: String,
    },
    /// A connection url that the url crate refused, with what was being
    /// done
    BadUrl {
        /// what was being done: parsing the url, or making the login url
        context: String,
    },
}

/// The text that stands for an optional document error.
pub open spec fn doc_err_spec(err: Option<DocErr>) -> Seq<char> {
    match err {
        Some(e) => doc_err_text(e),
        None => "No matching document found"@,
    }
}

/// The text that stands for an optional cursor error.
pub open spec fn base_err_spec(err: Option<BaseErr>) -> Seq<char> {
    match err {
        Some(e) => base_err_text(e),
        None => "cursor error"@,
    }
}

/// The message of each error.
pub open spec fn err_message(e: RuarangoErr) -> Seq<char> {
    match e {
        RuarangoErr::InvalidBody { err, body } => err@ + "\nInvalid Body: "@ + body@,
        RuarangoErr::Unreachable { msg } => "Unreachable: "@ + msg@,
        RuarangoErr::InvalidConnectionUrl => "You have supplied an invalid connection url"@,
        RuarangoErr::InvalidDocResponse { status, err } => "Invalid document response: "@
            + decimal(status as nat) + "\n"@ + doc_err_spec(err),
        RuarangoErr::InvalidCursorResponse { status } => "Invalid cursor response: "@ + decimal(
            status as nat,
        ),
        RuarangoErr::Forbidden { .. } => "You are not authorized to perform the request action"@,
        RuarangoErr::NotFound { .. } => "The server can not find the requested resource."@,
        RuarangoErr::NotModified => "The document you requested has not been modified"@,
        RuarangoErr::PreconditionFailed { err } => "A precondition has failed: '"@ + doc_err_spec(
            err,
        ) + "'"@,
        RuarangoErr::BadRequest { err } =>
            "The server could not understand the request due to invalid syntax.: '"@
            + doc_err_spec(err) + "'"@,
        RuarangoErr::Conflict { err } => "A conflict has occurred: '"@ + doc_err_spec(err) + "'"@,
        RuarangoErr::Cursor { err } => "A cursor request error has occurred: "@ + base_err_spec(
            err,
        ),
        RuarangoErr::InvalidHeader { .. } => "failed to parse header value"@,
        RuarangoErr::InvalidUrl { suffix } => "Unable to build '"@ + suffix@ + "' url"@,
        RuarangoErr::NotAnArray => "result was not an array!"@,
        RuarangoErr::Url { msg } => msg@,
        RuarangoErr::BadUrl { context } => context@,
    }
}

/// The text that stands for an optional document error.
pub fn doc_err(err: &Option<DocErr>) -> (r: String)
    ensures
        r@ == doc_err_spec(*err),
{
    match err {
        Some(e) => e.to_string(),
        None => String::from_str("No matching document found"),
    }
}

/// The text that stands for an optional cursor error.
pub fn base_err(err: &Option<BaseErr>) -> (r: String)
    ensures
        r@ == base_err_spec(*err),
{
    match err {
        Some(e) => e.to_string(),
        None => String::from_str("cursor error"),
    }
}

fn quoted(prefix: &str, middle: String) -> (r: String)
    ensures
        r@ == prefix@ + middle@ + "'"@,
{
    let mut s = String::from_str(prefix);
    s.append(middle.as_str());
    s.append("'");
    s
}

impl RuarangoErr {
    /// The message of this error.
    pub fn to_string(&self) -> (r: String)
        ensures
            r@ == err_message(*self),
    {
        match self {
            RuarangoErr::InvalidBody { err, body } => {
                let mut s = err.clone();
                s.append("\nInvalid Body: ");
                s.append(body.as_str());
                s
            },
            RuarangoErr::Unreachable { msg } => {
                let mut s = String::from_str("Unreachable: ");
                s.append(msg.as_str());
                s
            },
            RuarangoErr::InvalidConnectionUrl => String::from_str(
                "You have supplied an invalid connection url",
            ),
            RuarangoErr::InvalidDocResponse { status, err } => {
                let mut s = String::from_str("Invalid document response: ");
                push_decimal(&mut s, *status as u64);
                s.append("\n");
                let d = doc_err(err);
                s.append(d.as_str());
                s
            },
            RuarangoErr::InvalidCursorResponse { status } => {
                let mut s = String::from_str("Invalid cursor response: ");
                push_decimal(&mut s, *status as u64);
                s
            },
            RuarangoErr::Forbidden { .. } => String::from_str(
                "You are not authorized to perform the request action",
            ),
            RuarangoErr::NotFound { .. } => String::from_str(
                "The server can not find the requested resource.",
            ),
            RuarangoErr::NotModified => String::from_str(
                "The document you requested has not been modified",
            ),
            RuarangoErr::PreconditionFailed { err } => quoted(
                "A precondition has failed: '",
                doc_err(err),
            ),
            RuarangoErr::BadRequest { err } => quoted(
                "The server could not understand the request due to invalid syntax.: '",
                doc_err(err),
            ),
            RuarangoErr::Conflict { err } => quoted("A conflict has occurred: '", doc_err(err)),
            RuarangoErr::Cursor { err } => {
                let mut s = String::from_str("A cursor request error has occurred: ");
                let b = base_err(err);
                s.append(b.as_str());
                s
            },
            RuarangoErr::InvalidHeader { .. } => String::from_str("failed to parse header value"),
            RuarangoErr::InvalidUrl { suffix } => {
                let mut s = String::from_str("Unable to build '");
                s.append(suffix.as_str());
                s.append("' url");
                s
            },
            RuarangoErr::NotAnArray => String::from_str("result was not an array!"),
            RuarangoErr::Url { msg } => msg.clone(),
            RuarangoErr::BadUrl { context } => context.clone(),
        }
    }
}

/// Why a builder refused to build.
#[derive(Clone, Debug, PartialEq, Eq)]
pub enum BuilderError {
    /// A required field was never set
    UninitializedField(&'static str),
    /// The values that were set break a rule of the built type
    ValidationError(String),
}

/// The message of a builder error.
pub open spec fn builder_err_message(e: BuilderError) -> Seq<char> {
    match e {
        BuilderError::UninitializedField(f) => "`"@ + f@ + "` must be initialized"@,
        BuilderError::ValidationError(m) => m@,
    }
}

impl BuilderError {
    /// The message of this error.
    pub fn to_string(&self) -> (r: String)
        ensures
            r@ == builder_err_message(*self),
    {
        match self {
            BuilderError::UninitializedField(f) => {
                let mut s = String::from_str("`");
                s.append(f);
                s.append("` must be initialized");
                s
            },
            BuilderError::ValidationError(m) => m.clone(),
        }
    }
}

/// The messages of the errors that say what went wrong in fixed words, and
/// of a url that could not be built (`r` is what `to_string` gives).
pub proof fn lemma_fixed_messages(e: RuarangoErr, r: Seq<char>)
    requires
        r == err_message(e),
    ensures
        e is InvalidConnectionUrl ==> r == "You have supplied an invalid connection url"@,
        e is Forbidden ==> r == "You are not authorized to perform the request action"@,
        e is NotFound ==> r == "The server can not find the requested resource."@,
        e is NotModified ==> r == "The document you requested has not been modified"@,
        e is InvalidHeader ==> r == "failed to parse header value"@,
        e is NotAnArray ==> r == "result was not an array!"@,
        e matches RuarangoErr::InvalidUrl { suffix } ==> r == "Unable to build '"@ + suffix@
            + "' url"@,
        e matches RuarangoErr::Conflict { err } ==> (err is None ==> r
            == "A conflict has occurred: '"@ + "No matching document found"@ + "'"@),
{
}

} // verus!
