//! `ruarango`: the request-building and response-classifying core of an
//! `ArangoDB` driver, verified with Verus.
//!
//! The library decides what each request sends and where: url paths and
//! query strings, conditional headers, login and client settings. It also
//! decides what a response means: which status stands for which error, which
//! items of a batch answer are results and which are errors. Sending the
//! requests and reading the bodies is left to the caller.

pub mod conn;
pub mod error;
pub mod header;
pub mod job;
pub mod model;
pub mod query;
pub mod response;
pub mod text;
pub mod url;

pub use conn::{AsyncKind, ConnectionBuilder};
pub use error::RuarangoErr;
pub use error::RuarangoErr as Error;
pub use job::JobInfo;
pub use model::BaseErr;
pub use model::{coll, cursor, db, doc, graph};
