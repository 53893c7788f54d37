//! Connection settings: the builder, the login request and the settings of
//! the clients that talk to the server.

use crate::error::RuarangoErr;
use crate::header::{checked_header_value, valid_header_value};
use crate::url::{joined_url, parsed_url, url_join, url_parse};
use vstd::prelude::*;
use vstd::string::*;

verus! {

/// The kind of asynchronous request you would like to make
#[derive(Clone, Copy, Debug, PartialEq, Eq, Structural)]
pub enum AsyncKind {
    /// This will add the HTTP header `x-arango-async: true` to client requests
    /// and `ArangoDB` will put the request into an in-memory task queue and
    /// return an HTTP 202 (accepted) response to the client instantly.
    FireAndForget,
    /// This will add the HTTP header `x-arango-async: store` to a request:
    /// the server runs the operation asynchronously and also stores its
    /// result for a later retrieval.
    Store,
}

impl Default for AsyncKind {
    fn default() -> (r: Self)
        ensures
            r == AsyncKind::Store,
    {
        AsyncKind::Store
    }
}

/// The value of the `x-arango-async` header for each kind.
pub open spec fn async_header_text(k: AsyncKind) -> Seq<char> {
    match k {
        AsyncKind::FireAndForget => "true"@,
        AsyncKind::Store => "store"@,
    }
}

impl AsyncKind {
    /// The value of the `x-arango-async` header for this kind.
    pub fn header_value(self) -> (r: &'static str)
        ensures
            r@ == async_header_text(self),
    {
        match self {
            AsyncKind::FireAndForget => "true",
            AsyncKind::Store => "store",
        }
    }
}

/// An `ArangoDB` connection builder
#[derive(Clone, Debug, Default)]
pub struct ConnectionBuilder {
    /// The url used to connect to `ArangoDB`
    pub url: Option<String>,
    /// An optional username, defaults to 'root'
    pub username: Option<String>,
    /// An optional password, defaults to ''
    pub password: Option<String>,
    /// An optional database to use; when unset the `_system` database is used
    pub database: Option<String>,
    /// Make requests asynchronously
    pub async_kind: Option<AsyncKind>,
}

/// The login request that opens a connection.
#[derive(Clone, Debug)]
pub struct AuthRequest {
    /// The url of the server, as the url crate writes it
    pub base_url: String,
    /// The url of the login endpoint
    pub auth_url: String,
    /// The user to log in as
    pub username: String,
    /// The password of that user
    pub password: String,
}

/// What the clients of a connection are set up with, once logged in.
#[derive(Clone, Debug)]
pub struct ConnectionSettings {
    /// The url of the server
    pub base_url: String,
    /// The url under which the database's endpoints lie
    pub db_url: String,
    /// The value of the `authorization` header
    pub bearer: String,
    /// The value of the `x-arango-async` header of the asynchronous client,
    /// when requests are made asynchronously
    pub async_value: Option<String>,
    /// Are requests made asynchronously?
    pub is_async: bool,
}

/// `text` when it is set, else `default`.
pub open spec fn text_or(o: Option<String>, default: Seq<char>) -> Seq<char> {
    match o {
        Some(s) => s@,
        None => default,
    }
}

/// The path of the database `db` relative to the server: `_db/<db>/`.
pub open spec fn db_path(db: Seq<char>) -> Seq<char> {
    "_db/"@ + db + "/"@
}

/// The value of the `authorization` header for the token `jwt`.
pub open spec fn bearer_text(jwt: Seq<char>) -> Seq<char> {
    "bearer "@ + jwt
}

impl ConnectionBuilder {
    /// Create a new connection builder
    pub fn new() -> (r: Self)
        ensures
            r.url is None && r.username is None && r.password is None && r.database is None
                && r.async_kind is None,
    {
        ConnectionBuilder {
            url: None,
            username: None,
            password: None,
            database: None,
            async_kind: None,
        }
    }

    /// Set the url to use for this connection
    pub fn url(self, url: &str) -> (r: Self)
        ensures
            r == (Self { url: r.url, ..self }),
            r.url matches Some(s) && s@ == url@,
    {
        Self { url: Some(String::from_str(url)), ..self }
    }

    /// Set the username to use for this connection
    pub fn username(self, username: &str) -> (r: Self)
        ensures
            r == (Self { username: r.username, ..self }),
            r.username matches Some(s) && s@ == username@,
    {
        Self { username: Some(String::from_str(username)), ..self }
    }

    /// Set the password to use for this connection
    pub fn password(self, password: &str) -> (r: Self)
        ensures
            r == (Self { password: r.password, ..self }),
            r.password matches Some(s) && s@ == password@,
    {
        Self { password: Some(String::from_str(password)), ..self }
    }

    /// Set the database to use for this connection
    pub fn database(self, database: &str) -> (r: Self)
        ensures
            r == (Self { database: r.database, ..self }),
            r.database matches Some(s) && s@ == database@,
    {
        Self { database: Some(String::from_str(database)), ..self }
    }

    /// Make the requests of this connection asynchronously
    pub fn async_kind(self, kind: AsyncKind) -> (r: Self)
        ensures
            r == (Self { async_kind: Some(kind), ..self }),
    {
        Self { async_kind: Some(kind), ..self }
    }

    /// The login request: to `<url>/_open/auth`, as the set user (`root` by
    /// default) with the set password (empty by default). Fails with
    /// `InvalidConnectionUrl` when no url is set, and with `BadUrl` when the
    /// url does not parse or when the login url cannot be made from it.
    pub fn auth_request(&self) -> (r: Result<AuthRequest, RuarangoErr>)
        ensures
            self.url is None ==> r matches Err(RuarangoErr::InvalidConnectionUrl),
            self.url matches Some(u) ==> match parsed_url(u@) {
                None => r matches Err(RuarangoErr::BadUrl { context }) && context@
                    == "Unable to parse the base url"@,
                Some(base) => match joined_url(base, "_open/auth"@) {
                    Err(_) => r matches Err(RuarangoErr::BadUrl { context }) && context@
                        == "Unable to parse the auth url"@,
                    Ok(auth) => r matches Ok(a) && a.base_url@ == base && a.auth_url@ == auth
                        && a.username@ == text_or(self.username, "root"@) && a.password@
                        == text_or(self.password, ""@),
                },
            },
    {
        let url = match &self.url {
            Some(u) => u,
            None => return Err(RuarangoErr::InvalidConnectionUrl),
        };
        let base_url = match url_parse(url.as_str()) {
            Some(b) => b,
            None => return Err(
                RuarangoErr::BadUrl { context: String::from_str("Unable to parse the base url") },
            ),
        };
        let auth_url = match url_join(base_url.as_str(), "_open/auth") {
            Ok(a) => a,
            Err(_) => return Err(
                RuarangoErr::BadUrl { context: String::from_str("Unable to parse the auth url") },
            ),
        };
        let username = match &self.username {
            Some(u) => u.clone(),
            None => String::from_str("root"),
        };
        let password = match &self.password {
            Some(p) => p.clone(),
            None => {
                proof {
                    reveal_strlit("");
                }
                String::new()
            },
        };
        Ok(AuthRequest { base_url, auth_url, username, password })
    }

    /// The settings of the connection's clients once the login at `base_url`
    /// has given the token `jwt`: the database url (`<base>/_db/<db>/` when
    /// a database is set, the base url otherwise), the `authorization` value
    /// `bearer <jwt>`, and the `x-arango-async` value of the set kind. Fails
    /// with the `url` crate's error when the database url cannot be made, and
    /// with `InvalidHeader` when the token cannot be sent in a header.
    pub fn connection_settings(&self, base_url: &str, jwt: &str) -> (r: Result<
        ConnectionSettings,
        RuarangoErr,
    >)
        ensures
            self.database matches Some(db) ==> (joined_url(base_url@, db_path(db@)) matches Err(m)
                ==> (r matches Err(RuarangoErr::Url { msg }) && msg@ == m)),
            (self.database matches Some(db) ==> joined_url(base_url@, db_path(db@)) is Ok) ==> {
                let db_url = match self.database {
                    Some(db) => joined_url(base_url@, db_path(db@))->Ok_0,
                    None => base_url@,
                };
                if valid_header_value(bearer_text(jwt@)) {
                    r matches Ok(s) && s.base_url@ == base_url@ && s.db_url@ == db_url
                        && s.bearer@ == bearer_text(jwt@) && s.is_async == (self.async_kind is Some)
                        && match self.async_kind {
                        Some(k) => s.async_value matches Some(v) && v@ == async_header_text(k),
                        None => s.async_value is None,
                    }
                } else {
                    r matches Err(RuarangoErr::InvalidHeader { value }) && value@ == bearer_text(
                        jwt@,
                    )
                }
            },
    {
        let db_url = match &self.database {
            Some(db) => {
                let mut path = String::from_str("_db/");
                path.append(db.as_str());
                path.append("/");
                match url_join(base_url, path.as_str()) {
                    Ok(u) => u,
                    Err(msg) => return Err(RuarangoErr::Url { msg }),
                }
            },
            None => String::from_str(base_url),
        };
        let mut bearer = String::from_str("bearer ");
        bearer.append(jwt);
        let bearer = checked_header_value(bearer.as_str())?;
        let (is_async, async_value) = match self.async_kind {
            Some(kind) => (true, Some(String::from_str(kind.header_value()))),
            None => (false, None),
        };
        Ok(
            ConnectionSettings {
                base_url: String::from_str(base_url),
                db_url,
                bearer,
                async_value,
                is_async,
            },
        )
    }
}

/// The texts of a connection: the login goes as the set user and password,
/// `root` and the empty password when unset; the database url is the base
/// url joined with `_db/<db>/`; the `authorization` value is `bearer ` and
/// the token; the `x-arango-async` value is `true` for fire-and-forget and
/// `store` for store.
pub proof fn lemma_connection_texts(o: Option<String>, db: Seq<char>, jwt: Seq<char>)
    ensures
        o matches Some(s) ==> text_or(o, "root"@) == s@,
        o is None ==> text_or(o, "root"@) == "root"@,
        o is None ==> text_or(o, ""@) == ""@,
        db_path(db) == "_db/"@ + db + "/"@,
        bearer_text(jwt) == "bearer "@ + jwt,
        async_header_text(AsyncKind::FireAndForget) == "true"@,
        async_header_text(AsyncKind::Store) == "store"@,
{
}

} // verus!
