use ruarango::header::{one_header, HeaderKind};
use ruarango::url::request_url;
use ruarango::{AsyncKind, ConnectionBuilder, RuarangoErr};

#[test]
fn auth_request_defaults() {
    let req = ConnectionBuilder::new()
        .url("http://localhost:8529")
        .auth_request()
        .unwrap();
    assert_eq!(req.base_url, "http://localhost:8529/");
    assert_eq!(req.auth_url, "http://localhost:8529/_open/auth");
    assert_eq!(req.username, "root");
    assert_eq!(req.password, "");
}

#[test]
fn auth_request_errors() {
    assert_eq!(
        ConnectionBuilder::new().auth_request().unwrap_err(),
        RuarangoErr::InvalidConnectionUrl
    );
    let err = ConnectionBuilder::new().url("not a url").auth_request().unwrap_err();
    assert_eq!(
        err,
        RuarangoErr::BadUrl { context: "Unable to parse the base url".to_string() }
    );
    assert_eq!(err.to_string(), "Unable to parse the base url");
}

#[test]
fn settings_with_database_and_store() {
    let builder = ConnectionBuilder::new()
        .url("http://localhost:8529")
        .username("u")
        .password("p")
        .database("keti")
        .async_kind(AsyncKind::Store);
    let req = builder.auth_request().unwrap();
    assert_eq!(req.username, "u");
    assert_eq!(req.password, "p");
    let s = builder.connection_settings(&req.base_url, "jwt").unwrap();
    assert_eq!(s.db_url, "http://localhost:8529/_db/keti/");
    assert_eq!(s.bearer, "bearer jwt");
    assert!(s.is_async);
    assert_eq!(s.async_value.as_deref(), Some("store"));
}

#[test]
fn settings_without_database() {
    let builder = ConnectionBuilder::new()
        .url("http://localhost:8529")
        .async_kind(AsyncKind::FireAndForget);
    let s = builder
        .connection_settings("http://localhost:8529/", "t")
        .unwrap();
    assert_eq!(s.db_url, "http://localhost:8529/");
    assert_eq!(s.async_value.as_deref(), Some("true"));
    let sync = ConnectionBuilder::new().connection_settings("http://h/", "t").unwrap();
    assert!(!sync.is_async);
    assert!(sync.async_value.is_none());
}

#[test]
fn settings_refuse_bad_token() {
    let err = ConnectionBuilder::new()
        .connection_settings("http://h/", "a\u{7f}b")
        .unwrap_err();
    assert_eq!(err, RuarangoErr::InvalidHeader { value: "bearer a\u{7f}b".to_string() });
}

#[test]
fn async_kind_default() {
    assert_eq!(AsyncKind::default(), AsyncKind::Store);
    assert_eq!(AsyncKind::FireAndForget.header_value(), "true");
}

#[test]
fn request_urls() {
    assert_eq!(
        request_url("http://localhost:8529/_db/keti/", "_api/collection").unwrap(),
        "http://localhost:8529/_db/keti/_api/collection"
    );
    assert_eq!(
        request_url("nonsense", "_api").unwrap_err(),
        RuarangoErr::InvalidUrl { suffix: "_api".to_string() }
    );
}

#[test]
fn one_header_holds_its_value() {
    let h = one_header(HeaderKind::IfMatch, "a").unwrap();
    assert_eq!(h.keys_len(), 1);
    assert_eq!(h.len(), 1);
    assert_eq!(h.get("if-match").unwrap().to_str().unwrap(), "a");
    let h = one_header(HeaderKind::Rev, "tab\tok").unwrap();
    assert_eq!(h.get("rev").unwrap().to_str().unwrap(), "tab\tok");
    assert_eq!(
        one_header(HeaderKind::Rev, "\u{1}").unwrap_err(),
        RuarangoErr::InvalidHeader { value: "\u{1}".to_string() }
    );
}

#[test]
fn settings_report_url_crate_error() {
    let err = ConnectionBuilder::new()
        .database("d")
        .connection_settings("mailto:x", "t")
        .unwrap_err();
    assert_eq!(
        err,
        RuarangoErr::Url { msg: "relative URL with a cannot-be-a-base base".to_string() }
    );
    assert_eq!(err.to_string(), "relative URL with a cannot-be-a-base base");
    let bad = RuarangoErr::InvalidHeader { value: "a\u{7f}".to_string() };
    assert_eq!(bad.to_string(), "failed to parse header value");
}
