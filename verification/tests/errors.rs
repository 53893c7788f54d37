use ruarango::doc::output::DocErr;
use ruarango::error::{base_err, doc_err};
use ruarango::text::decimal_text;
use ruarango::{BaseErr, RuarangoErr};

fn doc_error() -> DocErr {
    DocErr {
        error: true,
        code: 412,
        error_num: 1200,
        error_message: Some("conflict".to_string()),
        key: Some("k".to_string()),
        id: None,
        rev: Some("r".to_string()),
    }
}

#[test]
fn decimal_texts() {
    assert_eq!(decimal_text(0), "0");
    assert_eq!(decimal_text(7), "7");
    assert_eq!(decimal_text(200), "200");
    assert_eq!(decimal_text(u64::MAX), u64::MAX.to_string());
}

#[test]
fn doc_err_text() {
    assert_eq!(
        doc_error().to_string(),
        "error: true, code: 412, error_num: 1200, error_message: conflict, key: k, rev: r"
    );
    assert_eq!(doc_err(&None), "No matching document found");
    assert_eq!(doc_err(&Some(doc_error())), doc_error().to_string());
}

#[test]
fn base_err_text() {
    let e = BaseErr { error: true, code: 404, error_num: 1203, error_message: None };
    assert_eq!(e.to_string(), "error: true, code: 404, error_num: 1203");
    assert_eq!(base_err(&None), "cursor error");
}

#[test]
fn error_messages() {
    assert_eq!(
        RuarangoErr::InvalidConnectionUrl.to_string(),
        "You have supplied an invalid connection url"
    );
    assert_eq!(
        RuarangoErr::InvalidDocResponse { status: 500, err: None }.to_string(),
        "Invalid document response: 500\nNo matching document found"
    );
    assert_eq!(
        RuarangoErr::InvalidCursorResponse { status: 418 }.to_string(),
        "Invalid cursor response: 418"
    );
    assert_eq!(
        RuarangoErr::Conflict { err: None }.to_string(),
        "A conflict has occurred: 'No matching document found'"
    );
    assert_eq!(
        RuarangoErr::Cursor { err: None }.to_string(),
        "A cursor request error has occurred: cursor error"
    );
    assert_eq!(
        RuarangoErr::InvalidBody { err: "e".to_string(), body: "b".to_string() }.to_string(),
        "e\nInvalid Body: b"
    );
    assert_eq!(
        RuarangoErr::NotModified.to_string(),
        "The document you requested has not been modified"
    );
}
