use ruarango::doc::output::DocErr;
use ruarango::response::{cursor_response, doc_response, not_an_array, split_items, Either};
use ruarango::RuarangoErr;

fn doc_error() -> DocErr {
    DocErr {
        error: true,
        code: 409,
        error_num: 1210,
        error_message: None,
        key: None,
        id: None,
        rev: None,
    }
}

#[test]
fn doc_statuses() {
    assert_eq!(doc_response(200, None), Ok(()));
    assert_eq!(doc_response(201, None), Ok(()));
    assert_eq!(doc_response(202, None), Ok(()));
    assert_eq!(doc_response(404, None), Err(RuarangoErr::NotFound { err: None }));
    assert_eq!(doc_response(304, None), Err(RuarangoErr::NotModified));
    assert_eq!(
        doc_response(409, Some(doc_error())),
        Err(RuarangoErr::Conflict { err: Some(doc_error()) })
    );
    assert_eq!(
        doc_response(412, None),
        Err(RuarangoErr::PreconditionFailed { err: None })
    );
    assert_eq!(
        doc_response(500, None),
        Err(RuarangoErr::InvalidDocResponse { status: 500, err: None })
    );
}

#[test]
fn cursor_statuses() {
    assert_eq!(cursor_response(201, None), Ok(()));
    assert_eq!(cursor_response(202, None), Ok(()));
    assert_eq!(cursor_response(400, None), Err(RuarangoErr::Cursor { err: None }));
    assert_eq!(cursor_response(404, None), Err(RuarangoErr::Cursor { err: None }));
    assert_eq!(
        cursor_response(200, None),
        Err(RuarangoErr::InvalidCursorResponse { status: 200 })
    );
}

#[test]
fn batch_items() {
    let items: Vec<(Option<u32>, Option<&str>)> =
        vec![(Some(1), None), (None, Some("e")), (None, None), (Some(2), Some("x"))];
    assert_eq!(
        split_items(items),
        vec![Either::Right(1), Either::Left("e"), Either::Right(2)]
    );
    assert!(Either::<u8, u8>::Left(1).is_left());
    assert!(Either::<u8, u8>::Right(1).is_right());
}

#[test]
fn not_an_array_error() {
    assert_eq!(
        not_an_array().to_string(),
        "result was not an array!"
    );
}

#[test]
fn error_body_counts_only_for_conflict_and_precondition() {
    assert_eq!(doc_response(404, Some(doc_error())), doc_response(404, None));
    assert_eq!(doc_response(500, Some(doc_error())), doc_response(500, None));
    assert_eq!(doc_response(200, Some(doc_error())), Ok(()));
    assert_ne!(doc_response(412, Some(doc_error())), doc_response(412, None));
    assert_eq!(cursor_response(500, None), cursor_response(500, None));
    assert_eq!(cursor_response(203, None), Err(RuarangoErr::InvalidCursorResponse { status: 203 }));
}

#[test]
fn batch_items_keep_array_order() {
    let first: Vec<(Option<u32>, Option<&str>)> = vec![(None, Some("a")), (Some(1), None)];
    let second: Vec<(Option<u32>, Option<&str>)> = vec![(None, None), (Some(2), None)];
    let mut both = first.clone();
    both.extend(second.clone());
    let mut joined = split_items(first);
    joined.extend(split_items(second));
    assert_eq!(split_items(both), joined);
    assert_eq!(
        split_items(vec![(Some(3u32), Some("x")), (Some(4), None)]),
        vec![Either::<&str, u32>::Right(3), Either::Right(4)]
    );
}
