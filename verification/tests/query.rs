use ruarango::query::{add_qp, add_qps, prepend_sep, QpFlag, QueryParam};

#[test]
fn has_no_qp() {
    let mut result = String::new();
    assert_eq!("?", prepend_sep(&mut result, false));
}

#[test]
fn has_qp() {
    let mut result = String::new();
    assert_eq!("&", prepend_sep(&mut result, true));
}

#[test]
fn add_qp_unset_leaves_url() {
    let mut url = String::from("_api/x");
    let mut has_qp = false;
    add_qp(None, &mut url, &mut has_qp, QpFlag::WaitForSync);
    assert_eq!(url, "_api/x");
    assert!(!has_qp);
}

#[test]
fn add_qp_first_then_next() {
    let mut url = String::from("_api/x");
    let mut has_qp = false;
    add_qp(Some(true), &mut url, &mut has_qp, QpFlag::WaitForSync);
    add_qp(Some(false), &mut url, &mut has_qp, QpFlag::ReturnOld);
    assert_eq!(url, "_api/x?waitForSync=true&returnOld=false");
    assert!(has_qp);
}

#[test]
fn add_qps_overwrite_mode() {
    let mut url = String::from("a");
    let mut has_qp = true;
    add_qps(Some("update"), &mut url, &mut has_qp);
    assert_eq!(url, "a&overwriteMode=update");
}

#[test]
fn query_param_texts() {
    assert_eq!(QueryParam::DropCollection(true).to_query_text(), "dropCollection=true");
    assert_eq!(QueryParam::DropCollections(false).to_query_text(), "dropCollections=false");
    assert_eq!(QueryParam::OnlyGet.to_query_text(), "onlyget=true");
    assert_eq!(
        QueryParam::OverwriteMode("replace".to_string()).to_query_text(),
        "overwriteMode=replace"
    );
    assert_eq!(QueryParam::Silent(true).to_query_text(), "silent=true");
    assert_eq!(QpFlag::KeepNull.with_value(false).to_query_text(), "keepNull=false");
}
