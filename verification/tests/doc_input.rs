use ruarango::doc::{
    DeletesConfigBuilder, ReadConfigBuilder, ReadsConfigBuilder, ReplaceConfigBuilder,
    ReplacesConfigBuilder, BASE_DOC_SUFFIX,
};
use ruarango::error::BuilderError;

const TEST_COLL: &str = "test_coll";
const TEST_KEY: &str = "test_key";

#[test]
fn deletes_url() -> Result<(), BuilderError> {
    let config = DeletesConfigBuilder::default()
        .collection(TEST_COLL)
        .documents(vec![TEST_KEY])
        .build()?;
    assert_eq!("_api/document/test_coll", config.build_suffix(BASE_DOC_SUFFIX));
    Ok(())
}

#[test]
fn deletes_wait_for_sync_url() -> Result<(), BuilderError> {
    let config = DeletesConfigBuilder::default()
        .collection(TEST_COLL)
        .documents(vec![TEST_KEY])
        .wait_for_sync(true)
        .build()?;
    assert_eq!(
        "_api/document/test_coll?waitForSync=true",
        config.build_suffix(BASE_DOC_SUFFIX)
    );
    Ok(())
}

#[test]
fn deletes_return_old_url() -> Result<(), BuilderError> {
    let config = DeletesConfigBuilder::default()
        .collection(TEST_COLL)
        .documents(vec![TEST_KEY])
        .return_old(true)
        .build()?;
    assert_eq!(
        "_api/document/test_coll?returnOld=true",
        config.build_suffix(BASE_DOC_SUFFIX)
    );
    Ok(())
}

#[test]
fn deletes_ignore_revs_url() -> Result<(), BuilderError> {
    let config = DeletesConfigBuilder::default()
        .collection(TEST_COLL)
        .documents(vec![TEST_KEY])
        .ignore_revs(true)
        .build()?;
    assert_eq!(
        "_api/document/test_coll?ignoreRevs=true",
        config.build_suffix(BASE_DOC_SUFFIX)
    );
    Ok(())
}

#[test]
fn deletes_all() -> Result<(), BuilderError> {
    let config = DeletesConfigBuilder::default()
        .collection(TEST_COLL)
        .documents(vec![TEST_KEY])
        .wait_for_sync(true)
        .ignore_revs(true)
        .return_old(true)
        .build()?;
    assert_eq!(
        "_api/document/test_coll?waitForSync=true&returnOld=true&ignoreRevs=true",
        config.build_suffix(BASE_DOC_SUFFIX)
    );
    Ok(())
}

#[test]
fn read_url() -> Result<(), BuilderError> {
    let config = ReadConfigBuilder::default()
        .collection(TEST_COLL)
        .key(TEST_KEY)
        .build()?;
    assert_eq!("_api/document/test_coll/test_key", config.build_suffix(BASE_DOC_SUFFIX));
    Ok(())
}

#[test]
fn has_if_match_header() -> Result<(), BuilderError> {
    let config = ReadConfigBuilder::default()
        .collection(TEST_COLL)
        .key(TEST_KEY)
        .if_match("_rev")
        .build()?;
    let headers_opt = config.add_headers().unwrap();
    assert!(headers_opt.is_some());
    assert_eq!(headers_opt.unwrap().keys_len(), 1);
    Ok(())
}

#[test]
fn has_if_none_match_header() -> Result<(), BuilderError> {
    let config = ReadConfigBuilder::default()
        .collection(TEST_COLL)
        .key(TEST_KEY)
        .if_none_match("_rev")
        .build()?;
    let headers_opt = config.add_headers().unwrap();
    assert!(headers_opt.is_some());
    assert_eq!(headers_opt.unwrap().keys_len(), 1);
    Ok(())
}

#[test]
fn has_no_header() -> Result<(), BuilderError> {
    let config = ReadConfigBuilder::default()
        .collection(TEST_COLL)
        .key(TEST_KEY)
        .build()?;
    let headers_opt = config.add_headers().unwrap();
    assert!(headers_opt.is_none());
    Ok(())
}

#[test]
fn reads_url() -> Result<(), BuilderError> {
    let config = ReadsConfigBuilder::default()
        .collection(TEST_COLL)
        .documents(vec![TEST_KEY])
        .build()?;
    assert_eq!(
        "_api/document/test_coll?onlyget=true",
        config.build_suffix(BASE_DOC_SUFFIX)
    );
    Ok(())
}

#[test]
fn reads_ignore_revs_url() -> Result<(), BuilderError> {
    let config = ReadsConfigBuilder::default()
        .collection(TEST_COLL)
        .documents(vec![TEST_KEY])
        .ignore_revs(true)
        .build()?;
    assert_eq!(
        "_api/document/test_coll?onlyget=true&ignoreRevs=true",
        config.build_suffix(BASE_DOC_SUFFIX)
    );
    Ok(())
}

const BASIC: &str = "_api/document/test_coll/test_key";

fn replace_builder() -> ReplaceConfigBuilder<&'static str> {
    ReplaceConfigBuilder::default()
        .collection(TEST_COLL)
        .key(TEST_KEY)
        .document("test")
}

#[test]
fn replace_url() -> Result<(), BuilderError> {
    let config = replace_builder().build()?;
    assert_eq!(BASIC, config.build_suffix(BASE_DOC_SUFFIX));
    Ok(())
}

#[test]
fn replace_wait_for_sync_url() -> Result<(), BuilderError> {
    let config = replace_builder().wait_for_sync(true).build()?;
    assert_eq!(
        format!("{BASIC}?waitForSync=true"),
        config.build_suffix(BASE_DOC_SUFFIX)
    );
    Ok(())
}

#[test]
fn replace_silent_url() -> Result<(), BuilderError> {
    let config = replace_builder().silent(true).build()?;
    assert_eq!(format!("{BASIC}?silent=true"), config.build_suffix(BASE_DOC_SUFFIX));
    Ok(())
}

#[test]
fn replace_silent_forces_no_return_url() -> Result<(), BuilderError> {
    let config = replace_builder()
        .silent(true)
        .return_old(true)
        .return_new(true)
        .build()?;
    assert_eq!(format!("{BASIC}?silent=true"), config.build_suffix(BASE_DOC_SUFFIX));
    Ok(())
}

#[test]
fn replace_return_old_url() -> Result<(), BuilderError> {
    let config = ReplaceConfigBuilder::default()
        .collection(TEST_COLL)
        .key(TEST_KEY)
        .document("test)")
        .return_old(true)
        .build()?;
    assert_eq!(format!("{BASIC}?returnOld=true"), config.build_suffix(BASE_DOC_SUFFIX));
    Ok(())
}

#[test]
fn replace_return_new_url() -> Result<(), BuilderError> {
    let config = ReplaceConfigBuilder::default()
        .collection(TEST_COLL)
        .key(TEST_KEY)
        .document("test)")
        .return_new(true)
        .build()?;
    assert_eq!(format!("{BASIC}?returnNew=true"), config.build_suffix(BASE_DOC_SUFFIX));
    Ok(())
}

#[test]
fn replace_wait_silent() -> Result<(), BuilderError> {
    let config = replace_builder().wait_for_sync(true).silent(true).build()?;
    assert_eq!(
        format!("{BASIC}?waitForSync=true&silent=true"),
        config.build_suffix(BASE_DOC_SUFFIX)
    );
    Ok(())
}

#[test]
fn replace_wait_return_old() -> Result<(), BuilderError> {
    let config = replace_builder().wait_for_sync(true).return_old(true).build()?;
    assert_eq!(
        format!("{BASIC}?waitForSync=true&returnOld=true"),
        config.build_suffix(BASE_DOC_SUFFIX)
    );
    Ok(())
}

#[test]
fn replace_wait_return_new() -> Result<(), BuilderError> {
    let config = replace_builder().wait_for_sync(true).return_new(true).build()?;
    assert_eq!(
        format!("{BASIC}?waitForSync=true&returnNew=true"),
        config.build_suffix(BASE_DOC_SUFFIX)
    );
    Ok(())
}

#[test]
fn replace_wait_returns() -> Result<(), BuilderError> {
    let config = replace_builder()
        .wait_for_sync(true)
        .return_old(true)
        .return_new(true)
        .build()?;
    assert_eq!(
        format!("{BASIC}?waitForSync=true&returnNew=true&returnOld=true"),
        config.build_suffix(BASE_DOC_SUFFIX)
    );
    Ok(())
}

#[test]
fn has_header() -> Result<(), BuilderError> {
    let config = replace_builder().if_match("_rev").build()?;
    let headers_opt = config.add_headers().unwrap();
    assert!(headers_opt.is_some());
    assert_eq!(headers_opt.unwrap().keys_len(), 1);
    Ok(())
}

const DOCS: [&str; 1] = ["test"];

#[test]
fn replaces_url() -> Result<(), BuilderError> {
    let config = ReplacesConfigBuilder::default()
        .collection(TEST_COLL)
        .documents(DOCS.to_vec())
        .build()?;
    assert_eq!("_api/document/test_coll", config.build_suffix(BASE_DOC_SUFFIX));
    Ok(())
}

#[test]
fn replaces_wait_for_sync_url() -> Result<(), BuilderError> {
    let config = ReplacesConfigBuilder::default()
        .collection(TEST_COLL)
        .documents(DOCS.to_vec())
        .wait_for_sync(true)
        .build()?;
    assert_eq!(
        "_api/document/test_coll?waitForSync=true",
        config.build_suffix(BASE_DOC_SUFFIX)
    );
    Ok(())
}

#[test]
fn replaces_return_old_url() -> Result<(), BuilderError> {
    let config = ReplacesConfigBuilder::default()
        .collection(TEST_COLL)
        .documents(DOCS.to_vec())
        .return_old(true)
        .build()?;
    assert_eq!(
        "_api/document/test_coll?returnOld=true",
        config.build_suffix(BASE_DOC_SUFFIX)
    );
    Ok(())
}

#[test]
fn replaces_return_new_url() -> Result<(), BuilderError> {
    let config = ReplacesConfigBuilder::default()
        .collection(TEST_COLL)
        .documents(DOCS.to_vec())
        .return_new(true)
        .build()?;
    assert_eq!(
        "_api/document/test_coll?returnNew=true",
        config.build_suffix(BASE_DOC_SUFFIX)
    );
    Ok(())
}

#[test]
fn replaces_wait_return_old() -> Result<(), BuilderError> {
    let config = ReplacesConfigBuilder::default()
        .collection(TEST_COLL)
        .documents(DOCS.to_vec())
        .wait_for_sync(true)
        .return_old(true)
        .build()?;
    assert_eq!(
        "_api/document/test_coll?waitForSync=true&returnOld=true",
        config.build_suffix(BASE_DOC_SUFFIX)
    );
    Ok(())
}

#[test]
fn replaces_wait_return_new() -> Result<(), BuilderError> {
    let config = ReplacesConfigBuilder::default()
        .collection(TEST_COLL)
        .documents(DOCS.to_vec())
        .wait_for_sync(true)
        .return_new(true)
        .build()?;
    assert_eq!(
        "_api/document/test_coll?waitForSync=true&returnNew=true",
        config.build_suffix(BASE_DOC_SUFFIX)
    );
    Ok(())
}

#[test]
fn replaces_wait_returns() -> Result<(), BuilderError> {
    let config = ReplacesConfigBuilder::default()
        .collection(TEST_COLL)
        .documents(DOCS.to_vec())
        .wait_for_sync(true)
        .return_old(true)
        .return_new(true)
        .build()?;
    assert_eq!(
        "_api/document/test_coll?waitForSync=true&returnNew=true&returnOld=true",
        config.build_suffix(BASE_DOC_SUFFIX)
    );
    Ok(())
}

use ruarango::doc::{CreatesConfigBuilder, OverwriteMode, UpdatesConfigBuilder};

#[test]
fn creates_url_orders_params() -> Result<(), BuilderError> {
    let config = CreatesConfigBuilder::default()
        .collection(TEST_COLL)
        .document(vec![TEST_KEY])
        .wait_for_sync(true)
        .return_new(true)
        .return_old(false)
        .overwrite_mode(OverwriteMode::Update)
        .keep_null(false)
        .merge_objects(true)
        .build()?;
    assert_eq!(
        "_api/document/test_coll?waitForSync=true&returnNew=true&returnOld=false&overwriteMode=update&keepNull=false&mergeObjects=true",
        config.build_suffix(BASE_DOC_SUFFIX)
    );
    Ok(())
}

#[test]
fn creates_silent_drops_returns() -> Result<(), BuilderError> {
    let config = CreatesConfigBuilder::default()
        .collection(TEST_COLL)
        .document(vec![TEST_KEY])
        .silent(false)
        .return_new(true)
        .build()?;
    assert_eq!(
        "_api/document/test_coll?silent=false&returnNew=true",
        config.build_suffix(BASE_DOC_SUFFIX)
    );
    let config = CreatesConfigBuilder::default()
        .collection(TEST_COLL)
        .document(vec![TEST_KEY])
        .silent(true)
        .return_new(true)
        .build()?;
    assert_eq!(
        "_api/document/test_coll?silent=true",
        config.build_suffix(BASE_DOC_SUFFIX)
    );
    Ok(())
}

#[test]
fn creates_mode_supersedes_overwrite() -> Result<(), BuilderError> {
    let config = CreatesConfigBuilder::default()
        .collection(TEST_COLL)
        .document(vec![TEST_KEY])
        .overwrite(true)
        .overwrite_mode(OverwriteMode::Replace)
        .keep_null(true)
        .build()?;
    assert_eq!(
        "_api/document/test_coll?overwriteMode=replace",
        config.build_suffix(BASE_DOC_SUFFIX)
    );
    let plain = CreatesConfigBuilder::default()
        .collection(TEST_COLL)
        .document(vec![TEST_KEY])
        .overwrite(true)
        .build()?;
    assert_eq!(
        "_api/document/test_coll?overwrite=true",
        plain.build_suffix(BASE_DOC_SUFFIX)
    );
    Ok(())
}

#[test]
fn creates_missing_document_errors() {
    match CreatesConfigBuilder::<&str>::default().collection(TEST_COLL).build() {
        Err(e) => assert_eq!(e.to_string(), "`document` must be initialized"),
        Ok(_) => panic!("The builder should fail!"),
    }
}

#[test]
fn updates_url_all() -> Result<(), BuilderError> {
    let config = UpdatesConfigBuilder::default()
        .collection(TEST_COLL)
        .documents(vec![TEST_KEY])
        .ignore_revs(false)
        .keep_null(true)
        .wait_for_sync(true)
        .build()?;
    assert_eq!(
        "_api/document/test_coll?waitForSync=true&keepNull=true&ignoreRevs=false",
        config.build_suffix(BASE_DOC_SUFFIX)
    );
    Ok(())
}

#[test]
fn read_if_match_wins_over_if_none_match() -> Result<(), BuilderError> {
    let config = ReadConfigBuilder::default()
        .collection(TEST_COLL)
        .key(TEST_KEY)
        .if_none_match("b")
        .if_match("a")
        .build()?;
    let headers = config.add_headers().unwrap().unwrap();
    assert_eq!(headers.len(), 1);
    assert_eq!(headers.get("if-match").unwrap().to_str().unwrap(), "a");
    Ok(())
}

#[test]
fn read_invalid_header_value_errors() -> Result<(), BuilderError> {
    let config = ReadConfigBuilder::default()
        .collection(TEST_COLL)
        .key(TEST_KEY)
        .if_match("bad\nrev")
        .build()?;
    match config.add_headers() {
        Err(ruarango::RuarangoErr::InvalidHeader { value }) => assert_eq!(value, "bad\nrev"),
        _ => panic!("the header should be refused"),
    }
    Ok(())
}

#[test]
fn overwrite_mode_names() {
    assert_eq!(OverwriteMode::Ignore.as_str(), "ignore");
    assert_eq!(OverwriteMode::Conflict.to_string(), "conflict");
    assert_eq!(OverwriteMode::from_name("RePlAcE"), Some(OverwriteMode::Replace));
    assert_eq!(OverwriteMode::from_name("update"), Some(OverwriteMode::Update));
    assert_eq!(OverwriteMode::from_name("updates"), None);
    for m in [
        OverwriteMode::Ignore,
        OverwriteMode::Update,
        OverwriteMode::Replace,
        OverwriteMode::Conflict,
    ] {
        assert_eq!(OverwriteMode::from_name(m.as_str()), Some(m));
    }
}

#[test]
fn updates_url_every_flag_once() -> Result<(), BuilderError> {
    let config = UpdatesConfigBuilder::default()
        .collection(TEST_COLL)
        .documents(vec![TEST_KEY])
        .wait_for_sync(true)
        .return_new(true)
        .return_old(false)
        .keep_null(true)
        .merge_objects(false)
        .ignore_revs(true)
        .build()?;
    let url = config.build_suffix(BASE_DOC_SUFFIX);
    assert_eq!(url.matches('?').count(), 1);
    assert_eq!(url.matches('&').count(), 5);
    assert_eq!(
        "_api/document/test_coll?waitForSync=true&returnNew=true&returnOld=false&keepNull=true&mergeObjects=false&ignoreRevs=true",
        url
    );
    Ok(())
}
