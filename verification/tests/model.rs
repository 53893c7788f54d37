use ruarango::coll::{
    checksum_suffix, collection_suffix, collections_suffix, drop_suffix, op_suffix,
    CollectionKind, CollectionOp, Status,
};
use ruarango::cursor::{CreateConfigBuilder as CursorConfigBuilder, ProfileKind};
use ruarango::db::{self, CreateBuilder, Current, OptionsBuilder, UserBuilder};
use ruarango::job::{job_suffix, JOBS_DONE_SUFFIX};
use ruarango::JobInfo;

#[test]
fn batch_size_zero_errors() {
    match CursorConfigBuilder::default().batch_size(0).build() {
        Ok(_) => panic!("The builder should fail!"),
        Err(e) => assert_eq!("batch_size cannot be 0!", e.to_string()),
    }
}

#[test]
fn cursor_config_keeps_values() {
    let config = CursorConfigBuilder::default()
        .query("FOR d IN c RETURN d")
        .batch_size(10)
        .count(true)
        .build()
        .unwrap();
    assert_eq!(config.query(), "FOR d IN c RETURN d");
    assert_eq!(config.batch_size(), &Some(10));
    assert_eq!(config.count(), &Some(true));
    assert_eq!(config.build_suffix("_api/cursor"), "_api/cursor");
    assert_eq!(ProfileKind::WithStats.code(), 2);
}

#[test]
fn current_builder_fails_when_missing_name() {
    assert!(CreateBuilder::default().build().is_err());
}

#[test]
fn db_create_builder() {
    let options = OptionsBuilder::default().build().unwrap();
    let users = UserBuilder::default()
        .username("test")
        .password("test")
        .active(true)
        .build()
        .unwrap();
    let create = CreateBuilder::default()
        .name("test_db")
        .options(options)
        .users(vec![users])
        .build()
        .unwrap();
    assert_eq!(create.name(), "test_db");
    assert_eq!(create.users().as_ref().unwrap()[0].username(), "test");
    assert!(*create.users().as_ref().unwrap()[0].active());
    assert_eq!(db::drop_suffix("test_db"), "_api/database/test_db");
    let current = Current::default();
    assert_eq!(current.name(), "test");
    assert_eq!(current.id(), "123");
    assert!(!current.is_system());
    assert_eq!(current.path(), "abcdef");
}

#[test]
fn collection_paths() {
    assert_eq!(collections_suffix(true), "_api/collection?excludeSystem=true");
    assert_eq!(collections_suffix(false), "_api/collection");
    assert_eq!(collection_suffix("keti"), "_api/collection/keti");
    assert_eq!(drop_suffix("test_coll", false), "_api/collection/test_coll");
    assert_eq!(drop_suffix("_sys", true), "_api/collection/_sys?isSystem=true");
    assert_eq!(
        op_suffix("test_coll", CollectionOp::LoadIndexes),
        "_api/collection/test_coll/loadIndexesIntoMemory"
    );
    assert_eq!(
        op_suffix("test_coll", CollectionOp::RecalculateCount),
        "_api/collection/test_coll/recalculateCount"
    );
}

#[test]
fn checksum_paths() {
    assert_eq!(
        checksum_suffix("test_coll", false, false),
        "_api/collection/test_coll/checksum"
    );
    assert_eq!(
        checksum_suffix("test_coll", true, false),
        "_api/collection/test_coll/checksum?withRevisions=true"
    );
    assert_eq!(
        checksum_suffix("test_coll", false, true),
        "_api/collection/test_coll/checksum?withData=true"
    );
    assert_eq!(
        checksum_suffix("test_coll", true, true),
        "_api/collection/test_coll/checksum?withRevisions=true&withData=true"
    );
}

#[test]
fn kind_and_status_codes() {
    assert_eq!(CollectionKind::from_code(2), Some(CollectionKind::Document));
    assert_eq!(CollectionKind::from_code(3), Some(CollectionKind::Edges));
    assert_eq!(CollectionKind::from_code(4), None);
    assert_eq!(CollectionKind::Edges.code(), 3);
    assert_eq!(Status::from_code(3), Status::Loaded);
    assert_eq!(Status::from_code(1), Status::Unknown);
    assert_eq!(Status::from_code(99), Status::Unknown);
    for s in [
        Status::Unknown,
        Status::Unloaded,
        Status::Loaded,
        Status::Unloading,
        Status::Deleted,
        Status::Loading,
    ] {
        assert_eq!(Status::from_code(s.code()), s);
    }
}

#[test]
fn job_paths_and_info() {
    assert_eq!(job_suffix("123456"), "_api/job/123456");
    assert_eq!(JOBS_DONE_SUFFIX, "_api/job/done#by-type");
    let info = JobInfo::new(202, Some("123456".to_string()));
    assert_eq!(*info.code(), 202);
    assert_eq!(info.id().as_deref(), Some("123456"));
}
