use ruarango::error::BuilderError;
use ruarango::graph::input::{
    CreateConfigBuilder, DeleteVertexCollConfigBuilder, DeleteVertexConfigBuilder,
    EdgeCreateConfigBuilder, EdgeReadConfigBuilder, FromToBuilder, GraphMetaBuilder,
    ReadVertexConfigBuilder, UpdateVertexConfigBuilder,
};
use ruarango::graph::{EdgeDefinition, EdgeDefinitionBuilder, BASE_GRAPH_SUFFIX};

fn ve(vec: Vec<&str>) -> Vec<String> {
    vec.into_iter().map(str::to_string).collect()
}

fn edge_definition() -> Result<Vec<EdgeDefinition>, BuilderError> {
    let ed = EdgeDefinitionBuilder::default()
        .collection("test_edge")
        .from(ve(vec!["test_coll"]))
        .to(ve(vec!["test_coll"]))
        .build()?;
    Ok(vec![ed])
}

#[test]
fn create_url() -> Result<(), BuilderError> {
    let graph_meta = GraphMetaBuilder::default()
        .name("test")
        .edge_definitions(edge_definition()?)
        .build()?;
    let config = CreateConfigBuilder::default().graph(graph_meta).build()?;
    assert_eq!("_api/gharial", config.build_suffix(BASE_GRAPH_SUFFIX));
    Ok(())
}

#[test]
fn create_wait_for_sync_url() -> Result<(), BuilderError> {
    let graph_meta = GraphMetaBuilder::default()
        .name("test")
        .edge_definitions(edge_definition()?)
        .build()?;
    let config = CreateConfigBuilder::default()
        .graph(graph_meta)
        .wait_for_sync(true)
        .build()?;
    assert_eq!(
        "_api/gharial?waitForSync=true",
        config.build_suffix(BASE_GRAPH_SUFFIX)
    );
    Ok(())
}

#[test]
fn empty_ed_errors() -> Result<(), BuilderError> {
    match GraphMetaBuilder::default()
        .name("test")
        .edge_definitions(vec![])
        .build()
    {
        Ok(_) => panic!("The builder should fail!"),
        Err(e) => assert_eq!("edge_definitions cannot be empty!", e.to_string()),
    }
    Ok(())
}

#[test]
fn graph_meta_keeps_its_values() -> Result<(), BuilderError> {
    let graph_meta = GraphMetaBuilder::default()
        .name("g")
        .edge_definitions(edge_definition()?)
        .orphan_collections(ve(vec!["o"]))
        .build()?;
    assert_eq!(graph_meta.name(), "g");
    assert_eq!(graph_meta.edge_definitions().len(), 1);
    assert_eq!(graph_meta.edge_definitions()[0].collection(), "test_edge");
    assert_eq!(graph_meta.orphan_collections(), &Some(ve(vec!["o"])));
    match GraphMetaBuilder::default().edge_definitions(edge_definition()?).build() {
        Err(e) => assert_eq!(e.to_string(), "`name` must be initialized"),
        Ok(_) => panic!("The builder should fail!"),
    }
    Ok(())
}

#[test]
fn edge_create_url() -> Result<(), BuilderError> {
    let mapping = FromToBuilder::default().from("a/1").to("b/2").build()?;
    let config = EdgeCreateConfigBuilder::default()
        .graph("g")
        .collection("e")
        .mapping(mapping)
        .return_new(true)
        .build()?;
    assert_eq!("_api/gharial/g/edge/e?returnNew=true", config.build_suffix(BASE_GRAPH_SUFFIX));
    assert_eq!(config.mapping.from, "a/1");
    Ok(())
}

#[test]
fn edge_read_url_and_rev_precedence() -> Result<(), BuilderError> {
    let config = EdgeReadConfigBuilder::default()
        .graph("g")
        .collection("e")
        .key("k")
        .if_none_match("x")
        .if_match("y")
        .rev("z")
        .build()?;
    assert_eq!("_api/gharial/g/edge/e/k", config.build_suffix(BASE_GRAPH_SUFFIX));
    let headers = config.add_headers().unwrap().unwrap();
    assert_eq!(headers.keys_len(), 1);
    assert_eq!(headers.get("rev").unwrap().to_str().unwrap(), "z");
    Ok(())
}

#[test]
fn vertex_delete_return_old() -> Result<(), BuilderError> {
    let config = DeleteVertexConfigBuilder::default()
        .name("g")
        .collection("v")
        .key("k")
        .wait_for_sync(false)
        .return_old(true)
        .build()?;
    assert_eq!(
        "_api/gharial/g/vertex/v/k?waitForSync=false&returnOld=true",
        config.build_suffix(BASE_GRAPH_SUFFIX)
    );
    assert!(!config.has_header());
    assert!(config.add_headers().unwrap().is_none());
    Ok(())
}

#[test]
fn vertex_read_headers() -> Result<(), BuilderError> {
    let config = ReadVertexConfigBuilder::default()
        .name("g")
        .collection("v")
        .key("k")
        .if_none_match("r")
        .build()?;
    let headers = config.add_headers().unwrap().unwrap();
    assert_eq!(headers.get("if-none-match").unwrap().to_str().unwrap(), "r");
    Ok(())
}

#[test]
fn vertex_update_url() -> Result<(), BuilderError> {
    let config = UpdateVertexConfigBuilder::default()
        .name("g")
        .collection("v")
        .key("k")
        .vertex(5u8)
        .return_new(true)
        .keep_null(false)
        .build()?;
    assert_eq!(
        "_api/gharial/g/vertex/v/k?keepNull=false&returnNew=true",
        config.build_suffix(BASE_GRAPH_SUFFIX)
    );
    Ok(())
}

#[test]
fn vertex_coll_delete_url() -> Result<(), BuilderError> {
    let config = DeleteVertexCollConfigBuilder::default()
        .name("g")
        .collection("v")
        .drop_collection(true)
        .build()?;
    assert_eq!(
        "_api/gharial/g/vertex/v?dropCollection=true",
        config.build_suffix(BASE_GRAPH_SUFFIX)
    );
    Ok(())
}

#[test]
fn graph_meta_clone_keeps_its_values() -> Result<(), BuilderError> {
    let graph_meta = GraphMetaBuilder::default()
        .name("g")
        .edge_definitions(edge_definition()?)
        .orphan_collections(ve(vec!["o", "p"]))
        .build()?;
    let copy = graph_meta.clone();
    assert_eq!(copy.name(), "g");
    assert_eq!(copy.edge_definitions().len(), 1);
    let (a, b) = (&copy.edge_definitions()[0], &graph_meta.edge_definitions()[0]);
    assert_eq!(a.collection(), b.collection());
    assert_eq!(a.to(), b.to());
    assert_eq!(a.from(), b.from());
    assert_eq!(copy.orphan_collections(), &Some(ve(vec!["o", "p"])));
    Ok(())
}

#[test]
fn edge_read_refuses_bad_header() -> Result<(), BuilderError> {
    let config = EdgeReadConfigBuilder::default()
        .graph("g")
        .collection("e")
        .key("k")
        .if_match("bad\nrev")
        .build()?;
    assert_eq!(
        config.add_headers().unwrap_err(),
        ruarango::RuarangoErr::InvalidHeader { value: "bad\nrev".to_string() }
    );
    Ok(())
}
