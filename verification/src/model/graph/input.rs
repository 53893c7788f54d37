//! Graph operation inputs: what each request sends and where.

use crate::error::{BuilderError, RuarangoErr};
use crate::header::HeaderKind;
use reqwest::header::HeaderMap;
use crate::model::doc::read::{first_header, headers_outcome, opt_text, sends_header, single_header};
use crate::model::graph::{lemma_cloned_texts, same_edge_def, EdgeDefinition};
use crate::query::{
    flag_param, lemma_flag_names,
    distinct_flags, flags_params, lemma_flags_params_unfold,
    add_flag, lemma_query_empty, opt_qp, push_segment, query_string, slash_join, QpFlag,
};
use vstd::prelude::*;
use vstd::string::*;

verus! {

/// Graph create configuration
#[derive(Clone, Debug)]
pub struct CreateConfig {
    /// The graph meta to create
    pub graph: GraphMeta,
    /// Wait until the graph has been synced to disk.
    pub wait_for_sync: Option<bool>,
}


impl CreateConfig {
    /// The flags of the request, in the order in which they are sent.
    pub open spec fn flag_slots(self) -> Seq<(QpFlag, Option<bool>)> {
        seq![(QpFlag::WaitForSync, self.wait_for_sync)]
    }

    /// The query parameters of the request: `waitForSync` when set.
    pub open spec fn params(self) -> Seq<Seq<char>> {
        opt_qp(self.wait_for_sync, QpFlag::WaitForSync)
    }

    /// The path of the request and the query string.
    pub open spec fn suffix_spec(self, base: Seq<char>) -> Seq<char> {
        base + query_string(self.params())
    }

    /// The url suffix of the request.
    pub fn build_suffix(&self, base: &str) -> (r: String)
        ensures
            r@ == self.suffix_spec(base@),
    {
        let mut url = String::from_str(base);
        let ghost prefix = url@;
        let mut has_qp = false;
        proof {
            lemma_query_empty(prefix);
        }
        let ghost ps = Seq::<Seq<char>>::empty();
        add_flag(self.wait_for_sync, &mut url, &mut has_qp, QpFlag::WaitForSync, Ghost(prefix), Ghost(ps));
        let ghost ps = ps + opt_qp(self.wait_for_sync, QpFlag::WaitForSync);
        proof {
            assert(ps =~= self.params());
        }
        url
    }
}


/// Builds a [`CreateConfig`]; `graph` must be set.
#[derive(Clone, Debug)]
pub struct CreateConfigBuilder {
    pub graph: Option<GraphMeta>,
    pub wait_for_sync: Option<bool>,
}

impl CreateConfigBuilder {
    /// A builder with nothing set.
    pub fn default() -> (r: Self)
        ensures
            r == (Self { graph: None, wait_for_sync: None }),
    {
        CreateConfigBuilder { graph: None, wait_for_sync: None }
    }

    /// The graph meta to create
    pub fn graph(self, v: GraphMeta) -> (r: Self)
        ensures
            r == (Self { graph: Some(v), ..self }),
    {
        Self { graph: Some(v), ..self }
    }

    /// Wait until the graph has been synced to disk.
    pub fn wait_for_sync(self, v: bool) -> (r: Self)
        ensures
            r == (Self { wait_for_sync: Some(v), ..self }),
    {
        Self { wait_for_sync: Some(v), ..self }
    }

    /// The configuration, when every required field is set.
    pub fn build(self) -> (r: Result<CreateConfig, BuilderError>)
        ensures
            self.graph is None ==> (r matches Err(BuilderError::UninitializedField(f)) && f@ == "graph"@),
            self.graph is Some ==> (r matches Ok(c) && c == (CreateConfig { graph: self.graph->0, wait_for_sync: self.wait_for_sync })),
    {
        let graph = match self.graph {
            Some(v) => v,
            None => return Err(BuilderError::UninitializedField("graph")),
        };
        Ok(CreateConfig { graph, wait_for_sync: self.wait_for_sync })
    }
}


/// The graph to create: its name, its edge definitions (never empty) and its
/// orphan collections.
#[derive(Debug)]
pub struct GraphMeta {
    name: String,
    edge_definitions: Vec<EdgeDefinition>,
    orphan_collections: Option<Vec<String>>,
}

/// The texts held in an optional list of owned texts.
pub open spec fn opt_texts(o: Option<Vec<String>>) -> Option<Seq<String>> {
    match o {
        Some(v) => Some(v@),
        None => None,
    }
}

impl Clone for GraphMeta {
    /// A copy with the same name, the same edge definitions and the same
    /// orphan collections.
    fn clone(&self) -> (r: Self)
        ensures
            r.spec_name() == self.spec_name(),
            r.spec_edge_definitions().len() == self.spec_edge_definitions().len(),
            forall|i: int|
                0 <= i < self.spec_edge_definitions().len() ==> same_edge_def(
                    #[trigger] r.spec_edge_definitions()[i],
                    self.spec_edge_definitions()[i],
                ),
            opt_texts(r.spec_orphan_collections()) == opt_texts(self.spec_orphan_collections()),
    {
        proof {
            use_type_invariant(self);
        }
        let edge_definitions = self.edge_definitions.clone();
        let orphan_collections = match &self.orphan_collections {
            Some(v) => {
                let c = v.clone();
                proof {
                    lemma_cloned_texts(*v, c);
                }
                Some(c)
            },
            None => None,
        };
        proof {
            assert forall|i: int| 0 <= i < self.edge_definitions@.len() implies same_edge_def(
                #[trigger] edge_definitions@[i],
                self.edge_definitions@[i],
            ) by {
                assert(cloned::<EdgeDefinition>(self.edge_definitions[i], edge_definitions[i]));
            }
        }
        GraphMeta { name: self.name.clone(), edge_definitions, orphan_collections }
    }
}

impl GraphMeta {
    #[verifier::type_invariant]
    spec fn has_edge_definitions(self) -> bool {
        self.edge_definitions@.len() > 0
    }

    /// The name of the graph to create
    pub closed spec fn spec_name(self) -> Seq<char> {
        self.name@
    }

    /// The edge definitions of the graph
    pub closed spec fn spec_edge_definitions(self) -> Seq<EdgeDefinition> {
        self.edge_definitions@
    }

    /// The orphan collections of the graph
    pub closed spec fn spec_orphan_collections(self) -> Option<Vec<String>> {
        self.orphan_collections
    }

    /// The name of the graph to create
    pub fn name(&self) -> (r: &String)
        ensures
            r@ == self.spec_name(),
    {
        &self.name
    }

    /// An array of definitions for the relations of the graph; never empty.
    pub fn edge_definitions(&self) -> (r: &Vec<EdgeDefinition>)
        ensures
            r@ == self.spec_edge_definitions(),
            r@.len() > 0,
    {
        proof {
            use_type_invariant(self);
        }
        &self.edge_definitions
    }

    /// Additional vertex collections, without edges in this graph.
    pub fn orphan_collections(&self) -> (r: &Option<Vec<String>>)
        ensures
            *r == self.spec_orphan_collections(),
    {
        &self.orphan_collections
    }
}

/// Builds a [`GraphMeta`]; `name` and `edge_definitions` must be set, and
/// the edge definitions must not be empty.
#[derive(Clone, Debug)]
pub struct GraphMetaBuilder {
    pub name: Option<String>,
    pub edge_definitions: Option<Vec<EdgeDefinition>>,
    pub orphan_collections: Option<Vec<String>>,
}

impl GraphMetaBuilder {
    /// A builder with nothing set.
    pub fn default() -> (r: Self)
        ensures
            r == (Self { name: None, edge_definitions: None, orphan_collections: None }),
    {
        GraphMetaBuilder { name: None, edge_definitions: None, orphan_collections: None }
    }

    /// The name of the graph to create
    pub fn name(self, v: &str) -> (r: Self)
        ensures
            r == (Self { name: r.name, ..self }),
            r.name matches Some(s) && s@ == v@,
    {
        Self { name: Some(String::from_str(v)), ..self }
    }

    /// The edge definitions of the graph
    pub fn edge_definitions(self, v: Vec<EdgeDefinition>) -> (r: Self)
        ensures
            r == (Self { edge_definitions: Some(v), ..self }),
    {
        Self { edge_definitions: Some(v), ..self }
    }

    /// Additional vertex collections
    pub fn orphan_collections(self, v: Vec<String>) -> (r: Self)
        ensures
            r == (Self { orphan_collections: Some(v), ..self }),
    {
        Self { orphan_collections: Some(v), ..self }
    }

    /// Checks the set values: the edge definitions, when set, must not be
    /// empty.
    pub fn validate(&self) -> (r: Result<(), String>)
        ensures
            (self.edge_definitions matches Some(ed) && ed@.len() == 0) ==> (r matches Err(m) && m@
                == "edge_definitions cannot be empty!"@),
            !(self.edge_definitions matches Some(ed) && ed@.len() == 0) ==> r is Ok,
    {
        match &self.edge_definitions {
            Some(ed) => if ed.len() == 0 {
                Err(String::from_str("edge_definitions cannot be empty!"))
            } else {
                Ok(())
            },
            None => Ok(()),
        }
    }

    /// The graph meta: the values are checked first, then `name` and
    /// `edge_definitions` must be set.
    pub fn build(self) -> (r: Result<GraphMeta, BuilderError>)
        ensures
            (self.edge_definitions matches Some(ed) && ed@.len() == 0) ==> (r matches Err(
                BuilderError::ValidationError(m),
            ) && m@ == "edge_definitions cannot be empty!"@),
            !(self.edge_definitions matches Some(ed) && ed@.len() == 0) ==> {
                &&& self.name is None ==> (r matches Err(BuilderError::UninitializedField(f))
                    && f@ == "name"@)
                &&& self.name is Some && self.edge_definitions is None ==> (r matches Err(
                    BuilderError::UninitializedField(f),
                ) && f@ == "edge_definitions"@)
                &&& self.name is Some && self.edge_definitions is Some ==> (r matches Ok(g)
                    && g.spec_name() == self.name->0@ && g.spec_edge_definitions()
                    == self.edge_definitions->0@ && g.spec_orphan_collections()
                    == self.orphan_collections)
            },
    {
        if let Err(m) = self.validate() {
            return Err(BuilderError::ValidationError(m));
        }
        let name = match self.name {
            Some(v) => v,
            None => return Err(BuilderError::UninitializedField("name")),
        };
        let edge_definitions = match self.edge_definitions {
            Some(v) => v,
            None => return Err(BuilderError::UninitializedField("edge_definitions")),
        };
        Ok(GraphMeta { name, edge_definitions, orphan_collections: self.orphan_collections })
    }
}


/// Edge create configuration
#[derive(Clone, Debug)]
pub struct EdgeCreateConfig {
    /// The graph to define the new edge in
    pub graph: String,
    /// The edge collection to define the new edge in
    pub collection: String,
    /// Wait until synced to disk.
    pub wait_for_sync: Option<bool>,
    /// Return the complete new edge.
    pub return_new: Option<bool>,
    /// The from/to mapping for the edge
    pub mapping: FromTo,
}


impl EdgeCreateConfig {
    /// The flags of the request, in the order in which they are sent.
    pub open spec fn flag_slots(self) -> Seq<(QpFlag, Option<bool>)> {
        seq![(QpFlag::WaitForSync, self.wait_for_sync), (QpFlag::ReturnNew, self.return_new)]
    }

    /// The query parameters of the request: `waitForSync` and `returnNew`, each when set, in that order.
    pub open spec fn params(self) -> Seq<Seq<char>> {
        opt_qp(self.wait_for_sync, QpFlag::WaitForSync) + opt_qp(self.return_new, QpFlag::ReturnNew)
    }

    /// The path of the request and the query string.
    pub open spec fn suffix_spec(self, base: Seq<char>) -> Seq<char> {
        base + "/"@ + self.graph@ + "/edge/"@ + self.collection@ + query_string(self.params())
    }

    /// The url suffix of the request.
    pub fn build_suffix(&self, base: &str) -> (r: String)
        ensures
            r@ == self.suffix_spec(base@),
    {
        let mut url = slash_join(base, self.graph.as_str());
        url.append("/edge/");
        url.append(self.collection.as_str());
        let ghost prefix = url@;
        let mut has_qp = false;
        proof {
            lemma_query_empty(prefix);
        }
        let ghost ps = Seq::<Seq<char>>::empty();
        add_flag(self.wait_for_sync, &mut url, &mut has_qp, QpFlag::WaitForSync, Ghost(prefix), Ghost(ps));
        let ghost ps = ps + opt_qp(self.wait_for_sync, QpFlag::WaitForSync);
        add_flag(self.return_new, &mut url, &mut has_qp, QpFlag::ReturnNew, Ghost(prefix), Ghost(ps));
        let ghost ps = ps + opt_qp(self.return_new, QpFlag::ReturnNew);
        proof {
            assert(ps =~= self.params());
        }
        url
    }
}


/// Builds a [`EdgeCreateConfig`]; `graph`, `collection` and `mapping` must be set.
#[derive(Clone, Debug)]
pub struct EdgeCreateConfigBuilder {
    pub graph: Option<String>,
    pub collection: Option<String>,
    pub wait_for_sync: Option<bool>,
    pub return_new: Option<bool>,
    pub mapping: Option<FromTo>,
}

impl EdgeCreateConfigBuilder {
    /// A builder with nothing set.
    pub fn default() -> (r: Self)
        ensures
            r == (Self { graph: None, collection: None, wait_for_sync: None, return_new: None, mapping: None }),
    {
        EdgeCreateConfigBuilder { graph: None, collection: None, wait_for_sync: None, return_new: None, mapping: None }
    }

    /// The graph to define the new edge in
    pub fn graph(self, v: &str) -> (r: Self)
        ensures
            r == (Self { graph: r.graph, ..self }),
            r.graph matches Some(s) && s@ == v@,
    {
        Self { graph: Some(String::from_str(v)), ..self }
    }

    /// The edge collection to define the new edge in
    pub fn collection(self, v: &str) -> (r: Self)
        ensures
            r == (Self { collection: r.collection, ..self }),
            r.collection matches Some(s) && s@ == v@,
    {
        Self { collection: Some(String::from_str(v)), ..self }
    }

    /// Wait until synced to disk.
    pub fn wait_for_sync(self, v: bool) -> (r: Self)
        ensures
            r == (Self { wait_for_sync: Some(v), ..self }),
    {
        Self { wait_for_sync: Some(v), ..self }
    }

    /// Return the complete new edge.
    pub fn return_new(self, v: bool) -> (r: Self)
        ensures
            r == (Self { return_new: Some(v), ..self }),
    {
        Self { return_new: Some(v), ..self }
    }

    /// The from/to mapping for the edge
    pub fn mapping(self, v: FromTo) -> (r: Self)
        ensures
            r == (Self { mapping: Some(v), ..self }),
    {
        Self { mapping: Some(v), ..self }
    }

    /// The configuration, when every required field is set.
    pub fn build(self) -> (r: Result<EdgeCreateConfig, BuilderError>)
        ensures
            self.graph is None ==> (r matches Err(BuilderError::UninitializedField(f)) && f@ == "graph"@),
            self.graph is Some && self.collection is None ==> (r matches Err(BuilderError::UninitializedField(f)) && f@ == "collection"@),
            self.graph is Some && self.collection is Some && self.mapping is None ==> (r matches Err(BuilderError::UninitializedField(f)) && f@ == "mapping"@),
            self.graph is Some && self.collection is Some && self.mapping is Some ==> (r matches Ok(c) && c == (EdgeCreateConfig { graph: self.graph->0, collection: self.collection->0, wait_for_sync: self.wait_for_sync, return_new: self.return_new, mapping: self.mapping->0 })),
    {
        let graph = match self.graph {
            Some(v) => v,
            None => return Err(BuilderError::UninitializedField("graph")),
        };
        let collection = match self.collection {
            Some(v) => v,
            None => return Err(BuilderError::UninitializedField("collection")),
        };
        let mapping = match self.mapping {
            Some(v) => v,
            None => return Err(BuilderError::UninitializedField("mapping")),
        };
        Ok(EdgeCreateConfig { graph, collection, wait_for_sync: self.wait_for_sync, return_new: self.return_new, mapping })
    }
}

/// The from/to mapping for an edge
#[derive(Clone, Debug)]
pub struct FromTo {
    /// The from document in a vertex collection
    pub from: String,
    /// The to document in a vertex collection
    pub to: String,
}

impl FromTo {
    /// The from document in a vertex collection
    pub fn from(&self) -> (r: &String)
        ensures
            *r == self.from,
    {
        &self.from
    }

    /// The to document in a vertex collection
    pub fn to(&self) -> (r: &String)
        ensures
            *r == self.to,
    {
        &self.to
    }
}

/// Builds a [`FromTo`]; both ends must be set.
#[derive(Clone, Debug)]
pub struct FromToBuilder {
    pub from: Option<String>,
    pub to: Option<String>,
}

impl FromToBuilder {
    /// A builder with nothing set.
    pub fn default() -> (r: Self)
        ensures
            r == (Self { from: None, to: None }),
    {
        FromToBuilder { from: None, to: None }
    }

    /// The from document in a vertex collection
    pub fn from(self, v: &str) -> (r: Self)
        ensures
            r == (Self { from: r.from, ..self }),
            r.from matches Some(s) && s@ == v@,
    {
        Self { from: Some(String::from_str(v)), ..self }
    }

    /// The to document in a vertex collection
    pub fn to(self, v: &str) -> (r: Self)
        ensures
            r == (Self { to: r.to, ..self }),
            r.to matches Some(s) && s@ == v@,
    {
        Self { to: Some(String::from_str(v)), ..self }
    }

    /// The configuration, when every required field is set.
    pub fn build(self) -> (r: Result<FromTo, BuilderError>)
        ensures
            self.from is None ==> (r matches Err(BuilderError::UninitializedField(f)) && f@ == "from"@),
            self.from is Some && self.to is None ==> (r matches Err(BuilderError::UninitializedField(f)) && f@ == "to"@),
            self.from is Some && self.to is Some ==> (r matches Ok(c) && c == (FromTo { from: self.from->0, to: self.to->0 })),
    {
        let from = match self.from {
            Some(v) => v,
            None => return Err(BuilderError::UninitializedField("from")),
        };
        let to = match self.to {
            Some(v) => v,
            None => return Err(BuilderError::UninitializedField("to")),
        };
        Ok(FromTo { from, to })
    }
}

/// Edge read configuration
#[derive(Clone, Debug)]
pub struct EdgeReadConfig {
    /// The graph of the edge
    pub graph: String,
    /// The edge collection of the edge
    pub collection: String,
    /// The `_key` of the edge
    pub key: String,
    /// Return the edge only if it has exactly this revision.
    pub rev: Option<String>,
    /// Return the edge only if it has this revision (412 otherwise).
    pub if_match: Option<String>,
    /// Return the edge only if its revision differs (304 otherwise).
    pub if_none_match: Option<String>,
}


impl EdgeReadConfig {
    /// The query parameters of the request: none.
    pub open spec fn params(self) -> Seq<Seq<char>> {
        Seq::empty()
    }

    /// The path of the request and the query string.
    pub open spec fn suffix_spec(self, base: Seq<char>) -> Seq<char> {
        base + "/"@ + self.graph@ + "/edge/"@ + self.collection@ + "/"@ + self.key@ + query_string(self.params())
    }

    /// The url suffix of the request.
    pub fn build_suffix(&self, base: &str) -> (r: String)
        ensures
            r@ == self.suffix_spec(base@),
    {
        let mut url = slash_join(base, self.graph.as_str());
        url.append("/edge/");
        url.append(self.collection.as_str());
        push_segment(&mut url, self.key.as_str());
        let ghost prefix = url@;
        let mut has_qp = false;
        proof {
            lemma_query_empty(prefix);
        }
        let ghost ps = Seq::<Seq<char>>::empty();
        proof {
            assert(ps =~= self.params());
        }
        url
    }
}



impl EdgeReadConfig {
    /// The candidates for the conditional header, by precedence.
    pub open spec fn header_candidates(self) -> Seq<(HeaderKind, Option<Seq<char>>)> {
        seq![
            (HeaderKind::Rev, opt_text(self.rev)),
            (HeaderKind::IfMatch, opt_text(self.if_match)),
            (HeaderKind::IfNoneMatch, opt_text(self.if_none_match)),
        ]
    }

    /// Does the request carry a conditional header?
    pub fn has_header(&self) -> (r: bool)
        ensures
            r == (first_header(self.header_candidates()) is Some),
    {
        proof {
            reveal_with_fuel(first_header, 4);
        }
        self.rev.is_some() || self.if_match.is_some() || self.if_none_match.is_some()
    }

    /// The conditional header of the request: the first one set, by
    /// precedence, or none.
    pub fn add_headers(&self) -> (r: Result<Option<HeaderMap>, RuarangoErr>)
        ensures
            headers_outcome(first_header(self.header_candidates()), r),
    {
        proof {
            reveal_with_fuel(first_header, 4);
        }
        let mut headers = None;
        if self.has_header() {
            if let Some(rev) = &self.rev {
                headers = single_header(HeaderKind::Rev, rev.as_str())?;
            } else if let Some(rev) = &self.if_match {
                headers = single_header(HeaderKind::IfMatch, rev.as_str())?;
            } else if let Some(rev) = &self.if_none_match {
                headers = single_header(HeaderKind::IfNoneMatch, rev.as_str())?;
            } else {
                return Err(
                    RuarangoErr::Unreachable {
                        msg: String::from_str("One of 'if_match', 'if_none_match', or 'rev' should be set!"),
                    },
                );
            }
        }
        Ok(headers)
    }
}


/// Builds a [`EdgeReadConfig`]; `graph`, `collection` and `key` must be set.
#[derive(Clone, Debug)]
pub struct EdgeReadConfigBuilder {
    pub graph: Option<String>,
    pub collection: Option<String>,
    pub key: Option<String>,
    pub rev: Option<String>,
    pub if_match: Option<String>,
    pub if_none_match: Option<String>,
}

impl EdgeReadConfigBuilder {
    /// A builder with nothing set.
    pub fn default() -> (r: Self)
        ensures
            r == (Self { graph: None, collection: None, key: None, rev: None, if_match: None, if_none_match: None }),
    {
        EdgeReadConfigBuilder { graph: None, collection: None, key: None, rev: None, if_match: None, if_none_match: None }
    }

    /// The graph of the edge
    pub fn graph(self, v: &str) -> (r: Self)
        ensures
            r == (Self { graph: r.graph, ..self }),
            r.graph matches Some(s) && s@ == v@,
    {
        Self { graph: Some(String::from_str(v)), ..self }
    }

    /// The edge collection of the edge
    pub fn collection(self, v: &str) -> (r: Self)
        ensures
            r == (Self { collection: r.collection, ..self }),
            r.collection matches Some(s) && s@ == v@,
    {
        Self { collection: Some(String::from_str(v)), ..self }
    }

    /// The `_key` of the edge
    pub fn key(self, v: &str) -> (r: Self)
        ensures
            r == (Self { key: r.key, ..self }),
            r.key matches Some(s) && s@ == v@,
    {
        Self { key: Some(String::from_str(v)), ..self }
    }

    /// Return the edge only if it has exactly this revision.
    pub fn rev(self, v: &str) -> (r: Self)
        ensures
            r == (Self { rev: r.rev, ..self }),
            r.rev matches Some(s) && s@ == v@,
    {
        Self { rev: Some(String::from_str(v)), ..self }
    }

    /// Return the edge only if it has this revision (412 otherwise).
    pub fn if_match(self, v: &str) -> (r: Self)
        ensures
            r == (Self { if_match: r.if_match, ..self }),
            r.if_match matches Some(s) && s@ == v@,
    {
        Self { if_match: Some(String::from_str(v)), ..self }
    }

    /// Return the edge only if its revision differs (304 otherwise).
    pub fn if_none_match(self, v: &str) -> (r: Self)
        ensures
            r == (Self { if_none_match: r.if_none_match, ..self }),
            r.if_none_match matches Some(s) && s@ == v@,
    {
        Self { if_none_match: Some(String::from_str(v)), ..self }
    }

    /// The configuration, when every required field is set.
    pub fn build(self) -> (r: Result<EdgeReadConfig, BuilderError>)
        ensures
            self.graph is None ==> (r matches Err(BuilderError::UninitializedField(f)) && f@ == "graph"@),
            self.graph is Some && self.collection is None ==> (r matches Err(BuilderError::UninitializedField(f)) && f@ == "collection"@),
            self.graph is Some && self.collection is Some && self.key is None ==> (r matches Err(BuilderError::UninitializedField(f)) && f@ == "key"@),
            self.graph is Some && self.collection is Some && self.key is Some ==> (r matches Ok(c) && c == (EdgeReadConfig { graph: self.graph->0, collection: self.collection->0, key: self.key->0, rev: self.rev, if_match: self.if_match, if_none_match: self.if_none_match })),
    {
        let graph = match self.graph {
            Some(v) => v,
            None => return Err(BuilderError::UninitializedField("graph")),
        };
        let collection = match self.collection {
            Some(v) => v,
            None => return Err(BuilderError::UninitializedField("collection")),
        };
        let key = match self.key {
            Some(v) => v,
            None => return Err(BuilderError::UninitializedField("key")),
        };
        Ok(EdgeReadConfig { graph, collection, key, rev: self.rev, if_match: self.if_match, if_none_match: self.if_none_match })
    }
}

/// Edge definition replace configuration
#[derive(Clone, Debug)]
pub struct ReplaceEdgeDefConfig {
    /// The graph to replace the edge definition in
    pub graph: String,
    /// The new edge definition
    pub edge_def: EdgeDefinition,
    /// Wait until synced to disk.
    pub wait_for_sync: Option<bool>,
    /// Drop the collection as well, when no other graph uses it.
    pub drop_collections: Option<bool>,
}


impl ReplaceEdgeDefConfig {
    /// The flags of the request, in the order in which they are sent.
    pub open spec fn flag_slots(self) -> Seq<(QpFlag, Option<bool>)> {
        seq![(QpFlag::WaitForSync, self.wait_for_sync), (QpFlag::DropCollections, self.drop_collections)]
    }

    /// The query parameters of the request: `waitForSync` and `dropCollections`, each when set, in that order.
    pub open spec fn params(self) -> Seq<Seq<char>> {
        opt_qp(self.wait_for_sync, QpFlag::WaitForSync) + opt_qp(self.drop_collections, QpFlag::DropCollections)
    }

    /// The path of the request and the query string.
    pub open spec fn suffix_spec(self, base: Seq<char>) -> Seq<char> {
        base + "/"@ + self.graph@ + "/edge/"@ + self.edge_def.collection@ + query_string(self.params())
    }

    /// The url suffix of the request.
    pub fn build_suffix(&self, base: &str) -> (r: String)
        ensures
            r@ == self.suffix_spec(base@),
    {
        let mut url = slash_join(base, self.graph.as_str());
        url.append("/edge/");
        url.append(self.edge_def.collection.as_str());
        let ghost prefix = url@;
        let mut has_qp = false;
        proof {
            lemma_query_empty(prefix);
        }
        let ghost ps = Seq::<Seq<char>>::empty();
        add_flag(self.wait_for_sync, &mut url, &mut has_qp, QpFlag::WaitForSync, Ghost(prefix), Ghost(ps));
        let ghost ps = ps + opt_qp(self.wait_for_sync, QpFlag::WaitForSync);
        add_flag(self.drop_collections, &mut url, &mut has_qp, QpFlag::DropCollections, Ghost(prefix), Ghost(ps));
        let ghost ps = ps + opt_qp(self.drop_collections, QpFlag::DropCollections);
        proof {
            assert(ps =~= self.params());
        }
        url
    }
}


/// Builds a [`ReplaceEdgeDefConfig`]; `graph` and `edge_def` must be set.
#[derive(Clone, Debug)]
pub struct ReplaceEdgeDefConfigBuilder {
    pub graph: Option<String>,
    pub edge_def: Option<EdgeDefinition>,
    pub wait_for_sync: Option<bool>,
    pub drop_collections: Option<bool>,
}

impl ReplaceEdgeDefConfigBuilder {
    /// A builder with nothing set.
    pub fn default() -> (r: Self)
        ensures
            r == (Self { graph: None, edge_def: None, wait_for_sync: None, drop_collections: None }),
    {
        ReplaceEdgeDefConfigBuilder { graph: None, edge_def: None, wait_for_sync: None, drop_collections: None }
    }

    /// The graph to replace the edge definition in
    pub fn graph(self, v: &str) -> (r: Self)
        ensures
            r == (Self { graph: r.graph, ..self }),
            r.graph matches Some(s) && s@ == v@,
    {
        Self { graph: Some(String::from_str(v)), ..self }
    }

    /// The new edge definition
    pub fn edge_def(self, v: EdgeDefinition) -> (r: Self)
        ensures
            r == (Self { edge_def: Some(v), ..self }),
    {
        Self { edge_def: Some(v), ..self }
    }

    /// Wait until synced to disk.
    pub fn wait_for_sync(self, v: bool) -> (r: Self)
        ensures
            r == (Self { wait_for_sync: Some(v), ..self }),
    {
        Self { wait_for_sync: Some(v), ..self }
    }

    /// Drop the collection as well, when no other graph uses it.
    pub fn drop_collections(self, v: bool) -> (r: Self)
        ensures
            r == (Self { drop_collections: Some(v), ..self }),
    {
        Self { drop_collections: Some(v), ..self }
    }

    /// The configuration, when every required field is set.
    pub fn build(self) -> (r: Result<ReplaceEdgeDefConfig, BuilderError>)
        ensures
            self.graph is None ==> (r matches Err(BuilderError::UninitializedField(f)) && f@ == "graph"@),
            self.graph is Some && self.edge_def is None ==> (r matches Err(BuilderError::UninitializedField(f)) && f@ == "edge_def"@),
            self.graph is Some && self.edge_def is Some ==> (r matches Ok(c) && c == (ReplaceEdgeDefConfig { graph: self.graph->0, edge_def: self.edge_def->0, wait_for_sync: self.wait_for_sync, drop_collections: self.drop_collections })),
    {
        let graph = match self.graph {
            Some(v) => v,
            None => return Err(BuilderError::UninitializedField("graph")),
        };
        let edge_def = match self.edge_def {
            Some(v) => v,
            None => return Err(BuilderError::UninitializedField("edge_def")),
        };
        Ok(ReplaceEdgeDefConfig { graph, edge_def, wait_for_sync: self.wait_for_sync, drop_collections: self.drop_collections })
    }
}

/// Graph delete vertex configuration
#[derive(Clone, Debug)]
pub struct DeleteVertexConfig {
    /// The name of the graph to delete the vertex from
    pub name: String,
    /// The collection to delete the vertex from
    pub collection: String,
    /// The key of the vertex to delete
    pub key: String,
    /// Wait until the graph has been synced to disk
    pub wait_for_sync: Option<bool>,
    /// Return the old vertex in the response
    pub return_old: Option<bool>,
    /// Delete only if the vertex has this revision
    pub if_match: Option<String>,
}


impl DeleteVertexConfig {
    /// The flags of the request, in the order in which they are sent.
    pub open spec fn flag_slots(self) -> Seq<(QpFlag, Option<bool>)> {
        seq![(QpFlag::WaitForSync, self.wait_for_sync), (QpFlag::ReturnOld, self.return_old)]
    }

    /// The query parameters of the request: `waitForSync` and `returnOld`, each when set, in that order.
    pub open spec fn params(self) -> Seq<Seq<char>> {
        opt_qp(self.wait_for_sync, QpFlag::WaitForSync) + opt_qp(self.return_old, QpFlag::ReturnOld)
    }

    /// The path of the request and the query string.
    pub open spec fn suffix_spec(self, base: Seq<char>) -> Seq<char> {
        base + "/"@ + self.name@ + "/vertex/"@ + self.collection@ + "/"@ + self.key@ + query_string(self.params())
    }

    /// The url suffix of the request.
    pub fn build_suffix(&self, base: &str) -> (r: String)
        ensures
            r@ == self.suffix_spec(base@),
    {
        let mut url = slash_join(base, self.name.as_str());
        url.append("/vertex/");
        url.append(self.collection.as_str());
        push_segment(&mut url, self.key.as_str());
        let ghost prefix = url@;
        let mut has_qp = false;
        proof {
            lemma_query_empty(prefix);
        }
        let ghost ps = Seq::<Seq<char>>::empty();
        add_flag(self.wait_for_sync, &mut url, &mut has_qp, QpFlag::WaitForSync, Ghost(prefix), Ghost(ps));
        let ghost ps = ps + opt_qp(self.wait_for_sync, QpFlag::WaitForSync);
        add_flag(self.return_old, &mut url, &mut has_qp, QpFlag::ReturnOld, Ghost(prefix), Ghost(ps));
        let ghost ps = ps + opt_qp(self.return_old, QpFlag::ReturnOld);
        proof {
            assert(ps =~= self.params());
        }
        url
    }
}



impl DeleteVertexConfig {
    /// The candidates for the conditional header, by precedence.
    pub open spec fn header_candidates(self) -> Seq<(HeaderKind, Option<Seq<char>>)> {
        seq![
            (HeaderKind::IfMatch, opt_text(self.if_match)),
        ]
    }

    /// Does the request carry a conditional header?
    pub fn has_header(&self) -> (r: bool)
        ensures
            r == (first_header(self.header_candidates()) is Some),
    {
        proof {
            reveal_with_fuel(first_header, 2);
        }
        self.if_match.is_some()
    }

    /// The conditional header of the request: the first one set, by
    /// precedence, or none.
    pub fn add_headers(&self) -> (r: Result<Option<HeaderMap>, RuarangoErr>)
        ensures
            headers_outcome(first_header(self.header_candidates()), r),
    {
        proof {
            reveal_with_fuel(first_header, 2);
        }
        let mut headers = None;
        if self.has_header() {
            if let Some(rev) = &self.if_match {
                headers = single_header(HeaderKind::IfMatch, rev.as_str())?;
            } else {
                return Err(
                    RuarangoErr::Unreachable {
                        msg: String::from_str("'if_match' should be true!"),
                    },
                );
            }
        }
        Ok(headers)
    }
}


/// Builds a [`DeleteVertexConfig`]; `name`, `collection` and `key` must be set.
#[derive(Clone, Debug)]
pub struct DeleteVertexConfigBuilder {
    pub name: Option<String>,
    pub collection: Option<String>,
    pub key: Option<String>,
    pub wait_for_sync: Option<bool>,
    pub return_old: Option<bool>,
    pub if_match: Option<String>,
}

impl DeleteVertexConfigBuilder {
    /// A builder with nothing set.
    pub fn default() -> (r: Self)
        ensures
            r == (Self { name: None, collection: None, key: None, wait_for_sync: None, return_old: None, if_match: None }),
    {
        DeleteVertexConfigBuilder { name: None, collection: None, key: None, wait_for_sync: None, return_old: None, if_match: None }
    }

    /// The name of the graph to delete the vertex from
    pub fn name(self, v: &str) -> (r: Self)
        ensures
            r == (Self { name: r.name, ..self }),
            r.name matches Some(s) && s@ == v@,
    {
        Self { name: Some(String::from_str(v)), ..self }
    }

    /// The collection to delete the vertex from
    pub fn collection(self, v: &str) -> (r: Self)
        ensures
            r == (Self { collection: r.collection, ..self }),
            r.collection matches Some(s) && s@ == v@,
    {
        Self { collection: Some(String::from_str(v)), ..self }
    }

    /// The key of the vertex to delete
    pub fn key(self, v: &str) -> (r: Self)
        ensures
            r == (Self { key: r.key, ..self }),
            r.key matches Some(s) && s@ == v@,
    {
        Self { key: Some(String::from_str(v)), ..self }
    }

    /// Wait until the graph has been synced to disk
    pub fn wait_for_sync(self, v: bool) -> (r: Self)
        ensures
            r == (Self { wait_for_sync: Some(v), ..self }),
    {
        Self { wait_for_sync: Some(v), ..self }
    }

    /// Return the old vertex in the response
    pub fn return_old(self, v: bool) -> (r: Self)
        ensures
            r == (Self { return_old: Some(v), ..self }),
    {
        Self { return_old: Some(v), ..self }
    }

    /// Delete only if the vertex has this revision
    pub fn if_match(self, v: &str) -> (r: Self)
        ensures
            r == (Self { if_match: r.if_match, ..self }),
            r.if_match matches Some(s) && s@ == v@,
    {
        Self { if_match: Some(String::from_str(v)), ..self }
    }

    /// The configuration, when every required field is set.
    pub fn build(self) -> (r: Result<DeleteVertexConfig, BuilderError>)
        ensures
            self.name is None ==> (r matches Err(BuilderError::UninitializedField(f)) && f@ == "name"@),
            self.name is Some && self.collection is None ==> (r matches Err(BuilderError::UninitializedField(f)) && f@ == "collection"@),
            self.name is Some && self.collection is Some && self.key is None ==> (r matches Err(BuilderError::UninitializedField(f)) && f@ == "key"@),
            self.name is Some && self.collection is Some && self.key is Some ==> (r matches Ok(c) && c == (DeleteVertexConfig { name: self.name->0, collection: self.collection->0, key: self.key->0, wait_for_sync: self.wait_for_sync, return_old: self.return_old, if_match: self.if_match })),
    {
        let name = match self.name {
            Some(v) => v,
            None => return Err(BuilderError::UninitializedField("name")),
        };
        let collection = match self.collection {
            Some(v) => v,
            None => return Err(BuilderError::UninitializedField("collection")),
        };
        let key = match self.key {
            Some(v) => v,
            None => return Err(BuilderError::UninitializedField("key")),
        };
        Ok(DeleteVertexConfig { name, collection, key, wait_for_sync: self.wait_for_sync, return_old: self.return_old, if_match: self.if_match })
    }
}

/// Graph read vertex configuration
#[derive(Clone, Debug)]
pub struct ReadVertexConfig {
    /// The name of the graph to read the vertex from
    pub name: String,
    /// The collection to read the vertex from
    pub collection: String,
    /// The key of the vertex to read
    pub key: String,
    /// Read only if the vertex has this revision
    pub if_match: Option<String>,
    /// Read only if the vertex has another revision
    pub if_none_match: Option<String>,
}


impl ReadVertexConfig {
    /// The query parameters of the request: none.
    pub open spec fn params(self) -> Seq<Seq<char>> {
        Seq::empty()
    }

    /// The path of the request and the query string.
    pub open spec fn suffix_spec(self, base: Seq<char>) -> Seq<char> {
        base + "/"@ + self.name@ + "/vertex/"@ + self.collection@ + "/"@ + self.key@ + query_string(self.params())
    }

    /// The url suffix of the request.
    pub fn build_suffix(&self, base: &str) -> (r: String)
        ensures
            r@ == self.suffix_spec(base@),
    {
        let mut url = slash_join(base, self.name.as_str());
        url.append("/vertex/");
        url.append(self.collection.as_str());
        push_segment(&mut url, self.key.as_str());
        let ghost prefix = url@;
        let mut has_qp = false;
        proof {
            lemma_query_empty(prefix);
        }
        let ghost ps = Seq::<Seq<char>>::empty();
        proof {
            assert(ps =~= self.params());
        }
        url
    }
}



impl ReadVertexConfig {
    /// The candidates for the conditional header, by precedence.
    pub open spec fn header_candidates(self) -> Seq<(HeaderKind, Option<Seq<char>>)> {
        seq![
            (HeaderKind::IfMatch, opt_text(self.if_match)),
            (HeaderKind::IfNoneMatch, opt_text(self.if_none_match)),
        ]
    }

    /// Does the request carry a conditional header?
    pub fn has_header(&self) -> (r: bool)
        ensures
            r == (first_header(self.header_candidates()) is Some),
    {
        proof {
            reveal_with_fuel(first_header, 3);
        }
        self.if_match.is_some() || self.if_none_match.is_some()
    }

    /// The conditional header of the request: the first one set, by
    /// precedence, or none.
    pub fn add_headers(&self) -> (r: Result<Option<HeaderMap>, RuarangoErr>)
        ensures
            headers_outcome(first_header(self.header_candidates()), r),
    {
        proof {
            reveal_with_fuel(first_header, 3);
        }
        let mut headers = None;
        if self.has_header() {
            if let Some(rev) = &self.if_match {
                headers = single_header(HeaderKind::IfMatch, rev.as_str())?;
            } else if let Some(rev) = &self.if_none_match {
                headers = single_header(HeaderKind::IfNoneMatch, rev.as_str())?;
            } else {
                return Err(
                    RuarangoErr::Unreachable {
                        msg: String::from_str("'if_match' or 'if_none_match' should be true!"),
                    },
                );
            }
        }
        Ok(headers)
    }
}


/// Builds a [`ReadVertexConfig`]; `name`, `collection` and `key` must be set.
#[derive(Clone, Debug)]
pub struct ReadVertexConfigBuilder {
    pub name: Option<String>,
    pub collection: Option<String>,
    pub key: Option<String>,
    pub if_match: Option<String>,
    pub if_none_match: Option<String>,
}

impl ReadVertexConfigBuilder {
    /// A builder with nothing set.
    pub fn default() -> (r: Self)
        ensures
            r == (Self { name: None, collection: None, key: None, if_match: None, if_none_match: None }),
    {
        ReadVertexConfigBuilder { name: None, collection: None, key: None, if_match: None, if_none_match: None }
    }

    /// The name of the graph to read the vertex from
    pub fn name(self, v: &str) -> (r: Self)
        ensures
            r == (Self { name: r.name, ..self }),
            r.name matches Some(s) && s@ == v@,
    {
        Self { name: Some(String::from_str(v)), ..self }
    }

    /// The collection to read the vertex from
    pub fn collection(self, v: &str) -> (r: Self)
        ensures
            r == (Self { collection: r.collection, ..self }),
            r.collection matches Some(s) && s@ == v@,
    {
        Self { collection: Some(String::from_str(v)), ..self }
    }

    /// The key of the vertex to read
    pub fn key(self, v: &str) -> (r: Self)
        ensures
            r == (Self { key: r.key, ..self }),
            r.key matches Some(s) && s@ == v@,
    {
        Self { key: Some(String::from_str(v)), ..self }
    }

    /// Read only if the vertex has this revision
    pub fn if_match(self, v: &str) -> (r: Self)
        ensures
            r == (Self { if_match: r.if_match, ..self }),
            r.if_match matches Some(s) && s@ == v@,
    {
        Self { if_match: Some(String::from_str(v)), ..self }
    }

    /// Read only if the vertex has another revision
    pub fn if_none_match(self, v: &str) -> (r: Self)
        ensures
            r == (Self { if_none_match: r.if_none_match, ..self }),
            r.if_none_match matches Some(s) && s@ == v@,
    {
        Self { if_none_match: Some(String::from_str(v)), ..self }
    }

    /// The configuration, when every required field is set.
    pub fn build(self) -> (r: Result<ReadVertexConfig, BuilderError>)
        ensures
            self.name is None ==> (r matches Err(BuilderError::UninitializedField(f)) && f@ == "name"@),
            self.name is Some && self.collection is None ==> (r matches Err(BuilderError::UninitializedField(f)) && f@ == "collection"@),
            self.name is Some && self.collection is Some && self.key is None ==> (r matches Err(BuilderError::UninitializedField(f)) && f@ == "key"@),
            self.name is Some && self.collection is Some && self.key is Some ==> (r matches Ok(c) && c == (ReadVertexConfig { name: self.name->0, collection: self.collection->0, key: self.key->0, if_match: self.if_match, if_none_match: self.if_none_match })),
    {
        let name = match self.name {
            Some(v) => v,
            None => return Err(BuilderError::UninitializedField("name")),
        };
        let collection = match self.collection {
            Some(v) => v,
            None => return Err(BuilderError::UninitializedField("collection")),
        };
        let key = match self.key {
            Some(v) => v,
            None => return Err(BuilderError::UninitializedField("key")),
        };
        Ok(ReadVertexConfig { name, collection, key, if_match: self.if_match, if_none_match: self.if_none_match })
    }
}

/// Graph update vertex configuration
#[derive(Clone, Debug)]
pub struct UpdateVertexConfig<T> {
    /// The name of the graph of the vertex
    pub name: String,
    /// The collection of the vertex
    pub collection: String,
    /// The key of the vertex to update
    pub key: String,
    /// Wait until the graph has been synced to disk
    pub wait_for_sync: Option<bool>,
    /// When false, attributes set to null are deleted from the vertex
    pub keep_null: Option<bool>,
    /// Return the old vertex in the response
    pub return_old: Option<bool>,
    /// Return the new vertex in the response
    pub return_new: Option<bool>,
    /// Update only if the vertex has this revision
    pub if_match: Option<String>,
    /// The new vertex data
    pub vertex: T,
}


impl<T> UpdateVertexConfig<T> {
    /// The flags of the request, in the order in which they are sent.
    pub open spec fn flag_slots(self) -> Seq<(QpFlag, Option<bool>)> {
        seq![(QpFlag::WaitForSync, self.wait_for_sync), (QpFlag::KeepNull, self.keep_null), (QpFlag::ReturnOld, self.return_old), (QpFlag::ReturnNew, self.return_new)]
    }

    /// The query parameters of the request: `waitForSync`, `keepNull`, `returnOld` and `returnNew`, each when set, in that order.
    pub open spec fn params(self) -> Seq<Seq<char>> {
        opt_qp(self.wait_for_sync, QpFlag::WaitForSync) + opt_qp(self.keep_null, QpFlag::KeepNull) + opt_qp(self.return_old, QpFlag::ReturnOld) + opt_qp(self.return_new, QpFlag::ReturnNew)
    }

    /// The path of the request and the query string.
    pub open spec fn suffix_spec(self, base: Seq<char>) -> Seq<char> {
        base + "/"@ + self.name@ + "/vertex/"@ + self.collection@ + "/"@ + self.key@ + query_string(self.params())
    }

    /// The url suffix of the request.
    pub fn build_suffix(&self, base: &str) -> (r: String)
        ensures
            r@ == self.suffix_spec(base@),
    {
        let mut url = slash_join(base, self.name.as_str());
        url.append("/vertex/");
        url.append(self.collection.as_str());
        push_segment(&mut url, self.key.as_str());
        let ghost prefix = url@;
        let mut has_qp = false;
        proof {
            lemma_query_empty(prefix);
        }
        let ghost ps = Seq::<Seq<char>>::empty();
        add_flag(self.wait_for_sync, &mut url, &mut has_qp, QpFlag::WaitForSync, Ghost(prefix), Ghost(ps));
        let ghost ps = ps + opt_qp(self.wait_for_sync, QpFlag::WaitForSync);
        add_flag(self.keep_null, &mut url, &mut has_qp, QpFlag::KeepNull, Ghost(prefix), Ghost(ps));
        let ghost ps = ps + opt_qp(self.keep_null, QpFlag::KeepNull);
        add_flag(self.return_old, &mut url, &mut has_qp, QpFlag::ReturnOld, Ghost(prefix), Ghost(ps));
        let ghost ps = ps + opt_qp(self.return_old, QpFlag::ReturnOld);
        add_flag(self.return_new, &mut url, &mut has_qp, QpFlag::ReturnNew, Ghost(prefix), Ghost(ps));
        let ghost ps = ps + opt_qp(self.return_new, QpFlag::ReturnNew);
        proof {
            assert(ps =~= self.params());
        }
        url
    }
}



impl<T> UpdateVertexConfig<T> {
    /// The candidates for the conditional header, by precedence.
    pub open spec fn header_candidates(self) -> Seq<(HeaderKind, Option<Seq<char>>)> {
        seq![
            (HeaderKind::IfMatch, opt_text(self.if_match)),
        ]
    }

    /// Does the request carry a conditional header?
    pub fn has_header(&self) -> (r: bool)
        ensures
            r == (first_header(self.header_candidates()) is Some),
    {
        proof {
            reveal_with_fuel(first_header, 2);
        }
        self.if_match.is_some()
    }

    /// The conditional header of the request: the first one set, by
    /// precedence, or none.
    pub fn add_headers(&self) -> (r: Result<Option<HeaderMap>, RuarangoErr>)
        ensures
            headers_outcome(first_header(self.header_candidates()), r),
    {
        proof {
            reveal_with_fuel(first_header, 2);
        }
        let mut headers = None;
        if self.has_header() {
            if let Some(rev) = &self.if_match {
                headers = single_header(HeaderKind::IfMatch, rev.as_str())?;
            } else {
                return Err(
                    RuarangoErr::Unreachable {
                        msg: String::from_str("'if_match' should be true!"),
                    },
                );
            }
        }
        Ok(headers)
    }
}


/// Builds a [`UpdateVertexConfig`]; `name`, `collection`, `key` and `vertex` must be set.
#[derive(Clone, Debug)]
pub struct UpdateVertexConfigBuilder<T> {
    pub name: Option<String>,
    pub collection: Option<String>,
    pub key: Option<String>,
    pub wait_for_sync: Option<bool>,
    pub keep_null: Option<bool>,
    pub return_old: Option<bool>,
    pub return_new: Option<bool>,
    pub if_match: Option<String>,
    pub vertex: Option<T>,
}

impl<T> UpdateVertexConfigBuilder<T> {
    /// A builder with nothing set.
    pub fn default() -> (r: Self)
        ensures
            r == (Self { name: None, collection: None, key: None, wait_for_sync: None, keep_null: None, return_old: None, return_new: None, if_match: None, vertex: None }),
    {
        UpdateVertexConfigBuilder { name: None, collection: None, key: None, wait_for_sync: None, keep_null: None, return_old: None, return_new: None, if_match: None, vertex: None }
    }

    /// The name of the graph of the vertex
    pub fn name(self, v: &str) -> (r: Self)
        ensures
            r == (Self { name: r.name, ..self }),
            r.name matches Some(s) && s@ == v@,
    {
        Self { name: Some(String::from_str(v)), ..self }
    }

    /// The collection of the vertex
    pub fn collection(self, v: &str) -> (r: Self)
        ensures
            r == (Self { collection: r.collection, ..self }),
            r.collection matches Some(s) && s@ == v@,
    {
        Self { collection: Some(String::from_str(v)), ..self }
    }

    /// The key of the vertex to update
    pub fn key(self, v: &str) -> (r: Self)
        ensures
            r == (Self { key: r.key, ..self }),
            r.key matches Some(s) && s@ == v@,
    {
        Self { key: Some(String::from_str(v)), ..self }
    }

    /// Wait until the graph has been synced to disk
    pub fn wait_for_sync(self, v: bool) -> (r: Self)
        ensures
            r == (Self { wait_for_sync: Some(v), ..self }),
    {
        Self { wait_for_sync: Some(v), ..self }
    }

    /// When false, attributes set to null are deleted from the vertex
    pub fn keep_null(self, v: bool) -> (r: Self)
        ensures
            r == (Self { keep_null: Some(v), ..self }),
    {
        Self { keep_null: Some(v), ..self }
    }

    /// Return the old vertex in the response
    pub fn return_old(self, v: bool) -> (r: Self)
        ensures
            r == (Self { return_old: Some(v), ..self }),
    {
        Self { return_old: Some(v), ..self }
    }

    /// Return the new vertex in the response
    pub fn return_new(self, v: bool) -> (r: Self)
        ensures
            r == (Self { return_new: Some(v), ..self }),
    {
        Self { return_new: Some(v), ..self }
    }

    /// Update only if the vertex has this revision
    pub fn if_match(self, v: &str) -> (r: Self)
        ensures
            r == (Self { if_match: r.if_match, ..self }),
            r.if_match matches Some(s) && s@ == v@,
    {
        Self { if_match: Some(String::from_str(v)), ..self }
    }

    /// The new vertex data
    pub fn vertex(self, v: T) -> (r: Self)
        ensures
            r == (Self { vertex: Some(v), ..self }),
    {
        Self { vertex: Some(v), ..self }
    }

    /// The configuration, when every required field is set.
    pub fn build(self) -> (r: Result<UpdateVertexConfig<T>, BuilderError>)
        ensures
            self.name is None ==> (r matches Err(BuilderError::UninitializedField(f)) && f@ == "name"@),
            self.name is Some && self.collection is None ==> (r matches Err(BuilderError::UninitializedField(f)) && f@ == "collection"@),
            self.name is Some && self.collection is Some && self.key is None ==> (r matches Err(BuilderError::UninitializedField(f)) && f@ == "key"@),
            self.name is Some && self.collection is Some && self.key is Some && self.vertex is None ==> (r matches Err(BuilderError::UninitializedField(f)) && f@ == "vertex"@),
            self.name is Some && self.collection is Some && self.key is Some && self.vertex is Some ==> (r matches Ok(c) && c == (UpdateVertexConfig { name: self.name->0, collection: self.collection->0, key: self.key->0, wait_for_sync: self.wait_for_sync, keep_null: self.keep_null, return_old: self.return_old, return_new: self.return_new, if_match: self.if_match, vertex: self.vertex->0 })),
    {
        let name = match self.name {
            Some(v) => v,
            None => return Err(BuilderError::UninitializedField("name")),
        };
        let collection = match self.collection {
            Some(v) => v,
            None => return Err(BuilderError::UninitializedField("collection")),
        };
        let key = match self.key {
            Some(v) => v,
            None => return Err(BuilderError::UninitializedField("key")),
        };
        let vertex = match self.vertex {
            Some(v) => v,
            None => return Err(BuilderError::UninitializedField("vertex")),
        };
        Ok(UpdateVertexConfig { name, collection, key, wait_for_sync: self.wait_for_sync, keep_null: self.keep_null, return_old: self.return_old, return_new: self.return_new, if_match: self.if_match, vertex })
    }
}

/// Vertex collection configuration
#[derive(Clone, Debug)]
pub struct Collection {
    /// The name of the vertex collection to add to the graph
    pub collection: String,
}

impl Collection {
    /// The name of the vertex collection to add to the graph
    pub fn collection(&self) -> (r: &String)
        ensures
            *r == self.collection,
    {
        &self.collection
    }
}

/// Builds a [`Collection`]; `collection` must be set.
#[derive(Clone, Debug)]
pub struct CollectionBuilder {
    pub collection: Option<String>,
}

impl CollectionBuilder {
    /// A builder with nothing set.
    pub fn default() -> (r: Self)
        ensures
            r == (Self { collection: None }),
    {
        CollectionBuilder { collection: None }
    }

    /// The name of the vertex collection to add to the graph
    pub fn collection(self, v: &str) -> (r: Self)
        ensures
            r == (Self { collection: r.collection, ..self }),
            r.collection matches Some(s) && s@ == v@,
    {
        Self { collection: Some(String::from_str(v)), ..self }
    }

    /// The configuration, when every required field is set.
    pub fn build(self) -> (r: Result<Collection, BuilderError>)
        ensures
            self.collection is None ==> (r matches Err(BuilderError::UninitializedField(f)) && f@ == "collection"@),
            self.collection is Some ==> (r matches Ok(c) && c == (Collection { collection: self.collection->0 })),
    {
        let collection = match self.collection {
            Some(v) => v,
            None => return Err(BuilderError::UninitializedField("collection")),
        };
        Ok(Collection { collection })
    }
}

/// Graph create vertex collection configuration
#[derive(Clone, Debug)]
pub struct CreateVertexCollConfig {
    /// The name of the graph to add the vertex collection to
    pub name: String,
    /// The collection
    pub collection: Collection,
}


impl CreateVertexCollConfig {
    /// The query parameters of the request: none.
    pub open spec fn params(self) -> Seq<Seq<char>> {
        Seq::empty()
    }

    /// The path of the request and the query string.
    pub open spec fn suffix_spec(self, base: Seq<char>) -> Seq<char> {
        base + "/"@ + self.name@ + "/vertex"@ + query_string(self.params())
    }

    /// The url suffix of the request.
    pub fn build_suffix(&self, base: &str) -> (r: String)
        ensures
            r@ == self.suffix_spec(base@),
    {
        let mut url = slash_join(base, self.name.as_str());
        url.append("/vertex");
        let ghost prefix = url@;
        let mut has_qp = false;
        proof {
            lemma_query_empty(prefix);
        }
        let ghost ps = Seq::<Seq<char>>::empty();
        proof {
            assert(ps =~= self.params());
        }
        url
    }
}


/// Builds a [`CreateVertexCollConfig`]; both fields must be set.
#[derive(Clone, Debug)]
pub struct CreateVertexCollConfigBuilder {
    pub name: Option<String>,
    pub collection: Option<Collection>,
}

impl CreateVertexCollConfigBuilder {
    /// A builder with nothing set.
    pub fn default() -> (r: Self)
        ensures
            r == (Self { name: None, collection: None }),
    {
        CreateVertexCollConfigBuilder { name: None, collection: None }
    }

    /// The name of the graph to add the vertex collection to
    pub fn name(self, v: &str) -> (r: Self)
        ensures
            r == (Self { name: r.name, ..self }),
            r.name matches Some(s) && s@ == v@,
    {
        Self { name: Some(String::from_str(v)), ..self }
    }

    /// The collection
    pub fn collection(self, v: Collection) -> (r: Self)
        ensures
            r == (Self { collection: Some(v), ..self }),
    {
        Self { collection: Some(v), ..self }
    }

    /// The configuration, when every required field is set.
    pub fn build(self) -> (r: Result<CreateVertexCollConfig, BuilderError>)
        ensures
            self.name is None ==> (r matches Err(BuilderError::UninitializedField(f)) && f@ == "name"@),
            self.name is Some && self.collection is None ==> (r matches Err(BuilderError::UninitializedField(f)) && f@ == "collection"@),
            self.name is Some && self.collection is Some ==> (r matches Ok(c) && c == (CreateVertexCollConfig { name: self.name->0, collection: self.collection->0 })),
    {
        let name = match self.name {
            Some(v) => v,
            None => return Err(BuilderError::UninitializedField("name")),
        };
        let collection = match self.collection {
            Some(v) => v,
            None => return Err(BuilderError::UninitializedField("collection")),
        };
        Ok(CreateVertexCollConfig { name, collection })
    }
}

/// Graph delete vertex collection configuration
#[derive(Clone, Debug)]
pub struct DeleteVertexCollConfig {
    /// The name of the graph to remove the vertex collection from
    pub name: String,
    /// The vertex collection to remove
    pub collection: String,
    /// Drop the collection as well, when no other graph uses it.
    pub drop_collection: Option<bool>,
}


impl DeleteVertexCollConfig {
    /// The flags of the request, in the order in which they are sent.
    pub open spec fn flag_slots(self) -> Seq<(QpFlag, Option<bool>)> {
        seq![(QpFlag::DropCollection, self.drop_collection)]
    }

    /// The query parameters of the request: `dropCollection` when set.
    pub open spec fn params(self) -> Seq<Seq<char>> {
        opt_qp(self.drop_collection, QpFlag::DropCollection)
    }

    /// The path of the request and the query string.
    pub open spec fn suffix_spec(self, base: Seq<char>) -> Seq<char> {
        base + "/"@ + self.name@ + "/vertex/"@ + self.collection@ + query_string(self.params())
    }

    /// The url suffix of the request.
    pub fn build_suffix(&self, base: &str) -> (r: String)
        ensures
            r@ == self.suffix_spec(base@),
    {
        let mut url = slash_join(base, self.name.as_str());
        url.append("/vertex/");
        url.append(self.collection.as_str());
        let ghost prefix = url@;
        let mut has_qp = false;
        proof {
            lemma_query_empty(prefix);
        }
        let ghost ps = Seq::<Seq<char>>::empty();
        add_flag(self.drop_collection, &mut url, &mut has_qp, QpFlag::DropCollection, Ghost(prefix), Ghost(ps));
        let ghost ps = ps + opt_qp(self.drop_collection, QpFlag::DropCollection);
        proof {
            assert(ps =~= self.params());
        }
        url
    }
}


/// Builds a [`DeleteVertexCollConfig`]; `name` and `collection` must be set.
#[derive(Clone, Debug)]
pub struct DeleteVertexCollConfigBuilder {
    pub name: Option<String>,
    pub collection: Option<String>,
    pub drop_collection: Option<bool>,
}

impl DeleteVertexCollConfigBuilder {
    /// A builder with nothing set.
    pub fn default() -> (r: Self)
        ensures
            r == (Self { name: None, collection: None, drop_collection: None }),
    {
        DeleteVertexCollConfigBuilder { name: None, collection: None, drop_collection: None }
    }

    /// The name of the graph to remove the vertex collection from
    pub fn name(self, v: &str) -> (r: Self)
        ensures
            r == (Self { name: r.name, ..self }),
            r.name matches Some(s) && s@ == v@,
    {
        Self { name: Some(String::from_str(v)), ..self }
    }

    /// The vertex collection to remove
    pub fn collection(self, v: &str) -> (r: Self)
        ensures
            r == (Self { collection: r.collection, ..self }),
            r.collection matches Some(s) && s@ == v@,
    {
        Self { collection: Some(String::from_str(v)), ..self }
    }

    /// Drop the collection as well, when no other graph uses it.
    pub fn drop_collection(self, v: bool) -> (r: Self)
        ensures
            r == (Self { drop_collection: Some(v), ..self }),
    {
        Self { drop_collection: Some(v), ..self }
    }

    /// The configuration, when every required field is set.
    pub fn build(self) -> (r: Result<DeleteVertexCollConfig, BuilderError>)
        ensures
            self.name is None ==> (r matches Err(BuilderError::UninitializedField(f)) && f@ == "name"@),
            self.name is Some && self.collection is None ==> (r matches Err(BuilderError::UninitializedField(f)) && f@ == "collection"@),
            self.name is Some && self.collection is Some ==> (r matches Ok(c) && c == (DeleteVertexCollConfig { name: self.name->0, collection: self.collection->0, drop_collection: self.drop_collection })),
    {
        let name = match self.name {
            Some(v) => v,
            None => return Err(BuilderError::UninitializedField("name")),
        };
        let collection = match self.collection {
            Some(v) => v,
            None => return Err(BuilderError::UninitializedField("collection")),
        };
        Ok(DeleteVertexCollConfig { name, collection, drop_collection: self.drop_collection })
    }
}

/// Each flag of a graph creation request is sent at most once, in a fixed order:
/// the parameters are the texts of a list of distinct flags, and the query
/// string puts a single `?` in front of them (see `lemma_query_string_marks`).
pub proof fn lemma_create_graph_flags_once(c: CreateConfig)
    ensures
        distinct_flags(c.flag_slots()),
        c.params() == flags_params(c.flag_slots()),
{
    lemma_flags_params_unfold(c.flag_slots());
}

/// Each flag of a edge creation request is sent at most once, in a fixed order:
/// the parameters are the texts of a list of distinct flags, and the query
/// string puts a single `?` in front of them (see `lemma_query_string_marks`).
pub proof fn lemma_edge_create_flags_once(c: EdgeCreateConfig)
    ensures
        distinct_flags(c.flag_slots()),
        c.params() == flags_params(c.flag_slots()),
{
    lemma_flags_params_unfold(c.flag_slots());
}

/// Each flag of a edge definition replacement request is sent at most once, in a fixed order:
/// the parameters are the texts of a list of distinct flags, and the query
/// string puts a single `?` in front of them (see `lemma_query_string_marks`).
pub proof fn lemma_replace_edge_def_flags_once(c: ReplaceEdgeDefConfig)
    ensures
        distinct_flags(c.flag_slots()),
        c.params() == flags_params(c.flag_slots()),
{
    lemma_flags_params_unfold(c.flag_slots());
}

/// Each flag of a vertex deletion request is sent at most once, in a fixed order:
/// the parameters are the texts of a list of distinct flags, and the query
/// string puts a single `?` in front of them (see `lemma_query_string_marks`).
pub proof fn lemma_delete_vertex_flags_once(c: DeleteVertexConfig)
    ensures
        distinct_flags(c.flag_slots()),
        c.params() == flags_params(c.flag_slots()),
{
    lemma_flags_params_unfold(c.flag_slots());
}

/// Each flag of a vertex update request is sent at most once, in a fixed order:
/// the parameters are the texts of a list of distinct flags, and the query
/// string puts a single `?` in front of them (see `lemma_query_string_marks`).
pub proof fn lemma_update_vertex_flags_once<T>(c: UpdateVertexConfig<T>)
    ensures
        distinct_flags(c.flag_slots()),
        c.params() == flags_params(c.flag_slots()),
{
    lemma_flags_params_unfold(c.flag_slots());
}

/// Each flag of a vertex collection removal request is sent at most once, in a fixed order:
/// the parameters are the texts of a list of distinct flags, and the query
/// string puts a single `?` in front of them (see `lemma_query_string_marks`).
pub proof fn lemma_delete_vertex_coll_flags_once(c: DeleteVertexCollConfig)
    ensures
        distinct_flags(c.flag_slots()),
        c.params() == flags_params(c.flag_slots()),
{
    lemma_flags_params_unfold(c.flag_slots());
}

/// The url of a graph creation (`r`, what `build_suffix` gives): `base`,
/// then `waitForSync` with the value it was set to.
pub proof fn lemma_create_graph_url(c: CreateConfig, base: Seq<char>, r: Seq<char>)
    requires
        r == c.suffix_spec(base),
    ensures
        r == base + query_string(flag_param("waitForSync"@, c.wait_for_sync)),
{
    lemma_flag_names(QpFlag::WaitForSync, c.wait_for_sync);
}

/// The url of an edge creation (`r`, what `build_suffix` gives): the edge
/// collection under the graph's `edge` path, then `waitForSync` and
/// `returnNew` with their values.
pub proof fn lemma_edge_create_url(c: EdgeCreateConfig, base: Seq<char>, r: Seq<char>)
    requires
        r == c.suffix_spec(base),
    ensures
        r == base + "/"@ + c.graph@ + "/edge/"@ + c.collection@ + query_string(
            flag_param("waitForSync"@, c.wait_for_sync) + flag_param("returnNew"@, c.return_new),
        ),
{
    lemma_flag_names(QpFlag::WaitForSync, c.wait_for_sync);
    lemma_flag_names(QpFlag::ReturnNew, c.return_new);
}

/// The url of an edge read (`r`, what `build_suffix` gives): the edge's key
/// under its collection under the graph's `edge` path; no parameters.
pub proof fn lemma_edge_read_url(c: EdgeReadConfig, base: Seq<char>, r: Seq<char>)
    requires
        r == c.suffix_spec(base),
    ensures
        r == base + "/"@ + c.graph@ + "/edge/"@ + c.collection@ + "/"@ + c.key@,
{
    assert(query_string(Seq::<Seq<char>>::empty()) =~= Seq::<char>::empty());
}

/// The header of an edge read (`r`, what `add_headers` gives): the `rev`
/// revision when one is set, else the `if-match` one, else the
/// `if-none-match` one, else no header.
pub proof fn lemma_edge_read_headers(c: EdgeReadConfig, r: Result<Option<HeaderMap>, RuarangoErr>)
    requires
        headers_outcome(first_header(c.header_candidates()), r),
    ensures
        c.rev matches Some(v) ==> sends_header(r, "rev"@, v@),
        c.rev is None ==> (c.if_match matches Some(v) ==> sends_header(r, "if-match"@, v@)),
        c.rev is None && c.if_match is None ==> (c.if_none_match matches Some(v) ==> sends_header(
            r,
            "if-none-match"@,
            v@,
        )),
        c.rev is None && c.if_match is None && c.if_none_match is None ==> r matches Ok(None),
{
    reveal_with_fuel(first_header, 4);
}

/// The url of an edge definition replacement (`r`, what `build_suffix`
/// gives): the definition's edge collection under the graph's `edge` path,
/// then `waitForSync` and `dropCollections` with their values.
pub proof fn lemma_replace_edge_def_url(c: ReplaceEdgeDefConfig, base: Seq<char>, r: Seq<char>)
    requires
        r == c.suffix_spec(base),
    ensures
        r == base + "/"@ + c.graph@ + "/edge/"@ + c.edge_def.collection@ + query_string(
            flag_param("waitForSync"@, c.wait_for_sync) + flag_param(
                "dropCollections"@,
                c.drop_collections,
            ),
        ),
{
    lemma_flag_names(QpFlag::WaitForSync, c.wait_for_sync);
    lemma_flag_names(QpFlag::DropCollections, c.drop_collections);
}

/// The url of a vertex deletion (`r`, what `build_suffix` gives): the
/// vertex's key under its collection under the graph's `vertex` path, then
/// `waitForSync` and `returnOld` with their values.
pub proof fn lemma_delete_vertex_url(c: DeleteVertexConfig, base: Seq<char>, r: Seq<char>)
    requires
        r == c.suffix_spec(base),
    ensures
        r == base + "/"@ + c.name@ + "/vertex/"@ + c.collection@ + "/"@ + c.key@ + query_string(
            flag_param("waitForSync"@, c.wait_for_sync) + flag_param("returnOld"@, c.return_old),
        ),
{
    lemma_flag_names(QpFlag::WaitForSync, c.wait_for_sync);
    lemma_flag_names(QpFlag::ReturnOld, c.return_old);
}

/// The header of a vertex deletion (`r`, what `add_headers` gives): the
/// `if-match` revision when one is set, else no header.
pub proof fn lemma_delete_vertex_headers(
    c: DeleteVertexConfig,
    r: Result<Option<HeaderMap>, RuarangoErr>,
)
    requires
        headers_outcome(first_header(c.header_candidates()), r),
    ensures
        c.if_match matches Some(v) ==> sends_header(r, "if-match"@, v@),
        c.if_match is None ==> r matches Ok(None),
{
    reveal_with_fuel(first_header, 2);
}

/// The url of a vertex read (`r`, what `build_suffix` gives): the vertex's
/// key under its collection under the graph's `vertex` path; no parameters.
pub proof fn lemma_read_vertex_url(c: ReadVertexConfig, base: Seq<char>, r: Seq<char>)
    requires
        r == c.suffix_spec(base),
    ensures
        r == base + "/"@ + c.name@ + "/vertex/"@ + c.collection@ + "/"@ + c.key@,
{
    assert(query_string(Seq::<Seq<char>>::empty()) =~= Seq::<char>::empty());
}

/// The header of a vertex read (`r`, what `add_headers` gives): the
/// `if-match` revision when one is set, else the `if-none-match` one, else
/// no header.
pub proof fn lemma_read_vertex_headers(c: ReadVertexConfig, r: Result<Option<HeaderMap>, RuarangoErr>)
    requires
        headers_outcome(first_header(c.header_candidates()), r),
    ensures
        c.if_match matches Some(v) ==> sends_header(r, "if-match"@, v@),
        c.if_match is None ==> (c.if_none_match matches Some(v) ==> sends_header(
            r,
            "if-none-match"@,
            v@,
        )),
        c.if_match is None && c.if_none_match is None ==> r matches Ok(None),
{
    reveal_with_fuel(first_header, 3);
}

/// The url of a vertex update (`r`, what `build_suffix` gives): the
/// vertex's key under its collection under the graph's `vertex` path, then
/// `waitForSync`, `keepNull`, `returnOld` and `returnNew` with their values.
pub proof fn lemma_update_vertex_url<T>(c: UpdateVertexConfig<T>, base: Seq<char>, r: Seq<char>)
    requires
        r == c.suffix_spec(base),
    ensures
        r == base + "/"@ + c.name@ + "/vertex/"@ + c.collection@ + "/"@ + c.key@ + query_string(
            flag_param("waitForSync"@, c.wait_for_sync) + flag_param("keepNull"@, c.keep_null)
                + flag_param("returnOld"@, c.return_old) + flag_param("returnNew"@, c.return_new),
        ),
{
    lemma_flag_names(QpFlag::WaitForSync, c.wait_for_sync);
    lemma_flag_names(QpFlag::KeepNull, c.keep_null);
    lemma_flag_names(QpFlag::ReturnOld, c.return_old);
    lemma_flag_names(QpFlag::ReturnNew, c.return_new);
}

/// The header of a vertex update (`r`, what `add_headers` gives): the
/// `if-match` revision when one is set, else no header.
pub proof fn lemma_update_vertex_headers<T>(
    c: UpdateVertexConfig<T>,
    r: Result<Option<HeaderMap>, RuarangoErr>,
)
    requires
        headers_outcome(first_header(c.header_candidates()), r),
    ensures
        c.if_match matches Some(v) ==> sends_header(r, "if-match"@, v@),
        c.if_match is None ==> r matches Ok(None),
{
    reveal_with_fuel(first_header, 2);
}

/// The url of adding a vertex collection (`r`, what `build_suffix` gives):
/// the graph's `vertex` path; no parameters.
pub proof fn lemma_create_vertex_coll_url(c: CreateVertexCollConfig, base: Seq<char>, r: Seq<char>)
    requires
        r == c.suffix_spec(base),
    ensures
        r == base + "/"@ + c.name@ + "/vertex"@,
{
    assert(query_string(Seq::<Seq<char>>::empty()) =~= Seq::<char>::empty());
}

/// The url of removing a vertex collection (`r`, what `build_suffix`
/// gives): the collection under the graph's `vertex` path, then
/// `dropCollection` with its value.
pub proof fn lemma_delete_vertex_coll_url(c: DeleteVertexCollConfig, base: Seq<char>, r: Seq<char>)
    requires
        r == c.suffix_spec(base),
    ensures
        r == base + "/"@ + c.name@ + "/vertex/"@ + c.collection@ + query_string(
            flag_param("dropCollection"@, c.drop_collection),
        ),
{
    lemma_flag_names(QpFlag::DropCollection, c.drop_collection);
}

} // verus!
