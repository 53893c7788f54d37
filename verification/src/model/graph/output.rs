//! Graph operation outputs.

use crate::model::graph::EdgeDefinition;
use vstd::prelude::*;

verus! {

/// Graph data
#[derive(Clone, Debug)]
pub struct Graph {
    /// Contains the graph identifier
    pub id: String,
    /// Contains the graph key
    pub key: String,
    /// Contains the graph revision
    pub rev: String,
    /// The graph name
    pub name: String,
    /// Additional vertex collections, without edges in this graph
    pub orphan_collections: Vec<String>,
    /// The definitions of the relations of the graph
    pub edge_definitions: Vec<EdgeDefinition>,
}

impl Graph {
    /// Contains the graph identifier
    pub fn id(&self) -> (r: &String)
        ensures
            *r == self.id,
    {
        &self.id
    }

    /// Contains the graph key
    pub fn key(&self) -> (r: &String)
        ensures
            *r == self.key,
    {
        &self.key
    }

    /// Contains the graph revision
    pub fn rev(&self) -> (r: &String)
        ensures
            *r == self.rev,
    {
        &self.rev
    }

    /// The graph name
    pub fn name(&self) -> (r: &String)
        ensures
            *r == self.name,
    {
        &self.name
    }

    /// Additional vertex collections, without edges in this graph
    pub fn orphan_collections(&self) -> (r: &Vec<String>)
        ensures
            *r == self.orphan_collections,
    {
        &self.orphan_collections
    }

    /// The definitions of the relations of the graph
    pub fn edge_definitions(&self) -> (r: &Vec<EdgeDefinition>)
        ensures
            *r == self.edge_definitions,
    {
        &self.edge_definitions
    }
}

/// Output for listing the graphs
#[derive(Clone, Debug)]
pub struct List {
    /// A flag to indicate that an error occurred
    pub error: bool,
    /// The HTTP response code
    pub code: u16,
    /// An array of graph data
    pub graphs: Vec<Graph>,
}

impl List {
    /// A flag to indicate that an error occurred
    pub fn error(&self) -> (r: &bool)
        ensures
            *r == self.error,
    {
        &self.error
    }

    /// The HTTP response code
    pub fn code(&self) -> (r: &u16)
        ensures
            *r == self.code,
    {
        &self.code
    }

    /// An array of graph data
    pub fn graphs(&self) -> (r: &Vec<Graph>)
        ensures
            *r == self.graphs,
    {
        &self.graphs
    }
}

/// Output for creating or reading a graph
#[derive(Clone, Debug)]
pub struct GraphMeta {
    /// A flag to indicate that an error occurred
    pub error: bool,
    /// The HTTP response code
    pub code: u16,
    /// The graph data
    pub graph: Graph,
}

impl GraphMeta {
    /// A flag to indicate that an error occurred
    pub fn error(&self) -> (r: &bool)
        ensures
            *r == self.error,
    {
        &self.error
    }

    /// The HTTP response code
    pub fn code(&self) -> (r: &u16)
        ensures
            *r == self.code,
    {
        &self.code
    }

    /// The graph data
    pub fn graph(&self) -> (r: &Graph)
        ensures
            *r == self.graph,
    {
        &self.graph
    }
}

/// Output for reading the edge definitions
#[derive(Clone, Debug)]
pub struct EdgesMeta {
    /// A flag to indicate that an error occurred
    pub error: bool,
    /// The HTTP response code
    pub code: u16,
    /// The vertex collections of the graph, orphans included
    pub collections: Vec<String>,
}

impl EdgesMeta {
    /// A flag to indicate that an error occurred
    pub fn error(&self) -> (r: &bool)
        ensures
            *r == self.error,
    {
        &self.error
    }

    /// The HTTP response code
    pub fn code(&self) -> (r: &u16)
        ensures
            *r == self.code,
    {
        &self.code
    }

    /// The vertex collections of the graph, orphans included
    pub fn collections(&self) -> (r: &Vec<String>)
        ensures
            *r == self.collections,
    {
        &self.collections
    }
}

/// Edge meta data
#[derive(Clone, Debug)]
pub struct EdgeMeta {
    /// Contains the edge identifier
    pub id: String,
    /// Contains the edge key
    pub key: String,
    /// Contains the edge revision
    pub rev: String,
    /// Contains the `_from` of the edge
    pub from: Option<String>,
    /// Contains the `_to` of the edge
    pub to: Option<String>,
}

impl EdgeMeta {
    /// Contains the edge identifier
    pub fn id(&self) -> (r: &String)
        ensures
            *r == self.id,
    {
        &self.id
    }

    /// Contains the edge key
    pub fn key(&self) -> (r: &String)
        ensures
            *r == self.key,
    {
        &self.key
    }

    /// Contains the edge revision
    pub fn rev(&self) -> (r: &String)
        ensures
            *r == self.rev,
    {
        &self.rev
    }

    /// Contains the `_from` of the edge
    pub fn from(&self) -> (r: &Option<String>)
        ensures
            *r == self.from,
    {
        &self.from
    }

    /// Contains the `_to` of the edge
    pub fn to(&self) -> (r: &Option<String>)
        ensures
            *r == self.to,
    {
        &self.to
    }
}

/// Output for creating an edge
#[derive(Clone, Debug)]
pub struct CreateEdge {
    /// A flag to indicate that an error occurred
    pub error: bool,
    /// The HTTP response code
    pub code: u16,
    /// The edge meta
    pub edge: EdgeMeta,
    /// The new edge meta
    pub new: Option<EdgeMeta>,
}

impl CreateEdge {
    /// A flag to indicate that an error occurred
    pub fn error(&self) -> (r: &bool)
        ensures
            *r == self.error,
    {
        &self.error
    }

    /// The HTTP response code
    pub fn code(&self) -> (r: &u16)
        ensures
            *r == self.code,
    {
        &self.code
    }

    /// The edge meta
    pub fn edge(&self) -> (r: &EdgeMeta)
        ensures
            *r == self.edge,
    {
        &self.edge
    }

    /// The new edge meta
    pub fn new(&self) -> (r: &Option<EdgeMeta>)
        ensures
            *r == self.new,
    {
        &self.new
    }
}

/// Output for deleting an edge
#[derive(Clone, Debug)]
pub struct DeleteEdge {
    /// A flag to indicate that an error occurred
    pub error: bool,
    /// The HTTP response code
    pub code: u16,
    /// If set to true, the delete was successful
    pub removed: bool,
    /// The old edge meta
    pub old: Option<EdgeMeta>,
}

impl DeleteEdge {
    /// A flag to indicate that an error occurred
    pub fn error(&self) -> (r: &bool)
        ensures
            *r == self.error,
    {
        &self.error
    }

    /// The HTTP response code
    pub fn code(&self) -> (r: &u16)
        ensures
            *r == self.code,
    {
        &self.code
    }

    /// If set to true, the delete was successful
    pub fn removed(&self) -> (r: &bool)
        ensures
            *r == self.removed,
    {
        &self.removed
    }

    /// The old edge meta
    pub fn old_edge(&self) -> (r: &Option<EdgeMeta>)
        ensures
            *r == self.old,
    {
        &self.old
    }
}

/// Output for reading an edge
#[derive(Clone, Debug)]
pub struct ReadEdge {
    /// A flag to indicate that an error occurred
    pub error: bool,
    /// The HTTP response code
    pub code: u16,
    /// The edge meta
    pub edge: EdgeMeta,
}

impl ReadEdge {
    /// A flag to indicate that an error occurred
    pub fn error(&self) -> (r: &bool)
        ensures
            *r == self.error,
    {
        &self.error
    }

    /// The HTTP response code
    pub fn code(&self) -> (r: &u16)
        ensures
            *r == self.code,
    {
        &self.code
    }

    /// The edge meta
    pub fn edge(&self) -> (r: &EdgeMeta)
        ensures
            *r == self.edge,
    {
        &self.edge
    }
}

/// Output for updating an edge
#[derive(Clone, Debug)]
pub struct UpdateEdge {
    /// A flag to indicate that an error occurred
    pub error: bool,
    /// The HTTP response code
    pub code: u16,
    /// The edge meta
    pub edge: EdgeMeta,
    /// The old edge meta
    pub old: Option<EdgeMeta>,
    /// The new edge meta
    pub new: Option<EdgeMeta>,
}

impl UpdateEdge {
    /// A flag to indicate that an error occurred
    pub fn error(&self) -> (r: &bool)
        ensures
            *r == self.error,
    {
        &self.error
    }

    /// The HTTP response code
    pub fn code(&self) -> (r: &u16)
        ensures
            *r == self.code,
    {
        &self.code
    }

    /// The edge meta
    pub fn edge(&self) -> (r: &EdgeMeta)
        ensures
            *r == self.edge,
    {
        &self.edge
    }

    /// The old edge meta
    pub fn old_edge(&self) -> (r: &Option<EdgeMeta>)
        ensures
            *r == self.old,
    {
        &self.old
    }

    /// The new edge meta
    pub fn new(&self) -> (r: &Option<EdgeMeta>)
        ensures
            *r == self.new,
    {
        &self.new
    }
}

/// Output for replacing an edge
#[derive(Clone, Debug)]
pub struct ReplaceEdge {
    /// A flag to indicate that an error occurred
    pub error: bool,
    /// The HTTP response code
    pub code: u16,
    /// The edge meta
    pub edge: EdgeMeta,
    /// The old edge meta
    pub old: Option<EdgeMeta>,
    /// The new edge meta
    pub new: Option<EdgeMeta>,
}

impl ReplaceEdge {
    /// A flag to indicate that an error occurred
    pub fn error(&self) -> (r: &bool)
        ensures
            *r == self.error,
    {
        &self.error
    }

    /// The HTTP response code
    pub fn code(&self) -> (r: &u16)
        ensures
            *r == self.code,
    {
        &self.code
    }

    /// The edge meta
    pub fn edge(&self) -> (r: &EdgeMeta)
        ensures
            *r == self.edge,
    {
        &self.edge
    }

    /// The old edge meta
    pub fn old_edge(&self) -> (r: &Option<EdgeMeta>)
        ensures
            *r == self.old,
    {
        &self.old
    }

    /// The new edge meta
    pub fn new(&self) -> (r: &Option<EdgeMeta>)
        ensures
            *r == self.new,
    {
        &self.new
    }
}

/// Output for reading the vertex collections
#[derive(Clone, Debug)]
pub struct VertexColls {
    /// A flag to indicate that an error occurred
    pub error: bool,
    /// The HTTP response code
    pub code: u16,
    /// The list of vertex collections
    pub collections: Vec<String>,
}

impl VertexColls {
    /// A flag to indicate that an error occurred
    pub fn error(&self) -> (r: &bool)
        ensures
            *r == self.error,
    {
        &self.error
    }

    /// The HTTP response code
    pub fn code(&self) -> (r: &u16)
        ensures
            *r == self.code,
    {
        &self.code
    }

    /// The list of vertex collections
    pub fn collections(&self) -> (r: &Vec<String>)
        ensures
            *r == self.collections,
    {
        &self.collections
    }
}

/// Vertex data
#[derive(Clone, Debug)]
pub struct Vertex {
    /// Contains the vertex identifier
    pub id: String,
    /// Contains the vertex key
    pub key: String,
    /// Contains the vertex revision
    pub rev: String,
}

impl Vertex {
    /// Contains the vertex identifier
    pub fn id(&self) -> (r: &String)
        ensures
            *r == self.id,
    {
        &self.id
    }

    /// Contains the vertex key
    pub fn key(&self) -> (r: &String)
        ensures
            *r == self.key,
    {
        &self.key
    }

    /// Contains the vertex revision
    pub fn rev(&self) -> (r: &String)
        ensures
            *r == self.rev,
    {
        &self.rev
    }
}

/// Output for creating a vertex
#[derive(Clone, Debug)]
pub struct VertexMeta {
    /// A flag to indicate that an error occurred
    pub error: bool,
    /// The HTTP response code
    pub code: u16,
    /// The vertex data
    pub vertex: Vertex,
    /// Optional new vertex data
    pub new: Option<Vertex>,
}

impl VertexMeta {
    /// A flag to indicate that an error occurred
    pub fn error(&self) -> (r: &bool)
        ensures
            *r == self.error,
    {
        &self.error
    }

    /// The HTTP response code
    pub fn code(&self) -> (r: &u16)
        ensures
            *r == self.code,
    {
        &self.code
    }

    /// The vertex data
    pub fn vertex(&self) -> (r: &Vertex)
        ensures
            *r == self.vertex,
    {
        &self.vertex
    }

    /// Optional new vertex data
    pub fn new(&self) -> (r: &Option<Vertex>)
        ensures
            *r == self.new,
    {
        &self.new
    }
}

} // verus!
