//! Graphs: edge definitions, the inputs and outputs of graph operations.

use crate::error::BuilderError;
use vstd::prelude::*;
use vstd::string::*;

pub mod input;
pub mod output;

verus! {

/// The path of the graph API.
pub const BASE_GRAPH_SUFFIX: &'static str = "_api/gharial";

/// Edge Definition Data
#[derive(Debug)]
pub struct EdgeDefinition {
    /// Name of the edge collection, where the edges are stored in.
    pub collection: String,
    /// The vertex collections that the `_to` of an edge may lie in.
    pub to: Vec<String>,
    /// The vertex collections that the `_from` of an edge may lie in.
    pub from: Vec<String>,
}

/// Two edge definitions name the same collections.
pub open spec fn same_edge_def(a: EdgeDefinition, b: EdgeDefinition) -> bool {
    &&& a.collection@ == b.collection@
    &&& a.to@ == b.to@
    &&& a.from@ == b.from@
}

/// A list of owned texts holds the same texts as another.
pub proof fn lemma_cloned_texts(a: Vec<String>, b: Vec<String>)
    requires
        a.len() == b.len(),
        forall|i: int| 0 <= i < a.len() ==> cloned::<String>(#[trigger] a[i], b[i]),
    ensures
        a@ == b@,
{
    assert forall|i: int| 0 <= i < a.len() implies a@[i] == b@[i] by {
        assert(cloned::<String>(a[i], b[i]));
    }
    assert(a@ =~= b@);
}

impl Clone for EdgeDefinition {
    /// A copy naming the same collections.
    fn clone(&self) -> (r: Self)
        ensures
            same_edge_def(r, *self),
    {
        let to = self.to.clone();
        let from = self.from.clone();
        proof {
            lemma_cloned_texts(self.to, to);
            lemma_cloned_texts(self.from, from);
        }
        EdgeDefinition { collection: self.collection.clone(), to, from }
    }
}

impl EdgeDefinition {
    /// Name of the edge collection, where the edges are stored in.
    pub fn collection(&self) -> (r: &String)
        ensures
            *r == self.collection,
    {
        &self.collection
    }

    /// The vertex collections that the `_to` of an edge may lie in.
    pub fn to(&self) -> (r: &Vec<String>)
        ensures
            *r == self.to,
    {
        &self.to
    }

    /// The vertex collections that the `_from` of an edge may lie in.
    pub fn from(&self) -> (r: &Vec<String>)
        ensures
            *r == self.from,
    {
        &self.from
    }
}

/// Builds a [`EdgeDefinition`]; every field must be set.
#[derive(Clone, Debug)]
pub struct EdgeDefinitionBuilder {
    pub collection: Option<String>,
    pub to: Option<Vec<String>>,
    pub from: Option<Vec<String>>,
}

impl EdgeDefinitionBuilder {
    /// A builder with nothing set.
    pub fn default() -> (r: Self)
        ensures
            r == (Self { collection: None, to: None, from: None }),
    {
        EdgeDefinitionBuilder { collection: None, to: None, from: None }
    }

    /// Name of the edge collection, where the edges are stored in.
    pub fn collection(self, v: &str) -> (r: Self)
        ensures
            r == (Self { collection: r.collection, ..self }),
            r.collection matches Some(s) && s@ == v@,
    {
        Self { collection: Some(String::from_str(v)), ..self }
    }

    /// The vertex collections that the `_to` of an edge may lie in.
    pub fn to(self, v: Vec<String>) -> (r: Self)
        ensures
            r == (Self { to: Some(v), ..self }),
    {
        Self { to: Some(v), ..self }
    }

    /// The vertex collections that the `_from` of an edge may lie in.
    pub fn from(self, v: Vec<String>) -> (r: Self)
        ensures
            r == (Self { from: Some(v), ..self }),
    {
        Self { from: Some(v), ..self }
    }

    /// The configuration, when every required field is set.
    pub fn build(self) -> (r: Result<EdgeDefinition, BuilderError>)
        ensures
            self.collection is None ==> (r matches Err(BuilderError::UninitializedField(f)) && f@ == "collection"@),
            self.collection is Some && self.to is None ==> (r matches Err(BuilderError::UninitializedField(f)) && f@ == "to"@),
            self.collection is Some && self.to is Some && self.from is None ==> (r matches Err(BuilderError::UninitializedField(f)) && f@ == "from"@),
            self.collection is Some && self.to is Some && self.from is Some ==> (r matches Ok(c) && c == (EdgeDefinition { collection: self.collection->0, to: self.to->0, from: self.from->0 })),
    {
        let collection = match self.collection {
            Some(v) => v,
            None => return Err(BuilderError::UninitializedField("collection")),
        };
        let to = match self.to {
            Some(v) => v,
            None => return Err(BuilderError::UninitializedField("to")),
        };
        let from = match self.from {
            Some(v) => v,
            None => return Err(BuilderError::UninitializedField("from")),
        };
        Ok(EdgeDefinition { collection, to, from })
    }
}

} // verus!
