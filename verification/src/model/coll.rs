//! Collections: their kinds and statuses, the paths of the collection
//! endpoints, and the collection models.

use crate::error::BuilderError;
use crate::query::{lemma_query_empty, lemma_query_push, push_segment, query_string, slash_join};
use vstd::prelude::*;
use vstd::string::*;

verus! {

/// The path of the collection API.
pub const COLL_SUFFIX: &'static str = "_api/collection";

/// The collection kind
#[derive(Clone, Copy, Debug, PartialEq, Eq, Structural)]
pub enum CollectionKind {
    /// A document collection
    Document,
    /// An edges collection
    Edges,
}

/// The number under which the server sends a collection kind.
pub open spec fn kind_code(k: CollectionKind) -> u64 {
    match k {
        CollectionKind::Document => 2,
        CollectionKind::Edges => 3,
    }
}

/// The collection kind that the server's number stands for: 2 and 3, and
/// no other number.
pub open spec fn kind_of_code(c: u64) -> Option<CollectionKind> {
    if c == 2 {
        Some(CollectionKind::Document)
    } else if c == 3 {
        Some(CollectionKind::Edges)
    } else {
        None
    }
}

impl CollectionKind {
    /// The number under which the server sends this kind.
    pub fn code(self) -> (r: u64)
        ensures
            r == kind_code(self),
    {
        match self {
            CollectionKind::Document => 2,
            CollectionKind::Edges => 3,
        }
    }

    /// The kind that the server's number `c` stands for; `None` for a number
    /// that stands for no kind.
    pub fn from_code(c: u64) -> (r: Option<CollectionKind>)
        ensures
            r == kind_of_code(c),
    {
        if c == 2 {
            Some(CollectionKind::Document)
        } else if c == 3 {
            Some(CollectionKind::Edges)
        } else {
            None
        }
    }
}

/// The collection status
#[derive(Clone, Copy, Debug, PartialEq, Eq, Structural)]
pub enum Status {
    /// unknown - may be corrupted
    Unknown,
    /// unloaded
    Unloaded,
    /// loaded
    Loaded,
    /// unloading
    Unloading,
    /// deleted
    Deleted,
    /// loading
    Loading,
}

/// The number under which the server sends a status.
pub open spec fn status_code(s: Status) -> u64 {
    match s {
        Status::Unknown => 0,
        Status::Unloaded => 2,
        Status::Loaded => 3,
        Status::Unloading => 4,
        Status::Deleted => 5,
        Status::Loading => 6,
    }
}

/// The status that the server's number stands for: 2 to 6 name a status,
/// every other number stands for an unknown (maybe corrupted) collection.
pub open spec fn status_of_code(c: u64) -> Status {
    if c == 2 {
        Status::Unloaded
    } else if c == 3 {
        Status::Loaded
    } else if c == 4 {
        Status::Unloading
    } else if c == 5 {
        Status::Deleted
    } else if c == 6 {
        Status::Loading
    } else {
        Status::Unknown
    }
}

impl Status {
    /// The number under which the server sends this status.
    pub fn code(self) -> (r: u64)
        ensures
            r == status_code(self),
    {
        match self {
            Status::Unknown => 0,
            Status::Unloaded => 2,
            Status::Loaded => 3,
            Status::Unloading => 4,
            Status::Deleted => 5,
            Status::Loading => 6,
        }
    }

    /// The status that the server's number `c` stands for.
    pub fn from_code(c: u64) -> (r: Status)
        ensures
            r == status_of_code(c),
    {
        if c == 2 {
            Status::Unloaded
        } else if c == 3 {
            Status::Loaded
        } else if c == 4 {
            Status::Unloading
        } else if c == 5 {
            Status::Deleted
        } else if c == 6 {
            Status::Loading
        } else {
            Status::Unknown
        }
    }
}

/// Reading back the number of a kind gives that kind again.
pub proof fn lemma_kind_code_roundtrip(k: CollectionKind)
    ensures
        kind_of_code(kind_code(k)) == Some(k),
{
}

/// Reading back the number of a status gives that status again.
pub proof fn lemma_status_code_roundtrip(s: Status)
    ensures
        status_of_code(status_code(s)) == s,
{
}

/// The operations on one collection that have an endpoint of their own.
#[derive(Clone, Copy, Debug, PartialEq, Eq, Structural)]
pub enum CollectionOp {
    /// The number of documents
    Count,
    /// Figures and statistics
    Figures,
    /// The revision id
    Revision,
    /// Load into memory
    Load,
    /// Load the indexes into memory
    LoadIndexes,
    /// Change the properties
    Properties,
    /// Recalculate the document count
    RecalculateCount,
    /// Rename
    Rename,
    /// Remove all documents
    Truncate,
    /// Remove from memory
    Unload,
}

/// The last path segment of each operation's endpoint.
pub open spec fn op_segment(op: CollectionOp) -> Seq<char> {
    match op {
        CollectionOp::Count => "count"@,
        CollectionOp::Figures => "figures"@,
        CollectionOp::Revision => "revision"@,
        CollectionOp::Load => "load"@,
        CollectionOp::LoadIndexes => "loadIndexesIntoMemory"@,
        CollectionOp::Properties => "properties"@,
        CollectionOp::RecalculateCount => "recalculateCount"@,
        CollectionOp::Rename => "rename"@,
        CollectionOp::Truncate => "truncate"@,
        CollectionOp::Unload => "unload"@,
    }
}

impl CollectionOp {
    /// The last path segment of this operation's endpoint.
    pub fn segment(self) -> (r: &'static str)
        ensures
            r@ == op_segment(self),
    {
        match self {
            CollectionOp::Count => "count",
            CollectionOp::Figures => "figures",
            CollectionOp::Revision => "revision",
            CollectionOp::Load => "load",
            CollectionOp::LoadIndexes => "loadIndexesIntoMemory",
            CollectionOp::Properties => "properties",
            CollectionOp::RecalculateCount => "recalculateCount",
            CollectionOp::Rename => "rename",
            CollectionOp::Truncate => "truncate",
            CollectionOp::Unload => "unload",
        }
    }
}

/// `_api/collection/<name>`
pub open spec fn coll_path(name: Seq<char>) -> Seq<char> {
    "_api/collection"@ + "/"@ + name
}

/// The path that lists the collections, without the system collections when
/// `exclude_system` is set.
pub fn collections_suffix(exclude_system: bool) -> (r: &'static str)
    ensures
        r@ == "_api/collection"@ + if exclude_system {
            "?excludeSystem=true"@
        } else {
            Seq::empty()
        },
{
    proof {
        reveal_strlit("_api/collection");
        reveal_strlit("?excludeSystem=true");
        reveal_strlit("_api/collection?excludeSystem=true");
    }
    if exclude_system {
        "_api/collection?excludeSystem=true"
    } else {
        proof {
            assert("_api/collection"@ + Seq::<char>::empty() =~= "_api/collection"@);
        }
        COLL_SUFFIX
    }
}

/// The path of the collection `name`.
pub fn collection_suffix(name: &str) -> (r: String)
    ensures
        r@ == coll_path(name@),
{
    slash_join(COLL_SUFFIX, name)
}

/// The path that drops the collection `name`; a system collection must be
/// named as one.
pub fn drop_suffix(name: &str, is_system: bool) -> (r: String)
    ensures
        r@ == coll_path(name@) + if is_system {
            "?isSystem=true"@
        } else {
            Seq::empty()
        },
{
    let mut s = slash_join(COLL_SUFFIX, name);
    if is_system {
        s.append("?isSystem=true");
    } else {
        proof {
            assert(s@ + Seq::<char>::empty() =~= s@);
        }
    }
    s
}

/// The path of the operation `op` on the collection `name`.
pub fn op_suffix(name: &str, op: CollectionOp) -> (r: String)
    ensures
        r@ == coll_path(name@) + "/"@ + op_segment(op),
{
    let mut s = slash_join(COLL_SUFFIX, name);
    push_segment(&mut s, op.segment());
    s
}

/// The parameters of a checksum: `withRevisions=true` and `withData=true`
/// for those asked for, in that order.
pub open spec fn checksum_params(with_revisions: bool, with_data: bool) -> Seq<Seq<char>> {
    (if with_revisions {
        seq!["withRevisions=true"@]
    } else {
        Seq::empty()
    }) + (if with_data {
        seq!["withData=true"@]
    } else {
        Seq::empty()
    })
}

/// The path that computes the checksum of the collection `name`, with the
/// revision ids and the document data when asked for.
pub fn checksum_suffix(name: &str, with_revisions: bool, with_data: bool) -> (r: String)
    ensures
        r@ == coll_path(name@) + "/checksum"@ + query_string(
            checksum_params(with_revisions, with_data),
        ),
{
    let mut url = slash_join(COLL_SUFFIX, name);
    url.append("/checksum");
    let ghost prefix = url@;
    let ghost t1 = "withRevisions=true"@;
    let ghost t2 = "withData=true"@;
    let mut has_qp = false;
    proof {
        lemma_query_empty(prefix);
        reveal_strlit("?withRevisions=true");
        reveal_strlit("withRevisions=true");
        reveal_strlit("?");
        reveal_strlit("&");
    }
    if with_revisions {
        url.append("?withRevisions=true");
        has_qp = true;
        proof {
            lemma_query_push(Seq::empty(), t1);
            assert(Seq::<Seq<char>>::empty().push(t1) =~= seq![t1]);
            assert("?withRevisions=true"@ =~= "?"@ + t1);
            assert(url@ =~= prefix + query_string(seq![t1]));
        }
    }
    let ghost ps1: Seq<Seq<char>> = if with_revisions {
        seq![t1]
    } else {
        Seq::empty()
    };
    assert(url@ == prefix + query_string(ps1) && has_qp == (ps1.len() > 0));
    if with_data {
        if has_qp {
            url.append("&");
        } else {
            url.append("?");
        }
        url.append("withData=true");
        proof {
            lemma_query_push(ps1, t2);
            assert(url@ =~= prefix + query_string(ps1.push(t2)));
        }
    }
    proof {
        let ps = checksum_params(with_revisions, with_data);
        if with_data {
            assert(ps =~= ps1.push(t2));
        } else {
            assert(ps =~= ps1);
        }
    }
    url
}

/// Collection response data
#[derive(Clone, Debug)]
pub struct GetCollsResponse {
    /// The id of the collection
    pub id: String,
    /// The name of the collection
    pub name: String,
    /// The collection status (see `Status`)
    pub status: usize,
    /// The collection type: 2 for documents, 3 for edges
    pub kind: usize,
    /// Is the collection a `_system` collection
    pub is_system: bool,
    /// The globally unique id
    pub globally_unique_id: String,
}

impl GetCollsResponse {
    /// The id of the collection
    pub fn id(&self) -> (r: &String)
        ensures
            *r == self.id,
    {
        &self.id
    }

    /// The name of the collection
    pub fn name(&self) -> (r: &String)
        ensures
            *r == self.name,
    {
        &self.name
    }

    /// The collection status (see `Status`)
    pub fn status(&self) -> (r: &usize)
        ensures
            *r == self.status,
    {
        &self.status
    }

    /// The collection type: 2 for documents, 3 for edges
    pub fn kind(&self) -> (r: &usize)
        ensures
            *r == self.kind,
    {
        &self.kind
    }

    /// Is the collection a `_system` collection
    pub fn is_system(&self) -> (r: &bool)
        ensures
            *r == self.is_system,
    {
        &self.is_system
    }

    /// The globally unique id
    pub fn globally_unique_id(&self) -> (r: &String)
        ensures
            *r == self.globally_unique_id,
    {
        &self.globally_unique_id
    }
}

/// Collection response data
#[derive(Clone, Debug)]
pub struct GetCollResponse {
    /// Is this response an error?
    pub error: bool,
    /// The response code, i.e. 200, 404
    pub code: usize,
    /// The id of the collection
    pub id: String,
    /// The name of the collection
    pub name: String,
    /// The collection status
    pub status: usize,
    /// The collection type
    pub kind: usize,
    /// Is the collection a `_system` collection
    pub is_system: bool,
    /// The globally unique id
    pub globally_unique_id: String,
}

impl GetCollResponse {
    /// Is this response an error?
    pub fn error(&self) -> (r: &bool)
        ensures
            *r == self.error,
    {
        &self.error
    }

    /// The response code, i.e. 200, 404
    pub fn code(&self) -> (r: &usize)
        ensures
            *r == self.code,
    {
        &self.code
    }

    /// The id of the collection
    pub fn id(&self) -> (r: &String)
        ensures
            *r == self.id,
    {
        &self.id
    }

    /// The name of the collection
    pub fn name(&self) -> (r: &String)
        ensures
            *r == self.name,
    {
        &self.name
    }

    /// The collection status
    pub fn status(&self) -> (r: &usize)
        ensures
            *r == self.status,
    {
        &self.status
    }

    /// The collection type
    pub fn kind(&self) -> (r: &usize)
        ensures
            *r == self.kind,
    {
        &self.kind
    }

    /// Is the collection a `_system` collection
    pub fn is_system(&self) -> (r: &bool)
        ensures
            *r == self.is_system,
    {
        &self.is_system
    }

    /// The globally unique id
    pub fn globally_unique_id(&self) -> (r: &String)
        ensures
            *r == self.globally_unique_id,
    {
        &self.globally_unique_id
    }
}

/// A collection to create
#[derive(Clone, Debug)]
pub struct CollectionCreate {
    /// The collection name
    pub name: String,
    /// The maximal size of a journal or datafile in bytes (MMFiles only)
    pub journal_size: Option<usize>,
    /// How many copies of each shard are kept (cluster only)
    pub replication_factor: Option<String>,
    /// Key Options
    pub key_options: Option<KeyOptions>,
    /// Sync to disk before a write operation returns
    pub wait_for_sync: Option<bool>,
    /// Compact the collection (MMFiles only)
    pub do_compact: Option<bool>,
    /// The sharding strategy of the collection
    pub sharding_strategy: Option<String>,
    /// Keep the data in memory only (MMFiles only)
    pub is_volatile: Option<bool>,
    /// How many shard copies must be in sync for a write (cluster only)
    pub write_concern: Option<usize>,
    /// The SmartJoin attribute (Enterprise Edition only)
    pub smart_join_attribute: Option<String>,
    /// The number of shards (cluster only)
    pub number_of_shards: Option<usize>,
    /// Follow the sharding of this collection (Enterprise Edition only)
    pub distribute_shards_like: Option<String>,
    /// Create a system collection
    pub is_system: Option<bool>,
    /// The type of the collection: 2 for documents, 3 for edges
    pub kind: Option<usize>,
    /// The attributes that determine the shard of a document (cluster only)
    pub shard_keys: Option<Vec<String>>,
    /// The collection level schema for documents
    pub schema: Option<String>,
}

impl CollectionCreate {
    /// The collection name
    pub fn name(&self) -> (r: &String)
        ensures
            *r == self.name,
    {
        &self.name
    }

    /// The maximal size of a journal or datafile in bytes (MMFiles only)
    pub fn journal_size(&self) -> (r: &Option<usize>)
        ensures
            *r == self.journal_size,
    {
        &self.journal_size
    }

    /// How many copies of each shard are kept (cluster only)
    pub fn replication_factor(&self) -> (r: &Option<String>)
        ensures
            *r == self.replication_factor,
    {
        &self.replication_factor
    }

    /// Key Options
    pub fn key_options(&self) -> (r: &Option<KeyOptions>)
        ensures
            *r == self.key_options,
    {
        &self.key_options
    }

    /// Sync to disk before a write operation returns
    pub fn wait_for_sync(&self) -> (r: &Option<bool>)
        ensures
            *r == self.wait_for_sync,
    {
        &self.wait_for_sync
    }

    /// Compact the collection (MMFiles only)
    pub fn do_compact(&self) -> (r: &Option<bool>)
        ensures
            *r == self.do_compact,
    {
        &self.do_compact
    }

    /// The sharding strategy of the collection
    pub fn sharding_strategy(&self) -> (r: &Option<String>)
        ensures
            *r == self.sharding_strategy,
    {
        &self.sharding_strategy
    }

    /// Keep the data in memory only (MMFiles only)
    pub fn is_volatile(&self) -> (r: &Option<bool>)
        ensures
            *r == self.is_volatile,
    {
        &self.is_volatile
    }

    /// How many shard copies must be in sync for a write (cluster only)
    pub fn write_concern(&self) -> (r: &Option<usize>)
        ensures
            *r == self.write_concern,
    {
        &self.write_concern
    }

    /// The SmartJoin attribute (Enterprise Edition only)
    pub fn smart_join_attribute(&self) -> (r: &Option<String>)
        ensures
            *r == self.smart_join_attribute,
    {
        &self.smart_join_attribute
    }

    /// The number of shards (cluster only)
    pub fn number_of_shards(&self) -> (r: &Option<usize>)
        ensures
            *r == self.number_of_shards,
    {
        &self.number_of_shards
    }

    /// Follow the sharding of this collection (Enterprise Edition only)
    pub fn distribute_shards_like(&self) -> (r: &Option<String>)
        ensures
            *r == self.distribute_shards_like,
    {
        &self.distribute_shards_like
    }

    /// Create a system collection
    pub fn is_system(&self) -> (r: &Option<bool>)
        ensures
            *r == self.is_system,
    {
        &self.is_system
    }

    /// The type of the collection: 2 for documents, 3 for edges
    pub fn kind(&self) -> (r: &Option<usize>)
        ensures
            *r == self.kind,
    {
        &self.kind
    }

    /// The attributes that determine the shard of a document (cluster only)
    pub fn shard_keys(&self) -> (r: &Option<Vec<String>>)
        ensures
            *r == self.shard_keys,
    {
        &self.shard_keys
    }

    /// The collection level schema for documents
    pub fn schema(&self) -> (r: &Option<String>)
        ensures
            *r == self.schema,
    {
        &self.schema
    }
}

/// Builds a [`CollectionCreate`]; `name` must be set.
#[derive(Clone, Debug)]
pub struct CollectionCreateBuilder {
    pub name: Option<String>,
    pub journal_size: Option<usize>,
    pub replication_factor: Option<String>,
    pub key_options: Option<KeyOptions>,
    pub wait_for_sync: Option<bool>,
    pub do_compact: Option<bool>,
    pub sharding_strategy: Option<String>,
    pub is_volatile: Option<bool>,
    pub write_concern: Option<usize>,
    pub smart_join_attribute: Option<String>,
    pub number_of_shards: Option<usize>,
    pub distribute_shards_like: Option<String>,
    pub is_system: Option<bool>,
    pub kind: Option<usize>,
    pub shard_keys: Option<Vec<String>>,
    pub schema: Option<String>,
}

impl CollectionCreateBuilder {
    /// A builder with nothing set.
    pub fn default() -> (r: Self)
        ensures
            r == (Self { name: None, journal_size: None, replication_factor: None, key_options: None, wait_for_sync: None, do_compact: None, sharding_strategy: None, is_volatile: None, write_concern: None, smart_join_attribute: None, number_of_shards: None, distribute_shards_like: None, is_system: None, kind: None, shard_keys: None, schema: None }),
    {
        CollectionCreateBuilder { name: None, journal_size: None, replication_factor: None, key_options: None, wait_for_sync: None, do_compact: None, sharding_strategy: None, is_volatile: None, write_concern: None, smart_join_attribute: None, number_of_shards: None, distribute_shards_like: None, is_system: None, kind: None, shard_keys: None, schema: None }
    }

    /// The collection name
    pub fn name(self, v: &str) -> (r: Self)
        ensures
            r == (Self { name: r.name, ..self }),
            r.name matches Some(s) && s@ == v@,
    {
        Self { name: Some(String::from_str(v)), ..self }
    }

    /// The maximal size of a journal or datafile in bytes (MMFiles only)
    pub fn journal_size(self, v: usize) -> (r: Self)
        ensures
            r == (Self { journal_size: Some(v), ..self }),
    {
        Self { journal_size: Some(v), ..self }
    }

    /// How many copies of each shard are kept (cluster only)
    pub fn replication_factor(self, v: &str) -> (r: Self)
        ensures
            r == (Self { replication_factor: r.replication_factor, ..self }),
            r.replication_factor matches Some(s) && s@ == v@,
    {
        Self { replication_factor: Some(String::from_str(v)), ..self }
    }

    /// Key Options
    pub fn key_options(self, v: KeyOptions) -> (r: Self)
        ensures
            r == (Self { key_options: Some(v), ..self }),
    {
        Self { key_options: Some(v), ..self }
    }

    /// Sync to disk before a write operation returns
    pub fn wait_for_sync(self, v: bool) -> (r: Self)
        ensures
            r == (Self { wait_for_sync: Some(v), ..self }),
    {
        Self { wait_for_sync: Some(v), ..self }
    }

    /// Compact the collection (MMFiles only)
    pub fn do_compact(self, v: bool) -> (r: Self)
        ensures
            r == (Self { do_compact: Some(v), ..self }),
    {
        Self { do_compact: Some(v), ..self }
    }

    /// The sharding strategy of the collection
    pub fn sharding_strategy(self, v: &str) -> (r: Self)
        ensures
            r == (Self { sharding_strategy: r.sharding_strategy, ..self }),
            r.sharding_strategy matches Some(s) && s@ == v@,
    {
        Self { sharding_strategy: Some(String::from_str(v)), ..self }
    }

    /// Keep the data in memory only (MMFiles only)
    pub fn is_volatile(self, v: bool) -> (r: Self)
        ensures
            r == (Self { is_volatile: Some(v), ..self }),
    {
        Self { is_volatile: Some(v), ..self }
    }

    /// How many shard copies must be in sync for a write (cluster only)
    pub fn write_concern(self, v: usize) -> (r: Self)
        ensures
            r == (Self { write_concern: Some(v), ..self }),
    {
        Self { write_concern: Some(v), ..self }
    }

    /// The SmartJoin attribute (Enterprise Edition only)
    pub fn smart_join_attribute(self, v: &str) -> (r: Self)
        ensures
            r == (Self { smart_join_attribute: r.smart_join_attribute, ..self }),
            r.smart_join_attribute matches Some(s) && s@ == v@,
    {
        Self { smart_join_attribute: Some(String::from_str(v)), ..self }
    }

    /// The number of shards (cluster only)
    pub fn number_of_shards(self, v: usize) -> (r: Self)
        ensures
            r == (Self { number_of_shards: Some(v), ..self }),
    {
        Self { number_of_shards: Some(v), ..self }
    }

    /// Follow the sharding of this collection (Enterprise Edition only)
    pub fn distribute_shards_like(self, v: &str) -> (r: Self)
        ensures
            r == (Self { distribute_shards_like: r.distribute_shards_like, ..self }),
            r.distribute_shards_like matches Some(s) && s@ == v@,
    {
        Self { distribute_shards_like: Some(String::from_str(v)), ..self }
    }

    /// Create a system collection
    pub fn is_system(self, v: bool) -> (r: Self)
        ensures
            r == (Self { is_system: Some(v), ..self }),
    {
        Self { is_system: Some(v), ..self }
    }

    /// The type of the collection: 2 for documents, 3 for edges
    pub fn kind(self, v: usize) -> (r: Self)
        ensures
            r == (Self { kind: Some(v), ..self }),
    {
        Self { kind: Some(v), ..self }
    }

    /// The attributes that determine the shard of a document (cluster only)
    pub fn shard_keys(self, v: Vec<String>) -> (r: Self)
        ensures
            r == (Self { shard_keys: Some(v), ..self }),
    {
        Self { shard_keys: Some(v), ..self }
    }

    /// The collection level schema for documents
    pub fn schema(self, v: &str) -> (r: Self)
        ensures
            r == (Self { schema: r.schema, ..self }),
            r.schema matches Some(s) && s@ == v@,
    {
        Self { schema: Some(String::from_str(v)), ..self }
    }

    /// The configuration, when every required field is set.
    pub fn build(self) -> (r: Result<CollectionCreate, BuilderError>)
        ensures
            self.name is None ==> (r matches Err(BuilderError::UninitializedField(f)) && f@ == "name"@),
            self.name is Some ==> (r matches Ok(c) && c == (CollectionCreate { name: self.name->0, journal_size: self.journal_size, replication_factor: self.replication_factor, key_options: self.key_options, wait_for_sync: self.wait_for_sync, do_compact: self.do_compact, sharding_strategy: self.sharding_strategy, is_volatile: self.is_volatile, write_concern: self.write_concern, smart_join_attribute: self.smart_join_attribute, number_of_shards: self.number_of_shards, distribute_shards_like: self.distribute_shards_like, is_system: self.is_system, kind: self.kind, shard_keys: self.shard_keys, schema: self.schema })),
    {
        let name = match self.name {
            Some(v) => v,
            None => return Err(BuilderError::UninitializedField("name")),
        };
        Ok(CollectionCreate { name, journal_size: self.journal_size, replication_factor: self.replication_factor, key_options: self.key_options, wait_for_sync: self.wait_for_sync, do_compact: self.do_compact, sharding_strategy: self.sharding_strategy, is_volatile: self.is_volatile, write_concern: self.write_concern, smart_join_attribute: self.smart_join_attribute, number_of_shards: self.number_of_shards, distribute_shards_like: self.distribute_shards_like, is_system: self.is_system, kind: self.kind, shard_keys: self.shard_keys, schema: self.schema })
    }
}

/// key options for collection creation
#[derive(Clone, Debug)]
pub struct KeyOptions {
    /// May documents bring their own `_key`?
    pub allow_user_keys: bool,
    /// The key generator: traditional, autoincrement, uuid or padded
    pub kind: String,
    /// The increment of the autoincrement key generator
    pub increment: Option<usize>,
    /// The initial offset of the autoincrement key generator
    pub offset: Option<usize>,
}

impl KeyOptions {
    /// May documents bring their own `_key`?
    pub fn allow_user_keys(&self) -> (r: &bool)
        ensures
            *r == self.allow_user_keys,
    {
        &self.allow_user_keys
    }

    /// The key generator: traditional, autoincrement, uuid or padded
    pub fn kind(&self) -> (r: &String)
        ensures
            *r == self.kind,
    {
        &self.kind
    }

    /// The increment of the autoincrement key generator
    pub fn increment(&self) -> (r: &Option<usize>)
        ensures
            *r == self.increment,
    {
        &self.increment
    }

    /// The initial offset of the autoincrement key generator
    pub fn offset(&self) -> (r: &Option<usize>)
        ensures
            *r == self.offset,
    {
        &self.offset
    }
}

/// Builds a [`KeyOptions`]; `allow_user_keys` and `kind` must be set.
#[derive(Clone, Debug)]
pub struct KeyOptionsBuilder {
    pub allow_user_keys: Option<bool>,
    pub kind: Option<String>,
    pub increment: Option<usize>,
    pub offset: Option<usize>,
}

impl KeyOptionsBuilder {
    /// A builder with nothing set.
    pub fn default() -> (r: Self)
        ensures
            r == (Self { allow_user_keys: None, kind: None, increment: None, offset: None }),
    {
        KeyOptionsBuilder { allow_user_keys: None, kind: None, increment: None, offset: None }
    }

    /// May documents bring their own `_key`?
    pub fn allow_user_keys(self, v: bool) -> (r: Self)
        ensures
            r == (Self { allow_user_keys: Some(v), ..self }),
    {
        Self { allow_user_keys: Some(v), ..self }
    }

    /// The key generator: traditional, autoincrement, uuid or padded
    pub fn kind(self, v: &str) -> (r: Self)
        ensures
            r == (Self { kind: r.kind, ..self }),
            r.kind matches Some(s) && s@ == v@,
    {
        Self { kind: Some(String::from_str(v)), ..self }
    }

    /// The increment of the autoincrement key generator
    pub fn increment(self, v: usize) -> (r: Self)
        ensures
            r == (Self { increment: Some(v), ..self }),
    {
        Self { increment: Some(v), ..self }
    }

    /// The initial offset of the autoincrement key generator
    pub fn offset(self, v: usize) -> (r: Self)
        ensures
            r == (Self { offset: Some(v), ..self }),
    {
        Self { offset: Some(v), ..self }
    }

    /// The configuration, when every required field is set.
    pub fn build(self) -> (r: Result<KeyOptions, BuilderError>)
        ensures
            self.allow_user_keys is None ==> (r matches Err(BuilderError::UninitializedField(f)) && f@ == "allow_user_keys"@),
            self.allow_user_keys is Some && self.kind is None ==> (r matches Err(BuilderError::UninitializedField(f)) && f@ == "kind"@),
            self.allow_user_keys is Some && self.kind is Some ==> (r matches Ok(c) && c == (KeyOptions { allow_user_keys: self.allow_user_keys->0, kind: self.kind->0, increment: self.increment, offset: self.offset })),
    {
        let allow_user_keys = match self.allow_user_keys {
            Some(v) => v,
            None => return Err(BuilderError::UninitializedField("allow_user_keys")),
        };
        let kind = match self.kind {
            Some(v) => v,
            None => return Err(BuilderError::UninitializedField("kind")),
        };
        Ok(KeyOptions { allow_user_keys, kind, increment: self.increment, offset: self.offset })
    }
}

/// key options for collection response
#[derive(Clone, Debug)]
pub struct KeyOptionsResponse {
    /// May documents bring their own `_key`?
    pub allow_user_keys: bool,
    /// The last key value used
    pub last_value: usize,
    /// The key generator
    pub kind: String,
}

impl KeyOptionsResponse {
    /// May documents bring their own `_key`?
    pub fn allow_user_keys(&self) -> (r: &bool)
        ensures
            *r == self.allow_user_keys,
    {
        &self.allow_user_keys
    }

    /// The last key value used
    pub fn last_value(&self) -> (r: &usize)
        ensures
            *r == self.last_value,
    {
        &self.last_value
    }

    /// The key generator
    pub fn kind(&self) -> (r: &String)
        ensures
            *r == self.kind,
    {
        &self.kind
    }
}

/// create collection response
#[derive(Clone, Debug)]
pub struct CreateCollResponse {
    /// Is this response an error?
    pub error: bool,
    /// The response code, i.e. 200, 404
    pub code: usize,
    /// The collection name
    pub name: String,
    /// Is the collection used in a SmartGraph
    pub is_smart: Option<bool>,
    /// The SmartJoin attribute
    pub smart_join_attribute: Option<String>,
    /// The number of shards
    pub number_of_shards: Option<usize>,
    /// The status as text
    pub status_string: String,
    /// The globally unique id
    pub globally_unique_id: String,
    /// The collection id
    pub id: String,
    /// The SmartGraph attribute
    pub smart_graph_attribute: Option<String>,
    /// The replication factor
    pub replication_factor: Option<String>,
    /// Is the collection compacted
    pub do_compact: Option<bool>,
    /// The collection type
    pub kind: usize,
    /// The number of index buckets
    pub index_buckets: Option<usize>,
    /// The collection level schema
    pub schema: Option<String>,
    /// The collection status
    pub status: usize,
    /// The maximal journal size
    pub journal_size: Option<String>,
    /// Are writes synced to disk before returning
    pub wait_for_sync: bool,
    /// Is this a system collection
    pub is_system: bool,
    /// The sharding strategy
    pub sharding_strategy: Option<String>,
    /// Is the data kept in memory only
    pub is_volatile: Option<bool>,
    /// The write concern
    pub write_concern: usize,
    /// The shard keys
    pub shard_keys: Option<Vec<String>>,
    /// Key Options
    pub key_options: KeyOptionsResponse,
}

impl CreateCollResponse {
    /// Is this response an error?
    pub fn error(&self) -> (r: &bool)
        ensures
            *r == self.error,
    {
        &self.error
    }

    /// The response code, i.e. 200, 404
    pub fn code(&self) -> (r: &usize)
        ensures
            *r == self.code,
    {
        &self.code
    }

    /// The collection name
    pub fn name(&self) -> (r: &String)
        ensures
            *r == self.name,
    {
        &self.name
    }

    /// Is the collection used in a SmartGraph
    pub fn is_smart(&self) -> (r: &Option<bool>)
        ensures
            *r == self.is_smart,
    {
        &self.is_smart
    }

    /// The SmartJoin attribute
    pub fn smart_join_attribute(&self) -> (r: &Option<String>)
        ensures
            *r == self.smart_join_attribute,
    {
        &self.smart_join_attribute
    }

    /// The number of shards
    pub fn number_of_shards(&self) -> (r: &Option<usize>)
        ensures
            *r == self.number_of_shards,
    {
        &self.number_of_shards
    }

    /// The status as text
    pub fn status_string(&self) -> (r: &String)
        ensures
            *r == self.status_string,
    {
        &self.status_string
    }

    /// The globally unique id
    pub fn globally_unique_id(&self) -> (r: &String)
        ensures
            *r == self.globally_unique_id,
    {
        &self.globally_unique_id
    }

    /// The collection id
    pub fn id(&self) -> (r: &String)
        ensures
            *r == self.id,
    {
        &self.id
    }

    /// The SmartGraph attribute
    pub fn smart_graph_attribute(&self) -> (r: &Option<String>)
        ensures
            *r == self.smart_graph_attribute,
    {
        &self.smart_graph_attribute
    }

    /// The replication factor
    pub fn replication_factor(&self) -> (r: &Option<String>)
        ensures
            *r == self.replication_factor,
    {
        &self.replication_factor
    }

    /// Is the collection compacted
    pub fn do_compact(&self) -> (r: &Option<bool>)
        ensures
            *r == self.do_compact,
    {
        &self.do_compact
    }

    /// The collection type
    pub fn kind(&self) -> (r: &usize)
        ensures
            *r == self.kind,
    {
        &self.kind
    }

    /// The number of index buckets
    pub fn index_buckets(&self) -> (r: &Option<usize>)
        ensures
            *r == self.index_buckets,
    {
        &self.index_buckets
    }

    /// The collection level schema
    pub fn schema(&self) -> (r: &Option<String>)
        ensures
            *r == self.schema,
    {
        &self.schema
    }

    /// The collection status
    pub fn status(&self) -> (r: &usize)
        ensures
            *r == self.status,
    {
        &self.status
    }

    /// The maximal journal size
    pub fn journal_size(&self) -> (r: &Option<String>)
        ensures
            *r == self.journal_size,
    {
        &self.journal_size
    }

    /// Are writes synced to disk before returning
    pub fn wait_for_sync(&self) -> (r: &bool)
        ensures
            *r == self.wait_for_sync,
    {
        &self.wait_for_sync
    }

    /// Is this a system collection
    pub fn is_system(&self) -> (r: &bool)
        ensures
            *r == self.is_system,
    {
        &self.is_system
    }

    /// The sharding strategy
    pub fn sharding_strategy(&self) -> (r: &Option<String>)
        ensures
            *r == self.sharding_strategy,
    {
        &self.sharding_strategy
    }

    /// Is the data kept in memory only
    pub fn is_volatile(&self) -> (r: &Option<bool>)
        ensures
            *r == self.is_volatile,
    {
        &self.is_volatile
    }

    /// The write concern
    pub fn write_concern(&self) -> (r: &usize)
        ensures
            *r == self.write_concern,
    {
        &self.write_concern
    }

    /// The shard keys
    pub fn shard_keys(&self) -> (r: &Option<Vec<String>>)
        ensures
            *r == self.shard_keys,
    {
        &self.shard_keys
    }

    /// Key Options
    pub fn key_options(&self) -> (r: &KeyOptionsResponse)
        ensures
            *r == self.key_options,
    {
        &self.key_options
    }
}

/// drop collection response
#[derive(Clone, Debug)]
pub struct DropCollResponse {
    /// Is this response an error?
    pub error: bool,
    /// The response code, i.e. 200, 404
    pub code: usize,
    /// The id of the dropped collection
    pub id: String,
}

impl DropCollResponse {
    /// Is this response an error?
    pub fn error(&self) -> (r: &bool)
        ensures
            *r == self.error,
    {
        &self.error
    }

    /// The response code, i.e. 200, 404
    pub fn code(&self) -> (r: &usize)
        ensures
            *r == self.code,
    {
        &self.code
    }

    /// The id of the dropped collection
    pub fn id(&self) -> (r: &String)
        ensures
            *r == self.id,
    {
        &self.id
    }
}

/// checksum collection response
#[derive(Clone, Debug)]
pub struct ChecksumResponse {
    /// Is this response an error?
    pub error: bool,
    /// The response code, i.e. 200, 404
    pub code: usize,
    /// The collection id
    pub id: String,
    /// Is this a system collection
    pub is_system: bool,
    /// The collection type
    pub kind: usize,
    /// The revision
    pub revision: String,
    /// The checksum
    pub checksum: String,
    /// The globally unique id
    pub globally_unique_id: String,
    /// The collection name
    pub name: String,
    /// The status
    pub status: usize,
}

impl ChecksumResponse {
    /// Is this response an error?
    pub fn error(&self) -> (r: &bool)
        ensures
            *r == self.error,
    {
        &self.error
    }

    /// The response code, i.e. 200, 404
    pub fn code(&self) -> (r: &usize)
        ensures
            *r == self.code,
    {
        &self.code
    }

    /// The collection id
    pub fn id(&self) -> (r: &String)
        ensures
            *r == self.id,
    {
        &self.id
    }

    /// Is this a system collection
    pub fn is_system(&self) -> (r: &bool)
        ensures
            *r == self.is_system,
    {
        &self.is_system
    }

    /// The collection type
    pub fn kind(&self) -> (r: &usize)
        ensures
            *r == self.kind,
    {
        &self.kind
    }

    /// The revision
    pub fn revision(&self) -> (r: &String)
        ensures
            *r == self.revision,
    {
        &self.revision
    }

    /// The checksum
    pub fn checksum(&self) -> (r: &String)
        ensures
            *r == self.checksum,
    {
        &self.checksum
    }

    /// The globally unique id
    pub fn globally_unique_id(&self) -> (r: &String)
        ensures
            *r == self.globally_unique_id,
    {
        &self.globally_unique_id
    }

    /// The collection name
    pub fn name(&self) -> (r: &String)
        ensures
            *r == self.name,
    {
        &self.name
    }

    /// The status
    pub fn status(&self) -> (r: &usize)
        ensures
            *r == self.status,
    {
        &self.status
    }
}

/// count collection response
#[derive(Clone, Copy, Debug, PartialEq, Eq)]
pub struct CountResponse {
    /// Is this response an error?
    pub error: bool,
    /// The response code, i.e. 200, 404
    pub code: usize,
    /// Count
    pub count: usize,
}

impl CountResponse {
    /// Is this response an error?
    pub fn error(&self) -> (r: &bool)
        ensures
            *r == self.error,
    {
        &self.error
    }

    /// The response code, i.e. 200, 404
    pub fn code(&self) -> (r: &usize)
        ensures
            *r == self.code,
    {
        &self.code
    }

    /// Count
    pub fn count(&self) -> (r: &usize)
        ensures
            *r == self.count,
    {
        &self.count
    }
}

/// Index details
#[derive(Clone, Copy, Debug, PartialEq, Eq)]
pub struct Indexes {
    /// The number of indexes, the pre-defined ones included
    pub count: usize,
    /// The memory allocated for indexes in bytes
    pub size: usize,
}

impl Indexes {
    /// The number of indexes, the pre-defined ones included
    pub fn count(&self) -> (r: &usize)
        ensures
            *r == self.count,
    {
        &self.count
    }

    /// The memory allocated for indexes in bytes
    pub fn size(&self) -> (r: &usize)
        ensures
            *r == self.size,
    {
        &self.size
    }
}

/// Collection figures
#[derive(Clone, Copy, Debug, PartialEq, Eq)]
pub struct Figures {
    /// Index details
    pub indexes: Indexes,
    /// The size of all the documents in bytes
    pub documents_size: usize,
    /// Is the cache in use?
    pub cache_in_use: bool,
    /// Cache size in bytes
    pub cache_size: usize,
    /// Cache usage in bytes
    pub cache_usage: usize,
}

impl Figures {
    /// Index details
    pub fn indexes(&self) -> (r: &Indexes)
        ensures
            *r == self.indexes,
    {
        &self.indexes
    }

    /// The size of all the documents in bytes
    pub fn documents_size(&self) -> (r: &usize)
        ensures
            *r == self.documents_size,
    {
        &self.documents_size
    }

    /// Is the cache in use?
    pub fn cache_in_use(&self) -> (r: &bool)
        ensures
            *r == self.cache_in_use,
    {
        &self.cache_in_use
    }

    /// Cache size in bytes
    pub fn cache_size(&self) -> (r: &usize)
        ensures
            *r == self.cache_size,
    {
        &self.cache_size
    }

    /// Cache usage in bytes
    pub fn cache_usage(&self) -> (r: &usize)
        ensures
            *r == self.cache_usage,
    {
        &self.cache_usage
    }
}

/// figures collection response
#[derive(Clone, Copy, Debug, PartialEq, Eq)]
pub struct FiguresResponse {
    /// Is this response an error?
    pub error: bool,
    /// The response code, i.e. 200, 404
    pub code: usize,
    /// Figures details
    pub figures: Figures,
}

impl FiguresResponse {
    /// Is this response an error?
    pub fn error(&self) -> (r: &bool)
        ensures
            *r == self.error,
    {
        &self.error
    }

    /// The response code, i.e. 200, 404
    pub fn code(&self) -> (r: &usize)
        ensures
            *r == self.code,
    {
        &self.code
    }

    /// Figures details
    pub fn figures(&self) -> (r: &Figures)
        ensures
            *r == self.figures,
    {
        &self.figures
    }
}

/// Index details that are part of the figures output
#[derive(Clone, Copy, Debug, PartialEq, Eq)]
pub struct FiguresIndexes {
    /// The number of indexes, the pre-defined ones included
    pub count: usize,
    /// The memory allocated for indexes in bytes
    pub size: usize,
}

impl FiguresIndexes {
    /// The number of indexes, the pre-defined ones included
    pub fn count(&self) -> (r: &usize)
        ensures
            *r == self.count,
    {
        &self.count
    }

    /// The memory allocated for indexes in bytes
    pub fn size(&self) -> (r: &usize)
        ensures
            *r == self.size,
    {
        &self.size
    }
}

/// Figure details that are part of the figures output
#[derive(Clone, Copy, Debug, PartialEq, Eq)]
pub struct FiguresDetails {
    /// Index details
    pub indexes: FiguresIndexes,
    /// The size of all the documents in bytes
    pub documents_size: usize,
    /// Is the cache in use?
    pub cache_in_use: bool,
    /// Cache size in bytes
    pub cache_size: usize,
    /// Cache usage in bytes
    pub cache_usage: usize,
}

impl FiguresDetails {
    /// Index details
    pub fn indexes(&self) -> (r: &FiguresIndexes)
        ensures
            *r == self.indexes,
    {
        &self.indexes
    }

    /// The size of all the documents in bytes
    pub fn documents_size(&self) -> (r: &usize)
        ensures
            *r == self.documents_size,
    {
        &self.documents_size
    }

    /// Is the cache in use?
    pub fn cache_in_use(&self) -> (r: &bool)
        ensures
            *r == self.cache_in_use,
    {
        &self.cache_in_use
    }

    /// Cache size in bytes
    pub fn cache_size(&self) -> (r: &usize)
        ensures
            *r == self.cache_size,
    {
        &self.cache_size
    }

    /// Cache usage in bytes
    pub fn cache_usage(&self) -> (r: &usize)
        ensures
            *r == self.cache_usage,
    {
        &self.cache_usage
    }
}

/// Key options that are part of the create output
#[derive(Clone, Debug)]
pub struct CreateKeyOptions {
    /// May documents bring their own `_key`?
    pub allow_user_keys: bool,
    /// The last key value used
    pub last_value: usize,
    /// The key generator
    pub kind: String,
}

impl CreateKeyOptions {
    /// May documents bring their own `_key`?
    pub fn allow_user_keys(&self) -> (r: &bool)
        ensures
            *r == self.allow_user_keys,
    {
        &self.allow_user_keys
    }

    /// The last key value used
    pub fn last_value(&self) -> (r: &usize)
        ensures
            *r == self.last_value,
    {
        &self.last_value
    }

    /// The key generator
    pub fn kind(&self) -> (r: &String)
        ensures
            *r == self.kind,
    {
        &self.kind
    }
}

/// revision collection response
#[derive(Clone, Debug)]
pub struct RevisionResponse {
    /// Is this response an error?
    pub error: bool,
    /// The response code, i.e. 200, 404
    pub code: usize,
    /// The revision id, which changes when the data changes
    pub revision: String,
}

impl RevisionResponse {
    /// Is this response an error?
    pub fn error(&self) -> (r: &bool)
        ensures
            *r == self.error,
    {
        &self.error
    }

    /// The response code, i.e. 200, 404
    pub fn code(&self) -> (r: &usize)
        ensures
            *r == self.code,
    {
        &self.code
    }

    /// The revision id, which changes when the data changes
    pub fn revision(&self) -> (r: &String)
        ensures
            *r == self.revision,
    {
        &self.revision
    }
}

/// load collection response
#[derive(Clone, Copy, Debug, PartialEq, Eq)]
pub struct LoadResponse {
    /// Is this response an error?
    pub error: bool,
    /// The response code, i.e. 200, 404
    pub code: usize,
    /// The number of documents inside the collection
    pub count: usize,
}

impl LoadResponse {
    /// Is this response an error?
    pub fn error(&self) -> (r: &bool)
        ensures
            *r == self.error,
    {
        &self.error
    }

    /// The response code, i.e. 200, 404
    pub fn code(&self) -> (r: &usize)
        ensures
            *r == self.code,
    {
        &self.code
    }

    /// The number of documents inside the collection
    pub fn count(&self) -> (r: &usize)
        ensures
            *r == self.count,
    {
        &self.count
    }
}

/// Should a count happen on loads
#[derive(Clone, Copy, Debug, PartialEq, Eq)]
pub struct ShouldCount {
    /// Should the answer include the number of documents?
    pub count: bool,
}

/// Builds a [`ShouldCount`]; `count` must be set.
#[derive(Clone, Debug)]
pub struct ShouldCountBuilder {
    pub count: Option<bool>,
}

impl ShouldCountBuilder {
    /// A builder with nothing set.
    pub fn default() -> (r: Self)
        ensures
            r == (Self { count: None }),
    {
        ShouldCountBuilder { count: None }
    }

    /// Should the answer include the number of documents?
    pub fn count(self, v: bool) -> (r: Self)
        ensures
            r == (Self { count: Some(v), ..self }),
    {
        Self { count: Some(v), ..self }
    }

    /// The configuration, when every required field is set.
    pub fn build(self) -> (r: Result<ShouldCount, BuilderError>)
        ensures
            self.count is None ==> (r matches Err(BuilderError::UninitializedField(f)) && f@ == "count"@),
            self.count is Some ==> (r matches Ok(c) && c == (ShouldCount { count: self.count->0 })),
    {
        let count = match self.count {
            Some(v) => v,
            None => return Err(BuilderError::UninitializedField("count")),
        };
        Ok(ShouldCount { count })
    }
}

/// load indexes response
#[derive(Clone, Copy, Debug, PartialEq, Eq)]
pub struct LoadIndexesResponse {
    /// Is this response an error?
    pub error: bool,
    /// The response code, i.e. 200, 404
    pub code: usize,
    /// true on success
    pub result: bool,
}

impl LoadIndexesResponse {
    /// Is this response an error?
    pub fn error(&self) -> (r: &bool)
        ensures
            *r == self.error,
    {
        &self.error
    }

    /// The response code, i.e. 200, 404
    pub fn code(&self) -> (r: &usize)
        ensures
            *r == self.code,
    {
        &self.code
    }

    /// true on success
    pub fn result(&self) -> (r: &bool)
        ensures
            *r == self.result,
    {
        &self.result
    }
}

/// Collection properties to modify
#[derive(Clone, Debug)]
pub struct Props {
    /// Wait until changes are synchronized to disk
    pub wait_for_sync: Option<bool>,
    /// The maximal size of a journal or datafile in bytes
    pub journal_size: Option<usize>,
    /// The collection level schema for documents
    pub schema: Option<String>,
}

/// Builds a [`Props`].
#[derive(Clone, Debug)]
pub struct PropsBuilder {
    pub wait_for_sync: Option<bool>,
    pub journal_size: Option<usize>,
    pub schema: Option<String>,
}

impl PropsBuilder {
    /// A builder with nothing set.
    pub fn default() -> (r: Self)
        ensures
            r == (Self { wait_for_sync: None, journal_size: None, schema: None }),
    {
        PropsBuilder { wait_for_sync: None, journal_size: None, schema: None }
    }

    /// Wait until changes are synchronized to disk
    pub fn wait_for_sync(self, v: bool) -> (r: Self)
        ensures
            r == (Self { wait_for_sync: Some(v), ..self }),
    {
        Self { wait_for_sync: Some(v), ..self }
    }

    /// The maximal size of a journal or datafile in bytes
    pub fn journal_size(self, v: usize) -> (r: Self)
        ensures
            r == (Self { journal_size: Some(v), ..self }),
    {
        Self { journal_size: Some(v), ..self }
    }

    /// The collection level schema for documents
    pub fn schema(self, v: &str) -> (r: Self)
        ensures
            r == (Self { schema: r.schema, ..self }),
            r.schema matches Some(s) && s@ == v@,
    {
        Self { schema: Some(String::from_str(v)), ..self }
    }

    /// The configuration, when every required field is set.
    pub fn build(self) -> (r: Result<Props, BuilderError>)
        ensures
            true ==> (r matches Ok(c) && c == (Props { wait_for_sync: self.wait_for_sync, journal_size: self.journal_size, schema: self.schema })),
    {
        Ok(Props { wait_for_sync: self.wait_for_sync, journal_size: self.journal_size, schema: self.schema })
    }
}

/// modify properties response
#[derive(Clone, Debug)]
pub struct PutPropertiesResponse {
    /// Is this response an error?
    pub error: bool,
    /// The response code, i.e. 200, 404
    pub code: usize,
    /// New wait for sync
    pub wait_for_sync: bool,
    /// New journal size
    pub journal_size: Option<usize>,
    /// New schema
    pub schema: Option<String>,
}

impl PutPropertiesResponse {
    /// Is this response an error?
    pub fn error(&self) -> (r: &bool)
        ensures
            *r == self.error,
    {
        &self.error
    }

    /// The response code, i.e. 200, 404
    pub fn code(&self) -> (r: &usize)
        ensures
            *r == self.code,
    {
        &self.code
    }

    /// New wait for sync
    pub fn wait_for_sync(&self) -> (r: &bool)
        ensures
            *r == self.wait_for_sync,
    {
        &self.wait_for_sync
    }

    /// New journal size
    pub fn journal_size(&self) -> (r: &Option<usize>)
        ensures
            *r == self.journal_size,
    {
        &self.journal_size
    }

    /// New schema
    pub fn schema(&self) -> (r: &Option<String>)
        ensures
            *r == self.schema,
    {
        &self.schema
    }
}

/// recalculate count collection response
#[derive(Clone, Copy, Debug, PartialEq, Eq)]
pub struct RecalculateCountResponse {
    /// Is this response an error?
    pub error: bool,
    /// The response code, i.e. 200, 404
    pub code: usize,
    /// The result
    pub result: bool,
    /// The new count
    pub count: usize,
}

impl RecalculateCountResponse {
    /// Is this response an error?
    pub fn error(&self) -> (r: &bool)
        ensures
            *r == self.error,
    {
        &self.error
    }

    /// The response code, i.e. 200, 404
    pub fn code(&self) -> (r: &usize)
        ensures
            *r == self.code,
    {
        &self.code
    }

    /// The result
    pub fn result(&self) -> (r: &bool)
        ensures
            *r == self.result,
    {
        &self.result
    }

    /// The new count
    pub fn count(&self) -> (r: &usize)
        ensures
            *r == self.count,
    {
        &self.count
    }
}

/// rename collection response
#[derive(Clone, Debug)]
pub struct RenameResponse {
    /// Is this response an error?
    pub error: bool,
    /// The response code, i.e. 200, 404
    pub code: usize,
    /// The new name
    pub name: String,
}

impl RenameResponse {
    /// Is this response an error?
    pub fn error(&self) -> (r: &bool)
        ensures
            *r == self.error,
    {
        &self.error
    }

    /// The response code, i.e. 200, 404
    pub fn code(&self) -> (r: &usize)
        ensures
            *r == self.code,
    {
        &self.code
    }

    /// The new name
    pub fn name(&self) -> (r: &String)
        ensures
            *r == self.name,
    {
        &self.name
    }
}

/// A new collection name
#[derive(Clone, Debug)]
pub struct NewName {
    /// A new collection name
    pub name: String,
}

/// Builds a [`NewName`]; `name` must be set.
#[derive(Clone, Debug)]
pub struct NewNameBuilder {
    pub name: Option<String>,
}

impl NewNameBuilder {
    /// A builder with nothing set.
    pub fn default() -> (r: Self)
        ensures
            r == (Self { name: None }),
    {
        NewNameBuilder { name: None }
    }

    /// A new collection name
    pub fn name(self, v: &str) -> (r: Self)
        ensures
            r == (Self { name: r.name, ..self }),
            r.name matches Some(s) && s@ == v@,
    {
        Self { name: Some(String::from_str(v)), ..self }
    }

    /// The configuration, when every required field is set.
    pub fn build(self) -> (r: Result<NewName, BuilderError>)
        ensures
            self.name is None ==> (r matches Err(BuilderError::UninitializedField(f)) && f@ == "name"@),
            self.name is Some ==> (r matches Ok(c) && c == (NewName { name: self.name->0 })),
    {
        let name = match self.name {
            Some(v) => v,
            None => return Err(BuilderError::UninitializedField("name")),
        };
        Ok(NewName { name })
    }
}

/// truncate collection response
#[derive(Clone, Copy, Debug, PartialEq, Eq)]
pub struct TruncateResponse {
    /// Is this response an error?
    pub error: bool,
    /// The response code, i.e. 200, 404
    pub code: usize,
}

impl TruncateResponse {
    /// Is this response an error?
    pub fn error(&self) -> (r: &bool)
        ensures
            *r == self.error,
    {
        &self.error
    }

    /// The response code, i.e. 200, 404
    pub fn code(&self) -> (r: &usize)
        ensures
            *r == self.code,
    {
        &self.code
    }
}

/// unload collection response
#[derive(Clone, Copy, Debug, PartialEq, Eq)]
pub struct UnloadResponse {
    /// Is this response an error?
    pub error: bool,
    /// The response code, i.e. 200, 404
    pub code: usize,
}

impl UnloadResponse {
    /// Is this response an error?
    pub fn error(&self) -> (r: &bool)
        ensures
            *r == self.error,
    {
        &self.error
    }

    /// The response code, i.e. 200, 404
    pub fn code(&self) -> (r: &usize)
        ensures
            *r == self.code,
    {
        &self.code
    }
}

/// The path of each operation on the collection `name` (`r`, what
/// `op_suffix` gives), by the operation's own endpoint name.
pub proof fn lemma_op_paths(name: Seq<char>, op: CollectionOp, r: Seq<char>)
    requires
        r == coll_path(name) + "/"@ + op_segment(op),
    ensures
        r == "_api/collection"@ + "/"@ + name + "/"@ + match op {
                CollectionOp::Count => "count"@,
                CollectionOp::Figures => "figures"@,
                CollectionOp::Revision => "revision"@,
                CollectionOp::Load => "load"@,
                CollectionOp::LoadIndexes => "loadIndexesIntoMemory"@,
                CollectionOp::Properties => "properties"@,
                CollectionOp::RecalculateCount => "recalculateCount"@,
                CollectionOp::Rename => "rename"@,
                CollectionOp::Truncate => "truncate"@,
                CollectionOp::Unload => "unload"@,
            },
{
}

/// Two different operations on a collection go to two different endpoints.
pub proof fn lemma_op_segments_distinct(a: CollectionOp, b: CollectionOp)
    requires
        a != b,
    ensures
        op_segment(a) != op_segment(b),
{
    reveal_strlit("count");
    reveal_strlit("figures");
    reveal_strlit("revision");
    reveal_strlit("load");
    reveal_strlit("loadIndexesIntoMemory");
    reveal_strlit("properties");
    reveal_strlit("recalculateCount");
    reveal_strlit("rename");
    reveal_strlit("truncate");
    reveal_strlit("unload");
    let (x, y) = (op_segment(a), op_segment(b));
    if x =~= y {
        assert(x[0] == y[0] && x[2] == y[2]);
    }
}

/// The paths of one collection (`r`, what `collection_suffix` gives) and of
/// its drop (`d`, what `drop_suffix` gives): the name under
/// `_api/collection`, with `?isSystem=true` on the drop of a system
/// collection.
pub proof fn lemma_collection_paths(name: Seq<char>, is_system: bool, r: Seq<char>, d: Seq<char>)
    requires
        r == coll_path(name),
        d == coll_path(name) + if is_system {
            "?isSystem=true"@
        } else {
            Seq::empty()
        },
    ensures
        r == "_api/collection"@ + "/"@ + name,
        is_system ==> d == "_api/collection"@ + "/"@ + name + "?isSystem=true"@,
        !is_system ==> d == "_api/collection"@ + "/"@ + name,
{
    assert(coll_path(name) + Seq::<char>::empty() =~= coll_path(name));
}

/// The checksum path of the collection `name` (`r`, what `checksum_suffix`
/// gives): `withRevisions=true` and `withData=true` for those asked for, in
/// that order, behind one `?`.
pub proof fn lemma_checksum_path(name: Seq<char>, with_revisions: bool, with_data: bool, r: Seq<char>)
    requires
        r == coll_path(name) + "/checksum"@ + query_string(
            checksum_params(with_revisions, with_data),
        ),
    ensures
        !with_revisions && !with_data ==> r == "_api/collection"@ + "/"@ + name + "/checksum"@,
        with_revisions && !with_data ==> r == "_api/collection"@ + "/"@ + name + "/checksum"@
            + "?"@ + "withRevisions=true"@,
        !with_revisions && with_data ==> r == "_api/collection"@ + "/"@ + name + "/checksum"@
            + "?"@ + "withData=true"@,
        with_revisions && with_data ==> r == "_api/collection"@ + "/"@ + name + "/checksum"@
            + "?"@ + "withRevisions=true"@ + "&"@ + "withData=true"@,
{
    let ps = checksum_params(with_revisions, with_data);
    reveal_with_fuel(query_string, 3);
    if with_revisions && with_data {
        assert(ps =~= seq!["withRevisions=true"@, "withData=true"@]);
        assert(ps.drop_last() =~= seq!["withRevisions=true"@]);
        assert(ps.drop_last().drop_last() =~= Seq::<Seq<char>>::empty());
    } else if with_revisions {
        assert(ps =~= seq!["withRevisions=true"@]);
        assert(ps.drop_last() =~= Seq::<Seq<char>>::empty());
    } else if with_data {
        assert(ps =~= seq!["withData=true"@]);
        assert(ps.drop_last() =~= Seq::<Seq<char>>::empty());
    } else {
        assert(ps =~= Seq::<Seq<char>>::empty());
    }
}

/// The numbers under which the server sends collection kinds and statuses,
/// and what each number it sends stands for.
pub proof fn lemma_kind_and_status_numbers(c: u64)
    ensures
        kind_code(CollectionKind::Document) == 2,
        kind_code(CollectionKind::Edges) == 3,
        kind_of_code(c) == (if c == 2 {
            Some(CollectionKind::Document)
        } else if c == 3 {
            Some(CollectionKind::Edges)
        } else {
            None
        }),
        status_code(Status::Unknown) == 0,
        status_code(Status::Unloaded) == 2,
        status_code(Status::Loaded) == 3,
        status_code(Status::Unloading) == 4,
        status_code(Status::Deleted) == 5,
        status_code(Status::Loading) == 6,
        status_of_code(c) == (if c == 2 {
            Status::Unloaded
        } else if c == 3 {
            Status::Loaded
        } else if c == 4 {
            Status::Unloading
        } else if c == 5 {
            Status::Deleted
        } else if c == 6 {
            Status::Loading
        } else {
            Status::Unknown
        }),
{
}

} // verus!
