//! Cursors: the cursor creation configuration.

use crate::error::BuilderError;
use std::collections::HashMap;
use vstd::prelude::*;
use vstd::string::*;

verus! {

/// The path of the cursor API.
pub const BASE_CURSOR_SUFFIX: &'static str = "_api/cursor";

/// The profile kind
#[derive(Clone, Copy, Debug, PartialEq, Eq, Structural)]
pub enum ProfileKind {
    /// Generate the profiling data only
    ProfileOnly,
    /// Generate executions stats per query plan node
    WithStats,
}

/// The number under which a profile kind is sent.
pub open spec fn profile_code(p: ProfileKind) -> i8 {
    match p {
        ProfileKind::ProfileOnly => 1,
        ProfileKind::WithStats => 2,
    }
}

impl ProfileKind {
    /// The number under which this profile kind is sent.
    pub fn code(self) -> (r: i8)
        ensures
            r == profile_code(self),
    {
        match self {
            ProfileKind::ProfileOnly => 1,
            ProfileKind::WithStats => 2,
        }
    }
}

/// Cursor creation configuration: a query, with a batch size that is never
/// zero.
#[derive(Debug)]
pub struct CreateConfig {
    query: String,
    bind_vars: Option<HashMap<String, String>>,
    count: Option<bool>,
    batch_size: Option<usize>,
    cache: Option<bool>,
    memory_limit: Option<usize>,
    ttl: Option<usize>,
    options: Option<Options>,
}

impl CreateConfig {
    #[verifier::type_invariant]
    spec fn batch_size_not_zero(self) -> bool {
        self.batch_size != Some(0usize)
    }

    /// The query string
    pub closed spec fn spec_query(self) -> Seq<char> {
        self.query@
    }

    /// The batch size
    pub closed spec fn spec_batch_size(self) -> Option<usize> {
        self.batch_size
    }

    /// The count flag
    pub closed spec fn spec_count(self) -> Option<bool> {
        self.count
    }

    /// The cache flag
    pub closed spec fn spec_cache(self) -> Option<bool> {
        self.cache
    }

    /// The memory limit
    pub closed spec fn spec_memory_limit(self) -> Option<usize> {
        self.memory_limit
    }

    /// The time-to-live
    pub closed spec fn spec_ttl(self) -> Option<usize> {
        self.ttl
    }

    /// The bind parameters
    pub closed spec fn spec_bind_vars(self) -> Option<HashMap<String, String>> {
        self.bind_vars
    }

    /// The additional options
    pub closed spec fn spec_options(self) -> Option<Options> {
        self.options
    }

    /// Contains the query string to be executed
    pub fn query(&self) -> (r: &String)
        ensures
            r@ == self.spec_query(),
    {
        &self.query
    }

    /// Key/value pairs representing the bind parameters.
    pub fn bind_vars(&self) -> (r: &Option<HashMap<String, String>>)
        ensures
            *r == self.spec_bind_vars(),
    {
        &self.bind_vars
    }

    /// Should the number of documents in the result be returned?
    pub fn count(&self) -> (r: &Option<bool>)
        ensures
            *r == self.spec_count(),
    {
        &self.count
    }

    /// The maximum number of documents per round trip; never zero.
    pub fn batch_size(&self) -> (r: &Option<usize>)
        ensures
            *r == self.spec_batch_size(),
            *r != Some(0usize),
    {
        proof {
            use_type_invariant(self);
        }
        &self.batch_size
    }

    /// Use the query results cache?
    pub fn cache(&self) -> (r: &Option<bool>)
        ensures
            *r == self.spec_cache(),
    {
        &self.cache
    }

    /// The memory limit of the query in bytes; 0 means no limit.
    pub fn memory_limit(&self) -> (r: &Option<usize>)
        ensures
            *r == self.spec_memory_limit(),
    {
        &self.memory_limit
    }

    /// The time-to-live of the cursor in seconds.
    pub fn ttl(&self) -> (r: &Option<usize>)
        ensures
            *r == self.spec_ttl(),
    {
        &self.ttl
    }

    /// Additional cursor options
    pub fn options(&self) -> (r: &Option<Options>)
        ensures
            *r == self.spec_options(),
    {
        &self.options
    }

    /// The url suffix of the cursor creation: the base path itself.
    pub fn build_suffix(&self, base: &str) -> (r: String)
        ensures
            r@ == base@,
    {
        String::from_str(base)
    }
}

/// Builds a [`CreateConfig`]; the values are checked first (a batch size of
/// zero is refused), then `query` must be set.
#[derive(Clone, Debug)]
pub struct CreateConfigBuilder {
    pub query: Option<String>,
    pub bind_vars: Option<HashMap<String, String>>,
    pub count: Option<bool>,
    pub batch_size: Option<usize>,
    pub cache: Option<bool>,
    pub memory_limit: Option<usize>,
    pub ttl: Option<usize>,
    pub options: Option<Options>,
}

impl CreateConfigBuilder {
    /// A builder with nothing set.
    pub fn default() -> (r: Self)
        ensures
            r.query is None && r.bind_vars is None && r.count is None && r.batch_size is None
                && r.cache is None && r.memory_limit is None && r.ttl is None && r.options is None,
    {
        CreateConfigBuilder {
            query: None,
            bind_vars: None,
            count: None,
            batch_size: None,
            cache: None,
            memory_limit: None,
            ttl: None,
            options: None,
        }
    }

    /// Contains the query string to be executed
    pub fn query(self, v: &str) -> (r: Self)
        ensures
            r == (Self { query: r.query, ..self }),
            r.query matches Some(s) && s@ == v@,
    {
        Self { query: Some(String::from_str(v)), ..self }
    }

    /// Key/value pairs representing the bind parameters.
    pub fn bind_vars(self, v: HashMap<String, String>) -> (r: Self)
        ensures
            r == (Self { bind_vars: Some(v), ..self }),
    {
        Self { bind_vars: Some(v), ..self }
    }

    /// Should the number of documents in the result be returned?
    pub fn count(self, v: bool) -> (r: Self)
        ensures
            r == (Self { count: Some(v), ..self }),
    {
        Self { count: Some(v), ..self }
    }

    /// The maximum number of documents per round trip; 0 is refused.
    pub fn batch_size(self, v: usize) -> (r: Self)
        ensures
            r == (Self { batch_size: Some(v), ..self }),
    {
        Self { batch_size: Some(v), ..self }
    }

    /// Use the query results cache?
    pub fn cache(self, v: bool) -> (r: Self)
        ensures
            r == (Self { cache: Some(v), ..self }),
    {
        Self { cache: Some(v), ..self }
    }

    /// The memory limit of the query in bytes; 0 means no limit.
    pub fn memory_limit(self, v: usize) -> (r: Self)
        ensures
            r == (Self { memory_limit: Some(v), ..self }),
    {
        Self { memory_limit: Some(v), ..self }
    }

    /// The time-to-live of the cursor in seconds.
    pub fn ttl(self, v: usize) -> (r: Self)
        ensures
            r == (Self { ttl: Some(v), ..self }),
    {
        Self { ttl: Some(v), ..self }
    }

    /// Additional cursor options
    pub fn options(self, v: Options) -> (r: Self)
        ensures
            r == (Self { options: Some(v), ..self }),
    {
        Self { options: Some(v), ..self }
    }

    /// Checks the set values: a batch size, when set, must not be zero.
    pub fn validate(&self) -> (r: Result<(), String>)
        ensures
            self.batch_size == Some(0usize) ==> (r matches Err(m) && m@
                == "batch_size cannot be 0!"@),
            self.batch_size != Some(0usize) ==> r is Ok,
    {
        match self.batch_size {
            Some(bs) => if bs == 0 {
                Err(String::from_str("batch_size cannot be 0!"))
            } else {
                Ok(())
            },
            None => Ok(()),
        }
    }

    /// The configuration: the values are checked first, then `query` must
    /// be set.
    pub fn build(self) -> (r: Result<CreateConfig, BuilderError>)
        ensures
            self.batch_size == Some(0usize) ==> (r matches Err(BuilderError::ValidationError(m))
                && m@ == "batch_size cannot be 0!"@),
            self.batch_size != Some(0usize) && self.query is None ==> (r matches Err(
                BuilderError::UninitializedField(f),
            ) && f@ == "query"@),
            self.batch_size != Some(0usize) && self.query is Some ==> (r matches Ok(c)
                && c.spec_query() == self.query->0@ && c.spec_batch_size() == self.batch_size
                && c.spec_count() == self.count && c.spec_cache() == self.cache
                && c.spec_memory_limit() == self.memory_limit && c.spec_ttl() == self.ttl
                && c.spec_bind_vars() == self.bind_vars && c.spec_options() == self.options),
    {
        if let Err(m) = self.validate() {
            return Err(BuilderError::ValidationError(m));
        }
        let query = match self.query {
            Some(v) => v,
            None => return Err(BuilderError::UninitializedField("query")),
        };
        Ok(
            CreateConfig {
                query,
                bind_vars: self.bind_vars,
                count: self.count,
                batch_size: self.batch_size,
                cache: self.cache,
                memory_limit: self.memory_limit,
                ttl: self.ttl,
                options: self.options,
            },
        )
    }
}

/// Cursor creation options
#[derive(Clone, Debug)]
pub struct Options {
    /// Abort the query on a warning instead of reporting it.
    pub fail_on_warning: Option<bool>,
    /// Return profiling information, with or without per-node statistics.
    pub profile: Option<ProfileKind>,
    /// Transaction size limit in bytes (RocksDB only).
    pub max_txn_size: Option<usize>,
    /// Optimizer rules
    pub optimizer: Option<Rules>,
    /// Execute the query in a streaming fashion.
    pub stream: Option<bool>,
    /// Kill the query after this many seconds; 0 means no timeout.
    pub max_runtime: Option<usize>,
    /// The maximum number of warnings the query returns.
    pub max_warning_count: Option<usize>,
    /// Commit after this many operations (RocksDB only).
    pub intermediate_commit_count: Option<usize>,
    /// Commit after operations of this total size (RocksDB only).
    pub intermediate_commit_size: Option<usize>,
    /// The maximum number of plans the optimizer creates.
    pub max_plans: Option<usize>,
    /// Count the documents before the last top-level LIMIT.
    pub full_count: Option<bool>,
}

impl Options {
    /// Abort the query on a warning instead of reporting it.
    pub fn fail_on_warning(&self) -> (r: &Option<bool>)
        ensures
            *r == self.fail_on_warning,
    {
        &self.fail_on_warning
    }

    /// Return profiling information, with or without per-node statistics.
    pub fn profile(&self) -> (r: &Option<ProfileKind>)
        ensures
            *r == self.profile,
    {
        &self.profile
    }

    /// Transaction size limit in bytes (RocksDB only).
    pub fn max_txn_size(&self) -> (r: &Option<usize>)
        ensures
            *r == self.max_txn_size,
    {
        &self.max_txn_size
    }

    /// Optimizer rules
    pub fn optimizer(&self) -> (r: &Option<Rules>)
        ensures
            *r == self.optimizer,
    {
        &self.optimizer
    }

    /// Execute the query in a streaming fashion.
    pub fn stream(&self) -> (r: &Option<bool>)
        ensures
            *r == self.stream,
    {
        &self.stream
    }

    /// Kill the query after this many seconds; 0 means no timeout.
    pub fn max_runtime(&self) -> (r: &Option<usize>)
        ensures
            *r == self.max_runtime,
    {
        &self.max_runtime
    }

    /// The maximum number of warnings the query returns.
    pub fn max_warning_count(&self) -> (r: &Option<usize>)
        ensures
            *r == self.max_warning_count,
    {
        &self.max_warning_count
    }

    /// Commit after this many operations (RocksDB only).
    pub fn intermediate_commit_count(&self) -> (r: &Option<usize>)
        ensures
            *r == self.intermediate_commit_count,
    {
        &self.intermediate_commit_count
    }

    /// Commit after operations of this total size (RocksDB only).
    pub fn intermediate_commit_size(&self) -> (r: &Option<usize>)
        ensures
            *r == self.intermediate_commit_size,
    {
        &self.intermediate_commit_size
    }

    /// The maximum number of plans the optimizer creates.
    pub fn max_plans(&self) -> (r: &Option<usize>)
        ensures
            *r == self.max_plans,
    {
        &self.max_plans
    }

    /// Count the documents before the last top-level LIMIT.
    pub fn full_count(&self) -> (r: &Option<bool>)
        ensures
            *r == self.full_count,
    {
        &self.full_count
    }
}

/// Builds a [`Options`].
#[derive(Clone, Debug)]
pub struct OptionsBuilder {
    pub fail_on_warning: Option<bool>,
    pub profile: Option<ProfileKind>,
    pub max_txn_size: Option<usize>,
    pub optimizer: Option<Rules>,
    pub stream: Option<bool>,
    pub max_runtime: Option<usize>,
    pub max_warning_count: Option<usize>,
    pub intermediate_commit_count: Option<usize>,
    pub intermediate_commit_size: Option<usize>,
    pub max_plans: Option<usize>,
    pub full_count: Option<bool>,
}

impl OptionsBuilder {
    /// A builder with nothing set.
    pub fn default() -> (r: Self)
        ensures
            r == (Self { fail_on_warning: None, profile: None, max_txn_size: None, optimizer: None, stream: None, max_runtime: None, max_warning_count: None, intermediate_commit_count: None, intermediate_commit_size: None, max_plans: None, full_count: None }),
    {
        OptionsBuilder { fail_on_warning: None, profile: None, max_txn_size: None, optimizer: None, stream: None, max_runtime: None, max_warning_count: None, intermediate_commit_count: None, intermediate_commit_size: None, max_plans: None, full_count: None }
    }

    /// Abort the query on a warning instead of reporting it.
    pub fn fail_on_warning(self, v: bool) -> (r: Self)
        ensures
            r == (Self { fail_on_warning: Some(v), ..self }),
    {
        Self { fail_on_warning: Some(v), ..self }
    }

    /// Return profiling information, with or without per-node statistics.
    pub fn profile(self, v: ProfileKind) -> (r: Self)
        ensures
            r == (Self { profile: Some(v), ..self }),
    {
        Self { profile: Some(v), ..self }
    }

    /// Transaction size limit in bytes (RocksDB only).
    pub fn max_txn_size(self, v: usize) -> (r: Self)
        ensures
            r == (Self { max_txn_size: Some(v), ..self }),
    {
        Self { max_txn_size: Some(v), ..self }
    }

    /// Optimizer rules
    pub fn optimizer(self, v: Rules) -> (r: Self)
        ensures
            r == (Self { optimizer: Some(v), ..self }),
    {
        Self { optimizer: Some(v), ..self }
    }

    /// Execute the query in a streaming fashion.
    pub fn stream(self, v: bool) -> (r: Self)
        ensures
            r == (Self { stream: Some(v), ..self }),
    {
        Self { stream: Some(v), ..self }
    }

    /// Kill the query after this many seconds; 0 means no timeout.
    pub fn max_runtime(self, v: usize) -> (r: Self)
        ensures
            r == (Self { max_runtime: Some(v), ..self }),
    {
        Self { max_runtime: Some(v), ..self }
    }

    /// The maximum number of warnings the query returns.
    pub fn max_warning_count(self, v: usize) -> (r: Self)
        ensures
            r == (Self { max_warning_count: Some(v), ..self }),
    {
        Self { max_warning_count: Some(v), ..self }
    }

    /// Commit after this many operations (RocksDB only).
    pub fn intermediate_commit_count(self, v: usize) -> (r: Self)
        ensures
            r == (Self { intermediate_commit_count: Some(v), ..self }),
    {
        Self { intermediate_commit_count: Some(v), ..self }
    }

    /// Commit after operations of this total size (RocksDB only).
    pub fn intermediate_commit_size(self, v: usize) -> (r: Self)
        ensures
            r == (Self { intermediate_commit_size: Some(v), ..self }),
    {
        Self { intermediate_commit_size: Some(v), ..self }
    }

    /// The maximum number of plans the optimizer creates.
    pub fn max_plans(self, v: usize) -> (r: Self)
        ensures
            r == (Self { max_plans: Some(v), ..self }),
    {
        Self { max_plans: Some(v), ..self }
    }

    /// Count the documents before the last top-level LIMIT.
    pub fn full_count(self, v: bool) -> (r: Self)
        ensures
            r == (Self { full_count: Some(v), ..self }),
    {
        Self { full_count: Some(v), ..self }
    }

    /// The configuration, when every required field is set.
    pub fn build(self) -> (r: Result<Options, BuilderError>)
        ensures
            true ==> (r matches Ok(c) && c == (Options { fail_on_warning: self.fail_on_warning, profile: self.profile, max_txn_size: self.max_txn_size, optimizer: self.optimizer, stream: self.stream, max_runtime: self.max_runtime, max_warning_count: self.max_warning_count, intermediate_commit_count: self.intermediate_commit_count, intermediate_commit_size: self.intermediate_commit_size, max_plans: self.max_plans, full_count: self.full_count })),
    {
        Ok(Options { fail_on_warning: self.fail_on_warning, profile: self.profile, max_txn_size: self.max_txn_size, optimizer: self.optimizer, stream: self.stream, max_runtime: self.max_runtime, max_warning_count: self.max_warning_count, intermediate_commit_count: self.intermediate_commit_count, intermediate_commit_size: self.intermediate_commit_size, max_plans: self.max_plans, full_count: self.full_count })
    }
}

/// Cursor creation optimizer rules
#[derive(Clone, Debug)]
pub struct Rules {
    /// Optimizer rules to include (`+name`) or exclude (`-name`); `all` matches every rule.
    pub rules: Option<Vec<String>>,
}

impl Rules {
    /// Optimizer rules to include (`+name`) or exclude (`-name`); `all` matches every rule.
    pub fn rules(&self) -> (r: &Option<Vec<String>>)
        ensures
            *r == self.rules,
    {
        &self.rules
    }
}

/// Builds a [`Rules`].
#[derive(Clone, Debug)]
pub struct RulesBuilder {
    pub rules: Option<Vec<String>>,
}

impl RulesBuilder {
    /// A builder with nothing set.
    pub fn default() -> (r: Self)
        ensures
            r == (Self { rules: None }),
    {
        RulesBuilder { rules: None }
    }

    /// Optimizer rules to include (`+name`) or exclude (`-name`); `all` matches every rule.
    pub fn rules(self, v: Vec<String>) -> (r: Self)
        ensures
            r == (Self { rules: Some(v), ..self }),
    {
        Self { rules: Some(v), ..self }
    }

    /// The configuration, when every required field is set.
    pub fn build(self) -> (r: Result<Rules, BuilderError>)
        ensures
            true ==> (r matches Ok(c) && c == (Rules { rules: self.rules })),
    {
        Ok(Rules { rules: self.rules })
    }
}

} // verus!
