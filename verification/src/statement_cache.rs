//! Prepared statements that are kept for repeated use, and the types that binds have.
use vstd::prelude::*;

verus! {

/// The object IDs of a type of the server, and of the arrays of that type.
#[derive(Debug, Clone, Copy, PartialEq, Eq, Structural)]
pub struct PgTypeMetadata {
    pub oid: u32,
    pub array_oid: u32,
}

/// A prepared statement that the driver holds for the connection.
#[derive(Debug, Clone, Copy, PartialEq, Eq, Structural)]
pub struct Statement {
    /// By this number the driver finds the statement again.
    pub handle: u64,
}

/// A prepared statement, and whether it stays in the cache.
#[derive(Debug, Clone, Copy, PartialEq, Eq, Structural)]
pub enum MaybeCached {
    /// The statement serves one query.
    CannotCache(Statement),
    /// The statement will be used again.
    Cached(Statement),
}

/// How many statements a connection keeps.
#[derive(Debug, Clone, Copy, PartialEq, Eq, Structural)]
#[non_exhaustive]
pub enum CacheSize {
    /// Every statement that may be kept.
    Unbounded,
    /// None.
    Disabled,
}

/// A query as SQL.
#[derive(Debug, PartialEq, Eq)]
pub struct RenderedQuery {
    /// The SQL, with placeholders for the binds.
    pub sql: String,
    /// A number that belongs to this SQL and its bind types alone, where the query has one.
    pub query_id: Option<u64>,
    /// Whether a statement for this query may be kept.
    pub is_safe_to_cache_prepared: bool,
}

/// A statement in the cache, with what it is found by.
#[derive(Debug, PartialEq, Eq)]
pub struct CachedStatement {
    pub query_id: Option<u64>,
    pub sql: String,
    pub bind_types: Vec<PgTypeMetadata>,
    pub statement: Statement,
}

impl CachedStatement {
    /// The statement is one for `query`: both have the same number, or both have none and agree
    /// in their SQL and their bind types.
    pub open spec fn serves(self, query: RenderedQuery, bind_types: Seq<PgTypeMetadata>) -> bool {
        match (self.query_id, query.query_id) {
            (Some(kept), Some(wanted)) => kept == wanted,
            (None, None) => self.sql@ == query.sql@ && self.bind_types@ == bind_types,
            _ => false,
        }
    }

    fn is_for(&self, query: &RenderedQuery, bind_types: &Vec<PgTypeMetadata>) -> (yes: bool)
        ensures
            yes == self.serves(*query, bind_types@),
    {
        match (self.query_id, query.query_id) {
            (Some(kept), Some(wanted)) => kept == wanted,
            (None, None) => self.sql == query.sql && same_types(&self.bind_types, bind_types),
            _ => false,
        }
    }
}

fn same_types(left: &Vec<PgTypeMetadata>, right: &Vec<PgTypeMetadata>) -> (same: bool)
    ensures
        same == (left@ == right@),
{
    if left.len() != right.len() {
        return false;
    }
    let mut next: usize = 0;
    while next < left.len()
        invariant
            left@.len() == right@.len(),
            next <= left@.len(),
            forall|i: int| 0 <= i < next ==> left@[i] == right@[i],
        decreases left@.len() - next,
    {
        if left[next] != right[next] {
            return false;
        }
        next += 1;
    }
    proof {
        assert(left@ =~= right@);
    }
    true
}

/// The oldest of `statements` that serves the query.
pub open spec fn lookup(
    statements: Seq<CachedStatement>,
    query: RenderedQuery,
    bind_types: Seq<PgTypeMetadata>,
) -> Option<Statement>
    decreases statements.len(),
{
    if statements.len() == 0 {
        None
    } else if statements[0].serves(query, bind_types) {
        Some(statements[0].statement)
    } else {
        lookup(statements.drop_first(), query, bind_types)
    }
}

/// What a statement cache holds.
#[verifier::ext_equal]
pub struct StatementCacheModel {
    pub size: CacheSize,
    pub statements: Seq<CachedStatement>,
}

impl StatementCacheModel {
    /// A statement for the query is to be kept.
    pub open spec fn keeps(self, query: RenderedQuery) -> bool {
        query.is_safe_to_cache_prepared && self.size == CacheSize::Unbounded
    }

    /// The cache with one more statement.
    pub open spec fn storing(self, entry: CachedStatement) -> StatementCacheModel {
        StatementCacheModel { statements: self.statements.push(entry), ..self }
    }
}

/// The prepared statements of one connection.
#[derive(Debug)]
pub struct StatementCache {
    size: CacheSize,
    statements: Vec<CachedStatement>,
}

impl View for StatementCache {
    type V = StatementCacheModel;

    closed spec fn view(&self) -> StatementCacheModel {
        StatementCacheModel { size: self.size, statements: self.statements@ }
    }
}

impl StatementCache {
    /// An empty cache without a bound.
    pub fn new() -> (cache: StatementCache)
        ensures
            cache@.size == CacheSize::Unbounded,
            cache@.statements == Seq::<CachedStatement>::empty(),
    {
        StatementCache { size: CacheSize::Unbounded, statements: Vec::new() }
    }

    /// Changes how many statements are kept. A change empties the cache.
    pub fn set_cache_size(&mut self, size: CacheSize)
        ensures
            final(self)@.size == size,
            final(self)@.statements == if size == old(self)@.size {
                old(self)@.statements
            } else {
                Seq::<CachedStatement>::empty()
            },
    {
        if self.size != size {
            self.size = size;
            self.statements = Vec::new();
        }
    }

    /// Whether a statement for the query is to be kept.
    pub fn is_kept(&self, query: &RenderedQuery) -> (kept: bool)
        ensures
            kept == self@.keeps(*query),
    {
        query.is_safe_to_cache_prepared && match self.size {
            CacheSize::Unbounded => true,
            CacheSize::Disabled => false,
        }
    }

    /// The statement that serves the query, if one is in the cache.
    pub fn get(&self, query: &RenderedQuery, bind_types: &Vec<PgTypeMetadata>) -> (found: Option<
        Statement,
    >)
        ensures
            found == lookup(self@.statements, *query, bind_types@),
    {
        let mut next: usize = 0;
        proof {
            assert(self.statements@.skip(0) =~= self.statements@);
        }
        while next < self.statements.len()
            invariant
                next <= self.statements@.len(),
                lookup(self.statements@, *query, bind_types@) == lookup(
                    self.statements@.skip(next as int),
                    *query,
                    bind_types@,
                ),
            decreases self.statements@.len() - next,
        {
            let entry: &CachedStatement = &self.statements[next];
            if entry.is_for(query, bind_types) {
                return Some(entry.statement);
            }
            proof {
                assert(self.statements@.skip(next as int).drop_first()
                    =~= self.statements@.skip(next + 1));
            }
            next += 1;
        }
        None
    }

    /// Keeps one more statement.
    pub fn insert(&mut self, entry: CachedStatement)
        ensures
            final(self)@ == old(self)@.storing(entry),
    {
        self.statements.push(entry);
        proof {
            assert(self@ =~= old(self)@.storing(entry));
        }
    }
}

/// A type name that was looked up on the server, with what the server said.
#[derive(Debug, PartialEq, Eq)]
pub struct CachedType {
    pub schema: Option<String>,
    pub name: String,
    pub metadata: PgTypeMetadata,
}

/// Two schema names agree, or neither is given.
pub open spec fn same_schema(left: Option<String>, right: Option<String>) -> bool {
    match (left, right) {
        (Some(left), Some(right)) => left@ == right@,
        (None, None) => true,
        _ => false,
    }
}

/// What the latest lookup of the type name told.
pub open spec fn lookup_type(
    types: Seq<CachedType>,
    schema: Option<String>,
    name: Seq<char>,
) -> Option<PgTypeMetadata>
    decreases types.len(),
{
    if types.len() == 0 {
        None
    } else if same_schema(types.last().schema, schema) && types.last().name@ == name {
        Some(types.last().metadata)
    } else {
        lookup_type(types.drop_last(), schema, name)
    }
}

/// The types that a connection has looked up on its server.
#[derive(Debug)]
pub struct PgMetadataCache {
    types: Vec<CachedType>,
}

impl View for PgMetadataCache {
    type V = Seq<CachedType>;

    closed spec fn view(&self) -> Seq<CachedType> {
        self.types@
    }
}

impl PgMetadataCache {
    /// Nothing was looked up yet.
    pub fn new() -> (cache: PgMetadataCache)
        ensures
            cache@ == Seq::<CachedType>::empty(),
    {
        PgMetadataCache { types: Vec::new() }
    }

    /// Notes what the server said of a type.
    pub fn store_type(&mut self, looked_up: CachedType)
        ensures
            final(self)@ == old(self)@.push(looked_up),
    {
        self.types.push(looked_up);
    }

    /// What the latest lookup of the type name told, if it was looked up.
    pub fn lookup_type(&self, schema: &Option<String>, name: &str) -> (found: Option<
        PgTypeMetadata,
    >)
        ensures
            found == lookup_type(self@, *schema, name@),
    {
        let mut left: usize = self.types.len();
        let wanted: String = name.to_owned();
        proof {
            assert(self.types@.take(left as int) =~= self.types@);
        }
        while left > 0
            invariant
                left <= self.types@.len(),
                wanted@ == name@,
                lookup_type(self.types@, *schema, name@) == lookup_type(
                    self.types@.take(left as int),
                    *schema,
                    name@,
                ),
            decreases left,
        {
            left -= 1;
            let entry: &CachedType = &self.types[left];
            let schema_agrees: bool = match (&entry.schema, schema) {
                (Some(kept), Some(wanted)) => *kept == *wanted,
                (None, None) => true,
                _ => false,
            };
            proof {
                assert(self.types@.take(left + 1).last() == entry);
                assert(self.types@.take(left + 1).drop_last() =~= self.types@.take(left as int));
            }
            if schema_agrees && entry.name == wanted {
                return Some(entry.metadata);
            }
        }
        None
    }
}

} // verus!
