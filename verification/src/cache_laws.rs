//! Which prepared statement serves a query, and which type a name stands for.
use crate::statement_cache::{
    lookup, lookup_type, CacheSize, CachedStatement, CachedType, PgMetadataCache, PgTypeMetadata,
    RenderedQuery, Statement, StatementCache, StatementCacheModel,
};
use vstd::prelude::*;

verus! {

/// A statement was prepared for this very query: both have the same number; or neither has one,
/// and both have the same SQL and the same bind types.
pub open spec fn is_for_query(
    entry: CachedStatement,
    query: RenderedQuery,
    bind_types: Seq<PgTypeMetadata>,
) -> bool {
    match query.query_id {
        Some(wanted) => entry.query_id == Some(wanted),
        None => entry.query_id is None && entry.sql@ == query.sql@ && entry.bind_types@
            == bind_types,
    }
}

/// The statement was found in the cache, and is the first one that was prepared for the query.
pub open spec fn is_first_for_query(
    statements: Seq<CachedStatement>,
    query: RenderedQuery,
    bind_types: Seq<PgTypeMetadata>,
    found: Statement,
) -> bool {
    exists|i: int|
        {
            &&& 0 <= i < statements.len()
            &&& is_for_query(#[trigger] statements[i], query, bind_types)
            &&& statements[i].statement == found
            &&& forall|j: int|
                0 <= j < i ==> !is_for_query(#[trigger] statements[j], query, bind_types)
        }
}

/// No statement in the cache was prepared for the query.
pub open spec fn none_for_query(
    statements: Seq<CachedStatement>,
    query: RenderedQuery,
    bind_types: Seq<PgTypeMetadata>,
) -> bool {
    forall|i: int|
        0 <= i < statements.len() ==> !is_for_query(#[trigger] statements[i], query, bind_types)
}

/// A kept statement serves those queries alone that it was prepared for: if both have a number, the
/// two are equal; if neither has one, SQL and bind types are equal; and one with a number never
/// serves one without.
pub proof fn law_a_statement_serves_its_own_query(
    entry: CachedStatement,
    query: RenderedQuery,
    bind_types: Seq<PgTypeMetadata>,
)
    ensures
        entry.serves(query, bind_types) ==> {
            &&& entry.query_id is Some <==> query.query_id is Some
            &&& entry.query_id is Some ==> entry.query_id->0 == query.query_id->0
            &&& entry.query_id is None ==> entry.sql@ == query.sql@ && entry.bind_types@
                == bind_types
        },
        entry.query_id is Some && query.query_id is Some && entry.query_id->0 == query.query_id->0
            ==> entry.serves(query, bind_types),
        entry.query_id is None && query.query_id is None && entry.sql@ == query.sql@
            && entry.bind_types@ == bind_types ==> entry.serves(query, bind_types),
{
}

/// A statement that is taken from the cache is the first one that was prepared for the query, and
/// one is taken wherever there is one.
pub proof fn law_a_lookup_finds_the_statement_of_the_query(
    statements: Seq<CachedStatement>,
    query: RenderedQuery,
    bind_types: Seq<PgTypeMetadata>,
)
    ensures
        match lookup(statements, query, bind_types) {
            Some(found) => is_first_for_query(statements, query, bind_types, found),
            None => none_for_query(statements, query, bind_types),
        },
    decreases statements.len(),
{
    if statements.len() > 0 {
        let rest = statements.drop_first();
        assert(statements[0].serves(query, bind_types) <==> is_for_query(
            statements[0],
            query,
            bind_types,
        ));
        if statements[0].serves(query, bind_types) {
            assert(is_first_for_query(statements, query, bind_types, statements[0].statement));
        } else {
            law_a_lookup_finds_the_statement_of_the_query(rest, query, bind_types);
            assert forall|j: int| 1 <= j < statements.len() implies #[trigger] statements[j]
                == rest[j - 1] by {}
            match lookup(rest, query, bind_types) {
                Some(found) => {
                    let i = choose|i: int|
                        {
                            &&& 0 <= i < rest.len()
                            &&& is_for_query(#[trigger] rest[i], query, bind_types)
                            &&& rest[i].statement == found
                            &&& forall|j: int|
                                0 <= j < i ==> !is_for_query(#[trigger] rest[j], query, bind_types)
                        };
                    assert(statements[i + 1] == rest[i]);
                    assert forall|j: int| 0 <= j < i + 1 implies !is_for_query(
                        #[trigger] statements[j],
                        query,
                        bind_types,
                    ) by {
                        if j > 0 {
                            assert(statements[j] == rest[j - 1]);
                        }
                    }
                },
                None => {
                    assert forall|i: int| 0 <= i < statements.len() implies !is_for_query(
                        #[trigger] statements[i],
                        query,
                        bind_types,
                    ) by {
                        if i > 0 {
                            assert(statements[i] == rest[i - 1]);
                        }
                    }
                },
            }
        }
    }
}

/// The cache hands out the first statement that was prepared for the query, and none if there is
/// none.
pub proof fn law_the_cache_hands_out_the_statement_of_the_query(
    cache: &StatementCache,
    query: &RenderedQuery,
    bind_types: &Vec<PgTypeMetadata>,
    found: Option<Statement>,
)
    requires
        call_ensures(StatementCache::get, (cache, query, bind_types), found),
    ensures
        match found {
            Some(found) => is_first_for_query(cache@.statements, *query, bind_types@, found),
            None => none_for_query(cache@.statements, *query, bind_types@),
        },
{
    law_a_lookup_finds_the_statement_of_the_query(cache@.statements, *query, bind_types@);
}

/// With one statement in the cache, a query with another number does not get it, whatever the SQL
/// and the bind types are.
pub proof fn law_another_number_takes_another_statement(
    cache: &StatementCache,
    entry: CachedStatement,
    query: &RenderedQuery,
    bind_types: &Vec<PgTypeMetadata>,
    found: Option<Statement>,
)
    requires
        call_ensures(StatementCache::get, (cache, query, bind_types), found),
        cache@.statements == seq![entry],
        entry.query_id is Some || query.query_id is Some,
        entry.query_id != query.query_id,
    ensures
        found is None,
{
    law_the_cache_hands_out_the_statement_of_the_query(cache, query, bind_types, found);
}

/// A statement is kept just if that is safe for its query and the cache is not disabled. Keeping
/// one adds it behind the others, and the size of the cache stays.
pub proof fn law_statements_are_kept(
    cache: &StatementCache,
    query: &RenderedQuery,
    kept: bool,
    growing: &mut StatementCache,
    entry: CachedStatement,
    inserted: (),
    fresh: StatementCache,
    sized: &mut StatementCache,
    size: CacheSize,
    set: (),
)
    requires
        call_ensures(StatementCache::is_kept, (cache, query), kept),
        call_ensures(StatementCache::insert, (growing, entry), inserted),
        call_ensures(StatementCache::new, (), fresh),
        call_ensures(StatementCache::set_cache_size, (sized, size), set),
    ensures
        kept <==> query.is_safe_to_cache_prepared && cache@.size == CacheSize::Unbounded,
        final(growing)@.size == old(growing)@.size,
        final(growing)@.statements == old(growing)@.statements.push(entry),
        fresh@.size == CacheSize::Unbounded,
        fresh@.statements.len() == 0,
        final(sized)@.size == size,
        old(sized)@.size == size ==> final(sized)@.statements == old(sized)@.statements,
        old(sized)@.size != size ==> final(sized)@.statements.len() == 0,
{
}

/// The same holds of what contracts say of it.
pub proof fn law_what_is_kept(
    cache: StatementCacheModel,
    query: RenderedQuery,
    entry: CachedStatement,
)
    ensures
        cache.keeps(query) <==> query.is_safe_to_cache_prepared && cache.size
            == CacheSize::Unbounded,
        cache.storing(entry).size == cache.size,
        cache.storing(entry).statements == cache.statements.push(entry),
{
}

/// The entry tells of the type by this name: both give the same schema, or neither gives one.
pub open spec fn tells_of(entry: CachedType, schema: Option<String>, name: Seq<char>) -> bool {
    &&& entry.name@ == name
    &&& entry.schema is Some <==> schema is Some
    &&& entry.schema is Some ==> entry.schema->0@ == schema->0@
}

/// A lookup of a type tells what was noted last for the same name in the same schema, and nothing
/// if nothing was noted.
pub proof fn law_the_last_note_of_a_type_counts(
    types: Seq<CachedType>,
    schema: Option<String>,
    name: Seq<char>,
)
    ensures
        match lookup_type(types, schema, name) {
            Some(found) => exists|i: int|
                {
                    &&& 0 <= i < types.len()
                    &&& tells_of(#[trigger] types[i], schema, name)
                    &&& types[i].metadata == found
                    &&& forall|j: int|
                        i < j < types.len() ==> !tells_of(#[trigger] types[j], schema, name)
                },
            None => forall|i: int|
                0 <= i < types.len() ==> !tells_of(#[trigger] types[i], schema, name),
        },
    decreases types.len(),
{
    if types.len() > 0 {
        let rest = types.drop_last();
        let last = types.len() - 1;
        assert(types[last] == types.last());
        if tells_of(types.last(), schema, name) {
            assert(lookup_type(types, schema, name) == Some(types.last().metadata));
        } else {
            law_the_last_note_of_a_type_counts(rest, schema, name);
            assert(lookup_type(types, schema, name) == lookup_type(rest, schema, name));
            match lookup_type(rest, schema, name) {
                Some(found) => {
                    let i = choose|i: int|
                        {
                            &&& 0 <= i < rest.len()
                            &&& tells_of(#[trigger] rest[i], schema, name)
                            &&& rest[i].metadata == found
                            &&& forall|j: int|
                                i < j < rest.len() ==> !tells_of(#[trigger] rest[j], schema, name)
                        };
                    assert(types[i] == rest[i]);
                    assert forall|j: int| i < j < types.len() implies !tells_of(
                        #[trigger] types[j],
                        schema,
                        name,
                    ) by {
                        if j < last {
                            assert(types[j] == rest[j]);
                        }
                    }
                },
                None => {
                    assert forall|i: int| 0 <= i < types.len() implies !tells_of(
                        #[trigger] types[i],
                        schema,
                        name,
                    ) by {
                        if i < last {
                            assert(types[i] == rest[i]);
                        }
                    }
                },
            }
        }
    }
}

/// Types are noted behind each other, and looked up by the last note.
pub proof fn law_types_are_looked_up(
    cache: &PgMetadataCache,
    schema: &Option<String>,
    name: &str,
    found: Option<PgTypeMetadata>,
    noting: &mut PgMetadataCache,
    looked_up: CachedType,
    noted: (),
    fresh: PgMetadataCache,
)
    requires
        call_ensures(PgMetadataCache::lookup_type, (cache, schema, name), found),
        call_ensures(PgMetadataCache::store_type, (noting, looked_up), noted),
        call_ensures(PgMetadataCache::new, (), fresh),
    ensures
        match found {
            Some(found) => exists|i: int|
                {
                    &&& 0 <= i < cache@.len()
                    &&& tells_of(#[trigger] cache@[i], *schema, name@)
                    &&& cache@[i].metadata == found
                    &&& forall|j: int|
                        i < j < cache@.len() ==> !tells_of(#[trigger] cache@[j], *schema, name@)
                },
            None => forall|i: int|
                0 <= i < cache@.len() ==> !tells_of(#[trigger] cache@[i], *schema, name@),
        },
        final(noting)@ == old(noting)@.push(looked_up),
        fresh@.len() == 0,
{
    law_the_last_note_of_a_type_counts(cache@, *schema, name@);
}

} // verus!
