//! The PostgreSQL schema that the index owns.
use vstd::prelude::*;
use vstd::string::*;

verus! {

/// The longest name of an owned schema.
pub const MAX_SCHEMA_BYTES: usize = 63;

/// The characters of a schema name.
pub open spec fn schema_char(c: char) -> bool {
    ('a' <= c && c <= 'z') || ('0' <= c && c <= '9') || c == '_'
}

/// A name that an owned schema can have: lower case letters, digits and underscores, a letter
/// first, and none of the names that PostgreSQL keeps for itself or for everyone.
pub open spec fn is_schema_name(schema: Seq<char>) -> bool {
    &&& 0 < schema.len() <= MAX_SCHEMA_BYTES
    &&& 'a' <= schema.first() && schema.first() <= 'z'
    &&& forall|i: int| 0 <= i < schema.len() ==> schema_char(#[trigger] schema[i])
    &&& schema != "public"@
    &&& schema != "information_schema"@
    &&& !"pg_"@.is_prefix_of(schema)
}

/// What a refused schema name is told.
pub open spec fn schema_refused(schema: Seq<char>) -> Seq<char> {
    "invalid owned schema name `"@ + schema + "`"@
}

/// Asks `lenso_postgres_kit::SchemaPlan::new` about a schema name, and gives the text of its
/// `PlanError::InvalidSchemaName` where it refuses the name.
///
/// The plan handed over has no migrations. `SchemaPlan::new` looks at the name before it looks
/// at the migrations, so of a plan with a good name it only says that it is empty.
#[verifier::external_body]
fn schema_plan_refusal(schema: &str) -> (refusal: Option<String>)
    ensures
        refusal is None <==> is_schema_name(schema@),
        refusal matches Some(text) ==> text@ == schema_refused(schema@),
{
    match lenso_postgres_kit::SchemaPlan::new(schema, &[]) {
        Err(error @ lenso_postgres_kit::PlanError::InvalidSchemaName { .. }) => {
            Some(error.to_string())
        },
        Ok(_) | Err(_) => None,
    }
}

/// Checks that the index can own a schema called `schema`; the error says why it cannot.
pub fn schema_plan(schema: &str) -> (result: Result<(), String>)
    ensures
        result is Ok <==> is_schema_name(schema@),
        result matches Err(text) ==> text@ == schema_refused(schema@),
{
    match schema_plan_refusal(schema) {
        None => Ok(()),
        Some(text) => Err(text),
    }
}

/// Every schema name, and nothing else, is between 1 and 63 characters of `a` to `z`, `0` to `9` and
/// `_`, a letter first, but for `public`, `information_schema` and what starts with `pg_`.
pub proof fn schema_names_by_number(schema: Seq<char>)
    ensures
        is_schema_name(schema) <==> ({
            &&& 1 <= schema.len() <= 63
            &&& 97 <= schema[0] as int <= 122
            &&& forall|i: int|
                0 <= i < schema.len() ==> {
                    let n = (#[trigger] schema[i]) as int;
                    97 <= n <= 122 || 48 <= n <= 57 || n == 95
                }
            &&& schema != "public"@
            &&& schema != "information_schema"@
            &&& !(schema.len() >= 3 && schema[0] == 'p' && schema[1] == 'g' && schema[2] == '_')
        }),
        schema_refused(schema) == "invalid owned schema name `"@ + schema + "`"@,
{
    reveal_strlit("pg_");
    let reserved = "pg_"@;
    assert(reserved.is_prefix_of(schema) <==> schema.len() >= 3 && schema[0] == 'p' && schema[1]
        == 'g' && schema[2] == '_') by {
        if schema.len() >= 3 && schema[0] == 'p' && schema[1] == 'g' && schema[2] == '_' {
            assert(reserved =~= schema.subrange(0, 3));
        }
        if reserved.is_prefix_of(schema) {
            assert(reserved[0] == schema.subrange(0, 3)[0]);
            assert(reserved[1] == schema.subrange(0, 3)[1]);
            assert(reserved[2] == schema.subrange(0, 3)[2]);
        }
    }
    if is_schema_name(schema) {
        assert forall|i: int| 0 <= i < schema.len() implies ({
            let n = (#[trigger] schema[i]) as int;
            97 <= n <= 122 || 48 <= n <= 57 || n == 95
        }) by {
            assert(schema_char(schema[i]));
        }
    }
}

} // verus!
