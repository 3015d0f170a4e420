//! The catalog query set: the statements sent to the engine, and the
//! parameters bound to them.

use crate::model::views;
use vstd::prelude::*;
use vstd::string::*;

verus! {

/// Lists the schemas of the database, the engine's own (names that begin
/// with the three characters `pg_`) and `information_schema` left out. One
/// column: the schema name.
pub const GET_SCHEMAS: &'static str = "
    SELECT schema_name 
    FROM information_schema.schemata 
    WHERE left(schema_name::text, 3) != 'pg_' 
    AND schema_name != 'information_schema'
";

/// Lists the base tables of the schema `$1` that no extension owns. Three
/// columns: schema name, table name, kind of relation.
pub const GET_TABLES: &'static str = "
    SELECT n.nspname as schema_name,
           c.relname as table_name,
           CASE c.relkind 
               WHEN 'r' THEN 'table'
               WHEN 'v' THEN 'view'
               WHEN 'm' THEN 'materialized view'
               ELSE c.relkind::text 
           END as table_type
    FROM pg_class c
    JOIN pg_namespace n ON n.oid = c.relnamespace
    WHERE n.nspname = $1
    AND c.relkind = 'r'
    AND NOT EXISTS (
        SELECT 1 FROM pg_catalog.pg_depend d
        WHERE d.objid = c.oid
        AND d.deptype = 'e'
    )
";

/// Lists the functions of the schema `$1`. Four columns: schema name,
/// function name, result type (null for a procedure), argument list.
pub const GET_FUNCTIONS: &'static str = "
    SELECT 
        n.nspname as schema,
        p.proname as name,
        pg_get_function_result(p.oid) as return_type,
        pg_get_function_arguments(p.oid) as arguments
    FROM pg_proc p 
    LEFT JOIN pg_namespace n ON p.pronamespace = n.oid 
    WHERE n.nspname = $1
";

/// Lists the live columns of the table `$2` in the schema `$1`, in ordinal
/// order. Seven columns: schema name, table name, column name, type, the
/// `NOT NULL` flag, ordinal position, comment.
pub const GET_COLUMNS: &'static str = "
SELECT 
    n.nspname as schema_name,
    c.relname as table_name,
    a.attname as column_name,
    format_type(a.atttypid, a.atttypmod) as data_type,
    a.attnotnull as is_not_null,
    a.attnum as ordinal,
    d.description
FROM 
    pg_attribute a
    LEFT JOIN pg_description d ON d.objoid = a.attrelid AND d.objsubid = a.attnum
    LEFT JOIN pg_class c ON c.oid = a.attrelid
    LEFT JOIN pg_namespace n ON n.oid = c.relnamespace
WHERE 
    n.nspname = $1
    AND c.relname = $2
    AND a.attnum > 0
    AND NOT a.attisdropped
ORDER BY 
    a.attnum;
";

/// Lists the primary-key and foreign-key constraints of the table `$2` in
/// the schema `$1`. Two columns: the constraint's code and its key list.
pub const GET_KEY_CONSTRAINTS: &'static str = "
SELECT 
    k.contype as constraint_type,
    k.conkey as key_columns
FROM 
    pg_constraint k
    JOIN pg_class c ON c.oid = k.conrelid
    JOIN pg_namespace n ON n.oid = c.relnamespace
WHERE 
    n.nspname = $1
    AND c.relname = $2
    AND k.contype IN ('p', 'f');
";

/// A value bound to a placeholder of a statement.
#[derive(Debug, PartialEq, Eq)]
pub enum Parameter {
    Text(String),
    BigInt(i64),
}

/// The mathematical value of a [`Parameter`].
pub enum ParameterView {
    Text(Seq<char>),
    BigInt(i64),
}

impl View for Parameter {
    type V = ParameterView;

    open spec fn view(&self) -> ParameterView {
        match self {
            Parameter::Text(text) => ParameterView::Text(text@),
            Parameter::BigInt(number) => ParameterView::BigInt(*number),
        }
    }
}

/// A statement with the values bound to its placeholders `$1`, `$2`, in
/// that order.
#[derive(Debug, PartialEq, Eq)]
pub struct Query {
    pub statement: String,
    pub parameters: Vec<Parameter>,
}

/// The mathematical value of a [`Query`].
pub struct QueryView {
    pub statement: Seq<char>,
    pub parameters: Seq<ParameterView>,
}

impl View for Query {
    type V = QueryView;

    open spec fn view(&self) -> QueryView {
        QueryView { statement: self.statement@, parameters: views(self.parameters@) }
    }
}

/// The statement that counts the rows of `table` in `schema`.
pub open spec fn count_statement_of(schema: Seq<char>, table: Seq<char>) -> Seq<char> {
    "SELECT COUNT(*) FROM "@ + schema + "."@ + table
}

/// The statement that reads a window of the rows of `table` in `schema`;
/// `$1` is the most rows to return, `$2` the number of rows to skip.
pub open spec fn rows_statement_of(schema: Seq<char>, table: Seq<char>) -> Seq<char> {
    "SELECT * FROM "@ + schema + "."@ + table + " LIMIT $1 OFFSET $2"@
}

/// The statement that counts the rows of a table.
pub fn count_statement(schema: &str, table: &str) -> (statement: String)
    ensures
        statement@ == count_statement_of(schema@, table@),
{
    let mut statement = String::from_str("SELECT COUNT(*) FROM ");
    statement.append(schema);
    statement.append(".");
    statement.append(table);
    statement
}

/// The statement that reads a window of the rows of a table.
pub fn rows_statement(schema: &str, table: &str) -> (statement: String)
    ensures
        statement@ == rows_statement_of(schema@, table@),
{
    let mut statement = String::from_str("SELECT * FROM ");
    statement.append(schema);
    statement.append(".");
    statement.append(table);
    statement.append(" LIMIT $1 OFFSET $2");
    statement
}

/// A query without parameters.
pub fn plain_query(statement: &str) -> (query: Query)
    ensures
        query@ == (QueryView { statement: statement@, parameters: Seq::empty() }),
{
    let query = Query { statement: String::from_str(statement), parameters: Vec::new() };
    assert(views(query.parameters@) =~= Seq::empty());
    query
}

/// A query about one schema: the schema name is bound to `$1`.
pub fn schema_query(statement: &str, schema: &str) -> (query: Query)
    ensures
        query@ == (QueryView {
            statement: statement@,
            parameters: seq![ParameterView::Text(schema@)],
        }),
{
    let mut parameters: Vec<Parameter> = Vec::new();
    parameters.push(Parameter::Text(String::from_str(schema)));
    let query = Query { statement: String::from_str(statement), parameters };
    assert(views(query.parameters@) =~= seq![ParameterView::Text(schema@)]);
    query
}

/// A query about one table: the schema name is bound to `$1`, the table name
/// to `$2`.
pub fn table_query(statement: &str, schema: &str, table: &str) -> (query: Query)
    ensures
        query@ == (QueryView {
            statement: statement@,
            parameters: seq![ParameterView::Text(schema@), ParameterView::Text(table@)],
        }),
{
    let mut parameters: Vec<Parameter> = Vec::new();
    parameters.push(Parameter::Text(String::from_str(schema)));
    parameters.push(Parameter::Text(String::from_str(table)));
    let query = Query { statement: String::from_str(statement), parameters };
    assert(views(query.parameters@) =~= seq![
        ParameterView::Text(schema@),
        ParameterView::Text(table@),
    ]);
    query
}

/// The query for a window of rows: the limit is bound to `$1`, the offset to
/// `$2`, and neither is written into the statement.
pub fn window_query(schema: &str, table: &str, limit: i64, offset: i64) -> (query: Query)
    ensures
        query@ == (QueryView {
            statement: rows_statement_of(schema@, table@),
            parameters: seq![ParameterView::BigInt(limit), ParameterView::BigInt(offset)],
        }),
{
    let mut parameters: Vec<Parameter> = Vec::new();
    parameters.push(Parameter::BigInt(limit));
    parameters.push(Parameter::BigInt(offset));
    let query = Query { statement: rows_statement(schema, table), parameters };
    assert(views(query.parameters@) =~= seq![
        ParameterView::BigInt(limit),
        ParameterView::BigInt(offset),
    ]);
    query
}

} // verus!
