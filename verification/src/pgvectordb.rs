use crate::embedder::EmbedRequest;
use crate::text::{i32_to_string, int_decimal, parse_i32, parsed_i32};
use vstd::prelude::*;

verus! {

/// Rows that a nearest-neighbour query of a relational table returns.
pub const QUERY_LIMIT: i32 = 1;

/// Why nothing was asked of a relational table.
#[derive(Debug, Clone, Copy, PartialEq, Eq, Structural)]
pub enum PgError {
    /// There are no texts, no vectors, or not one vector for each text.
    InvalidInput,
    /// A query takes exactly one vector.
    QueryVectorCount,
}

/// The statement that removes the table `table`, if it is there.
pub open spec fn drop_statement(table: Seq<char>) -> Seq<char> {
    "DROP TABLE IF EXISTS "@ + table
}

/// The statement that makes the table `table` for vectors of `dimension` entries.
pub open spec fn create_statement(table: Seq<char>, dimension: i32) -> Seq<char> {
    "CREATE TABLE "@ + table
        + " (id bigserial PRIMARY KEY, content text, metadata text, embedding vector("@
        + int_decimal(dimension as int) + "))"@
}

/// The statement that indexes the vectors of the table `table` by cosine distance.
pub open spec fn index_statement(table: Seq<char>) -> Seq<char> {
    "CREATE INDEX ON "@ + table + " USING hnsw (embedding vector_cosine_ops)"@
}

/// The statement that inserts one text with its vector into the table `table`.
pub open spec fn insert_statement(table: Seq<char>) -> Seq<char> {
    "INSERT INTO "@ + table + " (content, embedding) VALUES ($1, $2)"@
}

/// The statement that selects the texts of the table `table` nearest to a vector.
pub open spec fn nearest_statement(table: Seq<char>) -> Seq<char> {
    "SELECT content FROM "@ + table + " ORDER BY embedding <-> $1 LIMIT "@ + int_decimal(
        QUERY_LIMIT as int,
    )
}

/// The statement that selects every text of the table `table`.
pub open spec fn select_statement(table: Seq<char>) -> Seq<char> {
    "SELECT id, content FROM "@ + table
}

/// The statements that rebuild the table `table`, to be run in one transaction: the
/// table is dropped if it is there, made anew, and indexed.
pub fn create_table(table: &str, dimension: i32) -> (statements: Vec<String>)
    ensures
        statements.deep_view() == seq![
            drop_statement(table@),
            create_statement(table@, dimension),
            index_statement(table@),
        ],
{
    let mut drop_query = "DROP TABLE IF EXISTS ".to_string();
    drop_query.append(table);
    let mut query = "CREATE TABLE ".to_string();
    query.append(table);
    query.append(" (id bigserial PRIMARY KEY, content text, metadata text, embedding vector(");
    let dimension_text = i32_to_string(dimension);
    query.append(dimension_text.as_str());
    query.append("))");
    let mut index_query = "CREATE INDEX ON ".to_string();
    index_query.append(table);
    index_query.append(" USING hnsw (embedding vector_cosine_ops)");
    let mut statements: Vec<String> = Vec::new();
    statements.push(drop_query);
    statements.push(query);
    statements.push(index_query);
    assert(statements.deep_view() == seq![
        drop_statement(table@),
        create_statement(table@, dimension),
        index_statement(table@),
    ]);
    statements
}

/// The texts of a request with their vectors, and the statement that inserts one of
/// them.
#[derive(Debug, Clone)]
pub struct VectorInsert {
    pub statement: String,
    pub rows: Vec<(String, Vec<u32>)>,
}

/// The rows of an insert: text `i` with vector `i`.
pub open spec fn is_insert_rows(
    rows: Seq<(String, Vec<u32>)>,
    input: Seq<Seq<char>>,
    embeddings: Seq<Seq<u32>>,
) -> bool {
    &&& rows.len() == input.len()
    &&& forall|i: int|
        0 <= i < rows.len() ==> (#[trigger] rows[i]).0@ == input[i] && rows[i].1@ == embeddings[i]
}

/// There is a vector for each text, and there is at least one text.
pub open spec fn is_loadable(input: Seq<Seq<char>>, embeddings: Seq<Seq<u32>>) -> bool {
    input.len() == embeddings.len() && input.len() != 0
}

/// Lays out the insert of the texts of `input` with their vectors `embeddings` into the
/// table `table`, to be run in one transaction.
pub fn load_vector_data(table: &str, input: &EmbedRequest, embeddings: &Vec<Vec<u32>>) -> (res:
    Result<VectorInsert, PgError>)
    ensures
        !is_loadable(input@.input, embeddings.deep_view()) ==> (res matches Err(e) && e
            == PgError::InvalidInput),
        is_loadable(input@.input, embeddings.deep_view()) ==> (res matches Ok(insert)
            && insert.statement@ == insert_statement(table@) && is_insert_rows(
            insert.rows@,
            input@.input,
            embeddings.deep_view(),
        )),
{
    let n = input.input.len();
    if n != embeddings.len() || n == 0 || embeddings.len() == 0 {
        return Err(PgError::InvalidInput);
    }
    let mut rows: Vec<(String, Vec<u32>)> = Vec::new();
    let mut i: usize = 0;
    while i < n
        invariant
            i <= n,
            n == input.input.len(),
            n == embeddings.len(),
            rows.len() == i,
            forall|k: int|
                0 <= k < i ==> (#[trigger] rows[k]).0@ == input.input[k]@ && rows[k].1@
                    == embeddings[k]@,
        decreases n - i,
    {
        rows.push((input.input[i].clone(), embeddings[i].clone()));
        i += 1;
    }
    assert forall|k: int| 0 <= k < rows.len() implies (#[trigger] rows[k]).0@ == input@.input[k]
        && rows[k].1@ == embeddings.deep_view()[k] by {
        assert(embeddings[k].deep_view() == embeddings[k]@);
    }
    let mut statement = "INSERT INTO ".to_string();
    statement.append(table);
    statement.append(" (content, embedding) VALUES ($1, $2)");
    Ok(VectorInsert { statement, rows })
}

/// A nearest-neighbour query of a relational table: the statement and the vector that
/// it is run with.
#[derive(Debug, Clone)]
pub struct NearestQuery {
    pub statement: String,
    pub vector: Vec<u32>,
}

/// Lays out the query for the texts of the table `table` nearest to the one vector of
/// `query_vec`.
pub fn query_nearest(table: &str, query_vec: &Vec<Vec<u32>>) -> (res: Result<NearestQuery, PgError>)
    ensures
        query_vec.len() != 1 ==> (res matches Err(e) && e == PgError::QueryVectorCount),
        query_vec.len() == 1 ==> (res matches Ok(query) && query.statement@ == nearest_statement(
            table@,
        ) && query.vector@ == query_vec[0]@),
{
    if query_vec.len() != 1 {
        return Err(PgError::QueryVectorCount);
    }
    let mut statement = "SELECT content FROM ".to_string();
    statement.append(table);
    statement.append(" ORDER BY embedding <-> $1 LIMIT ");
    let limit = i32_to_string(QUERY_LIMIT);
    statement.append(limit.as_str());
    Ok(NearestQuery { statement, vector: query_vec[0].clone() })
}

/// The query for every text of the table `table`.
pub fn select_embeddings(table: &str) -> (statement: String)
    ensures
        statement@ == select_statement(table@),
{
    let mut statement = "SELECT id, content FROM ".to_string();
    statement.append(table);
    statement
}

/// The dimension that a text spells, 0 where it spells none.
pub open spec fn dimension_of(text: Seq<char>) -> i32 {
    match parsed_i32(text) {
        Some(dimension) => dimension,
        None => 0,
    }
}

/// Reads the dimension of the vectors of a table from the text that names it.
pub fn parse_dimension(dimension: &str) -> (dim: i32)
    ensures
        dim == dimension_of(dimension@),
{
    match parse_i32(dimension) {
        Some(dim) => dim,
        None => 0,
    }
}

} // verus!
