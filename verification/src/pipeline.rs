use crate::chunk::{file_name_or_none, name_or_none, FileChunk};
use crate::clock::current_timestamp;
use crate::embedder::{
    chunk_embed_request, chunk_request_view, own_strings, EmbedRequest, EmbedRequestView,
    EmbedResponse, EmbedResponseView,
};
use crate::query::{
    contains_name, is_nearest_plan, DistanceType, NearestPlan, LANCEDB_DISTANCE_FN,
};
use crate::schema::{
    create_record_batch, empty_batch_of, record_batch_of, table_columns, RecordBatch,
    RecordBatchView, TableSchema, TableSchemaView,
};
use crate::text::{file_name_of_path, path_file_name};
use vstd::prelude::*;

verus! {

/// Partitions of the index over the vectors.
pub const INDEX_PARTITIONS: u32 = 100;

/// Rows per partition that the index trainer samples.
pub const INDEX_SAMPLE_RATE: u32 = 256;

/// Most rounds of training of the index.
pub const INDEX_MAX_ITERATIONS: u32 = 50;

/// Candidates that are kept while the graph of the index is built.
pub const INDEX_EF_CONSTRUCTION: u32 = 300;

/// Most chunks that are embedded and written at the same time.
pub const MAX_CONCURRENT_TASKS: usize = 8;

/// Seconds after which the wait for an embedding is given up.
pub const EMBED_TIMEOUT_SECS: u64 = 120;

/// The name under which a root path is known: its final component, or `None` spelled
/// out where it has none.
pub fn get_file_name(root_dir: &str) -> (file_name: String)
    ensures
        file_name@ == file_name_or_none(path_file_name(root_dir@)),
{
    name_or_none(file_name_of_path(root_dir))
}

/// `name`, an underscore and `suffix`.
pub open spec fn with_suffix(name: Seq<char>, suffix: Seq<char>) -> Seq<char> {
    name + seq!['_'] + suffix
}

/// The directory of the database of a root: the root's name with the suffix `db`.
pub open spec fn database_uri_of(root_dir: Seq<char>) -> Seq<char> {
    with_suffix(file_name_or_none(path_file_name(root_dir)), "db"@)
}

/// The table of a root: the root's name with the suffix `table`.
pub open spec fn table_name_of(root_dir: Seq<char>) -> Seq<char> {
    with_suffix(file_name_or_none(path_file_name(root_dir)), "table"@)
}

/// `name`, an underscore and `suffix`.
fn add_suffix(name: &str, suffix: &str) -> (res: String)
    ensures
        res@ == with_suffix(name@, suffix@),
{
    let mut out = name.to_string();
    proof {
        reveal_strlit("_");
        assert("_"@ == seq!['_']);
    }
    out.append("_");
    out.append(suffix);
    out
}

/// The directory that holds the database of the root `root_dir`.
pub fn database_uri(root_dir: &str) -> (uri: String)
    ensures
        uri@ == database_uri_of(root_dir@),
{
    let file_name = get_file_name(root_dir);
    add_suffix(file_name.as_str(), "db")
}

/// The table that holds the rows of the root `root_dir`.
pub fn table_name(root_dir: &str) -> (name: String)
    ensures
        name@ == table_name_of(root_dir@),
{
    let file_name = get_file_name(root_dir);
    add_suffix(file_name.as_str(), "table")
}

/// Something to do to the tables of a database.
#[derive(Debug, Clone)]
pub enum TableAction {
    /// Remove the table of this name.
    DropTable(String),
    /// Make a table of this name, with the columns of the schema and no rows.
    CreateEmptyTable(TableSchema),
}

/// What tells a row of embeddings from the others: its values in the columns that an
/// upsert of embeddings matches on. The id and the time of a row are not among them.
pub struct RowKey {
    pub content: Seq<char>,
    pub metadata: Seq<char>,
    pub vector: Seq<u32>,
    pub model: Seq<char>,
    pub chunk_number: i32,
}

/// The key of row `i` of a batch.
pub open spec fn row_key(batch: RecordBatchView, i: int) -> RowKey {
    RowKey {
        content: batch.content[i],
        metadata: batch.metadata[i],
        vector: batch.vector[i],
        model: batch.model[i],
        chunk_number: batch.chunk_number[i],
    }
}

/// The keys of the rows of a batch.
pub open spec fn batch_keys(batch: RecordBatchView) -> Set<RowKey> {
    Set::new(
        |key: RowKey|
            exists|i: int| 0 <= i < batch.id.len() && #[trigger] row_key(batch, i) == key,
    )
}

/// The tables of a database as a load sees them: each table with the keys of its
/// rows. A table that only upserts have filled holds one row for each key.
pub type Tables = Map<Seq<char>, Set<RowKey>>;

/// The tables after `action`.
pub open spec fn apply_table_action(tables: Tables, action: TableAction) -> Tables {
    match action {
        TableAction::DropTable(name) => tables.remove(name@),
        TableAction::CreateEmptyTable(schema) => tables.insert(schema.name@, Set::empty()),
    }
}

/// The tables after the first `upto` of `actions`, in order.
pub open spec fn apply_table_actions(tables: Tables, actions: Seq<TableAction>, upto: int) -> Tables
    decreases upto,
{
    if upto <= 0 {
        tables
    } else {
        apply_table_action(apply_table_actions(tables, actions, upto - 1), actions[upto - 1])
    }
}

/// The rows of a table that held `rows` after the upserts of the first `upto` of
/// `batches`: a row whose key the table lacks is added, a row whose key it has
/// replaces the one that is there.
pub open spec fn upserted(rows: Set<RowKey>, batches: Seq<RecordBatchView>, upto: int) -> Set<
    RowKey,
>
    decreases upto,
{
    if upto <= 0 {
        rows
    } else {
        upserted(rows, batches, upto - 1).union(batch_keys(batches[upto - 1]))
    }
}

/// The rows of the table `name` after a load: after the preparation `actions` of the
/// table and the upserts of `batches`.
pub open spec fn rows_after_load(
    tables: Tables,
    actions: Seq<TableAction>,
    name: Seq<char>,
    batches: Seq<RecordBatchView>,
) -> Set<RowKey> {
    upserted(
        apply_table_actions(tables, actions, actions.len() as int)[name],
        batches,
        batches.len() as int,
    )
}

/// `actions` are the preparation of the table `name`: a table of that name that exists
/// is dropped, and in any case a new one is made.
pub open spec fn is_table_preparation(
    actions: Seq<TableAction>,
    exists_already: bool,
    schema: TableSchema,
) -> bool {
    if exists_already {
        &&& actions.len() == 2
        &&& actions[0] matches TableAction::DropTable(name) && name@ == schema.name@
        &&& actions[1] matches TableAction::CreateEmptyTable(made) && made@ == schema@
    } else {
        &&& actions.len() == 1
        &&& actions[0] matches TableAction::CreateEmptyTable(made) && made@ == schema@
    }
}

/// Prepares the table of a load: every load starts from an empty table, so a table of
/// the same name that is there already is dropped before the new one is made.
pub fn create_lance_table(all_tables: &Vec<String>, table_schema: &TableSchema) -> (actions: Vec<
    TableAction,
>)
    ensures
        is_table_preparation(
            actions@,
            all_tables.deep_view().contains(table_schema.name@),
            *table_schema,
        ),
{
    let mut actions: Vec<TableAction> = Vec::new();
    let table_name = table_schema.get_table_name();
    if contains_name(all_tables, table_name) {
        actions.push(TableAction::DropTable(table_name.to_string()));
    }
    actions.push(TableAction::CreateEmptyTable(table_schema.duplicate()));
    actions
}

/// Whatever a database held before, after the preparation of a table the table is
/// there and has no rows, and no other table has come or gone.
pub proof fn preparation_leaves_an_empty_table(
    tables: Tables,
    actions: Seq<TableAction>,
    schema: TableSchema,
)
    requires
        is_table_preparation(actions, tables.dom().contains(schema.name@), schema),
    ensures
        apply_table_actions(tables, actions, actions.len() as int).dom().contains(schema.name@),
        apply_table_actions(tables, actions, actions.len() as int)[schema.name@]
            == Set::<RowKey>::empty(),
        forall|other: Seq<char>|
            other != schema.name@ ==> (apply_table_actions(
                tables,
                actions,
                actions.len() as int,
            ).dom().contains(other) <==> tables.dom().contains(other)),
{
    reveal_with_fuel(apply_table_actions, 3);
}

/// Upserts of batches with the same keys leave the same rows.
proof fn lemma_upserted_alike(
    rows: Set<RowKey>,
    first: Seq<RecordBatchView>,
    second: Seq<RecordBatchView>,
    upto: int,
)
    requires
        0 <= upto <= first.len(),
        upto <= second.len(),
        forall|j: int| 0 <= j < upto ==> batch_keys(#[trigger] first[j]) == batch_keys(second[j]),
    ensures
        upserted(rows, first, upto) == upserted(rows, second, upto),
    decreases upto,
{
    if upto > 0 {
        lemma_upserted_alike(rows, first, second, upto - 1);
        assert(batch_keys(first[upto - 1]) == batch_keys(second[upto - 1]));
    }
}

/// The rows that are built for a request and its response have the same keys whenever
/// they are built and whatever their id.
pub proof fn batch_keys_do_not_depend_on_time(
    first_id: i32,
    second_id: i32,
    request: EmbedRequestView,
    response: EmbedResponseView,
    first_time: i64,
    second_time: i64,
)
    requires
        record_batch_of(first_id, request, response, first_time) is Ok,
    ensures
        record_batch_of(second_id, request, response, second_time) is Ok,
        batch_keys(record_batch_of(first_id, request, response, first_time)->Ok_0) == batch_keys(
            record_batch_of(second_id, request, response, second_time)->Ok_0,
        ),
{
    let first = record_batch_of(first_id, request, response, first_time)->Ok_0;
    let second = record_batch_of(second_id, request, response, second_time)->Ok_0;
    assert forall|key: RowKey| batch_keys(first).contains(key) == batch_keys(second).contains(
        key,
    ) by {
        if batch_keys(first).contains(key) {
            let i = choose|i: int| 0 <= i < first.id.len() && #[trigger] row_key(first, i) == key;
            assert(row_key(second, i) == key);
        }
        if batch_keys(second).contains(key) {
            let i = choose|i: int| 0 <= i < second.id.len() && #[trigger] row_key(second, i) == key;
            assert(row_key(first, i) == key);
        }
    }
    assert(batch_keys(first) == batch_keys(second));
}

/// A load leaves the same rows in its table whatever the database held before, given
/// that the store drops, creates and upserts as asked: the table is made anew, and the
/// rows that are upserted into it are told apart by their keys alone. A load that is
/// run again on the same chunks with the same answers therefore leaves as many rows as
/// the first time.
pub proof fn load_is_idempotent(
    first_tables: Tables,
    first_actions: Seq<TableAction>,
    first_batches: Seq<RecordBatchView>,
    second_tables: Tables,
    second_actions: Seq<TableAction>,
    second_batches: Seq<RecordBatchView>,
    schema: TableSchema,
)
    requires
        is_table_preparation(first_actions, first_tables.dom().contains(schema.name@), schema),
        is_table_preparation(second_actions, second_tables.dom().contains(schema.name@), schema),
        first_batches.len() == second_batches.len(),
        forall|j: int|
            0 <= j < first_batches.len() ==> batch_keys(#[trigger] first_batches[j]) == batch_keys(
                second_batches[j],
            ),
    ensures
        rows_after_load(first_tables, first_actions, schema.name@, first_batches)
            == rows_after_load(second_tables, second_actions, schema.name@, second_batches),
{
    preparation_leaves_an_empty_table(first_tables, first_actions, schema);
    preparation_leaves_an_empty_table(second_tables, second_actions, schema);
    lemma_upserted_alike(
        Set::<RowKey>::empty(),
        first_batches,
        second_batches,
        first_batches.len() as int,
    );
}

/// An upsert of rows into a table: a row of `records` is inserted where no row of
/// the table agrees with it in all `keys`; where one does, it is overwritten only if
/// `when_matched_update_all` is set.
#[derive(Debug, Clone)]
pub struct MergeInsert {
    pub keys: Vec<String>,
    pub when_not_matched_insert_all: bool,
    pub when_matched_update_all: bool,
    pub records: RecordBatch,
}

/// The columns by which a row of embeddings is told from the rows of a table.
pub open spec fn embedding_keys() -> Seq<Seq<char>> {
    seq!["content"@, "metadata"@, "vector"@, "model"@, "chunk_number"@]
}

/// The columns by which a placeholder row is told from the rows of a table.
pub open spec fn placeholder_keys() -> Seq<Seq<char>> {
    seq!["id"@, "content"@]
}

/// The upsert of the rows of one chunk: rows that the table lacks are inserted, rows
/// that it has already are overwritten.
pub fn insert_embeddings(table_schema: &TableSchema, records: RecordBatch) -> (plan: MergeInsert)
    ensures
        plan.keys.deep_view() == embedding_keys(),
        plan.when_not_matched_insert_all,
        plan.when_matched_update_all,
        plan.records@ == records@,
{
    let mut keys: Vec<String> = Vec::new();
    keys.push("content".to_string());
    keys.push("metadata".to_string());
    keys.push("vector".to_string());
    keys.push("model".to_string());
    keys.push("chunk_number".to_string());
    assert(keys.deep_view() == embedding_keys());
    MergeInsert { keys, when_not_matched_insert_all: true, when_matched_update_all: true, records }
}

/// The upsert of the placeholder batch: rows that the table lacks are inserted, rows
/// that it has already are overwritten.
pub fn insert_empty_batch(table_schema: &TableSchema) -> (plan: MergeInsert)
    ensures
        plan.keys.deep_view() == placeholder_keys(),
        plan.when_not_matched_insert_all,
        plan.when_matched_update_all,
        exists|created_at: i64| plan.records@ == #[trigger] empty_batch_of(created_at),
{
    let mut keys: Vec<String> = Vec::new();
    keys.push("id".to_string());
    keys.push("content".to_string());
    assert(keys.deep_view() == placeholder_keys());
    let records = table_schema.empty_batch_at(current_timestamp());
    MergeInsert { keys, when_not_matched_insert_all: true, when_matched_update_all: true, records }
}

/// The build of the index for nearest-neighbour search over vector columns: a graph
/// index over quantised vectors, partitioned.
#[derive(Debug, Clone)]
pub struct VectorIndexPlan {
    pub table_name: String,
    pub columns: Vec<String>,
    pub distance_type: DistanceType,
    pub num_partitions: u32,
    pub sample_rate: u32,
    pub max_iterations: u32,
    pub ef_construction: u32,
}

/// The build of an inverted index for full-text search over text columns.
#[derive(Debug, Clone)]
pub struct TextIndexPlan {
    pub table_name: String,
    pub columns: Vec<String>,
}

/// The index over the vectors is built with the metric that the search for nearest
/// neighbours measures with.
pub proof fn index_and_search_measure_alike(index: VectorIndexPlan, search: NearestPlan)
    requires
        index.distance_type == LANCEDB_DISTANCE_FN,
        is_nearest_plan(search),
    ensures
        index.distance_type == search.distance_type,
{
}

/// The index over the vectors of `column` in the table `table_name`, built with the
/// metric of the search for nearest neighbours.
pub fn create_index_on_embedding(table_name: &str, column: Vec<&str>) -> (plan: VectorIndexPlan)
    ensures
        plan.table_name@ == table_name@,
        plan.columns.deep_view() == column.deep_view(),
        plan.distance_type == LANCEDB_DISTANCE_FN,
        plan.num_partitions == INDEX_PARTITIONS,
        plan.sample_rate == INDEX_SAMPLE_RATE,
        plan.max_iterations == INDEX_MAX_ITERATIONS,
        plan.ef_construction == INDEX_EF_CONSTRUCTION,
{
    VectorIndexPlan {
        table_name: table_name.to_string(),
        columns: own_strings(&column),
        distance_type: LANCEDB_DISTANCE_FN,
        num_partitions: INDEX_PARTITIONS,
        sample_rate: INDEX_SAMPLE_RATE,
        max_iterations: INDEX_MAX_ITERATIONS,
        ef_construction: INDEX_EF_CONSTRUCTION,
    }
}

/// The full-text index over the texts of `columns` in the table `table_name`.
pub fn create_inverted_index(table_name: &str, columns: Vec<&str>) -> (plan: TextIndexPlan)
    ensures
        plan.table_name@ == table_name@,
        plan.columns.deep_view() == columns.deep_view(),
{
    TextIndexPlan { table_name: table_name.to_string(), columns: own_strings(&columns) }
}

/// The part of the work on one chunk that failed.
#[derive(Debug, Clone, Copy, PartialEq, Eq, Structural)]
pub enum FailedStage {
    /// The embedding could not be fetched.
    Fetch,
    /// No rows could be built from the embedding.
    BatchBuild,
    /// The rows could not be written.
    Insert,
}

/// Where the work on one chunk stands.
#[derive(Debug, Clone)]
pub enum ChunkState {
    /// Nothing has been done yet.
    Pending,
    /// The request for the embedding is with the provider.
    EmbeddingRequested,
    /// The provider has answered with this response.
    EmbeddingReceived(EmbedResponse),
    /// The rows are built and with the store.
    BatchBuilt,
    /// The rows are written.
    Upserted,
    /// The work was given up at this stage.
    Failed(FailedStage),
}

/// What happened to the work on one chunk since its last step.
#[derive(Debug, Clone)]
pub enum ChunkEvent {
    /// The work may begin.
    Start,
    /// The provider answered the request with this response.
    EmbeddingArrived(EmbedResponse),
    /// The provider did not answer the request, or not with a response.
    FetchFailed,
    /// Nothing happened outside; the work goes on by itself.
    Continue,
    /// The store wrote the rows.
    Inserted,
    /// The store did not write the rows.
    InsertFailed,
}

/// What the work on one chunk asks for next.
#[derive(Debug, Clone)]
pub enum ChunkAction {
    /// Send the chunk's request to the provider.
    FetchEmbedding,
    /// Nothing to do outside: take the next step at once.
    Continue,
    /// Write these rows.
    Insert(MergeInsert),
    /// The chunk is stored; there is nothing left to do.
    Finish,
    /// Give the chunk up; the stage names what failed.
    Fail(FailedStage),
    /// Nothing: the event does not concern the work as it stands.
    Ignore,
}

/// `plan` is the upsert of the rows `batch` of a chunk.
pub open spec fn is_embedding_insert(plan: MergeInsert, batch: RecordBatchView) -> bool {
    &&& plan.records@ == batch
    &&& plan.keys.deep_view() == embedding_keys()
    &&& plan.when_not_matched_insert_all
    &&& plan.when_matched_update_all
}

/// What a step of the work on one chunk must do in `state` when `event` is reported.
///
/// The work passes from pending to requested to received to built to upserted, one
/// step at a time and never back. The rows are built from the response that was
/// received, stamped with the time of that step. Fetching, building and inserting may
/// each fail, and a failure is final.
pub open spec fn chunk_step_ok(
    id: i32,
    request: EmbedRequestView,
    state: ChunkState,
    event: ChunkEvent,
    next: ChunkState,
    action: ChunkAction,
) -> bool {
    match (state, event) {
        (ChunkState::Pending, ChunkEvent::Start) => next is EmbeddingRequested
            && action is FetchEmbedding,
        (ChunkState::EmbeddingRequested, ChunkEvent::EmbeddingArrived(response)) => (
        next matches ChunkState::EmbeddingReceived(held) && held@ == response@)
            && action is Continue,
        (ChunkState::EmbeddingRequested, ChunkEvent::FetchFailed) => next == ChunkState::Failed(
            FailedStage::Fetch,
        ) && action == ChunkAction::Fail(FailedStage::Fetch),
        (ChunkState::EmbeddingReceived(response), ChunkEvent::Continue) => exists|
            created_at: i64,
        |
            match #[trigger] record_batch_of(id, request, response@, created_at) {
                Ok(batch) => next is BatchBuilt && (action matches ChunkAction::Insert(plan)
                    && is_embedding_insert(plan, batch)),
                Err(_) => next == ChunkState::Failed(FailedStage::BatchBuild) && action
                    == ChunkAction::Fail(FailedStage::BatchBuild),
            },
        (ChunkState::BatchBuilt, ChunkEvent::Inserted) => next is Upserted && action is Finish,
        (ChunkState::BatchBuilt, ChunkEvent::InsertFailed) => next == ChunkState::Failed(
            FailedStage::Insert,
        ) && action == ChunkAction::Fail(FailedStage::Insert),
        _ => next == state && action is Ignore,
    }
}

/// One step of the work on the chunk with the row id `id` and the request `request`.
pub fn chunk_step(
    id: i32,
    request: &EmbedRequest,
    table_schema: &TableSchema,
    state: ChunkState,
    event: ChunkEvent,
) -> (res: (ChunkState, ChunkAction))
    ensures
        chunk_step_ok(id, request@, state, event, res.0, res.1),
{
    match (state, event) {
        (ChunkState::Pending, ChunkEvent::Start) => (
            ChunkState::EmbeddingRequested,
            ChunkAction::FetchEmbedding,
        ),
        (ChunkState::EmbeddingRequested, ChunkEvent::EmbeddingArrived(response)) => (
            ChunkState::EmbeddingReceived(response),
            ChunkAction::Continue,
        ),
        (ChunkState::EmbeddingRequested, ChunkEvent::FetchFailed) => (
            ChunkState::Failed(FailedStage::Fetch),
            ChunkAction::Fail(FailedStage::Fetch),
        ),
        (ChunkState::EmbeddingReceived(response), ChunkEvent::Continue) => {
            match create_record_batch(id, request, &response, table_schema) {
                Ok(record_batch) => {
                    (
                        ChunkState::BatchBuilt,
                        ChunkAction::Insert(insert_embeddings(table_schema, record_batch)),
                    )
                },
                Err(_) => (
                    ChunkState::Failed(FailedStage::BatchBuild),
                    ChunkAction::Fail(FailedStage::BatchBuild),
                ),
            }
        },
        (ChunkState::BatchBuilt, ChunkEvent::Inserted) => (
            ChunkState::Upserted,
            ChunkAction::Finish,
        ),
        (ChunkState::BatchBuilt, ChunkEvent::InsertFailed) => (
            ChunkState::Failed(FailedStage::Insert),
            ChunkAction::Fail(FailedStage::Insert),
        ),
        (state, _) => (state, ChunkAction::Ignore),
    }
}

/// Why a load did not complete.
#[derive(Debug, Clone, Copy, PartialEq, Eq, Structural)]
pub enum IngestError {
    /// There are more chunks than row ids.
    TooManyChunks,
    /// The work on a chunk failed at this stage.
    Chunk(FailedStage),
    /// The work on a chunk ended without an outcome.
    TaskAborted,
}

/// The work on one chunk: the id of its rows and the request for its embedding.
#[derive(Debug, Clone)]
pub struct ChunkTask {
    pub id: i32,
    pub request: EmbedRequest,
}

/// Everything that a load does to the store, in the order in which it is done: the
/// database is opened at `db_uri`, the table of `table_schema` is prepared, the tasks
/// run side by side and are all awaited, and then the three indexes are built.
#[derive(Debug, Clone)]
pub struct IngestPlan {
    pub db_uri: String,
    pub table_schema: TableSchema,
    pub tasks: Vec<ChunkTask>,
    pub vector_index: VectorIndexPlan,
    pub metadata_index: TextIndexPlan,
    pub content_index: TextIndexPlan,
}

/// `plan` is the load of `chunks`, cut from what lies at `path`.
pub open spec fn is_ingest_plan(
    plan: IngestPlan,
    path: Seq<char>,
    chunks: Seq<FileChunk>,
    provider: Seq<char>,
    embed_url: Seq<char>,
    api_key: Seq<char>,
    model: Seq<char>,
) -> bool {
    &&& plan.db_uri@ == database_uri_of(path)
    &&& plan.table_schema@ == (TableSchemaView {
        name: table_name_of(path),
        columns: table_columns(),
    })
    &&& plan.tasks.len() == chunks.len()
    &&& forall|i: int|
        0 <= i < chunks.len() ==> (#[trigger] plan.tasks[i]).id == i && plan.tasks[i].request@
            == chunk_request_view(chunks[i]@, provider, embed_url, api_key, model)
    &&& plan.vector_index.table_name@ == table_name_of(path)
    &&& plan.vector_index.columns.deep_view() == seq!["vector"@]
    &&& plan.vector_index.distance_type == LANCEDB_DISTANCE_FN
    &&& plan.vector_index.num_partitions == INDEX_PARTITIONS
    &&& plan.vector_index.sample_rate == INDEX_SAMPLE_RATE
    &&& plan.vector_index.max_iterations == INDEX_MAX_ITERATIONS
    &&& plan.vector_index.ef_construction == INDEX_EF_CONSTRUCTION
    &&& plan.metadata_index.table_name@ == table_name_of(path)
    &&& plan.metadata_index.columns.deep_view() == seq!["metadata"@]
    &&& plan.content_index.table_name@ == table_name_of(path)
    &&& plan.content_index.columns.deep_view() == seq!["content"@]
}

/// Lays out the load of `chunks`, which were cut from what lies at `path`: one task for
/// each chunk, with the chunk's position as the id of its rows, for a table and a
/// database named after the path, and the indexes to build when all tasks are done.
pub fn run_embedding_pipeline(
    path: &String,
    chunks: &Vec<FileChunk>,
    provider: &str,
    embed_url: &str,
    api_key: &str,
    model: &str,
) -> (res: Result<IngestPlan, IngestError>)
    ensures
        chunks.len() > i32::MAX ==> (res matches Err(e) && e == IngestError::TooManyChunks),
        chunks.len() <= i32::MAX ==> (res matches Ok(plan) && is_ingest_plan(
            plan,
            path@,
            chunks@,
            provider@,
            embed_url@,
            api_key@,
            model@,
        )),
{
    let n = chunks.len();
    if n > i32::MAX as usize {
        return Err(IngestError::TooManyChunks);
    }
    let mut tasks: Vec<ChunkTask> = Vec::new();
    let mut i: usize = 0;
    while i < n
        invariant
            i <= n,
            n == chunks.len(),
            n <= i32::MAX,
            tasks.len() == i,
            forall|k: int|
                0 <= k < i ==> (#[trigger] tasks[k]).id == k && tasks[k].request@
                    == chunk_request_view(chunks[k]@, provider@, embed_url@, api_key@, model@),
        decreases n - i,
    {
        let request = chunk_embed_request(&chunks[i], provider, embed_url, api_key, model);
        tasks.push(ChunkTask { id: i as i32, request });
        i += 1;
    }
    let table = table_name(path.as_str());
    let table_schema = TableSchema::new(&table);
    let mut vector_column: Vec<&str> = Vec::new();
    vector_column.push("vector");
    let mut metadata_column: Vec<&str> = Vec::new();
    metadata_column.push("metadata");
    let mut content_column: Vec<&str> = Vec::new();
    content_column.push("content");
    assert(vector_column.deep_view() == seq!["vector"@]);
    assert(metadata_column.deep_view() == seq!["metadata"@]);
    assert(content_column.deep_view() == seq!["content"@]);
    let vector_index = create_index_on_embedding(table.as_str(), vector_column);
    let metadata_index = create_inverted_index(table.as_str(), metadata_column);
    let content_index = create_inverted_index(table.as_str(), content_column);
    Ok(
        IngestPlan {
            db_uri: database_uri(path.as_str()),
            table_schema,
            tasks,
            vector_index,
            metadata_index,
            content_index,
        },
    )
}

/// A task of a load that failed: its position among the tasks, and why it failed.
#[derive(Debug, Clone, Copy, PartialEq, Eq, Structural)]
pub struct TaskFailure {
    pub task: usize,
    pub error: IngestError,
}

/// The outcome of a load whose tasks ended with `outcomes` at or after position
/// `from`: the first failure in the order of the tasks, or success if there is none.
pub open spec fn first_failure(outcomes: Seq<Result<(), IngestError>>, from: int) -> Result<
    (),
    TaskFailure,
>
    decreases outcomes.len() - from,
{
    if from < 0 || from >= outcomes.len() {
        Ok(())
    } else {
        match outcomes[from] {
            Err(error) => Err(TaskFailure { task: from as usize, error }),
            Ok(_) => first_failure(outcomes, from + 1),
        }
    }
}

/// Awaits the tasks of a load in their order and stops at the first that failed. The
/// rows of the tasks that succeeded stay in the table: a load is not undone.
pub fn join_tasks(outcomes: &Vec<Result<(), IngestError>>) -> (res: Result<(), TaskFailure>)
    ensures
        res == first_failure(outcomes@, 0),
{
    let n = outcomes.len();
    let mut i: usize = 0;
    while i < n
        invariant
            i <= n,
            n == outcomes.len(),
            first_failure(outcomes@, 0) == first_failure(outcomes@, i as int),
        decreases n - i,
    {
        match outcomes[i] {
            Err(error) => {
                return Err(TaskFailure { task: i, error });
            },
            Ok(_) => {},
        }
        i += 1;
    }
    Ok(())
}

/// The outcome of the work on a chunk that has come to rest in `state`.
pub fn task_outcome(state: &ChunkState) -> (res: Result<(), IngestError>)
    ensures
        res == match *state {
            ChunkState::Upserted => Ok::<(), IngestError>(()),
            ChunkState::Failed(stage) => Err(IngestError::Chunk(stage)),
            _ => Err(IngestError::TaskAborted),
        },
{
    match state {
        ChunkState::Upserted => Ok(()),
        ChunkState::Failed(stage) => Err(IngestError::Chunk(*stage)),
        _ => Err(IngestError::TaskAborted),
    }
}

} // verus!
