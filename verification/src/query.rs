use crate::embedder::{EmbedRequest, EmbedRequestView, EmbedResponse};
use crate::schema::{RecordBatch, RecordBatchView};
use crate::text::{
    i32_to_string, int_decimal, join_strings, join_with, parse_i32, parsed_i32, replace_char,
    replaced_char, str_eq,
};
use vstd::prelude::*;

verus! {

/// Most rows that a scan of a table returns.
pub const SCAN_LIMIT: usize = 1000;

/// Most rows that a nearest-neighbour search returns.
pub const NEAREST_LIMIT: usize = 30;

/// Partitions that a nearest-neighbour search probes.
pub const NEAREST_PROBES: usize = 40;

/// Factor by which a nearest-neighbour search over-fetches before it ranks exactly.
pub const NEAREST_REFINE_FACTOR: u32 = 10;

/// How the distance between two vectors is measured, in the index over the vectors
/// and in every search that uses it.
pub const LANCEDB_DISTANCE_FN: DistanceType = DistanceType::Cosine;

/// Text that stands for an absent value of a column.
pub const NULL_TEXT: &'static str = "NULL";

/// How the distance between two vectors is measured.
#[derive(Debug, Clone, Copy, PartialEq, Eq, Structural)]
pub enum DistanceType {
    L2,
    Cosine,
    Dot,
}

/// Why a query returned no content.
#[derive(Debug, Clone, Copy, PartialEq, Eq, Structural)]
pub enum QueryError {
    /// There is no query text, or the only one is empty.
    EmptyQuery,
    /// The response to the query's embedding request holds no vector.
    NoEmbedding,
    /// The store could not run a query.
    StoreFailed,
    /// The store failed while it delivered a batch of rows.
    BatchFailed,
    /// The requested column holds neither strings nor 32-bit integers.
    UnsupportedColumnType,
    /// Something was reported that the query was not waiting for.
    UnexpectedEvent,
}

/// A scan of a table: the rows that meet `filter`, reduced to `columns`, at most
/// `limit` of them, in no particular order.
#[derive(Debug, Clone)]
pub struct ScanPlan {
    pub filter: String,
    pub columns: Vec<String>,
    pub limit: usize,
}

/// A nearest-neighbour search: the `limit` rows closest to a query vector that meet
/// `filter`, reduced to `columns`.
#[derive(Debug, Clone)]
pub struct NearestPlan {
    pub distance_type: DistanceType,
    pub refine_factor: u32,
    pub nprobes: usize,
    pub limit: usize,
    /// The filter is applied to the rows that the search found, not before it.
    pub postfilter: bool,
    pub columns: Vec<String>,
    pub filter: String,
}

/// The columns that a scan returns.
pub open spec fn scan_columns() -> Seq<Seq<char>> {
    seq!["id"@, "metadata"@, "content"@]
}

/// The columns that a nearest-neighbour search returns.
pub open spec fn nearest_columns() -> Seq<Seq<char>> {
    seq!["_distance"@, "chunk_number"@, "metadata"@, "content"@]
}

/// `name` as a string literal of a filter: between single quotes, with every single
/// quote inside it doubled, so that the literal ends where the name ends.
pub open spec fn quoted(name: Seq<char>) -> Seq<char> {
    seq!['\''] + replaced_char(name, '\'', seq!['\'', '\'']) + seq!['\'']
}

/// Every name of `names` between single quotes.
pub open spec fn quote_all(names: Seq<Seq<char>>) -> Seq<Seq<char>> {
    Seq::new(names.len(), |i: int| quoted(names[i]))
}

/// The filter that selects the rows whose metadata is one of `names`.
pub open spec fn metadata_filter(names: Seq<Seq<char>>) -> Seq<char> {
    "metadata IN ("@ + join_with(quote_all(names), ", "@) + ")"@
}

/// The names of `files` without the text for an absent value and without repeats, in
/// the order in which they first occur.
pub open spec fn distinct_names(files: Seq<Seq<char>>) -> Seq<Seq<char>>
    decreases files.len(),
{
    if files.len() == 0 {
        Seq::empty()
    } else {
        let before = distinct_names(files.drop_last());
        if files.last() == NULL_TEXT@ || before.contains(files.last()) {
            before
        } else {
            before.push(files.last())
        }
    }
}

/// The three columns of a scan, as owned strings.
fn scan_column_names() -> (columns: Vec<String>)
    ensures
        columns.deep_view() == scan_columns(),
{
    let mut columns: Vec<String> = Vec::new();
    columns.push("id".to_string());
    columns.push("metadata".to_string());
    columns.push("content".to_string());
    assert(columns.deep_view() == scan_columns());
    columns
}

/// The scan that returns the content of a whole table: the rows that have content, with
/// their id, metadata and content, at most 1000 of them.
pub fn query_all_content() -> (plan: ScanPlan)
    ensures
        plan.filter@ == "content IS NOT NULL"@,
        plan.columns.deep_view() == scan_columns(),
        plan.limit == SCAN_LIMIT,
{
    ScanPlan {
        filter: "content IS NOT NULL".to_string(),
        columns: scan_column_names(),
        limit: SCAN_LIMIT,
    }
}

/// The search for the rows nearest to a query vector: by cosine distance, over 40
/// partitions, refined by a factor of 10, the best 30 rows that have content, with their
/// distance, chunk number, metadata and content.
pub fn query_nearest_vector() -> (plan: NearestPlan)
    ensures
        plan.distance_type == LANCEDB_DISTANCE_FN,
        plan.refine_factor == NEAREST_REFINE_FACTOR,
        plan.nprobes == NEAREST_PROBES,
        plan.limit == NEAREST_LIMIT,
        plan.postfilter,
        plan.columns.deep_view() == nearest_columns(),
        plan.filter@ == "content IS NOT NULL"@,
{
    let mut columns: Vec<String> = Vec::new();
    columns.push("_distance".to_string());
    columns.push("chunk_number".to_string());
    columns.push("metadata".to_string());
    columns.push("content".to_string());
    assert(columns.deep_view() == nearest_columns());
    NearestPlan {
        distance_type: LANCEDB_DISTANCE_FN,
        refine_factor: NEAREST_REFINE_FACTOR,
        nprobes: NEAREST_PROBES,
        limit: NEAREST_LIMIT,
        postfilter: true,
        columns,
        filter: "content IS NOT NULL".to_string(),
    }
}

/// The scan that returns every row of the files `metadata`: the rows whose metadata is
/// one of these names, with their id, metadata and content, at most 1000 of them. A
/// name may hold any character.
pub fn query_content_based_on_metadata(metadata: &Vec<String>) -> (plan: ScanPlan)
    ensures
        plan.filter@ == metadata_filter(metadata.deep_view()),
        plan.columns.deep_view() == scan_columns(),
        plan.limit == SCAN_LIMIT,
{
    let mut names: Vec<String> = Vec::new();
    let n = metadata.len();
    let mut i: usize = 0;
    proof {
        reveal_strlit("'");
        reveal_strlit("''");
        assert("'"@ == seq!['\'']);
        assert("''"@ == seq!['\'', '\'']);
    }
    while i < n
        invariant
            i <= n,
            n == metadata.len(),
            names.len() == i,
            "'"@ == seq!['\''],
            "''"@ == seq!['\'', '\''],
            forall|k: int| 0 <= k < i ==> (#[trigger] names[k])@ == quoted(metadata[k]@),
        decreases n - i,
    {
        let mut name = "'".to_string();
        let escaped = replace_char(metadata[i].as_str(), '\'', "''");
        name.append(escaped.as_str());
        name.append("'");
        names.push(name);
        i += 1;
    }
    assert(names.deep_view() == quote_all(metadata.deep_view()));
    let mut filter = "metadata IN (".to_string();
    let list = join_strings(&names, ", ");
    filter.append(list.as_str());
    filter.append(")");
    ScanPlan { filter, columns: scan_column_names(), limit: SCAN_LIMIT }
}

/// The chunk number that a text spells, 0 where it spells none.
pub open spec fn chunk_number_of(text: Seq<char>) -> i32 {
    match parsed_i32(text) {
        Some(number) => number,
        None => 0,
    }
}

/// The chunk numbers that `chunks` spell, in decimal.
pub open spec fn chunk_numbers(chunks: Seq<Seq<char>>) -> Seq<Seq<char>> {
    Seq::new(chunks.len(), |i: int| int_decimal(chunk_number_of(chunks[i]) as int))
}

/// The filter that selects the rows whose chunk number is one of those that `chunks`
/// spell.
pub open spec fn chunk_filter(chunks: Seq<Seq<char>>) -> Seq<char> {
    "chunk_number in ("@ + join_with(chunk_numbers(chunks), ", "@) + ")"@
}

/// The scan that returns the rows of the chunks `chunks`: the rows whose chunk number
/// is one of those spelled, with their id, metadata and content, at most 1000 of them.
/// A text that spells no number counts as 0.
pub fn query_content_based_on_chunks(chunks: &Vec<String>) -> (plan: ScanPlan)
    ensures
        plan.filter@ == chunk_filter(chunks.deep_view()),
        plan.columns.deep_view() == scan_columns(),
        plan.limit == SCAN_LIMIT,
{
    let mut numbers: Vec<String> = Vec::new();
    let n = chunks.len();
    let mut i: usize = 0;
    while i < n
        invariant
            i <= n,
            n == chunks.len(),
            numbers.len() == i,
            forall|k: int|
                0 <= k < i ==> (#[trigger] numbers[k])@ == int_decimal(
                    chunk_number_of(chunks[k]@) as int,
                ),
        decreases n - i,
    {
        let number = match parse_i32(chunks[i].as_str()) {
            Some(number) => number,
            None => 0,
        };
        numbers.push(i32_to_string(number));
        i += 1;
    }
    assert(numbers.deep_view() == chunk_numbers(chunks.deep_view()));
    let mut filter = "chunk_number in (".to_string();
    let list = join_strings(&numbers, ", ");
    filter.append(list.as_str());
    filter.append(")");
    ScanPlan { filter, columns: scan_column_names(), limit: SCAN_LIMIT }
}

/// Whether `list` holds `name`.
pub fn contains_name(list: &Vec<String>, name: &str) -> (res: bool)
    ensures
        res == list.deep_view().contains(name@),
{
    let n = list.len();
    let mut i: usize = 0;
    while i < n
        invariant
            i <= n,
            n == list.len(),
            forall|k: int| 0 <= k < i ==> list.deep_view()[k] != name@,
        decreases n - i,
    {
        if str_eq(list[i].as_str(), name) {
            assert(list.deep_view()[i as int] == name@);
            return true;
        }
        i += 1;
    }
    false
}

/// The file names among the metadata of the rows that a search found: every name once,
/// in the order of its first row, and not the text for an absent value.
pub fn unique_file_names(files: &Vec<String>) -> (names: Vec<String>)
    ensures
        names.deep_view() == distinct_names(files.deep_view()),
{
    let mut names: Vec<String> = Vec::new();
    let n = files.len();
    let mut i: usize = 0;
    assert(files.deep_view().take(0) == Seq::<Seq<char>>::empty());
    assert(names.deep_view() == Seq::<Seq<char>>::empty());
    while i < n
        invariant
            i <= n,
            n == files.len(),
            names.deep_view() == distinct_names(files.deep_view().take(i as int)),
        decreases n - i,
    {
        let ghost seen = files.deep_view().take(i as int);
        let ghost next = files.deep_view().take(i + 1);
        let ghost before = names.deep_view();
        assert(next.drop_last() == seen);
        assert(next.last() == files[i as int]@);
        let file = files[i].as_str();
        if !str_eq(file, NULL_TEXT) && !contains_name(&names, file) {
            names.push(files[i].clone());
            assert(names.deep_view() == before.push(files[i as int]@));
        }
        i += 1;
    }
    assert(files.deep_view().take(n as int) == files.deep_view());
    names
}

/// A name is among the distinct names exactly if it is among the files and is not the
/// text for an absent value.
pub proof fn distinct_names_are_the_named_files(files: Seq<Seq<char>>, name: Seq<char>)
    ensures
        distinct_names(files).contains(name) <==> (files.contains(name) && name != NULL_TEXT@),
    decreases files.len(),
{
    if files.len() > 0 {
        let before = distinct_names(files.drop_last());
        distinct_names_are_the_named_files(files.drop_last(), name);
        if files.contains(name) {
            let i = choose|i: int| 0 <= i < files.len() && files[i] == name;
            if i < files.len() - 1 {
                assert(files.drop_last()[i] == name);
            }
        }
        if files.drop_last().contains(name) {
            let i = choose|i: int| 0 <= i < files.drop_last().len() && files.drop_last()[i] == name;
            assert(files[i] == name);
        }
        if files.last() == NULL_TEXT@ || before.contains(files.last()) {
        } else {
            let after = before.push(files.last());
            assert(after.last() == files.last());
            if before.contains(name) {
                let i = choose|i: int| 0 <= i < before.len() && before[i] == name;
                assert(after[i] == name);
            }
            if after.contains(name) {
                let i = choose|i: int| 0 <= i < after.len() && after[i] == name;
                if i < before.len() {
                    assert(before[i] == name);
                }
            }
        }
        assert(files.last() == files[files.len() - 1]);
    }
}

/// No name occurs twice among the distinct names.
pub proof fn distinct_names_have_no_repeats(files: Seq<Seq<char>>)
    ensures
        distinct_names(files).no_duplicates(),
    decreases files.len(),
{
    if files.len() > 0 {
        distinct_names_have_no_repeats(files.drop_last());
    }
}

/// The values of one column of a batch of rows. A value may be absent.
#[derive(Debug, Clone)]
pub enum ColumnData {
    Utf8(Vec<Option<String>>),
    Int32(Vec<Option<i32>>),
    /// Values of any other type, which are not looked at.
    Other,
}

/// What a `ColumnData` holds, as mathematical values.
pub enum ColumnDataView {
    Utf8(Seq<Option<Seq<char>>>),
    Int32(Seq<Option<i32>>),
    Other,
}

impl View for ColumnData {
    type V = ColumnDataView;

    open spec fn view(&self) -> ColumnDataView {
        match self {
            ColumnData::Utf8(values) => ColumnDataView::Utf8(values.deep_view()),
            ColumnData::Int32(values) => ColumnDataView::Int32(values@),
            ColumnData::Other => ColumnDataView::Other,
        }
    }
}

/// A named column of a batch of rows.
#[derive(Debug, Clone)]
pub struct Column {
    pub name: String,
    pub data: ColumnData,
}

/// What a `Column` holds, as mathematical values.
pub struct ColumnView {
    pub name: Seq<char>,
    pub data: ColumnDataView,
}

impl View for Column {
    type V = ColumnView;

    open spec fn view(&self) -> ColumnView {
        ColumnView { name: self.name@, data: self.data@ }
    }
}

/// A batch of rows that a query returned, held column by column.
#[derive(Debug, Clone)]
pub struct QueryBatch {
    pub columns: Vec<Column>,
}

impl View for QueryBatch {
    type V = Seq<ColumnView>;

    open spec fn view(&self) -> Seq<ColumnView> {
        Seq::new(self.columns.len() as nat, |i: int| self.columns[i]@)
    }
}

/// Every value of `values`, present.
pub open spec fn all_present<T>(values: Seq<T>) -> Seq<Option<T>> {
    Seq::new(values.len(), |i: int| Some(values[i]))
}

/// The columns of a batch of rows of embeddings as a query returns them: the texts
/// and the 32-bit integers with all their values, the other columns unread.
pub open spec fn stored_columns(batch: RecordBatchView) -> Seq<ColumnView> {
    seq![
        ColumnView { name: "id"@, data: ColumnDataView::Int32(all_present(batch.id)) },
        ColumnView { name: "content"@, data: ColumnDataView::Utf8(all_present(batch.content)) },
        ColumnView { name: "metadata"@, data: ColumnDataView::Utf8(all_present(batch.metadata)) },
        ColumnView { name: "vector"@, data: ColumnDataView::Other },
        ColumnView { name: "model"@, data: ColumnDataView::Utf8(all_present(batch.model)) },
        ColumnView { name: "created_at"@, data: ColumnDataView::Other },
        ColumnView {
            name: "chunk_number"@,
            data: ColumnDataView::Int32(all_present(batch.chunk_number)),
        },
    ]
}

/// A column of texts that are all present.
fn present_texts(name: &str, values: &Vec<String>) -> (column: Column)
    ensures
        column@ == (ColumnView {
            name: name@,
            data: ColumnDataView::Utf8(all_present(values.deep_view())),
        }),
{
    let mut out: Vec<Option<String>> = Vec::new();
    let n = values.len();
    let mut i: usize = 0;
    while i < n
        invariant
            i <= n,
            n == values.len(),
            out.len() == i,
            forall|k: int| 0 <= k < i ==> (#[trigger] out[k]).deep_view() == Some(values[k]@),
        decreases n - i,
    {
        out.push(Some(values[i].clone()));
        i += 1;
    }
    assert(out.deep_view() == all_present(values.deep_view()));
    Column { name: name.to_string(), data: ColumnData::Utf8(out) }
}

/// A column of numbers that are all present.
fn present_numbers(name: &str, values: &Vec<i32>) -> (column: Column)
    ensures
        column@ == (ColumnView { name: name@, data: ColumnDataView::Int32(all_present(values@)) }),
{
    let mut out: Vec<Option<i32>> = Vec::new();
    let n = values.len();
    let mut i: usize = 0;
    while i < n
        invariant
            i <= n,
            n == values.len(),
            out.len() == i,
            forall|k: int| 0 <= k < i ==> #[trigger] out[k] == Some(values[k]),
        decreases n - i,
    {
        out.push(Some(values[i]));
        i += 1;
    }
    assert(out@ == all_present(values@));
    Column { name: name.to_string(), data: ColumnData::Int32(out) }
}

impl QueryBatch {
    /// The rows of `batch` as a query that selects every column returns them.
    pub fn from_record_batch(batch: &RecordBatch) -> (res: QueryBatch)
        ensures
            res@ == stored_columns(batch@),
    {
        let mut columns: Vec<Column> = Vec::new();
        columns.push(present_numbers("id", &batch.id));
        columns.push(present_texts("content", &batch.content));
        columns.push(present_texts("metadata", &batch.metadata));
        columns.push(Column { name: "vector".to_string(), data: ColumnData::Other });
        columns.push(present_texts("model", &batch.model));
        columns.push(Column { name: "created_at".to_string(), data: ColumnData::Other });
        columns.push(present_numbers("chunk_number", &batch.chunk_number));
        let res = QueryBatch { columns };
        assert(res@ == stored_columns(batch@));
        res
    }
}

/// What the store said when it failed to deliver a batch.
#[derive(Debug, Clone)]
pub struct StoreFailure {
    pub message: String,
}

/// A text value as it is returned: itself, or the text for an absent value.
pub open spec fn text_or_null(value: Option<Seq<char>>) -> Seq<char> {
    match value {
        Some(text) => text,
        None => NULL_TEXT@,
    }
}

/// A number as it is returned: in decimal, or the text for an absent value.
pub open spec fn number_or_null(value: Option<i32>) -> Seq<char> {
    match value {
        Some(number) => int_decimal(number as int),
        None => NULL_TEXT@,
    }
}

/// The values of a column as strings. Only strings and 32-bit integers can be returned.
pub open spec fn column_strings(data: ColumnDataView) -> Result<Seq<Seq<char>>, QueryError> {
    match data {
        ColumnDataView::Utf8(values) => Ok(
            Seq::new(values.len(), |i: int| text_or_null(values[i])),
        ),
        ColumnDataView::Int32(values) => Ok(
            Seq::new(values.len(), |i: int| number_or_null(values[i])),
        ),
        ColumnDataView::Other => Err(QueryError::UnsupportedColumnType),
    }
}

/// The values of the first column called `name` at or after position `from`, as
/// strings; no values where there is no such column.
pub open spec fn column_data_from(batch: Seq<ColumnView>, name: Seq<char>, from: int) -> Result<
    Seq<Seq<char>>,
    QueryError,
>
    decreases batch.len() - from,
{
    if from < 0 || from >= batch.len() {
        Ok(Seq::empty())
    } else if batch[from].name == name {
        column_strings(batch[from].data)
    } else {
        column_data_from(batch, name, from + 1)
    }
}

/// The values of the first column called `name`, as strings.
pub open spec fn column_data(batch: Seq<ColumnView>, name: Seq<char>) -> Result<
    Seq<Seq<char>>,
    QueryError,
> {
    column_data_from(batch, name, 0)
}

/// The values of the column `name` in the first `upto` batches, batch after batch. A
/// batch that the store failed to deliver, or whose column cannot be returned, decides
/// the error; the first such batch counts.
pub open spec fn content_upto(
    batches: Seq<Result<QueryBatch, StoreFailure>>,
    name: Seq<char>,
    upto: int,
) -> Result<Seq<Seq<char>>, QueryError>
    decreases upto,
{
    if upto <= 0 {
        Ok(Seq::empty())
    } else {
        match content_upto(batches, name, upto - 1) {
            Err(e) => Err(e),
            Ok(before) => match batches[upto - 1] {
                Err(_) => Err(QueryError::BatchFailed),
                Ok(batch) => match column_data(batch@, name) {
                    Err(e) => Err(e),
                    Ok(values) => Ok(before + values),
                },
            },
        }
    }
}

/// The values of the column `name` in all the batches that a query returned, in the
/// order of the batches. There are none where no batch has the column.
pub open spec fn content_of(
    batches: Seq<Result<QueryBatch, StoreFailure>>,
    name: Seq<char>,
) -> Result<Seq<Seq<char>>, QueryError> {
    content_upto(batches, name, batches.len() as int)
}

/// At most the first `limit` of `values`.
pub open spec fn capped(values: Seq<Seq<char>>, limit: nat) -> Seq<Seq<char>> {
    if values.len() <= limit {
        values
    } else {
        values.take(limit as int)
    }
}

/// A result whose values are cut down to `limit`.
pub open spec fn capped_result(res: Result<Seq<Seq<char>>, QueryError>, limit: nat) -> Result<
    Seq<Seq<char>>,
    QueryError,
> {
    match res {
        Ok(values) => Ok(capped(values, limit)),
        Err(e) => Err(e),
    }
}

/// The content of the first `upto` rows whose metadata is one of `names`.
pub open spec fn rows_of_files(
    metadata: Seq<Seq<char>>,
    content: Seq<Seq<char>>,
    names: Seq<Seq<char>>,
    upto: int,
) -> Seq<Seq<char>>
    decreases upto,
{
    if upto <= 0 {
        Seq::empty()
    } else if names.contains(metadata[upto - 1]) {
        rows_of_files(metadata, content, names, upto - 1).push(content[upto - 1])
    } else {
        rows_of_files(metadata, content, names, upto - 1)
    }
}

/// The smaller of two lengths.
pub open spec fn shorter(a: nat, b: nat) -> int {
    if a <= b {
        a as int
    } else {
        b as int
    }
}

/// The content of the rows of a batch whose metadata is one of `names`.
pub open spec fn file_rows(batch: Seq<ColumnView>, names: Seq<Seq<char>>) -> Result<
    Seq<Seq<char>>,
    QueryError,
> {
    match column_data(batch, "metadata"@) {
        Err(e) => Err(e),
        Ok(metadata) => match column_data(batch, "content"@) {
            Err(e) => Err(e),
            Ok(content) => Ok(
                rows_of_files(metadata, content, names, shorter(metadata.len(), content.len())),
            ),
        },
    }
}

/// The content of the rows of the first `upto` batches whose metadata is one of
/// `names`, batch after batch. The first batch that was not delivered, or whose columns
/// cannot be returned, decides the error.
pub open spec fn file_content_upto(
    batches: Seq<Result<QueryBatch, StoreFailure>>,
    names: Seq<Seq<char>>,
    upto: int,
) -> Result<Seq<Seq<char>>, QueryError>
    decreases upto,
{
    if upto <= 0 {
        Ok(Seq::empty())
    } else {
        match file_content_upto(batches, names, upto - 1) {
            Err(e) => Err(e),
            Ok(before) => match batches[upto - 1] {
                Err(_) => Err(QueryError::BatchFailed),
                Ok(batch) => match file_rows(batch@, names) {
                    Err(e) => Err(e),
                    Ok(rows) => Ok(before + rows),
                },
            },
        }
    }
}


/// The strings of a result, or its error.
pub open spec fn strings_result_view(res: Result<Vec<String>, QueryError>) -> Result<
    Seq<Seq<char>>,
    QueryError,
> {
    match res {
        Ok(values) => Ok(values.deep_view()),
        Err(e) => Err(e),
    }
}

/// The strings of a column of texts.
fn text_column_strings(values: &Vec<Option<String>>) -> (res: Vec<String>)
    ensures
        res.deep_view() == Seq::new(
            values.len() as nat,
            |i: int| text_or_null(values.deep_view()[i]),
        ),
{
    let mut out: Vec<String> = Vec::new();
    let n = values.len();
    let mut i: usize = 0;
    while i < n
        invariant
            i <= n,
            n == values.len(),
            out.len() == i,
            forall|k: int|
                0 <= k < i ==> (#[trigger] out[k])@ == text_or_null(values.deep_view()[k]),
        decreases n - i,
    {
        assert(values.deep_view()[i as int] == values[i as int].deep_view());
        match &values[i] {
            Some(text) => out.push(text.clone()),
            None => out.push(NULL_TEXT.to_string()),
        }
        i += 1;
    }
    assert(out.deep_view() == Seq::new(
        values.len() as nat,
        |i: int| text_or_null(values.deep_view()[i]),
    ));
    out
}

/// The strings of a column of numbers.
fn number_column_strings(values: &Vec<Option<i32>>) -> (res: Vec<String>)
    ensures
        res.deep_view() == Seq::new(values.len() as nat, |i: int| number_or_null(values@[i])),
{
    let mut out: Vec<String> = Vec::new();
    let n = values.len();
    let mut i: usize = 0;
    while i < n
        invariant
            i <= n,
            n == values.len(),
            out.len() == i,
            forall|k: int| 0 <= k < i ==> (#[trigger] out[k])@ == number_or_null(values@[k]),
        decreases n - i,
    {
        match values[i] {
            Some(number) => out.push(i32_to_string(number)),
            None => out.push(NULL_TEXT.to_string()),
        }
        i += 1;
    }
    assert(out.deep_view() == Seq::new(
        values.len() as nat,
        |i: int| number_or_null(values@[i]),
    ));
    out
}

/// The values of the column `table_column` of a batch, as strings: texts as they are,
/// numbers in decimal, absent values as `NULL`. A batch without such a column yields no
/// values; a column of another type is an error.
pub fn get_column_data_from_batch(table_column: &str, batch_ref: &QueryBatch) -> (res: Result<
    Vec<String>,
    QueryError,
>)
    ensures
        strings_result_view(res) == column_data(batch_ref@, table_column@),
{
    let n = batch_ref.columns.len();
    let mut i: usize = 0;
    while i < n
        invariant
            i <= n,
            n == batch_ref.columns.len(),
            column_data(batch_ref@, table_column@) == column_data_from(
                batch_ref@,
                table_column@,
                i as int,
            ),
        decreases n - i,
    {
        let column = &batch_ref.columns[i];
        assert(batch_ref@[i as int] == column@);
        if str_eq(column.name.as_str(), table_column) {
            return match &column.data {
                ColumnData::Utf8(values) => Ok(text_column_strings(values)),
                ColumnData::Int32(values) => Ok(number_column_strings(values)),
                ColumnData::Other => Err(QueryError::UnsupportedColumnType),
            };
        }
        i += 1;
    }
    let none: Vec<String> = Vec::new();
    assert(none.deep_view() == Seq::<Seq<char>>::empty());
    Ok(none)
}

/// Once the first batches fail, all batches fail in the same way.
proof fn lemma_content_error_stays(
    batches: Seq<Result<QueryBatch, StoreFailure>>,
    name: Seq<char>,
    failed: int,
    upto: int,
)
    requires
        0 <= failed <= upto,
        content_upto(batches, name, failed) is Err,
    ensures
        content_upto(batches, name, upto) == content_upto(batches, name, failed),
    decreases upto - failed,
{
    if failed < upto {
        lemma_content_error_stays(batches, name, failed, upto - 1);
    }
}

/// Once the first batches fail, all batches fail in the same way.
proof fn lemma_file_content_error_stays(
    batches: Seq<Result<QueryBatch, StoreFailure>>,
    names: Seq<Seq<char>>,
    failed: int,
    upto: int,
)
    requires
        0 <= failed <= upto,
        file_content_upto(batches, names, failed) is Err,
    ensures
        file_content_upto(batches, names, upto) == file_content_upto(batches, names, failed),
    decreases upto - failed,
{
    if failed < upto {
        lemma_file_content_error_stays(batches, names, failed, upto - 1);
    }
}

/// Appends copies of `more` to `out`.
fn append_strings(out: &mut Vec<String>, more: &Vec<String>)
    ensures
        final(out).deep_view() == old(out).deep_view() + more.deep_view(),
{
    let n = more.len();
    let mut i: usize = 0;
    assert(more.deep_view().take(0) == Seq::<Seq<char>>::empty());
    assert(out.deep_view() == old(out).deep_view() + more.deep_view().take(0));
    while i < n
        invariant
            i <= n,
            n == more.len(),
            out.deep_view() == old(out).deep_view() + more.deep_view().take(i as int),
        decreases n - i,
    {
        let ghost before = out.deep_view();
        out.push(more[i].clone());
        assert(out.deep_view() == before.push(more[i as int]@));
        assert(more.deep_view().take(i + 1) == more.deep_view().take(i as int).push(
            more[i as int]@,
        ));
        i += 1;
    }
    assert(more.deep_view().take(n as int) == more.deep_view());
}

/// The values of the column `table_column` in all the batches that a query returned,
/// in the order of the batches. No values where no batch has the column.
pub fn get_content_from_stream(
    batches: &Vec<Result<QueryBatch, StoreFailure>>,
    table_column: &str,
) -> (res: Result<Vec<String>, QueryError>)
    ensures
        strings_result_view(res) == content_of(batches@, table_column@),
{
    let mut out: Vec<String> = Vec::new();
    let n = batches.len();
    let mut i: usize = 0;
    assert(out.deep_view() == Seq::<Seq<char>>::empty());
    while i < n
        invariant
            i <= n,
            n == batches.len(),
            content_upto(batches@, table_column@, i as int) == Ok::<Seq<Seq<char>>, QueryError>(
                out.deep_view(),
            ),
        decreases n - i,
    {
        match &batches[i] {
            Err(_) => {
                proof {
                    lemma_content_error_stays(batches@, table_column@, i + 1, n as int);
                }
                return Err(QueryError::BatchFailed);
            },
            Ok(batch_ref) => {
                match get_column_data_from_batch(table_column, batch_ref) {
                    Err(e) => {
                        proof {
                            lemma_content_error_stays(batches@, table_column@, i + 1, n as int);
                        }
                        return Err(e);
                    },
                    Ok(values) => {
                        append_strings(&mut out, &values);
                    },
                }
            },
        }
        i += 1;
    }
    Ok(out)
}

/// The content of the rows whose metadata is one of `names`, among the rows that
/// `metadata` and `content` describe side by side.
fn select_file_rows(metadata: &Vec<String>, content: &Vec<String>, names: &Vec<String>) -> (rows:
    Vec<String>)
    ensures
        rows.deep_view() == rows_of_files(
            metadata.deep_view(),
            content.deep_view(),
            names.deep_view(),
            shorter(metadata.len() as nat, content.len() as nat),
        ),
{
    let n = if metadata.len() <= content.len() {
        metadata.len()
    } else {
        content.len()
    };
    let mut rows: Vec<String> = Vec::new();
    let mut i: usize = 0;
    assert(rows.deep_view() == Seq::<Seq<char>>::empty());
    while i < n
        invariant
            i <= n,
            n <= metadata.len(),
            n <= content.len(),
            rows.deep_view() == rows_of_files(
                metadata.deep_view(),
                content.deep_view(),
                names.deep_view(),
                i as int,
            ),
        decreases n - i,
    {
        let ghost before = rows.deep_view();
        assert(metadata.deep_view()[i as int] == metadata[i as int]@);
        assert(content.deep_view()[i as int] == content[i as int]@);
        if contains_name(names, metadata[i].as_str()) {
            rows.push(content[i].clone());
            assert(rows.deep_view() == before.push(content[i as int]@));
        }
        i += 1;
    }
    rows
}

/// The content of the rows of the files `names` in all the batches that a scan
/// returned, in the order of the batches. A row of another file is left out, whatever
/// the store delivered.
pub fn get_file_content_from_stream(
    batches: &Vec<Result<QueryBatch, StoreFailure>>,
    names: &Vec<String>,
) -> (res: Result<Vec<String>, QueryError>)
    ensures
        strings_result_view(res) == file_content_upto(
            batches@,
            names.deep_view(),
            batches.len() as int,
        ),
{
    let mut out: Vec<String> = Vec::new();
    let n = batches.len();
    let mut i: usize = 0;
    assert(out.deep_view() == Seq::<Seq<char>>::empty());
    while i < n
        invariant
            i <= n,
            n == batches.len(),
            file_content_upto(batches@, names.deep_view(), i as int) == Ok::<
                Seq<Seq<char>>,
                QueryError,
            >(out.deep_view()),
        decreases n - i,
    {
        match &batches[i] {
            Err(_) => {
                proof {
                    lemma_file_content_error_stays(batches@, names.deep_view(), i + 1, n as int);
                }
                return Err(QueryError::BatchFailed);
            },
            Ok(batch_ref) => {
                let metadata = match get_column_data_from_batch("metadata", batch_ref) {
                    Ok(values) => values,
                    Err(e) => {
                        proof {
                            lemma_file_content_error_stays(
                                batches@,
                                names.deep_view(),
                                i + 1,
                                n as int,
                            );
                        }
                        return Err(e);
                    },
                };
                let content = match get_column_data_from_batch("content", batch_ref) {
                    Ok(values) => values,
                    Err(e) => {
                        proof {
                            lemma_file_content_error_stays(
                                batches@,
                                names.deep_view(),
                                i + 1,
                                n as int,
                            );
                        }
                        return Err(e);
                    },
                };
                let rows = select_file_rows(&metadata, &content, names);
                append_strings(&mut out, &rows);
            },
        }
        i += 1;
    }
    Ok(out)
}

/// Cuts what a query returns down to `limit` values.
pub fn cap_content(res: Result<Vec<String>, QueryError>, limit: usize) -> (capped_res: Result<
    Vec<String>,
    QueryError,
>)
    ensures
        strings_result_view(capped_res) == capped_result(strings_result_view(res), limit as nat),
{
    match res {
        Err(e) => Err(e),
        Ok(mut values) => {
            if values.len() > limit {
                let ghost before = values.deep_view();
                values.truncate(limit);
                assert(values.deep_view() == before.take(limit as int));
            }
            Ok(values)
        },
    }
}


/// There is nothing to search for: no query text, or a single empty one.
pub open spec fn is_empty_query(input_list: Seq<Seq<char>>) -> bool {
    input_list.len() == 0 || (input_list.len() == 1 && input_list[0].len() == 0)
}

/// The request that embeds the texts of a query. Its metadata is empty and it has no
/// chunk number.
pub open spec fn query_request_view(
    provider: Seq<char>,
    api_url: Seq<char>,
    api_key: Seq<char>,
    embed_model: Seq<char>,
    input_list: Seq<Seq<char>>,
) -> EmbedRequestView {
    EmbedRequestView {
        provider,
        api_url,
        api_key,
        model: embed_model,
        input: input_list,
        metadata: Some(Seq::empty()),
        chunk_number: None,
    }
}

/// Opens a query: checks that there is something to search for and builds the request
/// for its embedding. An empty query is refused here, before anything is sent.
pub fn run_query(
    provider: &str,
    api_url: &str,
    api_key: &str,
    embed_model: &str,
    input_list: &Vec<String>,
) -> (res: Result<EmbedRequest, QueryError>)
    ensures
        is_empty_query(input_list.deep_view()) ==> (res matches Err(e) && e
            == QueryError::EmptyQuery),
        !is_empty_query(input_list.deep_view()) ==> (res matches Ok(request) && request@
            == query_request_view(
            provider@,
            api_url@,
            api_key@,
            embed_model@,
            input_list.deep_view(),
        )),
{
    if input_list.len() == 0 {
        return Err(QueryError::EmptyQuery);
    }
    assert(input_list.deep_view()[0] == input_list[0]@);
    if input_list.len() == 1 && input_list[0].as_str().is_empty() {
        return Err(QueryError::EmptyQuery);
    }
    proof {
        reveal_strlit("");
        assert(""@ == Seq::<char>::empty());
    }
    Ok(
        EmbedRequest::NewArcEmbedRequest(
            provider,
            api_url,
            api_key,
            embed_model,
            input_list,
            "",
            None,
        ),
    )
}

/// The vector to search with: the first embedding of the response.
pub fn query_vector(response: &EmbedResponse) -> (res: Result<Vec<u32>, QueryError>)
    ensures
        response@.embeddings.len() == 0 ==> (res matches Err(e) && e == QueryError::NoEmbedding),
        response@.embeddings.len() > 0 ==> (res matches Ok(vector) && vector@
            == response@.embeddings[0]),
{
    if response.embeddings.len() == 0 {
        return Err(QueryError::NoEmbedding);
    }
    assert(response.embeddings.deep_view()[0] == response.embeddings[0]@) by {
        assert(response.embeddings[0].deep_view() == response.embeddings[0]@);
    }
    Ok(response.embeddings[0].clone())
}

/// Where a query of a table stands.
#[derive(Debug, Clone)]
pub enum QueryState {
    /// Nothing has been asked of the store yet.
    Start,
    /// The scan of the whole table is under way.
    AwaitingScan,
    /// The nearest-neighbour search is under way.
    AwaitingHits,
    /// The scan for the rows of these files, which were hit, is under way.
    AwaitingFileContent(Vec<String>),
    /// The query has returned.
    Finished,
}

/// What happened since the last step of a query.
#[derive(Debug)]
pub enum QueryEvent {
    /// The table is open.
    Begin,
    /// The store delivered the batches of the query that was under way.
    Batches(Vec<Result<QueryBatch, StoreFailure>>),
    /// The store could not run the query that was under way.
    StoreFailed,
}

/// What a query asks for next.
#[derive(Debug)]
pub enum QueryAction {
    /// Run this scan and report its batches.
    Scan(ScanPlan),
    /// Run this search with the query vector and report its batches.
    Nearest(NearestPlan),
    /// Return this to the caller.
    Finish(Result<Vec<String>, QueryError>),
}

/// `plan` is the scan of a whole table.
pub open spec fn is_all_content_plan(plan: ScanPlan) -> bool {
    &&& plan.filter@ == "content IS NOT NULL"@
    &&& plan.columns.deep_view() == scan_columns()
    &&& plan.limit == SCAN_LIMIT
}

/// `plan` is the nearest-neighbour search.
pub open spec fn is_nearest_plan(plan: NearestPlan) -> bool {
    &&& plan.distance_type == LANCEDB_DISTANCE_FN
    &&& plan.refine_factor == NEAREST_REFINE_FACTOR
    &&& plan.nprobes == NEAREST_PROBES
    &&& plan.limit == NEAREST_LIMIT
    &&& plan.postfilter
    &&& plan.columns.deep_view() == nearest_columns()
    &&& plan.filter@ == "content IS NOT NULL"@
}

/// `plan` is the scan for all rows of the files `names`.
pub open spec fn is_file_plan(plan: ScanPlan, names: Seq<Seq<char>>) -> bool {
    &&& plan.filter@ == metadata_filter(names)
    &&& plan.columns.deep_view() == scan_columns()
    &&& plan.limit == SCAN_LIMIT
}

/// `action` returns `result` to the caller.
pub open spec fn finishes_with(
    action: QueryAction,
    result: Result<Seq<Seq<char>>, QueryError>,
) -> bool {
    match action {
        QueryAction::Finish(res) => strings_result_view(res) == result,
        _ => false,
    }
}

/// What a step of a query of a table must do in `state` when `event` is reported.
///
/// A query starts with the scan of the whole table or with the nearest-neighbour
/// search. The batches of the scan give the content that is returned, and so do the
/// batches of the search, in each case no more than the limit of the plan. Where whole
/// files are wanted, the files named in the metadata of the hits are scanned instead,
/// and of the batches of that scan the content of the rows of these files is returned,
/// again no more than the limit.
pub open spec fn query_step_ok(
    state: QueryState,
    whole_query: bool,
    file_context: bool,
    event: QueryEvent,
    next: QueryState,
    action: QueryAction,
) -> bool {
    match (state, event) {
        (QueryState::Start, QueryEvent::Begin) => if whole_query {
            next is AwaitingScan && (action matches QueryAction::Scan(plan)
                && is_all_content_plan(plan))
        } else {
            next is AwaitingHits && (action matches QueryAction::Nearest(plan) && is_nearest_plan(
                plan,
            ))
        },
        (QueryState::AwaitingScan, QueryEvent::Batches(batches)) => next is Finished
            && finishes_with(
            action,
            capped_result(content_of(batches@, "content"@), SCAN_LIMIT as nat),
        ),
        (QueryState::AwaitingFileContent(names), QueryEvent::Batches(batches)) => next is Finished
            && finishes_with(
            action,
            capped_result(
                file_content_upto(batches@, names.deep_view(), batches.len() as int),
                SCAN_LIMIT as nat,
            ),
        ),
        (QueryState::AwaitingHits, QueryEvent::Batches(batches)) => if file_context {
            match content_of(batches@, "metadata"@) {
                Ok(files) => (next matches QueryState::AwaitingFileContent(names)
                    && names.deep_view() == distinct_names(files)) && (
                action matches QueryAction::Scan(plan) && is_file_plan(
                    plan,
                    distinct_names(files),
                )),
                Err(e) => next is Finished && finishes_with(action, Err(e)),
            }
        } else {
            next is Finished && finishes_with(
                action,
                capped_result(content_of(batches@, "content"@), NEAREST_LIMIT as nat),
            )
        },
        (QueryState::AwaitingScan, QueryEvent::StoreFailed)
        | (QueryState::AwaitingHits, QueryEvent::StoreFailed)
        | (QueryState::AwaitingFileContent(_), QueryEvent::StoreFailed) => next is Finished
            && finishes_with(action, Err(QueryError::StoreFailed)),
        _ => next is Finished && finishes_with(action, Err(QueryError::UnexpectedEvent)),
    }
}

/// A nearest-neighbour search that is not expanded to whole files returns at most as
/// many strings as the limit of the search, whatever the store delivers.
pub proof fn nearest_query_returns_at_most_limit(
    batches: Vec<Result<QueryBatch, StoreFailure>>,
    next: QueryState,
    action: QueryAction,
)
    requires
        query_step_ok(
            QueryState::AwaitingHits,
            false,
            false,
            QueryEvent::Batches(batches),
            next,
            action,
        ),
    ensures
        action matches QueryAction::Finish(Ok(content)) ==> content.len() <= NEAREST_LIMIT,
{
    if let QueryAction::Finish(Ok(content)) = action {
        let all = content_of(batches@, "content"@);
        assert(capped_result(all, NEAREST_LIMIT as nat) == Ok::<Seq<Seq<char>>, QueryError>(
            content.deep_view(),
        ));
        assert(capped(all->Ok_0, NEAREST_LIMIT as nat).len() <= NEAREST_LIMIT);
        assert(content.deep_view().len() == content.len());
    }
}

/// The expansion to whole files asks for the files of the hits and for no others: every
/// name in the filter of the scan that follows the search, and every name that the
/// query holds while that scan is under way, is the metadata of a hit.
pub proof fn file_context_introduces_no_new_files(
    batches: Vec<Result<QueryBatch, StoreFailure>>,
    next: QueryState,
    action: QueryAction,
    files: Seq<Seq<char>>,
    name: Seq<char>,
)
    requires
        query_step_ok(
            QueryState::AwaitingHits,
            false,
            true,
            QueryEvent::Batches(batches),
            next,
            action,
        ),
        content_of(batches@, "metadata"@) == Ok::<Seq<Seq<char>>, QueryError>(files),
        distinct_names(files).contains(name),
    ensures
        action matches QueryAction::Scan(plan) && plan.filter@ == metadata_filter(
            distinct_names(files),
        ),
        next matches QueryState::AwaitingFileContent(names) && names.deep_view()
            == distinct_names(files),
        files.contains(name),
{
    distinct_names_are_the_named_files(files, name);
}

/// Every value among the content of the rows of the files `names` is the content of a
/// row whose metadata is one of `names`.
pub proof fn file_rows_belong_to_the_files(
    metadata: Seq<Seq<char>>,
    content: Seq<Seq<char>>,
    names: Seq<Seq<char>>,
    upto: int,
    k: int,
)
    requires
        0 <= upto <= metadata.len(),
        upto <= content.len(),
        0 <= k < rows_of_files(metadata, content, names, upto).len(),
    ensures
        exists|i: int|
            0 <= i < upto && names.contains(#[trigger] metadata[i]) && content[i]
                == rows_of_files(metadata, content, names, upto)[k],
    decreases upto,
{
    if upto > 0 {
        let before = rows_of_files(metadata, content, names, upto - 1);
        if names.contains(metadata[upto - 1]) && k == before.len() {
            assert(before.push(content[upto - 1])[k] == content[upto - 1]);
        } else {
            file_rows_belong_to_the_files(metadata, content, names, upto - 1, k);
        }
    }
}

/// Row `i` of `batch` belongs to one of the files `names` and has the content `value`.
pub open spec fn is_file_row(
    batch: Seq<ColumnView>,
    names: Seq<Seq<char>>,
    i: int,
    value: Seq<char>,
) -> bool {
    match (column_data(batch, "metadata"@), column_data(batch, "content"@)) {
        (Ok(metadata), Ok(content)) => 0 <= i < metadata.len() && i < content.len()
            && names.contains(metadata[i]) && content[i] == value,
        _ => false,
    }
}

/// Every string that is returned of the scan of the files `names` is the content of a
/// delivered row whose metadata is one of `names`: no row of another file comes back,
/// whatever the store delivered.
pub proof fn file_content_belongs_to_the_files(
    batches: Seq<Result<QueryBatch, StoreFailure>>,
    names: Seq<Seq<char>>,
    upto: int,
    k: int,
)
    requires
        0 <= upto <= batches.len(),
        file_content_upto(batches, names, upto) is Ok,
        0 <= k < file_content_upto(batches, names, upto)->Ok_0.len(),
    ensures
        exists|b: int, i: int|
            0 <= b < upto && batches[b] is Ok && #[trigger] is_file_row(
                batches[b]->Ok_0@,
                names,
                i,
                file_content_upto(batches, names, upto)->Ok_0[k],
            ),
    decreases upto,
{
    if upto > 0 {
        let before = file_content_upto(batches, names, upto - 1)->Ok_0;
        let batch = batches[upto - 1]->Ok_0@;
        let rows = file_rows(batch, names)->Ok_0;
        let value = file_content_upto(batches, names, upto)->Ok_0[k];
        assert(file_content_upto(batches, names, upto)->Ok_0 == before + rows);
        if k < before.len() {
            assert(before[k] == value);
            file_content_belongs_to_the_files(batches, names, upto - 1, k);
            let (b, i) = choose|b: int, i: int|
                0 <= b < upto - 1 && batches[b] is Ok && #[trigger] is_file_row(
                    batches[b]->Ok_0@,
                    names,
                    i,
                    before[k],
                );
            assert(is_file_row(batches[b]->Ok_0@, names, i, value));
        } else {
            let metadata = column_data(batch, "metadata"@)->Ok_0;
            let content = column_data(batch, "content"@)->Ok_0;
            let rows_upto = shorter(metadata.len(), content.len());
            assert(rows[k - before.len()] == value);
            file_rows_belong_to_the_files(metadata, content, names, rows_upto, k - before.len());
            let i = choose|i: int|
                0 <= i < rows_upto && names.contains(#[trigger] metadata[i]) && content[i]
                    == rows_of_files(metadata, content, names, rows_upto)[k - before.len()];
            assert(is_file_row(batches[upto - 1]->Ok_0@, names, i, value));
        }
    }
}

/// What is returned of the scan of the files of the hits holds at most as many
/// strings as the limit of the scan.
pub proof fn file_query_returns_at_most_limit(
    names: Vec<String>,
    batches: Vec<Result<QueryBatch, StoreFailure>>,
    whole_query: bool,
    file_context: bool,
    next: QueryState,
    action: QueryAction,
)
    requires
        query_step_ok(
            QueryState::AwaitingFileContent(names),
            whole_query,
            file_context,
            QueryEvent::Batches(batches),
            next,
            action,
        ),
    ensures
        action matches QueryAction::Finish(Ok(content)) ==> content.len() <= SCAN_LIMIT,
{
    if let QueryAction::Finish(Ok(content)) = action {
        let all = file_content_upto(batches@, names.deep_view(), batches.len() as int);
        assert(capped_result(all, SCAN_LIMIT as nat) == Ok::<Seq<Seq<char>>, QueryError>(
            content.deep_view(),
        ));
        assert(capped(all->Ok_0, SCAN_LIMIT as nat).len() <= SCAN_LIMIT);
        assert(content.deep_view().len() == content.len());
    }
}

/// One step of a query of a table: from where the query stands and what was reported
/// to where it stands then and what it asks for next.
pub fn query_vector_table(
    state: QueryState,
    whole_query: bool,
    file_context: bool,
    event: QueryEvent,
) -> (res: (QueryState, QueryAction))
    ensures
        query_step_ok(state, whole_query, file_context, event, res.0, res.1),
{
    match (state, event) {
        (QueryState::Start, QueryEvent::Begin) => {
            if whole_query {
                (QueryState::AwaitingScan, QueryAction::Scan(query_all_content()))
            } else {
                (QueryState::AwaitingHits, QueryAction::Nearest(query_nearest_vector()))
            }
        },
        (QueryState::AwaitingScan, QueryEvent::Batches(batches)) => {
            let content = cap_content(get_content_from_stream(&batches, "content"), SCAN_LIMIT);
            (QueryState::Finished, QueryAction::Finish(content))
        },
        (QueryState::AwaitingFileContent(names), QueryEvent::Batches(batches)) => {
            let content = cap_content(get_file_content_from_stream(&batches, &names), SCAN_LIMIT);
            (QueryState::Finished, QueryAction::Finish(content))
        },
        (QueryState::AwaitingHits, QueryEvent::Batches(batches)) => {
            if file_context {
                match get_content_from_stream(&batches, "metadata") {
                    Ok(files) => {
                        let files_unique = unique_file_names(&files);
                        let plan = query_content_based_on_metadata(&files_unique);
                        (QueryState::AwaitingFileContent(files_unique), QueryAction::Scan(plan))
                    },
                    Err(e) => (QueryState::Finished, QueryAction::Finish(Err(e))),
                }
            } else {
                let content = cap_content(
                    get_content_from_stream(&batches, "content"),
                    NEAREST_LIMIT,
                );
                (QueryState::Finished, QueryAction::Finish(content))
            }
        },
        (QueryState::AwaitingScan, QueryEvent::StoreFailed) => {
            (QueryState::Finished, QueryAction::Finish(Err(QueryError::StoreFailed)))
        },
        (QueryState::AwaitingHits, QueryEvent::StoreFailed) => {
            (QueryState::Finished, QueryAction::Finish(Err(QueryError::StoreFailed)))
        },
        (QueryState::AwaitingFileContent(_), QueryEvent::StoreFailed) => {
            (QueryState::Finished, QueryAction::Finish(Err(QueryError::StoreFailed)))
        },
        _ => (QueryState::Finished, QueryAction::Finish(Err(QueryError::UnexpectedEvent))),
    }
}

} // verus!
