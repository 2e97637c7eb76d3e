use crate::clock::current_timestamp;
use crate::embedder::{EmbedRequest, EmbedRequestView, EmbedResponse, EmbedResponseView};
use vstd::prelude::*;

verus! {

/// Number of entries of every stored vector.
pub const VECTOR_DB_DIM_SIZE: i32 = 768;

/// Number of rows of the placeholder batch.
pub const EMPTY_BATCH_ROWS: usize = 256;

/// The single-precision encoding of the number one.
pub const ONE_BITS: u32 = 0x3F80_0000;

/// Metadata of a row whose request carries none.
pub const EMPTY_METADATA: &'static str = "Empty";

/// The type of the values of a column.
#[derive(Debug, Clone, Copy, PartialEq, Eq, Structural)]
pub enum DataType {
    Int32,
    Utf8,
    /// Seconds since the Unix epoch, without a time zone.
    TimestampSecond,
    /// Lists of exactly `length` single-precision numbers, each of which may be absent.
    FixedSizeFloat32List { length: i32 },
}

/// A column of a table: its name, the type of its values and whether a value may be
/// absent.
#[derive(Debug, Clone)]
pub struct Field {
    name: String,
    data_type: DataType,
    nullable: bool,
}

/// What a `Field` holds, as mathematical values.
pub struct FieldView {
    pub name: Seq<char>,
    pub data_type: DataType,
    pub nullable: bool,
}

impl View for Field {
    type V = FieldView;

    closed spec fn view(&self) -> FieldView {
        FieldView { name: self.name@, data_type: self.data_type, nullable: self.nullable }
    }
}

impl Field {
    /// A column made of its parts.
    pub fn new(name: &str, data_type: DataType, nullable: bool) -> (field: Field)
        ensures
            field@ == (FieldView { name: name@, data_type, nullable }),
    {
        Field { name: name.to_string(), data_type, nullable }
    }

    /// The column's name.
    pub fn name(&self) -> (name: &String)
        ensures
            name@ == self@.name,
    {
        &self.name
    }

    /// The type of the column's values.
    pub fn data_type(&self) -> (data_type: DataType)
        ensures
            data_type == self@.data_type,
    {
        self.data_type
    }

    /// Whether a value of the column may be absent.
    pub fn is_nullable(&self) -> (nullable: bool)
        ensures
            nullable == self@.nullable,
    {
        self.nullable
    }

    /// A copy of the column.
    pub fn duplicate(&self) -> (field: Field)
        ensures
            field@ == self@,
    {
        Field { name: self.name.clone(), data_type: self.data_type, nullable: self.nullable }
    }
}

/// The columns of a table of embeddings, and the table's name.
#[derive(Debug, Clone)]
pub struct TableSchema {
    pub name: String,
    pub id: Field,
    pub content: Field,
    pub metadata: Field,
    pub model: Field,
    pub vector: Field,
    pub created_at: Field,
    pub chunk_number: Field,
}

/// The column layout of every table of embeddings, in the order of the columns.
pub open spec fn table_columns() -> Seq<FieldView> {
    seq![
        FieldView { name: "id"@, data_type: DataType::Int32, nullable: false },
        FieldView { name: "content"@, data_type: DataType::Utf8, nullable: false },
        FieldView { name: "metadata"@, data_type: DataType::Utf8, nullable: false },
        FieldView {
            name: "vector"@,
            data_type: DataType::FixedSizeFloat32List { length: VECTOR_DB_DIM_SIZE },
            nullable: true,
        },
        FieldView { name: "model"@, data_type: DataType::Utf8, nullable: false },
        FieldView { name: "created_at"@, data_type: DataType::TimestampSecond, nullable: false },
        FieldView { name: "chunk_number"@, data_type: DataType::Int32, nullable: true },
    ]
}

/// The views of a list of columns.
pub open spec fn field_views(fields: Seq<Field>) -> Seq<FieldView> {
    Seq::new(fields.len(), |i: int| fields[i]@)
}

/// What a `TableSchema` holds, as mathematical values: the table's name and its
/// columns in the order in which the table holds them.
pub struct TableSchemaView {
    pub name: Seq<char>,
    pub columns: Seq<FieldView>,
}

impl View for TableSchema {
    type V = TableSchemaView;

    open spec fn view(&self) -> TableSchemaView {
        TableSchemaView { name: self.name@, columns: self.columns() }
    }
}

impl TableSchema {
    /// The columns of this schema in the order in which a table holds them.
    pub open spec fn columns(&self) -> Seq<FieldView> {
        seq![
            self.id@,
            self.content@,
            self.metadata@,
            self.vector@,
            self.model@,
            self.created_at@,
            self.chunk_number@,
        ]
    }

    /// The schema of the table `table_name`, with the layout that every table of
    /// embeddings has.
    pub fn new(table_name: &String) -> (schema: TableSchema)
        ensures
            schema@ == (TableSchemaView { name: table_name@, columns: table_columns() }),
    {
        TableSchema {
            name: table_name.clone(),
            id: Field::new("id", DataType::Int32, false),
            content: Field::new("content", DataType::Utf8, false),
            metadata: Field::new("metadata", DataType::Utf8, false),
            vector: Field::new(
                "vector",
                DataType::FixedSizeFloat32List { length: VECTOR_DB_DIM_SIZE },
                true,
            ),
            model: Field::new("model", DataType::Utf8, false),
            created_at: Field::new("created_at", DataType::TimestampSecond, false),
            chunk_number: Field::new("chunk_number", DataType::Int32, true),
        }
    }

    /// The columns in table order: id, content, metadata, vector, model, created_at,
    /// chunk_number. Every call returns the same list.
    pub fn create_schema(&self) -> (fields: Vec<Field>)
        ensures
            field_views(fields@) == self.columns(),
    {
        let mut fields: Vec<Field> = Vec::new();
        fields.push(self.id.duplicate());
        fields.push(self.content.duplicate());
        fields.push(self.metadata.duplicate());
        fields.push(self.vector.duplicate());
        fields.push(self.model.duplicate());
        fields.push(self.created_at.duplicate());
        fields.push(self.chunk_number.duplicate());
        assert(field_views(fields@) == self.columns());
        fields
    }

    /// A copy of the schema.
    pub fn duplicate(&self) -> (schema: TableSchema)
        ensures
            schema@ == self@,
    {
        TableSchema {
            name: self.name.clone(),
            id: self.id.duplicate(),
            content: self.content.duplicate(),
            metadata: self.metadata.duplicate(),
            model: self.model.duplicate(),
            vector: self.vector.duplicate(),
            created_at: self.created_at.duplicate(),
            chunk_number: self.chunk_number.duplicate(),
        }
    }

    /// The table's name.
    pub fn get_table_name(&self) -> (name: &str)
        ensures
            name@ == self.name@,
    {
        self.name.as_str()
    }
}

/// Why no batch of rows was built.
#[derive(Debug, Clone, Copy, PartialEq, Eq, Structural)]
pub enum BatchError {
    /// The response holds no embedding.
    EmptyEmbedding,
    /// A vector does not have as many entries as the table's vector column.
    DimensionMismatch,
    /// The request holds fewer texts than the response holds vectors, so that the
    /// columns would differ in length.
    ColumnLengthMismatch,
}

/// Rows of a table of embeddings, held column by column.
#[derive(Debug, Clone)]
pub struct RecordBatch {
    pub id: Vec<i32>,
    pub content: Vec<String>,
    pub metadata: Vec<String>,
    pub vector: Vec<Vec<u32>>,
    pub model: Vec<String>,
    pub created_at: Vec<i64>,
    pub chunk_number: Vec<i32>,
}

/// What a `RecordBatch` holds, as mathematical values.
pub struct RecordBatchView {
    pub id: Seq<i32>,
    pub content: Seq<Seq<char>>,
    pub metadata: Seq<Seq<char>>,
    pub vector: Seq<Seq<u32>>,
    pub model: Seq<Seq<char>>,
    pub created_at: Seq<i64>,
    pub chunk_number: Seq<i32>,
}

impl RecordBatchView {
    /// Every column has `rows` rows.
    pub open spec fn has_rows(self, rows: nat) -> bool {
        &&& self.id.len() == rows
        &&& self.content.len() == rows
        &&& self.metadata.len() == rows
        &&& self.vector.len() == rows
        &&& self.model.len() == rows
        &&& self.created_at.len() == rows
        &&& self.chunk_number.len() == rows
    }

    /// The batch fits the table layout: its columns are equally long and every vector
    /// has the dimension of the vector column.
    pub open spec fn well_formed(self) -> bool {
        &&& self.has_rows(self.id.len())
        &&& forall|i: int|
            0 <= i < self.vector.len() ==> (#[trigger] self.vector[i]).len() == VECTOR_DB_DIM_SIZE
    }
}

impl View for RecordBatch {
    type V = RecordBatchView;

    open spec fn view(&self) -> RecordBatchView {
        RecordBatchView {
            id: self.id@,
            content: self.content.deep_view(),
            metadata: self.metadata.deep_view(),
            vector: self.vector.deep_view(),
            model: self.model.deep_view(),
            created_at: self.created_at@,
            chunk_number: self.chunk_number@,
        }
    }
}

impl RecordBatch {
    /// The number of rows.
    pub fn num_rows(&self) -> (rows: usize)
        ensures
            rows == self@.id.len(),
    {
        self.id.len()
    }

    /// Whether the batch fits the table layout: its columns are equally long and every
    /// vector has the dimension of the vector column.
    pub fn is_well_formed(&self) -> (res: bool)
        ensures
            res == self@.well_formed(),
    {
        let rows = self.id.len();
        let same_length = self.content.len() == rows && self.metadata.len() == rows
            && self.vector.len() == rows && self.model.len() == rows && self.created_at.len()
            == rows && self.chunk_number.len() == rows;
        same_length && check_dimensions(&self.vector)
    }

    /// The number of columns, which the table layout fixes.
    pub fn num_columns(&self) -> (columns: usize)
        ensures
            columns == table_columns().len(),
    {
        7
    }
}

/// The metadata of the rows of a request.
pub open spec fn metadata_or_empty(metadata: Option<Seq<char>>) -> Seq<char> {
    match metadata {
        Some(m) => m,
        None => EMPTY_METADATA@,
    }
}

/// The chunk number of the rows of a request.
pub open spec fn chunk_number_or_zero(chunk_number: Option<i32>) -> i32 {
    match chunk_number {
        Some(n) => n,
        None => 0,
    }
}

/// Every vector has as many entries as the table's vector column.
pub open spec fn all_have_dimension(vectors: Seq<Seq<u32>>) -> bool {
    forall|i: int| 0 <= i < vectors.len() ==> (#[trigger] vectors[i]).len() == VECTOR_DB_DIM_SIZE
}

/// The rows for one request and its response, stamped `created_at`: one row for each
/// vector of the response. Row `i` holds text `i` of the request and vector `i` of the
/// response; all rows share the request's metadata, model and chunk number.
pub open spec fn record_batch_of(
    id: i32,
    request: EmbedRequestView,
    response: EmbedResponseView,
    created_at: i64,
) -> Result<RecordBatchView, BatchError> {
    let len = response.embeddings.len();
    if len == 0 {
        Err(BatchError::EmptyEmbedding)
    } else if !all_have_dimension(response.embeddings) {
        Err(BatchError::DimensionMismatch)
    } else if request.input.len() < len {
        Err(BatchError::ColumnLengthMismatch)
    } else {
        Ok(
            RecordBatchView {
                id: Seq::new(len, |i: int| id),
                content: request.input.take(len as int),
                metadata: Seq::new(len, |i: int| metadata_or_empty(request.metadata)),
                vector: response.embeddings,
                model: Seq::new(len, |i: int| request.model),
                created_at: Seq::new(len, |i: int| created_at),
                chunk_number: Seq::new(len, |i: int| chunk_number_or_zero(request.chunk_number)),
            },
        )
    }
}

/// The placeholder batch stamped `created_at`: 256 rows with the ids 0 to 255, empty
/// texts, and vectors of ones.
pub open spec fn empty_batch_of(created_at: i64) -> RecordBatchView {
    RecordBatchView {
        id: Seq::new(EMPTY_BATCH_ROWS as nat, |i: int| i as i32),
        content: Seq::new(EMPTY_BATCH_ROWS as nat, |i: int| Seq::<char>::empty()),
        metadata: Seq::new(EMPTY_BATCH_ROWS as nat, |i: int| Seq::<char>::empty()),
        vector: Seq::new(
            EMPTY_BATCH_ROWS as nat,
            |i: int| Seq::new(VECTOR_DB_DIM_SIZE as nat, |j: int| ONE_BITS),
        ),
        model: Seq::new(EMPTY_BATCH_ROWS as nat, |i: int| Seq::<char>::empty()),
        created_at: Seq::new(EMPTY_BATCH_ROWS as nat, |i: int| created_at),
        chunk_number: Seq::new(EMPTY_BATCH_ROWS as nat, |i: int| 0i32),
    }
}

/// The view of a built batch, or the error.
pub open spec fn batch_result_view(res: Result<RecordBatch, BatchError>) -> Result<
    RecordBatchView,
    BatchError,
> {
    match res {
        Ok(batch) => Ok(batch@),
        Err(e) => Err(e),
    }
}

/// The rows that are built for a response have one row for each of its vectors in every
/// column, and they fit the table. No rows are built for a response without vectors.
pub proof fn batch_has_one_row_for_each_embedding(
    id: i32,
    request: EmbedRequestView,
    response: EmbedResponseView,
    created_at: i64,
)
    ensures
        record_batch_of(id, request, response, created_at) matches Ok(batch) ==> batch.has_rows(
            response.embeddings.len(),
        ) && batch.well_formed(),
        response.embeddings.len() == 0 ==> record_batch_of(id, request, response, created_at)
            == Err::<RecordBatchView, BatchError>(BatchError::EmptyEmbedding),
{
}

/// `count` copies of `value`.
pub fn repeat_value<T: Copy>(value: T, count: usize) -> (res: Vec<T>)
    ensures
        res@ == Seq::new(count as nat, |i: int| value),
{
    let mut out: Vec<T> = Vec::new();
    let mut i: usize = 0;
    while i < count
        invariant
            i <= count,
            out@ == Seq::new(i as nat, |k: int| value),
        decreases count - i,
    {
        out.push(value);
        i += 1;
        assert(out@ == Seq::new(i as nat, |k: int| value));
    }
    out
}

/// `count` copies of the string `value`.
pub fn repeat_string(value: &str, count: usize) -> (res: Vec<String>)
    ensures
        res.deep_view() == Seq::new(count as nat, |i: int| value@),
{
    let mut out: Vec<String> = Vec::new();
    let mut i: usize = 0;
    while i < count
        invariant
            i <= count,
            out.len() == i,
            forall|k: int| 0 <= k < i ==> (#[trigger] out[k])@ == value@,
        decreases count - i,
    {
        out.push(value.to_string());
        i += 1;
    }
    assert(out.deep_view() == Seq::new(count as nat, |i: int| value@));
    out
}

/// Whether every vector has as many entries as the table's vector column.
pub fn check_dimensions(vectors: &Vec<Vec<u32>>) -> (res: bool)
    ensures
        res == all_have_dimension(vectors.deep_view()),
{
    let n = vectors.len();
    let mut i: usize = 0;
    while i < n
        invariant
            i <= n,
            n == vectors.len(),
            forall|k: int|
                0 <= k < i ==> (#[trigger] vectors.deep_view()[k]).len() == VECTOR_DB_DIM_SIZE,
        decreases n - i,
    {
        assert(vectors.deep_view()[i as int].len() == vectors[i as int].len());
        if vectors[i].len() != VECTOR_DB_DIM_SIZE as usize {
            return false;
        }
        i += 1;
    }
    true
}

/// The first `count` strings of `list`, copied.
pub fn take_strings(list: &Vec<String>, count: usize) -> (res: Vec<String>)
    requires
        count <= list.len(),
    ensures
        res.deep_view() == list.deep_view().take(count as int),
{
    let mut out: Vec<String> = Vec::new();
    let mut i: usize = 0;
    while i < count
        invariant
            i <= count <= list.len(),
            out.len() == i,
            forall|k: int| 0 <= k < i ==> (#[trigger] out[k])@ == list[k]@,
        decreases count - i,
    {
        out.push(list[i].clone());
        i += 1;
    }
    assert(out.deep_view() == list.deep_view().take(count as int));
    out
}

/// Builds the rows for one request and its response, stamped `created_at`.
pub fn build_record_batch(
    id: i32,
    request: &EmbedRequest,
    response: &EmbedResponse,
    created_at: i64,
) -> (res: Result<RecordBatch, BatchError>)
    ensures
        batch_result_view(res) == record_batch_of(id, request@, response@, created_at),
        res matches Ok(batch) ==> batch@.has_rows(response@.embeddings.len())
            && batch@.well_formed(),
        res matches Err(e) ==> (e == BatchError::EmptyEmbedding <==> response@.embeddings.len()
            == 0),
{
    let len = response.embeddings.len();
    if len == 0 {
        return Err(BatchError::EmptyEmbedding);
    }
    if !check_dimensions(&response.embeddings) {
        return Err(BatchError::DimensionMismatch);
    }
    if request.input.len() < len {
        return Err(BatchError::ColumnLengthMismatch);
    }
    let metadata = match &request.metadata {
        Some(dir_name) => repeat_string(dir_name.as_str(), len),
        None => repeat_string(EMPTY_METADATA, len),
    };
    let chunk_number = match request.chunk_number {
        Some(number) => repeat_value(number, len),
        None => repeat_value(0i32, len),
    };
    let batch = RecordBatch {
        id: repeat_value(id, len),
        content: take_strings(&request.input, len),
        metadata,
        vector: response.get_embeddings(),
        model: repeat_string(request.model.as_str(), len),
        created_at: repeat_value(created_at, len),
        chunk_number,
    };
    assert(batch@.metadata == Seq::new(
        len as nat,
        |i: int| metadata_or_empty(request@.metadata),
    ));
    assert(batch@.chunk_number == Seq::new(
        len as nat,
        |i: int| chunk_number_or_zero(request@.chunk_number),
    ));
    Ok(batch)
}

/// Builds the rows for one request and its response and stamps them with the time of
/// the call. No batch is built from a response without embeddings.
pub fn create_record_batch(
    id: i32,
    request: &EmbedRequest,
    response: &EmbedResponse,
    table_schema: &TableSchema,
) -> (res: Result<RecordBatch, BatchError>)
    ensures
        exists|created_at: i64|
            batch_result_view(res) == #[trigger] record_batch_of(
                id,
                request@,
                response@,
                created_at,
            ),
        res matches Ok(batch) ==> batch@.has_rows(response@.embeddings.len())
            && batch@.well_formed(),
        response@.embeddings.len() == 0 ==> res == Err::<RecordBatch, BatchError>(
            BatchError::EmptyEmbedding,
        ),
{
    let now = current_timestamp();
    build_record_batch(id, request, response, now)
}

impl TableSchema {
    /// The placeholder batch stamped `created_at`.
    pub fn empty_batch_at(&self, created_at: i64) -> (batch: RecordBatch)
        ensures
            batch@ == empty_batch_of(created_at),
            batch@.has_rows(EMPTY_BATCH_ROWS as nat),
            batch@.well_formed(),
    {
        let mut id: Vec<i32> = Vec::new();
        let mut vector: Vec<Vec<u32>> = Vec::new();
        let mut i: usize = 0;
        while i < EMPTY_BATCH_ROWS
            invariant
                i <= EMPTY_BATCH_ROWS,
                id.len() == i,
                vector.len() == i,
                forall|k: int| 0 <= k < i ==> #[trigger] id[k] == k as i32,
                forall|k: int|
                    0 <= k < i ==> (#[trigger] vector[k])@ == Seq::new(
                        VECTOR_DB_DIM_SIZE as nat,
                        |j: int| ONE_BITS,
                    ),
            decreases EMPTY_BATCH_ROWS - i,
        {
            id.push(i as i32);
            vector.push(repeat_value(ONE_BITS, VECTOR_DB_DIM_SIZE as usize));
            i += 1;
        }
        let batch = RecordBatch {
            id,
            content: repeat_string("", EMPTY_BATCH_ROWS),
            metadata: repeat_string("", EMPTY_BATCH_ROWS),
            vector,
            model: repeat_string("", EMPTY_BATCH_ROWS),
            created_at: repeat_value(created_at, EMPTY_BATCH_ROWS),
            chunk_number: repeat_value(0i32, EMPTY_BATCH_ROWS),
        };
        proof {
            reveal_strlit("");
            assert(""@ == Seq::<char>::empty());
            assert(batch@.id == empty_batch_of(created_at).id);
            assert forall|k: int| 0 <= k < batch@.vector.len() implies batch@.vector[k]
                == empty_batch_of(created_at).vector[k] by {
                assert(batch.vector[k]@ == batch.vector[k].deep_view());
            }
            assert(batch@.vector == empty_batch_of(created_at).vector);
            assert(batch@.content == empty_batch_of(created_at).content);
        }
        batch
    }

    /// A batch of 256 placeholder rows, stamped with the time of the call. It serves to
    /// give an index trainer enough rows where a table has too few of its own.
    pub fn empty_batch(&self) -> (res: Result<RecordBatch, BatchError>)
        ensures
            res matches Ok(batch) && (exists|created_at: i64|
                batch@ == #[trigger] empty_batch_of(created_at)) && batch@.has_rows(
                EMPTY_BATCH_ROWS as nat,
            ) && batch@.well_formed(),
    {
        let now = current_timestamp();
        Ok(self.empty_batch_at(now))
    }
}

} // verus!
