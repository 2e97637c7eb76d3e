use crate::language::{
    classify, get_language_from_file_extension, grammar_of, is_supported_file, Language,
};
use crate::splitter::{
    chunk_config_is_valid, code_chunks_of, split_code, split_text, text_chunks_of,
};
use crate::text::{
    contains_subseq, file_name_of_path, i32_to_string, int_decimal, is_blank, join_lines,
    join_with, lines_of, lowercase_of, path_extension, path_file_name, str_contains,
    str_is_blank, str_lines, to_lowercase,
};
use vstd::prelude::*;

verus! {

/// Characters that consecutive chunks of one file share.
pub const CHUNK_OVERLAP: usize = 256;

/// Lines kept before and after an error line of a log.
pub const LOG_CONTEXT_LINES: usize = 20;

/// Why a file could not be cut into chunks.
#[derive(Debug, Clone, Copy, PartialEq, Eq, Structural)]
pub enum ChunkError {
    /// The chunk size does not exceed the overlap between chunks.
    InvalidChunkConfig,
    /// The splitter turned the grammar of the file's language down.
    GrammarRejected,
    /// The file has more chunks than chunk numbers exist.
    TooManyChunks,
}

/// Why a load produced no chunks.
#[derive(Debug, Clone, Copy, PartialEq, Eq, Structural)]
pub enum LoadError {
    /// The root path is neither a file nor a directory.
    NotFileOrDirectory,
    /// The file at position `index` among the files that were read could not be cut.
    File { index: usize, error: ChunkError },
}

/// What the root path of a load turned out to be.
#[derive(Debug, Clone, Copy, PartialEq, Eq, Structural)]
pub enum RootKind {
    File,
    Directory,
    Other,
}

/// A regular file that was read: its path and its text.
#[derive(Debug, Clone)]
pub struct SourceFile {
    pub path: String,
    pub content: String,
}

/// One segment of one file: its lines, the file it was cut from and its position there.
#[derive(Debug, Clone)]
pub struct FileChunk {
    content: Vec<String>,
    file_path: String,
    chunk_number: i32,
}

/// What a `FileChunk` holds, as mathematical values.
pub struct FileChunkView {
    pub content: Seq<Seq<char>>,
    pub file_path: Seq<char>,
    pub chunk_number: int,
}

impl View for FileChunk {
    type V = FileChunkView;

    closed spec fn view(&self) -> FileChunkView {
        FileChunkView {
            content: self.content.deep_view(),
            file_path: self.file_path@,
            chunk_number: self.chunk_number as int,
        }
    }
}

/// The views of a sequence of chunks.
pub open spec fn chunk_views(chunks: Seq<FileChunk>) -> Seq<FileChunkView> {
    Seq::new(chunks.len(), |i: int| chunks[i]@)
}

/// The name under which a path is recorded: its final component, or `None` spelled out.
pub open spec fn file_name_or_none(name: Option<Seq<char>>) -> Seq<char> {
    match name {
        Some(n) => n,
        None => "None"@,
    }
}

/// The recorded name for the final path component that was found, if any.
pub fn name_or_none(name: Option<String>) -> (res: String)
    ensures
        res@ == file_name_or_none(name.deep_view()),
{
    match name {
        Some(n) => n,
        None => "None".to_string(),
    }
}

/// A line of a log together with what was found out about it: the line in lower case,
/// and whether it is blank.
#[derive(Debug, Clone)]
pub struct MarkedLine {
    pub text: String,
    pub lowered: String,
    pub blank: bool,
}

/// What a `MarkedLine` holds, as mathematical values.
pub struct MarkedLineView {
    pub text: Seq<char>,
    pub lowered: Seq<char>,
    pub blank: bool,
}

impl View for MarkedLine {
    type V = MarkedLineView;

    open spec fn view(&self) -> MarkedLineView {
        MarkedLineView { text: self.text@, lowered: self.lowered@, blank: self.blank }
    }
}

/// The views of a sequence of marked lines.
pub open spec fn marked_views(lines: Seq<MarkedLine>) -> Seq<MarkedLineView> {
    Seq::new(lines.len(), |i: int| lines[i]@)
}

/// The texts of a sequence of marked lines.
pub open spec fn line_texts(lines: Seq<MarkedLineView>) -> Seq<Seq<char>> {
    Seq::new(lines.len(), |i: int| lines[i].text)
}

/// A log line that is dropped before anything else is looked at.
pub open spec fn is_noise_line(line: MarkedLineView) -> bool {
    contains_subseq(line.lowered, "lineage"@)
}

/// A log line that reports a failure.
pub open spec fn is_error_line(line: MarkedLineView) -> bool {
    contains_subseq(line.lowered, "error"@) || contains_subseq(line.lowered, "exception"@)
}

/// First line of the window around line `i`.
pub open spec fn window_start(i: int, num_lines: int) -> int {
    if i >= num_lines {
        i - num_lines
    } else {
        0
    }
}

/// One past the last line of the window around line `i`, among `len` lines.
pub open spec fn window_end(i: int, num_lines: int, len: int) -> int {
    if i + num_lines + 1 <= len {
        i + num_lines + 1
    } else {
        len
    }
}

/// The lines of `lines` that are not blank.
pub open spec fn non_blank(lines: Seq<MarkedLineView>) -> Seq<MarkedLineView> {
    lines.filter(|line: MarkedLineView| !line.blank)
}

/// The lines of `lines` that are not noise.
pub open spec fn without_noise(lines: Seq<MarkedLineView>) -> Seq<MarkedLineView> {
    lines.filter(|line: MarkedLineView| !is_noise_line(line))
}

/// The non-blank lines at most `num_lines` before and after line `i`, line `i` included.
pub open spec fn context_window(lines: Seq<MarkedLineView>, i: int, num_lines: int) -> Seq<
    MarkedLineView,
> {
    non_blank(
        lines.subrange(window_start(i, num_lines), window_end(i, num_lines, lines.len() as int)),
    )
}

/// The windows of all error lines among the first `upto` lines, one after another.
/// Windows that overlap repeat their common lines.
pub open spec fn context_upto(lines: Seq<MarkedLineView>, num_lines: int, upto: int) -> Seq<
    MarkedLineView,
>
    decreases upto,
{
    if upto <= 0 {
        Seq::empty()
    } else if is_error_line(lines[upto - 1]) {
        context_upto(lines, num_lines, upto - 1) + context_window(lines, upto - 1, num_lines)
    } else {
        context_upto(lines, num_lines, upto - 1)
    }
}

/// What is kept of marked lines: the lines without noise, reduced to the windows
/// around the error lines among them.
pub open spec fn selected_context(lines: Seq<MarkedLineView>, num_lines: int) -> Seq<
    MarkedLineView,
> {
    let kept = without_noise(lines);
    context_upto(kept, num_lines, kept.len() as int)
}

/// Every line with its lower-case form and with whether it is blank.
pub open spec fn marked(lines: Seq<Seq<char>>) -> Seq<MarkedLineView> {
    Seq::new(
        lines.len(),
        |i: int|
            MarkedLineView {
                text: lines[i],
                lowered: lowercase_of(lines[i]),
                blank: is_blank(lines[i]),
            },
    )
}

/// The context lines of a log: its lines without noise, reduced to the windows around
/// its error lines.
pub open spec fn context_lines(content: Seq<char>, num_lines: int) -> Seq<Seq<char>> {
    line_texts(selected_context(marked(lines_of(content)), num_lines))
}

/// A line that is kept of a sequence of lines is one of them and is not blank.
proof fn lemma_non_blank_member(lines: Seq<MarkedLineView>, line: MarkedLineView)
    requires
        non_blank(lines).contains(line),
    ensures
        lines.contains(line),
        !line.blank,
{
    let pred = |l: MarkedLineView| !l.blank;
    lines.lemma_filter_contains_rev(pred, line);
    let i = choose|i: int| 0 <= i < lines.filter(pred).len() && lines.filter(pred)[i] == line;
    lines.lemma_filter_pred(pred, i);
}

/// Every line among the windows of the first `upto` lines is one of the lines and is
/// not blank.
proof fn lemma_context_member(
    lines: Seq<MarkedLineView>,
    num_lines: int,
    upto: int,
    line: MarkedLineView,
)
    requires
        0 <= num_lines,
        0 <= upto <= lines.len(),
        context_upto(lines, num_lines, upto).contains(line),
    ensures
        lines.contains(line),
        !line.blank,
    decreases upto,
{
    if upto > 0 {
        let before = context_upto(lines, num_lines, upto - 1);
        if is_error_line(lines[upto - 1]) {
            let start = window_start(upto - 1, num_lines);
            let end = window_end(upto - 1, num_lines, lines.len() as int);
            let range = lines.subrange(start, end);
            let window = context_window(lines, upto - 1, num_lines);
            let k = choose|k: int| 0 <= k < (before + window).len() && (before + window)[k] == line;
            if k < before.len() {
                assert(before[k] == line);
                lemma_context_member(lines, num_lines, upto - 1, line);
            } else {
                assert(window[k - before.len()] == line);
                lemma_non_blank_member(range, line);
                let j = choose|j: int| 0 <= j < range.len() && range[j] == line;
                assert(lines[start + j] == line);
            }
        } else {
            lemma_context_member(lines, num_lines, upto - 1, line);
        }
    }
}

/// The windows of more lines hold the windows of fewer.
proof fn lemma_context_grows(
    lines: Seq<MarkedLineView>,
    num_lines: int,
    fewer: int,
    more: int,
    line: MarkedLineView,
)
    requires
        fewer <= more,
        context_upto(lines, num_lines, fewer).contains(line),
    ensures
        context_upto(lines, num_lines, more).contains(line),
    decreases more - fewer,
{
    if fewer < more {
        lemma_context_grows(lines, num_lines, fewer, more - 1, line);
        let before = context_upto(lines, num_lines, more - 1);
        let k = choose|k: int| 0 <= k < before.len() && before[k] == line;
        if more > 0 && is_error_line(lines[more - 1]) {
            let window = context_window(lines, more - 1, num_lines);
            assert((before + window)[k] == line);
        }
    }
}

/// Whatever is kept of marked lines is one of them, is no noise and is not blank.
pub proof fn selected_lines_are_lines_of_the_log(
    lines: Seq<MarkedLineView>,
    num_lines: int,
    line: MarkedLineView,
)
    requires
        0 <= num_lines,
        selected_context(lines, num_lines).contains(line),
    ensures
        lines.contains(line),
        !is_noise_line(line),
        !line.blank,
{
    let pred = |l: MarkedLineView| !is_noise_line(l);
    let kept = without_noise(lines);
    lemma_context_member(kept, num_lines, kept.len() as int, line);
    lines.lemma_filter_contains_rev(pred, line);
    let i = choose|i: int| 0 <= i < kept.len() && kept[i] == line;
    lines.lemma_filter_pred(pred, i);
}

/// Every line that reports a failure is kept, unless it is noise or blank.
pub proof fn error_lines_are_kept(lines: Seq<MarkedLineView>, num_lines: int, i: int)
    requires
        0 <= num_lines,
        0 <= i < lines.len(),
        is_error_line(lines[i]),
        !is_noise_line(lines[i]),
        !lines[i].blank,
    ensures
        selected_context(lines, num_lines).contains(lines[i]),
{
    let noise = |l: MarkedLineView| !is_noise_line(l);
    let blank = |l: MarkedLineView| !l.blank;
    let line = lines[i];
    let kept = without_noise(lines);
    lines.lemma_filter_contains(noise, i);
    let k = choose|k: int| 0 <= k < kept.len() && kept[k] == line;
    let start = window_start(k, num_lines);
    let end = window_end(k, num_lines, kept.len() as int);
    let range = kept.subrange(start, end);
    assert(range[k - start] == line);
    range.lemma_filter_contains(blank, k - start);
    let window = context_window(kept, k, num_lines);
    let before = context_upto(kept, num_lines, k);
    let j = choose|j: int| 0 <= j < window.len() && window[j] == line;
    assert((before + window)[before.len() + j] == line);
    assert(context_upto(kept, num_lines, k + 1).contains(line));
    lemma_context_grows(kept, num_lines, k + 1, kept.len() as int, line);
}

/// Lines of which none reports a failure leave nothing.
pub proof fn log_without_errors_has_no_context(
    lines: Seq<MarkedLineView>,
    num_lines: int,
    upto: int,
)
    requires
        0 <= upto <= lines.len(),
        forall|i: int| 0 <= i < upto ==> !is_error_line(#[trigger] lines[i]),
    ensures
        context_upto(lines, num_lines, upto) == Seq::<MarkedLineView>::empty(),
    decreases upto,
{
    if upto > 0 {
        log_without_errors_has_no_context(lines, num_lines, upto - 1);
    }
}

/// Copies the lines of `lines` that are not noise.
fn drop_noise_lines(lines: &Vec<MarkedLine>) -> (kept: Vec<MarkedLine>)
    ensures
        marked_views(kept@) == without_noise(marked_views(lines@)),
{
    let mut kept: Vec<MarkedLine> = Vec::new();
    let n = lines.len();
    let mut i: usize = 0;
    assert(marked_views(lines@).take(0) == Seq::<MarkedLineView>::empty());
    assert(marked_views(kept@) == Seq::<MarkedLineView>::empty());
    assert(without_noise(Seq::<MarkedLineView>::empty()) == Seq::<MarkedLineView>::empty()) by {
        reveal(Seq::filter);
    }
    while i < n
        invariant
            i <= n,
            n == lines.len(),
            marked_views(kept@) == without_noise(marked_views(lines@).take(i as int)),
        decreases n - i,
    {
        let ghost seen = marked_views(lines@).take(i as int);
        let ghost next = marked_views(lines@).take(i + 1);
        let ghost before = marked_views(kept@);
        assert(next.drop_last() == seen);
        assert(next.last() == lines[i as int]@);
        assert(without_noise(next) == if is_noise_line(next.last()) {
            without_noise(seen)
        } else {
            without_noise(seen).push(next.last())
        }) by {
            reveal(Seq::filter);
        }
        if !str_contains(lines[i].lowered.as_str(), "lineage") {
            let line = &lines[i];
            kept.push(
                MarkedLine {
                    text: line.text.clone(),
                    lowered: line.lowered.clone(),
                    blank: line.blank,
                },
            );
            assert(marked_views(kept@) == before.push(lines[i as int]@));
        }
        i += 1;
    }
    assert(marked_views(lines@).take(n as int) == marked_views(lines@));
    kept
}

/// Appends the texts of the non-blank lines of `lines[start..end]` to `out`.
fn push_non_blank(out: &mut Vec<String>, lines: &Vec<MarkedLine>, start: usize, end: usize)
    requires
        start <= end <= lines.len(),
    ensures
        final(out).deep_view() == old(out).deep_view() + line_texts(
            non_blank(marked_views(lines@).subrange(start as int, end as int)),
        ),
{
    let mut j: usize = start;
    assert(marked_views(lines@).subrange(start as int, start as int) == Seq::<
        MarkedLineView,
    >::empty());
    assert(non_blank(Seq::<MarkedLineView>::empty()) == Seq::<MarkedLineView>::empty()) by {
        reveal(Seq::filter);
    }
    assert(out.deep_view() == old(out).deep_view() + line_texts(
        Seq::<MarkedLineView>::empty(),
    ));
    while j < end
        invariant
            start <= j <= end <= lines.len(),
            out.deep_view() == old(out).deep_view() + line_texts(
                non_blank(marked_views(lines@).subrange(start as int, j as int)),
            ),
        decreases end - j,
    {
        let ghost seen = marked_views(lines@).subrange(start as int, j as int);
        let ghost next = marked_views(lines@).subrange(start as int, j + 1);
        let ghost before = out.deep_view();
        assert(next.drop_last() == seen);
        assert(next.last() == lines[j as int]@);
        assert(non_blank(next) == if next.last().blank {
            non_blank(seen)
        } else {
            non_blank(seen).push(next.last())
        }) by {
            reveal(Seq::filter);
        }
        if !lines[j].blank {
            out.push(lines[j].text.clone());
            assert(out.deep_view() == before.push(lines[j as int].text@));
            assert(line_texts(non_blank(seen).push(next.last())) == line_texts(
                non_blank(seen),
            ).push(lines[j as int].text@));
        }
        j += 1;
    }
}

/// Reduces marked lines of a log to what surrounds the failures among them. Lines whose
/// lower-case form mentions `lineage` are dropped first. Then every line whose
/// lower-case form mentions `error` or `exception` contributes itself and up to
/// `num_lines` lines on either side, blank lines left out. The windows follow one
/// another in the order of their error lines.
pub fn select_context_lines(lines: &Vec<MarkedLine>, num_lines: usize) -> (res: Vec<String>)
    ensures
        res.deep_view() == line_texts(selected_context(marked_views(lines@), num_lines as int)),
{
    let filtered = drop_noise_lines(lines);
    let mut result: Vec<String> = Vec::new();
    let n = filtered.len();
    let mut i: usize = 0;
    assert(result.deep_view() == line_texts(Seq::<MarkedLineView>::empty()));
    while i < n
        invariant
            i <= n,
            n == filtered.len(),
            result.deep_view() == line_texts(
                context_upto(marked_views(filtered@), num_lines as int, i as int),
            ),
        decreases n - i,
    {
        let ghost before = context_upto(marked_views(filtered@), num_lines as int, i as int);
        let lower = filtered[i].lowered.as_str();
        assert(marked_views(filtered@)[i as int] == filtered[i as int]@);
        if str_contains(lower, "error") || str_contains(lower, "exception") {
            let start = if i >= num_lines {
                i - num_lines
            } else {
                0
            };
            let end = if num_lines < n - i {
                i + num_lines + 1
            } else {
                n
            };
            push_non_blank(&mut result, &filtered, start, end);
            let ghost window = context_window(marked_views(filtered@), i as int, num_lines as int);
            assert(line_texts(before + window) == line_texts(before) + line_texts(window));
        }
        i += 1;
    }
    result
}

/// Marks every line with its lower-case form and with whether it is blank.
pub fn mark_lines(lines: &Vec<String>) -> (res: Vec<MarkedLine>)
    ensures
        marked_views(res@) == marked(lines.deep_view()),
{
    let mut out: Vec<MarkedLine> = Vec::new();
    let n = lines.len();
    let mut i: usize = 0;
    while i < n
        invariant
            i <= n,
            n == lines.len(),
            out.len() == i,
            forall|k: int|
                0 <= k < i ==> (#[trigger] out[k])@ == (MarkedLineView {
                    text: lines[k]@,
                    lowered: lowercase_of(lines[k]@),
                    blank: is_blank(lines[k]@),
                }),
        decreases n - i,
    {
        let line = lines[i].as_str();
        out.push(
            MarkedLine {
                text: lines[i].clone(),
                lowered: to_lowercase(line),
                blank: str_is_blank(line),
            },
        );
        i += 1;
    }
    assert(marked_views(out@) == marked(lines.deep_view()));
    out
}

/// Reduces a log to what surrounds its failures. Lines that mention `lineage` are dropped
/// first. Then every line that mentions `error` or `exception` (in any letter case)
/// contributes itself and up to `num_lines` lines on either side, blank lines left out.
/// The windows follow one another in the order of their error lines, joined by line feeds.
pub fn capture_context_lines(content: &str, num_lines: usize) -> (res: String)
    ensures
        res@ == join_with(context_lines(content@, num_lines as int), seq!['\n']),
{
    let lines = str_lines(content);
    let marked_lines = mark_lines(&lines);
    let result = select_context_lines(&marked_lines, num_lines);
    join_lines(&result)
}

impl FileChunk {
    /// A chunk holding the lines of `content`.
    pub fn new(content: String, file_path: String, chunk_number: i32) -> (chunk: FileChunk)
        ensures
            chunk@ == (FileChunkView {
                content: lines_of(content@),
                file_path: file_path@,
                chunk_number: chunk_number as int,
            }),
    {
        let content_lines = str_lines(content.as_str());
        FileChunk { content: content_lines, file_path, chunk_number }
    }

    /// The chunk's lines, joined by line feeds.
    pub fn get_content(&self) -> (res: String)
        ensures
            res@ == join_with(self@.content, seq!['\n']),
    {
        join_lines(&self.content)
    }

    /// The chunk's lines.
    pub fn get_lines(&self) -> (res: &Vec<String>)
        ensures
            res.deep_view() == self@.content,
    {
        &self.content
    }

    /// The path of the file the chunk was cut from.
    pub fn get_file_path(&self) -> (res: &String)
        ensures
            res@ == self@.file_path,
    {
        &self.file_path
    }

    /// The 0-based position of the chunk within its file.
    pub fn get_chunk_number(&self) -> (res: i32)
        ensures
            res == self@.chunk_number,
    {
        self.chunk_number
    }

    /// One line that tells the chunk: its file, its number and its content.
    pub fn describe(&self) -> (res: String)
        ensures
            res@ == "File: "@ + self@.file_path + ", Chunk "@ + int_decimal(self@.chunk_number)
                + ": "@ + join_with(self@.content, seq!['\n']),
    {
        let mut out = "File: ".to_string();
        out.append(self.file_path.as_str());
        out.append(", Chunk ");
        let number = i32_to_string(self.chunk_number);
        out.append(number.as_str());
        out.append(": ");
        let content = self.get_content();
        out.append(content.as_str());
        out
    }

    /// The final component of the chunk's file path, or `None` spelled out if it has none.
    pub fn get_file_name(&self) -> (res: String)
        ensures
            res@ == file_name_or_none(path_file_name(self@.file_path)),
    {
        name_or_none(file_name_of_path(self.file_path.as_str()))
    }
}

/// The chunks made of the splitter's pieces of one file: piece `i` becomes chunk `i`.
pub open spec fn number_chunks(texts: Seq<Seq<char>>, path: Seq<char>) -> Seq<FileChunkView> {
    Seq::new(
        texts.len(),
        |i: int| FileChunkView { content: lines_of(texts[i]), file_path: path, chunk_number: i },
    )
}

/// `number_chunks`, as long as every position fits a chunk number.
pub open spec fn numbered(texts: Seq<Seq<char>>, path: Seq<char>) -> Result<
    Seq<FileChunkView>,
    ChunkError,
> {
    if texts.len() <= i32::MAX {
        Ok(number_chunks(texts, path))
    } else {
        Err(ChunkError::TooManyChunks)
    }
}

/// The views of the chunks of a result, or its error.
pub open spec fn chunks_result_view(res: Result<Vec<FileChunk>, ChunkError>) -> Result<
    Seq<FileChunkView>,
    ChunkError,
> {
    match res {
        Ok(chunks) => Ok(chunk_views(chunks@)),
        Err(e) => Err(e),
    }
}

/// The chunks of a log file: the plain-text splitter's pieces of its context lines.
pub open spec fn log_chunks(path: Seq<char>, content: Seq<char>, max_chunk_size: nat) -> Result<
    Seq<FileChunkView>,
    ChunkError,
> {
    if max_chunk_size <= CHUNK_OVERLAP {
        Err(ChunkError::InvalidChunkConfig)
    } else {
        numbered(
            text_chunks_of(
                join_with(context_lines(content, LOG_CONTEXT_LINES as int), seq!['\n']),
                max_chunk_size,
                CHUNK_OVERLAP as nat,
                true,
            ),
            path,
        )
    }
}

/// The chunks of one file. A chunk size that does not exceed the overlap is an error for
/// every file. Otherwise a file of unknown kind has no chunks, a text file is cut by the
/// plain-text splitter, a log file is first reduced to its context lines, and a source
/// file is cut along its syntax, a header file along that of C. No kind of file fails;
/// only the splitter can turn a grammar down.
pub open spec fn file_chunks(path: Seq<char>, content: Seq<char>, max_chunk_size: nat) -> Result<
    Seq<FileChunkView>,
    ChunkError,
> {
    let (language, supported) = classify(path_extension(path));
    if max_chunk_size <= CHUNK_OVERLAP {
        Err(ChunkError::InvalidChunkConfig)
    } else if !supported {
        Ok(Seq::empty())
    } else if language == Language::Text {
        numbered(text_chunks_of(content, max_chunk_size, CHUNK_OVERLAP as nat, true), path)
    } else if language == Language::SPARKLOG {
        log_chunks(path, content, max_chunk_size)
    } else {
        match grammar_of(language) {
            None => Ok(Seq::empty()),
            Some(grammar) => match code_chunks_of(
                grammar,
                content,
                max_chunk_size,
                CHUNK_OVERLAP as nat,
                true,
            ) {
                None => Err(ChunkError::GrammarRejected),
                Some(texts) => numbered(texts, path),
            },
        }
    }
}

/// Turns the pieces that a splitter made of one file into chunks, numbered from 0 in
/// the order of the pieces.
pub fn chunks_from_texts(texts: Vec<String>, file_path: &str) -> (res: Result<
    Vec<FileChunk>,
    ChunkError,
>)
    ensures
        chunks_result_view(res) == numbered(texts.deep_view(), file_path@),
{
    let n = texts.len();
    if n > i32::MAX as usize {
        return Err(ChunkError::TooManyChunks);
    }
    let mut chunks: Vec<FileChunk> = Vec::new();
    let mut i: usize = 0;
    while i < n
        invariant
            i <= n,
            n == texts.len(),
            n <= i32::MAX,
            chunks.len() == i,
            forall|k: int|
                0 <= k < i ==> (#[trigger] chunks[k])@ == (FileChunkView {
                    content: lines_of(texts[k]@),
                    file_path: file_path@,
                    chunk_number: k,
                }),
        decreases n - i,
    {
        let chunk = FileChunk::new(texts[i].clone(), file_path.to_string(), i as i32);
        chunks.push(chunk);
        i += 1;
    }
    assert(chunk_views(chunks@) == number_chunks(texts.deep_view(), file_path@));
    Ok(chunks)
}

/// Cuts a log into chunks: the log is reduced to the context of its error lines, and
/// the plain-text splitter cuts what is left.
pub fn process_spark_log_file(
    file_path: &str,
    content: &str,
    max_chunk_size: usize,
) -> (res: Result<Vec<FileChunk>, ChunkError>)
    ensures
        chunks_result_view(res) == log_chunks(file_path@, content@, max_chunk_size as nat),
{
    let error_lines = capture_context_lines(content, LOG_CONTEXT_LINES);
    match split_text(error_lines.as_str(), max_chunk_size, CHUNK_OVERLAP, true) {
        Some(texts) => chunks_from_texts(texts, file_path),
        None => Err(ChunkError::InvalidChunkConfig),
    }
}

/// Cuts the content of one file into chunks according to the kind of the file, which
/// its extension tells.
pub fn split_file_into_chunks(file_path: &str, content: &str, max_chunk_size: usize) -> (res:
    Result<Vec<FileChunk>, ChunkError>)
    ensures
        chunks_result_view(res) == file_chunks(file_path@, content@, max_chunk_size as nat),
{
    if !chunk_config_is_valid(max_chunk_size, CHUNK_OVERLAP) {
        return Err(ChunkError::InvalidChunkConfig);
    }
    let (language, is_supported) = is_supported_file(file_path);
    if !is_supported {
        let none: Vec<FileChunk> = Vec::new();
        assert(chunk_views(none@) == Seq::<FileChunkView>::empty());
        return Ok(none);
    }
    if language == Language::Text {
        return match split_text(content, max_chunk_size, CHUNK_OVERLAP, true) {
            Some(texts) => chunks_from_texts(texts, file_path),
            None => Err(ChunkError::InvalidChunkConfig),
        };
    }
    if language == Language::SPARKLOG {
        return process_spark_log_file(file_path, content, max_chunk_size);
    }
    match get_language_from_file_extension(language) {
        Err(_) => {
            let none: Vec<FileChunk> = Vec::new();
            assert(chunk_views(none@) == Seq::<FileChunkView>::empty());
            Ok(none)
        },
        Ok(grammar) => match split_code(grammar, content, max_chunk_size, CHUNK_OVERLAP, true) {
            Some(texts) => chunks_from_texts(texts, file_path),
            None => Err(ChunkError::GrammarRejected),
        },
    }
}

/// The views of the chunks of a load, or its error.
pub open spec fn load_result_view(res: Result<Vec<FileChunk>, LoadError>) -> Result<
    Seq<FileChunkView>,
    LoadError,
> {
    match res {
        Ok(chunks) => Ok(chunk_views(chunks@)),
        Err(e) => Err(e),
    }
}

/// The chunks of the first `upto` files, file after file. The first file that cannot
/// be cut decides the error, which names the file by its position.
pub open spec fn files_chunks(files: Seq<SourceFile>, max_chunk_size: nat, upto: int) -> Result<
    Seq<FileChunkView>,
    LoadError,
>
    decreases upto,
{
    if upto <= 0 {
        Ok(Seq::empty())
    } else {
        match files_chunks(files, max_chunk_size, upto - 1) {
            Err(e) => Err(e),
            Ok(before) => match file_chunks(
                files[upto - 1].path@,
                files[upto - 1].content@,
                max_chunk_size,
            ) {
                Err(error) => Err(LoadError::File { index: (upto - 1) as usize, error }),
                Ok(chunks) => Ok(before + chunks),
            },
        }
    }
}

/// The number of chunks of a file, 0 where it cannot be cut.
pub open spec fn file_chunk_count(file: SourceFile, max_chunk_size: nat) -> nat {
    match file_chunks(file.path@, file.content@, max_chunk_size) {
        Ok(chunks) => chunks.len(),
        Err(_) => 0,
    }
}

/// The sum of the chunk counts of the first `upto` files.
pub open spec fn total_chunk_count(files: Seq<SourceFile>, max_chunk_size: nat, upto: int) -> nat
    decreases upto,
{
    if upto <= 0 {
        0
    } else {
        total_chunk_count(files, max_chunk_size, upto - 1) + file_chunk_count(
            files[upto - 1],
            max_chunk_size,
        )
    }
}

/// What a load returns: an error where the root is neither a file nor a directory,
/// otherwise the chunks of the files that were read, in their order.
pub open spec fn loaded_chunks(
    kind: RootKind,
    files: Seq<SourceFile>,
    max_chunk_size: nat,
) -> Result<Seq<FileChunkView>, LoadError> {
    if kind == RootKind::Other {
        Err(LoadError::NotFileOrDirectory)
    } else {
        files_chunks(files, max_chunk_size, files.len() as int)
    }
}

/// Where the files of a tree can all be cut, the tree has as many chunks as its files
/// have together.
pub proof fn chunk_count_is_sum_of_file_counts(
    files: Seq<SourceFile>,
    max_chunk_size: nat,
    upto: int,
)
    requires
        0 <= upto <= files.len(),
        files_chunks(files, max_chunk_size, upto) is Ok,
    ensures
        files_chunks(files, max_chunk_size, upto)->Ok_0.len() == total_chunk_count(
            files,
            max_chunk_size,
            upto,
        ),
    decreases upto,
{
    if upto > 0 {
        chunk_count_is_sum_of_file_counts(files, max_chunk_size, upto - 1);
    }
}

/// A file of unknown kind has no chunks, whatever it holds, as long as the chunk size
/// exceeds the overlap.
pub proof fn unsupported_file_has_no_chunks(file: SourceFile, max_chunk_size: nat)
    requires
        max_chunk_size > CHUNK_OVERLAP,
        !classify(path_extension(file.path@)).1,
    ensures
        file_chunks(file.path@, file.content@, max_chunk_size) == Ok::<
            Seq<FileChunkView>,
            ChunkError,
        >(Seq::empty()),
        file_chunk_count(file, max_chunk_size) == 0,
{
}

/// The chunks of one file keep the order in which the splitter cut them: chunk `i` holds
/// the lines of piece `i` and carries the number `i` and the file's path.
pub proof fn chunks_are_numbered_in_split_order(texts: Seq<Seq<char>>, path: Seq<char>, i: int)
    requires
        texts.len() <= i32::MAX,
        0 <= i < texts.len(),
    ensures
        numbered(texts, path) matches Ok(chunks) && chunks.len() == texts.len()
            && chunks[i].chunk_number == i && chunks[i].file_path == path && chunks[i].content
            == lines_of(texts[i]),
{
}

/// Cuts every file of a tree that was read into chunks and returns them file after file,
/// in the order of `files`. Stops at the first file that cannot be cut.
pub fn process_directory(files: &Vec<SourceFile>, max_chunk_size: usize) -> (res: Result<
    Vec<FileChunk>,
    LoadError,
>)
    ensures
        load_result_view(res) == files_chunks(files@, max_chunk_size as nat, files.len() as int),
{
    let mut chunks: Vec<FileChunk> = Vec::new();
    let n = files.len();
    let mut i: usize = 0;
    assert(chunk_views(chunks@) == Seq::<FileChunkView>::empty());
    while i < n
        invariant
            i <= n,
            n == files.len(),
            files_chunks(files@, max_chunk_size as nat, i as int) == Ok::<
                Seq<FileChunkView>,
                LoadError,
            >(chunk_views(chunks@)),
        decreases n - i,
    {
        let file = &files[i];
        match split_file_into_chunks(file.path.as_str(), file.content.as_str(), max_chunk_size) {
            Err(error) => {
                proof {
                    lemma_error_stays(files@, max_chunk_size as nat, i + 1, n as int);
                }
                return Err(LoadError::File { index: i, error });
            },
            Ok(mut chunk) => {
                let ghost before = chunks@;
                let ghost added = chunk@;
                chunks.append(&mut chunk);
                assert(chunk_views(before + added) == chunk_views(before) + chunk_views(added));
            },
        }
        i += 1;
    }
    Ok(chunks)
}

/// Once a prefix of the files fails, every longer prefix fails in the same way.
proof fn lemma_error_stays(files: Seq<SourceFile>, max_chunk_size: nat, failed: int, upto: int)
    requires
        0 <= failed <= upto,
        files_chunks(files, max_chunk_size, failed) is Err,
    ensures
        files_chunks(files, max_chunk_size, upto) == files_chunks(files, max_chunk_size, failed),
    decreases upto - failed,
{
    if failed < upto {
        lemma_error_stays(files, max_chunk_size, failed, upto - 1);
    }
}

/// Cuts what was found at the root of a load into chunks. `files` holds the file at the
/// root, or the regular files below it in the order in which the tree was walked.
pub fn load_codebase_into_chunks(
    kind: RootKind,
    files: &Vec<SourceFile>,
    max_chunk_size: usize,
) -> (res: Result<Vec<FileChunk>, LoadError>)
    ensures
        load_result_view(res) == loaded_chunks(kind, files@, max_chunk_size as nat),
{
    match kind {
        RootKind::Other => Err(LoadError::NotFileOrDirectory),
        _ => process_directory(files, max_chunk_size),
    }
}

} // verus!
