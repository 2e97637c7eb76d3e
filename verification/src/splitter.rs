use crate::language::Grammar;
use text_splitter::{ChunkConfig, CodeSplitter, TextSplitter};
use vstd::prelude::*;

verus! {

/// The chunks into which the plain-text splitter cuts `text`, in order, for chunks of at
/// most `capacity` characters of which `overlap` are shared with the previous chunk.
pub uninterp spec fn text_chunks_of(
    text: Seq<char>,
    capacity: nat,
    overlap: nat,
    trim: bool,
) -> Seq<Seq<char>>;

/// The chunks into which the syntax-aware splitter cuts `text`, in order, or `None` where
/// the splitter does not accept the grammar.
pub uninterp spec fn code_chunks_of(
    grammar: Grammar,
    text: Seq<char>,
    capacity: nat,
    overlap: nat,
    trim: bool,
) -> Option<Seq<Seq<char>>>;

/// Calls `ChunkConfig::new` and `ChunkConfig::with_overlap`, which accept an overlap
/// exactly when it is smaller than the capacity.
#[verifier::external_body]
pub(crate) fn chunk_config_is_valid(capacity: usize, overlap: usize) -> (res: bool)
    ensures
        res == (overlap < capacity),
{
    ChunkConfig::new(capacity).with_overlap(overlap).is_ok()
}

/// Calls `TextSplitter::chunks` with a character-counting configuration and copies the
/// chunks it yields. The configuration is refused where the overlap is not below the
/// capacity; otherwise the result is what the splitter yields for these arguments.
#[verifier::external_body]
pub(crate) fn split_text(text: &str, capacity: usize, overlap: usize, trim: bool) -> (res: Option<
    Vec<String>,
>)
    ensures
        res is Some <==> overlap < capacity,
        res matches Some(chunks) ==> chunks.deep_view() == text_chunks_of(
            text@,
            capacity as nat,
            overlap as nat,
            trim,
        ),
{
    let config = ChunkConfig::new(capacity).with_overlap(overlap).ok()?.with_trim(trim);
    Some(TextSplitter::new(config).chunks(text).map(|chunk| chunk.to_string()).collect())
}

/// Calls `CodeSplitter::new` with the tree-sitter grammar that `grammar` stands for, then
/// `CodeSplitter::chunks`, and copies the chunks. The configuration is refused where the
/// overlap is not below the capacity; otherwise the result is what the splitter yields
/// for these arguments, `None` if it turns the grammar down.
#[verifier::external_body]
pub(crate) fn split_code(
    grammar: Grammar,
    text: &str,
    capacity: usize,
    overlap: usize,
    trim: bool,
) -> (res: Option<Vec<String>>)
    ensures
        overlap >= capacity ==> res is None,
        overlap < capacity ==> res.deep_view() == code_chunks_of(
            grammar,
            text@,
            capacity as nat,
            overlap as nat,
            trim,
        ),
{
    let language = match grammar {
        Grammar::Rust => tree_sitter_rust::LANGUAGE,
        Grammar::Python => tree_sitter_python::LANGUAGE,
        Grammar::Cpp => tree_sitter_cpp::LANGUAGE,
        Grammar::Java => tree_sitter_java::LANGUAGE,
        Grammar::JavaScript => tree_sitter_javascript::LANGUAGE,
        Grammar::TypeScript => tree_sitter_typescript::LANGUAGE_TYPESCRIPT,
        Grammar::Tsx => tree_sitter_typescript::LANGUAGE_TSX,
        Grammar::C => tree_sitter_c::LANGUAGE,
        Grammar::Go => tree_sitter_go::LANGUAGE,
        Grammar::Scala => tree_sitter_scala::LANGUAGE,
    };
    let config = ChunkConfig::new(capacity).with_overlap(overlap).ok()?.with_trim(trim);
    let splitter = CodeSplitter::new(language, config).ok()?;
    Some(splitter.chunks(text).map(|chunk| chunk.to_string()).collect())
}

} // verus!
