use crate::text::{extension_of_path, path_extension, str_eq};
use vstd::prelude::*;

verus! {

/// The kind of a file, as told by its extension.
#[derive(Debug, Clone, Copy, PartialEq, Eq, Structural)]
pub enum Language {
    Rust,
    Python,
    Cpp,
    Java,
    JavaScript,
    TypeScript,
    Tsx,
    C,
    Header,
    Go,
    Scala,
    Text,
    SPARKLOG,
    UNKNOWN,
}

/// A source language for which a syntax grammar is available.
#[derive(Debug, Clone, Copy, PartialEq, Eq, Structural)]
pub enum Grammar {
    Rust,
    Python,
    Cpp,
    Java,
    JavaScript,
    TypeScript,
    Tsx,
    C,
    Go,
    Scala,
}

/// Why a language has no grammar.
#[derive(Debug, Clone, Copy, PartialEq, Eq, Structural)]
pub enum LanguageError {
    /// The language is not a source language with a grammar.
    UnsupportedFileExtension,
}

/// The language that an extension (without its dot) stands for.
pub open spec fn language_of_extension(ext: Seq<char>) -> Language {
    if ext == "rs"@ {
        Language::Rust
    } else if ext == "py"@ {
        Language::Python
    } else if ext == "cpp"@ {
        Language::Cpp
    } else if ext == "java"@ {
        Language::Java
    } else if ext == "js"@ {
        Language::JavaScript
    } else if ext == "ts"@ {
        Language::TypeScript
    } else if ext == "tsx"@ {
        Language::Tsx
    } else if ext == "c"@ {
        Language::C
    } else if ext == "h"@ {
        Language::Header
    } else if ext == "go"@ {
        Language::Go
    } else if ext == "scala"@ {
        Language::Scala
    } else if ext == "txt"@ {
        Language::Text
    } else if ext == "log"@ {
        Language::SPARKLOG
    } else {
        Language::UNKNOWN
    }
}

/// The language of a file and whether the file is split at all, from its extension.
pub open spec fn classify(ext: Option<Seq<char>>) -> (Language, bool) {
    match ext {
        Some(e) => {
            let language = language_of_extension(e);
            (language, language != Language::UNKNOWN)
        },
        None => (Language::UNKNOWN, false),
    }
}

/// Whether an extension is one of the source-code extensions.
pub open spec fn is_code_extension(ext: Option<Seq<char>>) -> bool {
    match ext {
        Some(e) => e == "rs"@ || e == "py"@ || e == "cpp"@ || e == "java"@ || e == "js"@ || e
            == "ts"@ || e == "c"@ || e == "h"@ || e == "go"@ || e == "scala"@,
        None => false,
    }
}

/// The grammar of a language, if it has one. A header file is read as C.
pub open spec fn grammar_of(language: Language) -> Option<Grammar> {
    match language {
        Language::Rust => Some(Grammar::Rust),
        Language::Python => Some(Grammar::Python),
        Language::Cpp => Some(Grammar::Cpp),
        Language::Java => Some(Grammar::Java),
        Language::JavaScript => Some(Grammar::JavaScript),
        Language::TypeScript => Some(Grammar::TypeScript),
        Language::Tsx => Some(Grammar::Tsx),
        Language::C | Language::Header => Some(Grammar::C),
        Language::Go => Some(Grammar::Go),
        Language::Scala => Some(Grammar::Scala),
        Language::Text | Language::SPARKLOG | Language::UNKNOWN => None,
    }
}

impl Language {
    /// Maps an extension to its language; anything unlisted is `UNKNOWN`.
    pub fn from_str(s: &str) -> (language: Language)
        ensures
            language == language_of_extension(s@),
    {
        if str_eq(s, "rs") {
            Language::Rust
        } else if str_eq(s, "py") {
            Language::Python
        } else if str_eq(s, "cpp") {
            Language::Cpp
        } else if str_eq(s, "java") {
            Language::Java
        } else if str_eq(s, "js") {
            Language::JavaScript
        } else if str_eq(s, "ts") {
            Language::TypeScript
        } else if str_eq(s, "tsx") {
            Language::Tsx
        } else if str_eq(s, "c") {
            Language::C
        } else if str_eq(s, "h") {
            Language::Header
        } else if str_eq(s, "go") {
            Language::Go
        } else if str_eq(s, "scala") {
            Language::Scala
        } else if str_eq(s, "txt") {
            Language::Text
        } else if str_eq(s, "log") {
            Language::SPARKLOG
        } else {
            Language::UNKNOWN
        }
    }
}

/// Classifies a file from the extension that was cut from its path.
pub fn classify_extension(ext: Option<&str>) -> (res: (Language, bool))
    ensures
        res == classify(
            match ext {
                Some(e) => Some(e@),
                None => None,
            },
        ),
{
    match ext {
        Some(ext_str) => {
            match Language::from_str(ext_str) {
                Language::UNKNOWN => (Language::UNKNOWN, false),
                lang => (lang, true),
            }
        },
        None => (Language::UNKNOWN, false),
    }
}

/// The language of the file at `file_path`, and whether files of that language are split.
pub fn is_supported_file(file_path: &str) -> (res: (Language, bool))
    ensures
        res == classify(path_extension(file_path@)),
{
    let ext = extension_of_path(file_path);
    match ext {
        Some(e) => classify_extension(Some(e.as_str())),
        None => classify_extension(None),
    }
}

/// Whether the file at `file_path` has one of the source-code extensions.
pub fn is_code_file(file_path: &str) -> (res: bool)
    ensures
        res == is_code_extension(path_extension(file_path@)),
{
    match extension_of_path(file_path) {
        Some(ext) => {
            let e = ext.as_str();
            str_eq(e, "rs") || str_eq(e, "py") || str_eq(e, "cpp") || str_eq(e, "java") || str_eq(
                e,
                "js",
            ) || str_eq(e, "ts") || str_eq(e, "c") || str_eq(e, "h") || str_eq(e, "go") || str_eq(
                e,
                "scala",
            )
        },
        None => false,
    }
}

/// The grammar to split a file of `language` with.
pub fn get_language_from_file_extension(language: Language) -> (res: Result<Grammar, LanguageError>)
    ensures
        res == match grammar_of(language) {
            Some(g) => Ok::<Grammar, LanguageError>(g),
            None => Err(LanguageError::UnsupportedFileExtension),
        },
{
    match language {
        Language::Rust => Ok(Grammar::Rust),
        Language::Python => Ok(Grammar::Python),
        Language::Cpp => Ok(Grammar::Cpp),
        Language::Java => Ok(Grammar::Java),
        Language::JavaScript => Ok(Grammar::JavaScript),
        Language::TypeScript => Ok(Grammar::TypeScript),
        Language::Tsx => Ok(Grammar::Tsx),
        Language::C => Ok(Grammar::C),
        Language::Header => Ok(Grammar::C),
        Language::Go => Ok(Grammar::Go),
        Language::Scala => Ok(Grammar::Scala),
        Language::Text => Err(LanguageError::UnsupportedFileExtension),
        Language::SPARKLOG => Err(LanguageError::UnsupportedFileExtension),
        Language::UNKNOWN => Err(LanguageError::UnsupportedFileExtension),
    }
}

} // verus!
