use vector_embed::language::{
    classify_extension, get_language_from_file_extension, is_code_file, is_supported_file,
    Grammar, Language, LanguageError,
};

#[test]
fn from_str_maps_every_listed_extension() {
    assert_eq!(Language::from_str("rs"), Language::Rust);
    assert_eq!(Language::from_str("py"), Language::Python);
    assert_eq!(Language::from_str("cpp"), Language::Cpp);
    assert_eq!(Language::from_str("java"), Language::Java);
    assert_eq!(Language::from_str("js"), Language::JavaScript);
    assert_eq!(Language::from_str("ts"), Language::TypeScript);
    assert_eq!(Language::from_str("tsx"), Language::Tsx);
    assert_eq!(Language::from_str("c"), Language::C);
    assert_eq!(Language::from_str("h"), Language::Header);
    assert_eq!(Language::from_str("go"), Language::Go);
    assert_eq!(Language::from_str("scala"), Language::Scala);
    assert_eq!(Language::from_str("txt"), Language::Text);
    assert_eq!(Language::from_str("log"), Language::SPARKLOG);
}

#[test]
fn from_str_maps_everything_else_to_unknown() {
    assert_eq!(Language::from_str("unknown"), Language::UNKNOWN);
    assert_eq!(Language::from_str("sh"), Language::UNKNOWN);
    assert_eq!(Language::from_str("RS"), Language::UNKNOWN);
    assert_eq!(Language::from_str(""), Language::UNKNOWN);
    assert_eq!(Language::from_str(".rs"), Language::UNKNOWN);
}

#[test]
fn is_supported_file_goes_by_the_extension() {
    assert_eq!(is_supported_file("src/main.rs"), (Language::Rust, true));
    assert_eq!(is_supported_file("a/b/notes.txt"), (Language::Text, true));
    assert_eq!(is_supported_file("spark.log"), (Language::SPARKLOG, true));
    assert_eq!(is_supported_file("include/x.h"), (Language::Header, true));
    assert_eq!(is_supported_file("archive.tar.gz"), (Language::UNKNOWN, false));
    assert_eq!(is_supported_file("Makefile"), (Language::UNKNOWN, false));
    assert_eq!(is_supported_file(".rs"), (Language::UNKNOWN, false));
    assert_eq!(is_supported_file("dir.rs/file"), (Language::UNKNOWN, false));
    assert_eq!(is_supported_file(""), (Language::UNKNOWN, false));
}

#[test]
fn classify_extension_without_extension_is_unsupported() {
    assert_eq!(classify_extension(None), (Language::UNKNOWN, false));
    assert_eq!(classify_extension(Some("py")), (Language::Python, true));
    assert_eq!(classify_extension(Some("exe")), (Language::UNKNOWN, false));
}

#[test]
fn is_code_file_knows_ten_extensions() {
    for path in ["a.rs", "a.py", "a.cpp", "a.java", "a.js", "a.ts", "a.c", "a.h", "a.go", "a.scala"] {
        assert!(is_code_file(path), "{}", path);
    }
    for path in ["a.tsx", "a.txt", "a.log", "a", "a.RS", ".c"] {
        assert!(!is_code_file(path), "{}", path);
    }
}

#[test]
fn grammar_exists_for_source_languages_only() {
    assert_eq!(get_language_from_file_extension(Language::Rust), Ok(Grammar::Rust));
    assert_eq!(get_language_from_file_extension(Language::Python), Ok(Grammar::Python));
    assert_eq!(get_language_from_file_extension(Language::Cpp), Ok(Grammar::Cpp));
    assert_eq!(get_language_from_file_extension(Language::Java), Ok(Grammar::Java));
    assert_eq!(get_language_from_file_extension(Language::JavaScript), Ok(Grammar::JavaScript));
    assert_eq!(get_language_from_file_extension(Language::TypeScript), Ok(Grammar::TypeScript));
    assert_eq!(get_language_from_file_extension(Language::Tsx), Ok(Grammar::Tsx));
    assert_eq!(get_language_from_file_extension(Language::C), Ok(Grammar::C));
    assert_eq!(get_language_from_file_extension(Language::Go), Ok(Grammar::Go));
    assert_eq!(get_language_from_file_extension(Language::Scala), Ok(Grammar::Scala));
    assert_eq!(get_language_from_file_extension(Language::Header), Ok(Grammar::C));
    for language in [Language::Text, Language::SPARKLOG, Language::UNKNOWN] {
        assert_eq!(
            get_language_from_file_extension(language),
            Err(LanguageError::UnsupportedFileExtension)
        );
    }
}
