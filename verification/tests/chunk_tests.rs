use vector_embed::chunk::{
    capture_context_lines, chunks_from_texts, load_codebase_into_chunks, mark_lines,
    process_directory, process_spark_log_file, select_context_lines, split_file_into_chunks,
    ChunkError, FileChunk, LoadError, MarkedLine, RootKind, SourceFile, CHUNK_OVERLAP,
    LOG_CONTEXT_LINES,
};

fn line(text: &str, lowered: &str, blank: bool) -> MarkedLine {
    MarkedLine { text: text.to_string(), lowered: lowered.to_string(), blank }
}

fn file(path: &str, content: &str) -> SourceFile {
    SourceFile { path: path.to_string(), content: content.to_string() }
}

fn numbered_log(lines: usize, error_at: usize) -> String {
    let mut out = String::new();
    for i in 0..lines {
        if i == error_at {
            out.push_str(&format!("entry {:02} ERROR boom\n", i));
        } else {
            out.push_str(&format!("entry {:02}\n", i));
        }
    }
    out
}

#[test]
fn capture_context_lines_keeps_window_around_error() {
    let log = "one\ntwo\nERROR three\nfour\nfive\n";
    assert_eq!(capture_context_lines(log, 1), "two\nERROR three\nfour");
}

#[test]
fn capture_context_lines_without_errors_is_empty() {
    assert_eq!(capture_context_lines("all\nis\nwell\n", 20), "");
    assert_eq!(capture_context_lines("", 20), "");
}

#[test]
fn capture_context_lines_matches_any_letter_case() {
    assert_eq!(capture_context_lines("a\nan Exception here\nb", 0), "an Exception here");
    assert_eq!(capture_context_lines("a\nsome eRRor\nb", 0), "some eRRor");
}

#[test]
fn capture_context_lines_drops_noise_before_windows() {
    let log = "first\nLineage ERROR noise\nsecond\nerror real\nthird";
    assert_eq!(capture_context_lines(log, 1), "second\nerror real\nthird");
}

#[test]
fn capture_context_lines_leaves_blank_lines_out() {
    let log = "before\n   \n\nerror\n\t\nafter";
    assert_eq!(capture_context_lines(log, 2), "error\nafter");
    assert_eq!(capture_context_lines(log, 3), "before\nerror\nafter");
}

#[test]
fn capture_context_lines_repeats_lines_of_overlapping_windows() {
    let log = "a\nerror 1\nerror 2\nb";
    assert_eq!(
        capture_context_lines(log, 1),
        "a\nerror 1\nerror 2\nerror 1\nerror 2\nb"
    );
}

#[test]
fn capture_context_lines_clamps_window_to_the_log() {
    let log = "error first\nmiddle\nerror last";
    assert_eq!(
        capture_context_lines(log, usize::MAX),
        "error first\nmiddle\nerror last\nerror first\nmiddle\nerror last"
    );
}

#[test]
fn capture_context_lines_takes_twenty_lines_each_side() {
    let log = numbered_log(60, 30);
    let context = capture_context_lines(&log, LOG_CONTEXT_LINES);
    let lines: Vec<&str> = context.lines().collect();
    assert_eq!(lines.len(), 41);
    assert_eq!(lines[0], "entry 10");
    assert_eq!(lines[20], "entry 30 ERROR boom");
    assert_eq!(lines[40], "entry 50");
}

#[test]
fn file_chunk_splits_content_into_lines() {
    let chunk = FileChunk::new("a\r\nb\n\nc".to_string(), "dir/x.rs".to_string(), 3);
    assert_eq!(
        chunk.get_lines(),
        &vec!["a".to_string(), "b".to_string(), "".to_string(), "c".to_string()]
    );
    assert_eq!(chunk.get_content(), "a\nb\n\nc");
    assert_eq!(chunk.get_file_path(), "dir/x.rs");
    assert_eq!(chunk.get_file_name(), "x.rs");
    assert_eq!(chunk.get_chunk_number(), 3);
}

#[test]
fn file_chunk_line_endings() {
    let chunk = FileChunk::new("one\ntwo\n".to_string(), "f.txt".to_string(), 0);
    assert_eq!(chunk.get_lines().len(), 2);
    let bare_cr = FileChunk::new("one\rtwo".to_string(), "f.txt".to_string(), 0);
    assert_eq!(bare_cr.get_lines(), &vec!["one\rtwo".to_string()]);
    let trailing_cr = FileChunk::new("one\r".to_string(), "f.txt".to_string(), 0);
    assert_eq!(trailing_cr.get_lines(), &vec!["one\r".to_string()]);
    let empty = FileChunk::new(String::new(), "f.txt".to_string(), 0);
    assert_eq!(empty.get_lines().len(), 0);
    assert_eq!(empty.get_content(), "");
}

#[test]
fn file_chunk_name_of_path_without_final_component() {
    let root = FileChunk::new("x".to_string(), "/".to_string(), 0);
    assert_eq!(root.get_file_name(), "None");
    let parent = FileChunk::new("x".to_string(), "a/..".to_string(), 0);
    assert_eq!(parent.get_file_name(), "None");
    let dir = FileChunk::new("x".to_string(), "a/b/".to_string(), 0);
    assert_eq!(dir.get_file_name(), "b");
}

#[test]
fn file_chunk_describe_is_one_line_of_text() {
    let chunk = FileChunk::new("a\nb".to_string(), "src/x.rs".to_string(), -7);
    assert_eq!(chunk.describe(), "File: src/x.rs, Chunk -7: a\nb");
}

#[test]
fn chunks_from_texts_numbers_pieces_from_zero() {
    let texts = vec!["first\npiece".to_string(), "second".to_string(), "third".to_string()];
    let chunks = chunks_from_texts(texts, "p/q.txt").unwrap();
    assert_eq!(chunks.len(), 3);
    for (i, chunk) in chunks.iter().enumerate() {
        assert_eq!(chunk.get_chunk_number(), i as i32);
        assert_eq!(chunk.get_file_path(), "p/q.txt");
    }
    assert_eq!(chunks[0].get_lines().len(), 2);
    assert_eq!(chunks[2].get_content(), "third");
}

#[test]
fn chunk_size_must_exceed_the_overlap() {
    assert_eq!(CHUNK_OVERLAP, 256);
    let res = split_file_into_chunks("a.txt", "hello", 256);
    assert_eq!(res.err(), Some(ChunkError::InvalidChunkConfig));
    let res = split_file_into_chunks("a.unknown", "hello", 50);
    assert_eq!(res.err(), Some(ChunkError::InvalidChunkConfig));
    assert!(split_file_into_chunks("a.txt", "hello", 257).is_ok());
}

#[test]
fn text_file_is_trimmed_and_kept_whole_when_small() {
    let chunks = split_file_into_chunks("notes/b.txt", "  Hello world \n", 300).unwrap();
    assert_eq!(chunks.len(), 1);
    assert_eq!(chunks[0].get_content(), "Hello world");
    assert_eq!(chunks[0].get_chunk_number(), 0);
    assert_eq!(chunks[0].get_file_name(), "b.txt");
}

#[test]
fn text_file_is_cut_into_bounded_chunks() {
    let mut text = String::new();
    for i in 0..200 {
        text.push_str(&format!("Sentence number {} of the text. ", i));
    }
    let chunks = split_file_into_chunks("long.txt", &text, 300).unwrap();
    assert!(chunks.len() > 1);
    for (i, chunk) in chunks.iter().enumerate() {
        assert_eq!(chunk.get_chunk_number(), i as i32);
        assert!(chunk.get_content().chars().count() <= 300);
        assert!(!chunk.get_content().is_empty());
    }
    assert!(chunks[0].get_content().starts_with("Sentence number 0 of the text."));
}

#[test]
fn source_file_is_cut_along_its_syntax() {
    let mut code = String::new();
    for i in 0..40 {
        code.push_str(&format!("fn function_{}() -> usize {{\n    let value = {};\n    value + 1\n}}\n\n", i, i));
    }
    let chunks = split_file_into_chunks("src/lib.rs", &code, 300).unwrap();
    assert!(chunks.len() > 1);
    for (i, chunk) in chunks.iter().enumerate() {
        assert_eq!(chunk.get_chunk_number(), i as i32);
        assert!(chunk.get_content().chars().count() <= 300);
    }
    assert!(chunks[0].get_content().starts_with("fn function_0()"));
}

#[test]
fn every_grammar_is_accepted_by_the_splitter() {
    for path in ["a.rs", "a.py", "a.cpp", "a.java", "a.js", "a.ts", "a.tsx", "a.c", "a.go", "a.scala"] {
        let chunks = split_file_into_chunks(path, "x = 1", 300).unwrap();
        assert_eq!(chunks.len(), 1, "{}", path);
        assert_eq!(chunks[0].get_content(), "x = 1");
    }
}

#[test]
fn header_file_is_cut_as_c_source() {
    let chunks = split_file_into_chunks("include/a.h", "int x;\nint f(void);\n", 300).unwrap();
    assert_eq!(chunks.len(), 1);
    assert_eq!(chunks[0].get_content(), "int x;\nint f(void);");
    let same = split_file_into_chunks("include/a.c", "int x;\nint f(void);\n", 300).unwrap();
    assert_eq!(same[0].get_content(), chunks[0].get_content());
}

#[test]
fn header_file_does_not_end_the_walk() {
    let files = vec![file("a.txt", "fine"), file("b.h", "int x;"), file("c.txt", "fine")];
    let chunks = process_directory(&files, 300).unwrap();
    let names: Vec<String> = chunks.iter().map(|c| c.get_file_name()).collect();
    assert_eq!(names, vec!["a.txt".to_string(), "b.h".to_string(), "c.txt".to_string()]);
}

#[test]
fn select_context_lines_goes_by_the_marks_alone() {
    let lines = vec![
        line("first", "first", false),
        line("SECOND", "an error", false),
        line("third", "", true),
        line("fourth", "lineage error", false),
        line("fifth", "fifth", false),
    ];
    assert_eq!(
        select_context_lines(&lines, 1),
        vec!["first".to_string(), "SECOND".to_string()]
    );
    assert_eq!(
        select_context_lines(&lines, 2),
        vec!["first".to_string(), "SECOND".to_string(), "fifth".to_string()]
    );
    assert_eq!(select_context_lines(&lines, 0), vec!["SECOND".to_string()]);
    assert_eq!(select_context_lines(&Vec::new(), 3), Vec::<String>::new());
}

#[test]
fn select_context_lines_leaves_a_blank_error_line_out() {
    let lines = vec![line("a", "a", false), line("b", "exception", true), line("c", "c", false)];
    assert_eq!(select_context_lines(&lines, 1), vec!["a".to_string(), "c".to_string()]);
}

#[test]
fn mark_lines_lowers_and_tells_blank_lines() {
    let marked = mark_lines(&vec!["An ERROR".to_string(), " \t".to_string(), String::new()]);
    assert_eq!(marked.len(), 3);
    assert_eq!(marked[0].text, "An ERROR");
    assert_eq!(marked[0].lowered, "an error");
    assert!(!marked[0].blank);
    assert_eq!(marked[1].text, " \t");
    assert!(marked[1].blank);
    assert!(marked[2].blank);
}

#[test]
fn unsupported_file_has_no_chunks() {
    assert_eq!(split_file_into_chunks("a.bin", "data", 300).unwrap().len(), 0);
    assert_eq!(split_file_into_chunks("Makefile", "all:", 300).unwrap().len(), 0);
    assert_eq!(split_file_into_chunks("a.unknown", "data", 300).unwrap().len(), 0);
}

#[test]
fn log_file_is_reduced_to_its_error_context() {
    let log = numbered_log(60, 30);
    let chunks = split_file_into_chunks("run/c.log", &log, 300).unwrap();
    assert!(!chunks.is_empty());
    let all: String = chunks.iter().map(|c| c.get_content()).collect::<Vec<_>>().join("\n");
    assert!(all.contains("entry 30 ERROR boom"));
    assert!(all.contains("entry 10"));
    assert!(all.contains("entry 50"));
    assert!(!all.contains("entry 09"));
    assert!(!all.contains("entry 51"));
    let same = process_spark_log_file("run/c.log", &log, 300).unwrap();
    assert_eq!(same.len(), chunks.len());
}

#[test]
fn log_file_without_errors_has_no_chunks() {
    let chunks = split_file_into_chunks("quiet.log", "fine\nfine\n", 300).unwrap();
    assert_eq!(chunks.len(), 0);
}

#[test]
fn process_spark_log_file_checks_the_chunk_size() {
    let res = process_spark_log_file("c.log", "error", 10);
    assert_eq!(res.err(), Some(ChunkError::InvalidChunkConfig));
}

#[test]
fn directory_chunk_count_is_sum_of_file_counts() {
    let mut text = String::new();
    for i in 0..100 {
        text.push_str(&format!("Sentence number {} of the text. ", i));
    }
    let files = vec![
        file("d/a.py", "x = 1\n"),
        file("d/skip.bin", "binary"),
        file("d/b.txt", &text),
        file("d/c.log", &numbered_log(60, 30)),
    ];
    let mut sum = 0;
    for f in &files {
        sum += split_file_into_chunks(&f.path, &f.content, 300).unwrap().len();
    }
    let all = process_directory(&files, 300).unwrap();
    assert_eq!(all.len(), sum);
    assert_eq!(all[0].get_file_name(), "a.py");
    assert_eq!(all[1].get_file_name(), "b.txt");
    assert_eq!(all[1].get_chunk_number(), 0);
    assert_eq!(all.last().unwrap().get_file_name(), "c.log");
}

#[test]
fn directory_stops_at_first_file_that_fails() {
    let files = vec![file("a.txt", "fine"), file("b.h", "int x;"), file("c.txt", "fine")];
    assert_eq!(
        process_directory(&files, 100).err(),
        Some(LoadError::File { index: 0, error: ChunkError::InvalidChunkConfig })
    );
    assert_eq!(process_directory(&Vec::new(), 300).unwrap().len(), 0);
}

#[test]
fn root_that_is_neither_file_nor_directory_is_refused() {
    let files = vec![file("a.txt", "fine")];
    let res = load_codebase_into_chunks(RootKind::Other, &files, 300);
    assert_eq!(res.err(), Some(LoadError::NotFileOrDirectory));
    let none = load_codebase_into_chunks(RootKind::Other, &Vec::new(), 10);
    assert_eq!(none.err(), Some(LoadError::NotFileOrDirectory));
    assert_eq!(load_codebase_into_chunks(RootKind::File, &files, 300).unwrap().len(), 1);
    assert_eq!(load_codebase_into_chunks(RootKind::Directory, &files, 300).unwrap().len(), 1);
}

#[test]
fn three_file_directory_scenario() {
    let files = vec![
        file("root/a.py", "def f():\n    return 1\n"),
        file("root/b.txt", "Some plain text.\n"),
        file("root/c.log", &numbered_log(60, 30)),
    ];
    let chunks = load_codebase_into_chunks(RootKind::Directory, &files, 300).unwrap();
    let of = |name: &str| -> Vec<String> {
        chunks.iter().filter(|c| c.get_file_name() == name).map(|c| c.get_content()).collect()
    };
    assert!(of("a.py").len() >= 1);
    assert!(of("b.txt").len() >= 1);
    let log = of("c.log").join("\n");
    assert!(log.contains("entry 30 ERROR boom"));
    assert!(!log.contains("entry 00"));
    assert!(!log.contains("entry 59"));
}

#[test]
fn three_file_directory_with_chunk_size_below_overlap_is_refused() {
    let files = vec![
        file("root/a.py", "def f():\n    return 1\n"),
        file("root/b.txt", "Some plain text.\n"),
        file("root/c.log", "ok\nERROR once\nok\n"),
    ];
    let res = load_codebase_into_chunks(RootKind::Directory, &files, 50);
    assert_eq!(
        res.err(),
        Some(LoadError::File { index: 0, error: ChunkError::InvalidChunkConfig })
    );
}

#[test]
fn chunks_of_a_text_cover_it_in_order() {
    let mut text = String::new();
    for i in 0..200 {
        text.push_str(&format!("Sentence number {} of the text. ", i));
    }
    let text = text.trim_end().to_string();
    let chunks = split_file_into_chunks("long.txt", &text, 300).unwrap();
    let mut covered = 0;
    let mut previous_start = 0;
    for (i, chunk) in chunks.iter().enumerate() {
        let content = chunk.get_content();
        let start = previous_start
            + text[previous_start..].find(&content).expect("a chunk is a piece of the text");
        if i == 0 {
            assert_eq!(start, 0);
        }
        assert!(start >= previous_start);
        if start > covered {
            assert!(text[covered..start].trim().is_empty());
        }
        covered = covered.max(start + content.len());
        previous_start = start;
    }
    assert_eq!(covered, text.len());
}
