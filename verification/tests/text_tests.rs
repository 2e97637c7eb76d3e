use vector_embed::text::{join_lines, join_strings, str_is_blank};

fn strings(list: &[&str]) -> Vec<String> {
    list.iter().map(|s| s.to_string()).collect()
}

#[test]
fn join_strings_puts_separator_between_neighbours() {
    assert_eq!(join_strings(&strings(&["a", "b", "c"]), ", "), "a, b, c");
    assert_eq!(join_strings(&strings(&["a"]), ", "), "a");
    assert_eq!(join_strings(&Vec::new(), ", "), "");
    assert_eq!(join_strings(&strings(&["", ""]), "-"), "-");
    assert_eq!(join_strings(&strings(&["a", "b"]), ""), "ab");
}

#[test]
fn join_lines_uses_line_feeds() {
    assert_eq!(join_lines(&strings(&["a", "", "b"])), "a\n\nb");
    assert_eq!(join_lines(&Vec::new()), "");
}

#[test]
fn blank_strings_hold_whitespace_only() {
    assert!(str_is_blank(""));
    assert!(str_is_blank(" \t\r\n"));
    assert!(str_is_blank("\u{2003}\u{00a0}"));
    assert!(!str_is_blank(" a "));
    assert!(!str_is_blank("_"));
    assert!(!str_is_blank("\u{200b}"));
}

#[test]
fn whitespace_is_the_listed_code_points() {
    let listed = |n: u32| {
        (0x9..=0xD).contains(&n)
            || n == 0x20
            || n == 0x85
            || n == 0xA0
            || n == 0x1680
            || (0x2000..=0x200A).contains(&n)
            || n == 0x2028
            || n == 0x2029
            || n == 0x202F
            || n == 0x205F
            || n == 0x3000
    };
    let mut buffer = String::new();
    for n in 0..=0x10FFFFu32 {
        if let Some(c) = char::from_u32(n) {
            buffer.clear();
            buffer.push(c);
            assert_eq!(str_is_blank(&buffer), listed(n), "U+{:04X}", n);
        }
    }
}
