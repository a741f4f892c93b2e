use autopilot::text::{
    chars_of, decimal_string, has_prefix, join_strings, same_text, separates_words, split_lines,
    split_words, tail_from,
};

fn owned(parts: &[&str]) -> Vec<String> {
    parts.iter().map(|part| part.to_string()).collect()
}

fn std_lines(text: &str) -> Vec<String> {
    text.lines().map(|line| line.to_string()).collect()
}

fn std_words(text: &str) -> Vec<String> {
    text.split_whitespace().map(|word| word.to_string()).collect()
}

#[test]
fn join_puts_the_separator_between_neighbours() {
    assert_eq!(join_strings(&owned(&["a", "b", "c"]), " && "), "a && b && c");
}

#[test]
fn join_of_one_part_is_the_part() {
    assert_eq!(join_strings(&owned(&["ls -l"]), " && "), "ls -l");
}

#[test]
fn join_of_no_parts_is_empty() {
    assert_eq!(join_strings(&owned(&[]), " && "), "");
}

#[test]
fn join_keeps_empty_parts() {
    assert_eq!(join_strings(&owned(&["", "x", ""]), ","), ",x,");
}

#[test]
fn join_agrees_with_the_standard_join() {
    let cases: [&[&str]; 5] = [&[], &[""], &["a"], &["a", ""], &["é", "日本", "z"]];
    for parts in cases {
        assert_eq!(join_strings(&owned(parts), " "), owned(parts).join(" "));
    }
}

#[test]
fn chars_of_lists_every_character() {
    assert_eq!(chars_of("aé日"), vec!['a', 'é', '日']);
    assert_eq!(chars_of(""), Vec::<char>::new());
}

#[test]
fn same_text_compares_characters() {
    assert!(same_text("green", "green"));
    assert!(same_text("", ""));
    assert!(!same_text("green", "greem"));
    assert!(!same_text("green", "gree"));
    assert!(!same_text("", "x"));
}

#[test]
fn has_prefix_finds_the_mark() {
    assert!(has_prefix("$env:HOME", "$env:"));
    assert!(has_prefix("$env:", "$env:"));
    assert!(has_prefix("anything", ""));
    assert!(!has_prefix("$env", "$env:"));
    assert!(!has_prefix(" $env:HOME", "$env:"));
    assert!(!has_prefix("", "$env:"));
}

#[test]
fn tail_from_counts_characters_not_bytes() {
    assert_eq!(tail_from("héllo", 2), "llo");
    assert_eq!(tail_from("héllo", 0), "héllo");
    assert_eq!(tail_from("héllo", 5), "");
}

#[test]
fn decimal_string_writes_numbers() {
    assert_eq!(decimal_string(0), "0");
    assert_eq!(decimal_string(7), "7");
    assert_eq!(decimal_string(22), "22");
    assert_eq!(decimal_string(65535), "65535");
    assert_eq!(decimal_string(1000), "1000");
    assert_eq!(decimal_string(u64::MAX), "18446744073709551615");
}

#[test]
fn decimal_string_agrees_with_the_standard_formatting() {
    let mut n: u64 = 0;
    while n < 70000 {
        assert_eq!(decimal_string(n), n.to_string());
        n += 7;
    }
}

#[test]
fn split_lines_leaves_out_line_feeds() {
    assert_eq!(split_lines("a\nb\nc"), owned(&["a", "b", "c"]));
}

#[test]
fn split_lines_has_no_empty_line_after_a_final_line_feed() {
    assert_eq!(split_lines("a\n"), owned(&["a"]));
    assert_eq!(split_lines("\n"), owned(&[""]));
    assert_eq!(split_lines(""), owned(&[]));
}

#[test]
fn split_lines_keeps_empty_lines_in_between() {
    assert_eq!(split_lines("a\n\nb"), owned(&["a", "", "b"]));
    assert_eq!(split_lines("\n\n"), owned(&["", ""]));
}

#[test]
fn split_lines_drops_one_carriage_return_before_a_line_feed() {
    assert_eq!(split_lines("a\r\nb"), owned(&["a", "b"]));
    assert_eq!(split_lines("a\r\r\nb"), owned(&["a\r", "b"]));
    assert_eq!(split_lines("\r\n"), owned(&[""]));
}

#[test]
fn split_lines_keeps_a_bare_carriage_return() {
    assert_eq!(split_lines("a\r"), owned(&["a\r"]));
    assert_eq!(split_lines("a\rb\n"), owned(&["a\rb"]));
}

#[test]
fn split_lines_agrees_with_the_standard_lines() {
    let cases = [
        "", "x", "\n", "\r", "\r\n", "a\nb", "a\n", "a\r\n", "a\r", "\na", "\n\na\n\n",
        "é\r\n日本\n", "a\r\r\n", "a\n\rb", "> typed\n", "X\nX\nX\n", "tab\there\n",
    ];
    for text in cases {
        assert_eq!(split_lines(text), std_lines(text), "{:?}", text);
    }
}

#[test]
fn separates_words_agrees_with_the_standard_whitespace() {
    let mut code: u32 = 0;
    while code <= 0x10FFFF {
        if let Some(c) = char::from_u32(code) {
            assert_eq!(separates_words(c), c.is_whitespace(), "U+{:04X}", code);
        }
        code += 1;
    }
}

#[test]
fn split_words_splits_at_runs_of_white_space() {
    assert_eq!(split_words("echo  hello\tworld\n"), owned(&["echo", "hello", "world"]));
}

#[test]
fn split_words_of_white_space_alone_is_empty() {
    assert_eq!(split_words(""), owned(&[]));
    assert_eq!(split_words("   \n\t"), owned(&[]));
}

#[test]
fn split_words_ignores_white_space_at_the_ends() {
    assert_eq!(split_words("  a b  "), owned(&["a", "b"]));
    assert_eq!(split_words("a"), owned(&["a"]));
}

#[test]
fn split_words_agrees_with_the_standard_split() {
    let cases = [
        "", " ", "a", " a", "a ", "a b", "a  b", "\u{3000}x\u{00A0}y\u{2003}", "ls -l && pwd",
        "echo $env:NAME done", "é 日本\r\nz",
    ];
    for text in cases {
        assert_eq!(split_words(text), std_words(text), "{:?}", text);
    }
}
