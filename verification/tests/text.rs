use bee_agent::text::{
    chars_of, contains_pattern, find_char, matches_at, skip_leading, skip_prefix, split_lines,
};

fn chars(s: &str) -> Vec<char> {
    s.chars().collect()
}

#[test]
fn chars_of_lists_characters_not_bytes() {
    assert_eq!(chars_of("aé名"), vec!['a', 'é', '名']);
    assert_eq!(chars_of(""), Vec::<char>::new());
}

#[test]
fn matches_at_finds_a_pattern_where_it_stands() {
    let s = chars("ips:alpha");
    assert!(matches_at(&s, 0, &chars("ips:")));
    assert!(matches_at(&s, 4, &chars("alpha")));
    assert!(!matches_at(&s, 1, &chars("ips:")));
}

#[test]
fn matches_at_refuses_positions_too_close_to_the_end() {
    let s = chars("abc");
    assert!(!matches_at(&s, 2, &chars("cd")));
    assert!(!matches_at(&s, 4, &chars("")));
    assert!(!matches_at(&s, 7, &chars("a")));
}

#[test]
fn matches_at_accepts_the_empty_pattern_up_to_the_end() {
    let s = chars("abc");
    assert!(matches_at(&s, 0, &chars("")));
    assert!(matches_at(&s, 3, &chars("")));
}

#[test]
fn contains_pattern_looks_everywhere() {
    let s = chars("xxcmd:yy");
    assert!(contains_pattern(&s, &chars("cmd:")));
    assert!(contains_pattern(&s, &chars("xx")));
    assert!(contains_pattern(&s, &chars("yy")));
    assert!(!contains_pattern(&s, &chars("cmd:z")));
    assert!(!contains_pattern(&chars("cm"), &chars("cmd:")));
}

#[test]
fn contains_pattern_finds_the_empty_pattern_in_anything() {
    assert!(contains_pattern(&chars(""), &chars("")));
    assert!(contains_pattern(&chars("a"), &chars("")));
}

#[test]
fn find_char_gives_the_first_position_from_the_start() {
    let s = chars("a:b:c");
    assert_eq!(find_char(&s, 0, ':'), 1);
    assert_eq!(find_char(&s, 1, ':'), 1);
    assert_eq!(find_char(&s, 2, ':'), 3);
}

#[test]
fn find_char_gives_the_length_when_there_is_none() {
    let s = chars("a:b:c");
    assert_eq!(find_char(&s, 4, ':'), 5);
    assert_eq!(find_char(&s, 5, ':'), 5);
    assert_eq!(find_char(&chars(""), 0, ':'), 0);
}

#[test]
fn skip_prefix_passes_the_pattern_once() {
    assert_eq!(skip_prefix(&chars("ips:ips:node"), &chars("ips:")), 4);
    assert_eq!(skip_prefix(&chars("cmd:"), &chars("cmd:")), 4);
}

#[test]
fn skip_prefix_stays_where_the_text_begins_otherwise() {
    assert_eq!(skip_prefix(&chars("xips:node"), &chars("ips:")), 0);
    assert_eq!(skip_prefix(&chars("ip"), &chars("ips:")), 0);
    assert_eq!(skip_prefix(&chars(""), &chars("ips:")), 0);
    assert_eq!(skip_prefix(&chars("abc"), &chars("")), 0);
}

#[test]
fn skip_leading_passes_every_repetition() {
    let s = chars("ips:ips:ips:node");
    assert_eq!(skip_leading(&s, 0, &chars("ips:")), 12);
    assert_eq!(skip_leading(&s, 4, &chars("ips:")), 12);
    assert_eq!(skip_leading(&s, 1, &chars("ips:")), 1);
}

#[test]
fn skip_leading_stops_at_a_partial_repetition() {
    let s = chars("ips:ipsnode");
    assert_eq!(skip_leading(&s, 0, &chars("ips:")), 4);
}

#[test]
fn skip_leading_with_an_empty_pattern_skips_nothing() {
    let s = chars("abc");
    assert_eq!(skip_leading(&s, 1, &chars("")), 1);
}

#[test]
fn skip_leading_can_consume_everything() {
    let s = chars(":::");
    assert_eq!(skip_leading(&s, 0, &chars(":")), 3);
}

#[test]
fn split_lines_cuts_at_every_line_feed() {
    assert_eq!(split_lines("one\ntwo\nthree"), vec!["one", "two", "three"]);
}

#[test]
fn split_lines_of_nothing_is_one_empty_line() {
    assert_eq!(split_lines(""), vec![""]);
}

#[test]
fn split_lines_keeps_an_empty_line_after_a_trailing_line_feed() {
    assert_eq!(split_lines("done\n"), vec!["done", ""]);
    assert_eq!(split_lines("\n"), vec!["", ""]);
}

#[test]
fn split_lines_keeps_empty_lines_in_the_middle() {
    assert_eq!(split_lines("a\n\nb"), vec!["a", "", "b"]);
}

#[test]
fn split_lines_leaves_carriage_returns_alone() {
    assert_eq!(split_lines("a\r\nb"), vec!["a\r", "b"]);
}

#[test]
fn split_lines_counts_characters_not_bytes() {
    assert_eq!(split_lines("名称\n描述"), vec!["名称", "描述"]);
}

#[test]
fn split_lines_agrees_with_splitting_in_std() {
    for text in ["", "a", "\n\n", "a\nb\n", "x\ny\n\nz", "é\n名\n"] {
        let expected: Vec<String> = text.split('\n').map(|s| s.to_string()).collect();
        assert_eq!(split_lines(text), expected);
        assert_eq!(split_lines(text).join("\n"), text);
    }
}
