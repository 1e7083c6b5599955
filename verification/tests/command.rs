use bee_agent::command::{
    classify, discovery, info_mutation, interfaces_query, shell_command, Command,
};

fn shell(line: &str) -> Command {
    Command::Shell { command_line: line.to_string() }
}

fn set_info(info: &str) -> Command {
    Command::SetInfo { info: info.to_string() }
}

#[test]
fn discovery_is_exactly_hello() {
    assert!(discovery("hello"));
    assert!(!discovery("hello "));
    assert!(!discovery(" hello"));
    assert!(!discovery("Hello"));
    assert!(!discovery("hell"));
    assert!(!discovery("hello\n"));
    assert!(!discovery(""));
}

#[test]
fn interfaces_query_reaches_the_named_node() {
    assert!(interfaces_query("ips:alpha", "alpha"));
}

#[test]
fn interfaces_query_spares_other_nodes() {
    assert!(!interfaces_query("ips:beta", "alpha"));
    assert!(!interfaces_query("ips:alph", "alpha"));
    assert!(!interfaces_query("ips:alphas", "alpha"));
}

#[test]
fn interfaces_query_compares_names_exactly() {
    assert!(!interfaces_query("ips:Alpha", "alpha"));
    assert!(!interfaces_query("ips:alpha ", "alpha"));
    assert!(!interfaces_query("ips: alpha", "alpha"));
    assert!(interfaces_query("ips:alpha ", "alpha "));
}

#[test]
fn interfaces_query_without_a_name_reaches_nobody() {
    assert!(!interfaces_query("ips:", "alpha"));
    assert!(!interfaces_query("ips:", ""));
    assert!(!interfaces_query("ips", "alpha"));
}

#[test]
fn interfaces_query_drops_the_one_keyword_it_begins_with() {
    assert!(!interfaces_query("ips:ips:alpha", "alpha"));
    assert!(!interfaces_query("ips:ips:ips:alpha", "alpha"));
    assert!(interfaces_query("ips:ips:alpha", "ips:alpha"));
    assert!(interfaces_query("ips:ips", "ips"));
    assert!(interfaces_query("ips:ips:", "ips:"));
}

#[test]
fn interfaces_query_must_begin_with_the_keyword() {
    assert!(!interfaces_query("xips:alpha", "alpha"));
    assert!(!interfaces_query("myips", "myips"));
    assert!(!interfaces_query("alpha", "alpha"));
}

#[test]
fn interfaces_query_never_reaches_a_node_without_a_name() {
    assert!(!interfaces_query("ips:", ""));
    assert!(!interfaces_query("ips:ips:", ""));
    assert!(!interfaces_query("", ""));
}

#[test]
fn shell_command_carries_its_command_line() {
    assert_eq!(shell_command("cmd:alpha:ls -l", "alpha"), Some("ls -l".to_string()));
}

#[test]
fn shell_command_keeps_later_separators() {
    assert_eq!(
        shell_command("cmd:alpha:echo a:b:c", "alpha"),
        Some("echo a:b:c".to_string())
    );
}

#[test]
fn shell_command_loses_leading_separators_of_the_payload() {
    assert_eq!(shell_command("cmd:alpha::ls", "alpha"), Some("ls".to_string()));
    assert_eq!(shell_command("cmd:alpha::::ls:", "alpha"), Some("ls:".to_string()));
}

#[test]
fn shell_command_needs_a_payload() {
    assert_eq!(shell_command("cmd:alpha:", "alpha"), None);
    assert_eq!(shell_command("alpha:", "alpha"), None);
}

#[test]
fn shell_command_made_of_separators_alone_comes_out_empty() {
    assert_eq!(shell_command("cmd:alpha::", "alpha"), Some(String::new()));
    assert_eq!(shell_command("cmd:alpha:::", "alpha"), Some(String::new()));
}

#[test]
fn shell_command_for_another_node_is_none() {
    assert_eq!(shell_command("cmd:beta:ls", "alpha"), None);
    assert_eq!(shell_command("cmd:Alpha:ls", "alpha"), None);
    assert_eq!(shell_command("cmd:alpha :ls", "alpha"), None);
}

#[test]
fn shell_command_needs_a_separator_after_the_address() {
    assert_eq!(shell_command("cmd:alpha", "alpha"), None);
    assert_eq!(shell_command("cmd:", "alpha"), None);
}

#[test]
fn shell_command_needs_an_address() {
    assert_eq!(shell_command("cmd::ls", "alpha"), None);
    assert_eq!(shell_command("cmd::ls", ""), None);
}

#[test]
fn shell_command_drops_the_one_keyword_it_begins_with() {
    assert_eq!(shell_command("cmd:cmd:alpha:ls", "alpha"), None);
    assert_eq!(shell_command("cmd:cmd:ls", "cmd"), Some("ls".to_string()));
    assert_eq!(shell_command("cmd:cmd:cmd:ls", "cmd"), Some("cmd:ls".to_string()));
}

#[test]
fn shell_command_keyword_may_stand_anywhere() {
    assert_eq!(shell_command("alpha:cmd:ls", "alpha"), Some("cmd:ls".to_string()));
    assert_eq!(shell_command("alpha:xcmd:", "alpha"), Some("xcmd:".to_string()));
}

#[test]
fn shell_command_needs_the_keyword_somewhere() {
    assert_eq!(shell_command("alpha:ls", "alpha"), None);
    assert_eq!(shell_command("alpha:cmd", "alpha"), None);
}

#[test]
fn info_mutation_carries_the_new_info() {
    assert_eq!(info_mutation("info:alpha:rack 7", "alpha"), Some("rack 7".to_string()));
}

#[test]
fn info_mutation_keeps_line_feeds_and_later_separators() {
    assert_eq!(
        info_mutation("info:alpha:room: 2\nrack: 7", "alpha"),
        Some("room: 2\nrack: 7".to_string())
    );
}

#[test]
fn info_mutation_loses_leading_separators_of_the_payload() {
    assert_eq!(info_mutation("info:alpha:::x", "alpha"), Some("x".to_string()));
}

#[test]
fn info_mutation_needs_a_payload() {
    assert_eq!(info_mutation("info:alpha:", "alpha"), None);
    assert_eq!(info_mutation("info:alpha::", "alpha"), Some(String::new()));
}

#[test]
fn info_mutation_for_another_node_is_none() {
    assert_eq!(info_mutation("info:beta:x", "alpha"), None);
    assert_eq!(info_mutation("info:alpha", "alpha"), None);
    assert_eq!(info_mutation("info::x", "alpha"), None);
}

#[test]
fn info_mutation_reaches_a_node_called_info() {
    assert_eq!(info_mutation("info:info:x", "info"), Some("x".to_string()));
    assert_eq!(shell_command("cmd:info:x", "info"), Some("x".to_string()));
    assert_eq!(info_mutation("info:info:info:x", "info"), Some("info:x".to_string()));
}

#[test]
fn info_mutation_takes_characters_outside_ascii() {
    assert_eq!(info_mutation("info:节点:描述 é", "节点"), Some("描述 é".to_string()));
}

#[test]
fn classify_finds_each_command_alone() {
    assert_eq!(classify("hello", "alpha"), vec![Command::Discovery]);
    assert_eq!(classify("ips:alpha", "alpha"), vec![Command::Interfaces]);
    assert_eq!(classify("cmd:alpha:uptime", "alpha"), vec![shell("uptime")]);
    assert_eq!(classify("info:alpha:rack 7", "alpha"), vec![set_info("rack 7")]);
}

#[test]
fn classify_finds_nothing_in_other_text() {
    assert_eq!(classify("", "alpha"), vec![]);
    assert_eq!(classify("good morning", "alpha"), vec![]);
    assert_eq!(classify("ips:beta", "alpha"), vec![]);
    assert_eq!(classify("cmd:beta:ls", "alpha"), vec![]);
    assert_eq!(classify("info:beta:x", "alpha"), vec![]);
    assert_eq!(classify("hello alpha", "alpha"), vec![]);
}

#[test]
fn classify_finds_hello_whatever_the_node_is_called() {
    for name in ["", "alpha", "hello", "ips", "cmd", "info", "h:e"] {
        assert_eq!(classify("hello", name), vec![Command::Discovery]);
    }
}

#[test]
fn classify_lists_shell_before_info_when_both_match() {
    assert_eq!(
        classify("alpha:cmd:info:x", "alpha"),
        vec![shell("cmd:info:x"), set_info("cmd:info:x")]
    );
    assert_eq!(
        classify("alpha:info:cmd:", "alpha"),
        vec![shell("info:cmd:"), set_info("info:cmd:")]
    );
}

#[test]
fn classify_keeps_keywords_of_other_commands_in_the_payload() {
    assert_eq!(classify("cmd:alpha:echo info:x", "alpha"), vec![shell("echo info:x")]);
    assert_eq!(classify("info:alpha:see cmd:x", "alpha"), vec![set_info("see cmd:x")]);
    assert_eq!(classify("cmd:alpha:ips", "alpha"), vec![shell("ips")]);
}

#[test]
fn classify_finds_both_for_a_node_named_like_a_keyword() {
    assert_eq!(
        classify("cmd:cmd:echo info:x", "cmd"),
        vec![shell("echo info:x"), set_info("cmd:echo info:x")]
    );
    assert_eq!(
        classify("info:info:see cmd:x", "info"),
        vec![shell("info:see cmd:x"), set_info("see cmd:x")]
    );
    assert_eq!(classify("cmd:cmd:ls", "cmd"), vec![shell("ls")]);
    assert_eq!(classify("info:info:v", "info"), vec![set_info("v")]);
}

#[test]
fn classify_finds_nothing_where_the_payload_is_missing() {
    assert_eq!(classify("cmd:alpha:", "alpha"), vec![]);
    assert_eq!(classify("info:alpha:", "alpha"), vec![]);
    assert_eq!(classify("cmd:cmd:", "cmd"), vec![]);
    assert_eq!(classify("info:info:", "info"), vec![]);
}

#[test]
fn classify_finds_nothing_behind_a_repeated_interfaces_keyword() {
    assert_eq!(classify("ips:ips:alpha", "alpha"), vec![]);
    assert_eq!(classify("ips:ips:x", "ips:x"), vec![Command::Interfaces]);
}

#[test]
fn classify_does_nothing_for_a_node_without_a_name_but_introduce_it() {
    assert_eq!(classify("ips:", ""), vec![]);
    assert_eq!(classify("cmd::ls", ""), vec![]);
    assert_eq!(classify("info::x", ""), vec![]);
    assert_eq!(classify("hello", ""), vec![Command::Discovery]);
}
