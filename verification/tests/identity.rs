use bee_agent::identity::{labelled_line, SystemIdentity};

fn some(text: &str) -> Option<String> {
    Some(text.to_string())
}

#[test]
fn labelled_line_joins_label_and_value() {
    assert_eq!(labelled_line("系统名称: ", &some("Ubuntu")), "系统名称: Ubuntu");
    assert_eq!(labelled_line("x=", &some("")), "x=");
}

#[test]
fn labelled_line_says_unknown_where_there_is_no_value() {
    assert_eq!(labelled_line("系统主机名: ", &None), "系统主机名: Unknown");
}

#[test]
fn introduce_gives_the_seven_lines_in_order() {
    let identity = SystemIdentity {
        os_name: some("Ubuntu"),
        kernel_version: some("6.8.0-48-generic"),
        os_version: some("24.04"),
        host_name: some("box"),
    };
    assert_eq!(
        identity.introduce("alpha", "rack 7"),
        vec![
            "bee:",
            "名称: alpha",
            "描述: rack 7",
            "系统名称: Ubuntu",
            "系统内核版本: 6.8.0-48-generic",
            "系统操作系统版本: 24.04",
            "系统主机名: box",
        ]
    );
}

#[test]
fn introduce_falls_back_to_unknown_for_each_missing_string() {
    let identity =
        SystemIdentity { os_name: None, kernel_version: None, os_version: None, host_name: None };
    assert_eq!(
        identity.introduce("", ""),
        vec![
            "bee:",
            "名称: ",
            "描述: ",
            "系统名称: Unknown",
            "系统内核版本: Unknown",
            "系统操作系统版本: Unknown",
            "系统主机名: Unknown",
        ]
    );
}

#[test]
fn introduce_falls_back_only_where_a_string_is_missing() {
    let identity = SystemIdentity {
        os_name: None,
        kernel_version: some("6.1"),
        os_version: None,
        host_name: some("h"),
    };
    let lines = identity.introduce("n", "i");
    assert_eq!(lines[3], "系统名称: Unknown");
    assert_eq!(lines[4], "系统内核版本: 6.1");
    assert_eq!(lines[5], "系统操作系统版本: Unknown");
    assert_eq!(lines[6], "系统主机名: h");
}

#[test]
fn probe_gives_an_identity_that_introduces_in_seven_lines() {
    let identity = SystemIdentity::probe();
    let lines = identity.introduce("alpha", "info");
    assert_eq!(lines.len(), 7);
    assert_eq!(lines[0], "bee:");
    assert!(lines[3].starts_with("系统名称: "));
    assert!(lines[3].len() > "系统名称: ".len());
}
