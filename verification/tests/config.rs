use bee_agent::config::Config;

#[test]
fn new_keeps_the_four_texts() {
    let config = Config::new("4000", "4001", "alpha", "a node");
    assert_eq!(config.listen_port, "4000");
    assert_eq!(config.broadcast_port, "4001");
    assert_eq!(config.node_name, "alpha");
    assert_eq!(config.info, "a node");
}

#[test]
fn bind_address_joins_any_host_and_listen_port() {
    let config = Config::new("4000", "4001", "alpha", "a node");
    assert_eq!(config.bind_address(), "0.0.0.0:4000");
}

#[test]
fn broadcast_address_joins_limited_broadcast_and_broadcast_port() {
    let config = Config::new("4000", "4001", "alpha", "a node");
    assert_eq!(config.broadcast_address(), "255.255.255.255:4001");
}

#[test]
fn addresses_take_the_ports_as_they_are_written() {
    let config = Config::new("", "port", "alpha", "");
    assert_eq!(config.bind_address(), "0.0.0.0:");
    assert_eq!(config.broadcast_address(), "255.255.255.255:port");
}

#[test]
fn set_info_changes_the_info_and_nothing_else() {
    let mut config = Config::new("4000", "4001", "alpha", "a node");
    config.set_info("rack 7\nrow 2".to_string());
    assert_eq!(config, Config::new("4000", "4001", "alpha", "rack 7\nrow 2"));
}

#[test]
fn clone_is_equal_to_what_was_cloned() {
    let config = Config::new("4000", "4001", "alpha", "a node");
    assert_eq!(config.clone(), config);
}

#[test]
fn addressable_means_the_name_is_not_empty() {
    assert!(Config::new("1", "2", "alpha", "").addressable());
    assert!(Config::new("1", "2", " ", "").addressable());
    assert!(!Config::new("1", "2", "", "x").addressable());
}
