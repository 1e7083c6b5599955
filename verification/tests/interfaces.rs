use bee_agent::interfaces::{Interface, InterfaceAddress, InterfaceListing};

fn v4(name: &str, address: &str) -> Interface {
    Interface { name: name.to_string(), address: InterfaceAddress::V4(address.to_string()) }
}

fn v6(name: &str, address: &str) -> Interface {
    Interface { name: name.to_string(), address: InterfaceAddress::V6(address.to_string()) }
}

#[test]
fn address_line_marks_the_family() {
    assert_eq!(InterfaceAddress::V4("10.0.0.1".to_string()).line(), "  IPv4 Address: 10.0.0.1");
    assert_eq!(InterfaceAddress::V6("fe80::1".to_string()).line(), "  IPv6 Address: fe80::1");
}

#[test]
fn lines_give_name_then_address_for_each_interface() {
    let listing = InterfaceListing::Found(vec![
        v4("lo", "127.0.0.1"),
        v6("lo", "::1"),
        v4("eth0", "192.168.1.20"),
    ]);
    assert_eq!(
        listing.lines(),
        vec![
            "Interface: lo",
            "  IPv4 Address: 127.0.0.1",
            "Interface: lo",
            "  IPv6 Address: ::1",
            "Interface: eth0",
            "  IPv4 Address: 192.168.1.20",
        ]
    );
}

#[test]
fn lines_of_an_empty_listing_are_none() {
    assert_eq!(InterfaceListing::Found(vec![]).lines(), Vec::<String>::new());
}

#[test]
fn lines_of_a_failed_listing_are_one_line_with_the_reason() {
    let listing = InterfaceListing::Failed("permission denied".to_string());
    assert_eq!(
        listing.lines(),
        vec!["Error getting interface addresses: permission denied"]
    );
}

#[test]
fn enumerate_reports_two_lines_for_each_interface_it_finds() {
    match InterfaceListing::enumerate() {
        InterfaceListing::Found(interfaces) => {
            let lines = InterfaceListing::Found(interfaces).lines();
            assert_eq!(lines.len() % 2, 0);
            for pair in lines.chunks(2) {
                assert!(pair[0].starts_with("Interface: "));
                assert!(
                    pair[1].starts_with("  IPv4 Address: ")
                        || pair[1].starts_with("  IPv6 Address: ")
                );
            }
        }
        InterfaceListing::Failed(reason) => {
            let lines = InterfaceListing::Failed(reason).lines();
            assert_eq!(lines.len(), 1);
            assert!(lines[0].starts_with("Error getting interface addresses: "));
        }
    }
}

#[test]
fn enumerate_writes_addresses_in_the_notation_of_their_family() {
    if let InterfaceListing::Found(interfaces) = InterfaceListing::enumerate() {
        for interface in interfaces {
            match interface.address {
                InterfaceAddress::V4(text) => {
                    let parts: Vec<&str> = text.split('.').collect();
                    assert_eq!(parts.len(), 4);
                    for part in parts {
                        assert!(part.parse::<u8>().is_ok());
                    }
                }
                InterfaceAddress::V6(text) => {
                    assert!(text.contains(':'));
                    assert!(!text.contains(' '));
                }
            }
        }
    }
}
