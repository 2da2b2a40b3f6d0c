use rustberry_poe_monitor::interfaces::collect_interface_ips;

fn address(interface: &str, ip: &str, octets: [u8; 4]) -> (String, String, [u8; 4]) {
    (interface.to_string(), ip.to_string(), octets)
}

fn stand_in() -> Vec<(String, String, [u8; 4])> {
    vec![address("NoInterface", "0.0.0.0", [0, 0, 0, 0])]
}

const LISTING: &str = "1: lo: <LOOPBACK,UP,LOWER_UP> mtu 65536 qdisc noqueue state UNKNOWN group default qlen 1000
    link/loopback 00:00:00:00:00:00 brd 00:00:00:00:00:00
    inet 127.0.0.1/8 scope host lo
       valid_lft forever preferred_lft forever
    inet6 ::1/128 scope host
       valid_lft forever preferred_lft forever
2: eth0: <BROADCAST,MULTICAST,UP,LOWER_UP> mtu 1500 qdisc mq state UP group default qlen 1000
    link/ether dc:a6:32:01:02:03 brd ff:ff:ff:ff:ff:ff
    inet 192.168.0.17/24 brd 192.168.0.255 scope global dynamic noprefixroute eth0
       valid_lft 85000sec preferred_lft 74000sec
    inet6 fe80::dea6:32ff:fe01:203/64 scope link
       valid_lft forever preferred_lft forever
3: wlan0: <BROADCAST,MULTICAST,UP,LOWER_UP> mtu 1500 qdisc pfifo_fast state UP group default qlen 1000
    link/ether dc:a6:32:01:02:04 brd ff:ff:ff:ff:ff:ff
    inet 10.0.0.5/24 brd 10.0.0.255 scope global wlan0
4: eth0.99@eth0: <BROADCAST,MULTICAST,UP,LOWER_UP> mtu 1500 qdisc noqueue state UP group default qlen 1000
    link/ether dc:a6:32:01:02:03 brd ff:ff:ff:ff:ff:ff
    inet 10.0.99.2/24 brd 10.0.99.255 scope global eth0.99
       valid_lft forever preferred_lft forever
";

#[test]
fn wired_addresses_are_collected_in_order() {
    assert_eq!(
        collect_interface_ips(Some(LISTING)),
        vec![
            address("eth0", "192.168.0.17", [192, 168, 0, 17]),
            address("eth0.99", "10.0.99.2", [10, 0, 99, 2]),
        ]
    );
}

#[test]
fn no_listing_gives_the_stand_in() {
    assert_eq!(collect_interface_ips(None), stand_in());
    assert_eq!(collect_interface_ips(Some("")), stand_in());
    assert_eq!(collect_interface_ips(Some("\n\n")), stand_in());
}

#[test]
fn other_interfaces_do_not_count() {
    let listing = "1: lo: <LOOPBACK>\n    inet 127.0.0.1/8 scope host lo\n2: wlan0: <UP>\n    inet 10.0.0.5/24\n";
    assert_eq!(collect_interface_ips(Some(listing)), stand_in());
    let before_any_header = "    inet 10.0.0.5/24\n";
    assert_eq!(collect_interface_ips(Some(before_any_header)), stand_in());
}

#[test]
fn carriage_returns_end_a_line_too() {
    let listing = "2: eth0: <UP>\r\n    inet 192.168.0.17/24\r\n";
    assert_eq!(collect_interface_ips(Some(listing)), vec![address("eth0", "192.168.0.17", [192, 168, 0, 17])]);
    let no_line_end = "2: eth0\r\n    inet 1.2.3.4/8";
    assert_eq!(collect_interface_ips(Some(no_line_end)), vec![address("eth0", "1.2.3.4", [1, 2, 3, 4])]);
    let name_at_the_end = "2: eth0:\n\tinet\t1.2.3.4/8";
    assert_eq!(collect_interface_ips(Some(name_at_the_end)), stand_in());
    let tabs = "2: eth0:\n\tinet \t1.2.3.4/8";
    assert_eq!(collect_interface_ips(Some(tabs)), vec![address("eth0", "1.2.3.4", [1, 2, 3, 4])]);
}

#[test]
fn the_name_ends_at_a_blank_a_colon_or_an_at() {
    let listing = "7: eth0.5@eth0::: <UP>\n inet 1.2.3.4/8\n8: eth01 rest: x\n inet 5.6.7.8/8\n";
    assert_eq!(
        collect_interface_ips(Some(listing)),
        vec![address("eth0.5", "1.2.3.4", [1, 2, 3, 4]), address("eth01", "5.6.7.8", [5, 6, 7, 8])]
    );
}

#[test]
fn a_header_without_a_name_keeps_the_interface() {
    let listing = "2: eth0: <UP>\n3:wlan0\n inet 1.2.3.4/8\n";
    assert_eq!(collect_interface_ips(Some(listing)), vec![address("eth0", "1.2.3.4", [1, 2, 3, 4])]);
}

#[test]
fn fields_that_are_no_octets_count_as_zero() {
    let listing = "2: eth0: <UP>\n inet 300.01.+7.x/8\n inet 256.255.-1./8\n inet 1.2.3.0000000000000000000009/8\n";
    assert_eq!(
        collect_interface_ips(Some(listing)),
        vec![
            address("eth0", "300.01.+7.x", [0, 1, 7, 0]),
            address("eth0", "256.255.-1.", [0, 255, 0, 0]),
            address("eth0", "1.2.3.0000000000000000000009", [1, 2, 3, 9]),
        ]
    );
}

#[test]
fn an_address_has_four_fields() {
    let listing = "2: eth0: <UP>\n inet 1.2.3/8\n inet 1.2.3.4.5/8\n inet /8\n inet 1.2.3.4\n inet 9.8.7.6/\n";
    assert_eq!(collect_interface_ips(Some(listing)), vec![address("eth0", "9.8.7.6", [9, 8, 7, 6])]);
}

#[test]
fn the_first_slash_of_the_line_counts() {
    let listing = "2: eth0: <UP>\n inet brd/x 1.2.3.4/8\n a.b.c.d/e inet \n";
    assert_eq!(collect_interface_ips(Some(listing)), vec![address("eth0", "a.b.c.d", [0, 0, 0, 0])]);
}
