use easy_expose::rule::{check_identifier, generate, u16_to_string, ForwardingSpec, Ipv4Target, L4Mode};

fn spec_for(identifier: &str, mode: L4Mode, remote_port: u16, local: Ipv4Target) -> ForwardingSpec {
    ForwardingSpec::new(String::from(identifier), mode, remote_port, local)
        .expect("identifier should be accepted")
}

fn test_local() -> Ipv4Target {
    Ipv4Target { a: 100, b: 82, c: 95, d: 116, port: 9912 }
}

#[test]
fn generate_is_pure() {
    let f1 = spec_for("test_redir", L4Mode::Tcp, 9912, test_local());
    let f2 = spec_for("test_redir", L4Mode::Tcp, 9912, test_local());
    let r1 = generate(&f1);
    let r2 = generate(&f1);
    let r3 = generate(&f2);
    assert_eq!(r1.as_bytes(), r2.as_bytes());
    assert_eq!(r1.as_bytes(), r3.as_bytes());
}

#[test]
fn match_keyword_is_lowercase_protocol_name() {
    let udp = spec_for("n1", L4Mode::Udp, 53, test_local());
    let tcp = spec_for("n1", L4Mode::Tcp, 53, test_local());
    assert_eq!(L4Mode::Udp.name(), "udp");
    assert_eq!(L4Mode::Tcp.name(), "tcp");
    assert!(generate(&udp).contains("udp dport 53"));
    assert!(generate(&tcp).contains("tcp dport 53"));
    assert!(!generate(&udp).contains("tcp dport"));
    assert!(!generate(&tcp).contains("udp dport"));
}

#[test]
fn end_to_end_generated_text() {
    let f = spec_for("test_redir", L4Mode::Tcp, 9912, test_local());
    let text = generate(&f);
    assert!(text.contains("tcp dport 9912 dnat to 100.82.95.116:9912"));
    assert!(text.contains("test_redir"));
    let expected = "\ntable ip test_redir\ndelete table test_redir\ntable ip test_redir {\n        chain prerouting {\n                type nat hook prerouting priority dstnat; policy accept;\n                tcp dport 9912 dnat to 100.82.95.116:9912\n        }\n\n        chain postrouting {\n                type nat hook postrouting priority srcnat; policy accept;\n                masquerade\n        }\n}\n";
    assert_eq!(text, expected);
}

#[test]
fn table_is_deleted_then_redefined() {
    let f = spec_for("redir-2", L4Mode::Udp, 19132, test_local());
    let text = generate(&f);
    let delete_at = text.find("delete table redir-2").expect("delete statement present");
    let redefine_at = text.rfind("table ip redir-2 {").expect("table definition present");
    assert!(delete_at < redefine_at);
}

#[test]
fn structural_identifiers_are_rejected() {
    assert!(check_identifier("test_redir"));
    assert!(check_identifier("A-1_b"));
    assert!(!check_identifier(""));
    assert!(!check_identifier("two words"));
    assert!(!check_identifier("a;b"));
    assert!(!check_identifier("x\nflush ruleset"));
    assert!(ForwardingSpec::new(String::from("ok_name-1"), L4Mode::Tcp, 1, test_local()).is_some());
    assert!(ForwardingSpec::new(String::from("bad name"), L4Mode::Tcp, 1, test_local()).is_none());
    assert!(ForwardingSpec::new(String::new(), L4Mode::Tcp, 1, test_local()).is_none());
}

#[test]
fn decimal_rendering_is_exact() {
    assert_eq!(u16_to_string(0), "0");
    assert_eq!(u16_to_string(7), "7");
    assert_eq!(u16_to_string(10), "10");
    assert_eq!(u16_to_string(9912), "9912");
    assert_eq!(u16_to_string(u16::MAX), "65535");
}

#[test]
fn local_target_rendering_is_exact() {
    assert_eq!(test_local().format(), "100.82.95.116:9912");
    let t = Ipv4Target { a: 0, b: 0, c: 0, d: 0, port: 0 };
    assert_eq!(t.format(), "0.0.0.0:0");
    let m = Ipv4Target { a: 255, b: 255, c: 255, d: 255, port: 65535 };
    assert_eq!(m.format(), "255.255.255.255:65535");
}
