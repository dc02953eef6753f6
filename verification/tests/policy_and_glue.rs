use p2p_chat::endpoint::{TargetError, resolve_target};
use p2p_chat::identity::provision_identity;
use p2p_chat::ipinfo::{IpTextError, ServiceFormat, extract_address};
use p2p_chat::policy::{
    accept_handshake_signature, accept_server_certificate, alpn_protocol, may_accept_connection,
    offered_schemes, subject_name,
};
use p2p_chat::text::{contains_ascii_digit, line_is_blank, trim_line};

#[test]
fn every_certificate_accepted() {
    // Arbitrary garbage, an empty certificate, a mismatched name: all accepted.
    assert!(accept_server_certificate(&[0x30, 0x82, 0x01, 0x00], "localhost"));
    assert!(accept_server_certificate(&[], "no-such-host.example"));
    assert!(accept_server_certificate(&[0xFFu8; 64], ""));
}

#[test]
fn every_signature_accepted() {
    assert!(accept_handshake_signature(b"handshake transcript", b"not a real signature"));
    assert!(accept_handshake_signature(&[], &[]));
}

#[test]
fn offered_schemes_are_the_thirteen_common_ones() {
    let expected: Vec<u16> = vec![
        0x0201, 0x0203, 0x0401, 0x0403, 0x0501, 0x0503, 0x0601, 0x0603, 0x0804, 0x0805, 0x0806,
        0x0807, 0x0808,
    ];
    assert_eq!(offered_schemes(), expected);
}

#[test]
fn alpn_protocol_is_http11() {
    assert_eq!(alpn_protocol(), b"http/1.1".to_vec());
}

#[test]
fn subject_name_is_localhost() {
    assert_eq!(subject_name(), "localhost");
}

#[test]
fn only_first_connection_accepted() {
    assert!(may_accept_connection(0));
    assert!(!may_accept_connection(1));
    assert!(!may_accept_connection(7));
}

#[test]
fn target_with_explicit_port() {
    let ep = resolve_target("wss://127.0.0.1:9001").unwrap();
    assert_eq!(ep.host, "127.0.0.1");
    assert_eq!(ep.port, 9001);
}

#[test]
fn target_without_port_gets_default() {
    let ep = resolve_target("wss://chat.example.org").unwrap();
    assert_eq!(ep.host, "chat.example.org");
    assert_eq!(ep.port, 8080);
}

#[test]
fn malformed_target_rejected() {
    assert_eq!(resolve_target("not a uri at all").unwrap_err(), TargetError::InvalidUri);
}

#[test]
fn hostless_target_rejected() {
    assert_eq!(resolve_target("data:text/plain,hello").unwrap_err(), TargetError::MissingHost);
}

#[test]
fn plain_text_address_extracted_and_trimmed() {
    let ip = extract_address(ServiceFormat::PlainText, " 203.0.113.7\n").unwrap();
    assert_eq!(ip, "203.0.113.7");
}

#[test]
fn plain_text_without_digit_rejected() {
    assert_eq!(
        extract_address(ServiceFormat::PlainText, "no address here").unwrap_err(),
        IpTextError::NotAnAddress
    );
}

#[test]
fn empty_plain_text_rejected() {
    assert_eq!(
        extract_address(ServiceFormat::PlainText, "  \n").unwrap_err(),
        IpTextError::NotAnAddress
    );
}

#[test]
fn json_origin_extracted() {
    let ip = extract_address(ServiceFormat::JsonOrigin, "{\"origin\": \"198.51.100.4\"}").unwrap();
    assert_eq!(ip, "198.51.100.4");
}

#[test]
fn malformed_json_rejected() {
    assert_eq!(
        extract_address(ServiceFormat::JsonOrigin, "not json").unwrap_err(),
        IpTextError::MalformedJson
    );
}

#[test]
fn json_without_origin_rejected() {
    assert_eq!(
        extract_address(ServiceFormat::JsonOrigin, "{\"ip\": \"198.51.100.4\"}").unwrap_err(),
        IpTextError::NotAnAddress
    );
}

#[test]
fn json_with_empty_origin_rejected() {
    assert_eq!(
        extract_address(ServiceFormat::JsonOrigin, "{\"origin\": \"\"}").unwrap_err(),
        IpTextError::NotAnAddress
    );
}

#[test]
fn identity_provisioned_fresh() {
    let id = provision_identity().expect("identity generation should succeed");
    assert!(!id.cert_der.is_empty());
    assert!(!id.key_der.is_empty());
    // A second identity is freshly generated, not replayed.
    let other = provision_identity().expect("identity generation should succeed");
    assert_ne!(id.cert_der, other.cert_der);
}

#[test]
fn blank_line_detection() {
    assert!(line_is_blank(""));
    assert!(line_is_blank(" \t\r\n"));
    assert!(line_is_blank("\u{2000}\u{200A}\u{202F}"));
    assert!(!line_is_blank(" x "));
    assert!(!line_is_blank("\u{200B}")); // zero-width space is not whitespace
}

#[test]
fn trimming() {
    assert_eq!(trim_line("  hello world \t"), "hello world");
    assert_eq!(trim_line("solid"), "solid");
    assert_eq!(trim_line("   "), "");
    assert_eq!(trim_line("\u{3000}middle\u{3000}"), "middle");
}

#[test]
fn digit_scan() {
    assert!(contains_ascii_digit("10.0.0.1"));
    assert!(!contains_ascii_digit("no digits"));
    assert!(!contains_ascii_digit(""));
    assert!(!contains_ascii_digit("\u{0660}")); // Arabic-Indic digit is not ASCII
}

#[test]
fn one_connection_granted_over_many_attempts() {
    // Five connection attempts arrive over one run; an accept loop that
    // consults the policy before every accept grants only the first, and
    // never examines a later attempt.
    let mut granted: u64 = 0;
    for _ in 0..5 {
        if may_accept_connection(granted) {
            granted += 1;
        }
    }
    assert_eq!(granted, 1);
}
