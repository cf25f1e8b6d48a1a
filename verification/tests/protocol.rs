use rquest_tls::protocol::encode_alpn;
use rquest_tls::{AlpnProtocol, HttpVersionPref, TlsInfo, Version};

fn names(pref: HttpVersionPref) -> Vec<&'static str> {
    pref.alpn_protocols().into_iter().map(|p| p.name()).collect()
}

#[test]
fn alpn_list_for_each_preference() {
    assert_eq!(names(HttpVersionPref::Http1), vec!["http/1.1"]);
    assert_eq!(names(HttpVersionPref::Http2), vec!["h2"]);
    assert_eq!(names(HttpVersionPref::All), vec!["h2", "http/1.1"]);
}

#[test]
fn alpn_wire_format_for_each_preference() {
    assert_eq!(HttpVersionPref::Http1.alpn_wire_format(), b"\x08http/1.1".to_vec());
    assert_eq!(HttpVersionPref::Http2.alpn_wire_format(), b"\x02h2".to_vec());
    assert_eq!(HttpVersionPref::All.alpn_wire_format(), b"\x02h2\x08http/1.1".to_vec());
}

#[test]
fn alpn_wire_format_of_any_list() {
    assert_eq!(encode_alpn(&Vec::new()), Vec::<u8>::new());
    assert_eq!(
        encode_alpn(&vec![AlpnProtocol::Http1, AlpnProtocol::Http2, AlpnProtocol::Http1]),
        b"\x08http/1.1\x02h2\x08http/1.1".to_vec()
    );
}

#[test]
fn http2_is_offered_unless_http1_only() {
    assert!(!HttpVersionPref::Http1.allows_http2());
    assert!(HttpVersionPref::Http2.allows_http2());
    assert!(HttpVersionPref::All.allows_http2());
}

#[test]
fn versions_are_four_distinct_constants() {
    let all = [Version::TLS_1_0, Version::TLS_1_1, Version::TLS_1_2, Version::TLS_1_3];
    for (i, a) in all.iter().enumerate() {
        for (j, b) in all.iter().enumerate() {
            assert_eq!(a == b, i == j);
        }
    }
}

#[test]
fn peer_certificate_is_the_captured_der() {
    let info = TlsInfo { peer_certificate: Some(vec![0x30, 0x82, 0x01, 0x0a]) };
    assert_eq!(info.peer_certificate(), Some(&[0x30u8, 0x82, 0x01, 0x0a][..]));
    let empty = TlsInfo { peer_certificate: Some(Vec::new()) };
    assert_eq!(empty.peer_certificate(), Some(&[][..]));
    let none = TlsInfo { peer_certificate: None };
    assert_eq!(none.peer_certificate(), None);
}
