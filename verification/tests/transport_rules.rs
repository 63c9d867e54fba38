use memcache::error::MemcacheError;
use memcache::options::{validate_key_cert_paths, VerifyMode};
use memcache::parsed_url::ParsedUrl;
use memcache::transport::{split_once_plus, Transport};

fn transport(url: &str) -> Result<Transport, MemcacheError> {
    Transport::from_url(&ParsedUrl::parse(url).unwrap())
}

fn bad_url_message(res: Result<Transport, MemcacheError>) -> String {
    match res {
        Err(MemcacheError::BadURL(m)) => m,
        Err(e) => panic!("unexpected error {:?}", e),
        Ok(_) => panic!("URL was accepted"),
    }
}

#[test]
fn plain_scheme_with_host_is_tcp() {
    match transport("memcache://localhost:11211").unwrap() {
        Transport::Tcp(o) => {
            assert!(o.nodelay);
            assert_eq!(o.timeout, None);
        }
        _ => panic!("expected tcp"),
    }
}

#[test]
fn udp_flag_without_kind_gives_udp() {
    match transport("memcache://localhost:11211?udp=true&bind=127.0.0.1:0").unwrap() {
        Transport::Udp(o) => assert_eq!(o.bind_addr, Some("127.0.0.1:0".to_string())),
        _ => panic!("expected udp"),
    }
}

#[test]
fn udp_flag_must_be_true() {
    assert!(matches!(transport("memcache://localhost:11211?udp=yes").unwrap(), Transport::Tcp(_)));
}

#[test]
fn scheme_kind_beats_udp_flag() {
    assert!(matches!(transport("memcache+tcp://localhost:11211?udp=true").unwrap(), Transport::Tcp(_)));
    assert!(matches!(transport("memcache+udp://localhost:11211").unwrap(), Transport::Udp(_)));
    assert!(matches!(transport("memcache+unix://localhost:11211").unwrap(), Transport::Unix));
}

#[test]
fn scheme_must_start_with_memcache() {
    assert_eq!(
        bad_url_message(transport("redis://localhost:6379")),
        "memcache URL's scheme should start with 'memcache'"
    );
    assert_eq!(
        bad_url_message(transport("memcached://localhost:11211")),
        "memcache URL's scheme should start with 'memcache'"
    );
}

#[test]
fn unknown_scheme_kind_is_refused() {
    assert_eq!(
        bad_url_message(transport("memcache+quic://localhost:11211")),
        "memcache URL's scheme should be 'memcache+tcp' or 'memcache+udp' or 'memcache+unix' or 'memcache+tls'"
    );
}

#[test]
fn tcp_options_from_query() {
    match transport("memcache://h:1?tcp_nodelay=false&timeout=2.5&timeout=9").unwrap() {
        Transport::Tcp(o) => {
            assert!(!o.nodelay);
            assert_eq!(o.timeout, Some("2.5".to_string()));
        }
        _ => panic!("expected tcp"),
    }
    match transport("memcache://h:1?tcp_nodelay=true").unwrap() {
        Transport::Tcp(o) => assert!(o.nodelay),
        _ => panic!("expected tcp"),
    }
}

#[test]
fn tls_options_from_query() {
    match transport("memcache+tls://h:1?verify_mode=none&ca_path=%2Ftmp%2Fca.pem&timeout=3").unwrap() {
        Transport::Tls(o) => {
            assert_eq!(o.verify_mode, VerifyMode::NoVerify);
            assert_eq!(o.ca_path, Some("/tmp/ca.pem".to_string()));
            assert_eq!(o.key_path, None);
            assert_eq!(o.cert_path, None);
            assert_eq!(o.tcp_options.timeout, Some("3".to_string()));
            assert!(o.tcp_options.nodelay);
        }
        _ => panic!("expected tls"),
    }
    match transport("memcache+tls://h:1?key_path=k.pem&cert_path=c.pem").unwrap() {
        Transport::Tls(o) => {
            assert_eq!(o.verify_mode, VerifyMode::Peer);
            assert_eq!(o.key_path, Some("k.pem".to_string()));
            assert_eq!(o.cert_path, Some("c.pem".to_string()));
        }
        _ => panic!("expected tls"),
    }
    match transport("memcache+tls://h:1?verify_mode=peer").unwrap() {
        Transport::Tls(o) => assert_eq!(o.verify_mode, VerifyMode::Peer),
        _ => panic!("expected tls"),
    }
}

#[test]
fn tls_option_errors() {
    assert_eq!(
        bad_url_message(transport("memcache+tls://h:1?verify_mode=maybe")),
        "unknown verify_mode, expected 'none' or 'peer'"
    );
    assert_eq!(
        bad_url_message(transport("memcache+tls://h:1?key_path=k.pem")),
        "cert_path must be specified when key_path is specified"
    );
    assert_eq!(
        bad_url_message(transport("memcache+tls://h:1?cert_path=c.pem")),
        "key_path must be specified when cert_path is specified"
    );
    // the verify mode is checked before the key and certificate
    assert_eq!(
        bad_url_message(transport("memcache+tls://h:1?cert_path=c.pem&verify_mode=x")),
        "unknown verify_mode, expected 'none' or 'peer'"
    );
}

#[test]
fn key_and_cert_paths_go_together() {
    let some = |s: &str| Some(s.to_string());
    assert!(validate_key_cert_paths(&None, &None).is_ok());
    assert!(validate_key_cert_paths(&some("k"), &some("c")).is_ok());
    match validate_key_cert_paths(&some("k"), &None) {
        Err(MemcacheError::BadURL(m)) => assert_eq!(m, "cert_path must be specified when key_path is specified"),
        _ => panic!("expected an error"),
    }
    match validate_key_cert_paths(&None, &some("c")) {
        Err(MemcacheError::BadURL(m)) => assert_eq!(m, "key_path must be specified when cert_path is specified"),
        _ => panic!("expected an error"),
    }
}

#[test]
fn scheme_is_cut_at_first_plus() {
    assert_eq!(split_once_plus("memcache+tls"), ("memcache".to_string(), Some("tls".to_string())));
    assert_eq!(split_once_plus("a+b+c"), ("a".to_string(), Some("b+c".to_string())));
    assert_eq!(split_once_plus("memcache+"), ("memcache".to_string(), Some(String::new())));
    assert_eq!(split_once_plus("memcache"), ("memcache".to_string(), None));
}

#[test]
fn scheme_with_empty_kind_is_refused() {
    let url = ParsedUrl {
        serialization: "memcache+:x".to_string(),
        scheme: "memcache+".to_string(),
        has_authority: false,
        username: String::new(),
        password: None,
        host: None,
        port: None,
        path: "x".to_string(),
        query_pairs: Vec::new(),
    };
    assert!(matches!(Transport::from_url(&url), Err(MemcacheError::BadURL(_))));
}
