use memcache::parsed_url::ParsedUrl;
use memcache::transport::Transport;

#[test]
fn test_transport_url() {
    match Transport::from_url(&ParsedUrl::parse("memcache:///tmp/memcached.sock").unwrap()).unwrap() {
        Transport::Unix => (),
        _ => assert!(false, "transport is not unix"),
    }
}
