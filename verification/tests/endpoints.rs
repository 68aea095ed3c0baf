use bendq::endpoint::{build_query_endpoint, is_valid_ipv4, LocalConfig};
use bendq::error::QueryError;

fn plain(host: &str, port: u16) -> LocalConfig {
    LocalConfig {
        host: host.to_string(),
        port,
        tls_key: String::new(),
        tls_cert: String::new(),
    }
}

#[test]
fn url_from_host_and_port() {
    let cfg = plain("127.0.0.1", 8081);
    assert_eq!(build_query_endpoint(&cfg), Ok("http://127.0.0.1:8081/v1/statement".to_string()));
}

#[test]
fn url_uses_the_configured_port() {
    let cfg = plain("10.0.0.2", 65535);
    assert_eq!(build_query_endpoint(&cfg), Ok("http://10.0.0.2:65535/v1/statement".to_string()));
}

#[test]
fn configured_secure_channel_is_not_implemented() {
    let cfg = LocalConfig {
        host: "127.0.0.1".to_string(),
        port: 8081,
        tls_key: "/etc/key.pem".to_string(),
        tls_cert: "/etc/cert.pem".to_string(),
    };
    assert!(matches!(build_query_endpoint(&cfg), Err(QueryError::NotImplemented(_))));
}

#[test]
fn one_empty_tls_path_still_means_plaintext() {
    let mut cfg = plain("127.0.0.1", 8081);
    cfg.tls_key = "/etc/key.pem".to_string();
    assert_eq!(build_query_endpoint(&cfg), Ok("http://127.0.0.1:8081/v1/statement".to_string()));
}

#[test]
fn non_ip_host_cannot_make_an_endpoint() {
    assert!(matches!(
        build_query_endpoint(&plain("localhost", 8081)),
        Err(QueryError::EndpointBuildError(_))
    ));
}

#[test]
fn ipv4_literals() {
    assert!(is_valid_ipv4("0.0.0.0"));
    assert!(is_valid_ipv4("255.255.255.255"));
    assert!(is_valid_ipv4("192.168.0.1"));
    assert!(!is_valid_ipv4("256.0.0.1"));
    assert!(!is_valid_ipv4("01.2.3.4"));
    assert!(!is_valid_ipv4("1.2.3"));
    assert!(!is_valid_ipv4("1.2.3.4.5"));
    assert!(!is_valid_ipv4("1.2.3."));
    assert!(!is_valid_ipv4("a.b.c.d"));
    assert!(!is_valid_ipv4(""));
    assert!(!is_valid_ipv4("1..2.3"));
}
