use docker_client::error::ClientError;
use docker_client::target::{ConnectionTarget, DEFAULT_HOST};

#[test]
fn default_host_is_local_socket() {
    match ConnectionTarget::resolve(None, None) {
        ConnectionTarget::UnixSocket { path } => assert_eq!(path, "/var/run/docker.sock"),
        other => panic!("unexpected target {:?}", other),
    }
    assert_eq!(DEFAULT_HOST, "unix:///var/run/docker.sock");
}

#[test]
fn unix_host_strips_scheme() {
    match ConnectionTarget::resolve(Some("unix:///tmp/engine.sock"), Some("/certs")) {
        ConnectionTarget::UnixSocket { path } => assert_eq!(path, "/tmp/engine.sock"),
        other => panic!("unexpected target {:?}", other),
    }
}

#[test]
fn tcp_host_without_certificates() {
    match ConnectionTarget::resolve(Some("tcp://10.0.0.1:2375"), None) {
        ConnectionTarget::Tcp { host } => assert_eq!(host, "tcp://10.0.0.1:2375"),
        other => panic!("unexpected target {:?}", other),
    }
}

#[test]
fn tls_host_with_certificates() {
    match ConnectionTarget::resolve(Some("tcp://10.0.0.1:2376"), Some("/home/u/.docker")) {
        ConnectionTarget::Tls { host, cert_dir } => {
            assert_eq!(host, "tcp://10.0.0.1:2376");
            assert_eq!(cert_dir, "/home/u/.docker");
        }
        other => panic!("unexpected target {:?}", other),
    }
}

#[test]
fn cert_files_under_directory() {
    let t = ConnectionTarget::resolve(Some("tcp://h:1"), Some("/c"));
    let files = t.cert_files().unwrap();
    assert_eq!(files.cert, "/c/cert.pem");
    assert_eq!(files.key, "/c/key.pem");
    assert_eq!(files.ca, "/c/ca.pem");
    assert!(ConnectionTarget::resolve(Some("tcp://h:1"), None).cert_files().is_none());
}

#[test]
fn tcp_uri_joins_base_and_path() {
    let t = ConnectionTarget::resolve(Some("http://10.0.0.1:2375"), None);
    let uri = t.uri("/info").unwrap();
    assert_eq!(uri.to_string(), "http://10.0.0.1:2375/info");
    assert_eq!(uri.path(), "/info");
}

#[test]
fn tcp_uri_with_empty_authority_is_uri_error() {
    let t = ConnectionTarget::resolve(Some("tcp://"), None);
    assert_eq!(t.uri("/info").unwrap_err(), ClientError::Uri);
}

#[test]
fn unix_uri_requires_leading_slash() {
    let t = ConnectionTarget::resolve(Some("unix:///s.sock"), None);
    assert_eq!(t.uri("info").unwrap_err(), ClientError::Uri);
    assert_eq!(t.uri("/info").unwrap().path(), "/info");
}

#[test]
fn unix_uri_carries_socket_and_path() {
    let t = ConnectionTarget::resolve(Some("unix:///var/run/docker.sock"), None);
    let path = docker_client::path::inspect_path("a/b c");
    let uri = t.uri(&path).unwrap();
    assert_eq!(uri.path(), "/containers/a%2Fb%20c/json");
    assert_eq!(uri.scheme(), Some("unix"));
    assert_eq!(uri.host(), Some("2f7661722f72756e2f646f636b65722e736f636b"));
    assert_eq!(uri.port(), Some(0));
}
