use signwriter::endpoint::{check_url_parts, validate, UrlParts};
use signwriter::error::ClientError;

fn parts(scheme: &str, path: &str) -> UrlParts {
    UrlParts { scheme: scheme.to_string(), path: path.to_string() }
}

fn reason(r: Result<(), ClientError>) -> String {
    match r {
        Err(ClientError::InvalidAddress(m)) => m,
        other => panic!("expected InvalidAddress, got {:?}", other),
    }
}

#[test]
fn validate_accepts_http_and_https_roots() {
    assert_eq!(validate("http://localhost:2379/"), Ok(()));
    assert_eq!(validate("https://example.com/"), Ok(()));
    assert_eq!(validate("http://localhost:2379"), Ok(()));
    assert_eq!(validate("HTTP://Example.com/"), Ok(()));
}

#[test]
fn validate_rejects_other_scheme_citing_it() {
    let m = reason(validate("ftp://host/"));
    assert!(m.contains("scheme"));
    assert!(m.contains("'ftp'"));
}

#[test]
fn validate_rejects_sub_path_citing_it() {
    let m = reason(validate("http://host/path"));
    assert!(m.contains("path"));
    assert!(m.contains("'/path'"));
}

#[test]
fn validate_rejects_text_that_is_no_url() {
    let m = reason(validate("localhost:2379"));
    assert!(!m.is_empty());
    let m = reason(validate("not a url"));
    assert!(m.starts_with("not a URL: "));
}

#[test]
fn check_url_parts_exact_reasons() {
    assert_eq!(check_url_parts(&parts("http", "/")), Ok(()));
    assert_eq!(check_url_parts(&parts("https", "/")), Ok(()));
    assert_eq!(
        check_url_parts(&parts("ftp", "/")),
        Err(ClientError::InvalidAddress("unexpected scheme, expected http or https, got 'ftp'".to_string()))
    );
    assert_eq!(
        check_url_parts(&parts("http", "/path")),
        Err(ClientError::InvalidAddress("unexpected path, expected '/', got '/path'".to_string()))
    );
    assert_eq!(
        check_url_parts(&parts("ws", "/x")),
        Err(ClientError::InvalidAddress("unexpected scheme, expected http or https, got 'ws'".to_string()))
    );
}

#[test]
fn error_messages() {
    assert_eq!(ClientError::NotConnected.message(), "Client not connected");
    assert_eq!(ClientError::InvalidAddress("x".to_string()).message(), "Invalid address: x");
    assert_eq!(ClientError::ConnectionError("y".to_string()).message(), "Connection failed: y");
    assert_eq!(ClientError::RpcError("z".to_string()).message(), "Remote call failed: z");
}
