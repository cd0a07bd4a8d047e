use regex::Regex;
use semver_client::{
    body_lines, body_text, lines, resolve, resolve_url, stable, stable_url, unstable,
    unstable_url, versions, versions_url, ApiError,
};

fn is_semver(input: String) -> bool {
    let r = Regex::new(r"^[v]?[0-9]*\.[0-9]*\.[0-9]*").unwrap();
    r.is_match(input.as_str())
}

fn unreachable_host() -> curl::Error {
    // CURLE_COULDNT_RESOLVE_HOST
    curl::Error::new(6)
}

fn owned(v: &[&str]) -> Vec<String> {
    v.iter().map(|s| s.to_string()).collect()
}

const IOJS_VERSIONS: &str = "1.0.0\n1.0.1\n1.0.2\n1.0.3\n1.0.4\n1.1.0\n1.2.0\n1.3.0\n1.8.4\n2.5.0\n3.3.1\n";

#[test]
fn test_versions() {
    assert_eq!(versions_url("iojs"), "https://semver.io/iojs/versions");
    let list = body_lines(Ok(IOJS_VERSIONS.as_bytes().to_vec())).ok().unwrap();
    assert!(!list.is_empty());
    for version in list.iter() {
        assert!(is_semver(version.to_string()));
    }
}

#[test]
fn test_stable() {
    assert_eq!(stable_url("iojs"), "https://semver.io/iojs/stable");
    assert!(is_semver(body_text(Ok(b"3.3.1".to_vec())).ok().unwrap()));
}

#[test]
fn test_unstable() {
    assert_eq!(unstable_url("iojs"), "https://semver.io/iojs/unstable");
    assert!(is_semver(body_text(Ok(b"3.3.1".to_vec())).ok().unwrap()));
}

#[test]
fn test_resolve() {
    assert_eq!(resolve_url("iojs", "1.x"), "https://semver.io/iojs/resolve/1.x");
    assert!(is_semver(body_text(Ok(b"1.8.4".to_vec())).ok().unwrap()));
}

#[test]
fn iojs_version_list_keeps_order_of_answer() {
    let list = body_lines(Ok(IOJS_VERSIONS.as_bytes().to_vec())).unwrap();
    assert_eq!(list.len(), 11);
    assert_eq!(list[0], "1.0.0");
    assert_eq!(list[5], "1.1.0");
    assert_eq!(list[10], "3.3.1");
}

#[test]
fn arguments_go_into_the_address_verbatim() {
    assert_eq!(versions_url("a b/c"), "https://semver.io/a b/c/versions");
    assert_eq!(resolve_url("node", ">=0.10 <2"), "https://semver.io/node/resolve/>=0.10 <2");
    assert_eq!(stable_url(""), "https://semver.io//stable");
}

#[test]
fn failed_transfer_is_request_failure() {
    assert_eq!(body_text(Err(unreachable_host())), Err(ApiError::RequestFailure));
    assert_eq!(body_lines(Err(unreachable_host())), Err(ApiError::RequestFailure));
    assert_eq!(body_text(Err(curl::Error::new(7))), Err(ApiError::RequestFailure));
}

#[test]
fn invalid_utf8_is_invalid_response() {
    let bad = vec![b'1', b'.', 0xff, 0xfe, b'\n'];
    assert_eq!(body_text(Ok(bad.clone())), Err(ApiError::InvalidResponse));
    assert_eq!(body_lines(Ok(bad)), Err(ApiError::InvalidResponse));
    assert_eq!(body_text(Ok(vec![0xc3])), Err(ApiError::InvalidResponse));
}

#[test]
fn body_text_is_kept_exactly() {
    assert_eq!(body_text(Ok(b"3.3.1\n".to_vec())), Ok("3.3.1\n".to_string()));
    assert_eq!(body_text(Ok(Vec::new())), Ok(String::new()));
    assert_eq!(body_text(Ok("v1.0.0 \u{e9}".as_bytes().to_vec())), Ok("v1.0.0 \u{e9}".to_string()));
}

#[test]
fn same_answer_gives_same_result() {
    let first = body_lines(Ok(IOJS_VERSIONS.as_bytes().to_vec()));
    let second = body_lines(Ok(IOJS_VERSIONS.as_bytes().to_vec()));
    assert_eq!(first, second);
    assert_eq!(body_text(Ok(b"1.8.4".to_vec())), body_text(Ok(b"1.8.4".to_vec())));
}

#[test]
fn lines_of_empty_text() {
    assert_eq!(lines(""), Vec::<String>::new());
    assert_eq!(body_lines(Ok(Vec::new())), Ok(Vec::new()));
}

#[test]
fn lines_final_newline_is_optional() {
    assert_eq!(lines("a\nb\n"), owned(&["a", "b"]));
    assert_eq!(lines("a\nb"), owned(&["a", "b"]));
}

#[test]
fn lines_strip_carriage_return_before_newline_only() {
    assert_eq!(lines("a\r\nb\r\n"), owned(&["a", "b"]));
    assert_eq!(lines("a\r"), owned(&["a\r"]));
    assert_eq!(lines("a\rb\n"), owned(&["a\rb"]));
    assert_eq!(lines("\r\n"), owned(&[""]));
}

#[test]
fn lines_keep_empty_and_spaced_lines() {
    assert_eq!(lines("\n"), owned(&[""]));
    assert_eq!(lines("a\n\nb\n"), owned(&["a", "", "b"]));
    assert_eq!(lines(" 1.0.0 \n"), owned(&[" 1.0.0 "]));
}

#[test]
fn lines_of_multibyte_text() {
    assert_eq!(lines("\u{e9}t\u{e9}\n\u{fc}"), owned(&["\u{e9}t\u{e9}", "\u{fc}"]));
}

#[test]
fn operations_complete_without_panic() {
    // The service may be out of reach from where the tests run; the calls
    // must still return, and a list that comes back holds single lines.
    let _ = stable("iojs".to_string());
    let _ = unstable("iojs".to_string());
    let _ = resolve("iojs".to_string(), "1.x".to_string());
    if let Ok(list) = versions("iojs".to_string()) {
        for version in list.iter() {
            assert!(!version.contains('\n'));
        }
    }
}
