use vulnera_zed::releases::{
    listing_request, version_from_body, version_from_response, ListingRequest, Method,
};

#[test]
fn listing_request_names_the_fixed_endpoint() {
    assert_eq!(
        listing_request(),
        ListingRequest {
            method: Method::Get,
            url: "https://api.github.com/repos/vulnera-rs/adapter/releases".to_string(),
            headers: vec![
                ("User-Agent".to_string(), "vulnera-zed-extension".to_string()),
                ("Accept".to_string(), "application/vnd.github+json".to_string()),
            ],
            body: None,
            follow_redirects: true,
        }
    );
}

#[test]
fn body_with_a_stable_release_gives_its_version() {
    let body = br#"[{"tag_name":"adapter-v0.2.0","prerelease":false,"draft":false}]"#.to_vec();
    assert_eq!(version_from_body(body), Some("0.2.0".to_string()));
}

#[test]
fn body_may_begin_with_white_space() {
    let body = b" \n\t[{\"tag_name\":\"adapter-v0.2.0\"}]".to_vec();
    assert_eq!(version_from_body(body), Some("0.2.0".to_string()));
}

#[test]
fn body_that_is_no_array_gives_none() {
    let body = br#"{"tag_name":"adapter-v0.2.0"}"#.to_vec();
    assert_eq!(version_from_body(body), None);
    let page = b"<html>[{\"tag_name\":\"adapter-v0.2.0\"}]</html>".to_vec();
    assert_eq!(version_from_body(page), None);
    assert_eq!(version_from_body(Vec::new()), None);
    assert_eq!(version_from_body(b"   ".to_vec()), None);
}

#[test]
fn body_that_is_not_utf8_gives_none() {
    let mut body = b"[{\"tag_name\":\"adapter-v0.2.0\"}]".to_vec();
    body.push(0xff);
    assert_eq!(version_from_body(body), None);
}

#[test]
fn body_in_utf8_beyond_ascii_is_decoded() {
    let body = "[{\"body\":\"caf\u{e9}\",\"tag_name\":\"adapter-v0.7.0\"}]".as_bytes().to_vec();
    assert_eq!(version_from_body(body), Some("0.7.0".to_string()));
}

#[test]
fn failed_request_gives_none() {
    assert_eq!(version_from_response(None), None);
}

#[test]
fn answered_request_gives_what_the_body_names() {
    let body = b"[{\"tag_name\":\"adapter-v0.2.0\"}]".to_vec();
    assert_eq!(version_from_response(Some(body)), Some("0.2.0".to_string()));
    assert_eq!(version_from_response(Some(b"[]".to_vec())), None);
}
