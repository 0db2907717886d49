use atranscoder::api_key::{api_key_middleware, API_KEY_HEADER};

fn keys(list: &[&str]) -> Vec<String> {
    list.iter().map(|k| k.to_string()).collect()
}

#[test]
fn api_key_header_is_x_api_key() {
    assert_eq!(API_KEY_HEADER, "x-api-key");
}

#[test]
fn no_configured_keys_lets_every_request_through() {
    assert_eq!(api_key_middleware(&keys(&[]), None), Ok(()));
    assert_eq!(api_key_middleware(&keys(&[]), Some("anything")), Ok(()));
}

#[test]
fn request_without_key_is_unauthorized() {
    assert_eq!(api_key_middleware(&keys(&["secret"]), None), Err(401));
}

#[test]
fn request_with_matching_key_is_let_through() {
    assert_eq!(api_key_middleware(&keys(&["secret"]), Some("secret")), Ok(()));
    assert_eq!(api_key_middleware(&keys(&["a", "b", "c"]), Some("c")), Ok(()));
}

#[test]
fn request_with_wrong_key_is_unauthorized() {
    assert_eq!(api_key_middleware(&keys(&["secret"]), Some("Secret")), Err(401));
    assert_eq!(api_key_middleware(&keys(&["secret"]), Some("secret ")), Err(401));
    assert_eq!(api_key_middleware(&keys(&["secret"]), Some("")), Err(401));
    assert_eq!(api_key_middleware(&keys(&["a", "b"]), Some("ab")), Err(401));
}
