use connect_validation::method::is_http_method;
use connect_validation::method::same_text;
use connect_validation::method::CONNECT_HTTP_ARGUMENT_DELETE_METHOD_NAME;
use connect_validation::method::CONNECT_HTTP_ARGUMENT_GET_METHOD_NAME;
use connect_validation::method::CONNECT_HTTP_ARGUMENT_PATCH_METHOD_NAME;
use connect_validation::method::CONNECT_HTTP_ARGUMENT_POST_METHOD_NAME;
use connect_validation::method::CONNECT_HTTP_ARGUMENT_PUT_METHOD_NAME;

#[test]
fn the_five_method_keys_are_recognized() {
    assert!(is_http_method("get"));
    assert!(is_http_method("post"));
    assert!(is_http_method("put"));
    assert!(is_http_method("patch"));
    assert!(is_http_method("delete"));
    assert!(is_http_method(CONNECT_HTTP_ARGUMENT_GET_METHOD_NAME));
    assert!(is_http_method(CONNECT_HTTP_ARGUMENT_POST_METHOD_NAME));
    assert!(is_http_method(CONNECT_HTTP_ARGUMENT_PUT_METHOD_NAME));
    assert!(is_http_method(CONNECT_HTTP_ARGUMENT_PATCH_METHOD_NAME));
    assert!(is_http_method(CONNECT_HTTP_ARGUMENT_DELETE_METHOD_NAME));
}

#[test]
fn other_keys_are_not_recognized() {
    for key in ["", "foo", "headers", "body", "head", "options", "ge", "gets", "GET", "Get", "pos", "putt", " get", "délete"] {
        assert!(!is_http_method(key), "{}", key);
    }
}

#[test]
fn same_text_compares_every_character() {
    assert!(same_text("", ""));
    assert!(same_text("patch", "patch"));
    assert!(same_text("naïve", "naïve"));
    assert!(!same_text("patch", "patcH"));
    assert!(!same_text("patch", "match"));
    assert!(!same_text("put", "puts"));
    assert!(!same_text("puts", "put"));
    assert!(!same_text("", "a"));
}
