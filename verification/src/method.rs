//! The keys that name an HTTP method.

use vstd::prelude::*;
use vstd::string::StringSliceAdditionalSpecFns;
use vstd::utf8::encode_utf8_decode_utf8;

verus! {

pub const CONNECT_HTTP_ARGUMENT_GET_METHOD_NAME: &'static str = "get";

pub const CONNECT_HTTP_ARGUMENT_POST_METHOD_NAME: &'static str = "post";

pub const CONNECT_HTTP_ARGUMENT_PUT_METHOD_NAME: &'static str = "put";

pub const CONNECT_HTTP_ARGUMENT_PATCH_METHOD_NAME: &'static str = "patch";

pub const CONNECT_HTTP_ARGUMENT_DELETE_METHOD_NAME: &'static str = "delete";

/// Whether `key` is one of the five keys that name an HTTP method.
pub open spec fn is_method_key(key: Seq<char>) -> bool {
    ||| key == "get"@
    ||| key == "post"@
    ||| key == "put"@
    ||| key == "patch"@
    ||| key == "delete"@
}

/// Whether two strings hold the same characters.
pub fn same_text(left: &str, right: &str) -> (same: bool)
    ensures
        same == (left@ == right@),
{
    let a = left.as_bytes();
    let b = right.as_bytes();
    if a.len() != b.len() {
        return false;
    }
    let mut i: usize = 0;
    while i < a.len()
        invariant
            a@ == left.spec_bytes(),
            b@ == right.spec_bytes(),
            a@.len() == b@.len(),
            i <= a@.len(),
            forall|j: int| 0 <= j < i ==> a@[j] == b@[j],
        decreases a@.len() - i,
    {
        if a[i] != b[i] {
            return false;
        }
        i += 1;
    }
    proof {
        assert(a@ =~= b@);
        encode_utf8_decode_utf8(left@);
        encode_utf8_decode_utf8(right@);
    }
    true
}

/// Whether `key` names an HTTP method.
pub fn is_http_method(key: &str) -> (recognized: bool)
    ensures
        recognized == is_method_key(key@),
{
    same_text(key, CONNECT_HTTP_ARGUMENT_GET_METHOD_NAME)
        || same_text(key, CONNECT_HTTP_ARGUMENT_POST_METHOD_NAME)
        || same_text(key, CONNECT_HTTP_ARGUMENT_PUT_METHOD_NAME)
        || same_text(key, CONNECT_HTTP_ARGUMENT_PATCH_METHOD_NAME)
        || same_text(key, CONNECT_HTTP_ARGUMENT_DELETE_METHOD_NAME)
}

} // verus!
