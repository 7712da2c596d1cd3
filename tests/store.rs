use r2_uploader::store::{
    create_session_request, endpoint_url, object_url, public_base_url, put_object_request,
};

#[test]
fn content_types_follow_extension() {
    assert_eq!(put_object_request("a.txt", vec![]).content_type, "text/plain");
    assert_eq!(put_object_request("pics/b.png", vec![1]).content_type, "image/png");
    assert_eq!(
        put_object_request("noext", vec![]).content_type,
        "application/octet-stream"
    );
    let s = create_session_request("big.zip");
    assert_eq!(s.key, "big.zip");
    assert_eq!(s.content_type, "application/zip");
}

#[test]
fn put_request_keeps_body() {
    let r = put_object_request("k.bin", vec![0, 1, 2]);
    assert_eq!(r.key, "k.bin");
    assert_eq!(r.body, vec![0, 1, 2]);
}

#[test]
fn endpoint_and_urls() {
    assert_eq!(endpoint_url("acc"), "https://acc.r2.cloudflarestorage.com");
    assert_eq!(
        public_base_url(None, "acc"),
        "https://acc.r2.cloudflarestorage.com"
    );
    assert_eq!(
        public_base_url(Some("https://cdn.example.com"), "acc"),
        "https://cdn.example.com"
    );
    assert_eq!(
        object_url("https://cdn.example.com", "dir/a.txt"),
        "https://cdn.example.com/dir/a.txt"
    );
}
