use vstd::prelude::*;
use vstd::string::*;

verus! {

/// The media type `mime_guess` gives a key, from its extension alone.
pub uninterp spec fn guessed_content_type(key: Seq<char>) -> Seq<char>;

/// Relies on mime_guess::from_path(..).first_or_octet_stream(): the first
/// media type known for the key's extension, or `application/octet-stream`;
/// the guess depends on the key alone.
#[verifier::external_body]
fn guess_content_type(key: &str) -> (r: String)
    ensures
        r@ == guessed_content_type(key@),
{
    mime_guess::from_path(key).first_or_octet_stream().to_string()
}

/// A single-shot `PutObject` request.
#[derive(Debug)]
pub struct PutObject {
    pub key: String,
    pub content_type: String,
    pub body: Vec<u8>,
}

/// A `CreateMultipartUpload` request.
#[derive(Debug)]
pub struct CreateSession {
    pub key: String,
    pub content_type: String,
}

/// The request that stores `body` under `key` in one go.
pub fn put_object_request(key: &str, body: Vec<u8>) -> (r: PutObject)
    ensures
        r.key@ == key@,
        r.content_type@ == guessed_content_type(key@),
        r.body@ == body@,
{
    PutObject { key: String::from_str(key), content_type: guess_content_type(key), body }
}

/// The request that stores inline text `content` under `key`: its UTF-8
/// bytes, in one request.
pub fn put_content_request(content: &str, key: &str) -> (r: PutObject)
    ensures
        r.key@ == key@,
        r.content_type@ == guessed_content_type(key@),
        r.body@ == content.spec_bytes(),
{
    put_object_request(key, content.as_bytes_vec())
}

/// The request that opens a multipart session for `key`.
pub fn create_session_request(key: &str) -> (r: CreateSession)
    ensures
        r.key@ == key@,
        r.content_type@ == guessed_content_type(key@),
{
    CreateSession { key: String::from_str(key), content_type: guess_content_type(key) }
}

/// The store's endpoint for an account.
pub open spec fn endpoint_spec(account_id: Seq<char>) -> Seq<char> {
    "https://"@ + account_id + ".r2.cloudflarestorage.com"@
}

pub fn endpoint_url(account_id: &str) -> (r: String)
    ensures
        r@ == endpoint_spec(account_id@),
{
    let mut s = String::from_str("https://");
    s.append(account_id);
    s.append(".r2.cloudflarestorage.com");
    s
}

/// The base of the public URLs of uploaded objects: the configured domain,
/// else the account's endpoint.
pub fn public_base_url(domain: Option<&str>, account_id: &str) -> (r: String)
    ensures
        domain is Some ==> r@ == domain.unwrap()@,
        domain is None ==> r@ == endpoint_spec(account_id@),
{
    match domain {
        Some(d) => String::from_str(d),
        None => endpoint_url(account_id),
    }
}

/// The URL of the object stored under `key`.
pub fn object_url(base: &str, key: &str) -> (r: String)
    ensures
        r@ == base@ + "/"@ + key@,
{
    let mut s = String::from_str(base);
    s.append("/");
    s.append(key);
    s
}

} // verus!
