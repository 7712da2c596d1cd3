use vstd::prelude::*;
use vstd::string::*;

use crate::types::FileDetail;

verus! {

/// Files larger than this many bytes (10 MiB) are not previewed.
pub const PREVIEW_LIMIT: u64 = 10485760;

/// Relies on uuid::Uuid::new_v4 and its `Display`: a random id written as
/// 32 hex digits in five hyphen-separated groups, 36 characters.
#[verifier::external_body]
fn fresh_id() -> (r: String)
    ensures
        r@.len() == 36,
{
    uuid::Uuid::new_v4().to_string()
}

/// What `base64`'s standard engine writes for `data`.
pub uninterp spec fn base64_of(data: Seq<u8>) -> Seq<char>;

/// Relies on base64::engine::general_purpose::STANDARD.encode: the padded
/// standard encoding, four characters for every started group of three bytes.
/// It panics only when that length overflows `usize`, which the bound rules out.
#[verifier::external_body]
fn encode_base64(data: &Vec<u8>) -> (r: String)
    requires
        data@.len() <= PREVIEW_LIMIT,
    ensures
        r@ == base64_of(data@),
        r@.len() == 4 * ((data@.len() + 2) / 3),
{
    base64::Engine::encode(&base64::engine::general_purpose::STANDARD, data)
}

/// Whether `suffix` ends `s`.
pub open spec fn has_suffix(s: Seq<char>, suffix: Seq<char>) -> bool {
    suffix.len() <= s.len() && s.subrange(s.len() - suffix.len(), s.len() as int) == suffix
}

/// Whether `prefix` starts `s`.
pub open spec fn has_prefix(s: Seq<char>, prefix: Seq<char>) -> bool {
    prefix.len() <= s.len() && s.subrange(0, prefix.len() as int) == prefix
}

pub fn ends_with(s: &str, suffix: &str) -> (r: bool)
    ensures
        r == has_suffix(s@, suffix@),
{
    let n = s.unicode_len();
    let m = suffix.unicode_len();
    if m > n {
        false
    } else {
        let tail = String::from_str(s.substring_char(n - m, n));
        let want = String::from_str(suffix);
        tail == want
    }
}

pub fn starts_with(s: &str, prefix: &str) -> (r: bool)
    ensures
        r == has_prefix(s@, prefix@),
{
    let n = s.unicode_len();
    let m = prefix.unicode_len();
    if m > n {
        false
    } else {
        let head = String::from_str(s.substring_char(0, m));
        let want = String::from_str(prefix);
        head == want
    }
}

/// `path` relative to `base`: what follows `base` when `path` starts with
/// it, else `path` itself.
pub open spec fn relative_spec(path: Seq<char>, base: Seq<char>) -> Seq<char> {
    if has_prefix(path, base) {
        path.subrange(base.len() as int, path.len() as int)
    } else {
        path
    }
}

pub fn relative_path(path: &str, base: &str) -> (r: String)
    ensures
        r@ == relative_spec(path@, base@),
{
    if starts_with(path, base) {
        let n = path.unicode_len();
        let m = base.unicode_len();
        String::from_str(path.substring_char(m, n))
    } else {
        String::from_str(path)
    }
}

/// The entry for a file at `path` found under the directory `base`, with a
/// fresh random id.
pub fn file_detail(path: String, base: &str) -> (r: FileDetail)
    ensures
        r.id@.len() == 36,
        r.path@ == path@,
        r.relative_path@ == relative_spec(path@, base@),
        !r.is_dir,
{
    let relative = relative_path(path.as_str(), base);
    FileDetail { id: fresh_id(), path, relative_path: relative, is_dir: false }
}

/// The text after the last `.` of `s` (all of `s` when it holds none): `s`
/// from index `k` on, where `k` follows the last dot or is 0.
pub open spec fn is_last_segment_start(s: Seq<char>, k: int) -> bool {
    &&& 0 <= k <= s.len()
    &&& (k == 0 || s[k - 1] == '.')
    &&& forall|j: int| k <= j < s.len() ==> s[j] != '.'
}

pub fn last_segment(s: &str) -> (r: String)
    ensures
        exists|k: int| is_last_segment_start(s@, k) && r@ == s@.subrange(k, s@.len() as int),
{
    let n = s.unicode_len();
    let mut k: usize = n;
    while k > 0 && s.get_char(k - 1) != '.'
        invariant
            0 <= k <= n,
            n == s@.len(),
            forall|j: int| k <= j < n ==> s@[j] != '.',
        decreases k,
    {
        k = k - 1;
    }
    let r = String::from_str(s.substring_char(k, n));
    assert(is_last_segment_start(s@, k as int));
    r
}

/// How a picked file can be previewed.
#[derive(Debug, Clone, Copy, PartialEq, Eq, Structural)]
pub enum PreviewKind {
    /// A `.txt` file: its first lines.
    Text,
    /// A `.png`, `.jpg` or `.jpeg` file: a base64 data URL.
    Image,
}

/// Why a file is not previewed.
#[derive(Debug, Clone, Copy, PartialEq, Eq, Structural)]
pub enum PreviewError {
    /// Larger than `PREVIEW_LIMIT` bytes.
    TooLarge,
    /// Neither text nor a known image type.
    Unsupported,
}

pub open spec fn preview_spec(path: Seq<char>, size: nat) -> Result<PreviewKind, PreviewError> {
    if size > PREVIEW_LIMIT {
        Err(PreviewError::TooLarge)
    } else if has_suffix(path, ".txt"@) {
        Ok(PreviewKind::Text)
    } else if has_suffix(path, ".png"@) || has_suffix(path, ".jpg"@) || has_suffix(
        path,
        ".jpeg"@,
    ) {
        Ok(PreviewKind::Image)
    } else {
        Err(PreviewError::Unsupported)
    }
}

/// Decides how a file of `size` bytes at `path` is previewed.
pub fn preview_plan(path: &str, size: u64) -> (r: Result<PreviewKind, PreviewError>)
    ensures
        r == preview_spec(path@, size as nat),
{
    if size > PREVIEW_LIMIT {
        Err(PreviewError::TooLarge)
    } else if ends_with(path, ".txt") {
        Ok(PreviewKind::Text)
    } else if ends_with(path, ".png") || ends_with(path, ".jpg") || ends_with(path, ".jpeg") {
        Ok(PreviewKind::Image)
    } else {
        Err(PreviewError::Unsupported)
    }
}

/// The data URL showing image bytes `data` read from `path`: the media type
/// is `image/` followed by the path's last extension.
pub fn image_data_url(path: &str, data: &Vec<u8>) -> (r: String)
    requires
        data@.len() <= PREVIEW_LIMIT,
    ensures
        exists|k: int|
            is_last_segment_start(path@, k) && r@ == "data:image/"@ + path@.subrange(
                k,
                path@.len() as int,
            ) + ";base64,"@ + base64_of(data@),
{
    let ext = last_segment(path);
    let encoded = encode_base64(data);
    let mut s = String::from_str("data:image/");
    s.append(ext.as_str());
    s.append(";base64,");
    s.append(encoded.as_str());
    s
}

} // verus!
