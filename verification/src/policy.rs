//! Download policy: from a response's declared content type, decide whether
//! the fetched content may be persisted. The decision is a pure function of
//! the content-type string and the unsafe-mode flag.

use vstd::prelude::*;

verus! {

/// First index at or after `i` holding `'/'`, or the length when none does.
pub open spec fn find_slash(s: Seq<char>, i: int) -> int
    recommends
        0 <= i <= s.len(),
    decreases s.len() - i,
    when 0 <= i <= s.len()
{
    if i < 0 || i >= s.len() {
        s.len() as int
    } else if s[i] == '/' {
        i
    } else {
        find_slash(s, i + 1)
    }
}

/// The extension a declared content type yields: the token between the first
/// `'/'` and the next one (or the end of the string); `"unknown"` when the
/// value holds no `'/'` at all.
pub open spec fn extension_spec(ct: Seq<char>) -> Seq<char> {
    let i = find_slash(ct, 0);
    if i == ct.len() {
        "unknown"@
    } else {
        ct.subrange(i + 1, find_slash(ct, i + 1))
    }
}

/// The fixed, case-sensitive allow-list of extensions that may be written
/// without the unsafe override.
pub open spec fn is_allowed_spec(ext: Seq<char>) -> bool {
    ||| ext == "pdf"@
    ||| ext == "txt"@
    ||| ext == "md"@
    ||| ext == "jpg"@
    ||| ext == "png"@
    ||| ext == "gif"@
    ||| ext == "mp3"@
    ||| ext == "mp4"@
    ||| ext == "wav"@
}

/// Accept when unsafe mode is set, or when the extracted extension stands on
/// the allow-list.
pub open spec fn should_accept_spec(ct: Seq<char>, unsafe_mode: bool) -> bool {
    unsafe_mode || is_allowed_spec(extension_spec(ct))
}

/// With the unsafe override set, every content type is accepted.
pub proof fn lemma_unsafe_accepts_all(ct: Seq<char>)
    ensures
        should_accept_spec(ct, true),
{
}

fn find_slash_from(s: &str, from: usize) -> (r: usize)
    requires
        from <= s@.len(),
    ensures
        r == find_slash(s@, from as int),
        from <= r <= s@.len(),
{
    let n = s.unicode_len();
    let mut i = from;
    while i < n
        invariant
            from <= i <= n,
            n == s@.len(),
            find_slash(s@, from as int) == find_slash(s@, i as int),
        decreases n - i,
    {
        if s.get_char(i) == '/' {
            return i;
        }
        i = i + 1;
    }
    i
}

/// Extracts the subtype token of a content type, `"unknown"` when the value
/// is malformed (no `'/'`).
pub fn extension_of(content_type: &str) -> (r: String)
    ensures
        r@ == extension_spec(content_type@),
{
    let n = content_type.unicode_len();
    let i = find_slash_from(content_type, 0);
    if i == n {
        "unknown".to_owned()
    } else {
        let j = find_slash_from(content_type, i + 1);
        content_type.substring_char(i + 1, j).to_owned()
    }
}

fn str_eq(a: &str, b: &str) -> (r: bool)
    ensures
        r == (a@ == b@),
{
    a.to_owned() == b.to_owned()
}

/// Allow-list membership of an already-extracted extension.
pub fn is_allowed_extension(ext: &str) -> (r: bool)
    ensures
        r == is_allowed_spec(ext@),
{
    str_eq(ext, "pdf") || str_eq(ext, "txt") || str_eq(ext, "md") || str_eq(ext, "jpg") || str_eq(
        ext,
        "png",
    ) || str_eq(ext, "gif") || str_eq(ext, "mp3") || str_eq(ext, "mp4") || str_eq(ext, "wav")
}

/// The download decision: accept in unsafe mode, else only when the content
/// type's extension is on the allow-list.
pub fn should_accept(content_type: &str, unsafe_mode: bool) -> (r: bool)
    ensures
        r == should_accept_spec(content_type@, unsafe_mode),
{
    if unsafe_mode {
        true
    } else {
        let ext = extension_of(content_type);
        is_allowed_extension(ext.as_str())
    }
}

} // verus!
