//! Serving the embedded dashboard: which file a request path asks for,
//! its content type, and how long browsers may cache it.

use vstd::prelude::*;

verus! {

/// The MIME type `mime_guess` associates with a path (by its extension),
/// `application/octet-stream` when it knows none.
pub uninterp spec fn mime_type_of(path: Seq<char>) -> Seq<char>;

/// `mime_guess::from_path(path).first_or_octet_stream()`, as text.
#[verifier::external_body]
pub(crate) fn content_type_for(path: &str) -> (mime: String)
    ensures
        mime@ == mime_type_of(path@),
{
    mime_guess::from_path(path).first_or_octet_stream().as_ref().to_owned()
}

/// The `Content-Type` and `Cache-Control` headers of an embedded file.
pub fn file_headers(path: &str) -> (headers: (String, &'static str))
    ensures
        headers.0@ == mime_type_of(path@),
        path@ == "index.html"@ ==> headers.1@ == "no-cache, must-revalidate"@,
        path@ != "index.html"@ ==> headers.1@ == "public, max-age=31536000, immutable"@,
{
    (content_type_for(path), cache_control_for(path))
}

/// `index.html` must always be revalidated; every other file carries a
/// content hash in its name and may be cached for a year.
pub fn cache_control_for(path: &str) -> (value: &'static str)
    ensures
        path@ == "index.html"@ ==> value@ == "no-cache, must-revalidate"@,
        path@ != "index.html"@ ==> value@ == "public, max-age=31536000, immutable"@,
{
    if crate::text::text_eq(path, "index.html") {
        "no-cache, must-revalidate"
    } else {
        "public, max-age=31536000, immutable"
    }
}

/// `s` without its leading `c` characters.
pub open spec fn trim_leading(s: Seq<char>, c: char) -> Seq<char>
    decreases s.len(),
{
    if s.len() > 0 && s[0] == c {
        trim_leading(s.drop_first(), c)
    } else {
        s
    }
}

proof fn lemma_trim_leading(s: Seq<char>, c: char, i: int)
    requires
        0 <= i <= s.len(),
        forall|j: int| 0 <= j < i ==> s[j] == c,
    ensures
        trim_leading(s, c) == trim_leading(s.subrange(i, s.len() as int), c),
    decreases i,
{
    if i > 0 {
        assert forall|j: int| 0 <= j < i - 1 implies s.drop_first()[j] == c by {
            assert(s.drop_first()[j] == s[j + 1]);
        }
        lemma_trim_leading(s.drop_first(), c, i - 1);
        assert(s.drop_first().subrange(i - 1, s.drop_first().len() as int) =~= s.subrange(i, s.len() as int));
    } else {
        assert(s.subrange(0, s.len() as int) =~= s);
    }
}

/// The file an unmatched request path names, if it names one: the path
/// without its leading slashes, when that is non-empty and contains a dot.
/// Other paths get the single-page application's `index.html`.
pub open spec fn spa_file(uri_path: Seq<char>) -> Option<Seq<char>> {
    let p = trim_leading(uri_path, '/');
    if p.len() > 0 && p.contains('.') {
        Some(p)
    } else {
        None
    }
}

/// Computes `spa_file`.
pub fn spa_candidate(uri_path: &str) -> (res: Option<String>)
    ensures
        crate::upstream::opt_text(res) == spa_file(uri_path@),
{
    let n = uri_path.unicode_len();
    let mut i: usize = 0;
    while i < n && uri_path.get_char(i) == '/'
        invariant
            n == uri_path@.len(),
            i <= n,
            forall|j: int| 0 <= j < i ==> uri_path@[j] == '/',
        decreases n - i,
    {
        i += 1;
    }
    let rest = uri_path.substring_char(i, n);
    proof {
        lemma_trim_leading(uri_path@, '/', i as int);
        let r = uri_path@.subrange(i as int, n as int);
        if r.len() > 0 {
            assert(r[0] != '/');
        }
        assert(trim_leading(r, '/') == r);
    }
    let m = n - i;
    if m == 0 {
        return None;
    }
    let mut k: usize = 0;
    while k < m
        invariant
            i <= n,
            n == uri_path@.len(),
            rest@ == uri_path@.subrange(i as int, n as int),
            rest@ == trim_leading(uri_path@, '/'),
            m == rest@.len(),
            k <= m,
            forall|j: int| 0 <= j < k ==> rest@[j] != '.',
        decreases m - k,
    {
        if rest.get_char(k) == '.' {
            assert(rest@.contains('.'));
            return Some(rest.to_owned());
        }
        k += 1;
    }
    None
}

/// The path of a file under `/assets/`.
pub fn asset_path(path: &str) -> (full: String)
    ensures
        full@ == "assets/"@ + path@,
{
    let mut full = String::from_str("assets/");
    full.append(path);
    full
}

/// The body of a 404 for a missing file: `{path} not found`.
pub fn not_found_text(path: &str) -> (text: String)
    ensures
        text@ == path@ + " not found"@,
{
    let mut text = String::from_str(path);
    text.append(" not found");
    text
}

} // verus!
