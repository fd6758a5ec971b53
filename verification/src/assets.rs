//! Static assets of the report UI: request paths to asset names, and asset
//! names to content types.
use crate::text::text_eq;
use vstd::prelude::*;

verus! {

/// An asset's bytes and the content type it is served with.
pub struct AssetFile {
    pub bytes: Vec<u8>,
    pub content_type: &'static str,
}

/// `s` without its leading slashes.
pub open spec fn trim_leading_slashes(s: Seq<char>) -> Seq<char>
    decreases s.len(),
{
    if s.len() > 0 && s[0] == '/' {
        trim_leading_slashes(s.drop_first())
    } else {
        s
    }
}

/// The asset name a request path stands for: the path without leading
/// slashes, or `index.html` when nothing is left.
pub open spec fn normalized_path(path: Seq<char>) -> Seq<char> {
    if trim_leading_slashes(path).len() == 0 {
        "index.html"@
    } else {
        trim_leading_slashes(path)
    }
}

/// Everything after the last `.` of `s`, or all of `s` when it has none.
pub open spec fn extension_of(s: Seq<char>) -> Seq<char>
    decreases s.len(),
{
    if s.len() == 0 {
        s
    } else if s.last() == '.' {
        Seq::empty()
    } else {
        extension_of(s.drop_last()).push(s.last())
    }
}

/// The content type served for a file extension.
pub open spec fn content_type_for(ext: Seq<char>) -> Seq<char> {
    if ext == "html"@ {
        "text/html; charset=utf-8"@
    } else if ext == "js"@ {
        "application/javascript; charset=utf-8"@
    } else if ext == "css"@ {
        "text/css; charset=utf-8"@
    } else if ext == "json"@ {
        "application/json; charset=utf-8"@
    } else if ext == "svg"@ {
        "image/svg+xml"@
    } else if ext == "png"@ {
        "image/png"@
    } else if ext == "jpg"@ || ext == "jpeg"@ {
        "image/jpeg"@
    } else if ext == "woff2"@ {
        "font/woff2"@
    } else if ext == "ico"@ {
        "image/x-icon"@
    } else {
        "application/octet-stream"@
    }
}

proof fn lemma_trim_skip(s: Seq<char>, k: int)
    requires
        0 <= k <= s.len(),
        forall|j: int| 0 <= j < k ==> s[j] == '/',
    ensures
        trim_leading_slashes(s) == trim_leading_slashes(s.skip(k)),
    decreases k,
{
    if k > 0 {
        assert(s.drop_first().skip(k - 1) =~= s.skip(k));
        lemma_trim_skip(s.drop_first(), k - 1);
    } else {
        assert(s.skip(0) =~= s);
    }
}

/// The asset name for a request path.
pub fn normalize_path(path: &str) -> (r: String)
    ensures
        r@ == normalized_path(path@),
{
    let n = path.unicode_len();
    let mut k: usize = 0;
    while k < n && path.get_char(k) == '/'
        invariant
            n == path@.len(),
            k <= n,
            forall|j: int| 0 <= j < k ==> path@[j] == '/',
        decreases n - k,
    {
        k = k + 1;
    }
    proof {
        lemma_trim_skip(path@, k as int);
        if k < n {
            assert(path@.skip(k as int)[0] != '/');
        }
    }
    if k == n {
        assert(path@.skip(k as int).len() == 0);
        "index.html".to_owned()
    } else {
        let rest = path.substring_char(k, n);
        assert(path@.subrange(k as int, n as int) =~= path@.skip(k as int));
        rest.to_owned()
    }
}

proof fn lemma_extension_of_tail(s: Seq<char>, d: int)
    requires
        0 <= d <= s.len(),
        forall|j: int| d <= j < s.len() ==> s[j] != '.',
    ensures
        extension_of(s) == extension_of(s.take(d)) + s.skip(d),
    decreases s.len() - d,
{
    if d == s.len() {
        assert(s.take(d) =~= s);
        assert(s.skip(d) =~= Seq::<char>::empty());
        assert(extension_of(s) + Seq::<char>::empty() =~= extension_of(s));
    } else {
        lemma_extension_of_tail(s.drop_last(), d);
        assert(s.drop_last().take(d) =~= s.take(d));
        assert(s.drop_last().skip(d).push(s.last()) =~= s.skip(d));
        assert((extension_of(s.take(d)) + s.drop_last().skip(d)).push(s.last()) =~= extension_of(s.take(d))
            + s.skip(d));
    }
}

proof fn lemma_trim_idempotent(s: Seq<char>)
    ensures
        trim_leading_slashes(trim_leading_slashes(s)) == trim_leading_slashes(s),
        trim_leading_slashes(s).len() > 0 ==> trim_leading_slashes(s)[0] != '/',
    decreases s.len(),
{
    if s.len() > 0 && s[0] == '/' {
        lemma_trim_idempotent(s.drop_first());
    }
}

/// Normalizing a normalized path changes nothing.
pub proof fn lemma_normalize_idempotent(path: Seq<char>)
    ensures
        normalized_path(normalized_path(path)) == normalized_path(path),
{
    lemma_trim_idempotent(path);
    reveal_strlit("index.html");
    let t = trim_leading_slashes(path);
    if t.len() == 0 {
        let idx = "index.html"@;
        assert(idx[0] == 'i');
        assert(trim_leading_slashes(idx) == idx);
    }
}

/// The extension of a path: the text after its last `.`.
fn extension(path: &str) -> (r: String)
    ensures
        r@ == extension_of(path@),
{
    let n = path.unicode_len();
    let mut d: usize = n;
    while d > 0 && path.get_char(d - 1) != '.'
        invariant
            n == path@.len(),
            d <= n,
            forall|j: int| d <= j < n ==> path@[j] != '.',
        decreases d,
    {
        d = d - 1;
    }
    proof {
        lemma_extension_of_tail(path@, d as int);
        if d > 0 {
            assert(path@.take(d as int).last() == '.');
        } else {
            assert(path@.take(0).len() == 0);
        }
    }
    let rest = path.substring_char(d, n);
    assert(path@.subrange(d as int, n as int) =~= path@.skip(d as int));
    assert(path@.skip(d as int) =~= extension_of(path@.take(d as int)) + path@.skip(d as int)) by {
        if d > 0 {
            assert(extension_of(path@.take(d as int)) =~= Seq::<char>::empty());
        }
    }
    rest.to_owned()
}

/// The content type an asset is served with, from the extension of its name.
pub fn guess_content_type(path: &str) -> (r: &'static str)
    ensures
        r@ == content_type_for(extension_of(path@)),
{
    let ext = extension(path);
    let e = ext.as_str();
    if text_eq(e, "html") {
        "text/html; charset=utf-8"
    } else if text_eq(e, "js") {
        "application/javascript; charset=utf-8"
    } else if text_eq(e, "css") {
        "text/css; charset=utf-8"
    } else if text_eq(e, "json") {
        "application/json; charset=utf-8"
    } else if text_eq(e, "svg") {
        "image/svg+xml"
    } else if text_eq(e, "png") {
        "image/png"
    } else if text_eq(e, "jpg") || text_eq(e, "jpeg") {
        "image/jpeg"
    } else if text_eq(e, "woff2") {
        "font/woff2"
    } else if text_eq(e, "ico") {
        "image/x-icon"
    } else {
        "application/octet-stream"
    }
}

/// Found bytes by their contents.
pub open spec fn found_bytes(found: Option<Vec<u8>>) -> Option<Seq<u8>> {
    match found {
        Some(v) => Some(v@),
        None => None,
    }
}

/// An asset by its contents: its bytes and content type.
pub open spec fn asset_view(r: Option<AssetFile>) -> Option<(Seq<u8>, Seq<char>)> {
    match r {
        Some(a) => Some((a.bytes@, a.content_type@)),
        None => None,
    }
}

/// `r` is what looking up `path` gives when `fetch` may answer the asset
/// name: the normalized name was asked for, and the bytes it answered are
/// served with the content type of that name, or nothing when it had none.
pub open spec fn asset_loaded<F: Fn(&str) -> Option<Vec<u8>>>(
    path: Seq<char>,
    fetch: F,
    r: Option<AssetFile>,
) -> bool {
    exists|name: &str, found: Option<Vec<u8>>|
        {
            &&& name@ == normalized_path(path)
            &&& #[trigger] call_ensures(fetch, (name,), found)
            &&& asset_view(r) == match found_bytes(found) {
                Some(bytes) => Some((bytes, content_type_for(extension_of(name@)))),
                None => None,
            }
        }
}

/// `fetch` answers a name the same way each time it is asked.
pub open spec fn fetch_deterministic<F: Fn(&str) -> Option<Vec<u8>>>(fetch: F) -> bool {
    forall|a: &str, b: &str, x: Option<Vec<u8>>, y: Option<Vec<u8>>|
        a@ == b@ && #[trigger] call_ensures(fetch, (a,), x) && #[trigger] call_ensures(fetch, (b,), y)
            ==> found_bytes(x) == found_bytes(y)
}

/// Looks an asset up by request path: the path is normalized, `fetch` is
/// asked for the bytes under that name, and found bytes are served with the
/// content type of the name.
pub fn load_asset<F: Fn(&str) -> Option<Vec<u8>>>(path: &str, fetch: F) -> (r: Option<AssetFile>)
    requires
        forall|name: &str| #[trigger] call_requires(fetch, (name,)),
    ensures
        asset_loaded(path@, fetch, r),
{
    let normalized = normalize_path(path);
    let found = fetch(normalized.as_str());
    match found {
        Some(bytes) => {
            let content_type = guess_content_type(normalized.as_str());
            Some(AssetFile { bytes, content_type })
        },
        None => None,
    }
}

/// The empty path, `/` and `//` all name `index.html`, as `index.html`
/// itself does.
pub proof fn lemma_root_paths_name_index()
    ensures
        normalized_path(""@) == "index.html"@,
        normalized_path("/"@) == "index.html"@,
        normalized_path("//"@) == "index.html"@,
        normalized_path("index.html"@) == "index.html"@,
{
    reveal_strlit("");
    reveal_strlit("/");
    reveal_strlit("//");
    reveal_strlit("index.html");
    assert(trim_leading_slashes(""@).len() == 0);
    assert(trim_leading_slashes("/"@.drop_first()).len() == 0);
    assert("/"@[0] == '/');
    assert(trim_leading_slashes("/"@).len() == 0);
    assert("//"@.drop_first() =~= "/"@);
    assert("//"@[0] == '/');
    assert(trim_leading_slashes("//"@).len() == 0);
    let idx = "index.html"@;
    assert(idx[0] == 'i');
    assert(trim_leading_slashes(idx) == idx);
}

/// A slash in front of a path names the same asset.
pub proof fn lemma_leading_slash_ignored(path: Seq<char>)
    ensures
        normalized_path(seq!['/'] + path) == normalized_path(path),
{
    let s = seq!['/'] + path;
    assert(s[0] == '/');
    assert(s.drop_first() =~= path);
}

/// Two request paths that name the same asset are served the same asset,
/// when `fetch` answers each name the same way each time.
pub proof fn lemma_same_name_same_asset<F: Fn(&str) -> Option<Vec<u8>>>(
    p: Seq<char>,
    q: Seq<char>,
    fetch: F,
    r: Option<AssetFile>,
    s: Option<AssetFile>,
)
    requires
        normalized_path(p) == normalized_path(q),
        fetch_deterministic(fetch),
        asset_loaded(p, fetch, r),
        asset_loaded(q, fetch, s),
    ensures
        asset_view(r) == asset_view(s),
{
    let (n1, f1) = choose|name: &str, found: Option<Vec<u8>>|
        {
            &&& name@ == normalized_path(p)
            &&& #[trigger] call_ensures(fetch, (name,), found)
            &&& asset_view(r) == match found_bytes(found) {
                Some(bytes) => Some((bytes, content_type_for(extension_of(name@)))),
                None => None,
            }
        };
    let (n2, f2) = choose|name: &str, found: Option<Vec<u8>>|
        {
            &&& name@ == normalized_path(q)
            &&& #[trigger] call_ensures(fetch, (name,), found)
            &&& asset_view(s) == match found_bytes(found) {
                Some(bytes) => Some((bytes, content_type_for(extension_of(name@)))),
                None => None,
            }
        };
    assert(found_bytes(f1) == found_bytes(f2));
}

} // verus!
