use keystroke_visualizer::assets::{guess_content_type, load_asset, normalize_path};

#[test]
fn paths_lose_leading_slashes() {
    assert_eq!(normalize_path("/"), "index.html");
    assert_eq!(normalize_path(""), "index.html");
    assert_eq!(normalize_path("///"), "index.html");
    assert_eq!(normalize_path("//assets/app.js"), "assets/app.js");
    assert_eq!(normalize_path("a/b/"), "a/b/");
    assert_eq!(normalize_path(&normalize_path("/x")), "x");
}

#[test]
fn content_types_by_last_extension() {
    assert_eq!(guess_content_type("index.html"), "text/html; charset=utf-8");
    assert_eq!(guess_content_type("assets/app.js"), "application/javascript; charset=utf-8");
    assert_eq!(guess_content_type("a.css"), "text/css; charset=utf-8");
    assert_eq!(guess_content_type("data.json"), "application/json; charset=utf-8");
    assert_eq!(guess_content_type("logo.svg"), "image/svg+xml");
    assert_eq!(guess_content_type("p.png"), "image/png");
    assert_eq!(guess_content_type("p.jpg"), "image/jpeg");
    assert_eq!(guess_content_type("p.jpeg"), "image/jpeg");
    assert_eq!(guess_content_type("f.woff2"), "font/woff2");
    assert_eq!(guess_content_type("favicon.ico"), "image/x-icon");
    assert_eq!(guess_content_type("archive.tar.gz"), "application/octet-stream");
    assert_eq!(guess_content_type("P.PNG"), "application/octet-stream");
    assert_eq!(guess_content_type("html"), "text/html; charset=utf-8");
    assert_eq!(guess_content_type("dir.js/"), "application/octet-stream");
}

#[test]
fn assets_are_fetched_by_normalized_name() {
    let fetch = |name: &str| -> Option<Vec<u8>> {
        match name {
            "index.html" => Some(b"<html>".to_vec()),
            "assets/app.js" => Some(b"js".to_vec()),
            _ => None,
        }
    };
    let index = load_asset("/", fetch).expect("index is served");
    assert_eq!(index.bytes, b"<html>".to_vec());
    assert_eq!(index.content_type, "text/html; charset=utf-8");
    let js = load_asset("/assets/app.js", fetch).expect("script is served");
    assert_eq!(js.content_type, "application/javascript; charset=utf-8");
    assert!(load_asset("/missing.png", fetch).is_none());
}

#[test]
fn root_paths_and_extra_slashes_serve_the_same_asset() {
    let fetch = |name: &str| -> Option<Vec<u8>> {
        match name {
            "index.html" => Some(b"<html>".to_vec()),
            "assets/app.css" => Some(b"css".to_vec()),
            _ => None,
        }
    };
    let index = load_asset("index.html", fetch).unwrap();
    for path in ["", "/", "//"] {
        let asset = load_asset(path, fetch).unwrap();
        assert_eq!(asset.bytes, index.bytes);
        assert_eq!(asset.content_type, index.content_type);
    }
    for p in ["assets/app.css", "index.html", "missing.js", ""] {
        let plain = load_asset(p, fetch);
        let slashed = load_asset(&format!("/{p}"), fetch);
        assert_eq!(plain.is_some(), slashed.is_some());
        if let (Some(a), Some(b)) = (plain, slashed) {
            assert_eq!(a.bytes, b.bytes);
            assert_eq!(a.content_type, b.content_type);
        }
    }
}
