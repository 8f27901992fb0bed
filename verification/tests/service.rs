use actix_embed::{AssetEntry, Assets, Embed, Request, Response};

const INDEX_HTML: &[u8] = b"<!DOCTYPE html>\n<html><body>hello</body></html>\n";
const INDEX_CSS: &[u8] = b"body { margin: 0; }\n";

fn digest_of(seed: u8) -> Vec<u8> {
    (0..32u8).map(|i| seed.wrapping_mul(31).wrapping_add(i.wrapping_mul(7))).collect()
}

fn assets() -> Assets {
    let mut assets = Assets::new();
    assets.insert(AssetEntry::new("index.html", INDEX_HTML.to_vec(), digest_of(1)));
    assets.insert(AssetEntry::new("assets/index.css", INDEX_CSS.to_vec(), digest_of(2)));
    assets
}

#[test]
fn test_basic() {
    let srv = Embed::new("/", assets()).new_service();

    let cases = [
        ("/index.html", 200u16),
        ("/assets/index.css", 200u16),
        ("/assets/index.js", 404u16),
    ];

    for (path, status) in cases {
        let req = Request::get(path);
        let resp = srv.call(&req);
        assert_eq!(resp.status, status);
    }
}

#[test]
fn test_fallback() {
    let srv = Embed::new("/", assets())
        .fallback_handler(|_: &Request| Response::new(200, b"not found".to_vec()))
        .new_service();

    let req = Request::get("/index.js");
    let resp = srv.call(&req);
    assert_eq!(resp.status, 200);
    assert_eq!(resp.body, b"not found".to_vec());
}

#[test]
fn test_strict_slash() {
    // not strict
    {
        let srv = Embed::new("/", assets()).strict_slash(false).new_service();

        let req = Request::get("/index.html/");
        let resp = srv.call(&req);
        assert_eq!(resp.status, 200);
    }

    // strict
    {
        let srv = Embed::new("/", assets()).strict_slash(true).new_service();

        let req = Request::get("/index.html/");
        let resp = srv.call(&req);
        assert_eq!(resp.status, 404);
    }
}

#[test]
fn test_index_file() {
    // not index file
    {
        let srv = Embed::new("/", assets()).new_service();

        let req = Request::get("/");
        let resp = srv.call(&req);
        assert_eq!(resp.status, 404);
    }

    // has index file
    {
        let srv = Embed::new("/", assets()).index_file("/index.html").new_service();

        let req = Request::get("/");
        let resp_a = srv.call(&req);
        assert_eq!(resp_a.status, 200);

        let req = Request::get("/index.html");
        let resp_b = srv.call(&req);
        assert_eq!(resp_b.status, 200);

        assert_eq!(resp_a.body, resp_b.body);
    }
}

#[test]
fn found_asset_is_served_with_its_validator() {
    let srv = Embed::new("/", assets()).new_service();
    let resp = srv.call(&Request::get("/index.html"));
    assert_eq!(resp.status, 200);
    assert_eq!(resp.body, INDEX_HTML.to_vec());
    assert_eq!(resp.header("ETag"), Some(hex::encode(digest_of(1)).as_str()));
    assert_eq!(resp.headers.len(), 2);
    assert_eq!(resp.headers[0].name, "Content-Type");
    assert_eq!(resp.headers[1].name, "ETag");

    let resp = srv.call(&Request::get("/assets/index.css"));
    assert_eq!(resp.status, 200);
    assert_eq!(resp.body, INDEX_CSS.to_vec());
    assert_eq!(resp.header("etag"), Some(hex::encode(digest_of(2)).as_str()));
}

#[test]
fn validator_is_lowercase_hex_of_the_digest() {
    let mut assets = Assets::new();
    assets.insert(AssetEntry::new("a.bin", vec![1, 2, 3], vec![0x00, 0x0f, 0xab, 0xff, 0x10]));
    let srv = Embed::new("/", assets).new_service();
    let resp = srv.call(&Request::get("/a.bin"));
    assert_eq!(resp.header("ETag"), Some("000fabff10"));
    assert_eq!(actix_embed::etag::entity_tag(&[0xde, 0xad, 0xbe, 0xef]), "deadbeef");
    assert_eq!(actix_embed::etag::entity_tag(&[]), "");
}

#[test]
fn content_type_follows_the_extension() {
    let mut table = assets();
    table.insert(AssetEntry::new("LICENSE", b"text".to_vec(), digest_of(3)));
    table.insert(AssetEntry::new("data.unknown-ext-zz", b"?".to_vec(), digest_of(4)));
    let srv = Embed::new("/", table).new_service();

    let resp = srv.call(&Request::get("/index.html"));
    assert_eq!(resp.header("Content-Type"), Some("text/html"));
    let resp = srv.call(&Request::get("/assets/index.css"));
    assert_eq!(resp.header("Content-Type"), Some("text/css"));
    let resp = srv.call(&Request::get("/LICENSE"));
    assert_eq!(resp.header("Content-Type"), Some("application/octet-stream"));
    let resp = srv.call(&Request::get("/data.unknown-ext-zz"));
    assert_eq!(resp.header("Content-Type"), Some("application/octet-stream"));
}

#[test]
fn revalidation_with_the_validator_is_not_modified() {
    let srv = Embed::new("/", assets()).new_service();
    let first = srv.call(&Request::get("/index.html"));
    let etag = first.header("ETag").unwrap().to_string();

    let second = srv.call(&Request::get("/index.html").with_header("If-None-Match", &etag));
    assert_eq!(second.status, 304);
    assert!(second.body.is_empty());
    assert!(second.headers.is_empty());

    let lower = srv.call(&Request::get("/index.html").with_header("if-none-match", &etag));
    assert_eq!(lower.status, 304);
}

#[test]
fn other_validators_do_not_match() {
    let srv = Embed::new("/", assets()).new_service();
    let etag = hex::encode(digest_of(1));

    for value in [
        "0".to_string(),
        String::new(),
        "*".to_string(),
        etag.to_uppercase(),
        format!("\"{}\"", etag),
        format!("W/\"{}\"", etag),
        format!("{}, {}", etag, etag),
        format!(" {}", etag),
        hex::encode(digest_of(2)),
        "\u{fffd}".to_string(),
    ] {
        let resp = srv.call(&Request::get("/index.html").with_header("If-None-Match", &value));
        assert_eq!(resp.status, 200, "value {:?}", value);
        assert_eq!(resp.body, INDEX_HTML.to_vec());
    }
}

#[test]
fn first_if_none_match_header_decides() {
    let srv = Embed::new("/", assets()).new_service();
    let etag = hex::encode(digest_of(1));
    let req = Request::get("/index.html")
        .with_header("If-None-Match", "0")
        .with_header("If-None-Match", &etag);
    assert_eq!(srv.call(&req).status, 200);
    let req = Request::get("/index.html")
        .with_header("If-None-Match", &etag)
        .with_header("If-None-Match", "0");
    assert_eq!(srv.call(&req).status, 304);
}

#[test]
fn other_methods_are_refused() {
    let srv = Embed::new("/", assets()).new_service();
    for method in ["POST", "PUT", "DELETE", "HEAD", "OPTIONS", "PATCH", "", "GETS", "GE"] {
        for path in ["/index.html", "/assets/index.js", "/", ""] {
            let resp = srv.call(&Request::new(method, path));
            assert_eq!(resp.status, 405);
            assert!(resp.body.is_empty());
            assert!(resp.headers.is_empty());
        }
    }
}

#[test]
fn method_is_compared_without_letter_case() {
    let srv = Embed::new("/", assets()).new_service();
    for method in ["GET", "get", "Get", "gEt"] {
        let resp = srv.call(&Request::new(method, "/index.html"));
        assert_eq!(resp.status, 200);
    }
}

#[test]
fn same_request_twice_gives_the_same_response() {
    let srv = Embed::new("/", assets()).new_service();
    for path in ["/index.html", "/assets/index.css", "/missing", "/"] {
        let a = srv.call(&Request::get(path));
        let b = srv.call(&Request::get(path));
        assert_eq!(a.status, b.status);
        assert_eq!(a.body, b.body);
        assert_eq!(a.headers.len(), b.headers.len());
        for (x, y) in a.headers.iter().zip(b.headers.iter()) {
            assert_eq!(x.name, y.name);
            assert_eq!(x.value, y.value);
        }
    }
}

#[test]
fn trailing_slash_is_dropped_unless_strict() {
    let srv = Embed::new("/", assets()).new_service();
    let plain = srv.call(&Request::get("/index.html"));
    let slashed = srv.call(&Request::get("/index.html/"));
    assert_eq!(plain.status, slashed.status);
    assert_eq!(plain.body, slashed.body);

    let strict = Embed::new("/", assets()).strict_slash(true).new_service();
    assert_eq!(strict.call(&Request::get("/index.html")).status, 200);
    assert_eq!(strict.call(&Request::get("/index.html/")).status, 404);
}

#[test]
fn only_one_slash_is_dropped_at_each_end() {
    let srv = Embed::new("/", assets()).new_service();
    assert_eq!(srv.key("/index.html"), "index.html");
    assert_eq!(srv.key("index.html"), "index.html");
    assert_eq!(srv.key("/index.html/"), "index.html");
    assert_eq!(srv.key("//index.html"), "/index.html");
    assert_eq!(srv.key("/index.html//"), "index.html/");
    assert_eq!(srv.key("/"), "");
    assert_eq!(srv.key(""), "");
    assert_eq!(srv.key("//"), "");
    assert_eq!(srv.key("/\u{e9}t\u{e9}/"), "\u{e9}t\u{e9}");
    assert_eq!(srv.call(&Request::get("//index.html")).status, 404);
    assert_eq!(srv.call(&Request::get("/index.html//")).status, 404);

    let strict = Embed::new("/", assets()).strict_slash(true).new_service();
    assert_eq!(strict.key("/index.html/"), "index.html/");
    assert_eq!(strict.key("/"), "");
    assert_eq!(strict.key("//"), "/");
}

#[test]
fn index_file_stands_in_for_the_root() {
    let srv = Embed::new("/", assets()).index_file("index.html").new_service();
    assert_eq!(srv.key("/"), "index.html");
    assert_eq!(srv.key(""), "index.html");
    assert_eq!(srv.key("/assets/index.css"), "assets/index.css");
    let root = srv.call(&Request::get("/"));
    let direct = srv.call(&Request::get("/index.html"));
    assert_eq!(root.status, 200);
    assert_eq!(root.status, direct.status);
    assert_eq!(root.body, direct.body);
    assert_eq!(root.header("ETag"), direct.header("ETag"));

    let trimmed = Embed::new("/", assets()).index_file("///assets/index.css//").new_service();
    assert_eq!(trimmed.key("/"), "assets/index.css");
    assert_eq!(trimmed.call(&Request::get("/")).body, INDEX_CSS.to_vec());

    let missing = Embed::new("/", assets()).index_file("nothing.html").new_service();
    assert_eq!(missing.call(&Request::get("/")).status, 404);
}

#[test]
fn lookup_is_exact() {
    let srv = Embed::new("/", assets()).new_service();
    for path in ["/INDEX.HTML", "/index", "/index.htm", "/assets", "/assets/", "/assets/index.css.map"] {
        assert_eq!(srv.call(&Request::get(path)).status, 404, "path {:?}", path);
    }
}

#[test]
fn default_fallback_answers_404_with_text() {
    let srv = Embed::new("/", assets()).new_service();
    let resp = srv.call(&Request::get("/assets/index.js"));
    assert_eq!(resp.status, 404);
    assert_eq!(resp.body, b"404 Not Found".to_vec());
    assert!(resp.headers.is_empty());
}

#[test]
fn fallback_sees_the_request_and_its_answer_is_kept() {
    let srv = Embed::new("/", assets())
        .fallback_handler(|req: &Request| {
            Response::new(418, req.path.clone().into_bytes()).with_header("X-Missing", "yes")
        })
        .new_service();
    let resp = srv.call(&Request::get("/teapot/"));
    assert_eq!(resp.status, 418);
    assert_eq!(resp.body, b"/teapot/".to_vec());
    assert_eq!(resp.header("x-missing"), Some("yes"));

    let found = srv.call(&Request::get("/index.html"));
    assert_eq!(found.status, 200);
    let refused = srv.call(&Request::new("POST", "/teapot"));
    assert_eq!(refused.status, 405);
}

#[test]
fn last_fallback_wins() {
    let srv = Embed::new("/", assets())
        .fallback_handler(|_: &Request| Response::new(500, Vec::new()))
        .fallback_handler(|_: &Request| Response::new(200, b"second".to_vec()))
        .new_service();
    let resp = srv.call(&Request::get("/nothing"));
    assert_eq!(resp.status, 200);
    assert_eq!(resp.body, b"second".to_vec());
}

#[test]
fn answer_is_none_on_a_miss() {
    let srv = Embed::new("/", assets()).new_service();
    assert!(srv.answer(&Request::get("/nothing")).is_none());
    assert_eq!(srv.answer(&Request::get("/index.html")).unwrap().status, 200);
    assert_eq!(srv.answer(&Request::new("POST", "/nothing")).unwrap().status, 405);
}

#[test]
fn mount_path_loses_its_trailing_slashes() {
    assert_eq!(Embed::new("/", assets()).mount_path(), "");
    assert_eq!(Embed::new("", assets()).mount_path(), "");
    assert_eq!(Embed::new("/static", assets()).mount_path(), "/static");
    assert_eq!(Embed::new("/static/", assets()).mount_path(), "/static");
    assert_eq!(Embed::new("/static//", assets()).mount_path(), "/static");
    assert_eq!(Embed::new("/a/b/", assets()).mount_path(), "/a/b");
}

#[test]
fn services_share_the_settings() {
    let embed = Embed::new("/", assets()).index_file("index.html");
    let one = embed.new_service();
    let two = embed.new_service();
    let three = one.clone();
    for srv in [&one, &two, &three] {
        assert_eq!(srv.call(&Request::get("/")).body, INDEX_HTML.to_vec());
    }
}
