use actix_embed::assets::{AssetEntry, Assets};
use actix_embed::fallback_handler::{DefaultFallbackHandler, FallbackHandler};
use actix_embed::http::{find_header, same_ignoring_ascii_case, to_ascii_lower, Header, Request, Response};
use actix_embed::service::{
    answer_found, content_response, method_not_allowed_response, not_modified_response,
};
use actix_embed::slashes::{
    strip_leading_slash, strip_trailing_slash, trim_leading_slashes, trim_trailing_slashes,
};

#[test]
fn strip_takes_one_slash() {
    assert_eq!(strip_leading_slash("/a"), "a");
    assert_eq!(strip_leading_slash("//a"), "/a");
    assert_eq!(strip_leading_slash("a/"), "a/");
    assert_eq!(strip_leading_slash("/"), "");
    assert_eq!(strip_leading_slash(""), "");
    assert_eq!(strip_trailing_slash("a/"), "a");
    assert_eq!(strip_trailing_slash("a//"), "a/");
    assert_eq!(strip_trailing_slash("/a"), "/a");
    assert_eq!(strip_trailing_slash("/"), "");
    assert_eq!(strip_trailing_slash(""), "");
    assert_eq!(strip_trailing_slash("\u{4e2d}\u{6587}/"), "\u{4e2d}\u{6587}");
}

#[test]
fn trim_takes_every_slash() {
    assert_eq!(trim_leading_slashes("///a/b//"), "a/b//");
    assert_eq!(trim_leading_slashes("a"), "a");
    assert_eq!(trim_leading_slashes("///"), "");
    assert_eq!(trim_leading_slashes(""), "");
    assert_eq!(trim_trailing_slashes("//a/b///"), "//a/b");
    assert_eq!(trim_trailing_slashes("a"), "a");
    assert_eq!(trim_trailing_slashes("///"), "");
    assert_eq!(trim_trailing_slashes(""), "");
    assert_eq!(trim_trailing_slashes("\u{e9}//"), "\u{e9}");
}

#[test]
fn letters_fold_within_ascii_only() {
    assert_eq!(to_ascii_lower('A'), 'a');
    assert_eq!(to_ascii_lower('Z'), 'z');
    assert_eq!(to_ascii_lower('a'), 'a');
    assert_eq!(to_ascii_lower('@'), '@');
    assert_eq!(to_ascii_lower('['), '[');
    assert_eq!(to_ascii_lower('-'), '-');
    assert_eq!(to_ascii_lower('\u{c9}'), '\u{c9}');
    assert!(same_ignoring_ascii_case("If-None-Match", "if-none-match"));
    assert!(same_ignoring_ascii_case("", ""));
    assert!(!same_ignoring_ascii_case("ETag", "ETags"));
    assert!(!same_ignoring_ascii_case("ETag", "ETab"));
    assert!(!same_ignoring_ascii_case("\u{c9}", "\u{e9}"));
}

#[test]
fn header_lookup_takes_the_first_match() {
    let headers = vec![
        Header::new("Accept", "*/*"),
        Header::new("X-A", "1"),
        Header::new("x-a", "2"),
    ];
    assert_eq!(find_header(&headers, "X-A"), Some("1"));
    assert_eq!(find_header(&headers, "x-A"), Some("1"));
    assert_eq!(find_header(&headers, "accept"), Some("*/*"));
    assert_eq!(find_header(&headers, "X-B"), None);
    assert_eq!(find_header(&Vec::new(), "X-A"), None);

    let req = Request::get("/").with_header("A", "1").with_header("B", "2");
    assert_eq!(req.method, "GET");
    assert_eq!(req.path, "/");
    assert_eq!(req.header("b"), Some("2"));
    assert_eq!(req.header("c"), None);
    assert!(req.is_get());
    assert!(!Request::new("POST", "/").is_get());
}

#[test]
fn table_keeps_the_last_entry_of_a_path() {
    let mut assets = Assets::new();
    assert!(assets.get("a").is_none());
    assets.insert(AssetEntry::new("a", vec![1], vec![10]));
    assets.insert(AssetEntry::new("b", vec![2], vec![20]));
    assets.insert(AssetEntry::new("a", vec![3], vec![30]));
    let a = assets.get("a").unwrap();
    assert_eq!(a.path, "a");
    assert_eq!(a.bytes, vec![3]);
    assert_eq!(a.digest, vec![30]);
    assert_eq!(assets.get("b").unwrap().bytes, vec![2]);
    assert!(assets.get("A").is_none());
    assert!(assets.get("").is_none());
    assert!(assets.get("a/").is_none());
}

#[test]
fn fixed_responses() {
    let resp = method_not_allowed_response();
    assert_eq!(resp.status, 405);
    assert!(resp.headers.is_empty() && resp.body.is_empty());
    let resp = not_modified_response();
    assert_eq!(resp.status, 304);
    assert!(resp.headers.is_empty() && resp.body.is_empty());
    let resp = content_response("text/x".to_string(), "ab".to_string(), vec![7, 8]);
    assert_eq!(resp.status, 200);
    assert_eq!(resp.headers.len(), 2);
    assert_eq!(resp.headers[0].name, "Content-Type");
    assert_eq!(resp.headers[0].value, "text/x");
    assert_eq!(resp.headers[1].name, "ETag");
    assert_eq!(resp.headers[1].value, "ab");
    assert_eq!(resp.body, vec![7, 8]);
}

#[test]
fn found_asset_answer_takes_the_given_type() {
    let entry = AssetEntry::new("x.y", vec![9, 9], vec![0x01, 0xfe]);
    let resp = answer_found(&Request::get("/x.y"), &entry, "some/type".to_string());
    assert_eq!(resp.status, 200);
    assert_eq!(resp.header("Content-Type"), Some("some/type"));
    assert_eq!(resp.header("ETag"), Some("01fe"));
    assert_eq!(resp.body, vec![9, 9]);

    let req = Request::get("/x.y").with_header("If-None-Match", "01fe");
    let resp = answer_found(&req, &entry, "some/type".to_string());
    assert_eq!(resp.status, 304);
    assert!(resp.headers.is_empty() && resp.body.is_empty());

    let req = Request::get("/x.y").with_header("If-None-Match", "01FE");
    assert_eq!(answer_found(&req, &entry, "some/type".to_string()).status, 200);
}

#[test]
fn fallback_handlers_execute() {
    let resp = DefaultFallbackHandler.execute(&Request::get("/anything"));
    assert_eq!(resp.status, 404);
    assert_eq!(resp.body, b"404 Not Found".to_vec());
    let custom = |req: &Request| Response::new(200, req.method.clone().into_bytes());
    let resp = custom.execute(&Request::new("PUT", "/"));
    assert_eq!(resp.status, 200);
    assert_eq!(resp.body, b"PUT".to_vec());
}
