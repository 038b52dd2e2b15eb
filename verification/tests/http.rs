use nameless_server::http::{
    build_response, get_file_contents, get_response_content, lookup_paths, str_eq, u64_to_string,
    AssetStore, FileError,
};
use nameless_server::parse::parse_request_line;

fn store_with_defaults() -> AssetStore {
    let mut assets = AssetStore::new();
    assets.insert("index.html".to_string(), "<h1>home</h1>".to_string());
    assets.insert("404.html".to_string(), "<h1>missing</h1>".to_string());
    assets
}

#[test]
fn parse_root_path_uses_default_file() {
    let (method, filename, version) = parse_request_line("GET / HTTP/1.1", "index.html");
    assert_eq!(method, "GET");
    assert_eq!(filename, "index.html");
    assert_eq!(version, "1.1");
}

#[test]
fn parse_extensionless_path_gets_html_appended() {
    let (method, filename, version) = parse_request_line("GET /about HTTP/1.1", "index.html");
    assert_eq!(method, "GET");
    assert_eq!(filename, "about.html");
    assert_eq!(version, "1.1");
}

#[test]
fn parse_path_with_extension_is_kept() {
    let (_, filename, _) = parse_request_line("GET /w3.css HTTP/1.1", "index.html");
    assert_eq!(filename, "w3.css");
}

#[test]
fn parse_nested_path() {
    let (_, filename, _) = parse_request_line("GET /docs/guide HTTP/1.1", "index.html");
    assert_eq!(filename, "docs/guide.html");
}

#[test]
fn parse_other_methods_and_versions() {
    let (method, filename, version) = parse_request_line("POST /form HTTP/2", "index.html");
    assert_eq!(method, "POST");
    assert_eq!(filename, "form.html");
    assert_eq!(version, "2");

    let (method, _, version) = parse_request_line("DELETE /x.txt HTTP/3", "index.html");
    assert_eq!(method, "DELETE");
    assert_eq!(version, "3");
}

#[test]
fn parse_garbage_falls_back_to_not_found() {
    let (method, filename, version) = parse_request_line("hello there", "index.html");
    assert_eq!(method, "GET");
    assert_eq!(filename, "404.html");
    assert_eq!(version, "1.1");
}

#[test]
fn parse_empty_line_falls_back_to_not_found() {
    let (method, filename, version) = parse_request_line("", "index.html");
    assert_eq!(method, "GET");
    assert_eq!(filename, "404.html");
    assert_eq!(version, "1.1");
}

#[test]
fn parse_query_string_spoils_the_match() {
    let (_, filename, _) = parse_request_line("GET /a?q=1 HTTP/1.1", "index.html");
    assert_eq!(filename, "404.html");
}

#[test]
fn parse_finds_leftmost_match() {
    let (method, filename, _) = parse_request_line("xxGET /p HTTP/1.1", "index.html");
    assert_eq!(method, "GET");
    assert_eq!(filename, "p.html");
}

#[test]
fn parse_version_must_be_exact() {
    // Only the literal 1.1 (or 2, or 3) is a version; anything else means
    // the line matches nowhere and falls back.
    let (method, filename, version) = parse_request_line("GET / HTTP/1x1", "index.html");
    assert_eq!(method, "GET");
    assert_eq!(filename, "404.html");
    assert_eq!(version, "1.1");

    let (_, filename, _) = parse_request_line("GET /page HTTP/121", "index.html");
    assert_eq!(filename, "404.html");
}

#[test]
fn parse_unicode_whitespace_separates_tokens() {
    let (method, filename, version) =
        parse_request_line("GET\u{00a0}/page\u{00a0}HTTP/1.1", "index.html");
    assert_eq!(method, "GET");
    assert_eq!(filename, "page.html");
    assert_eq!(version, "1.1");
}

#[test]
fn parse_slashes_only_path_gives_empty_name() {
    let (_, filename, _) = parse_request_line("GET /// HTTP/1.1", "index.html");
    assert_eq!(filename, "");
}

#[test]
fn parse_hidden_file_counts_as_extensionless() {
    let (_, filename, _) = parse_request_line("GET /.hidden HTTP/1.1", "index.html");
    assert_eq!(filename, ".hidden.html");
}

#[test]
fn parse_name_with_several_dots_is_kept() {
    let (_, filename, _) = parse_request_line("GET /archive.tar.gz HTTP/1.1", "index.html");
    assert_eq!(filename, "archive.tar.gz");
}

#[test]
fn parse_trailing_dot_counts_as_extension() {
    let (_, filename, _) = parse_request_line("GET /odd. HTTP/1.1", "index.html");
    assert_eq!(filename, "odd.");
}

#[test]
fn parse_dotted_directory_with_plain_file() {
    let (_, filename, _) = parse_request_line("GET /v1.2/readme HTTP/1.1", "index.html");
    assert_eq!(filename, "v1.2/readme.html");
}

#[test]
fn parse_doubled_leading_slashes_are_trimmed() {
    let (_, filename, _) = parse_request_line("GET //styles.css HTTP/1.1", "index.html");
    assert_eq!(filename, "styles.css");
}

#[test]
fn decimal_rendering_is_exact() {
    assert_eq!(u64_to_string(0), "0");
    assert_eq!(u64_to_string(7), "7");
    assert_eq!(u64_to_string(1234567890), "1234567890");
    assert_eq!(u64_to_string(u64::MAX), "18446744073709551615");
}

#[test]
fn response_has_status_length_and_body() {
    let r = build_response("HTTP/1.1 200 OK", 5, "hello");
    assert_eq!(r, "HTTP/1.1 200 OK\r\nContent-Length: 5\r\n\r\nhello");
}

#[test]
fn response_with_empty_body() {
    let r = build_response("HTTP/1.1 404 NOT FOUND", 0, "");
    assert_eq!(r, "HTTP/1.1 404 NOT FOUND\r\nContent-Length: 0\r\n\r\n");
}

#[test]
fn str_eq_compares_contents() {
    assert!(str_eq("abc", "abc"));
    assert!(!str_eq("abc", "abd"));
    assert!(!str_eq("abc", "ab"));
    assert!(str_eq("", ""));
}

#[test]
fn asset_store_returns_what_was_inserted() {
    let assets = store_with_defaults();
    assert_eq!(assets.get("index.html"), Some("<h1>home</h1>".to_string()));
    assert_eq!(assets.get("404.html"), Some("<h1>missing</h1>".to_string()));
    assert_eq!(assets.get("other.html"), None);
}

#[test]
fn file_contents_prefer_embedded_assets() {
    let assets = store_with_defaults();
    let r = get_file_contents(&assets, "index.html", Some("from disk".to_string()));
    assert_eq!(r, Ok("<h1>home</h1>".to_string()));
}

#[test]
fn file_contents_fall_back_to_disk() {
    let assets = store_with_defaults();
    let r = get_file_contents(&assets, "notes.html", Some("from disk".to_string()));
    assert_eq!(r, Ok("from disk".to_string()));
}

#[test]
fn file_contents_missing_everywhere_is_an_error() {
    let assets = store_with_defaults();
    let r = get_file_contents(&assets, "notes.html", None);
    assert_eq!(r, Err(FileError::NotFound));
}

#[test]
fn get_found_file_is_served_with_success_status() {
    let assets = store_with_defaults();
    let (status, contents) = get_response_content("index.html", "GET", "1.1", &assets, None);
    assert_eq!(status, "HTTP/1.1 200 OK");
    assert_eq!(contents, "<h1>home</h1>");
}

#[test]
fn get_missing_file_is_served_the_not_found_page() {
    let assets = store_with_defaults();
    let (status, contents) = get_response_content("nope.html", "GET", "1.1", &assets, None);
    assert_eq!(status, "HTTP/1.1 404 NOT FOUND");
    assert_eq!(contents, "<h1>missing</h1>");
}

#[test]
fn other_methods_get_the_not_found_page_with_success_status() {
    let assets = store_with_defaults();
    let (status, contents) = get_response_content("index.html", "POST", "1.1", &assets, None);
    assert_eq!(status, "HTTP/1.1 200 OK");
    assert_eq!(contents, "<h1>missing</h1>");
}

#[test]
fn disk_lookup_locations_in_order() {
    let paths = lookup_paths("guide");
    assert_eq!(
        paths,
        vec![
            "./src/assets/guide".to_string(),
            "./guide".to_string(),
            "./guide.html".to_string()
        ]
    );
}
