use hostmon::digits::i32_to_string;
use hostmon::digits::u32_to_string;
use hostmon::digits::u64_to_string;
use hostmon::host::parse_host;
use hostmon::response::header_name;
use hostmon::response::header_value;
use hostmon::response::HeaderKind;
use hostmon::routes::route;
use hostmon::routes::Method;
use hostmon::routes::Route;
use hostmon::strutil::str_eq;
use hostmon::strutil::trim_spaces;
use hostmon::urlparse::extract_url;

#[test]
fn decimal_rendering_of_unsigned_numbers() {
    assert_eq!(u64_to_string(0), "0");
    assert_eq!(u64_to_string(7), "7");
    assert_eq!(u64_to_string(1234567890), "1234567890");
    assert_eq!(u64_to_string(u64::MAX), "18446744073709551615");
    assert_eq!(u32_to_string(4294967295), "4294967295");
}

#[test]
fn decimal_rendering_of_signed_numbers() {
    assert_eq!(i32_to_string(0), "0");
    assert_eq!(i32_to_string(404), "404");
    assert_eq!(i32_to_string(-123), "-123");
    assert_eq!(i32_to_string(i32::MIN), "-2147483648");
    assert_eq!(i32_to_string(i32::MAX), "2147483647");
}

#[test]
fn string_equality_is_exact() {
    assert!(str_eq("/urls", "/urls"));
    assert!(!str_eq("/urls", "/url"));
    assert!(!str_eq("/urls", "/urlz"));
    assert!(str_eq("", ""));
}

#[test]
fn trimming_strips_whitespace_from_both_ends() {
    assert_eq!(trim_spaces("  2024-01-01 10:00:00\n"), "2024-01-01 10:00:00");
    assert_eq!(trim_spaces("no change"), "no change");
    assert_eq!(trim_spaces(" \t\r\n"), "");
    assert_eq!(trim_spaces(""), "");
}

#[test]
fn routing_follows_the_table() {
    assert_eq!(route(Method::Options, "/whatever"), Route::Preflight);
    assert_eq!(route(Method::Get, "/memory"), Route::Memory);
    // The metric paths match on the path alone.
    assert_eq!(route(Method::Post, "/memory"), Route::Memory);
    assert_eq!(route(Method::Get, "/cpu"), Route::Cpu);
    assert_eq!(route(Method::Get, "/uptime"), Route::Uptime);
    assert_eq!(route(Method::Get, "/cpu/history"), Route::CpuHistory);
    assert_eq!(route(Method::Get, "/urls"), Route::UrlsList);
    assert_eq!(route(Method::Post, "/urls"), Route::UrlsCreate);
    assert_eq!(route(Method::Delete, "/urls"), Route::UrlsDelete);
    assert_eq!(route(Method::Other, "/urls"), Route::Fallback);
    assert_eq!(route(Method::Get, "/none"), Route::Fallback);
}

#[test]
fn url_field_extraction_accepts_the_usual_shapes() {
    assert_eq!(
        extract_url("{\"url\":\"http://a.example\"}"),
        Some("http://a.example".to_string())
    );
    assert_eq!(
        extract_url("{ \"url\" : \"http://a.example\" , \"x\": 1 }"),
        Some("http://a.example".to_string())
    );
    assert_eq!(extract_url("{\"url\":\"\"}"), Some("".to_string()));
}

#[test]
fn url_field_extraction_rejects_bodies_without_one() {
    assert_eq!(extract_url(""), None);
    assert_eq!(extract_url("{\"name\":\"x\"}"), None);
    assert_eq!(extract_url("{\"url\""), None);
    assert_eq!(extract_url("{\"url\": 1}"), None);
    assert_eq!(extract_url("{\"url\": \"unterminated}"), None);
}

#[test]
fn host_parsing_accepts_dotted_quads() {
    assert_eq!(parse_host("127.0.0.1"), Some([127, 0, 0, 1]));
    assert_eq!(parse_host("0.0.0.0"), Some([0, 0, 0, 0]));
    assert_eq!(parse_host("255.255.255.255"), Some([255, 255, 255, 255]));
    assert_eq!(parse_host("010.2.3.4"), Some([10, 2, 3, 4]));
}

#[test]
fn host_parsing_rejects_everything_else() {
    assert_eq!(parse_host(""), None);
    assert_eq!(parse_host("localhost"), None);
    assert_eq!(parse_host("1.2.3"), None);
    assert_eq!(parse_host("1.2.3.4.5"), None);
    assert_eq!(parse_host("256.0.0.1"), None);
    assert_eq!(parse_host("1..2.3"), None);
    assert_eq!(parse_host("1.2.3."), None);
    assert_eq!(parse_host("1.2.3.x"), None);
}

#[test]
fn fixed_headers_render_to_their_exact_text() {
    assert_eq!(header_name(HeaderKind::ContentTypeJson), "Content-Type");
    assert_eq!(header_value(HeaderKind::ContentTypeJson), "application/json");
    assert_eq!(header_name(HeaderKind::AllowOrigin), "Access-Control-Allow-Origin");
    assert_eq!(header_value(HeaderKind::AllowOrigin), "*");
    assert_eq!(header_name(HeaderKind::AllowMethods), "Access-Control-Allow-Methods");
    assert_eq!(header_value(HeaderKind::AllowMethods), "GET, POST, DELETE, OPTIONS");
    assert_eq!(header_name(HeaderKind::AllowHeaders), "Access-Control-Allow-Headers");
    assert_eq!(header_value(HeaderKind::AllowHeaders), "Content-Type, Authorization");
}
