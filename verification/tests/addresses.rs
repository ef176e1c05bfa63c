use giantbomb_rs::escape::{is_unreserved, push_query_encoded};
use giantbomb_rs::query::{detail_url, fields, list_url, search_url, CATALOG, SEARCH_LIMIT};
use giantbomb_rs::text::{push_decimal, push_digits, push_joined};

const FIELDS: &str = "name,site_detail_url,themes,platforms,original_release_date,image,id,guid,expected_release_year,expected_release_quarter,expected_release_month,expected_release_day,developers,deck,concepts,characters";

fn decimal(n: i64) -> String {
    let mut out = String::new();
    push_decimal(&mut out, n);
    out
}

#[test]
fn decimal_of_small_and_large_numbers() {
    assert_eq!(decimal(0), "0");
    assert_eq!(decimal(7), "7");
    assert_eq!(decimal(10), "10");
    assert_eq!(decimal(109), "109");
    assert_eq!(decimal(1234567890), "1234567890");
    assert_eq!(decimal(i64::MAX), "9223372036854775807");
}

#[test]
fn decimal_of_negative_numbers() {
    assert_eq!(decimal(-1), "-1");
    assert_eq!(decimal(-10), "-10");
    assert_eq!(decimal(-4096), "-4096");
    assert_eq!(decimal(i64::MIN), "-9223372036854775808");
}

#[test]
fn decimal_agrees_with_the_standard_rendering() {
    let mut n: i64 = 1;
    for _ in 0..62 {
        assert_eq!(decimal(n), n.to_string());
        assert_eq!(decimal(-n), (-n).to_string());
        assert_eq!(decimal(n - 1), (n - 1).to_string());
        n *= 2;
    }
}

#[test]
fn digits_are_appended_to_what_is_there() {
    let mut out = String::from("n=");
    push_digits(&mut out, 0);
    assert_eq!(out, "n=0");
    push_digits(&mut out, u64::MAX);
    assert_eq!(out, "n=018446744073709551615");
    push_decimal(&mut out, -5);
    assert_eq!(out, "n=018446744073709551615-5");
}

#[test]
fn joined_parts_have_the_separator_between_them() {
    let mut out = String::new();
    push_joined(&mut out, &Vec::new(), ",");
    assert_eq!(out, "");
    push_joined(&mut out, &vec!["a"], ",");
    assert_eq!(out, "a");
    let mut out = String::from("x=");
    push_joined(&mut out, &vec!["a", "bc", "", "d"], ", ");
    assert_eq!(out, "x=a, bc, , d");
}

#[test]
fn field_list_leaves_the_description_out() {
    let names = fields();
    assert_eq!(names.len(), 16);
    assert_eq!(names.join(","), FIELDS);
    assert!(!names.contains(&"description"));
    for wanted in [
        "name",
        "site_detail_url",
        "themes",
        "platforms",
        "original_release_date",
        "image",
        "id",
        "guid",
        "expected_release_day",
        "expected_release_month",
        "expected_release_year",
        "expected_release_quarter",
        "developers",
        "deck",
        "concepts",
        "characters",
    ] {
        assert!(names.contains(&wanted));
    }
}

#[test]
fn list_address() {
    assert_eq!(
        list_url("https://www.giantbomb.com", "SECRET", 1, 0),
        "https://www.giantbomb.com/api/games/?api_key=SECRET&format=json&limit=1&offset=0&field_list=api_detail_url"
    );
    assert_eq!(
        list_url("http://localhost:8080", "k", 1, 81234),
        "http://localhost:8080/api/games/?api_key=k&format=json&limit=1&offset=81234&field_list=api_detail_url"
    );
    assert_eq!(
        list_url("", "", 25, -3),
        "/api/games/?api_key=&format=json&limit=25&offset=-3&field_list=api_detail_url"
    );
}

#[test]
fn detail_address() {
    assert_eq!(
        detail_url("https://www.giantbomb.com/api/game/3030-1156/", "SECRET"),
        format!(
            "https://www.giantbomb.com/api/game/3030-1156/?api_key=SECRET&format=json&field_list={}",
            FIELDS
        )
    );
    assert_eq!(detail_url("", "k"), format!("?api_key=k&format=json&field_list={}", FIELDS));
}

fn encoded(text: &str) -> String {
    let mut out = String::new();
    push_query_encoded(&mut out, text);
    out
}

/// Reads a percent-encoded text back, as the receiver of a query does.
fn decoded(text: &str) -> String {
    let raw = text.as_bytes();
    let mut bytes = Vec::new();
    let mut i = 0;
    while i < raw.len() {
        if raw[i] == b'%' {
            let pair = std::str::from_utf8(&raw[i + 1..i + 3]).unwrap();
            bytes.push(u8::from_str_radix(pair, 16).unwrap());
            i += 3;
        } else {
            bytes.push(raw[i]);
            i += 1;
        }
    }
    String::from_utf8(bytes).unwrap()
}

#[test]
fn unreserved_characters_stand_for_themselves() {
    let plain = "ABCDEFGHIJKLMNOPQRSTUVWXYZabcdefghijklmnopqrstuvwxyz0123456789-._~";
    assert_eq!(encoded(plain), plain);
    assert_eq!(encoded(""), "");
    assert_eq!(encoded("zelda"), "zelda");
    for byte in 0..=255u8 {
        assert_eq!(is_unreserved(byte), plain.as_bytes().contains(&byte));
    }
}

#[test]
fn reserved_characters_are_escaped() {
    assert_eq!(encoded(" "), "%20");
    assert_eq!(encoded("metroid prime"), "metroid%20prime");
    assert_eq!(encoded("a&limit=100#x"), "a%26limit%3D100%23x");
    assert_eq!(encoded("x&field_list=description"), "x%26field_list%3Ddescription");
    assert_eq!(encoded("100%"), "100%25");
    assert_eq!(encoded("%41"), "%2541");
    assert_eq!(encoded("a+b/c?d"), "a%2Bb%2Fc%3Fd");
    assert_eq!(encoded("\0\n\u{7f}"), "%00%0A%7F");
    assert_eq!(encoded("!*'();:@$,[]"), "%21%2A%27%28%29%3B%3A%40%24%2C%5B%5D");
}

#[test]
fn other_scripts_are_escaped_byte_by_byte() {
    assert_eq!(encoded("é"), "%C3%A9");
    assert_eq!(encoded("Pokémon"), "Pok%C3%A9mon");
    assert_eq!(encoded("ゼルダ"), "%E3%82%BC%E3%83%AB%E3%83%80");
    assert_eq!(encoded("🎮"), "%F0%9F%8E%AE");
    assert_eq!(encoded("\u{ff}\u{100}\u{ffff}\u{10ffff}"), "%C3%BF%C4%80%EF%BF%BF%F4%8F%BF%BF");
}

#[test]
fn encoded_text_is_appended_to_what_is_there() {
    let mut out = String::from("q=");
    push_query_encoded(&mut out, "a b");
    push_query_encoded(&mut out, "&");
    assert_eq!(out, "q=a%20b%26");
}

#[test]
fn encoded_text_reads_back_as_the_text() {
    for text in [
        "",
        "zelda",
        "a&limit=100#x",
        "half life & more=2",
        "100% orange juice",
        "%25",
        "Pokémon Snap",
        "ゼルダの伝説",
        "🎮 + 🕹",
        "\u{0}\u{1}\u{7f}\u{80}\u{7ff}\u{800}\u{d7ff}\u{e000}\u{10000}",
    ] {
        let query = encoded(text);
        assert!(query
            .chars()
            .all(|c| c == '%' || c.is_ascii_alphanumeric() || "-._~".contains(c)));
        assert_eq!(decoded(&query), text);
    }
}

#[test]
fn search_address_carries_the_term_encoded() {
    assert_eq!(SEARCH_LIMIT, 5);
    assert_eq!(CATALOG, "https://www.giantbomb.com");
    assert_eq!(
        search_url(CATALOG, "SECRET", "zelda"),
        format!(
            "https://www.giantbomb.com/api/search?api_key=SECRET&format=json&resources=game&limit=5&field_list={}&query=zelda",
            FIELDS
        )
    );
    assert_eq!(
        search_url("http://h", "k", "half life & more=2"),
        format!(
            "http://h/api/search?api_key=k&format=json&resources=game&limit=5&field_list={}&query=half%20life%20%26%20more%3D2",
            FIELDS
        )
    );
    assert_eq!(
        search_url("http://h", "k", "a&limit=100#x"),
        format!(
            "http://h/api/search?api_key=k&format=json&resources=game&limit=5&field_list={}&query=a%26limit%3D100%23x",
            FIELDS
        )
    );
    assert_eq!(
        search_url("http://h", "k", ""),
        format!(
            "http://h/api/search?api_key=k&format=json&resources=game&limit=5&field_list={}&query=",
            FIELDS
        )
    );
}

#[test]
fn search_term_cannot_add_a_parameter() {
    let url = search_url("http://h", "k", "x&field_list=description&limit=100#frag");
    assert_eq!(url.matches('&').count(), 5);
    assert_eq!(url.matches('#').count(), 0);
    assert_eq!(url.matches("limit=").count(), 1);
    assert_eq!(url.matches("field_list=").count(), 1);
    assert!(url.contains("&limit=5&"));
    assert!(url.contains("&resources=game&"));
    let query = url.rsplit("&query=").next().unwrap();
    assert_eq!(decoded(query), "x&field_list=description&limit=100#frag");
}
