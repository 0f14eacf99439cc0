use neo_ai::url::{content_url, sanitize_title, search_url};

#[test]
fn query_is_percent_encoded() {
    assert_eq!(
        search_url("http://localhost:8080", "wikipedia_en", "foo bar?"),
        "http://localhost:8080/search?books.name=wikipedia_en&pattern=foo%20bar%3F"
    );
}

#[test]
fn letters_and_digits_are_kept() {
    assert_eq!(search_url("u", "z", "Az09"), "u/search?books.name=z&pattern=Az09");
}

#[test]
fn bytes_beyond_ascii_are_encoded_one_by_one() {
    assert_eq!(search_url("u", "z", "\u{e9}_~"), "u/search?books.name=z&pattern=%C3%A9%5F%7E");
}

#[test]
fn title_loses_stars_and_spaces() {
    assert_eq!(sanitize_title("**Mount Etna** "), "Mount_Etna_");
    assert_eq!(sanitize_title(""), "");
}

#[test]
fn content_address_is_built_from_the_sanitized_title() {
    assert_eq!(
        content_url("http://localhost:8080", "wikipedia_en", "*Mount Etna*"),
        "http://localhost:8080/content/wikipedia_en/A/Mount_Etna"
    );
}

#[test]
fn every_byte_is_kept_or_written_in_hexadecimal() {
    let mut n: u32 = 0;
    while n <= 0x2100 {
        if let Some(c) = char::from_u32(n) {
            let query = c.to_string();
            let mut expected = String::from("u/search?books.name=z&pattern=");
            for byte in query.as_bytes() {
                if byte.is_ascii_alphanumeric() {
                    expected.push(*byte as char);
                } else {
                    expected.push_str(&format!("%{:02X}", byte));
                }
            }
            assert_eq!(search_url("u", "z", &query), expected, "{:x}", n);
        }
        n += 1;
    }
}

#[test]
fn address_parts_are_not_encoded() {
    assert_eq!(
        search_url("http://h:1/a b", "my zim", "q"),
        "http://h:1/a b/search?books.name=my zim&pattern=q"
    );
    assert_eq!(content_url("http://h", "z", "A/B?c"), "http://h/content/z/A/A/B?c");
}
