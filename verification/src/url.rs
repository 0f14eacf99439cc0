//! The addresses of the encyclopedia mirror: the search address of a query
//! and the content address of an article.

use crate::text::{chars_of, string_of};
use vstd::prelude::*;
use vstd::string::StringSliceAdditionalSpecFns;

verus! {

/// The upper-case hexadecimal digit of a value below sixteen.
pub open spec fn hex_digit(n: int) -> char {
    if n == 0 {
        '0'
    } else if n == 1 {
        '1'
    } else if n == 2 {
        '2'
    } else if n == 3 {
        '3'
    } else if n == 4 {
        '4'
    } else if n == 5 {
        '5'
    } else if n == 6 {
        '6'
    } else if n == 7 {
        '7'
    } else if n == 8 {
        '8'
    } else if n == 9 {
        '9'
    } else if n == 10 {
        'A'
    } else if n == 11 {
        'B'
    } else if n == 12 {
        'C'
    } else if n == 13 {
        'D'
    } else if n == 14 {
        'E'
    } else {
        'F'
    }
}

/// A byte that is an ASCII letter or digit.
pub open spec fn is_plain(byte: u8) -> bool {
    ||| 0x30 <= byte <= 0x39
    ||| 0x41 <= byte <= 0x5A
    ||| 0x61 <= byte <= 0x7A
}

/// One byte, percent-encoded: an ASCII letter or digit stands for itself,
/// any other byte becomes `%` and its two upper-case hexadecimal digits.
pub open spec fn encoded_byte(byte: u8) -> Seq<char> {
    if is_plain(byte) {
        seq![byte as char]
    } else {
        seq!['%', hex_digit(byte as int / 16), hex_digit(byte as int % 16)]
    }
}

/// The bytes, each percent-encoded, one after the other.
pub open spec fn percent_encoded(bytes: Seq<u8>) -> Seq<char> {
    bytes.map_values(|byte: u8| encoded_byte(byte)).flatten()
}

/// `percent_encoding::utf8_percent_encode` with the set `NON_ALPHANUMERIC`,
/// collected into a string: every byte of the UTF-8 form of `text` that is
/// not an ASCII letter or digit is written as `%` and two upper-case
/// hexadecimal digits, the others are kept.
#[verifier::external_body]
fn utf8_percent_encode(text: &str) -> (r: String)
    ensures
        r@ == percent_encoded(text.spec_bytes()),
{
    percent_encoding::utf8_percent_encode(text, percent_encoding::NON_ALPHANUMERIC).to_string()
}

/// The address under which the mirror `wiki_url` searches the collection
/// `zim_name` for `query`.
pub open spec fn search_address(wiki_url: Seq<char>, zim_name: Seq<char>, query: Seq<char>) -> Seq<
    char,
> {
    wiki_url + "/search?books.name="@ + zim_name + "&pattern="@ + percent_encoded(
        vstd::utf8::encode_utf8(query),
    )
}

/// The address under which the mirror searches the collection for `query`;
/// the query is percent-encoded.
pub fn search_url(wiki_url: &str, zim_name: &str, query: &str) -> (r: String)
    ensures
        r@ == search_address(wiki_url@, zim_name@, query@),
{
    let mut r = wiki_url.to_owned();
    r.append("/search?books.name=");
    r.append(zim_name);
    r.append("&pattern=");
    let encoded = utf8_percent_encode(query);
    r.append(encoded.as_str());
    r
}

/// A title as it stands in a content address: without its `*` characters,
/// and with `_` for each space.
pub open spec fn sanitized(title: Seq<char>) -> Seq<char> {
    title.filter(|c: char| c != '*').map_values(
        |c: char|
            if c == ' ' {
                '_'
            } else {
                c
            },
    )
}

/// Removes the `*` characters of a title and puts `_` for each space.
pub fn sanitize_title(title: &str) -> (r: String)
    ensures
        r@ == sanitized(title@),
{
    let chars = chars_of(title);
    let mut out: Vec<char> = Vec::new();
    let mut i: usize = 0;
    while i < chars.len()
        invariant
            i <= chars.len(),
            chars@ == title@,
            out@ == sanitized(chars@.take(i as int)),
        decreases chars.len() - i,
    {
        let c = chars[i];
        proof {
            let keep = |c: char| c != '*';
            let swap = |c: char|
                if c == ' ' {
                    '_'
                } else {
                    c
                };
            let prev = chars@.take(i as int);
            assert(chars@.take(i + 1) == prev.push(c));
            prev.lemma_filter_push(c, keep);
            if c != '*' {
                assert(prev.filter(keep).push(c).map_values(swap) == prev.filter(keep).map_values(
                    swap,
                ).push(swap(c)));
            }
        }
        if c != '*' {
            if c == ' ' {
                out.push('_');
            } else {
                out.push(c);
            }
        }
        i = i + 1;
    }
    assert(chars@.take(chars@.len() as int) == chars@);
    string_of(&out)
}

/// The address under which the mirror `wiki_url` serves the article `title`
/// of the collection `zim_name`.
pub open spec fn content_address(wiki_url: Seq<char>, zim_name: Seq<char>, title: Seq<char>) -> Seq<
    char,
> {
    wiki_url + "/content/"@ + zim_name + "/A/"@ + sanitized(title)
}

/// The address under which the mirror serves the article `title`; the title
/// is sanitized first.
pub fn content_url(wiki_url: &str, zim_name: &str, title: &str) -> (r: String)
    ensures
        r@ == content_address(wiki_url@, zim_name@, title@),
{
    let mut r = wiki_url.to_owned();
    r.append("/content/");
    r.append(zim_name);
    r.append("/A/");
    let clean = sanitize_title(title);
    r.append(clean.as_str());
    r
}

} // verus!
