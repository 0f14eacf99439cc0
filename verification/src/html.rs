//! What the retrieval pipeline reads out of HTML: the plain text of an
//! article, and the titles that a search page lists.

use crate::text::{
    all_words, join, joined, lemma_words_are_words, lemma_words_of_joined, normalized, push_words,
    words,
};
use vstd::prelude::*;

verus! {

/// The capture groups of one match: the text that each group captured,
/// `None` for a group that took no part in the match. Group 0 is the match.
pub type Groups = Vec<Option<String>>;

/// What `regex` finds for `pattern` in `text`: its successive
/// non-overlapping matches, each with its capture groups; `None` where
/// `regex` does not accept the pattern.
pub uninterp spec fn regex_captures(pattern: Seq<char>, text: Seq<char>) -> Option<
    Seq<Seq<Option<Seq<char>>>>,
>;

/// `regex::Regex::new` on `pattern`, then `Regex::captures_iter` on `text`,
/// every `Captures` copied group by group. The result is a function of the
/// two strings alone, named `regex_captures`.
#[verifier::external_body]
fn captures(pattern: &str, text: &str) -> (r: Option<Vec<Groups>>)
    ensures
        match r {
            Some(found) => regex_captures(pattern@, text@) == Some(found.deep_view()),
            None => regex_captures(pattern@, text@) is None,
        },
{
    let re = regex::Regex::new(pattern).ok()?;
    Some(
        re.captures_iter(text).map(
            |c| c.iter().map(|group| group.map(|found| found.as_str().to_string())).collect(),
        ).collect(),
    )
}

/// The pattern of the tag bodies that make up an article's text: the body
/// of a `p`, `h1`, `h2` or `h3` element, from the end of its opening tag,
/// whatever attributes that has, to the nearest closing tag of the same
/// name. A body may run over line breaks. Each of the four alternatives has
/// one group, which takes the body.
pub open spec fn tag_pattern() -> Seq<char> {
    "(?s)<p[^>]*>(.*?)</p>|<h1[^>]*>(.*?)</h1>|<h2[^>]*>(.*?)</h2>|<h3[^>]*>(.*?)</h3>"@
}

/// The words of group `index` of a match; none where the match has no such
/// group or the group took no part.
pub open spec fn group_words(groups: Seq<Option<Seq<char>>>, index: int) -> Seq<Seq<char>> {
    if 0 <= index < groups.len() && groups[index] is Some {
        words(groups[index]->0)
    } else {
        Seq::empty()
    }
}

/// The words of the bodies that one match captured, groups 1 to 4 in order.
pub open spec fn match_words(groups: Seq<Option<Seq<char>>>) -> Seq<Seq<char>> {
    group_words(groups, 1) + group_words(groups, 2) + group_words(groups, 3) + group_words(
        groups,
        4,
    )
}

/// The words of all captured bodies, in the order of the matches.
pub open spec fn captured_words(found: Seq<Seq<Option<Seq<char>>>>) -> Seq<Seq<char>> {
    found.map_values(|groups: Seq<Option<Seq<char>>>| match_words(groups)).flatten()
}

/// The plain text of the captured bodies: their words, separated by single
/// spaces.
pub open spec fn captured_text(found: Seq<Seq<Option<Seq<char>>>>) -> Seq<char> {
    joined(captured_words(found), " "@)
}

/// The plain text of an HTML page, given what `regex` found in it for the
/// tag pattern; empty where `regex` does not take the pattern.
pub open spec fn extracted(found: Option<Seq<Seq<Option<Seq<char>>>>>) -> Seq<char> {
    match found {
        Some(found) => captured_text(found),
        None => Seq::empty(),
    }
}

/// Appends the words of group `index` of a match to `out`.
fn push_group_words(groups: &Groups, index: usize, out: &mut Vec<String>)
    ensures
        final(out).deep_view() == old(out).deep_view() + group_words(
            groups.deep_view(),
            index as int,
        ),
{
    if index < groups.len() {
        match &groups[index] {
            Some(body) => {
                push_words(body.as_str(), out);
                return ;
            },
            None => {},
        }
    }
}

/// Reduces captured tag bodies to plain text: every body is split at white
/// space, and all words are joined with single spaces, in the order of the
/// matches. Markup inside a body is kept as it stands.
pub fn text_of_captures(found: &Vec<Groups>) -> (r: String)
    ensures
        r@ == captured_text(found.deep_view()),
{
    let mut all: Vec<String> = Vec::new();
    let mut i: usize = 0;
    let ghost per_match = found.deep_view().map_values(
        |groups: Seq<Option<Seq<char>>>| match_words(groups),
    );
    while i < found.len()
        invariant
            i <= found.len(),
            per_match == found.deep_view().map_values(
                |groups: Seq<Option<Seq<char>>>| match_words(groups),
            ),
            all.deep_view() == per_match.take(i as int).flatten(),
        decreases found.len() - i,
    {
        push_group_words(&found[i], 1, &mut all);
        push_group_words(&found[i], 2, &mut all);
        push_group_words(&found[i], 3, &mut all);
        push_group_words(&found[i], 4, &mut all);
        proof {
            let groups = found[i as int].deep_view();
            assert(per_match.take(i + 1) == per_match.take(i as int).push(match_words(groups)));
            per_match.take(i as int).lemma_flatten_push(match_words(groups));
        }
        i = i + 1;
    }
    assert(per_match.take(found.len() as int) == per_match);
    join(&all, " ")
}

/// The plain text of an HTML page: the bodies of its `p`, `h1`, `h2` and
/// `h3` elements, split at white space and joined with single spaces, in
/// the order in which they stand in the page.
///
/// Markup nested in a body is not removed, and entities are not decoded.
/// The result depends on the page alone.
pub fn extract_text_from_tags(html: &str) -> (r: String)
    ensures
        r@ == extracted(regex_captures(tag_pattern(), html@)),
{
    let pattern =
        "(?s)<p[^>]*>(.*?)</p>|<h1[^>]*>(.*?)</h1>|<h2[^>]*>(.*?)</h2>|<h3[^>]*>(.*?)</h3>";
    match captures(pattern, html) {
        Some(found) => text_of_captures(&found),
        None => String::new(),
    }
}

/// What `select` reads out of the page `html`: the texts of the elements
/// named `tag` below the first element of class `class`, in document order;
/// `None` where the page has no element of that class.
pub uninterp spec fn texts_below(html: Seq<char>, class: Seq<char>, tag: Seq<char>) -> Option<
    Seq<Seq<char>>,
>;

/// The most bytes of a page that is read for its titles. The reader keeps
/// a text in a buffer that holds less than 2^32 bytes, and may write three
/// bytes where the page has one; a page of at most 2^30 bytes stays below
/// that.
pub const MAX_PAGE_BYTES: usize = 0x4000_0000;

/// The most opened tags of a page that is read for its titles. The reader
/// goes down the tree of the page by calling itself once for each level,
/// and a level is there only where a tag opened it: one tag opens one
/// level, the cell of a table up to three, with the row and the body
/// around it. So many tags nest no deeper than the stack of a thread
/// takes.
pub const MAX_PAGE_TAGS: usize = 500;

/// An ASCII letter.
pub open spec fn is_letter(c: char) -> bool {
    ('a' <= c <= 'z') || ('A' <= c <= 'Z')
}

/// How many tags a page opens, at most: the places where a `<` stands
/// before an ASCII letter. Only there can an element begin.
pub open spec fn opened_tags(page: Seq<char>) -> nat
    decreases page.len(),
{
    if page.len() < 2 {
        0
    } else {
        let before = opened_tags(page.drop_last());
        if page[page.len() - 2] == '<' && is_letter(page.last()) {
            before + 1
        } else {
            before
        }
    }
}

/// A longer text opens no fewer tags than its beginning.
pub proof fn lemma_opened_tags_grow(page: Seq<char>, upto: int)
    requires
        0 <= upto <= page.len(),
    ensures
        opened_tags(page.take(upto)) <= opened_tags(page),
    decreases page.len() - upto,
{
    if upto < page.len() {
        assert(page.take(upto + 1).drop_last() == page.take(upto));
        lemma_opened_tags_grow(page, upto + 1);
    } else {
        assert(page.take(upto) == page);
    }
}

/// Whether a page is read for its titles: it is neither longer nor opens
/// more tags than the reader takes.
pub open spec fn readable(page: Seq<char>) -> bool {
    vstd::utf8::encode_utf8(page).len() <= MAX_PAGE_BYTES && opened_tags(page) <= MAX_PAGE_TAGS
}

/// Whether `c` is an ASCII letter.
pub fn is_ascii_letter(c: char) -> (r: bool)
    ensures
        r == is_letter(c),
{
    let n: u32 = c as u32;
    (0x61 <= n && n <= 0x7A) || (0x41 <= n && n <= 0x5A)
}

/// Whether a page is read for its titles.
pub fn is_readable(page: &str) -> (r: bool)
    ensures
        r == readable(page@),
{
    if page.as_bytes().len() > MAX_PAGE_BYTES {
        return false;
    }
    let mut count: usize = 0;
    let mut after_angle = false;
    for c in it: page.chars()
        invariant
            it.seq() == page@,
            count == opened_tags(page@.take(it.index() as int)),
            count <= MAX_PAGE_TAGS,
            after_angle == (it.index() > 0 && page@[it.index() - 1] == '<'),
            vstd::utf8::encode_utf8(page@).len() <= MAX_PAGE_BYTES,
    {
        proof {
            let next = page@.take(it.index() + 1);
            assert(next.drop_last() == page@.take(it.index() as int));
            assert(next.last() == c);
            if it.index() > 0 {
                assert(next[next.len() - 2] == page@[it.index() - 1]);
            }
        }
        if after_angle && is_ascii_letter(c) {
            if count == MAX_PAGE_TAGS {
                proof {
                    lemma_opened_tags_grow(page@, it.index() + 1);
                }
                return false;
            }
            count = count + 1;
        }
        after_angle = c == '<';
    }
    assert(page@.take(page@.len() as int) == page@);
    true
}

/// `select::document::Document::from` on `html`; of the nodes that
/// `Document::find` yields for `Class(class)` the first; below it the nodes
/// that `Node::find` yields for `Name(tag)`, each turned into its
/// `Node::text`. The result is a function of the three strings alone, named
/// `texts_below`.
///
/// `Document::from` refuses a text of 2^32 bytes or more, and both it and
/// `Node::text` go down the tree of the page by calling themselves: pages
/// that are not `readable` are left out.
#[verifier::external_body]
fn select_texts(html: &str, class: &str, tag: &str) -> (r: Option<Vec<String>>)
    requires
        readable(html@),
    ensures
        match r {
            Some(texts) => texts_below(html@, class@, tag@) == Some(texts.deep_view()),
            None => texts_below(html@, class@, tag@) is None,
        },
{
    let document = select::document::Document::from(html);
    let block = document.find(select::predicate::Class(class)).next()?;
    Some(block.find(select::predicate::Name(tag)).map(|node| node.text()).collect())
}

/// The article titles that a search page lists: the texts of the anchors
/// in its results container, the first element of class `results`. A page
/// that is not `readable` lists none, and neither does one without
/// results container.
pub open spec fn listed_titles(page: Seq<char>) -> Option<Seq<Seq<char>>> {
    if readable(page) {
        texts_below(page, "results"@, "a"@)
    } else {
        None
    }
}

/// Reads the article titles off a search page, in the order of the page.
///
/// Returns `None` exactly where the page is longer or opens more tags than
/// is read, or has no results container.
pub fn article_titles(page: &str) -> (r: Option<Vec<String>>)
    ensures
        match r {
            Some(titles) => listed_titles(page@) == Some(titles.deep_view()),
            None => listed_titles(page@) is None,
        },
{
    if is_readable(page) {
        select_texts(page, "results", "a")
    } else {
        None
    }
}

} // verus!
