//! Text primitives: conversions between strings and character vectors,
//! whitespace tokenisation, joining and trimming.
//!
//! Every contract here speaks of the `Seq<char>` view of a string.

use vstd::prelude::*;

verus! {

/// `String::push` appends one character to the end of the string.
pub assume_specification[ String::push ](s: &mut String, ch: char)
    ensures
        final(s)@ == old(s)@.push(ch),
;

/// The characters of `s`, in order.
pub fn chars_of(s: &str) -> (v: Vec<char>)
    ensures
        v@ == s@,
{
    let mut v: Vec<char> = Vec::new();
    for c in it: s.chars()
        invariant
            it.seq() == s@,
            v@ == s@.take(it.index() as int),
    {
        v.push(c);
    }
    v
}

/// The string made of the characters `v[from..to]`.
pub fn string_of_range(v: &Vec<char>, from: usize, to: usize) -> (s: String)
    requires
        from <= to <= v.len(),
    ensures
        s@ == v@.subrange(from as int, to as int),
{
    let mut s = String::new();
    let mut i: usize = from;
    while i < to
        invariant
            from <= i <= to <= v.len(),
            s@ == v@.subrange(from as int, i as int),
        decreases to - i,
    {
        s.push(v[i]);
        i = i + 1;
    }
    s
}

/// The string made of the characters of `v`.
pub fn string_of(v: &Vec<char>) -> (s: String)
    ensures
        s@ == v@,
{
    let s = string_of_range(v, 0, v.len());
    s
}

/// Whether two strings hold the same characters.
pub fn same_text(a: &str, b: &str) -> (r: bool)
    ensures
        r == (a@ == b@),
{
    let x = a.to_owned();
    let y = b.to_owned();
    x == y
}

/// A character with the Unicode property `White_Space`.
pub open spec fn is_space(c: char) -> bool {
    let n = c as u32;
    ||| 0x09 <= n <= 0x0D
    ||| n == 0x20
    ||| n == 0x85
    ||| n == 0xA0
    ||| n == 0x1680
    ||| 0x2000 <= n <= 0x200A
    ||| n == 0x2028
    ||| n == 0x2029
    ||| n == 0x202F
    ||| n == 0x205F
    ||| n == 0x3000
}

/// Whether `c` is white space.
pub fn is_whitespace(c: char) -> (r: bool)
    ensures
        r == is_space(c),
{
    let n: u32 = c as u32;
    (0x09 <= n && n <= 0x0D) || n == 0x20 || n == 0x85 || n == 0xA0 || n == 0x1680 || (0x2000 <= n
        && n <= 0x200A) || n == 0x2028 || n == 0x2029 || n == 0x202F || n == 0x205F || n == 0x3000
}

/// The whitespace-separated words of `s`, in order: its maximal runs of
/// characters that are not white space.
pub open spec fn words(s: Seq<char>) -> Seq<Seq<char>>
    decreases s.len(),
{
    if s.len() == 0 {
        Seq::empty()
    } else {
        let before = s.drop_last();
        let found = words(before);
        if is_space(s.last()) {
            found
        } else if before.len() > 0 && !is_space(before.last()) && found.len() > 0 {
            found.drop_last().push(found.last().push(s.last()))
        } else {
            found.push(seq![s.last()])
        }
    }
}

/// `parts` written one after the other with `sep` between neighbours.
pub open spec fn joined(parts: Seq<Seq<char>>, sep: Seq<char>) -> Seq<char>
    decreases parts.len(),
{
    if parts.len() == 0 {
        Seq::empty()
    } else if parts.len() == 1 {
        parts[0]
    } else {
        joined(parts.drop_last(), sep) + sep + parts.last()
    }
}

/// A word was open at the end of `s`: `s` ends in a character that is not
/// white space.
pub open spec fn ends_in_word(s: Seq<char>) -> bool {
    s.len() > 0 && !is_space(s.last())
}

/// While `s` ends inside a word, that word is the last of `words(s)`.
pub proof fn lemma_words_open(s: Seq<char>)
    ensures
        ends_in_word(s) ==> words(s).len() > 0 && words(s).last().len() > 0,
    decreases s.len(),
{
    if s.len() > 0 {
        lemma_words_open(s.drop_last());
    }
}

/// Splits `s` at white space and appends its words to `out`.
pub fn push_words(s: &str, out: &mut Vec<String>)
    ensures
        final(out).deep_view() == old(out).deep_view() + words(s@),
{
    let chars = chars_of(s);
    let ghost before = out.deep_view();
    let mut word = String::new();
    let mut i: usize = 0;
    while i < chars.len()
        invariant
            i <= chars.len(),
            chars@ == s@,
            ends_in_word(chars@.take(i as int)) <==> word@.len() > 0,
            word@.len() > 0 ==> before + words(chars@.take(i as int)) == out.deep_view().push(
                word@,
            ),
            word@.len() == 0 ==> before + words(chars@.take(i as int)) == out.deep_view(),
        decreases chars.len() - i,
    {
        let c = chars[i];
        proof {
            let prev = chars@.take(i as int);
            let next = chars@.take(i + 1);
            assert(next.drop_last() == prev);
            lemma_words_open(prev);
        }
        if is_whitespace(c) {
            if !word.as_str().is_empty() {
                out.push(word);
                word = String::new();
            }
        } else {
            let ghost open = word@;
            word.push(c);
            proof {
                let prev = chars@.take(i as int);
                let found = words(prev);
                if open.len() > 0 {
                    let shown = out.deep_view();
                    assert(shown.push(open).drop_last() == shown);
                    assert(shown.push(open).last() == open);
                    assert(before + found.drop_last().push(open.push(c)) == (before
                        + found.drop_last()).push(open.push(c)));
                    assert(words(chars@.take(i + 1)) == found.drop_last().push(
                        found.last().push(c),
                    ));
                } else {
                    assert(open.push(c) == seq![c]);
                }
            }
        }
        i = i + 1;
    }
    proof {
        assert(chars@.take(chars@.len() as int) == chars@);
    }
    if !word.as_str().is_empty() {
        out.push(word);
    }
}

/// The white-space-separated words of `s`.
pub fn split_words(s: &str) -> (out: Vec<String>)
    ensures
        out.deep_view() == words(s@),
{
    let mut out: Vec<String> = Vec::new();
    push_words(s, &mut out);
    out
}

/// Writes `parts` one after the other with `sep` between neighbours.
pub fn join(parts: &Vec<String>, sep: &str) -> (r: String)
    ensures
        r@ == joined(parts.deep_view(), sep@),
{
    let mut r = String::new();
    let mut i: usize = 0;
    while i < parts.len()
        invariant
            i <= parts.len(),
            r@ == joined(parts.deep_view().take(i as int), sep@),
        decreases parts.len() - i,
    {
        proof {
            let next = parts.deep_view().take(i + 1);
            assert(next.drop_last() == parts.deep_view().take(i as int));
        }
        if i > 0 {
            r.append(sep);
        }
        r.append(parts[i].as_str());
        i = i + 1;
    }
    assert(parts.deep_view().take(parts.len() as int) == parts.deep_view());
    r
}

/// A character that may wrap a value: a double quote or white space.
pub open spec fn is_wrapping(c: char) -> bool {
    c == '"' || is_space(c)
}

/// `s` without its leading wrapping characters.
pub open spec fn trim_start(s: Seq<char>) -> Seq<char>
    decreases s.len(),
{
    if s.len() > 0 && is_wrapping(s[0]) {
        trim_start(s.drop_first())
    } else {
        s
    }
}

/// `s` without its trailing wrapping characters.
pub open spec fn trim_end(s: Seq<char>) -> Seq<char>
    decreases s.len(),
{
    if s.len() > 0 && is_wrapping(s.last()) {
        trim_end(s.drop_last())
    } else {
        s
    }
}

/// `s` without the double quotes and white space that surround it.
pub open spec fn unwrapped(s: Seq<char>) -> Seq<char> {
    trim_end(trim_start(s))
}

/// Strips the double quotes and white space that surround `s`.
pub fn unwrap_text(s: &str) -> (r: String)
    ensures
        r@ == unwrapped(s@),
{
    let chars = chars_of(s);
    let mut a: usize = 0;
    assert(chars@.skip(0) == chars@);
    while a < chars.len() && (chars[a] == '"' || is_whitespace(chars[a]))
        invariant
            a <= chars.len(),
            trim_start(chars@) == trim_start(chars@.skip(a as int)),
        decreases chars.len() - a,
    {
        assert(chars@.skip(a as int).drop_first() == chars@.skip(a + 1));
        a = a + 1;
    }
    let mut b: usize = chars.len();
    while b > a && (chars[b - 1] == '"' || is_whitespace(chars[b - 1]))
        invariant
            a <= b <= chars.len(),
            trim_start(chars@) == chars@.skip(a as int),
            unwrapped(chars@) == trim_end(chars@.subrange(a as int, b as int)),
        decreases b,
    {
        assert(chars@.subrange(a as int, b as int).drop_last() == chars@.subrange(
            a as int,
            b - 1,
        ));
        b = b - 1;
    }
    string_of_range(&chars, a, b)
}

/// The decimal digit of a value below ten.
pub open spec fn digit(n: int) -> char {
    if n == 0 {
        '0'
    } else if n == 1 {
        '1'
    } else if n == 2 {
        '2'
    } else if n == 3 {
        '3'
    } else if n == 4 {
        '4'
    } else if n == 5 {
        '5'
    } else if n == 6 {
        '6'
    } else if n == 7 {
        '7'
    } else if n == 8 {
        '8'
    } else {
        '9'
    }
}

/// A natural number in decimal, without leading zeros.
pub open spec fn decimal(n: nat) -> Seq<char>
    decreases n,
{
    if n < 10 {
        seq![digit(n as int)]
    } else {
        decimal(n / 10).push(digit((n % 10) as int))
    }
}

/// The decimal digit of a value below ten.
fn digit_char(n: u16) -> (r: char)
    requires
        n < 10,
    ensures
        r == digit(n as int),
{
    if n == 0 {
        '0'
    } else if n == 1 {
        '1'
    } else if n == 2 {
        '2'
    } else if n == 3 {
        '3'
    } else if n == 4 {
        '4'
    } else if n == 5 {
        '5'
    } else if n == 6 {
        '6'
    } else if n == 7 {
        '7'
    } else if n == 8 {
        '8'
    } else {
        '9'
    }
}

/// Writes a number in decimal.
pub fn decimal_string(n: u16) -> (r: String)
    ensures
        r@ == decimal(n as nat),
    decreases n,
{
    if n < 10 {
        let mut r = String::new();
        r.push(digit_char(n));
        r
    } else {
        let mut r = decimal_string(n / 10);
        r.push(digit_char(n % 10));
        r
    }
}

/// A word: at least one character, and none of them white space.
pub open spec fn is_word(w: Seq<char>) -> bool {
    w.len() > 0 && forall|j: int| 0 <= j < w.len() ==> !is_space(#[trigger] w[j])
}

/// Every element is a word.
pub open spec fn all_words(parts: Seq<Seq<char>>) -> bool {
    forall|i: int| 0 <= i < parts.len() ==> is_word(#[trigger] parts[i])
}

/// What `words` returns are words: none is empty, none holds white space.
pub proof fn lemma_words_are_words(s: Seq<char>)
    ensures
        all_words(words(s)),
    decreases s.len(),
{
    if s.len() > 0 {
        lemma_words_are_words(s.drop_last());
    }
}

/// Splitting loses nothing but white space: the words of a text, one after
/// the other, are the text without its white space.
pub proof fn lemma_words_keep_the_rest(s: Seq<char>)
    ensures
        words(s).flatten() == s.filter(|c: char| !is_space(c)),
    decreases s.len(),
{
    let kept = |c: char| !is_space(c);
    if s.len() > 0 {
        let before = s.drop_last();
        let c = s.last();
        let found = words(before);
        lemma_words_keep_the_rest(before);
        lemma_words_open(before);
        assert(before.push(c) == s);
        before.lemma_filter_push(c, kept);
        if !is_space(c) && ends_in_word(before) {
            let open = found.last();
            found.drop_last().lemma_flatten_push(open);
            found.drop_last().lemma_flatten_push(open.push(c));
            assert(found.drop_last().push(open) == found);
            assert(found.drop_last().flatten() + open.push(c) == (found.drop_last().flatten()
                + open).push(c));
        } else if !is_space(c) {
            found.lemma_flatten_push(seq![c]);
        }
    }
}

/// A word that follows white space, or the start of the text, is a word of
/// its own behind those of the text before it.
pub proof fn lemma_words_append_word(before: Seq<char>, w: Seq<char>)
    requires
        !ends_in_word(before),
        is_word(w),
    ensures
        words(before + w) == words(before).push(w),
    decreases w.len(),
{
    let whole = before + w;
    let head = w.drop_last();
    assert(whole.drop_last() == before + head);
    if head.len() == 0 {
        assert(seq![w.last()] == w);
    } else {
        assert(is_word(head));
        lemma_words_append_word(before, head);
        assert(head.push(w.last()) == w);
    }
}

/// Words that are joined by single spaces are found again, each as it was.
pub proof fn lemma_words_of_joined(parts: Seq<Seq<char>>)
    requires
        all_words(parts),
    ensures
        words(joined(parts, " "@)) == parts,
    decreases parts.len(),
{
    reveal_strlit(" ");
    if parts.len() == 1 {
        lemma_words_append_word(Seq::empty(), parts[0]);
    } else if parts.len() > 1 {
        let init = parts.drop_last();
        assert(all_words(init));
        lemma_words_of_joined(init);
        let spaced = joined(init, " "@) + " "@;
        assert(spaced.drop_last() == joined(init, " "@));
        lemma_words_append_word(spaced, parts.last());
    }
}

/// A text in normal form: its words, separated by single spaces.
pub open spec fn normalized(s: Seq<char>) -> Seq<char> {
    joined(words(s), " "@)
}

/// Normal form keeps the words, and is reached in one step: the normal
/// form of a normal form is the same text.
pub proof fn lemma_normalized_is_stable(s: Seq<char>)
    ensures
        words(normalized(s)) == words(s),
        normalized(normalized(s)) == normalized(s),
{
    lemma_words_are_words(s);
    lemma_words_of_joined(words(s));
}

/// After the wrapping characters at the start are gone, none is left
/// there.
pub proof fn lemma_trim_start_is_bare(s: Seq<char>)
    ensures
        trim_start(s).len() > 0 ==> !is_wrapping(trim_start(s)[0]),
        trim_start(s).len() <= s.len(),
    decreases s.len(),
{
    if s.len() > 0 && is_wrapping(s[0]) {
        lemma_trim_start_is_bare(s.drop_first());
    }
}

/// Trimming the end leaves the start as it is, and leaves no wrapping
/// character at the end.
pub proof fn lemma_trim_end_is_bare(s: Seq<char>)
    ensures
        trim_end(s).len() > 0 ==> !is_wrapping(trim_end(s).last()) && trim_end(s)[0] == s[0],
        trim_end(s).len() <= s.len(),
    decreases s.len(),
{
    if s.len() > 0 && is_wrapping(s.last()) {
        lemma_trim_end_is_bare(s.drop_last());
    }
}

/// What `unwrapped` returns has no double quote and no white space at
/// either end, and unwrapping it again changes nothing.
pub proof fn lemma_unwrapped_is_bare(s: Seq<char>)
    ensures
        unwrapped(s).len() > 0 ==> !is_wrapping(unwrapped(s)[0]) && !is_wrapping(
            unwrapped(s).last(),
        ),
        unwrapped(unwrapped(s)) == unwrapped(s),
{
    lemma_trim_start_is_bare(s);
    lemma_trim_end_is_bare(trim_start(s));
}

} // verus!
