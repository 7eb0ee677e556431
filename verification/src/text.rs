//! Text helpers over the characters of a string.

use vstd::prelude::*;

verus! {

/// Whether `c` is white space: one of the characters with the Unicode
/// property `White_Space`, which are the tab, the line feed, the vertical
/// tab, the form feed, the carriage return, the space, the next-line
/// character, the no-break space, the ogham space mark, the spaces from the
/// en quad to the hair space, the line and the paragraph separator, the
/// narrow no-break space, the medium mathematical space and the ideographic
/// space.
pub open spec fn is_whitespace(c: char) -> bool {
    let n = c as u32;
    ||| 0x0009 <= n <= 0x000D
    ||| n == 0x0020
    ||| n == 0x0085
    ||| n == 0x00A0
    ||| n == 0x1680
    ||| 0x2000 <= n <= 0x200A
    ||| n == 0x2028
    ||| n == 0x2029
    ||| n == 0x202F
    ||| n == 0x205F
    ||| n == 0x3000
}

/// Whether `c` is white space.
pub fn char_is_whitespace(c: char) -> (b: bool)
    ensures
        b == is_whitespace(c),
{
    let n: u32 = c as u32;
    let control = 0x0009 <= n && n <= 0x000D;
    let quads = 0x2000 <= n && n <= 0x200A;
    let single = n == 0x0020 || n == 0x0085 || n == 0x00A0 || n == 0x1680 || n == 0x2028 || n
        == 0x2029 || n == 0x202F || n == 0x205F || n == 0x3000;
    control || quads || single
}

/// Calls `String::push`, which appends one character to the end of the string.
#[verifier::external_body]
pub(crate) fn push_char(s: &mut String, c: char)
    ensures
        final(s)@ == old(s)@.push(c),
{
    s.push(c)
}

/// Calls `String::pop`, which removes the last character of the string and
/// returns it, or returns nothing and leaves an empty string as it is.
#[verifier::external_body]
pub(crate) fn pop_char(s: &mut String) -> (popped: Option<char>)
    ensures
        old(s)@.len() == 0 ==> popped is None && final(s)@ == old(s)@,
        old(s)@.len() > 0 ==> popped == Some(old(s)@.last()) && final(s)@ == old(s)@.drop_last(),
{
    s.pop()
}

/// `s` without its last character; an empty `s` stays empty.
pub open spec fn without_last(s: Seq<char>) -> Seq<char> {
    if s.len() == 0 {
        s
    } else {
        s.drop_last()
    }
}

/// The views of the strings in `v`.
pub open spec fn texts(v: Seq<String>) -> Seq<Seq<char>> {
    v.map_values(|s: String| s@)
}

/// The view of an optional string.
pub open spec fn optional_text(s: Option<String>) -> Option<Seq<char>> {
    match s {
        Some(t) => Some(t@),
        None => None,
    }
}

/// Adding a string to a list adds its view to the list's views.
pub proof fn lemma_texts_push(v: Seq<String>, s: String)
    ensures
        texts(v.push(s)) == texts(v).push(s@),
{
    assert(texts(v.push(s)) =~= texts(v).push(s@));
}

/// The characters of `s`, in order.
pub fn chars_of(s: &str) -> (v: Vec<char>)
    ensures
        v@ == s@,
{
    let mut v: Vec<char> = Vec::new();
    for c in it: s.chars()
        invariant
            v@ == it.seq().take(it.index() as int),
    {
        v.push(c);
    }
    v
}

/// The string made of `chars[from..to]`.
pub fn text_of(chars: &Vec<char>, from: usize, to: usize) -> (s: String)
    requires
        from <= to <= chars.len(),
    ensures
        s@ == chars@.subrange(from as int, to as int),
{
    let mut s = String::new();
    let mut i: usize = from;
    while i < to
        invariant
            from <= i <= to <= chars.len(),
            s@ == chars@.subrange(from as int, i as int),
        decreases to - i,
    {
        push_char(&mut s, chars[i]);
        i += 1;
    }
    s
}

/// `a` followed by `b`.
pub fn joined(a: &str, b: &str) -> (s: String)
    ensures
        s@ == a@ + b@,
{
    let mut s = String::new();
    for c in it: a.chars()
        invariant
            s@ == it.seq().take(it.index() as int),
    {
        push_char(&mut s, c);
    }
    assert(s@ == a@);
    for c in it: b.chars()
        invariant
            s@ == a@ + it.seq().take(it.index() as int),
    {
        push_char(&mut s, c);
    }
    s
}

/// `s` without its leading white space.
pub open spec fn trim_start(s: Seq<char>) -> Seq<char>
    decreases s.len(),
{
    if s.len() > 0 && is_whitespace(s[0]) {
        trim_start(s.skip(1))
    } else {
        s
    }
}

/// `s` without its trailing white space.
pub open spec fn trim_end(s: Seq<char>) -> Seq<char>
    decreases s.len(),
{
    if s.len() > 0 && is_whitespace(s.last()) {
        trim_end(s.drop_last())
    } else {
        s
    }
}

/// `s` without leading and trailing white space.
pub open spec fn trimmed(s: Seq<char>) -> Seq<char> {
    trim_end(trim_start(s))
}

/// Every character of `s` is white space.
pub open spec fn is_blank(s: Seq<char>) -> bool {
    forall|i: int| 0 <= i < s.len() ==> is_whitespace(#[trigger] s[i])
}

/// Appends `t` to `s`.
pub fn append(s: &mut String, t: &str)
    ensures
        final(s)@ == old(s)@ + t@,
{
    let ghost before = s@;
    assert(s@ == before + Seq::<char>::empty());
    for c in it: t.chars()
        invariant
            s@ == before + it.seq().take(it.index() as int),
    {
        push_char(s, c);
    }
}

/// Removes leading and trailing white space.
pub fn trim(s: &str) -> (t: String)
    ensures
        t@ == trimmed(s@),
{
    let chars = chars_of(s);
    let n = chars.len();
    let mut start: usize = 0;
    assert(chars@.skip(0) == chars@);
    while start < n && char_is_whitespace(chars[start])
        invariant
            start <= n == chars.len(),
            trim_start(chars@) == trim_start(chars@.skip(start as int)),
        decreases n - start,
    {
        assert(chars@.skip(start as int).skip(1) == chars@.skip(start + 1));
        start += 1;
    }
    let ghost rest = chars@.skip(start as int);
    assert(trim_start(chars@) == rest);
    let mut end: usize = n;
    assert(rest == chars@.subrange(start as int, n as int));
    while end > start && char_is_whitespace(chars[end - 1])
        invariant
            start <= end <= n == chars.len(),
            rest == chars@.skip(start as int),
            trim_end(rest) == trim_end(chars@.subrange(start as int, end as int)),
        decreases end,
    {
        assert(chars@.subrange(start as int, end as int).drop_last() == chars@.subrange(
            start as int,
            end - 1,
        ));
        end -= 1;
    }
    text_of(&chars, start, end)
}

/// Whether every character of `s` is white space.
pub fn blank(s: &str) -> (b: bool)
    ensures
        b == is_blank(s@),
{
    let chars = chars_of(s);
    let mut i: usize = 0;
    while i < chars.len()
        invariant
            i <= chars.len(),
            chars@ == s@,
            forall|k: int| 0 <= k < i ==> is_whitespace(#[trigger] chars@[k]),
        decreases chars.len() - i,
    {
        if !char_is_whitespace(chars[i]) {
            return false;
        }
        i += 1;
    }
    true
}

/// Whether `s` begins with the character `c`.
pub fn starts_with_char(s: &str, c: char) -> (b: bool)
    ensures
        b == (s@.len() > 0 && s@[0] == c),
{
    let chars = chars_of(s);
    chars.len() > 0 && chars[0] == c
}

/// Whether `needle` occurs in `hay` at position `at`.
pub open spec fn occurs_at(hay: Seq<char>, needle: Seq<char>, at: int) -> bool {
    0 <= at && at + needle.len() <= hay.len() && hay.subrange(at, at + needle.len()) == needle
}

/// Whether `needle` occurs somewhere in `hay`.
pub open spec fn has_substring(hay: Seq<char>, needle: Seq<char>) -> bool {
    exists|at: int| occurs_at(hay, needle, at)
}

fn matches_at(hay: &Vec<char>, needle: &Vec<char>, at: usize) -> (b: bool)
    requires
        at + needle.len() <= hay.len(),
    ensures
        b == occurs_at(hay@, needle@, at as int),
{
    let mut k: usize = 0;
    while k < needle.len()
        invariant
            k <= needle.len(),
            at + needle.len() <= hay.len(),
            forall|j: int| 0 <= j < k ==> hay@[at + j] == needle@[j],
        decreases needle.len() - k,
    {
        if hay[at + k] != needle[k] {
            assert(hay@.subrange(at as int, at + needle.len())[k as int] != needle@[k as int]);
            return false;
        }
        k += 1;
    }
    assert(hay@.subrange(at as int, at + needle.len()) =~= needle@);
    true
}

/// Whether `needle` occurs somewhere in `hay`.
pub fn contains(hay: &str, needle: &str) -> (b: bool)
    ensures
        b == has_substring(hay@, needle@),
{
    let h = chars_of(hay);
    let n = chars_of(needle);
    if n.len() > h.len() {
        return false;
    }
    let last: usize = h.len() - n.len();
    let mut at: usize = 0;
    loop
        invariant
            h@ == hay@,
            n@ == needle@,
            last == h.len() - n.len(),
            at <= last,
            forall|k: int| 0 <= k < at ==> !occurs_at(h@, n@, k),
        decreases last - at,
    {
        if matches_at(&h, &n, at) {
            return true;
        }
        if at == last {
            return false;
        }
        at += 1;
    }
}

/// The length of the run of characters at the start of `s` that are not white space.
pub open spec fn word_len(s: Seq<char>) -> nat
    decreases s.len(),
{
    if s.len() == 0 || is_whitespace(s[0]) {
        0
    } else {
        1 + word_len(s.skip(1))
    }
}

/// A word is never longer than the text it starts.
pub proof fn lemma_word_len_bound(s: Seq<char>)
    ensures
        word_len(s) <= s.len(),
    decreases s.len(),
{
    if s.len() > 0 && !is_whitespace(s[0]) {
        lemma_word_len_bound(s.skip(1));
    }
}

/// The maximal runs of characters of `s` that are not white space, in order.
pub open spec fn split_words(s: Seq<char>) -> Seq<Seq<char>>
    decreases s.len(),
    via split_words_decreases
{
    if s.len() == 0 {
        Seq::empty()
    } else if is_whitespace(s[0]) {
        split_words(s.skip(1))
    } else {
        seq![s.take(word_len(s) as int)] + split_words(s.skip(word_len(s) as int))
    }
}

#[via_fn]
proof fn split_words_decreases(s: Seq<char>) {
    lemma_word_len_bound(s);
}

/// Splits `s` at white space and drops the empty pieces.
pub fn split_whitespace(s: &str) -> (words: Vec<String>)
    ensures
        texts(words@) == split_words(s@),
{
    let chars = chars_of(s);
    let n = chars.len();
    let mut words: Vec<String> = Vec::new();
    let mut i: usize = 0;
    assert(chars@.skip(0) == chars@);
    assert(texts(words@) + split_words(chars@) == split_words(chars@));
    while i < n
        invariant
            i <= n == chars.len(),
            split_words(chars@) == texts(words@) + split_words(chars@.skip(i as int)),
        decreases n - i,
    {
        let ghost rest = chars@.skip(i as int);
        if char_is_whitespace(chars[i]) {
            assert(rest.skip(1) == chars@.skip(i + 1));
            i += 1;
        } else {
            let start: usize = i;
            while i < n && !char_is_whitespace(chars[i])
                invariant
                    start <= i <= n == chars.len(),
                    rest == chars@.skip(start as int),
                    word_len(rest) == (i - start) + word_len(chars@.skip(i as int)),
                decreases n - i,
            {
                assert(chars@.skip(i as int).skip(1) == chars@.skip(i + 1));
                i += 1;
            }
            assert(word_len(rest) == i - start);
            let word = text_of(&chars, start, i);
            assert(word@ == rest.take(word_len(rest) as int));
            assert(rest.skip(word_len(rest) as int) == chars@.skip(i as int));
            let ghost before = texts(words@);
            words.push(word);
            assert(texts(words@) == before + seq![word@]);
            assert(before + (seq![word@] + split_words(chars@.skip(i as int))) == texts(words@)
                + split_words(chars@.skip(i as int)));
        }
    }
    assert(texts(words@) + Seq::<Seq<char>>::empty() == texts(words@));
    words
}

/// `s` with each `{}` replaced by `arg`, reading from left to right.
pub open spec fn fill_placeholders(s: Seq<char>, arg: Seq<char>) -> Seq<char>
    decreases s.len(),
{
    if s.len() == 0 {
        s
    } else if s.len() >= 2 && s[0] == '{' && s[1] == '}' {
        arg + fill_placeholders(s.skip(2), arg)
    } else {
        seq![s[0]] + fill_placeholders(s.skip(1), arg)
    }
}

/// Replaces each `{}` in `s` by `arg`.
pub fn replace_placeholders(s: &str, arg: &str) -> (r: String)
    ensures
        r@ == fill_placeholders(s@, arg@),
{
    let chars = chars_of(s);
    let with = chars_of(arg);
    let n = chars.len();
    let mut r = String::new();
    let mut i: usize = 0;
    assert(chars@.skip(0) == chars@);
    assert(r@ + fill_placeholders(chars@, with@) == fill_placeholders(chars@, with@));
    while i < n
        invariant
            i <= n == chars.len(),
            fill_placeholders(chars@, with@) == r@ + fill_placeholders(
                chars@.skip(i as int),
                with@,
            ),
        decreases n - i,
    {
        let ghost rest = chars@.skip(i as int);
        let ghost before = r@;
        if chars[i] == '{' && i + 1 < n && chars[i + 1] == '}' {
            let mut k: usize = 0;
            while k < with.len()
                invariant
                    k <= with.len(),
                    r@ == before + with@.take(k as int),
                decreases with.len() - k,
            {
                push_char(&mut r, with[k]);
                assert(with@.take(k + 1) == with@.take(k as int).push(with@[k as int]));
                k += 1;
            }
            assert(with@.take(with@.len() as int) == with@);
            assert(rest.skip(2) == chars@.skip(i + 2));
            assert(before + (with@ + fill_placeholders(rest.skip(2), with@)) == r@
                + fill_placeholders(rest.skip(2), with@));
            i += 2;
        } else {
            push_char(&mut r, chars[i]);
            assert(rest.skip(1) == chars@.skip(i + 1));
            assert(before + (seq![rest[0]] + fill_placeholders(rest.skip(1), with@)) == r@
                + fill_placeholders(rest.skip(1), with@));
            i += 1;
        }
    }
    assert(r@ + Seq::<char>::empty() == r@);
    r
}

/// The number of characters of `s` before its first line feed.
pub open spec fn line_len(s: Seq<char>) -> nat
    decreases s.len(),
{
    if s.len() == 0 || s[0] == '\n' {
        0
    } else {
        1 + line_len(s.skip(1))
    }
}

/// A line is never longer than the text it starts.
pub proof fn lemma_line_len_bound(s: Seq<char>)
    ensures
        line_len(s) <= s.len(),
    decreases s.len(),
{
    if s.len() > 0 && s[0] != '\n' {
        lemma_line_len_bound(s.skip(1));
    }
}

/// `line` without the carriage return that ends it, if one does.
pub open spec fn without_carriage_return(line: Seq<char>) -> Seq<char> {
    if line.len() > 0 && line.last() == '\r' {
        line.drop_last()
    } else {
        line
    }
}

/// The lines of `s`. A line ends at a line feed, or at a carriage return
/// followed by a line feed; neither belongs to the line. The last line needs
/// no line feed, and a text that ends in one has no empty line after it.
pub open spec fn lines_of(s: Seq<char>) -> Seq<Seq<char>>
    decreases s.len(),
    via lines_of_decreases
{
    if s.len() == 0 {
        Seq::empty()
    } else if line_len(s) == s.len() {
        seq![s]
    } else {
        seq![without_carriage_return(s.take(line_len(s) as int))] + lines_of(
            s.skip(line_len(s) as int + 1),
        )
    }
}

#[via_fn]
proof fn lines_of_decreases(s: Seq<char>) {
    lemma_line_len_bound(s);
}

/// Splits `s` into its lines.
pub fn split_lines(s: &str) -> (lines: Vec<String>)
    ensures
        texts(lines@) == lines_of(s@),
{
    let chars = chars_of(s);
    let n = chars.len();
    let mut lines: Vec<String> = Vec::new();
    let mut i: usize = 0;
    assert(chars@.skip(0) == chars@);
    assert(texts(lines@) + lines_of(chars@) == lines_of(chars@));
    while i < n
        invariant
            i <= n == chars.len(),
            lines_of(chars@) == texts(lines@) + lines_of(chars@.skip(i as int)),
        decreases n - i,
    {
        let ghost rest = chars@.skip(i as int);
        let ghost before = texts(lines@);
        let start: usize = i;
        while i < n && chars[i] != '\n'
            invariant
                start <= i <= n == chars.len(),
                rest == chars@.skip(start as int),
                line_len(rest) == (i - start) + line_len(chars@.skip(i as int)),
            decreases n - i,
        {
            assert(chars@.skip(i as int).skip(1) == chars@.skip(i + 1));
            i += 1;
        }
        assert(line_len(rest) == i - start);
        assert(chars@.subrange(start as int, i as int) == rest.take(line_len(rest) as int));
        if i == n {
            let line = text_of(&chars, start, i);
            assert(line@ == rest);
            lines.push(line);
            assert(texts(lines@) == before + seq![rest]);
            assert(chars@.skip(n as int) == Seq::<char>::empty());
            assert(before + seq![rest] == texts(lines@) + lines_of(chars@.skip(n as int)));
        } else {
            let end: usize = if i > start && chars[i - 1] == '\r' {
                i - 1
            } else {
                i
            };
            let line = text_of(&chars, start, end);
            assert(line@ == without_carriage_return(rest.take(line_len(rest) as int)));
            lines.push(line);
            assert(texts(lines@) == before + seq![line@]);
            assert(rest.skip(line_len(rest) as int + 1) == chars@.skip(i + 1));
            assert(before + (seq![line@] + lines_of(chars@.skip(i + 1))) == texts(lines@)
                + lines_of(chars@.skip(i + 1)));
            i += 1;
        }
    }
    assert(texts(lines@) + Seq::<Seq<char>>::empty() == texts(lines@));
    lines
}

/// What `textwrap::fill` makes of `text` for lines of `width` columns.
pub uninterp spec fn wrapped(text: Seq<char>, width: usize) -> Seq<char>;

/// Calls `textwrap::fill` with a plain width, which wraps `text` into lines
/// of at most `width` columns where its words allow and joins them with line
/// feeds. The contract gives the outcome its name and claims nothing more.
#[verifier::external_body]
fn fill(text: &str, width: usize) -> (filled: String)
    ensures
        filled@ == wrapped(text@, width),
{
    textwrap::fill(text, width)
}

/// The width to which the description of a list entry is wrapped.
pub const DESCRIPTION_WIDTH: usize = 60;

/// What stands before the description of a list entry.
pub const DESCRIPTION_INDENT: &'static str = "  ";

/// The line shown under a list entry, given its description already wrapped.
pub fn indent_description(filled: &str) -> (line: String)
    ensures
        line@ == DESCRIPTION_INDENT@ + filled@,
{
    joined(DESCRIPTION_INDENT, filled)
}

/// The line shown under a list entry: its description, wrapped and indented.
pub fn description_line(description: &str) -> (line: String)
    ensures
        line@ == DESCRIPTION_INDENT@ + wrapped(description@, DESCRIPTION_WIDTH),
{
    let filled = fill(description, DESCRIPTION_WIDTH);
    indent_description(filled.as_str())
}

/// A text has no words exactly when it is blank.
pub proof fn lemma_blank_has_no_words(s: Seq<char>)
    ensures
        is_blank(s) <==> split_words(s).len() == 0,
    decreases s.len(),
{
    if s.len() > 0 {
        if is_whitespace(s[0]) {
            lemma_blank_has_no_words(s.skip(1));
            if is_blank(s.skip(1)) {
                assert forall|i: int| 0 <= i < s.len() implies is_whitespace(#[trigger] s[i]) by {
                    if i > 0 {
                        assert(s[i] == s.skip(1)[i - 1]);
                    }
                }
            } else {
                let k = choose|k: int| 0 <= k < s.skip(1).len() && !is_whitespace(s.skip(1)[k]);
                assert(s.skip(1)[k] == s[k + 1]);
            }
        }
    }
}

/// A word: at least one character, and none that is white space.
pub open spec fn is_word(w: Seq<char>) -> bool {
    w.len() > 0 && forall|i: int| 0 <= i < w.len() ==> !is_whitespace(#[trigger] w[i])
}

/// The run of characters that starts `s` holds no white space.
pub proof fn lemma_word_holds_no_white_space(s: Seq<char>)
    ensures
        word_len(s) <= s.len(),
        forall|i: int| 0 <= i < word_len(s) ==> !is_whitespace(#[trigger] s[i]),
    decreases s.len(),
{
    if s.len() > 0 && !is_whitespace(s[0]) {
        lemma_word_holds_no_white_space(s.skip(1));
        assert forall|i: int| 0 <= i < word_len(s) implies !is_whitespace(#[trigger] s[i]) by {
            if i > 0 {
                assert(s[i] == s.skip(1)[i - 1]);
            }
        }
    }
}

/// Every piece that splitting at white space gives is a word.
pub proof fn lemma_words_hold_no_white_space(s: Seq<char>)
    ensures
        forall|k: int| 0 <= k < split_words(s).len() ==> is_word(#[trigger] split_words(s)[k]),
    decreases s.len(),
{
    if s.len() > 0 {
        if is_whitespace(s[0]) {
            lemma_words_hold_no_white_space(s.skip(1));
            assert(split_words(s) == split_words(s.skip(1)));
        } else {
            let n = word_len(s) as int;
            lemma_word_holds_no_white_space(s);
            assert(split_words(s) == seq![s.take(n)] + split_words(s.skip(n)));
            lemma_words_hold_no_white_space(s.skip(n));
            let rest = split_words(s.skip(n));
            assert forall|k: int| 0 <= k < split_words(s).len() implies is_word(
                #[trigger] split_words(s)[k],
            ) by {
                if k == 0 {
                    assert(split_words(s)[0] == s.take(n));
                } else {
                    assert(split_words(s)[k] == rest[k - 1]);
                }
            }
        }
    }
}

/// Neither the first nor the last character of `s` is white space.
pub open spec fn has_clean_ends(s: Seq<char>) -> bool {
    s.len() > 0 ==> !is_whitespace(s[0]) && !is_whitespace(s.last())
}

/// What trimming the start leaves is the text from some position on, with
/// white space alone before it and none at its start.
pub proof fn lemma_trim_start_is_a_tail(s: Seq<char>) -> (from: int)
    ensures
        0 <= from <= s.len(),
        trim_start(s) == s.skip(from),
        forall|i: int| 0 <= i < from ==> is_whitespace(#[trigger] s[i]),
        from < s.len() ==> !is_whitespace(s[from]),
    decreases s.len(),
{
    if s.len() > 0 && is_whitespace(s[0]) {
        let from = lemma_trim_start_is_a_tail(s.skip(1));
        assert(s.skip(1).skip(from) == s.skip(from + 1));
        assert forall|i: int| 0 <= i < from + 1 implies is_whitespace(#[trigger] s[i]) by {
            if i > 0 {
                assert(s[i] == s.skip(1)[i - 1]);
            }
        }
        if from + 1 < s.len() {
            assert(s[from + 1] == s.skip(1)[from]);
        }
        from + 1
    } else {
        assert(s.skip(0) == s);
        0
    }
}

/// What trimming the end leaves is the text up to some position, with
/// white space alone after it and none at its end.
pub proof fn lemma_trim_end_is_a_head(s: Seq<char>) -> (to: int)
    ensures
        0 <= to <= s.len(),
        trim_end(s) == s.take(to),
        forall|i: int| to <= i < s.len() ==> is_whitespace(#[trigger] s[i]),
        to > 0 ==> !is_whitespace(s[to - 1]),
    decreases s.len(),
{
    if s.len() > 0 && is_whitespace(s.last()) {
        let to = lemma_trim_end_is_a_head(s.drop_last());
        assert(s.drop_last().take(to) == s.take(to));
        assert forall|i: int| to <= i < s.len() implies is_whitespace(#[trigger] s[i]) by {
            if i < s.len() - 1 {
                assert(s[i] == s.drop_last()[i]);
            }
        }
        if to > 0 {
            assert(s[to - 1] == s.drop_last()[to - 1]);
        }
        to
    } else {
        assert(s.take(s.len() as int) == s);
        s.len() as int
    }
}

/// A trimmed text neither starts nor ends with white space, and is empty
/// exactly when the text was blank.
pub proof fn lemma_trimmed_has_clean_ends(s: Seq<char>)
    ensures
        has_clean_ends(trimmed(s)),
        trimmed(s).len() == 0 <==> is_blank(s),
{
    let from = lemma_trim_start_is_a_tail(s);
    let rest = s.skip(from);
    let to = lemma_trim_end_is_a_head(rest);
    if to > 0 {
        assert(rest.take(to)[0] == s[from]);
        assert(rest.take(to).last() == rest[to - 1]);
        assert(!is_whitespace(s[from + to - 1]));
    } else {
        assert forall|i: int| 0 <= i < s.len() implies is_whitespace(#[trigger] s[i]) by {
            if i >= from {
                assert(s[i] == rest[i - from]);
            }
        }
    }
}

/// Trimming leaves a text alone that neither starts nor ends with white space.
pub proof fn lemma_clean_text_is_its_own_trim(s: Seq<char>)
    requires
        has_clean_ends(s),
    ensures
        trimmed(s) == s,
{
}

} // verus!
