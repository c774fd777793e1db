use vstd::prelude::*;

verus! {

/// `String::push` of the standard library appends the character to the end
/// of the string and changes nothing else of it. This is taken on trust
/// from its documentation, not proved.
pub assume_specification[ String::push ](s: &mut String, ch: char)
    ensures
        final(s)@ == old(s)@.push(ch),
;

/// The characters of `s`, in order.
pub fn to_chars(s: &str) -> (chars: Vec<char>)
    ensures
        chars@ == s@,
{
    let mut chars: Vec<char> = Vec::new();
    for c in it: s.chars()
        invariant
            it.seq() == s@,
            chars@ == s@.take(it.index() as int),
    {
        chars.push(c);
    }
    chars
}

/// The string made of `chars`, in order.
pub fn from_chars(chars: &[char]) -> (s: String)
    ensures
        s@ == chars@,
{
    let mut s = String::new();
    let mut i: usize = 0;
    while i < chars.len()
        invariant
            i <= chars.len(),
            s@ == chars@.take(i as int),
        decreases chars.len() - i,
    {
        s.push(chars[i]);
        i += 1;
    }
    s
}

/// Whether two character sequences are equal.
pub fn same_chars(a: &[char], b: &[char]) -> (same: bool)
    ensures
        same == (a@ == b@),
{
    if a.len() != b.len() {
        return false;
    }
    let mut i: usize = 0;
    while i < a.len()
        invariant
            i <= a.len(),
            a.len() == b.len(),
            a@.take(i as int) == b@.take(i as int),
        decreases a.len() - i,
    {
        if a[i] != b[i] {
            return false;
        }
        assert(a@.take(i + 1) == a@.take(i as int).push(a@[i as int]));
        assert(b@.take(i + 1) == b@.take(i as int).push(b@[i as int]));
        i += 1;
    }
    assert(a@.take(a.len() as int) == a@);
    assert(b@.take(b.len() as int) == b@);
    true
}

/// Whether two strings hold the same characters.
pub fn same_text(a: &str, b: &str) -> (same: bool)
    ensures
        same == (a@ == b@),
{
    let a_chars = to_chars(a);
    let b_chars = to_chars(b);
    same_chars(a_chars.as_slice(), b_chars.as_slice())
}

/// Whether `c` separates the words of a line: a space, a tab, a line feed, a
/// form feed or a carriage return.
pub open spec fn is_space(c: char) -> bool {
    c == ' ' || c == '\t' || c == '\n' || c == '\x0C' || c == '\r'
}

/// The words found in the first `n` characters of `s`: those that a
/// separator has ended, and the characters of the one that is still open.
pub open spec fn scan(s: Seq<char>, n: int) -> (Seq<Seq<char>>, Seq<char>)
    decreases n,
{
    if n <= 0 || n > s.len() {
        (Seq::empty(), Seq::empty())
    } else {
        let (ended, open) = scan(s, n - 1);
        if is_space(s[n - 1]) {
            if open.len() > 0 {
                (ended.push(open), Seq::empty())
            } else {
                (ended, open)
            }
        } else {
            (ended, open.push(s[n - 1]))
        }
    }
}

/// The words of a line: its longest runs of characters that are no
/// separators, in order.
pub open spec fn words(s: Seq<char>) -> Seq<Seq<char>> {
    let (ended, open) = scan(s, s.len() as int);
    if open.len() > 0 {
        ended.push(open)
    } else {
        ended
    }
}

/// The characters of each word.
pub open spec fn texts(words: Seq<Vec<char>>) -> Seq<Seq<char>> {
    Seq::new(words.len(), |i: int| words[i]@)
}

/// The characters of each string.
pub open spec fn string_texts(strings: Seq<String>) -> Seq<Seq<char>> {
    Seq::new(strings.len(), |i: int| strings[i]@)
}

/// Whether `word` holds no separator.
pub open spec fn spaceless(word: Seq<char>) -> bool {
    forall|j: int| 0 <= j < word.len() ==> !is_space(#[trigger] word[j])
}

/// No word found by `scan` is empty, and none holds a separator.
pub proof fn lemma_scan_words(s: Seq<char>, n: int)
    requires
        0 <= n <= s.len(),
    ensures
        forall|i: int|
            0 <= i < scan(s, n).0.len() ==> (#[trigger] scan(s, n).0[i]).len() > 0 && spaceless(
                scan(s, n).0[i],
            ),
        spaceless(scan(s, n).1),
    decreases n,
{
    if n > 0 {
        lemma_scan_words(s, n - 1);
        let (ended, open) = scan(s, n - 1);
        if is_space(s[n - 1]) {
            if open.len() > 0 {
                assert forall|i: int| 0 <= i < ended.push(open).len() implies (
                #[trigger] ended.push(open)[i]).len() > 0 && spaceless(ended.push(open)[i]) by {
                    if i < ended.len() {
                        assert(ended.push(open)[i] == ended[i]);
                    }
                }
            }
        } else {
            assert forall|j: int| 0 <= j < open.push(s[n - 1]).len() implies !is_space(
                #[trigger] open.push(s[n - 1])[j],
            ) by {
                if j < open.len() {
                    assert(open.push(s[n - 1])[j] == open[j]);
                }
            }
        }
    }
}

/// No word of a line is empty, and none holds a separator.
pub proof fn law_words_hold_no_separator(s: Seq<char>)
    ensures
        forall|i: int|
            0 <= i < words(s).len() ==> (#[trigger] words(s)[i]).len() > 0 && spaceless(
                words(s)[i],
            ),
{
    lemma_scan_words(s, s.len() as int);
    let (ended, open) = scan(s, s.len() as int);
    if open.len() > 0 {
        assert forall|i: int| 0 <= i < ended.push(open).len() implies (#[trigger] ended.push(
            open,
        )[i]).len() > 0 && spaceless(ended.push(open)[i]) by {
            if i < ended.len() {
                assert(ended.push(open)[i] == ended[i]);
            }
        }
    }
}

/// Whether `c` separates the words of a line.
pub fn separates(c: char) -> (space: bool)
    ensures
        space == is_space(c),
{
    c == ' ' || c == '\t' || c == '\n' || c == '\x0C' || c == '\r'
}

/// Splits a line into its words.
pub fn split_words(line: &[char]) -> (found: Vec<Vec<char>>)
    ensures
        texts(found@) == words(line@),
{
    let mut ended: Vec<Vec<char>> = Vec::new();
    let mut open: Vec<char> = Vec::new();
    let mut i: usize = 0;
    while i < line.len()
        invariant
            i <= line.len(),
            (texts(ended@), open@) == scan(line@, i as int),
        decreases line.len() - i,
    {
        let c = line[i];
        let ghost before = texts(ended@);
        if separates(c) {
            if open.len() > 0 {
                let ghost word = open@;
                ended.push(open);
                open = Vec::new();
                assert(texts(ended@) =~= before.push(word));
            }
        } else {
            open.push(c);
        }
        i += 1;
    }
    if open.len() > 0 {
        let ghost before = texts(ended@);
        let ghost word = open@;
        ended.push(open);
        assert(texts(ended@) =~= before.push(word));
    }
    ended
}

/// The lines found in the first `n` characters of `s`: those that a line
/// feed has ended, and the characters of the one that is still open.
pub open spec fn scan_lines(s: Seq<char>, n: int) -> (Seq<Seq<char>>, Seq<char>)
    decreases n,
{
    if n <= 0 || n > s.len() {
        (Seq::empty(), Seq::empty())
    } else {
        let (ended, open) = scan_lines(s, n - 1);
        if s[n - 1] == '\n' {
            (ended.push(open), Seq::empty())
        } else {
            (ended, open.push(s[n - 1]))
        }
    }
}

/// The lines of a text: what stands between its line feeds, before the
/// first and after the last.
pub open spec fn lines_of(s: Seq<char>) -> Seq<Seq<char>> {
    scan_lines(s, s.len() as int).0.push(scan_lines(s, s.len() as int).1)
}

/// Splits a text into its lines.
pub fn split_lines(text: &[char]) -> (found: Vec<Vec<char>>)
    ensures
        texts(found@) == lines_of(text@),
{
    let mut ended: Vec<Vec<char>> = Vec::new();
    let mut open: Vec<char> = Vec::new();
    let mut i: usize = 0;
    while i < text.len()
        invariant
            i <= text.len(),
            (texts(ended@), open@) == scan_lines(text@, i as int),
        decreases text.len() - i,
    {
        let c = text[i];
        if c == '\n' {
            let ghost before = texts(ended@);
            let ghost line = open@;
            ended.push(open);
            open = Vec::new();
            assert(texts(ended@) =~= before.push(line));
        } else {
            open.push(c);
        }
        i += 1;
    }
    let ghost before = texts(ended@);
    let ghost line = open@;
    ended.push(open);
    assert(texts(ended@) =~= before.push(line));
    ended
}

} // verus!
