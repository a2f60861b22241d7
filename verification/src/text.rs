//! Characters, words, lines and prefixes: the vocabulary the mount table is
//! read in. Text is modelled as `Seq<char>`, the view of `str` and `String`.

use vstd::prelude::*;
use vstd::std_specs::iter::IteratorSpec;

verus! {

/// Whether `c` is white space: the code points that carry Unicode's
/// `White_Space` property.
pub open spec fn is_space(c: char) -> bool {
    let n = c as u32;
    ||| 0x09 <= n <= 0x0d
    ||| n == 0x20
    ||| n == 0x85
    ||| n == 0xa0
    ||| n == 0x1680
    ||| 0x2000 <= n <= 0x200a
    ||| n == 0x2028
    ||| n == 0x2029
    ||| n == 0x202f
    ||| n == 0x205f
    ||| n == 0x3000
}

/// Whether `path` can be handed to a system interface as a C string: it
/// can unless it holds a NUL character.
pub open spec fn marshallable(path: Seq<char>) -> bool {
    !path.contains('\0')
}

/// The first index at or after `from` whose character is white space
/// (`space` true) or is not (`space` false); `s.len()` where there is none.
pub open spec fn first_of_kind(s: Seq<char>, from: int, space: bool) -> int
    recommends
        0 <= from <= s.len(),
    decreases s.len() - from,
{
    if 0 <= from < s.len() && is_space(s[from]) != space {
        first_of_kind(s, from + 1, space)
    } else {
        from
    }
}

/// The first index at or after `from` that holds `c`; `s.len()` where there
/// is none.
pub open spec fn first_char(s: Seq<char>, from: int, c: char) -> int
    recommends
        0 <= from <= s.len(),
    decreases s.len() - from,
{
    if 0 <= from < s.len() && s[from] != c {
        first_char(s, from + 1, c)
    } else {
        from
    }
}

/// The words of `s` that begin at or after `from`: the maximal runs of
/// characters that are not white space, in order.
pub open spec fn words_from(s: Seq<char>, from: int) -> Seq<Seq<char>>
    recommends
        0 <= from <= s.len(),
    decreases s.len() - from,
    via words_from_terminates
{
    let start = first_of_kind(s, from, false);
    let end = first_of_kind(s, start, true);
    if 0 <= from && start < s.len() {
        seq![s.subrange(start, end)] + words_from(s, end)
    } else {
        Seq::empty()
    }
}

#[via_fn]
proof fn words_from_terminates(s: Seq<char>, from: int) {
    if 0 <= from <= s.len() {
        lemma_first_of_kind(s, from, false);
        let start = first_of_kind(s, from, false);
        if start < s.len() {
            lemma_first_of_kind(s, start, true);
        }
    }
}

/// The words of `s`: what is left when `s` is cut at every run of white
/// space. A blank `s` has none.
pub open spec fn words(s: Seq<char>) -> Seq<Seq<char>> {
    words_from(s, 0)
}

/// The lines of `s` that begin at or after `from`. A line ends before a
/// line feed or at the end of `s`; what follows the last line feed is a
/// line too, even when it is empty.
pub open spec fn lines_from(s: Seq<char>, from: int) -> Seq<Seq<char>>
    recommends
        0 <= from <= s.len(),
    decreases s.len() - from,
    via lines_from_terminates
{
    let end = first_char(s, from, '\n');
    if 0 <= from && end < s.len() {
        seq![s.subrange(from, end)] + lines_from(s, end + 1)
    } else {
        seq![s.subrange(from, s.len() as int)]
    }
}

#[via_fn]
proof fn lines_from_terminates(s: Seq<char>, from: int) {
    if 0 <= from <= s.len() {
        lemma_first_char(s, from, '\n');
    }
}

/// The lines of `s`.
pub open spec fn lines(s: Seq<char>) -> Seq<Seq<char>> {
    lines_from(s, 0)
}

/// `first_of_kind` returns what its name says: nothing of the wanted kind
/// lies between `from` and the result, and the result holds one unless it
/// is the end.
pub proof fn lemma_first_of_kind(s: Seq<char>, from: int, space: bool)
    requires
        0 <= from <= s.len(),
    ensures
        from <= first_of_kind(s, from, space) <= s.len(),
        forall|i: int|
            from <= i < first_of_kind(s, from, space) ==> is_space(#[trigger] s[i]) != space,
        first_of_kind(s, from, space) < s.len() ==> is_space(s[first_of_kind(s, from, space)])
            == space,
    decreases s.len() - from,
{
    if from < s.len() && is_space(s[from]) != space {
        lemma_first_of_kind(s, from + 1, space);
    }
}

/// `first_char` returns the first occurrence at or after `from`.
pub proof fn lemma_first_char(s: Seq<char>, from: int, c: char)
    requires
        0 <= from <= s.len(),
    ensures
        from <= first_char(s, from, c) <= s.len(),
        forall|i: int| from <= i < first_char(s, from, c) ==> #[trigger] s[i] != c,
        first_char(s, from, c) < s.len() ==> s[first_char(s, from, c)] == c,
    decreases s.len() - from,
{
    if from < s.len() && s[from] != c {
        lemma_first_char(s, from + 1, c);
    }
}

/// Every word is a run of at least one character, none of them white
/// space.
pub proof fn lemma_words_hold_no_space(s: Seq<char>, from: int)
    requires
        0 <= from <= s.len(),
    ensures
        forall|k: int, i: int|
            #![trigger words_from(s, from)[k][i]]
            0 <= k < words_from(s, from).len() && 0 <= i < words_from(s, from)[k].len()
                ==> !is_space(words_from(s, from)[k][i]),
        forall|k: int|
            0 <= k < words_from(s, from).len() ==> (#[trigger] words_from(s, from)[k]).len() > 0,
    decreases s.len() - from,
{
    lemma_first_of_kind(s, from, false);
    let start = first_of_kind(s, from, false);
    if start < s.len() {
        lemma_first_of_kind(s, start, true);
        lemma_first_of_kind(s, start + 1, true);
        let end = first_of_kind(s, start, true);
        lemma_words_hold_no_space(s, end);
        let rest = words_from(s, end);
        let all = words_from(s, from);
        assert(all =~= seq![s.subrange(start, end)] + rest);
        assert forall|k: int, i: int|
            0 <= k < all.len() && 0 <= i < all[k].len() implies !is_space(
            #[trigger] all[k][i],
        ) by {
            if k == 0 {
                assert(all[0][i] == s[start + i]);
            } else {
                assert(all[k] == rest[k - 1]);
            }
        }
        assert forall|k: int| 0 <= k < all.len() implies (#[trigger] all[k]).len() > 0 by {
            if k > 0 {
                assert(all[k] == rest[k - 1]);
            }
        }
    }
}

/// Text that is white space throughout has no words.
pub proof fn lemma_blank_has_no_words(s: Seq<char>)
    requires
        forall|i: int| 0 <= i < s.len() ==> is_space(#[trigger] s[i]),
    ensures
        words(s).len() == 0,
{
    lemma_first_of_kind(s, 0, false);
}

/// The first word begins at the first character that is not white space.
pub proof fn lemma_first_word(s: Seq<char>, start: int)
    requires
        0 <= start < s.len(),
        !is_space(s[start]),
        forall|i: int| 0 <= i < start ==> is_space(#[trigger] s[i]),
    ensures
        words(s).len() > 0,
        words(s)[0].len() > 0,
        words(s)[0][0] == s[start],
{
    lemma_first_of_kind(s, 0, false);
    lemma_first_of_kind(s, start + 1, true);
    let found = first_of_kind(s, 0, false);
    assert(found == start) by {
        if found < start {
            assert(is_space(s[found]));
        }
        if found > start {
            assert(is_space(s[start]));
        }
    }
}

/// No line holds a line feed.
pub proof fn lemma_lines_hold_no_line_feed(s: Seq<char>, from: int)
    requires
        0 <= from <= s.len(),
    ensures
        forall|k: int|
            0 <= k < lines_from(s, from).len() ==> !(#[trigger] lines_from(s, from)[k]).contains(
                '\n',
            ),
    decreases s.len() - from,
{
    lemma_first_char(s, from, '\n');
    let end = first_char(s, from, '\n');
    let all = lines_from(s, from);
    let first = s.subrange(from, end);
    assert(!first.contains('\n')) by {
        if first.contains('\n') {
            let i = choose|i: int| 0 <= i < first.len() && first[i] == '\n';
            assert(s[from + i] == '\n');
        }
    }
    if end < s.len() {
        lemma_lines_hold_no_line_feed(s, end + 1);
        let rest = lines_from(s, end + 1);
        assert(all =~= seq![first] + rest);
        assert forall|k: int| 0 <= k < all.len() implies !(#[trigger] all[k]).contains('\n') by {
            if k > 0 {
                assert(all[k] == rest[k - 1]);
            }
        }
    } else {
        assert(all =~= seq![first]);
    }
}

/// Text without a line feed is one line.
pub proof fn lemma_single_line(s: Seq<char>)
    requires
        !s.contains('\n'),
    ensures
        lines(s) == seq![s],
{
    lemma_first_char(s, 0, '\n');
    let end = first_char(s, 0, '\n');
    if end < s.len() {
        assert(s.contains('\n'));
    }
    assert(s.subrange(0, s.len() as int) =~= s);
}

proof fn lemma_first_char_left(a: Seq<char>, b: Seq<char>, from: int)
    requires
        0 <= from <= a.len(),
    ensures
        first_char(a + seq!['\n'] + b, from, '\n') == first_char(a, from, '\n'),
    decreases a.len() - from,
{
    let s = a + seq!['\n'] + b;
    if from < a.len() {
        assert(s[from] == a[from]);
        if a[from] != '\n' {
            lemma_first_char_left(a, b, from + 1);
        }
    } else {
        assert(s[from] == '\n');
    }
}

proof fn lemma_first_char_right(a: Seq<char>, b: Seq<char>, j: int)
    requires
        0 <= j <= b.len(),
    ensures
        first_char(a + seq!['\n'] + b, a.len() + 1 + j, '\n') == a.len() + 1 + first_char(
            b,
            j,
            '\n',
        ),
    decreases b.len() - j,
{
    let s = a + seq!['\n'] + b;
    if j < b.len() {
        assert(s[a.len() + 1 + j] == b[j]);
        if b[j] != '\n' {
            lemma_first_char_right(a, b, j + 1);
        }
    }
}

proof fn lemma_lines_right(a: Seq<char>, b: Seq<char>, j: int)
    requires
        0 <= j <= b.len(),
    ensures
        lines_from(a + seq!['\n'] + b, a.len() + 1 + j) == lines_from(b, j),
    decreases b.len() - j,
{
    let s = a + seq!['\n'] + b;
    let n = a.len() as int;
    lemma_first_char_right(a, b, j);
    lemma_first_char(b, j, '\n');
    let end = first_char(b, j, '\n');
    if end < b.len() {
        lemma_lines_right(a, b, end + 1);
        assert(s.subrange(n + 1 + j, n + 1 + end) =~= b.subrange(j, end));
    } else {
        assert(s.subrange(n + 1 + j, s.len() as int) =~= b.subrange(j, b.len() as int));
    }
}

proof fn lemma_lines_left(a: Seq<char>, b: Seq<char>, from: int)
    requires
        0 <= from <= a.len(),
    ensures
        lines_from(a + seq!['\n'] + b, from) == lines_from(a, from) + lines(b),
    decreases a.len() - from,
{
    let s = a + seq!['\n'] + b;
    let n = a.len() as int;
    lemma_first_char_left(a, b, from);
    lemma_first_char(a, from, '\n');
    let end = first_char(a, from, '\n');
    assert(s.subrange(from, end) =~= a.subrange(from, end));
    if end < n {
        lemma_lines_left(a, b, end + 1);
        assert(lines_from(s, from) =~= lines_from(a, from) + lines(b));
    } else {
        lemma_lines_right(a, b, 0);
        assert(lines_from(s, from) =~= lines_from(a, from) + lines(b));
    }
}

/// The lines of two texts joined by a line feed are the lines of the first
/// followed by the lines of the second.
pub proof fn lemma_lines_of_joined(a: Seq<char>, b: Seq<char>)
    ensures
        lines(a + seq!['\n'] + b) == lines(a) + lines(b),
{
    lemma_lines_left(a, b, 0);
}

/// Decides [`is_space`].
pub fn is_whitespace(c: char) -> (b: bool)
    ensures
        b == is_space(c),
{
    let n: u32 = c as u32;
    (0x09 <= n && n <= 0x0d) || n == 0x20 || n == 0x85 || n == 0xa0 || n == 0x1680 || (0x2000 <= n
        && n <= 0x200a) || n == 0x2028 || n == 0x2029 || n == 0x202f || n == 0x205f || n == 0x3000
}

/// Decides [`marshallable`].
pub fn is_marshallable(path: &str) -> (b: bool)
    ensures
        b == marshallable(path@),
{
    for c in it: path.chars()
        invariant
            it.seq() == path@,
            forall|i: int| 0 <= i < it.index() ==> path@[i] != '\0',
    {
        if c == '\0' {
            return false;
        }
    }
    true
}

/// The characters of `s`, in order.
pub fn chars_of(s: &str) -> (v: Vec<char>)
    ensures
        v@ == s@,
{
    let mut v: Vec<char> = Vec::new();
    for c in it: s.chars()
        invariant
            v@ == it.history(),
    {
        v.push(c);
    }
    v
}

/// `String::push` of the standard library: `c` is appended to `s`, and
/// nothing else about `s` changes.
#[verifier::external_body]
fn push_char(s: &mut String, c: char)
    ensures
        final(s)@ == old(s)@.push(c),
{
    s.push(c)
}

/// The string made of `chars`, in order.
pub fn string_of(chars: &[char]) -> (s: String)
    ensures
        s@ == chars@,
{
    let mut s = String::new();
    let mut i: usize = 0;
    while i < chars.len()
        invariant
            i <= chars.len(),
            s@ == chars@.take(i as int),
        decreases chars.len() - i,
    {
        push_char(&mut s, chars[i]);
        i += 1;
    }
    s
}

/// Whether `s` begins with `prefix`, character for character.
pub fn starts_with(s: &str, prefix: &str) -> (b: bool)
    ensures
        b == prefix@.is_prefix_of(s@),
{
    let mut rest = s.chars();
    for c in it: prefix.chars()
        invariant
            it.seq() == prefix@,
            rest.remaining() == s@.skip(it.index()),
            it.index() <= s@.len(),
            forall|i: int| 0 <= i < it.index() ==> prefix@[i] == s@[i],
    {
        match rest.next() {
            None => {
                return false;
            },
            Some(d) => {
                if c != d {
                    return false;
                }
            },
        }
    }
    true
}

/// Finds the first character of the wanted kind at or after `from`.
pub fn find_kind(s: &[char], from: usize, space: bool) -> (k: usize)
    ensures
        k == first_of_kind(s@, from as int, space),
        from <= k,
        from <= s.len() ==> k <= s.len(),
{
    let mut k: usize = from;
    while k < s.len() && is_whitespace(s[k]) != space
        invariant
            from <= k,
            from <= s.len() ==> k <= s.len(),
            first_of_kind(s@, from as int, space) == first_of_kind(s@, k as int, space),
        decreases s.len() - k,
    {
        k += 1;
    }
    k
}

/// Finds the first `c` at or after `from`.
pub fn find_char(s: &[char], from: usize, c: char) -> (k: usize)
    ensures
        k == first_char(s@, from as int, c),
        from <= k,
        from <= s.len() ==> k <= s.len(),
{
    let mut k: usize = from;
    while k < s.len() && s[k] != c
        invariant
            from <= k,
            from <= s.len() ==> k <= s.len(),
            first_char(s@, from as int, c) == first_char(s@, k as int, c),
        decreases s.len() - k,
    {
        k += 1;
    }
    k
}

/// The bounds of the first word at or after `from`, or `None` where only
/// white space is left. The word is `s[start..end]`, and the words after it
/// are those from `end` on.
pub fn next_word(s: &[char], from: usize) -> (w: Option<(usize, usize)>)
    ensures
        match w {
            Some((start, end)) => {
                &&& from <= start < end <= s.len()
                &&& start == first_of_kind(s@, from as int, false)
                &&& end == first_of_kind(s@, start as int, true)
                &&& words_from(s@, from as int) == seq![s@.subrange(start as int, end as int)]
                    + words_from(s@, end as int)
            },
            None => words_from(s@, from as int) == Seq::<Seq<char>>::empty(),
        },
{
    let start = find_kind(s, from, false);
    if start < s.len() {
        let end = find_kind(s, start, true);
        proof {
            lemma_first_of_kind(s@, from as int, false);
            lemma_first_of_kind(s@, start as int + 1, true);
        }
        Some((start, end))
    } else {
        None
    }
}

} // verus!
