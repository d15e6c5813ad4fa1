use vstd::prelude::*;

verus! {

/// The characters that carry the Unicode `White_Space` property.
pub open spec fn is_white_space(c: char) -> bool {
    let n = c as u32;
    ||| 0x9 <= n <= 0xD
    ||| n == 0x20
    ||| n == 0x85
    ||| n == 0xA0
    ||| n == 0x1680
    ||| 0x2000 <= n <= 0x200A
    ||| n == 0x2028
    ||| n == 0x2029
    ||| n == 0x202F
    ||| n == 0x205F
    ||| n == 0x3000
}

/// `s` without its leading white space.
pub open spec fn trim_start(s: Seq<char>) -> Seq<char>
    decreases s.len(),
{
    if s.len() > 0 && is_white_space(s[0]) {
        trim_start(s.drop_first())
    } else {
        s
    }
}

/// `s` without its trailing white space.
pub open spec fn trim_end(s: Seq<char>) -> Seq<char>
    decreases s.len(),
{
    if s.len() > 0 && is_white_space(s.last()) {
        trim_end(s.drop_last())
    } else {
        s
    }
}

/// `s` without leading and trailing white space.
pub open spec fn trim(s: Seq<char>) -> Seq<char> {
    trim_end(trim_start(s))
}

/// Whether `c` is white space.
pub fn is_unicode_white_space(c: char) -> (ws: bool)
    ensures
        ws == is_white_space(c),
{
    let n = c as u32;
    (0x9 <= n && n <= 0xD) || n == 0x20 || n == 0x85 || n == 0xA0 || n == 0x1680 || (0x2000 <= n
        && n <= 0x200A) || n == 0x2028 || n == 0x2029 || n == 0x202F || n == 0x205F || n == 0x3000
}

/// `s` without leading and trailing white space.
pub fn trim_str(s: &str) -> (trimmed: &str)
    ensures
        trimmed@ == trim(s@),
{
    let n = s.unicode_len();
    let mut i: usize = 0;
    assert(s@.subrange(0, n as int) =~= s@);
    while i < n && is_unicode_white_space(s.get_char(i))
        invariant
            i <= n,
            n == s@.len(),
            trim_start(s@) == trim_start(s@.subrange(i as int, n as int)),
        decreases n - i,
    {
        assert(s@.subrange(i as int, n as int).drop_first() =~= s@.subrange(i + 1, n as int));
        i = i + 1;
    }
    if i == n {
        assert(s@.subrange(i as int, n as int) =~= Seq::<char>::empty());
    }
    assert(trim_start(s@) == s@.subrange(i as int, n as int));
    let mut j: usize = n;
    while j > i && is_unicode_white_space(s.get_char(j - 1))
        invariant
            i <= j <= n,
            n == s@.len(),
            trim_end(s@.subrange(i as int, n as int)) == trim_end(s@.subrange(i as int, j as int)),
        decreases j,
    {
        assert(s@.subrange(i as int, j as int).drop_last() =~= s@.subrange(i as int, j - 1));
        j = j - 1;
    }
    if j == i {
        assert(s@.subrange(i as int, j as int) =~= Seq::<char>::empty());
    }
    s.substring_char(i, j)
}

/// Lines joined by a line feed.
pub open spec fn join_lines(lines: Seq<Seq<char>>) -> Seq<char>
    decreases lines.len(),
{
    if lines.len() == 0 {
        Seq::empty()
    } else if lines.len() == 1 {
        lines[0]
    } else {
        join_lines(lines.drop_last()) + seq!['\n'] + lines.last()
    }
}

/// The texts, trimmed, with the empty ones left out.
pub open spec fn kept_lines(texts: Seq<Seq<char>>) -> Seq<Seq<char>> {
    texts.map_values(|t: Seq<char>| trim(t)).filter(|t: Seq<char>| t.len() > 0)
}

/// One line per text that is not blank, trimmed, joined by line feeds.
pub open spec fn joined_transcript(texts: Seq<Seq<char>>) -> Seq<char> {
    join_lines(kept_lines(texts))
}

/// Appending a text to the inputs appends its trimmed form to the kept lines, unless blank.
pub proof fn lemma_kept_lines_push(texts: Seq<Seq<char>>, t: Seq<char>)
    ensures
        kept_lines(texts.push(t)) == if trim(t).len() > 0 {
            kept_lines(texts).push(trim(t))
        } else {
            kept_lines(texts)
        },
{
    let f = |t: Seq<char>| trim(t);
    let p = |t: Seq<char>| t.len() > 0;
    assert(texts.push(t).map_values(f) =~= texts.map_values(f).push(trim(t)));
    texts.map_values(f).lemma_filter_push(trim(t), p);
}

/// Joining one more line adds a line feed, unless it is the first line.
pub proof fn lemma_join_lines_push(lines: Seq<Seq<char>>, line: Seq<char>)
    ensures
        join_lines(lines.push(line)) == if lines.len() == 0 {
            line
        } else {
            join_lines(lines) + seq!['\n'] + line
        },
{
    assert(lines.push(line).drop_last() =~= lines);
}

/// The first position at or after `from` that holds `c`.
pub open spec fn find_char(s: Seq<char>, c: char, from: int) -> Option<int>
    decreases s.len() - from,
{
    if from < 0 || from >= s.len() {
        None
    } else if s[from] == c {
        Some(from)
    } else {
        find_char(s, c, from + 1)
    }
}

/// The last position before `upto` that holds `c`.
pub open spec fn rfind_char(s: Seq<char>, c: char, upto: int) -> Option<int>
    decreases upto,
{
    if upto <= 0 || upto > s.len() {
        None
    } else if s[upto - 1] == c {
        Some(upto - 1)
    } else {
        rfind_char(s, c, upto - 1)
    }
}

/// `i` is the first position of `c` in `s`.
pub open spec fn is_first_index(s: Seq<char>, c: char, i: int) -> bool {
    &&& 0 <= i < s.len()
    &&& s[i] == c
    &&& forall|j: int| 0 <= j < i ==> s[j] != c
}

/// `i` is the last position of `c` in `s`.
pub open spec fn is_last_index(s: Seq<char>, c: char, i: int) -> bool {
    &&& 0 <= i < s.len()
    &&& s[i] == c
    &&& forall|j: int| i < j < s.len() ==> s[j] != c
}

/// `c` does not occur in `s`.
pub open spec fn lacks_char(s: Seq<char>, c: char) -> bool {
    forall|j: int| 0 <= j < s.len() ==> s[j] != c
}

proof fn lemma_find_char_from(s: Seq<char>, c: char, from: int, i: int)
    requires
        0 <= from <= i < s.len(),
        s[i] == c,
        forall|j: int| from <= j < i ==> s[j] != c,
    ensures
        find_char(s, c, from) == Some(i),
    decreases i - from,
{
    if from < i {
        lemma_find_char_from(s, c, from + 1, i);
    }
}

proof fn lemma_find_char_absent_from(s: Seq<char>, c: char, from: int)
    requires
        0 <= from,
        forall|j: int| from <= j < s.len() ==> s[j] != c,
    ensures
        find_char(s, c, from) is None,
    decreases s.len() - from,
{
    if from < s.len() {
        lemma_find_char_absent_from(s, c, from + 1);
    }
}

proof fn lemma_rfind_char_upto(s: Seq<char>, c: char, upto: int, i: int)
    requires
        0 <= i < upto <= s.len(),
        s[i] == c,
        forall|j: int| i < j < upto ==> s[j] != c,
    ensures
        rfind_char(s, c, upto) == Some(i),
    decreases upto - i,
{
    if i < upto - 1 {
        lemma_rfind_char_upto(s, c, upto - 1, i);
    }
}

proof fn lemma_rfind_char_absent_upto(s: Seq<char>, c: char, upto: int)
    requires
        upto <= s.len(),
        forall|j: int| 0 <= j < upto ==> s[j] != c,
    ensures
        rfind_char(s, c, upto) is None,
    decreases upto,
{
    if upto > 0 {
        lemma_rfind_char_absent_upto(s, c, upto - 1);
    }
}

/// Searching from the start finds the first occurrence of a character, and nothing
/// exactly when the character does not occur.
pub proof fn law_find_char_is_first_occurrence(s: Seq<char>, c: char, i: int)
    ensures
        is_first_index(s, c, i) ==> find_char(s, c, 0) == Some(i),
        lacks_char(s, c) ==> find_char(s, c, 0) is None,
{
    if is_first_index(s, c, i) {
        lemma_find_char_from(s, c, 0, i);
    }
    if lacks_char(s, c) {
        lemma_find_char_absent_from(s, c, 0);
    }
}

/// Searching back from the end of the whole text finds the last occurrence of a
/// character, and nothing exactly when the character does not occur.
pub proof fn law_rfind_char_is_last_occurrence(s: Seq<char>, c: char, i: int)
    ensures
        is_last_index(s, c, i) ==> rfind_char(s, c, s.len() as int) == Some(i),
        lacks_char(s, c) ==> rfind_char(s, c, s.len() as int) is None,
{
    if is_last_index(s, c, i) {
        lemma_rfind_char_upto(s, c, s.len() as int, i);
    }
    if lacks_char(s, c) {
        lemma_rfind_char_absent_upto(s, c, s.len() as int);
    }
}

} // verus!
