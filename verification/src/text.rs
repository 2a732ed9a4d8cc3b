//! Verified string utilities: character-level equality, substring search,
//! whitespace trimming, splitting, and decimal formatting. These back the
//! query-string handling, the error-message selection rules, and the
//! synthesized device names.

use vstd::prelude::*;

verus! {

/// The whitespace characters this library trims: the ASCII whitespace set.
pub open spec fn is_space(c: char) -> bool {
    c == ' ' || c == '\t' || c == '\n' || c == '\r' || c == '\u{b}' || c == '\u{c}'
}

pub(crate) fn is_space_char(c: char) -> (r: bool)
    ensures
        r == is_space(c),
{
    c == ' ' || c == '\t' || c == '\n' || c == '\r' || c == '\u{b}' || c == '\u{c}'
}

/// Character-for-character string equality.
pub fn str_eq(a: &str, b: &str) -> (r: bool)
    ensures
        r == (a@ == b@),
{
    let a_len = a.unicode_len();
    let b_len = b.unicode_len();
    if a_len != b_len {
        return false;
    }
    let mut i: usize = 0;
    while i < a_len
        invariant
            a_len == a@.len(),
            b_len == b@.len(),
            a_len == b_len,
            i <= a_len,
            forall|j: int| 0 <= j < i ==> a@[j] == b@[j],
        decreases a_len - i,
    {
        if a.get_char(i) != b.get_char(i) {
            return false;
        }
        i = i + 1;
    }
    proof {
        assert(a@ =~= b@);
    }
    true
}

/// Whether every character of `s` is whitespace (so trimming leaves nothing).
pub open spec fn is_blank(s: Seq<char>) -> bool {
    forall|i: int| 0 <= i < s.len() ==> is_space(s[i])
}

/// Whether `s` consists of whitespace only.
pub fn blank(s: &str) -> (r: bool)
    ensures
        r == is_blank(s@),
{
    let len = s.unicode_len();
    let mut i: usize = 0;
    while i < len
        invariant
            len == s@.len(),
            i <= len,
            forall|j: int| 0 <= j < i ==> is_space(s@[j]),
        decreases len - i,
    {
        if !is_space_char(s.get_char(i)) {
            return false;
        }
        i = i + 1;
    }
    true
}

/// Whether `needle` occurs in `haystack` starting at index `i`.
pub open spec fn occurs_at(haystack: Seq<char>, needle: Seq<char>, i: int) -> bool {
    0 <= i && i + needle.len() <= haystack.len() && haystack.subrange(i, i + needle.len())
        == needle
}

/// Whether `needle` occurs somewhere in `haystack`.
pub open spec fn contains_seq(haystack: Seq<char>, needle: Seq<char>) -> bool {
    exists|i: int| occurs_at(haystack, needle, i)
}

fn match_at(haystack: &str, needle: &str, i: usize, haystack_len: usize, needle_len: usize) -> (r:
    bool)
    requires
        haystack_len == haystack@.len(),
        needle_len == needle@.len(),
        i + needle_len <= haystack_len,
    ensures
        r == occurs_at(haystack@, needle@, i as int),
{
    let mut j: usize = 0;
    while j < needle_len
        invariant
            haystack_len == haystack@.len(),
            needle_len == needle@.len(),
            i + needle_len <= haystack_len,
            j <= needle_len,
            forall|k: int| 0 <= k < j ==> haystack@[i + k] == needle@[k],
        decreases needle_len - j,
    {
        if haystack.get_char(i + j) != needle.get_char(j) {
            proof {
                let w = j as int;
                assert(haystack@.subrange(i as int, i + needle@.len())[w] != needle@[w]);
            }
            return false;
        }
        j = j + 1;
    }
    proof {
        assert(haystack@.subrange(i as int, i + needle@.len()) =~= needle@);
    }
    true
}

/// The index of the first occurrence of `needle` in `haystack`; meaningful
/// only when one exists.
pub open spec fn first_occurrence(haystack: Seq<char>, needle: Seq<char>) -> int
    decreases haystack.len(),
{
    if occurs_at(haystack, needle, 0) {
        0
    } else if haystack.len() == 0 {
        0
    } else {
        1 + first_occurrence(haystack.drop_first(), needle)
    }
}

proof fn lemma_first_occurrence_at(haystack: Seq<char>, needle: Seq<char>, i: int)
    requires
        occurs_at(haystack, needle, i),
        forall|j: int| 0 <= j < i ==> !occurs_at(haystack, needle, j),
    ensures
        first_occurrence(haystack, needle) == i,
    decreases i,
{
    if i > 0 {
        assert(!occurs_at(haystack, needle, 0));
        assert(occurs_at(haystack.drop_first(), needle, i - 1)) by {
            assert(haystack.drop_first().subrange(i - 1, i - 1 + needle.len()) =~= haystack
                .subrange(i, i + needle.len()));
        }
        assert forall|j: int| 0 <= j < i - 1 implies !occurs_at(
            haystack.drop_first(),
            needle,
            j,
        ) by {
            if occurs_at(haystack.drop_first(), needle, j) {
                assert(haystack.subrange(j + 1, j + 1 + needle.len()) =~= haystack.drop_first()
                    .subrange(j, j + needle.len()));
                assert(occurs_at(haystack, needle, j + 1));
            }
        }
        lemma_first_occurrence_at(haystack.drop_first(), needle, i - 1);
    }
}

/// The position of the first occurrence of `needle` in `haystack`, if any.
pub fn find_str(haystack: &str, needle: &str) -> (r: Option<usize>)
    ensures
        r matches Some(i) ==> occurs_at(haystack@, needle@, i as int) && i == first_occurrence(
            haystack@,
            needle@,
        ) && (forall|j: int| 0 <= j < i ==> !occurs_at(haystack@, needle@, j)),
        r is None ==> !contains_seq(haystack@, needle@),
{
    let haystack_len = haystack.unicode_len();
    let needle_len = needle.unicode_len();
    if needle_len > haystack_len {
        return None;
    }
    let last_start = haystack_len - needle_len;
    let mut i: usize = 0;
    loop
        invariant
            haystack_len == haystack@.len(),
            needle_len == needle@.len(),
            needle_len <= haystack_len,
            last_start == haystack_len - needle_len,
            i <= last_start,
            forall|j: int| 0 <= j < i ==> !occurs_at(haystack@, needle@, j),
        decreases last_start - i,
    {
        if match_at(haystack, needle, i, haystack_len, needle_len) {
            proof {
                lemma_first_occurrence_at(haystack@, needle@, i as int);
            }
            return Some(i);
        }
        if i == last_start {
            proof {
                assert forall|j: int| !occurs_at(haystack@, needle@, j) by {
                    if 0 <= j < i {
                        assert(!occurs_at(haystack@, needle@, j));
                    }
                }
            }
            return None;
        }
        i = i + 1;
    }
}

/// Whether `needle` occurs in `haystack`.
pub fn contains_str(haystack: &str, needle: &str) -> (r: bool)
    ensures
        r == contains_seq(haystack@, needle@),
{
    match find_str(haystack, needle) {
        Some(_) => true,
        None => false,
    }
}

/// Whether `s` starts with `prefix`.
pub fn starts_with_str(s: &str, prefix: &str) -> (r: bool)
    ensures
        r == occurs_at(s@, prefix@, 0),
{
    let s_len = s.unicode_len();
    let prefix_len = prefix.unicode_len();
    if prefix_len > s_len {
        return false;
    }
    match_at(s, prefix, 0, s_len, prefix_len)
}

/// `s` with its leading whitespace removed.
pub open spec fn trim_start_spec(s: Seq<char>) -> Seq<char>
    decreases s.len(),
{
    if s.len() > 0 && is_space(s[0]) {
        trim_start_spec(s.drop_first())
    } else {
        s
    }
}

/// `s` with its trailing whitespace removed.
pub open spec fn trim_end_spec(s: Seq<char>) -> Seq<char>
    decreases s.len(),
{
    if s.len() > 0 && is_space(s.last()) {
        trim_end_spec(s.drop_last())
    } else {
        s
    }
}

/// `s` with leading and trailing whitespace removed.
pub open spec fn trim_spec(s: Seq<char>) -> Seq<char> {
    trim_end_spec(trim_start_spec(s))
}

proof fn lemma_trim_start_range(s: Seq<char>, i: int)
    requires
        0 <= i <= s.len(),
        forall|j: int| 0 <= j < i ==> is_space(s[j]),
        i < s.len() ==> !is_space(s[i]),
    ensures
        trim_start_spec(s) == s.skip(i),
    decreases i,
{
    if i == 0 {
        assert(s.skip(0) =~= s);
    } else {
        lemma_trim_start_range(s.drop_first(), i - 1);
        assert(s.drop_first().skip(i - 1) =~= s.skip(i));
    }
}

proof fn lemma_trim_end_range(s: Seq<char>, e: int)
    requires
        0 <= e <= s.len(),
        forall|j: int| e <= j < s.len() ==> is_space(s[j]),
        e > 0 ==> !is_space(s[e - 1]),
    ensures
        trim_end_spec(s) == s.take(e),
    decreases s.len() - e,
{
    if e == s.len() {
        assert(s.take(e) =~= s);
    } else {
        lemma_trim_end_range(s.drop_last(), e);
        assert(s.drop_last().take(e) =~= s.take(e));
    }
}

/// `s` with leading and trailing whitespace removed.
pub fn trim(s: &str) -> (r: &str)
    ensures
        r@ == trim_spec(s@),
{
    let len = s.unicode_len();
    let mut start: usize = 0;
    while start < len && is_space_char(s.get_char(start))
        invariant
            len == s@.len(),
            start <= len,
            forall|j: int| 0 <= j < start ==> is_space(s@[j]),
        decreases len - start,
    {
        start = start + 1;
    }
    let mut end: usize = len;
    while end > start && is_space_char(s.get_char(end - 1))
        invariant
            len == s@.len(),
            start <= end <= len,
            forall|j: int| end <= j < len ==> is_space(s@[j]),
        decreases end,
    {
        end = end - 1;
    }
    proof {
        lemma_trim_start_range(s@, start as int);
        lemma_trim_end_range(s@.skip(start as int), end - start);
        assert(s@.skip(start as int).take(end - start) =~= s@.subrange(
            start as int,
            end as int,
        ));
    }
    s.substring_char(start, end)
}

/// The index of the first occurrence of `c` in `s`, or `s.len()` if absent.
pub open spec fn first_index_of(s: Seq<char>, c: char) -> int
    decreases s.len(),
{
    if s.len() == 0 {
        0
    } else if s[0] == c {
        0
    } else {
        1 + first_index_of(s.drop_first(), c)
    }
}

proof fn lemma_first_index_at(s: Seq<char>, c: char, i: int)
    requires
        0 <= i <= s.len(),
        forall|j: int| 0 <= j < i ==> s[j] != c,
        i < s.len() ==> s[i] == c,
        i == s.len() ==> forall|j: int| 0 <= j < s.len() ==> s[j] != c,
    ensures
        first_index_of(s, c) == i,
    decreases i,
{
    if i > 0 {
        lemma_first_index_at(s.drop_first(), c, i - 1);
    }
}

/// The position of the first occurrence of `c` in `s`, if any.
pub fn find_char(s: &str, c: char) -> (r: Option<usize>)
    ensures
        r matches Some(i) ==> i == first_index_of(s@, c) && i < s@.len(),
        r is None ==> first_index_of(s@, c) == s@.len(),
{
    let len = s.unicode_len();
    let mut i: usize = 0;
    while i < len
        invariant
            len == s@.len(),
            i <= len,
            forall|j: int| 0 <= j < i ==> s@[j] != c,
        decreases len - i,
    {
        if s.get_char(i) == c {
            proof {
                lemma_first_index_at(s@, c, i as int);
            }
            return Some(i);
        }
        i = i + 1;
    }
    proof {
        lemma_first_index_at(s@, c, len as int);
    }
    None
}

/// The segments of `s` separated by `sep`: splitting the empty string gives
/// one empty segment, and every separator ends the segment before it.
pub open spec fn spec_split(s: Seq<char>, sep: char) -> Seq<Seq<char>>
    decreases s.len(),
{
    if s.len() == 0 {
        seq![Seq::<char>::empty()]
    } else if s[0] == sep {
        seq![Seq::<char>::empty()] + spec_split(s.drop_first(), sep)
    } else {
        let rest = spec_split(s.drop_first(), sep);
        seq![seq![s[0]] + rest[0]] + rest.drop_first()
    }
}

pub proof fn lemma_split_len(s: Seq<char>, sep: char)
    ensures
        spec_split(s, sep).len() >= 1,
    decreases s.len(),
{
    if s.len() > 0 {
        lemma_split_len(s.drop_first(), sep);
    }
}

proof fn lemma_split_head(s: Seq<char>, sep: char, i: int)
    requires
        0 <= i <= s.len(),
        forall|j: int| 0 <= j < i ==> s[j] != sep,
        i < s.len() ==> s[i] == sep,
    ensures
        i == s.len() ==> spec_split(s, sep) == seq![s],
        i < s.len() ==> spec_split(s, sep) == seq![s.take(i)] + spec_split(s.skip(i + 1), sep),
    decreases i,
{
    if s.len() > 0 {
        lemma_split_len(s.drop_first(), sep);
    }
    if i == 0 {
        if s.len() == 0 {
            assert(spec_split(s, sep) =~~= seq![s]);
        } else {
            assert(s.take(0) =~= Seq::<char>::empty());
            assert(s.skip(1) =~= s.drop_first());
        }
    } else {
        lemma_split_head(s.drop_first(), sep, i - 1);
        let rest = spec_split(s.drop_first(), sep);
        if i == s.len() {
            assert(rest == seq![s.drop_first()]);
            assert(seq![s[0]] + s.drop_first() =~= s);
            assert(spec_split(s, sep) =~~= seq![s]);
        } else {
            assert(rest == seq![s.drop_first().take(i - 1)] + spec_split(
                s.drop_first().skip(i),
                sep,
            ));
            assert(rest[0] == s.drop_first().take(i - 1));
            assert(seq![s[0]] + s.drop_first().take(i - 1) =~= s.take(i));
            assert(rest.drop_first() =~~= spec_split(s.drop_first().skip(i), sep));
            assert(s.drop_first().skip(i) =~= s.skip(i + 1));
            assert(spec_split(s, sep) =~~= seq![s.take(i)] + spec_split(s.skip(i + 1), sep));
        }
    }
}

/// The views of a sequence of owned strings.
pub open spec fn seq_views(v: Seq<String>) -> Seq<Seq<char>> {
    Seq::new(v.len(), |i: int| v[i]@)
}

/// Splits `s` at every occurrence of `sep`, keeping empty segments, as the
/// specification `spec_split` describes.
pub fn split_char(s: &str, sep: char) -> (segments: Vec<String>)
    ensures
        seq_views(segments@) == spec_split(s@, sep),
{
    let len = s.unicode_len();
    let mut segments: Vec<String> = Vec::new();
    let mut start: usize = 0;
    let mut i: usize = 0;
    proof {
        assert(s@.skip(0) =~= s@);
        assert(seq_views(segments@) + spec_split(s@, sep) =~~= spec_split(s@, sep));
    }
    loop
        invariant
            len == s@.len(),
            start <= i <= len,
            forall|j: int| start <= j < i ==> s@[j] != sep,
            spec_split(s@, sep) == seq_views(segments@) + spec_split(s@.skip(start as int), sep),
        decreases len - i,
    {
        if i == len {
            let piece = String::from_str(s.substring_char(start, i));
            segments.push(piece);
            proof {
                let tail = s@.skip(start as int);
                lemma_split_head(tail, sep, tail.len() as int);
                assert(tail =~= s@.subrange(start as int, i as int));
                assert(seq_views(segments@) =~= seq_views(segments@.drop_last()).push(
                    s@.subrange(start as int, i as int),
                ));
                assert(spec_split(s@, sep) =~= seq_views(segments@));
            }
            return segments;
        }
        if s.get_char(i) == sep {
            let piece = String::from_str(s.substring_char(start, i));
            segments.push(piece);
            proof {
                let tail = s@.skip(start as int);
                lemma_split_head(tail, sep, i - start);
                assert(tail.take(i - start) =~= s@.subrange(start as int, i as int));
                assert(tail.skip(i - start + 1) =~= s@.skip(i + 1));
                assert(seq_views(segments@) =~= seq_views(segments@.drop_last()).push(
                    s@.subrange(start as int, i as int),
                ));
                assert(seq_views(segments@) + spec_split(s@.skip(i + 1), sep) =~= (seq_views(
                    segments@.drop_last(),
                ) + (seq![s@.subrange(start as int, i as int)] + spec_split(
                    s@.skip(i + 1),
                    sep,
                ))));
            }
            start = i + 1;
        }
        i = i + 1;
    }
}

/// `v` with every `'+'` replaced by a space.
pub open spec fn plus_to_space(v: Seq<char>) -> Seq<char> {
    Seq::new(v.len(), |i: int| if v[i] == '+' { ' ' } else { v[i] })
}

/// Replaces every `'+'` in `v` with a space.
pub fn replace_plus(v: &str) -> (r: String)
    ensures
        r@ == plus_to_space(v@),
{
    let len = v.unicode_len();
    let mut out = String::new();
    let mut i: usize = 0;
    while i < len
        invariant
            len == v@.len(),
            i <= len,
            out@ == plus_to_space(v@).take(i as int),
        decreases len - i,
    {
        if v.get_char(i) == '+' {
            out.append(" ");
            proof {
                reveal_strlit(" ");
                assert(out@ =~= plus_to_space(v@).take(i + 1));
            }
        } else {
            let piece = v.substring_char(i, i + 1);
            out.append(piece);
            proof {
                assert(out@ =~= plus_to_space(v@).take(i + 1));
            }
        }
        i = i + 1;
    }
    proof {
        assert(plus_to_space(v@).take(len as int) =~= plus_to_space(v@));
    }
    out
}

/// The decimal digits of `n`, most significant first.
pub open spec fn decimal_digits(n: int) -> Seq<char>
    decreases n,
{
    if n < 10 {
        seq![digit_char(n)]
    } else {
        decimal_digits(n / 10).push(digit_char(n % 10))
    }
}

/// The character for the decimal digit `d`.
pub open spec fn digit_char(d: int) -> char {
    if d == 0 {
        '0'
    } else if d == 1 {
        '1'
    } else if d == 2 {
        '2'
    } else if d == 3 {
        '3'
    } else if d == 4 {
        '4'
    } else if d == 5 {
        '5'
    } else if d == 6 {
        '6'
    } else if d == 7 {
        '7'
    } else if d == 8 {
        '8'
    } else {
        '9'
    }
}

fn digit_str(d: usize) -> (r: &'static str)
    requires
        d < 10,
    ensures
        r@ == seq![digit_char(d as int)],
{
    proof {
        reveal_strlit("0");
        reveal_strlit("1");
        reveal_strlit("2");
        reveal_strlit("3");
        reveal_strlit("4");
        reveal_strlit("5");
        reveal_strlit("6");
        reveal_strlit("7");
        reveal_strlit("8");
        reveal_strlit("9");
    }
    let r: &'static str = match d {
        0 => "0",
        1 => "1",
        2 => "2",
        3 => "3",
        4 => "4",
        5 => "5",
        6 => "6",
        7 => "7",
        8 => "8",
        _ => "9",
    };
    proof {
        assert(r@ =~= seq![digit_char(d as int)]);
    }
    r
}

/// Formats `n` in decimal.
pub fn usize_to_string(n: usize) -> (r: String)
    ensures
        r@ == decimal_digits(n as int),
    decreases n,
{
    if n < 10 {
        String::from_str(digit_str(n))
    } else {
        let mut prefix = usize_to_string(n / 10);
        prefix.append(digit_str(n % 10));
        proof {
            assert(prefix@ =~= decimal_digits(n as int));
        }
        prefix
    }
}

} // verus!
