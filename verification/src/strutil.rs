//! Verified string utilities: ASCII case folding, substring search, splitting
//! and joining on a separator character. All contracts are stated over
//! `Seq<char>` views.

use vstd::prelude::*;

verus! {

/// Relies on `String::push` of std: it appends the given character to the
/// end of the string.
pub assume_specification[ String::push ](s: &mut String, c: char)
    ensures
        final(s)@ == old(s)@.push(c),
;

/// ASCII lower-casing of one character; other characters are unchanged.
pub open spec fn lower_char(c: char) -> char {
    if 'A' <= c && c <= 'Z' {
        ((c as int) + 32) as char
    } else {
        c
    }
}

/// ASCII upper-casing of one character; other characters are unchanged.
pub open spec fn upper_char(c: char) -> char {
    if 'a' <= c && c <= 'z' {
        ((c as int) - 32) as char
    } else {
        c
    }
}

/// ASCII lower-casing of a whole sequence, character by character.
pub open spec fn lower_of(s: Seq<char>) -> Seq<char> {
    s.map_values(|c: char| lower_char(c))
}

pub fn to_lower_char(c: char) -> (r: char)
    ensures
        r == lower_char(c),
{
    match c {
        'A' => 'a',
        'B' => 'b',
        'C' => 'c',
        'D' => 'd',
        'E' => 'e',
        'F' => 'f',
        'G' => 'g',
        'H' => 'h',
        'I' => 'i',
        'J' => 'j',
        'K' => 'k',
        'L' => 'l',
        'M' => 'm',
        'N' => 'n',
        'O' => 'o',
        'P' => 'p',
        'Q' => 'q',
        'R' => 'r',
        'S' => 's',
        'T' => 't',
        'U' => 'u',
        'V' => 'v',
        'W' => 'w',
        'X' => 'x',
        'Y' => 'y',
        'Z' => 'z',
        _ => c,
    }
}

pub fn to_upper_char(c: char) -> (r: char)
    ensures
        r == upper_char(c),
{
    match c {
        'a' => 'A',
        'b' => 'B',
        'c' => 'C',
        'd' => 'D',
        'e' => 'E',
        'f' => 'F',
        'g' => 'G',
        'h' => 'H',
        'i' => 'I',
        'j' => 'J',
        'k' => 'K',
        'l' => 'L',
        'm' => 'M',
        'n' => 'N',
        'o' => 'O',
        'p' => 'P',
        'q' => 'Q',
        'r' => 'R',
        's' => 'S',
        't' => 'T',
        'u' => 'U',
        'v' => 'V',
        'w' => 'W',
        'x' => 'X',
        'y' => 'Y',
        'z' => 'Z',
        _ => c,
    }
}

/// ASCII lower-casing of a whole string.
pub fn to_lower(s: &str) -> (r: String)
    ensures
        r@ == lower_of(s@),
{
    let n = s.unicode_len();
    let mut r = String::new();
    let mut i: usize = 0;
    while i < n
        invariant
            n == s@.len(),
            i <= n,
            r@ == lower_of(s@.take(i as int)),
        decreases n - i,
    {
        let c = s.get_char(i);
        r.push(to_lower_char(c));
        proof {
            assert(s@.take(i + 1 as int).map_values(|c: char| lower_char(c))
                =~= s@.take(i as int).map_values(|c: char| lower_char(c))
                    + seq![lower_char(s@[i as int])]);
        }
        i = i + 1;
    }
    proof {
        assert(s@.take(n as int) =~= s@);
    }
    r
}

/// Index of the first occurrence of `c` in `s`, or `-1` if there is none.
pub open spec fn find_char(s: Seq<char>, c: char) -> int
    decreases s.len(),
{
    if s.len() == 0 {
        -1
    } else if s[0] == c {
        0
    } else if find_char(s.drop_first(), c) < 0 {
        -1
    } else {
        find_char(s.drop_first(), c) + 1
    }
}

pub proof fn lemma_find_char(s: Seq<char>, c: char)
    ensures
        find_char(s, c) == -1 || 0 <= find_char(s, c) < s.len(),
        find_char(s, c) >= 0 ==> s[find_char(s, c)] == c,
        forall|j: int|
            0 <= j < s.len() && (find_char(s, c) == -1 || j < find_char(s, c)) ==> s[j] != c,
    decreases s.len(),
{
    if s.len() > 0 && s[0] != c {
        lemma_find_char(s.drop_first(), c);
        assert(forall|j: int| 0 < j < s.len() ==> s[j] == s.drop_first()[j - 1]);
    }
}

/// `find_char` is the first occurrence: any index that is an occurrence with
/// none before it is the one `find_char` yields.
pub proof fn lemma_find_char_at(s: Seq<char>, c: char, i: int)
    requires
        0 <= i < s.len(),
        s[i] == c,
        forall|j: int| 0 <= j < i ==> s[j] != c,
    ensures
        find_char(s, c) == i,
    decreases s.len(),
{
    if i > 0 {
        assert(forall|j: int| 0 <= j < i - 1 ==> s.drop_first()[j] == s[j + 1]);
        lemma_find_char_at(s.drop_first(), c, i - 1);
    }
}

pub proof fn lemma_find_char_none(s: Seq<char>, c: char)
    requires
        forall|j: int| 0 <= j < s.len() ==> s[j] != c,
    ensures
        find_char(s, c) == -1,
    decreases s.len(),
{
    if s.len() > 0 {
        assert(forall|j: int| 0 <= j < s.len() - 1 ==> s.drop_first()[j] == s[j + 1]);
        lemma_find_char_none(s.drop_first(), c);
    }
}

/// First occurrence of `c` in `s`, scanning left to right.
pub fn find_in_str(s: &str, c: char) -> (r: Option<usize>)
    ensures
        match r {
            Some(i) => i == find_char(s@, c) && i < s@.len(),
            None => find_char(s@, c) == -1,
        },
{
    let n = s.unicode_len();
    let mut i: usize = 0;
    while i < n
        invariant
            n == s@.len(),
            i <= n,
            forall|j: int| 0 <= j < i ==> s@[j] != c,
        decreases n - i,
    {
        if s.get_char(i) == c {
            proof {
                lemma_find_char_at(s@, c, i as int);
            }
            return Some(i);
        }
        i = i + 1;
    }
    proof {
        lemma_find_char_none(s@, c);
    }
    None
}

/// The segments of `s` between occurrences of `c`. A string without the
/// separator is one segment; every separator ends a segment, so trailing
/// separators contribute empty segments.
pub open spec fn split_on(s: Seq<char>, c: char) -> Seq<Seq<char>>
    decreases s.len(),
{
    let i = find_char(s, c);
    if i < 0 || i >= s.len() {
        seq![s]
    } else {
        seq![s.take(i)] + split_on(s.skip(i + 1), c)
    }
}

/// Splits `s` at every occurrence of `c`.
pub fn split_str(s: &str, c: char) -> (parts: Vec<String>)
    ensures
        parts.deep_view() == split_on(s@, c),
{
    let mut parts: Vec<String> = Vec::new();
    let mut rest: &str = s;
    loop
        invariant
            split_on(s@, c) =~= parts.deep_view() + split_on(rest@, c),
        ensures
            parts.deep_view() =~= split_on(s@, c),
        decreases rest@.len(),
    {
        let ghost prev = rest@;
        let ghost prev_parts = parts.deep_view();
        match find_in_str(rest, c) {
            Some(i) => {
                proof {
                    lemma_find_char(prev, c);
                }
                let piece = rest.substring_char(0, i);
                parts.push(piece.to_owned());
                let m = rest.unicode_len();
                rest = rest.substring_char(i + 1, m);
                proof {
                    assert(split_on(prev, c) == seq![prev.take(i as int)] + split_on(
                        prev.skip(i + 1),
                        c,
                    ));
                    assert(piece@ =~= prev.take(i as int));
                    assert(parts.deep_view() =~= prev_parts + seq![piece@]);
                    assert(rest@ =~= prev.skip(i + 1));
                }
            },
            None => {
                parts.push(rest.to_owned());
                proof {
                    assert(split_on(prev, c) == seq![prev]);
                    assert(parts.deep_view() =~= prev_parts + seq![prev]);
                }
                return parts;
            },
        }
    }
}

/// The segments of `parts` joined with `c` between consecutive segments.
pub open spec fn join_with(parts: Seq<Seq<char>>, c: char) -> Seq<char>
    decreases parts.len(),
{
    if parts.len() == 0 {
        Seq::empty()
    } else if parts.len() == 1 {
        parts[0]
    } else {
        parts[0] + seq![c] + join_with(parts.drop_first(), c)
    }
}

pub proof fn lemma_join_split(parts: Seq<Seq<char>>, c: char, i: int)
    requires
        1 <= i < parts.len(),
    ensures
        join_with(parts, c) == join_with(parts.take(i), c) + seq![c] + join_with(
            parts.skip(i),
            c,
        ),
    decreases i,
{
    if i == 1 {
        assert(parts.take(1) =~= seq![parts[0]]);
        assert(parts.skip(1) =~= parts.drop_first());
        assert(join_with(parts, c) =~= parts[0] + seq![c] + join_with(parts.drop_first(), c));
    } else {
        lemma_join_split(parts.drop_first(), c, i - 1);
        assert(parts.drop_first().take(i - 1) =~= parts.take(i).drop_first());
        assert(parts.drop_first().skip(i - 1) =~= parts.skip(i));
        assert(parts.take(i)[0] == parts[0]);
        assert(join_with(parts.take(i), c) == parts[0] + seq![c] + join_with(
            parts.take(i).drop_first(),
            c,
        ));
        assert(join_with(parts, c) =~= join_with(parts.take(i), c) + seq![c] + join_with(
            parts.skip(i),
            c,
        ));
    }
}

/// Joins the segments `parts[from..to]` with `c` between consecutive ones.
pub fn join_range(parts: &Vec<String>, from: usize, to: usize, c: char) -> (r: String)
    requires
        from <= to <= parts@.len(),
    ensures
        r@ == join_with(parts.deep_view().subrange(from as int, to as int), c),
{
    let ghost sub = parts.deep_view().subrange(from as int, to as int);
    let mut r = String::new();
    let mut i: usize = from;
    while i < to
        invariant
            from <= i <= to <= parts@.len(),
            sub == parts.deep_view().subrange(from as int, to as int),
            r@ == join_with(sub.take(i - from), c),
        decreases to - i,
    {
        if i > from {
            r.push(c);
        }
        r.append(parts[i].as_str());
        proof {
            let k = i - from;
            if k == 0 {
                assert(sub.take(1) =~= seq![sub[0]]);
                assert(r@ =~= join_with(sub.take(1), c));
            } else {
                lemma_join_split(sub.take(k + 1), c, k);
                assert(sub.take(k + 1).take(k) =~= sub.take(k));
                assert(sub.take(k + 1).skip(k) =~= seq![sub[k]]);
                assert(r@ =~= join_with(sub.take(k), c) + seq![c] + sub[k]);
            }
        }
        i = i + 1;
    }
    proof {
        assert(sub.take(to - from) =~= sub);
    }
    r
}

/// `sub` occurs contiguously somewhere in `s`.
pub open spec fn is_substring(sub: Seq<char>, s: Seq<char>) -> bool {
    exists|i: int| 0 <= i <= s.len() - sub.len() && #[trigger] s.subrange(i, i + sub.len()) == sub
}

/// `s` begins with `pre`.
pub open spec fn starts_with(s: Seq<char>, pre: Seq<char>) -> bool {
    pre.len() <= s.len() && s.take(pre.len() as int) == pre
}

/// `s` ends with `suf`.
pub open spec fn ends_with(s: Seq<char>, suf: Seq<char>) -> bool {
    suf.len() <= s.len() && s.skip(s.len() - suf.len()) == suf
}

/// Character-wise string equality.
pub fn str_eq(a: &str, b: &str) -> (r: bool)
    ensures
        r == (a@ == b@),
{
    let n = a.unicode_len();
    let m = b.unicode_len();
    if n != m {
        return false;
    }
    let r = eq_at(a, 0, b);
    proof {
        let w: int = 0;
        assert(a@.subrange(w, w + b@.len()) =~= a@);
    }
    r
}

/// Whether `sub` occurs in `s` starting at index `i`.
fn eq_at(s: &str, i: usize, sub: &str) -> (r: bool)
    requires
        i + sub@.len() <= s@.len(),
    ensures
        r == (s@.subrange(i as int, i + sub@.len()) == sub@),
{
    let n = s.unicode_len();
    let m = sub.unicode_len();
    let mut j: usize = 0;
    while j < m
        invariant
            n == s@.len(),
            m == sub@.len(),
            i + m <= n,
            j <= m,
            forall|k: int| 0 <= k < j ==> s@[i + k] == sub@[k],
        decreases m - j,
    {
        if s.get_char(i + j) != sub.get_char(j) {
            proof {
                assert(s@.subrange(i as int, i + sub@.len())[j as int] != sub@[j as int]);
            }
            return false;
        }
        j = j + 1;
    }
    proof {
        assert(s@.subrange(i as int, i + sub@.len()) =~= sub@);
    }
    true
}

/// Substring search, scanning every start position.
pub fn contains_str(s: &str, sub: &str) -> (r: bool)
    ensures
        r == is_substring(sub@, s@),
{
    let n = s.unicode_len();
    let m = sub.unicode_len();
    if m > n {
        return false;
    }
    if m == 0 {
        proof {
            let w: int = 0;
            assert(s@.subrange(w, w + sub@.len()) =~= sub@);
            assert(is_substring(sub@, s@));
        }
        return true;
    }
    let mut i: usize = 0;
    while i <= n - m
        invariant
            n == s@.len(),
            m == sub@.len(),
            1 <= m <= n,
            i <= n - m + 1,
            forall|k: int| 0 <= k < i ==> #[trigger] s@.subrange(k, k + sub@.len()) != sub@,
        decreases n - i,
    {
        if eq_at(s, i, sub) {
            return true;
        }
        i = i + 1;
    }
    false
}

/// Prefix test.
pub fn starts_with_str(s: &str, pre: &str) -> (r: bool)
    ensures
        r == starts_with(s@, pre@),
{
    let n = s.unicode_len();
    let m = pre.unicode_len();
    if m > n {
        return false;
    }
    let r = eq_at(s, 0, pre);
    proof {
        assert(s@.subrange(0, pre@.len() as int) =~= s@.take(pre@.len() as int));
    }
    r
}

/// Suffix test.
pub fn ends_with_str(s: &str, suf: &str) -> (r: bool)
    ensures
        r == ends_with(s@, suf@),
{
    let n = s.unicode_len();
    let m = suf.unicode_len();
    if m > n {
        return false;
    }
    let r = eq_at(s, n - m, suf);
    proof {
        assert(s@.subrange(s@.len() - suf@.len(), s@.len() - suf@.len() + suf@.len())
            =~= s@.skip(s@.len() - suf@.len()));
    }
    r
}

/// Index of the last occurrence of `c` in `s`, or `-1` if there is none.
pub open spec fn rfind_char(s: Seq<char>, c: char) -> int
    decreases s.len(),
{
    if s.len() == 0 {
        -1
    } else if s[s.len() - 1] == c {
        s.len() - 1
    } else {
        rfind_char(s.drop_last(), c)
    }
}

pub proof fn lemma_rfind_char(s: Seq<char>, c: char)
    ensures
        rfind_char(s, c) == -1 || 0 <= rfind_char(s, c) < s.len(),
        rfind_char(s, c) >= 0 ==> s[rfind_char(s, c)] == c,
        forall|j: int|
            rfind_char(s, c) < j < s.len() ==> s[j] != c,
    decreases s.len(),
{
    if s.len() > 0 && s[s.len() - 1] != c {
        lemma_rfind_char(s.drop_last(), c);
        assert(forall|j: int| 0 <= j < s.len() - 1 ==> s.drop_last()[j] == s[j]);
    }
}

pub proof fn lemma_rfind_char_at(s: Seq<char>, c: char, i: int)
    requires
        0 <= i < s.len(),
        s[i] == c,
        forall|j: int| i < j < s.len() ==> s[j] != c,
    ensures
        rfind_char(s, c) == i,
    decreases s.len(),
{
    if i < s.len() - 1 {
        assert(forall|j: int| 0 <= j < s.len() - 1 ==> s.drop_last()[j] == s[j]);
        lemma_rfind_char_at(s.drop_last(), c, i);
    }
}

pub proof fn lemma_rfind_char_none(s: Seq<char>, c: char)
    requires
        forall|j: int| 0 <= j < s.len() ==> s[j] != c,
    ensures
        rfind_char(s, c) == -1,
    decreases s.len(),
{
    if s.len() > 0 {
        assert(forall|j: int| 0 <= j < s.len() - 1 ==> s.drop_last()[j] == s[j]);
        lemma_rfind_char_none(s.drop_last(), c);
    }
}

/// Last occurrence of `c` in `s`, scanning right to left.
pub fn rfind_in_str(s: &str, c: char) -> (r: Option<usize>)
    ensures
        match r {
            Some(i) => i == rfind_char(s@, c) && i < s@.len(),
            None => rfind_char(s@, c) == -1,
        },
{
    let n = s.unicode_len();
    let mut i: usize = n;
    while i > 0
        invariant
            n == s@.len(),
            i <= n,
            forall|j: int| i <= j < n ==> s@[j] != c,
        decreases i,
    {
        i = i - 1;
        if s.get_char(i) == c {
            proof {
                lemma_rfind_char_at(s@, c, i as int);
            }
            return Some(i);
        }
    }
    proof {
        lemma_rfind_char_none(s@, c);
    }
    None
}

} // verus!
