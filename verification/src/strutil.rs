//! Character-level text utilities: searching, splitting, comparing.
//!
//! Everything is specified over `Seq<char>` views; the executable
//! functions mirror the specification functions exactly.

use vstd::prelude::*;

verus! {

/// The views of a sequence of strings.
pub open spec fn seq_views(v: Seq<String>) -> Seq<Seq<char>> {
    Seq::new(v.len(), |i: int| v[i]@)
}

/// Index of the first occurrence of `sep` in `s` at or after `from`;
/// `s.len()` if there is none.
pub open spec fn find_from(s: Seq<char>, from: int, sep: char) -> int
    decreases s.len() - from
        when 0 <= from <= s.len()
{
    if from >= s.len() {
        s.len() as int
    } else if s[from] == sep {
        from
    } else {
        find_from(s, from + 1, sep)
    }
}

/// `find_from` returns the position of the first `sep` at or after
/// `from`, or the length of `s` when there is none.
pub proof fn lemma_find_from(s: Seq<char>, from: int, sep: char)
    requires
        0 <= from <= s.len(),
    ensures
        from <= find_from(s, from, sep) <= s.len(),
        find_from(s, from, sep) < s.len() ==> s[find_from(s, from, sep)] == sep,
        forall|j: int| from <= j < find_from(s, from, sep) ==> s[j] != sep,
    decreases s.len() - from,
{
    if from < s.len() && s[from] != sep {
        lemma_find_from(s, from + 1, sep);
    }
}

/// If every character in `[from, m)` differs from `sep` and `s[m]`
/// is `sep`, the first occurrence at or after `from` is exactly `m`.
pub proof fn lemma_find_from_exact(s: Seq<char>, from: int, m: int, sep: char)
    requires
        0 <= from <= m <= s.len(),
        forall|j: int| from <= j < m ==> s[j] != sep,
        m < s.len() ==> s[m] == sep,
        m == s.len() ==> (forall|j: int| from <= j < s.len() ==> s[j] != sep),
    ensures
        find_from(s, from, sep) == if m < s.len() { m } else { s.len() as int },
{
    lemma_find_from(s, from, sep);
    let r = find_from(s, from, sep);
    if m < s.len() {
        if r < m {
        } else if r > m {
            assert(s[m] != sep);
        }
    }
}

/// The pieces of `s.subrange(from, s.len())` delimited by `sep`.
/// A text with no separator is one piece; each separator ends a
/// piece, so a trailing separator yields a final empty piece.
pub open spec fn split_from(s: Seq<char>, from: int, sep: char) -> Seq<Seq<char>>
    decreases s.len() - from
        when 0 <= from <= s.len()
        via split_from_decreases
{
    let j = find_from(s, from, sep);
    if j >= s.len() {
        seq![s.subrange(from, s.len() as int)]
    } else {
        seq![s.subrange(from, j)] + split_from(s, j + 1, sep)
    }
}

#[via_fn]
proof fn split_from_decreases(s: Seq<char>, from: int, sep: char) {
    lemma_find_from(s, from, sep);
}

/// The pieces of `s` delimited by `sep`.
pub open spec fn split_on(s: Seq<char>, sep: char) -> Seq<Seq<char>> {
    split_from(s, 0, sep)
}

/// Splitting yields at least one piece, and no piece contains the
/// separator.
pub proof fn lemma_split_from_props(s: Seq<char>, from: int, sep: char)
    requires
        0 <= from <= s.len(),
    ensures
        split_from(s, from, sep).len() >= 1,
        forall|i: int, j: int|
            0 <= i < split_from(s, from, sep).len() && 0 <= j < split_from(s, from, sep)[i].len()
                ==> split_from(s, from, sep)[i][j] != sep,
    decreases s.len() - from,
{
    lemma_find_from(s, from, sep);
    let j = find_from(s, from, sep);
    if j < s.len() {
        lemma_split_from_props(s, j + 1, sep);
        let first = s.subrange(from, j);
        let rest = split_from(s, j + 1, sep);
        assert forall|a: int, b: int|
            0 <= a < split_from(s, from, sep).len() && 0 <= b < split_from(s, from, sep)[a].len()
                implies split_from(s, from, sep)[a][b] != sep by {
            if a == 0 {
                assert(first[b] == s[from + b]);
            } else {
                assert(split_from(s, from, sep)[a] == rest[a - 1]);
            }
        }
    }
}

/// A text that splits into exactly two pieces is the first piece,
/// the separator, then the second piece.
pub proof fn lemma_split_two(s: Seq<char>, sep: char)
    requires
        split_on(s, sep).len() == 2,
    ensures
        s =~= split_on(s, sep)[0] + seq![sep] + split_on(s, sep)[1],
{
    lemma_find_from(s, 0, sep);
    let j = find_from(s, 0, sep);
    if j >= s.len() {
        assert(split_on(s, sep).len() == 1);
    } else {
        lemma_find_from(s, j + 1, sep);
        let j2 = find_from(s, j + 1, sep);
        if j2 < s.len() {
            assert(split_from(s, j + 1, sep) == seq![s.subrange(j + 1, j2)] + split_from(
                s,
                j2 + 1,
                sep,
            ));
            lemma_split_from_props(s, j2 + 1, sep);
            assert(split_on(s, sep).len() >= 3);
        } else {
            assert(split_from(s, j + 1, sep) == seq![s.subrange(j + 1, s.len() as int)]);
            assert(split_on(s, sep)[0] == s.subrange(0, j));
            assert(split_on(s, sep)[1] == s.subrange(j + 1, s.len() as int));
            assert(s[j] == sep);
            assert(s =~= s.subrange(0, j) + seq![sep] + s.subrange(j + 1, s.len() as int));
        }
    }
}

/// Splitting the concatenation `a + sep + b`, where neither `a` nor
/// `b` contains `sep`, yields exactly the two pieces `a` and `b`.
pub proof fn lemma_split_concat_two(a: Seq<char>, b: Seq<char>, sep: char)
    requires
        forall|j: int| 0 <= j < a.len() ==> a[j] != sep,
        forall|j: int| 0 <= j < b.len() ==> b[j] != sep,
    ensures
        split_on(a + seq![sep] + b, sep) =~= seq![a, b],
{
    let s = a + seq![sep] + b;
    assert(forall|j: int| 0 <= j < a.len() ==> s[j] == a[j]);
    assert(s[a.len() as int] == sep);
    lemma_find_from_exact(s, 0, a.len() as int, sep);
    let j = a.len() as int;
    assert(forall|j2: int| j + 1 <= j2 < s.len() ==> s[j2] == b[j2 - j - 1] && s[j2] != sep);
    lemma_find_from_exact(s, j + 1, s.len() as int, sep);
    assert(split_from(s, j + 1, sep) == seq![s.subrange(j + 1, s.len() as int)]);
    assert(s.subrange(0, j) =~= a);
    assert(s.subrange(j + 1, s.len() as int) =~= b);
}

/// Searching after a fixed prefix is searching the suffix.
pub proof fn lemma_find_from_shift(prefix: Seq<char>, rest: Seq<char>, i: int, sep: char)
    requires
        0 <= i <= rest.len(),
    ensures
        find_from(prefix + rest, prefix.len() + i, sep) == prefix.len() + find_from(rest, i, sep),
{
    let s = prefix + rest;
    lemma_find_from(rest, i, sep);
    let r = find_from(rest, i, sep);
    assert(forall|j: int| prefix.len() + i <= j < prefix.len() + r ==> s[j] == rest[j
        - prefix.len()] && s[j] != sep);
    if r < rest.len() {
        assert(s[prefix.len() + r] == sep);
        lemma_find_from_exact(s, prefix.len() + i, prefix.len() + r, sep);
    } else {
        lemma_find_from_exact(s, prefix.len() + i, s.len() as int, sep);
    }
}

/// Splitting after a fixed prefix is splitting the suffix.
pub proof fn lemma_split_from_shift(prefix: Seq<char>, rest: Seq<char>, i: int, sep: char)
    requires
        0 <= i <= rest.len(),
    ensures
        split_from(prefix + rest, prefix.len() + i, sep) =~= split_from(rest, i, sep),
    decreases rest.len() - i,
{
    let s = prefix + rest;
    lemma_find_from(rest, i, sep);
    lemma_find_from_shift(prefix, rest, i, sep);
    let r = find_from(rest, i, sep);
    if r >= rest.len() {
        assert(s.subrange(prefix.len() + i, s.len() as int) =~= rest.subrange(
            i,
            rest.len() as int,
        ));
    } else {
        lemma_split_from_shift(prefix, rest, r + 1, sep);
        assert(s.subrange(prefix.len() + i, prefix.len() + r) =~= rest.subrange(i, r));
    }
}

/// Splitting a separator-free line followed by the separator and a
/// remainder yields the line and then the remainder's pieces.
pub proof fn lemma_split_line(line: Seq<char>, rest: Seq<char>, sep: char)
    requires
        forall|j: int| 0 <= j < line.len() ==> line[j] != sep,
    ensures
        split_on(line + seq![sep] + rest, sep) =~= seq![line] + split_on(rest, sep),
{
    let s = line + seq![sep] + rest;
    assert(forall|j: int| 0 <= j < line.len() ==> s[j] == line[j] && s[j] != sep);
    assert(s[line.len() as int] == sep);
    lemma_find_from_exact(s, 0, line.len() as int, sep);
    assert(s.subrange(0, line.len() as int) =~= line);
    assert(s =~= (line + seq![sep]) + rest);
    lemma_split_from_shift(line + seq![sep], rest, 0, sep);
    assert(split_from(s, line.len() as int + 1, sep) == split_from(
        (line + seq![sep]) + rest,
        (line + seq![sep]).len() as int,
        sep,
    ));
}

/// First occurrence of `sep` in `s` at or after `from`, as
/// executable code; `s` is indexed by characters.
pub fn find_char(s: &str, from: usize, sep: char) -> (r: usize)
    requires
        from <= s@.len(),
    ensures
        r == find_from(s@, from as int, sep),
{
    let n = s.unicode_len();
    let mut i = from;
    while i < n
        invariant
            from <= i <= n,
            n == s@.len(),
            find_from(s@, from as int, sep) == find_from(s@, i as int, sep),
        decreases n - i,
    {
        if s.get_char(i) == sep {
            return i;
        }
        i += 1;
    }
    n
}

/// The pieces of `s` delimited by `sep`, as owned strings.
pub fn split_str(s: &str, sep: char) -> (r: Vec<String>)
    ensures
        seq_views(r@) =~= split_on(s@, sep),
{
    let n = s.unicode_len();
    let mut r: Vec<String> = Vec::new();
    let mut from: usize = 0;
    loop
        invariant_except_break
            from <= n,
            n == s@.len(),
            split_on(s@, sep) =~= seq_views(r@) + split_from(s@, from as int, sep),
        ensures
            seq_views(r@) =~= split_on(s@, sep),
        decreases n - from,
    {
        let j = find_char(s, from, sep);
        proof {
            lemma_find_from(s@, from as int, sep);
        }
        let piece = s.substring_char(from, j).to_owned();
        let ghost old_r = r@;
        r.push(piece);
        proof {
            assert(seq_views(r@) =~= seq_views(old_r).push(piece@));
        }
        if j == n {
            proof {
                assert(split_from(s@, from as int, sep) == seq![s@.subrange(
                    from as int,
                    s@.len() as int,
                )]);
                assert(seq_views(r@) =~= split_on(s@, sep));
            }
            break;
        }
        from = j + 1;
    }
    r
}

/// Character-wise string equality.
pub fn str_eq(a: &str, b: &str) -> (r: bool)
    ensures
        r == (a@ == b@),
{
    let n = a.unicode_len();
    if n != b.unicode_len() {
        return false;
    }
    let mut i: usize = 0;
    while i < n
        invariant
            i <= n,
            n == a@.len() == b@.len(),
            forall|j: int| 0 <= j < i ==> a@[j] == b@[j],
        decreases n - i,
    {
        if a.get_char(i) != b.get_char(i) {
            return false;
        }
        i += 1;
    }
    proof {
        assert(a@ =~= b@);
    }
    true
}

/// `s` ends with `suffix`, compared character-wise.
pub open spec fn spec_ends_with(s: Seq<char>, suffix: Seq<char>) -> bool {
    s.len() >= suffix.len() && s.subrange(s.len() - suffix.len(), s.len() as int) == suffix
}

/// Whether `s` ends with `suffix`.
pub fn str_ends_with(s: &str, suffix: &str) -> (r: bool)
    ensures
        r == spec_ends_with(s@, suffix@),
{
    let n = s.unicode_len();
    let m = suffix.unicode_len();
    if n < m {
        return false;
    }
    let tail = s.substring_char(n - m, n);
    let r = str_eq(tail, suffix);
    proof {
        if !r {
            assert(s@.subrange(s@.len() - suffix@.len(), s@.len() as int) != suffix@);
        }
    }
    r
}

/// Whether one of the strings in `v` equals `x`.
pub fn contains_str(v: &Vec<String>, x: &str) -> (r: bool)
    ensures
        r == seq_views(v@).contains(x@),
{
    let mut i: usize = 0;
    while i < v.len()
        invariant
            i <= v@.len(),
            forall|j: int| 0 <= j < i ==> v@[j]@ != x@,
        decreases v@.len() - i,
    {
        if str_eq(v[i].as_str(), x) {
            assert(seq_views(v@)[i as int] == x@);
            return true;
        }
        i += 1;
    }
    proof {
        if seq_views(v@).contains(x@) {
            let k = choose|k: int| 0 <= k < seq_views(v@).len() && seq_views(v@)[k] == x@;
            assert(v@[k]@ == x@);
        }
    }
    false
}

} // verus!
