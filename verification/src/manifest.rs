//! The manifest grammar: a line-oriented key/value format.
//!
//! A manifest is a sequence of lines. A line is blank, a comment
//! starting with `#`, a section header `[name]`, or a pair
//! `key = value` whose value is a quoted string or an array of
//! quoted strings. Strings have no escape sequences; a backslash or
//! an embedded quote is a syntax error. Project and workspace
//! documents are two interpretations of this one grammar.

use vstd::prelude::*;

use crate::strutil::{find_from, lemma_find_from, lemma_find_from_exact, seq_views};

verus! {

/// Whitespace inside a line. A carriage return counts so that
/// documents with Windows line endings parse the same way.
pub open spec fn is_ws(c: char) -> bool {
    c == ' ' || c == '\t' || c == '\r'
}

/// Characters allowed in a bare key.
pub open spec fn is_key_char(c: char) -> bool {
    ('a' <= c && c <= 'z') || ('A' <= c && c <= 'Z') || ('0' <= c && c <= '9') || c == '_' || c
        == '-'
}

/// First index at or after `i` whose character is not whitespace;
/// the length of `line` if all the rest is whitespace.
pub open spec fn skip_ws(line: Seq<char>, i: int) -> int
    decreases line.len() - i
        when 0 <= i <= line.len()
{
    if i >= line.len() {
        line.len() as int
    } else if is_ws(line[i]) {
        skip_ws(line, i + 1)
    } else {
        i
    }
}

/// `skip_ws` lands on the first non-whitespace character.
pub proof fn lemma_skip_ws(line: Seq<char>, i: int)
    requires
        0 <= i <= line.len(),
    ensures
        i <= skip_ws(line, i) <= line.len(),
        skip_ws(line, i) < line.len() ==> !is_ws(line[skip_ws(line, i)]),
        forall|j: int| i <= j < skip_ws(line, i) ==> is_ws(line[j]),
    decreases line.len() - i,
{
    if i < line.len() && is_ws(line[i]) {
        lemma_skip_ws(line, i + 1);
    }
}

/// First index at or after `i` whose character cannot belong to a
/// bare key.
pub open spec fn scan_key(line: Seq<char>, i: int) -> int
    decreases line.len() - i
        when 0 <= i <= line.len()
{
    if i >= line.len() {
        line.len() as int
    } else if is_key_char(line[i]) {
        scan_key(line, i + 1)
    } else {
        i
    }
}

/// `scan_key` lands on the first non-key character.
pub proof fn lemma_scan_key(line: Seq<char>, i: int)
    requires
        0 <= i <= line.len(),
    ensures
        i <= scan_key(line, i) <= line.len(),
        scan_key(line, i) < line.len() ==> !is_key_char(line[scan_key(line, i)]),
        forall|j: int| i <= j < scan_key(line, i) ==> is_key_char(line[j]),
    decreases line.len() - i,
{
    if i < line.len() && is_key_char(line[i]) {
        lemma_scan_key(line, i + 1);
    }
}

/// The value of a `key = value` line.
pub ghost enum ValueV {
    /// A quoted string, given by its contents.
    VStr(Seq<char>),
    /// An array of quoted strings.
    VArr(Seq<Seq<char>>),
}

/// What one line of a manifest means.
pub ghost enum LineItemV {
    /// Nothing: empty, whitespace only, or a comment.
    Blank,
    /// A section header, given by the text between the brackets.
    Header(Seq<char>),
    /// A `key = value` pair.
    KeyVal(Seq<char>, ValueV),
    /// A line the grammar rejects.
    Bad,
}

/// The items of an array value starting at `i` (just after the
/// opening bracket or a comma), with the index just after the
/// closing bracket; `None` if the array is malformed. A trailing
/// comma before the closing bracket is allowed.
pub open spec fn parse_items(line: Seq<char>, i: int) -> Option<(Seq<Seq<char>>, int)>
    decreases line.len() - i
        when 0 <= i <= line.len()
        via parse_items_decreases
{
    let p = skip_ws(line, i);
    if p >= line.len() {
        None
    } else if line[p] == ']' {
        Some((seq![], p + 1))
    } else if line[p] == '"' {
        let e = find_from(line, p + 1, '"');
        if e >= line.len() {
            None
        } else if find_from(line, p + 1, '\\') < e {
            None
        } else {
            let item = line.subrange(p + 1, e);
            let q = skip_ws(line, e + 1);
            if q >= line.len() {
                None
            } else if line[q] == ']' {
                Some((seq![item], q + 1))
            } else if line[q] == ',' {
                match parse_items(line, q + 1) {
                    None => None,
                    Some((rest, end)) => Some((seq![item] + rest, end)),
                }
            } else {
                None
            }
        }
    } else {
        None
    }
}

#[via_fn]
proof fn parse_items_decreases(line: Seq<char>, i: int) {
    lemma_skip_ws(line, i);
    let p = skip_ws(line, i);
    if p < line.len() && line[p] == '"' {
        lemma_find_from(line, p + 1, '"');
        let e = find_from(line, p + 1, '"');
        if e < line.len() {
            lemma_skip_ws(line, e + 1);
        }
    }
}

/// A well-formed array ends strictly after where it started.
pub proof fn lemma_parse_items_advances(line: Seq<char>, i: int)
    requires
        0 <= i <= line.len(),
        parse_items(line, i) is Some,
    ensures
        i < parse_items(line, i)->Some_0.1 <= line.len(),
    decreases line.len() - i,
{
    lemma_skip_ws(line, i);
    let p = skip_ws(line, i);
    if p < line.len() && line[p] == '"' {
        lemma_find_from(line, p + 1, '"');
        let e = find_from(line, p + 1, '"');
        if e < line.len() {
            lemma_skip_ws(line, e + 1);
            let q = skip_ws(line, e + 1);
            if q < line.len() && line[q] == ',' {
                lemma_parse_items_advances(line, q + 1);
            }
        }
    }
}

/// The value text starting at `i`; `None` if it is neither a
/// well-formed quoted string nor a well-formed array, or if
/// anything but whitespace follows it.
pub open spec fn parse_value(line: Seq<char>, i: int) -> Option<ValueV>
    recommends
        0 <= i <= line.len(),
{
    if i >= line.len() {
        None
    } else if line[i] == '"' {
        let e = find_from(line, i + 1, '"');
        if e >= line.len() {
            None
        } else if find_from(line, i + 1, '\\') < e {
            None
        } else if skip_ws(line, e + 1) != line.len() {
            None
        } else {
            Some(ValueV::VStr(line.subrange(i + 1, e)))
        }
    } else if line[i] == '[' {
        match parse_items(line, i + 1) {
            None => None,
            Some((items, end)) => if skip_ws(line, end) != line.len() {
                None
            } else {
                Some(ValueV::VArr(items))
            },
        }
    } else {
        None
    }
}

/// What a whole line means.
pub open spec fn classify_line(line: Seq<char>) -> LineItemV {
    let a = skip_ws(line, 0);
    if a >= line.len() {
        LineItemV::Blank
    } else if line[a] == '#' {
        LineItemV::Blank
    } else if line[a] == '[' {
        let e = find_from(line, a + 1, ']');
        if e >= line.len() {
            LineItemV::Bad
        } else if skip_ws(line, e + 1) != line.len() {
            LineItemV::Bad
        } else {
            LineItemV::Header(line.subrange(a + 1, e))
        }
    } else {
        let k = scan_key(line, a);
        if k == a {
            LineItemV::Bad
        } else {
            let eq = skip_ws(line, k);
            if eq >= line.len() || line[eq] != '=' {
                LineItemV::Bad
            } else {
                match parse_value(line, skip_ws(line, eq + 1)) {
                    None => LineItemV::Bad,
                    Some(v) => LineItemV::KeyVal(line.subrange(a, k), v),
                }
            }
        }
    }
}

/// A text that may stand between the quotes of a value: anything
/// without a quote or a backslash. Such a text parses back out of
/// its quotes unchanged.
pub open spec fn quotable(s: Seq<char>) -> bool {
    forall|j: int| 0 <= j < s.len() ==> s[j] != '"' && s[j] != '\\'
}

/// A bare key: nonempty, made of key characters only.
pub open spec fn bare_key(s: Seq<char>) -> bool {
    s.len() >= 1 && (forall|j: int| 0 <= j < s.len() ==> is_key_char(#[trigger] s[j]))
}

/// The empty line means nothing.
pub proof fn lemma_classify_empty()
    ensures
        classify_line(Seq::empty()) == LineItemV::Blank,
{
}

/// A bracketed name on a line of its own is a header naming it.
pub proof fn lemma_classify_header(name: Seq<char>)
    requires
        forall|j: int| 0 <= j < name.len() ==> name[j] != ']',
        name.len() >= 1,
        !is_ws(name[0]),
        name[0] != '#',
    ensures
        classify_line(seq!['['] + name + seq![']']) == LineItemV::Header(name),
{
    let line = seq!['['] + name + seq![']'];
    lemma_skip_ws(line, 0);
    assert(line[0] == '[');
    assert(skip_ws(line, 0) == 0);
    assert(forall|j: int| 1 <= j < 1 + name.len() ==> line[j] == name[j - 1] && line[j] != ']');
    assert(line[name.len() as int + 1] == ']');
    lemma_find_from_exact(line, 1, name.len() as int + 1, ']');
    let e = find_from(line, 1, ']');
    assert(e == name.len() + 1);
    lemma_skip_ws(line, e + 1);
    assert(skip_ws(line, e + 1) == line.len());
    assert(line.subrange(1, e) =~= name);
}

/// A `key = "value"` line, with a bare key and a quotable value,
/// classifies as that pair.
pub proof fn lemma_classify_str_line(key: Seq<char>, val: Seq<char>)
    requires
        bare_key(key),
        quotable(val),
    ensures
        classify_line(key + " = \""@ + val + "\""@) == LineItemV::KeyVal(key, ValueV::VStr(val)),
{
    reveal_strlit(" = \"");
    reveal_strlit("\"");
    let mid = " = \""@;
    let quote = "\""@;
    assert(mid.len() == 4 && mid[0] == ' ' && mid[1] == '=' && mid[2] == ' ' && mid[3] == '"');
    assert(quote.len() == 1 && quote[0] == '"');
    let line = key + mid + val + quote;
    let kl = key.len() as int;
    let vl = val.len() as int;
    assert(line.len() == kl + 4 + vl + 1);
    assert(forall|j: int| 0 <= j < kl ==> line[j] == key[j]);
    assert(line[kl] == ' ' && line[kl + 1] == '=' && line[kl + 2] == ' ' && line[kl + 3] == '"');
    assert(forall|j: int| kl + 4 <= j < kl + 4 + vl ==> line[j] == val[j - kl - 4]);
    assert(line[kl + 4 + vl] == '"');
    // The cursor starts on the key.
    lemma_skip_ws(line, 0);
    assert(!is_ws(line[0]));
    assert(skip_ws(line, 0) == 0);
    assert(line[0] != '#' && line[0] != '[');
    // The key runs to the space before the equals sign.
    lemma_scan_key(line, 0);
    let k = scan_key(line, 0);
    assert(!is_key_char(line[kl]));
    assert(k <= kl);
    assert(k == kl);
    assert(line.subrange(0, kl) =~= key);
    // One space, the equals sign, one space, then the value.
    lemma_skip_ws(line, kl);
    assert(skip_ws(line, kl) == kl + 1);
    lemma_skip_ws(line, kl + 2);
    assert(skip_ws(line, kl + 2) == kl + 3);
    // The quoted value runs to the final quote.
    lemma_find_from_exact(line, kl + 4, kl + 4 + vl, '"');
    let e = find_from(line, kl + 4, '"');
    assert(e == kl + 4 + vl);
    lemma_find_from(line, kl + 4, '\\');
    let bs = find_from(line, kl + 4, '\\');
    assert(bs >= e) by {
        if bs < e {
            assert(line[bs] == '\\');
            assert(line[bs] == val[bs - kl - 4]);
        }
    }
    lemma_skip_ws(line, e + 1);
    assert(skip_ws(line, e + 1) == line.len());
    assert(line.subrange(kl + 4, e) =~= val);
}

/// Parsing the quoted, comma-joined items from `k` on, followed by
/// the closing bracket at the end of the line, yields exactly
/// those items. `p` may sit on leading whitespace before the first
/// quote.
proof fn lemma_parse_join(line: Seq<char>, p: int, items: Seq<Seq<char>>, k: int)
    requires
        0 <= p <= line.len(),
        0 <= k < items.len(),
        forall|a: int| 0 <= a < items.len() ==> quotable(#[trigger] items[a]),
        line.len() == crate::project::join_quoted_from(items, k).len() + 1 + skip_ws(line, p),
        line.subrange(skip_ws(line, p), line.len() - 1) == crate::project::join_quoted_from(
            items,
            k,
        ),
        line[line.len() - 1] == ']',
    ensures
        parse_items(line, p) == Some((items.skip(k), line.len() as int)),
    decreases items.len() - k,
{
    reveal_strlit("\"");
    reveal_strlit(", ");
    let quote = "\""@;
    let comma = ", "@;
    assert(quote.len() == 1 && quote[0] == '"');
    assert(comma.len() == 2 && comma[0] == ',' && comma[1] == ' ');
    let joined = crate::project::join_quoted_from(items, k);
    lemma_skip_ws(line, p);
    let s0 = skip_ws(line, p);
    let ikl = items[k].len() as int;
    assert forall|j: int| 0 <= j < joined.len() implies #[trigger] line[s0 + j] == joined[j] by {
        assert(line.subrange(s0, line.len() - 1)[j] == line[s0 + j]);
    }
    let tail = crate::project::join_quoted_from(items, k + 1);
    if k == items.len() - 1 {
        assert(joined =~= quote + items[k] + quote);
    } else {
        assert(joined =~= quote + items[k] + quote + comma + tail);
    }
    assert(joined.len() >= ikl + 2);
    assert(line[s0 + 0] == joined[0] && joined[0] == quote[0]);
    assert(line[s0] == '"');
    assert forall|j: int| s0 + 1 <= j < s0 + 1 + ikl implies line[j] == items[k][j - s0 - 1] by {
        assert(line[s0 + (j - s0)] == joined[j - s0]);
        assert(joined[j - s0] == items[k][j - s0 - 1]);
    }
    assert(line[s0 + (1 + ikl)] == joined[1 + ikl] && joined[1 + ikl] == quote[0]);
    assert(line[s0 + 1 + ikl] == '"');
    lemma_find_from_exact(line, s0 + 1, s0 + 1 + ikl, '"');
    let e = find_from(line, s0 + 1, '"');
    assert(e == s0 + 1 + ikl);
    lemma_find_from(line, s0 + 1, '\\');
    let bs = find_from(line, s0 + 1, '\\');
    assert(bs >= e) by {
        if bs < e {
            assert(line[bs] == items[k][bs - s0 - 1]);
        }
    }
    assert(line.subrange(s0 + 1, e) =~= items[k]);
    if k == items.len() - 1 {
        assert(e + 1 == line.len() - 1);
        lemma_skip_ws(line, e + 1);
        assert(skip_ws(line, e + 1) == e + 1);
        assert(line[e + 1] == ']');
        assert(items.skip(k) =~= seq![items[k]]);
        assert(parse_items(line, p) == Some((items.skip(k), line.len() as int)));
    } else {
        assert(line[s0 + (ikl + 2)] == joined[ikl + 2] && joined[ikl + 2] == comma[0]);
        assert(line[e + 1] == ',');
        lemma_skip_ws(line, e + 1);
        assert(skip_ws(line, e + 1) == e + 1);
        assert(line[s0 + (ikl + 3)] == joined[ikl + 3] && joined[ikl + 3] == comma[1]);
        assert(line[e + 2] == ' ');
        assert(tail.len() >= 1 && tail[0] == '"') by {
            if k + 1 == items.len() - 1 {
                assert(tail == quote + items[k + 1] + quote);
            } else {
                assert(tail == quote + items[k + 1] + quote + comma
                    + crate::project::join_quoted_from(items, k + 2));
            }
            assert(tail[0] == quote[0]);
        }
        assert(line[s0 + (ikl + 4)] == joined[ikl + 4] && joined[ikl + 4] == tail[0]);
        assert(line[e + 3] == '"');
        lemma_skip_ws(line, e + 2);
        assert(skip_ws(line, e + 2) == e + 3);
        assert forall|x: int| 0 <= x < tail.len() implies line.subrange(
            e + 3,
            line.len() - 1,
        )[x] == tail[x] by {
            assert(line.subrange(e + 3, line.len() - 1)[x] == line[e + 3 + x]);
            assert(line[s0 + (ikl + 4 + x)] == joined[ikl + 4 + x]);
            assert(joined[ikl + 4 + x] == tail[x]);
        }
        assert(line.subrange(e + 3, line.len() - 1) =~= tail);
        lemma_parse_join(line, e + 2, items, k + 1);
        assert(parse_items(line, e + 2) == Some((items.skip(k + 1), line.len() as int)));
        assert(seq![items[k]] + items.skip(k + 1) =~= items.skip(k));
        assert(parse_items(line, p) == Some((items.skip(k), line.len() as int)));
    }
}

/// A `key = [items]` line, with a bare key and quotable items,
/// classifies as that pair.
pub proof fn lemma_classify_arr_line(key: Seq<char>, items: Seq<Seq<char>>)
    requires
        bare_key(key),
        forall|a: int| 0 <= a < items.len() ==> quotable(#[trigger] items[a]),
    ensures
        classify_line(
            key + " = ["@ + crate::project::join_quoted_from(items, 0) + "]"@,
        ) == LineItemV::KeyVal(key, ValueV::VArr(items)),
{
    reveal_strlit(" = [");
    reveal_strlit("]");
    reveal_strlit("\"");
    let mid = " = ["@;
    let close = "]"@;
    assert(mid.len() == 4 && mid[0] == ' ' && mid[1] == '=' && mid[2] == ' ' && mid[3] == '[');
    assert(close.len() == 1 && close[0] == ']');
    let joined = crate::project::join_quoted_from(items, 0);
    let line = key + mid + joined + close;
    let kl = key.len() as int;
    let jl = joined.len() as int;
    assert(line.len() == kl + 4 + jl + 1);
    assert(forall|j: int| 0 <= j < kl ==> line[j] == key[j]);
    assert(line[kl] == ' ' && line[kl + 1] == '=' && line[kl + 2] == ' ' && line[kl + 3] == '[');
    assert(forall|j: int| kl + 4 <= j < kl + 4 + jl ==> line[j] == joined[j - kl - 4]);
    assert(line[kl + 4 + jl] == ']');
    lemma_skip_ws(line, 0);
    assert(skip_ws(line, 0) == 0);
    assert(line[0] != '#' && line[0] != '[');
    lemma_scan_key(line, 0);
    assert(!is_key_char(line[kl]));
    assert(scan_key(line, 0) == kl);
    assert(line.subrange(0, kl) =~= key);
    lemma_skip_ws(line, kl);
    assert(skip_ws(line, kl) == kl + 1);
    lemma_skip_ws(line, kl + 2);
    assert(skip_ws(line, kl + 2) == kl + 3);
    // The array begins right after the bracket.
    if items.len() == 0 {
        assert(jl == 0);
        lemma_skip_ws(line, kl + 4);
        assert(line[kl + 4] == ']');
        assert(skip_ws(line, kl + 4) == kl + 4);
        assert(parse_items(line, kl + 4) == Some(
            (Seq::<Seq<char>>::empty(), line.len() as int),
        ));
        lemma_skip_ws(line, line.len() as int);
        assert(items =~= Seq::<Seq<char>>::empty());
    } else {
        assert(joined[0] == '"') by {
            assert(joined[0] == "\""@[0]);
        }
        assert(line[kl + 4] == '"');
        lemma_skip_ws(line, kl + 4);
        assert(skip_ws(line, kl + 4) == kl + 4);
        assert(line.subrange(kl + 4, line.len() - 1) =~= joined);
        lemma_parse_join(line, kl + 4, items, 0);
        assert(items.skip(0) =~= items);
        lemma_skip_ws(line, line.len() as int);
    }
}

/// Executable form of a line value.
pub enum ValueE {
    VStr(String),
    VArr(Vec<String>),
}

impl View for ValueE {
    type V = ValueV;

    open spec fn view(&self) -> ValueV {
        match self {
            ValueE::VStr(s) => ValueV::VStr(s@),
            ValueE::VArr(a) => ValueV::VArr(seq_views(a@)),
        }
    }
}

/// Executable form of a classified line.
pub enum LineItemE {
    Blank,
    Header(String),
    KeyVal(String, ValueE),
    Bad,
}

impl View for LineItemE {
    type V = LineItemV;

    open spec fn view(&self) -> LineItemV {
        match self {
            LineItemE::Blank => LineItemV::Blank,
            LineItemE::Header(s) => LineItemV::Header(s@),
            LineItemE::KeyVal(k, v) => LineItemV::KeyVal(k@, v@),
            LineItemE::Bad => LineItemV::Bad,
        }
    }
}

/// Whether `c` is whitespace inside a line.
fn is_ws_exec(c: char) -> (r: bool)
    ensures
        r == is_ws(c),
{
    c == ' ' || c == '\t' || c == '\r'
}

/// Whether `c` may belong to a bare key.
fn is_key_char_exec(c: char) -> (r: bool)
    ensures
        r == is_key_char(c),
{
    ('a' <= c && c <= 'z') || ('A' <= c && c <= 'Z') || ('0' <= c && c <= '9') || c == '_' || c
        == '-'
}

/// First non-whitespace index at or after `i`.
fn skip_ws_exec(line: &str, i: usize) -> (r: usize)
    requires
        i <= line@.len(),
    ensures
        r == skip_ws(line@, i as int),
{
    let n = line.unicode_len();
    let mut j = i;
    while j < n
        invariant
            i <= j <= n,
            n == line@.len(),
            skip_ws(line@, i as int) == skip_ws(line@, j as int),
        decreases n - j,
    {
        if !is_ws_exec(line.get_char(j)) {
            return j;
        }
        j += 1;
    }
    n
}

/// First non-key index at or after `i`.
fn scan_key_exec(line: &str, i: usize) -> (r: usize)
    requires
        i <= line@.len(),
    ensures
        r == scan_key(line@, i as int),
{
    let n = line.unicode_len();
    let mut j = i;
    while j < n
        invariant
            i <= j <= n,
            n == line@.len(),
            scan_key(line@, i as int) == scan_key(line@, j as int),
        decreases n - j,
    {
        if !is_key_char_exec(line.get_char(j)) {
            return j;
        }
        j += 1;
    }
    n
}

/// Executable form of [`parse_items`].
fn parse_items_exec(line: &str, i: usize) -> (r: Option<(Vec<String>, usize)>)
    requires
        i <= line@.len(),
    ensures
        (parse_items(line@, i as int) matches Some((items, end)) ==> r matches Some(x)
            && seq_views(x.0@) == items && x.1 as int == end),
        (parse_items(line@, i as int) is None ==> r is None),
    decreases line@.len() - i,
{
    let n = line.unicode_len();
    let p = skip_ws_exec(line, i);
    proof {
        lemma_skip_ws(line@, i as int);
    }
    if p >= n {
        return None;
    }
    let c = line.get_char(p);
    if c == ']' {
        let r: Vec<String> = Vec::new();
        proof {
            assert(seq_views(r@) =~= Seq::<Seq<char>>::empty());
        }
        return Some((r, p + 1));
    }
    if c != '"' {
        return None;
    }
    let e = crate::strutil::find_char(line, p + 1, '"');
    proof {
        lemma_find_from(line@, p + 1, '"');
    }
    if e >= n {
        return None;
    }
    let bs = crate::strutil::find_char(line, p + 1, '\\');
    if bs < e {
        return None;
    }
    let item = line.substring_char(p + 1, e).to_owned();
    let q = skip_ws_exec(line, e + 1);
    proof {
        lemma_skip_ws(line@, e + 1);
    }
    if q >= n {
        return None;
    }
    let c2 = line.get_char(q);
    if c2 == ']' {
        let mut r: Vec<String> = Vec::new();
        r.push(item);
        proof {
            assert(seq_views(r@) =~= seq![line@.subrange(p + 1, e as int)]);
        }
        return Some((r, q + 1));
    }
    if c2 == ',' {
        match parse_items_exec(line, q + 1) {
            None => None,
            Some((rest, end)) => {
                let ghost restv = seq_views(rest@);
                let mut r = rest;
                r.insert(0, item);
                proof {
                    assert(seq_views(r@) =~= seq![line@.subrange(p + 1, e as int)] + restv);
                }
                Some((r, end))
            },
        }
    } else {
        None
    }
}

/// Classifies one line of a manifest.
pub fn classify_line_exec(line: &str) -> (r: LineItemE)
    ensures
        r@ == classify_line(line@),
{
    let n = line.unicode_len();
    let a = skip_ws_exec(line, 0);
    proof {
        lemma_skip_ws(line@, 0);
    }
    if a >= n {
        return LineItemE::Blank;
    }
    let c = line.get_char(a);
    if c == '#' {
        return LineItemE::Blank;
    }
    if c == '[' {
        let e = crate::strutil::find_char(line, a + 1, ']');
        proof {
            lemma_find_from(line@, a + 1, ']');
        }
        if e >= n {
            return LineItemE::Bad;
        }
        if skip_ws_exec(line, e + 1) != n {
            return LineItemE::Bad;
        }
        return LineItemE::Header(line.substring_char(a + 1, e).to_owned());
    }
    let k = scan_key_exec(line, a);
    proof {
        lemma_scan_key(line@, a as int);
    }
    if k == a {
        return LineItemE::Bad;
    }
    let eq = skip_ws_exec(line, k);
    proof {
        lemma_skip_ws(line@, k as int);
    }
    if eq >= n || line.get_char(eq) != '=' {
        return LineItemE::Bad;
    }
    let v = skip_ws_exec(line, eq + 1);
    proof {
        lemma_skip_ws(line@, eq + 1);
    }
    let value = if v >= n {
        return LineItemE::Bad;
    } else {
        let c2 = line.get_char(v);
        if c2 == '"' {
            let e = crate::strutil::find_char(line, v + 1, '"');
            proof {
                lemma_find_from(line@, v + 1, '"');
            }
            if e >= n {
                return LineItemE::Bad;
            }
            let bs = crate::strutil::find_char(line, v + 1, '\\');
            if bs < e {
                return LineItemE::Bad;
            }
            if skip_ws_exec(line, e + 1) != n {
                return LineItemE::Bad;
            }
            ValueE::VStr(line.substring_char(v + 1, e).to_owned())
        } else if c2 == '[' {
            match parse_items_exec(line, v + 1) {
                None => {
                    return LineItemE::Bad;
                },
                Some((items, end)) => {
                    proof {
                        lemma_parse_items_advances(line@, v + 1);
                    }
                    if skip_ws_exec(line, end) != n {
                        return LineItemE::Bad;
                    }
                    ValueE::VArr(items)
                },
            }
        } else {
            return LineItemE::Bad;
        }
    };
    LineItemE::KeyVal(line.substring_char(a, k).to_owned(), value)
}

} // verus!
