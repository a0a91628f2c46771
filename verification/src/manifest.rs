//! Manifest parsing: `key,value` lines of a bundle's descriptor file.
//!
//! The manifest is comma-separated (not `=`); the recognized keys are
//! `name`, `craftman` and `version`; unrecognized keys are ignored and a
//! duplicated key is resolved by its last occurrence.

use vstd::prelude::*;
use vstd::multiset::Multiset;

use crate::text::{trim, trim_spec, str_eq};

verus! {

/// Index of the first occurrence of `c`, or `s.len()` when absent.
pub open spec fn first_index_of(s: Seq<char>, c: char) -> nat
    decreases s.len(),
{
    if s.len() == 0 {
        0
    } else if s[0] == c {
        0
    } else {
        1 + first_index_of(s.skip(1), c)
    }
}

proof fn lemma_first_index_at(s: Seq<char>, c: char, i: int)
    requires
        0 <= i <= s.len(),
        forall|k: int| 0 <= k < i ==> s[k] != c,
        i == s.len() || s[i] == c,
    ensures
        first_index_of(s, c) == i,
    decreases i,
{
    if i == 0 {
    } else {
        assert(s[0] != c);
        lemma_first_index_at(s.skip(1), c, i - 1);
    }
}

/// A line with its trailing carriage return removed, as `str::lines` yields it.
pub open spec fn strip_cr(l: Seq<char>) -> Seq<char> {
    if l.len() > 0 && l.last() == '\r' {
        l.drop_last()
    } else {
        l
    }
}

/// The manifest's lines: split at `\n`, trailing `\r` stripped, no empty
/// final line for text that ends with a newline.
pub open spec fn split_lines(s: Seq<char>) -> Seq<Seq<char>>
    decreases s.len(),
{
    if s.len() == 0 {
        seq![]
    } else {
        let i = first_index_of(s, '\n');
        if i < s.len() {
            seq![strip_cr(s.take(i as int))] + split_lines(s.skip((i + 1) as int))
        } else {
            seq![strip_cr(s)]
        }
    }
}

/// The `key,value` reading of one line: split at the first comma, both
/// sides trimmed; a line without a comma carries no pair.
pub open spec fn line_kv(l: Seq<char>) -> Option<(Seq<char>, Seq<char>)> {
    let i = first_index_of(l, ',');
    if i < l.len() {
        Some((trim_spec(l.take(i as int)), trim_spec(l.skip((i + 1) as int))))
    } else {
        None
    }
}

/// Whether the line carries a pair whose key is `key`.
pub open spec fn matches_key(l: Seq<char>, key: Seq<char>) -> bool {
    line_kv(l) is Some && line_kv(l)->Some_0.0 == key
}

/// The value of a matching line.
pub open spec fn kv_value(l: Seq<char>) -> Seq<char> {
    line_kv(l)->Some_0.1
}

/// The value of the last line with key `key`: duplicates resolve to the
/// last occurrence.
pub open spec fn last_value(ls: Seq<Seq<char>>, key: Seq<char>) -> Option<Seq<char>>
    decreases ls.len(),
{
    if ls.len() == 0 {
        None
    } else if matches_key(ls.last(), key) {
        Some(kv_value(ls.last()))
    } else {
        last_value(ls.drop_last(), key)
    }
}

/// What the parser reports for `key` on manifest text `content`.
pub open spec fn parsed_value(content: Seq<char>, key: Seq<char>) -> Option<Seq<char>> {
    last_value(split_lines(content), key)
}

/// An optional string, seen mathematically.
pub open spec fn opt_str_view(o: Option<String>) -> Option<Seq<char>> {
    match o {
        Some(s) => Some(s@),
        None => None,
    }
}

/// Index of the first occurrence of `c` in `s`, or the length when absent.
pub fn find_char(s: &str, c: char) -> (r: usize)
    ensures
        r == first_index_of(s@, c),
        r <= s@.len(),
{
    let len = s.unicode_len();
    let mut i: usize = 0;
    while i < len
        invariant
            len == s@.len(),
            0 <= i <= len,
            forall|k: int| 0 <= k < i ==> s@[k] != c,
        decreases len - i,
    {
        if s.get_char(i) == c {
            proof {
                lemma_first_index_at(s@, c, i as int);
            }
            return i;
        }
        i += 1;
    }
    proof {
        lemma_first_index_at(s@, c, len as int);
    }
    len
}

fn strip_cr_exec(l: &str) -> (r: String)
    ensures
        r@ == strip_cr(l@),
{
    let n = l.unicode_len();
    if n > 0 && l.get_char(n - 1) == '\r' {
        let r = l.substring_char(0, n - 1).to_owned();
        proof {
            assert(l@.subrange(0, n - 1) =~= l@.drop_last());
        }
        r
    } else {
        l.to_owned()
    }
}

/// Splits manifest text into its lines, as `split_lines` describes them.
pub fn split_lines_exec(s: &str) -> (r: Vec<String>)
    ensures
        r@.map_values(|l: String| l@) == split_lines(s@),
    decreases s@.len(),
{
    let len = s.unicode_len();
    if len == 0 {
        let r: Vec<String> = Vec::new();
        proof {
            assert(r@.map_values(|l: String| l@) =~= split_lines(s@));
        }
        return r;
    }
    let i = find_char(s, '\n');
    if i < len {
        let first = strip_cr_exec(s.substring_char(0, i));
        let mut rest = split_lines_exec(s.substring_char(i + 1, len));
        let mut out: Vec<String> = Vec::new();
        out.push(first);
        out.append(&mut rest);
        proof {
            assert(s@.subrange(0, i as int) =~= s@.take(i as int));
            assert(s@.subrange(i + 1, len as int) =~= s@.skip(i + 1));
            assert(out@.map_values(|l: String| l@) =~= split_lines(s@));
        }
        out
    } else {
        let mut out: Vec<String> = Vec::new();
        out.push(strip_cr_exec(s));
        proof {
            assert(out@.map_values(|l: String| l@) =~= split_lines(s@));
        }
        out
    }
}

/// The trimmed `key,value` pair of one line, if the line has a comma.
pub fn line_key_value(line: &str) -> (r: Option<(String, String)>)
    ensures
        match r {
            Some(kv) => line_kv(line@) == Some((kv.0@, kv.1@)),
            None => line_kv(line@) is None,
        },
{
    let n = line.unicode_len();
    let i = find_char(line, ',');
    if i < n {
        let key = trim(line.substring_char(0, i));
        let value = trim(line.substring_char(i + 1, n));
        proof {
            assert(line@.subrange(0, i as int) =~= line@.take(i as int));
            assert(line@.subrange(i + 1, n as int) =~= line@.skip(i + 1));
        }
        Some((key, value))
    } else {
        None
    }
}

/// Parses a manifest: the `name`, `craftman` and `version` values, each the
/// last occurrence of its key, order-insensitively otherwise.
pub fn parse_descript(content: &str) -> (r: (Option<String>, Option<String>, Option<String>))
    ensures
        opt_str_view(r.0) == parsed_value(content@, "name"@),
        opt_str_view(r.1) == parsed_value(content@, "craftman"@),
        opt_str_view(r.2) == parsed_value(content@, "version"@),
{
    let lines = split_lines_exec(content);
    let ghost lv = split_lines(content@);
    let mut description: Option<String> = None;
    let mut craftman: Option<String> = None;
    let mut version: Option<String> = None;
    let mut i: usize = 0;
    while i < lines.len()
        invariant
            lines@.map_values(|l: String| l@) == lv,
            lv.len() == lines@.len(),
            0 <= i <= lines@.len(),
            opt_str_view(description) == last_value(lv.take(i as int), "name"@),
            opt_str_view(craftman) == last_value(lv.take(i as int), "craftman"@),
            opt_str_view(version) == last_value(lv.take(i as int), "version"@),
        decreases lines@.len() - i,
    {
        proof {
            reveal_strlit("name");
            reveal_strlit("craftman");
            reveal_strlit("version");
            assert("name"@.len() == 4);
            assert("craftman"@.len() == 8);
            assert("version"@.len() == 7);
            assert("name"@ != "craftman"@ && "name"@ != "version"@ && "craftman"@
                != "version"@);
            assert(lv.take(i + 1).drop_last() =~= lv.take(i as int));
            assert(lv.take(i + 1).last() == lv[i as int]);
            assert(lv[i as int] == lines@[i as int]@);
        }
        match line_key_value(lines[i].as_str()) {
            Some(kv) => {
                if str_eq(kv.0.as_str(), "name") {
                    description = Some(kv.1);
                } else if str_eq(kv.0.as_str(), "craftman") {
                    craftman = Some(kv.1);
                } else if str_eq(kv.0.as_str(), "version") {
                    version = Some(kv.1);
                }
            },
            None => {},
        }
        i += 1;
    }
    proof {
        assert(lv.take(lines@.len() as int) =~= lv);
    }
    (description, craftman, version)
}

// ------------------------------------------------------------------
// Order-insensitivity of the parser.
// ------------------------------------------------------------------

/// The predicate "this line's key is `key`", as a function value, so that
/// the same filter can be applied to two line multisets.
pub open spec fn key_matcher(key: Seq<char>) -> spec_fn(Seq<char>) -> bool {
    |l: Seq<char>| matches_key(l, key)
}

/// How many lines of `ls` carry key `key`.
pub open spec fn count_key(ls: Seq<Seq<char>>, key: Seq<char>) -> nat
    decreases ls.len(),
{
    if ls.len() == 0 {
        0
    } else {
        count_key(ls.drop_last(), key) + if matches_key(ls.last(), key) {
            1nat
        } else {
            0nat
        }
    }
}

proof fn lemma_count_key_filter(ls: Seq<Seq<char>>, key: Seq<char>)
    ensures
        ls.to_multiset().filter(key_matcher(key)).len() == count_key(ls, key),
    decreases ls.len(),
{
    broadcast use vstd::multiset::group_multiset_axioms;
    broadcast use vstd::seq_lib::group_to_multiset_ensures;

    let f = key_matcher(key);
    if ls.len() == 0 {
        assert(ls.to_multiset() =~= Multiset::<Seq<char>>::empty());
        assert(ls.to_multiset().filter(f) =~= Multiset::<Seq<char>>::empty());
    } else {
        let pre = ls.drop_last();
        let l = ls.last();
        lemma_count_key_filter(pre, key);
        assert(pre.push(l) =~= ls);
        assert(ls.to_multiset() =~= pre.to_multiset().insert(l));
        if f(l) {
            assert(ls.to_multiset().filter(f) =~= pre.to_multiset().filter(f).insert(l));
        } else {
            assert(ls.to_multiset().filter(f) =~= pre.to_multiset().filter(f));
        }
    }
}

proof fn lemma_no_match_no_value(ls: Seq<Seq<char>>, key: Seq<char>)
    requires
        count_key(ls, key) == 0,
    ensures
        last_value(ls, key) is None,
    decreases ls.len(),
{
    if ls.len() > 0 {
        lemma_no_match_no_value(ls.drop_last(), key);
    }
}

proof fn lemma_unique_match_value(ls: Seq<Seq<char>>, key: Seq<char>, l: Seq<char>)
    requires
        count_key(ls, key) == 1,
        ls.to_multiset().filter(key_matcher(key)).count(l) > 0,
    ensures
        last_value(ls, key) == Some(kv_value(l)),
    decreases ls.len(),
{
    broadcast use vstd::multiset::group_multiset_axioms;
    broadcast use vstd::seq_lib::group_to_multiset_ensures;

    let f = key_matcher(key);
    assert(ls.len() > 0) by {
        if ls.len() == 0 {
            lemma_count_key_filter(ls, key);
        }
    }
    let pre = ls.drop_last();
    let lst = ls.last();
    assert(pre.push(lst) =~= ls);
    assert(ls.to_multiset() =~= pre.to_multiset().insert(lst));
    if matches_key(lst, key) {
        assert(count_key(pre, key) == 0);
        lemma_count_key_filter(pre, key);
        assert(pre.to_multiset().filter(f).len() == 0);
        assert(ls.to_multiset().filter(f) =~= pre.to_multiset().filter(f).insert(lst));
        if l != lst {
            assert(ls.to_multiset().filter(f).count(l) == pre.to_multiset().filter(f).count(l));
            assert(pre.to_multiset().filter(f).count(l) <= pre.to_multiset().filter(f).len());
            assert(false);
        }
        assert(last_value(ls, key) == Some(kv_value(lst)));
    } else {
        assert(!f(lst));
        assert(ls.to_multiset().filter(f) =~= pre.to_multiset().filter(f));
        assert(count_key(pre, key) == 1);
        lemma_unique_match_value(pre, key, l);
    }
}

/// Parsing is order-insensitive: two line sequences that are rearrangements
/// of one another report the same value for a key that occurs on at most one
/// line.  (With a duplicated key the last occurrence wins, so order matters
/// exactly there.)
pub proof fn lemma_last_value_order_insensitive(
    a: Seq<Seq<char>>,
    b: Seq<Seq<char>>,
    key: Seq<char>,
)
    requires
        a.to_multiset() == b.to_multiset(),
        count_key(a, key) <= 1,
    ensures
        last_value(a, key) == last_value(b, key),
{
    broadcast use vstd::multiset::group_multiset_axioms;

    lemma_count_key_filter(a, key);
    lemma_count_key_filter(b, key);
    if count_key(a, key) == 0 {
        lemma_no_match_no_value(a, key);
        lemma_no_match_no_value(b, key);
    } else {
        let f = key_matcher(key);
        let m = a.to_multiset().filter(f);
        assert(m.len() == 1);
        let l = m.choose();
        assert(m.count(l) > 0);
        lemma_unique_match_value(a, key, l);
        lemma_unique_match_value(b, key, l);
    }
}

/// The same law at the level of whole manifests: two manifest texts whose
/// lines are rearrangements of one another parse to the same value for any
/// key held by at most one line.
pub proof fn lemma_parse_order_insensitive(x: Seq<char>, y: Seq<char>, key: Seq<char>)
    requires
        split_lines(x).to_multiset() == split_lines(y).to_multiset(),
        count_key(split_lines(x), key) <= 1,
    ensures
        parsed_value(x, key) == parsed_value(y, key),
{
    lemma_last_value_order_insensitive(split_lines(x), split_lines(y), key);
}

} // verus!
