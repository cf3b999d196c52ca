//! Checks on the text of a route pattern that are made before the matcher
//! sees it.

use vstd::prelude::*;
use vstd::string::*;
use crate::tree::{
    admissible, count_char, loose_wildcard_at, wildcard_then_separator, MAX_PARAMS,
};

verus! {

/// A pattern with a trailing wildcard: it holds a `*`.
pub open spec fn has_wildcard(pattern: Seq<char>) -> bool {
    exists|i: int| 0 <= i < pattern.len() && #[trigger] pattern[i] == '*'
}

/// Counting over a prefix that grows by one character.
pub proof fn count_char_step(s: Seq<char>, n: int, c: char)
    requires
        0 <= n < s.len(),
    ensures
        count_char(s.take(n + 1), c) == count_char(s.take(n), c) + if s[n] == c {
            1nat
        } else {
            0nat
        },
{
    assert(s.take(n + 1).drop_last() =~= s.take(n));
}

/// Counting never goes down as the prefix grows.
pub proof fn count_char_monotone(s: Seq<char>, n: int, c: char)
    requires
        0 <= n <= s.len(),
    ensures
        count_char(s.take(n), c) <= count_char(s, c),
    decreases s.len() - n,
{
    if n < s.len() {
        count_char_step(s, n, c);
        count_char_monotone(s, n + 1, c);
    } else {
        assert(s.take(n) =~= s);
    }
}

/// Whether `pattern` may be handed to the matcher.
pub fn is_admissible(pattern: &str) -> (ok: bool)
    ensures
        ok == admissible(pattern@),
{
    if !pattern.is_ascii() {
        return false;
    }
    if pattern.unicode_len() == 0 {
        return false;
    }
    let first: u8 = pattern.get_ascii(0);
    proof {
        assert((first == 47u8) == (pattern@[0] == '/'));
    }
    first == 47u8 && few_colons(pattern) && !finds_loose_wildcard(pattern)
        && !finds_early_wildcard(pattern)
}

/// Whether `pattern` holds at most `MAX_PARAMS` colons.
fn few_colons(pattern: &str) -> (ok: bool)
    requires
        pattern.is_ascii(),
    ensures
        ok == (count_char(pattern@, ':') <= MAX_PARAMS),
{
    let n: usize = pattern.unicode_len();
    let mut colons: usize = 0;
    let mut i: usize = 0;
    while i < n
        invariant
            pattern.is_ascii(),
            n == pattern@.len(),
            i <= n,
            colons == count_char(pattern@.take(i as int), ':'),
            colons <= MAX_PARAMS,
        decreases n - i,
    {
        let b: u8 = pattern.get_ascii(i);
        proof {
            count_char_step(pattern@, i as int, ':');
            assert((b == 58u8) == (pattern@[i as int] == ':'));
        }
        if b == 58u8 {
            if colons == MAX_PARAMS {
                proof {
                    count_char_monotone(pattern@, i as int + 1, ':');
                }
                return false;
            }
            colons = colons + 1;
        }
        i = i + 1;
    }
    proof {
        assert(pattern@.take(n as int) =~= pattern@);
    }
    true
}

/// The character at `i` starts a parameter: a `:` for a named one, a `*` for
/// a wildcard.
pub open spec fn marker_at(pattern: Seq<char>, i: int) -> bool {
    0 <= i < pattern.len() && (pattern[i] == ':' || pattern[i] == '*')
}

/// Two separators stand side by side at `i`: the segment between them is
/// empty.
pub open spec fn double_separator_at(pattern: Seq<char>, i: int) -> bool {
    0 <= i < pattern.len() - 1 && pattern[i] == '/' && pattern[i + 1] == '/'
}

/// Where the segment that holds position `i` ends: the first separator at or
/// behind `i`, or the end of the pattern.
pub open spec fn segment_end(pattern: Seq<char>, i: int) -> int
    decreases pattern.len() - i,
{
    if i < 0 || i >= pattern.len() || pattern[i] == '/' {
        i
    } else {
        segment_end(pattern, i + 1)
    }
}

/// The name of the parameter whose marker stands at `i`: what follows the
/// marker in its segment.
pub open spec fn param_name(pattern: Seq<char>, i: int) -> Seq<char> {
    pattern.subrange(i + 1, segment_end(pattern, i + 1))
}

/// The parameters at `i` and at `j` have the same name.
pub open spec fn same_name_at(pattern: Seq<char>, i: int, j: int) -> bool {
    &&& marker_at(pattern, i)
    &&& marker_at(pattern, j)
    &&& i < j
    &&& param_name(pattern, i) == param_name(pattern, j)
}

/// Some segment between two separators is empty.
pub open spec fn has_empty_segment(pattern: Seq<char>) -> bool {
    exists|i: int| #[trigger] double_separator_at(pattern, i)
}

/// Two parameters of the pattern have the same name.
pub open spec fn has_duplicate_name(pattern: Seq<char>) -> bool {
    exists|i: int, j: int| #[trigger] same_name_at(pattern, i, j)
}

/// The patterns that a table takes: admissible for the matcher, so with
/// any wildcard as the last segment; no empty segment between separators;
/// and no parameter name twice. A separator at the end is no empty segment:
/// the pattern with it and the pattern without it are two routes.
pub open spec fn well_formed(pattern: Seq<char>) -> bool {
    &&& admissible(pattern)
    &&& !has_empty_segment(pattern)
    &&& !has_duplicate_name(pattern)
}

/// Where the segment that holds position `from` ends.
fn find_segment_end(pattern: &str, from: usize) -> (end: usize)
    requires
        pattern.is_ascii(),
        from <= pattern@.len(),
    ensures
        end == segment_end(pattern@, from as int),
        from <= end <= pattern@.len(),
{
    let n: usize = pattern.unicode_len();
    let mut j: usize = from;
    while j < n
        invariant
            pattern.is_ascii(),
            n == pattern@.len(),
            from <= j <= n,
            segment_end(pattern@, from as int) == segment_end(pattern@, j as int),
        decreases n - j,
    {
        let b: u8 = pattern.get_ascii(j);
        proof {
            assert((b == 47u8) == (pattern@[j as int] == '/'));
        }
        if b == 47u8 {
            return j;
        }
        j = j + 1;
    }
    j
}

/// Whether the character at `i` starts a parameter.
fn is_marker(pattern: &str, i: usize) -> (found: bool)
    requires
        pattern.is_ascii(),
        i < pattern@.len(),
    ensures
        found == marker_at(pattern@, i as int),
{
    let b: u8 = pattern.get_ascii(i);
    proof {
        assert((b == 58u8) == (pattern@[i as int] == ':'));
        assert((b == 42u8) == (pattern@[i as int] == '*'));
    }
    b == 58u8 || b == 42u8
}

/// Whether some segment between two separators is empty.
fn finds_empty_segment(pattern: &str) -> (found: bool)
    requires
        pattern.is_ascii(),
    ensures
        found == has_empty_segment(pattern@),
{
    let n: usize = pattern.unicode_len();
    let mut i: usize = 1;
    while i < n
        invariant
            pattern.is_ascii(),
            n == pattern@.len(),
            1 <= i,
            forall|k: int| 0 <= k < i - 1 ==> !#[trigger] double_separator_at(pattern@, k),
        decreases n - i,
    {
        let a: u8 = pattern.get_ascii(i - 1);
        let b: u8 = pattern.get_ascii(i);
        proof {
            assert((a == 47u8) == (pattern@[i - 1] == '/'));
            assert((b == 47u8) == (pattern@[i as int] == '/'));
        }
        if a == 47u8 && b == 47u8 {
            assert(double_separator_at(pattern@, i - 1));
            return true;
        }
        i = i + 1;
    }
    false
}

/// Whether some `*` does not stand directly behind a separator.
fn finds_loose_wildcard(pattern: &str) -> (found: bool)
    requires
        pattern.is_ascii(),
    ensures
        found == exists|i: int| #[trigger] loose_wildcard_at(pattern@, i),
{
    let n: usize = pattern.unicode_len();
    let mut i: usize = 0;
    let mut behind_separator: bool = false;
    while i < n
        invariant
            pattern.is_ascii(),
            n == pattern@.len(),
            i <= n,
            behind_separator == (i > 0 && pattern@[i - 1] == '/'),
            forall|k: int| 0 <= k < i ==> !#[trigger] loose_wildcard_at(pattern@, k),
        decreases n - i,
    {
        let b: u8 = pattern.get_ascii(i);
        proof {
            assert((b == 47u8) == (pattern@[i as int] == '/'));
            assert((b == 42u8) == (pattern@[i as int] == '*'));
        }
        if b == 42u8 && !behind_separator {
            assert(loose_wildcard_at(pattern@, i as int));
            return true;
        }
        behind_separator = b == 47u8;
        i = i + 1;
    }
    false
}

/// Whether a wildcard stands before the last segment.
fn finds_early_wildcard(pattern: &str) -> (found: bool)
    requires
        pattern.is_ascii(),
    ensures
        found == exists|i: int, j: int| #[trigger] wildcard_then_separator(pattern@, i, j),
{
    let n: usize = pattern.unicode_len();
    let mut i: usize = 0;
    let mut seen: bool = false;
    let ghost mut at: int = 0;
    while i < n
        invariant
            pattern.is_ascii(),
            n == pattern@.len(),
            i <= n,
            seen ==> 0 <= at < i && pattern@[at] == '*',
            !seen ==> forall|k: int| 0 <= k < i ==> pattern@[k] != '*',
            forall|a: int, b: int| 0 <= b < i ==> !#[trigger] wildcard_then_separator(pattern@, a, b),
        decreases n - i,
    {
        let b: u8 = pattern.get_ascii(i);
        proof {
            assert((b == 47u8) == (pattern@[i as int] == '/'));
            assert((b == 42u8) == (pattern@[i as int] == '*'));
        }
        if b == 47u8 && seen {
            assert(wildcard_then_separator(pattern@, at, i as int));
            return true;
        }
        if b == 42u8 && !seen {
            seen = true;
            proof {
                at = i as int;
            }
        }
        i = i + 1;
    }
    false
}

/// Whether the parameter at `i` shares its name with one behind it.
fn finds_same_name_behind(pattern: &str, i: usize) -> (found: bool)
    requires
        pattern.is_ascii(),
        marker_at(pattern@, i as int),
    ensures
        found == exists|j: int| #[trigger] same_name_at(pattern@, i as int, j),
{
    let n: usize = pattern.unicode_len();
    let end: usize = find_segment_end(pattern, i + 1);
    let name = String::from_str(pattern.substring_ascii(i + 1, end));
    let mut j: usize = i + 1;
    while j < n
        invariant
            pattern.is_ascii(),
            n == pattern@.len(),
            i < j <= n,
            marker_at(pattern@, i as int),
            name@ == param_name(pattern@, i as int),
            forall|k: int| i < k < j ==> !#[trigger] same_name_at(pattern@, i as int, k),
        decreases n - j,
    {
        if is_marker(pattern, j) {
            let other_end: usize = find_segment_end(pattern, j + 1);
            let other = String::from_str(pattern.substring_ascii(j + 1, other_end));
            if name == other {
                assert(same_name_at(pattern@, i as int, j as int));
                return true;
            }
        }
        j = j + 1;
    }
    false
}

/// Whether two parameters of the pattern have the same name.
fn finds_duplicate_name(pattern: &str) -> (found: bool)
    requires
        pattern.is_ascii(),
    ensures
        found == has_duplicate_name(pattern@),
{
    let n: usize = pattern.unicode_len();
    let mut i: usize = 0;
    while i < n
        invariant
            pattern.is_ascii(),
            n == pattern@.len(),
            i <= n,
            forall|a: int, b: int| 0 <= a < i ==> !#[trigger] same_name_at(pattern@, a, b),
        decreases n - i,
    {
        if is_marker(pattern, i) {
            if finds_same_name_behind(pattern, i) {
                return true;
            }
        }
        i = i + 1;
    }
    false
}

/// Whether a table takes `pattern`.
pub fn is_well_formed(pattern: &str) -> (ok: bool)
    ensures
        ok == well_formed(pattern@),
{
    is_admissible(pattern) && !finds_empty_segment(pattern) && !finds_duplicate_name(pattern)
}

/// Whether `pattern` holds a `*`.
pub fn holds_wildcard(pattern: &str) -> (found: bool)
    requires
        pattern.is_ascii(),
    ensures
        found == has_wildcard(pattern@),
{
    let n: usize = pattern.unicode_len();
    let mut i: usize = 0;
    while i < n
        invariant
            pattern.is_ascii(),
            n == pattern@.len(),
            i <= n,
            forall|j: int| 0 <= j < i ==> pattern@[j] != '*',
        decreases n - i,
    {
        let b: u8 = pattern.get_ascii(i);
        proof {
            assert((b == 42u8) == (pattern@[i as int] == '*'));
        }
        if b == 42u8 {
            return true;
        }
        i = i + 1;
    }
    false
}

} // verus!
