//! The path matcher: `matchit`'s radix tree, and what this library relies on
//! about it. Nothing in this file is proved; every item states a belief about
//! `matchit` that the rest of the library builds on.

use vstd::prelude::*;

verus! {

/// `matchit`'s radix tree with route ids as its values. Its inside is hidden
/// from the verifier; `tree_log` names what the contracts say of it.
#[verifier::external_body]
pub struct Tree {
    inner: matchit::Router<usize>,
}

/// Why the matcher refused a pattern.
#[derive(Clone, Copy, Debug, PartialEq, Eq, Structural)]
pub enum InsertFault {
    /// The pattern collides with one that an earlier insertion left in the tree.
    Conflict,
    /// Two parameters in one path segment.
    TooManyParams,
    /// A `:` or `*` without a name behind it.
    UnnamedParam,
    /// A `*` parameter that is not the last segment, or not behind a `/`.
    InvalidCatchAll,
    /// A refusal of a kind that this library does not distinguish.
    Other,
}

/// One insertion that was attempted on a tree: the pattern and the value.
pub type Attempt = (Seq<char>, usize);

/// What a successful lookup yields: the stored value and the captured
/// parameters, name and value, in the order of capture.
pub type Found = (usize, Seq<(Seq<char>, Seq<char>)>);

/// Every insertion attempted on `tree` since it was made, oldest first,
/// whether the matcher accepted it or not.
pub uninterp spec fn tree_log(tree: Tree) -> Seq<Attempt>;

/// What `matchit::Router::insert` answers for `pattern` on a tree with the
/// history `log`.
pub uninterp spec fn insert_outcome(log: Seq<Attempt>, pattern: Seq<char>) -> Result<(), InsertFault>;

/// What `matchit::Router::at` finds for `path` in a tree with the history `log`.
pub uninterp spec fn lookup(log: Seq<Attempt>, path: Seq<char>) -> Option<Found>;

/// Did the matcher accept the `i`-th attempt of `log`?
pub open spec fn accepted_at(log: Seq<Attempt>, i: int) -> bool {
    0 <= i < log.len() && insert_outcome(log.take(i), log[i].0) is Ok
}

/// `pattern` stands in the tree: some earlier attempt with it was accepted.
pub open spec fn holds_pattern(log: Seq<Attempt>, pattern: Seq<char>) -> bool {
    exists|i: int| #[trigger] accepted_at(log, i) && log[i].0 == pattern
}

/// What is left of a pattern from position `i` on when the names of its
/// parameters are taken out; `in_name` says whether `i` stands behind a `:`
/// or `*` of its segment.
pub open spec fn shape_from(pattern: Seq<char>, i: int, in_name: bool) -> Seq<char>
    decreases pattern.len() - i,
{
    if i < 0 || i >= pattern.len() {
        Seq::empty()
    } else if pattern[i] == '/' {
        seq!['/'] + shape_from(pattern, i + 1, false)
    } else if in_name {
        shape_from(pattern, i + 1, true)
    } else {
        seq![pattern[i]] + shape_from(pattern, i + 1, pattern[i] == ':' || pattern[i] == '*')
    }
}

/// A pattern without the names of its parameters: two patterns of one shape
/// differ in those names at most.
pub open spec fn shape(pattern: Seq<char>) -> Seq<char> {
    shape_from(pattern, 0, false)
}

/// A pattern of the shape of `pattern` stands in the tree.
pub open spec fn holds_shape(log: Seq<Attempt>, pattern: Seq<char>) -> bool {
    exists|i: int| #[trigger] accepted_at(log, i) && shape(log[i].0) == shape(pattern)
}

/// `id` is the value of some accepted attempt.
pub open spec fn holds_value(log: Seq<Attempt>, id: usize) -> bool {
    exists|i: int| #[trigger] accepted_at(log, i) && log[i].1 == id
}

/// How many of `s`'s characters are `c`.
pub open spec fn count_char(s: Seq<char>, c: char) -> nat
    decreases s.len(),
{
    if s.len() == 0 {
        0
    } else {
        count_char(s.drop_last(), c) + if s.last() == c { 1nat } else { 0nat }
    }
}

/// The most `:` characters a pattern may hold.
pub const MAX_PARAMS: usize = 25;

/// The most insertions that may be attempted on one tree.
pub const MAX_ATTEMPTS: usize = 0xffff_fffe;

/// A `*` at `i` does not stand directly behind a separator.
pub open spec fn loose_wildcard_at(pattern: Seq<char>, i: int) -> bool {
    0 <= i < pattern.len() && pattern[i] == '*' && (i == 0 || pattern[i - 1] != '/')
}

/// A `*` at `i` is followed by a separator at `j`: the wildcard is not the
/// last segment.
pub open spec fn wildcard_then_separator(pattern: Seq<char>, i: int, j: int) -> bool {
    0 <= i < j < pattern.len() && pattern[i] == '*' && pattern[j] == '/'
}

/// The patterns that may be handed to the matcher: not empty, seven-bit
/// characters only, a separator first, at most `MAX_PARAMS` colons, and
/// every `*` at the start of the last segment.
pub open spec fn admissible(pattern: Seq<char>) -> bool {
    &&& pattern.len() > 0
    &&& vstd::utf8::is_ascii_chars(pattern)
    &&& pattern[0] == '/'
    &&& count_char(pattern, ':') <= MAX_PARAMS
    &&& forall|i: int| !#[trigger] loose_wildcard_at(pattern, i)
    &&& forall|i: int, j: int| !#[trigger] wildcard_then_separator(pattern, i, j)
}

/// A pattern without parameters: it holds neither `:` nor `*`.
pub open spec fn literal(pattern: Seq<char>) -> bool {
    forall|i: int| 0 <= i < pattern.len() ==> #[trigger] pattern[i] != ':' && pattern[i] != '*'
}

/// The view of a list of captured parameters.
pub open spec fn pairs_view(pairs: Seq<(String, String)>) -> Seq<(Seq<char>, Seq<char>)> {
    Seq::new(pairs.len(), |i: int| (pairs[i].0@, pairs[i].1@))
}

/// The view of a lookup's result.
pub open spec fn found_view(res: Option<(usize, Vec<(String, String)>)>) -> Option<Found> {
    match res {
        Some((id, pairs)) => Some((id, pairs_view(pairs@))),
        None => None,
    }
}

/// The refusal with the fault `fault`.
pub open spec fn refused(fault: InsertFault) -> Result<(), InsertFault> {
    Err(fault)
}

/// `found` is the value of an accepted insertion of `path` itself, with no
/// parameter captured.
pub open spec fn finds_literal(log: Seq<Attempt>, path: Seq<char>, found: Option<Found>) -> bool {
    &&& found matches Some((id, pairs))
    &&& pairs.len() == 0
    &&& exists|i: int| #[trigger] accepted_at(log, i) && log[i] == (path, id)
}

/// `matchit::Router::new`: a tree on which nothing was attempted yet.
#[verifier::external_body]
pub(crate) fn tree_new() -> (tree: Tree)
    ensures
        tree_log(tree) == Seq::<Attempt>::empty(),
{
    Tree { inner: matchit::Router::new() }
}

/// `matchit::Router::insert`. The attempt joins the tree's history, and the
/// answer is the one that the history and the pattern determine. Beyond that
/// it is claimed that a pattern which an earlier attempt put into the tree is
/// refused as a conflict, and that a pattern which differs from such a one in
/// parameter names only is refused. The call is kept away from what makes `insert`
/// panic: characters beyond seven bits (the conflict report cuts the route at
/// byte positions), a 26th named parameter, and a priority counter past
/// `u32::MAX`.
#[verifier::external_body]
pub(crate) fn tree_insert(tree: &mut Tree, pattern: &str, id: usize) -> (res: Result<(), InsertFault>)
    requires
        admissible(pattern@),
        tree_log(*old(tree)).len() < MAX_ATTEMPTS,
    ensures
        tree_log(*final(tree)) == tree_log(*old(tree)).push((pattern@, id)),
        res == insert_outcome(tree_log(*old(tree)), pattern@),
        holds_pattern(tree_log(*old(tree)), pattern@) ==> res == refused(InsertFault::Conflict),
        holds_shape(tree_log(*old(tree)), pattern@) ==> res is Err,
{
    match tree.inner.insert(pattern, id) {
        Ok(()) => Ok(()),
        Err(matchit::InsertError::Conflict { .. }) => Err(InsertFault::Conflict),
        Err(matchit::InsertError::TooManyParams) => Err(InsertFault::TooManyParams),
        Err(matchit::InsertError::UnnamedParam) => Err(InsertFault::UnnamedParam),
        Err(matchit::InsertError::InvalidCatchAll) => Err(InsertFault::InvalidCatchAll),
        Err(_) => Err(InsertFault::Other),
    }
}

/// `matchit::Router::at`, with the match's value copied out and its
/// parameters copied into owned pairs, in `matchit`'s order. The result is the
/// one that the tree's history and the path determine. Beyond that it is
/// claimed that a value found was stored by an accepted insertion, and that a
/// pattern without parameters which stands in the tree is found under exactly
/// its own text, with the value of an accepted insertion of it and no
/// parameters.
#[verifier::external_body]
pub(crate) fn tree_at(tree: &Tree, path: &str) -> (res: Option<(usize, Vec<(String, String)>)>)
    ensures
        found_view(res) == lookup(tree_log(*tree), path@),
        res is Some ==> holds_value(tree_log(*tree), res->Some_0.0),
        literal(path@) && holds_pattern(tree_log(*tree), path@) ==> finds_literal(tree_log(*tree), path@, found_view(res)),
{
    match tree.inner.at(path) {
        Ok(m) => Some((*m.value, m.params.iter().map(|(k, v)| (String::from(k), String::from(v))).collect())),
        Err(_) => None,
    }
}

} // verus!
