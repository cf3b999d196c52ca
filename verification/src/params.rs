//! The parameters captured from one request path.

use vstd::prelude::*;
use vstd::string::*;
use crate::tree::pairs_view;

verus! {

/// The mapping that a list of captures stands for: a later capture of a name
/// replaces an earlier one.
pub open spec fn pairs_map(pairs: Seq<(Seq<char>, Seq<char>)>) -> Map<Seq<char>, Seq<char>>
    decreases pairs.len(),
{
    if pairs.len() == 0 {
        Map::empty()
    } else {
        pairs_map(pairs.drop_last()).insert(pairs.last().0, pairs.last().1)
    }
}

/// A name that no capture carries is not in the mapping.
pub proof fn pairs_map_absent(pairs: Seq<(Seq<char>, Seq<char>)>, key: Seq<char>)
    requires
        forall|j: int| 0 <= j < pairs.len() ==> (#[trigger] pairs[j]).0 != key,
    ensures
        !pairs_map(pairs).dom().contains(key),
    decreases pairs.len(),
{
    if pairs.len() > 0 {
        pairs_map_absent(pairs.drop_last(), key);
    }
}

/// The mapping gives a name the value of the last capture that carries it.
pub proof fn pairs_map_last(pairs: Seq<(Seq<char>, Seq<char>)>, key: Seq<char>, i: int)
    requires
        0 <= i < pairs.len(),
        pairs[i].0 == key,
        forall|j: int| i < j < pairs.len() ==> (#[trigger] pairs[j]).0 != key,
    ensures
        pairs_map(pairs).dom().contains(key),
        pairs_map(pairs)[key] == pairs[i].1,
    decreases pairs.len(),
{
    if i < pairs.len() - 1 {
        pairs_map_last(pairs.drop_last(), key, i);
    }
}

/// The captures with the separator put back in front of the last value.
pub open spec fn with_separator(pairs: Seq<(Seq<char>, Seq<char>)>) -> Seq<(Seq<char>, Seq<char>)> {
    if pairs.len() == 0 {
        pairs
    } else {
        pairs.drop_last().push((pairs.last().0, seq!['/'] + pairs.last().1))
    }
}

/// What a route hands out of the matcher's captures: a route with a
/// wildcard gets the separator back that introduced the wildcard's value,
/// which is the last one.
pub open spec fn captured(pairs: Seq<(Seq<char>, Seq<char>)>, wildcard: bool) -> Seq<(Seq<char>, Seq<char>)> {
    if wildcard {
        with_separator(pairs)
    } else {
        pairs
    }
}

/// Puts the separator back in front of the last capture's value.
fn restore_separator(pairs: Vec<(String, String)>) -> (out: Vec<(String, String)>)
    ensures
        pairs_view(out@) == with_separator(pairs_view(pairs@)),
{
    let mut pairs = pairs;
    let ghost before = pairs@;
    match pairs.pop() {
        None => {
            assert(pairs_view(pairs@) =~= with_separator(pairs_view(before)));
            pairs
        },
        Some(last) => {
            let (name, value) = last;
            let mut text = String::from_str("/");
            text.append(value.as_str());
            proof {
                reveal_strlit("/");
                assert("/"@ =~= seq!['/']);
            }
            pairs.push((name, text));
            assert(pairs_view(pairs@) =~= with_separator(pairs_view(before)));
            pairs
        },
    }
}

/// The named values captured while one path was matched. Owned by the
/// request that it was made for.
pub struct RouteParams {
    pairs: Vec<(String, String)>,
}

impl View for RouteParams {
    type V = Map<Seq<char>, Seq<char>>;

    open spec fn view(&self) -> Map<Seq<char>, Seq<char>> {
        pairs_map(self.captures())
    }
}

impl RouteParams {
    /// The captures, name and value, in the order in which they were made.
    pub closed spec fn captures(&self) -> Seq<(Seq<char>, Seq<char>)> {
        pairs_view(self.pairs@)
    }

    /// No parameters.
    pub fn new() -> (params: Self)
        ensures
            params.captures() == Seq::<(Seq<char>, Seq<char>)>::empty(),
            params@ == Map::<Seq<char>, Seq<char>>::empty(),
    {
        let params = RouteParams { pairs: Vec::new() };
        assert(params.captures() =~= Seq::<(Seq<char>, Seq<char>)>::empty());
        params
    }

    /// The parameters that a list of captures stands for.
    pub fn from_pairs(pairs: Vec<(String, String)>) -> (params: Self)
        ensures
            params.captures() == pairs_view(pairs@),
            params@ == pairs_map(pairs_view(pairs@)),
    {
        RouteParams { pairs }
    }

    /// The parameters of a match: the matcher's captures, with the
    /// separator restored where the route has a wildcard.
    pub fn from_capture(pairs: Vec<(String, String)>, wildcard: bool) -> (params: Self)
        ensures
            params.captures() == captured(pairs_view(pairs@), wildcard),
            params@ == pairs_map(captured(pairs_view(pairs@), wildcard)),
    {
        if wildcard {
            RouteParams { pairs: restore_separator(pairs) }
        } else {
            RouteParams { pairs }
        }
    }

    /// How many captures were made.
    pub fn len(&self) -> (n: usize)
        ensures
            n == self.captures().len(),
    {
        self.pairs.len()
    }

    /// The value captured under the name `key`, if any.
    pub fn get(&self, key: &str) -> (value: Option<&String>)
        ensures
            value is Some <==> self@.dom().contains(key@),
            value matches Some(v) ==> v@ == self@[key@],
    {
        let wanted = String::from_str(key);
        let mut i: usize = self.pairs.len();
        while i > 0
            invariant
                i <= self.pairs.len(),
                wanted@ == key@,
                forall|j: int| i <= j < self.pairs.len() ==> (#[trigger] self.captures()[j]).0 != key@,
            decreases i,
        {
            i = i - 1;
            if self.pairs[i].0 == wanted {
                proof {
                    pairs_map_last(self.captures(), key@, i as int);
                }
                return Some(&self.pairs[i].1);
            }
        }
        proof {
            pairs_map_absent(self.captures(), key@);
        }
        None
    }
}

} // verus!
