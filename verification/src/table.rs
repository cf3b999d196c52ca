//! One method's route table: the matcher's tree and the handlers that its
//! values index.

use vstd::prelude::*;
use vstd::string::*;
use crate::params::{captured, RouteParams};
use crate::pattern::{has_wildcard, holds_wildcard, is_well_formed, well_formed};
use crate::tree::{
    accepted_at, holds_pattern, holds_shape, insert_outcome, literal, lookup, shape, tree_at,
    tree_insert, tree_log, tree_new, Attempt, Found, InsertFault, Tree, MAX_ATTEMPTS,
};

verus! {

/// Why a route was not registered.
#[derive(Clone, Copy, Debug, PartialEq, Eq, Structural)]
pub enum RouteError {
    /// The method is none of the nine that the router serves.
    WrongMethod,
    /// The pattern is empty, does not start with a separator, holds a
    /// character beyond seven bits, too many parameters, an empty segment, a
    /// wildcard that is not its whole last segment or a parameter name twice,
    /// or the matcher found it malformed.
    Malformed,
    /// The pattern collides with one that is already in the table.
    Conflict,
    /// The table has taken as many insertions as it can.
    Full,
}

/// The error that stands for a refusal by the matcher: a conflict stays a
/// conflict, every other fault is a malformed pattern.
pub open spec fn fault_error(fault: InsertFault) -> RouteError {
    match fault {
        InsertFault::Conflict => RouteError::Conflict,
        _ => RouteError::Malformed,
    }
}

/// The error that stands for a refusal by the matcher.
pub fn error_of_fault(fault: InsertFault) -> (e: RouteError)
    ensures
        e == fault_error(fault),
{
    match fault {
        InsertFault::Conflict => RouteError::Conflict,
        _ => RouteError::Malformed,
    }
}

/// Why the table with the history `log` refuses `pattern`, if it does.
pub open spec fn insert_error(log: Seq<Attempt>, pattern: Seq<char>) -> Option<RouteError> {
    if !well_formed(pattern) {
        Some(RouteError::Malformed)
    } else if log.len() >= MAX_ATTEMPTS {
        Some(RouteError::Full)
    } else {
        match insert_outcome(log, pattern) {
            Ok(_) => None,
            Err(fault) => Some(fault_error(fault)),
        }
    }
}

/// The error for a pattern that the table with the history `log` holds
/// already: a conflict, unless the table is full.
pub open spec fn duplicate_error(log: Seq<Attempt>) -> RouteError {
    if log.len() >= MAX_ATTEMPTS {
        RouteError::Full
    } else {
        RouteError::Conflict
    }
}

/// Whether the table with the history `log` hands `pattern` to the matcher.
pub open spec fn reaches_matcher(log: Seq<Attempt>, pattern: Seq<char>) -> bool {
    well_formed(pattern) && log.len() < MAX_ATTEMPTS
}

/// What a table with the history `log` and the patterns `patterns` answers
/// for `path`: the route's id and the captures. A wildcard's capture starts
/// with the separator that introduced it.
pub open spec fn table_answer(log: Seq<Attempt>, patterns: Seq<Seq<char>>, path: Seq<char>) -> Option<Found> {
    match lookup(log, path) {
        None => None,
        Some((id, pairs)) => Some(
            (id, captured(pairs, 0 <= id < patterns.len() && has_wildcard(patterns[id as int]))),
        ),
    }
}

/// `res` is the route `id` with the captures `pairs`.
pub open spec fn yields(
    res: Option<(usize, RouteParams)>,
    id: int,
    pairs: Seq<(Seq<char>, Seq<char>)>,
) -> bool {
    &&& res matches Some((found, params))
    &&& found == id
    &&& params.captures() == pairs
}

/// The routes of one method. A route's id is its position in the order of
/// registration; ids are never reused.
pub struct RouterTable<H> {
    tree: Tree,
    routes: Vec<H>,
    patterns: Vec<String>,
    wild: Vec<bool>,
    attempts: usize,
}

impl<H> RouterTable<H> {
    /// Every insertion handed to the matcher so far.
    pub closed spec fn log(&self) -> Seq<Attempt> {
        tree_log(self.tree)
    }

    /// The handlers, by route id.
    pub closed spec fn handlers(&self) -> Seq<H> {
        self.routes@
    }

    /// The patterns, by route id.
    pub closed spec fn patterns(&self) -> Seq<Seq<char>> {
        Seq::new(self.patterns@.len(), |i: int| self.patterns@[i]@)
    }

    /// `pattern` is the pattern of the route `id`.
    pub open spec fn registered(&self, pattern: Seq<char>, id: int) -> bool {
        &&& 0 <= id < self.patterns().len()
        &&& id < self.handlers().len()
        &&& self.patterns()[id] == pattern
    }

    /// The route `id` has a pattern of the shape of `pattern`: the two differ
    /// in the names of their parameters at most.
    pub open spec fn registered_shape(&self, pattern: Seq<char>, id: int) -> bool {
        &&& 0 <= id < self.patterns().len()
        &&& shape(self.patterns()[id]) == shape(pattern)
    }

    /// What the table answers for `path`.
    pub open spec fn answer(&self, path: Seq<char>) -> Option<Found> {
        table_answer(self.log(), self.patterns(), path)
    }

    /// The table's invariant: one pattern per handler, no pattern twice, and
    /// the matcher's accepted insertions are exactly the routes.
    pub closed spec fn wf(&self) -> bool {
        &&& self.routes@.len() == self.patterns@.len()
        &&& self.routes@.len() == self.wild@.len()
        &&& self.attempts == self.log().len()
        &&& self.attempts <= MAX_ATTEMPTS
        &&& forall|i: int| #[trigger]
            accepted_at(self.log(), i) ==> self.registered(self.log()[i].0, self.log()[i].1 as int)
        &&& forall|id: int|
            0 <= id < self.patterns().len() ==> #[trigger] self.slot_accepted(id)
        &&& forall|id: int|
            0 <= id < self.patterns().len() ==> self.wild@[id] == has_wildcard(
                #[trigger] self.patterns()[id],
            )
        &&& forall|a: int, b: int|
            0 <= a < b < self.patterns().len() ==> #[trigger] self.patterns()[a]
                != #[trigger] self.patterns()[b]
        &&& forall|id: int|
            0 <= id < self.patterns().len() ==> well_formed(#[trigger] self.patterns()[id])
    }

    /// The matcher accepted an insertion of the route `id` under its pattern.
    spec fn slot_accepted(&self, id: int) -> bool {
        exists|i: int| #[trigger]
            accepted_at(self.log(), i) && self.log()[i] == (self.patterns()[id], id as usize)
    }

    /// In a well-formed table no two routes have the same pattern.
    pub proof fn wf_distinct(&self, a: int, b: int)
        requires
            self.wf(),
            0 <= a < self.patterns().len(),
            0 <= b < self.patterns().len(),
            self.patterns()[a] == self.patterns()[b],
        ensures
            a == b,
    {
        if a < b {
            assert(self.patterns()[a] != self.patterns()[b]);
        } else if b < a {
            assert(self.patterns()[b] != self.patterns()[a]);
        }
    }

    /// A table without routes.
    pub fn new() -> (table: Self)
        ensures
            table.wf(),
            table.log() == Seq::<Attempt>::empty(),
            table.handlers() == Seq::<H>::empty(),
            table.patterns() == Seq::<Seq<char>>::empty(),
    {
        let table = RouterTable {
            tree: tree_new(),
            routes: Vec::new(),
            patterns: Vec::new(),
            wild: Vec::new(),
            attempts: 0,
        };
        assert(table.patterns() =~= Seq::<Seq<char>>::empty());
        assert(table.handlers() =~= Seq::<H>::empty());
        table
    }

    /// How many routes the table holds.
    pub fn len(&self) -> (n: usize)
        ensures
            n == self.handlers().len(),
    {
        self.routes.len()
    }

    /// Registers `handler` under `pattern` and returns the new route's id.
    /// On a refusal the routes stay as they were.
    pub fn insert(&mut self, pattern: &str, handler: H) -> (res: Result<usize, RouteError>)
        requires
            old(self).wf(),
        ensures
            final(self).wf(),
            match res {
                Ok(id) => {
                    &&& insert_error(old(self).log(), pattern@) is None
                    &&& id == old(self).handlers().len()
                    &&& final(self).handlers() == old(self).handlers().push(handler)
                    &&& final(self).patterns() == old(self).patterns().push(pattern@)
                },
                Err(e) => {
                    &&& insert_error(old(self).log(), pattern@) == Some(e)
                    &&& final(self).handlers() == old(self).handlers()
                    &&& final(self).patterns() == old(self).patterns()
                },
            },
            final(self).log() == if reaches_matcher(old(self).log(), pattern@) {
                old(self).log().push((pattern@, old(self).handlers().len() as usize))
            } else {
                old(self).log()
            },
            (exists|id: int| old(self).registered(pattern@, id)) ==> res is Err && res->Err_0
                == duplicate_error(old(self).log()),
            (exists|id: int| old(self).registered_shape(pattern@, id)) ==> res is Err,
    {
        if !is_well_formed(pattern) {
            proof {
                if exists|id: int| self.registered(pattern@, id) {
                    let id = choose|id: int| self.registered(pattern@, id);
                    assert(well_formed(self.patterns()[id]));
                }
            }
            return Err(RouteError::Malformed);
        }
        if self.attempts >= MAX_ATTEMPTS {
            return Err(RouteError::Full);
        }
        let id: usize = self.routes.len();
        let ghost log0 = self.log();
        let ghost patterns0 = self.patterns();
        let ghost before = *self;
        proof {
            if exists|k: int| self.registered(pattern@, k) {
                let k = choose|k: int| self.registered(pattern@, k);
                assert(self.slot_accepted(k));
                assert(holds_pattern(log0, pattern@));
            }
            if exists|k: int| self.registered_shape(pattern@, k) {
                let k = choose|k: int| self.registered_shape(pattern@, k);
                assert(self.slot_accepted(k));
                assert(holds_shape(log0, pattern@));
            }
        }
        let outcome = tree_insert(&mut self.tree, pattern, id);
        self.attempts = self.attempts + 1;
        let ghost log1 = self.log();
        assert forall|i: int| accepted_at(log1, i) implies i == log0.len() || accepted_at(log0, i) by {
            if i < log0.len() {
                assert(log1.take(i) =~= log0.take(i));
            }
        }
        assert forall|i: int| accepted_at(log0, i) implies accepted_at(log1, i) && log1[i]
            == log0[i] by {
            assert(log1.take(i) =~= log0.take(i));
        }
        assert(log1.take(log0.len() as int) =~= log0);
        match outcome {
            Ok(()) => {
                let wildcard = holds_wildcard(pattern);
                self.routes.push(handler);
                self.patterns.push(String::from_str(pattern));
                self.wild.push(wildcard);
                proof {
                    assert(self.patterns() =~= patterns0.push(pattern@));
                    assert(accepted_at(log1, log0.len() as int));
                    assert forall|k: int| 0 <= k < self.patterns().len() implies #[trigger]
                        self.slot_accepted(k) by {
                        if k < patterns0.len() {
                            assert(before.slot_accepted(k));
                            let i = choose|i: int| #[trigger]
                                accepted_at(log0, i) && log0[i] == (patterns0[k], k as usize);
                            assert(accepted_at(log1, i));
                            assert(self.log()[i] == (self.patterns()[k], k as usize));
                        } else {
                            assert(k == id);
                            assert(self.log()[log0.len() as int] == (self.patterns()[k], k as usize));
                        }
                    }
                    assert forall|a: int, b: int| 0 <= a < b < self.patterns().len() implies #[trigger]
                        self.patterns()[a] != #[trigger] self.patterns()[b] by {
                        if b == patterns0.len() {
                            if patterns0[a] == pattern@ {
                                assert(before.slot_accepted(a));
                                assert(holds_pattern(log0, pattern@));
                            }
                        } else {
                            assert(patterns0[a] != patterns0[b]);
                        }
                    }
                    assert forall|i: int| #[trigger] accepted_at(log1, i) implies self.registered(
                        log1[i].0,
                        log1[i].1 as int,
                    ) by {
                        if i < log0.len() {
                            assert(accepted_at(log0, i));
                            assert(before.registered(log0[i].0, log0[i].1 as int));
                        }
                    }
                }
                Ok(id)
            },
            Err(fault) => {
                proof {
                    assert(self.patterns() =~= patterns0);
                    assert forall|k: int| 0 <= k < self.patterns().len() implies #[trigger]
                        self.slot_accepted(k) by {
                        assert(before.slot_accepted(k));
                        let i = choose|i: int| #[trigger]
                            accepted_at(log0, i) && log0[i] == (patterns0[k], k as usize);
                        assert(accepted_at(log1, i));
                    }
                    assert forall|i: int| #[trigger] accepted_at(log1, i) implies self.registered(
                        log1[i].0,
                        log1[i].1 as int,
                    ) by {
                        assert(accepted_at(log0, i));
                        assert(before.registered(log0[i].0, log0[i].1 as int));
                    }
                }
                Err(error_of_fault(fault))
            },
        }
    }

    /// The handler of the route `id`.
    pub fn handler(&self, id: usize) -> (handler: &H)
        requires
            id < self.handlers().len(),
        ensures
            *handler == self.handlers()[id as int],
    {
        &self.routes[id]
    }

    /// Looks `path` up: the id of the route that matches it and the captured
    /// parameters. A route without parameters is found under its own pattern,
    /// with nothing captured.
    pub fn find(&self, path: &str) -> (res: Option<(usize, RouteParams)>)
        requires
            self.wf(),
        ensures
            match self.answer(path@) {
                None => res is None,
                Some((id, pairs)) => yields(res, id as int, pairs),
            },
            res is Some ==> res->Some_0.0 < self.handlers().len(),
            forall|id: int| #[trigger]
                self.registered(path@, id) && literal(path@) ==> yields(
                    res,
                    id,
                    Seq::<(Seq<char>, Seq<char>)>::empty(),
                ),
    {
        match tree_at(&self.tree, path) {
            None => {
                proof {
                    if exists|id: int| self.registered(path@, id) {
                        let id = choose|id: int| self.registered(path@, id);
                        assert(self.slot_accepted(id));
                        assert(holds_pattern(self.log(), path@));
                    }
                }
                None
            },
            Some((id, pairs)) => {
                proof {
                    let i = choose|i: int| #[trigger]
                        accepted_at(self.log(), i) && self.log()[i].1 == id;
                    assert(self.registered(self.log()[i].0, id as int));
                    assert forall|k: int| #[trigger]
                        self.registered(path@, k) && literal(path@) implies k == id
                        && pairs@.len() == 0 && !self.wild@[id as int] by {
                        assert(self.slot_accepted(k));
                        assert(holds_pattern(self.log(), path@));
                        let j = choose|j: int| #[trigger]
                            accepted_at(self.log(), j) && self.log()[j] == (path@, id);
                        assert(self.registered(path@, id as int));
                        self.wf_distinct(k, id as int);
                        assert(self.wild@[id as int] == has_wildcard(self.patterns()[id as int]));
                    }
                }
                let params = RouteParams::from_capture(pairs, self.wild[id]);
                proof {
                    if pairs@.len() == 0 && !self.wild@[id as int] {
                        assert(params.captures() =~= Seq::<(Seq<char>, Seq<char>)>::empty());
                    }
                }
                Some((id, params))
            },
        }
    }
}

} // verus!
