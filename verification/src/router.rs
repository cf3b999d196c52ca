//! The dispatcher: one route table per method and the fallback handler.

use vstd::prelude::*;
use crate::params::RouteParams;
use crate::table::{duplicate_error, insert_error, reaches_matcher, RouteError, RouterTable};
use crate::tree::{literal, Attempt};

verus! {

/// A request method. The router serves the nine named ones.
#[derive(Clone, Copy, Debug, PartialEq, Eq, Structural)]
pub enum Method {
    Get,
    Post,
    Put,
    Patch,
    Delete,
    Options,
    Head,
    Connect,
    Trace,
    /// Any other method.
    Extension,
}

/// The methods that the router serves: all but `Extension`.
pub open spec fn served(method: Method) -> bool {
    method != Method::Extension
}

/// The outcome of dispatch: the handler to invoke and the parameters
/// captured from the path.
pub struct RouterMatch<'a, H> {
    pub handler: &'a H,
    pub params: RouteParams,
}

/// The router: for each served method a table of routes, and the handler for
/// requests that no route matches.
pub struct Router<H> {
    get_table: RouterTable<H>,
    post_table: RouterTable<H>,
    put_table: RouterTable<H>,
    patch_table: RouterTable<H>,
    delete_table: RouterTable<H>,
    options_table: RouterTable<H>,
    head_table: RouterTable<H>,
    connect_table: RouterTable<H>,
    trace_table: RouterTable<H>,
    route_404: H,
}

impl<H> Router<H> {
    /// The table of `method`; `None` for a method that is not served.
    pub closed spec fn table(&self, method: Method) -> Option<RouterTable<H>> {
        match method {
            Method::Get => Some(self.get_table),
            Method::Post => Some(self.post_table),
            Method::Put => Some(self.put_table),
            Method::Patch => Some(self.patch_table),
            Method::Delete => Some(self.delete_table),
            Method::Options => Some(self.options_table),
            Method::Head => Some(self.head_table),
            Method::Connect => Some(self.connect_table),
            Method::Trace => Some(self.trace_table),
            Method::Extension => None,
        }
    }

    /// The handler for requests that no route matches.
    pub closed spec fn fallback(&self) -> H {
        self.route_404
    }

    /// Every table is well formed.
    pub closed spec fn wf(&self) -> bool {
        &&& self.get_table.wf()
        &&& self.post_table.wf()
        &&& self.put_table.wf()
        &&& self.patch_table.wf()
        &&& self.delete_table.wf()
        &&& self.options_table.wf()
        &&& self.head_table.wf()
        &&& self.connect_table.wf()
        &&& self.trace_table.wf()
    }

    /// The route that answers `path` under `method`, with the captures; `None`
    /// where the fallback handler answers.
    pub open spec fn resolution(&self, method: Method, path: Seq<char>) -> Option<(usize, Seq<(Seq<char>, Seq<char>)>)> {
        match self.table(method) {
            None => None,
            Some(table) => table.answer(path),
        }
    }

    /// `res` hands out the handler and the captures that `resolution` names.
    pub open spec fn resolves_to(&self, method: Method, path: Seq<char>, res: RouterMatch<'_, H>) -> bool {
        match self.resolution(method, path) {
            None => *res.handler == self.fallback() && res.params.captures().len() == 0,
            Some((id, pairs)) => {
                &&& id < self.table(method)->Some_0.handlers().len()
                &&& *res.handler == self.table(method)->Some_0.handlers()[id as int]
                &&& res.params.captures() == pairs
            },
        }
    }

    /// A router without routes, with `route_404` as its fallback handler.
    pub fn new(route_404: H) -> (router: Self)
        ensures
            router.wf(),
            router.fallback() == route_404,
            forall|method: Method|
                served(method) ==> {
                    &&& (#[trigger] router.table(method)) is Some
                    &&& router.table(method)->Some_0.handlers() == Seq::<H>::empty()
                    &&& router.table(method)->Some_0.patterns() == Seq::<Seq<char>>::empty()
                    &&& router.table(method)->Some_0.log() == Seq::<Attempt>::empty()
                },
    {
        Router {
            get_table: RouterTable::new(),
            post_table: RouterTable::new(),
            put_table: RouterTable::new(),
            patch_table: RouterTable::new(),
            delete_table: RouterTable::new(),
            options_table: RouterTable::new(),
            head_table: RouterTable::new(),
            connect_table: RouterTable::new(),
            trace_table: RouterTable::new(),
            route_404,
        }
    }

    /// Registers `route` under `method` and `path`. A method that is not
    /// served, a pattern that the table refuses and a pattern that is already
    /// registered for the method, be it under other parameter names, are
    /// errors; the router then keeps its routes. The tables of the other methods and the fallback handler never
    /// change.
    pub fn insert(&mut self, method: Method, path: &str, route: H) -> (res: Result<(), RouteError>)
        requires
            old(self).wf(),
        ensures
            final(self).wf(),
            final(self).fallback() == old(self).fallback(),
            forall|other: Method| other != method ==> #[trigger] final(self).table(other) == old(self).table(other),
            !served(method) <==> res == wrong_method(),
            !served(method) ==> *final(self) == *old(self),
            served(method) ==> old(self).table(method) is Some && inserted(
                old(self).table(method)->Some_0,
                final(self).table(method),
                path@,
                route,
                res,
            ),
    {
        let res = match method {
            Method::Get => self.get_table.insert(path, route),
            Method::Post => self.post_table.insert(path, route),
            Method::Put => self.put_table.insert(path, route),
            Method::Patch => self.patch_table.insert(path, route),
            Method::Delete => self.delete_table.insert(path, route),
            Method::Options => self.options_table.insert(path, route),
            Method::Head => self.head_table.insert(path, route),
            Method::Connect => self.connect_table.insert(path, route),
            Method::Trace => self.trace_table.insert(path, route),
            Method::Extension => {
                return Err(RouteError::WrongMethod);
            },
        };
        match res {
            Ok(_) => Ok(()),
            Err(e) => Err(e),
        }
    }

    /// Registers a get route: `insert` with `Method::Get`.
    pub fn get(&mut self, path: &str, route: H) -> (res: Result<(), RouteError>)
        requires
            old(self).wf(),
        ensures
            final(self).wf(),
            final(self).fallback() == old(self).fallback(),
            forall|other: Method| other != Method::Get ==> #[trigger] final(self).table(other) == old(self).table(other),
            old(self).table(Method::Get) is Some,
            inserted(
                old(self).table(Method::Get)->Some_0,
                final(self).table(Method::Get),
                path@,
                route,
                res,
            ),
    {
        self.insert(Method::Get, path, route)
    }

    /// Registers a post route: `insert` with `Method::Post`.
    pub fn post(&mut self, path: &str, route: H) -> (res: Result<(), RouteError>)
        requires
            old(self).wf(),
        ensures
            final(self).wf(),
            final(self).fallback() == old(self).fallback(),
            forall|other: Method| other != Method::Post ==> #[trigger] final(self).table(other) == old(self).table(other),
            old(self).table(Method::Post) is Some,
            inserted(
                old(self).table(Method::Post)->Some_0,
                final(self).table(Method::Post),
                path@,
                route,
                res,
            ),
    {
        self.insert(Method::Post, path, route)
    }

    /// Registers a put route: `insert` with `Method::Put`.
    pub fn put(&mut self, path: &str, route: H) -> (res: Result<(), RouteError>)
        requires
            old(self).wf(),
        ensures
            final(self).wf(),
            final(self).fallback() == old(self).fallback(),
            forall|other: Method| other != Method::Put ==> #[trigger] final(self).table(other) == old(self).table(other),
            old(self).table(Method::Put) is Some,
            inserted(
                old(self).table(Method::Put)->Some_0,
                final(self).table(Method::Put),
                path@,
                route,
                res,
            ),
    {
        self.insert(Method::Put, path, route)
    }

    /// Registers a patch route: `insert` with `Method::Patch`.
    pub fn patch(&mut self, path: &str, route: H) -> (res: Result<(), RouteError>)
        requires
            old(self).wf(),
        ensures
            final(self).wf(),
            final(self).fallback() == old(self).fallback(),
            forall|other: Method| other != Method::Patch ==> #[trigger] final(self).table(other) == old(self).table(other),
            old(self).table(Method::Patch) is Some,
            inserted(
                old(self).table(Method::Patch)->Some_0,
                final(self).table(Method::Patch),
                path@,
                route,
                res,
            ),
    {
        self.insert(Method::Patch, path, route)
    }

    /// Registers a delete route: `insert` with `Method::Delete`.
    pub fn delete(&mut self, path: &str, route: H) -> (res: Result<(), RouteError>)
        requires
            old(self).wf(),
        ensures
            final(self).wf(),
            final(self).fallback() == old(self).fallback(),
            forall|other: Method| other != Method::Delete ==> #[trigger] final(self).table(other) == old(self).table(other),
            old(self).table(Method::Delete) is Some,
            inserted(
                old(self).table(Method::Delete)->Some_0,
                final(self).table(Method::Delete),
                path@,
                route,
                res,
            ),
    {
        self.insert(Method::Delete, path, route)
    }

    /// Registers an options route: `insert` with `Method::Options`.
    pub fn options(&mut self, path: &str, route: H) -> (res: Result<(), RouteError>)
        requires
            old(self).wf(),
        ensures
            final(self).wf(),
            final(self).fallback() == old(self).fallback(),
            forall|other: Method| other != Method::Options ==> #[trigger] final(self).table(other) == old(self).table(other),
            old(self).table(Method::Options) is Some,
            inserted(
                old(self).table(Method::Options)->Some_0,
                final(self).table(Method::Options),
                path@,
                route,
                res,
            ),
    {
        self.insert(Method::Options, path, route)
    }

    /// Registers a head route: `insert` with `Method::Head`.
    pub fn head(&mut self, path: &str, route: H) -> (res: Result<(), RouteError>)
        requires
            old(self).wf(),
        ensures
            final(self).wf(),
            final(self).fallback() == old(self).fallback(),
            forall|other: Method| other != Method::Head ==> #[trigger] final(self).table(other) == old(self).table(other),
            old(self).table(Method::Head) is Some,
            inserted(
                old(self).table(Method::Head)->Some_0,
                final(self).table(Method::Head),
                path@,
                route,
                res,
            ),
    {
        self.insert(Method::Head, path, route)
    }

    /// Registers a trace route: `insert` with `Method::Trace`.
    pub fn trace(&mut self, path: &str, route: H) -> (res: Result<(), RouteError>)
        requires
            old(self).wf(),
        ensures
            final(self).wf(),
            final(self).fallback() == old(self).fallback(),
            forall|other: Method| other != Method::Trace ==> #[trigger] final(self).table(other) == old(self).table(other),
            old(self).table(Method::Trace) is Some,
            inserted(
                old(self).table(Method::Trace)->Some_0,
                final(self).table(Method::Trace),
                path@,
                route,
                res,
            ),
    {
        self.insert(Method::Trace, path, route)
    }

    /// Registers a connect route: `insert` with `Method::Connect`.
    pub fn connect(&mut self, path: &str, route: H) -> (res: Result<(), RouteError>)
        requires
            old(self).wf(),
        ensures
            final(self).wf(),
            final(self).fallback() == old(self).fallback(),
            forall|other: Method| other != Method::Connect ==> #[trigger] final(self).table(other) == old(self).table(other),
            old(self).table(Method::Connect) is Some,
            inserted(
                old(self).table(Method::Connect)->Some_0,
                final(self).table(Method::Connect),
                path@,
                route,
                res,
            ),
    {
        self.insert(Method::Connect, path, route)
    }

    /// Resolves a request: the handler of the route that matches `path`
    /// under `method` with the captured parameters, or the fallback handler
    /// with no parameters where the method is not served or no route matches.
    /// The path of a registered route without parameters resolves to that
    /// route, with no parameters.
    pub fn handle_req(&self, method: &Method, path: &str) -> (res: RouterMatch<'_, H>)
        requires
            self.wf(),
        ensures
            self.table(*method) is Some <==> served(*method),
            self.resolves_to(*method, path@, res),
            !served(*method) ==> *res.handler == self.fallback() && res.params.captures().len() == 0,
            forall|id: int|
                served(*method) && literal(path@) && #[trigger] self.table(
                    *method,
                )->Some_0.registered(path@, id) ==> {
                    &&& *res.handler == self.table(*method)->Some_0.handlers()[id]
                    &&& res.params.captures().len() == 0
                },
    {
        let table = match *method {
            Method::Get => &self.get_table,
            Method::Post => &self.post_table,
            Method::Put => &self.put_table,
            Method::Patch => &self.patch_table,
            Method::Delete => &self.delete_table,
            Method::Options => &self.options_table,
            Method::Head => &self.head_table,
            Method::Connect => &self.connect_table,
            Method::Trace => &self.trace_table,
            Method::Extension => {
                return RouterMatch { handler: &self.route_404, params: RouteParams::new() };
            },
        };
        assert(self.table(*method) == Some(*table));
        match table.find(path) {
            Some((id, params)) => RouterMatch { handler: table.handler(id), params },
            None => RouterMatch { handler: &self.route_404, params: RouteParams::new() },
        }
    }
}

/// The refusal of a method that is not served.
pub open spec fn wrong_method() -> Result<(), RouteError> {
    Err(RouteError::WrongMethod)
}

/// What `insert` on a served method does to that method's table: `before` is
/// the table as it was, `after` what the router holds for the method then.
pub open spec fn inserted<H>(before: RouterTable<H>, after: Option<RouterTable<H>>, path: Seq<char>, route: H, res: Result<(), RouteError>) -> bool {
    &&& after is Some
    &&& match res {
        Ok(_) => {
            &&& insert_error(before.log(), path) is None
            &&& after->Some_0.handlers() == before.handlers().push(route)
            &&& after->Some_0.patterns() == before.patterns().push(path)
        },
        Err(e) => {
            &&& insert_error(before.log(), path) == Some(e)
            &&& after->Some_0.handlers() == before.handlers()
            &&& after->Some_0.patterns() == before.patterns()
        },
    }
    &&& after->Some_0.log() == if reaches_matcher(before.log(), path) {
        before.log().push((path, before.handlers().len() as usize))
    } else {
        before.log()
    }
    &&& (exists|id: int| before.registered(path, id)) ==> res is Err && res->Err_0
        == duplicate_error(before.log())
    &&& (exists|id: int| before.registered_shape(path, id)) ==> res is Err
}

} // verus!
