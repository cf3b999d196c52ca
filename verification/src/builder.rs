//! Route groups: a declarative tree of routes and groups, and its flattening
//! into one registration per route, each with its full path and the
//! middleware to apply, innermost first.

use vstd::prelude::*;
use vstd::string::*;

verus! {

/// An optional, ordered list of middleware names.
pub type Mw = Option<Vec<String>>;

/// A route of the document: path fragment `p`, handler `s` and the route's
/// own middleware.
pub struct Endpoint {
    pub p: String,
    pub s: String,
    pub mw: Mw,
}

/// A group of the document: path fragment `p`, the group's middleware and
/// the nodes inside the group.
pub struct G {
    pub p: String,
    pub mw: Mw,
    pub gr: Vec<Config>,
}

/// A node of the document: a route under one of seven methods, or a group.
pub enum Config {
    Get(Endpoint),
    Post(Endpoint),
    Put(Endpoint),
    Delete(Endpoint),
    Options(Endpoint),
    Head(Endpoint),
    Patch(Endpoint),
    G(G),
}

/// The document: the namespaces of handlers and middleware, the prefix of
/// every path, the handler for unmatched requests, the middleware of every
/// route, and the nodes.
pub struct Document {
    pub base_handler: String,
    pub base_mw: String,
    pub prefix: String,
    pub handler_404: Option<String>,
    pub mw: Mw,
    pub routes: Vec<Config>,
}

/// One registration: the router method to call, the full path, the handler,
/// and the middleware in the order in which it is added to the handler.
pub struct Route {
    pub path: String,
    pub handler: String,
    pub middleware: Vec<String>,
    pub method: &'static str,
}

/// A registration as plain values.
pub ghost struct RouteView {
    pub path: Seq<char>,
    pub handler: Seq<char>,
    pub middleware: Seq<Seq<char>>,
    pub method: Seq<char>,
}

impl View for Route {
    type V = RouteView;

    open spec fn view(&self) -> RouteView {
        RouteView {
            path: self.path@,
            handler: self.handler@,
            middleware: names_view(self.middleware@),
            method: self.method@,
        }
    }
}

/// The names of a list, as plain values.
pub open spec fn names_view(names: Seq<String>) -> Seq<Seq<char>> {
    Seq::new(names.len(), |i: int| names[i]@)
}

/// The names of an optional list; none where the list is absent.
pub open spec fn mw_view(mw: Mw) -> Seq<Seq<char>> {
    match mw {
        None => Seq::empty(),
        Some(names) => names_view(names@),
    }
}

/// The registrations of a list, as plain values.
pub open spec fn routes_view(routes: Seq<Route>) -> Seq<RouteView> {
    Seq::new(routes.len(), |i: int| routes[i]@)
}

/// The route that a node holds, unless it is a group.
pub open spec fn endpoint_of(node: Config) -> Option<Endpoint> {
    match node {
        Config::Get(r) => Some(r),
        Config::Post(r) => Some(r),
        Config::Put(r) => Some(r),
        Config::Delete(r) => Some(r),
        Config::Options(r) => Some(r),
        Config::Head(r) => Some(r),
        Config::Patch(r) => Some(r),
        Config::G(_) => None,
    }
}

/// The router method that registers a node.
pub open spec fn method_name(node: Config) -> Seq<char> {
    match node {
        Config::Get(_) => "get"@,
        Config::Post(_) => "post"@,
        Config::Put(_) => "put"@,
        Config::Delete(_) => "delete"@,
        Config::Options(_) => "options"@,
        Config::Head(_) => "head"@,
        Config::Patch(_) => "patch"@,
        Config::G(_) => Seq::empty(),
    }
}

/// The registration of a route node under the path `prefix` and inside
/// groups with the accumulated middleware `g_mw`: the route's own middleware
/// comes first, the groups' after it.
pub open spec fn flat_route(node: Config, prefix: Seq<char>, g_mw: Seq<Seq<char>>) -> RouteView
    recommends
        endpoint_of(node) is Some,
{
    let r = endpoint_of(node)->Some_0;
    RouteView {
        path: prefix + r.p@,
        handler: r.s@,
        middleware: mw_view(r.mw) + g_mw,
        method: method_name(node),
    }
}

/// The registrations of one node. A group hands its nodes its path fragment
/// behind the prefix, and its own middleware in front of what it inherited.
pub open spec fn flatten_node(node: Config, prefix: Seq<char>, mw: Seq<Seq<char>>) -> Seq<RouteView>
    decreases node, 0nat,
{
    match node {
        Config::G(g) => flatten_nodes(g.gr@, g.gr@.len(), prefix + g.p@, mw_view(g.mw) + mw),
        _ => seq![flat_route(node, prefix, mw)],
    }
}

/// The registrations of the first `n` nodes of `nodes`, in document order.
pub open spec fn flatten_nodes(nodes: Seq<Config>, n: nat, prefix: Seq<char>, mw: Seq<Seq<char>>) -> Seq<RouteView>
    decreases nodes, n,
{
    if n == 0 || n > nodes.len() {
        Seq::empty()
    } else {
        flatten_nodes(nodes, (n - 1) as nat, prefix, mw) + flatten_node(nodes[n - 1], prefix, mw)
    }
}

/// A route's own middleware is added before the middleware of the groups
/// around it: in the registration of a route node the route's names come
/// first, in their order, and the groups' names follow, in theirs.
pub proof fn route_middleware_precedes_group_middleware(
    node: Config,
    prefix: Seq<char>,
    g_mw: Seq<Seq<char>>,
)
    requires
        endpoint_of(node) is Some,
    ensures
        flatten_node(node, prefix, g_mw).len() == 1,
        flatten_node(node, prefix, g_mw)[0].middleware == mw_view(endpoint_of(node)->Some_0.mw)
            + g_mw,
        flatten_node(node, prefix, g_mw)[0].path == prefix + endpoint_of(node)->Some_0.p@,
{
}

/// What a node contributes is among the registrations of the list that
/// holds it.
pub proof fn flatten_nodes_holds(
    nodes: Seq<Config>,
    n: nat,
    i: int,
    prefix: Seq<char>,
    mw: Seq<Seq<char>>,
    route: RouteView,
)
    requires
        0 <= i < n <= nodes.len(),
        flatten_node(nodes[i], prefix, mw).contains(route),
    ensures
        flatten_nodes(nodes, n, prefix, mw).contains(route),
    decreases n,
{
    let head = flatten_nodes(nodes, (n - 1) as nat, prefix, mw);
    let tail = flatten_node(nodes[n - 1], prefix, mw);
    if i == n - 1 {
        let k = choose|k: int| 0 <= k < tail.len() && tail[k] == route;
        assert((head + tail)[head.len() + k] == route);
    } else {
        flatten_nodes_holds(nodes, (n - 1) as nat, i, prefix, mw, route);
        let k = choose|k: int| 0 <= k < head.len() && head[k] == route;
        assert((head + tail)[k] == route);
    }
}

/// Nested groups: a route inside a group inside a group is registered under
/// the prefix, then the outer group's fragment, then the inner group's, then
/// its own; and its middleware is its own, then the inner group's, then the
/// outer group's, then what the outer group inherited.
pub proof fn nested_group_route(
    outer: G,
    i: int,
    j: int,
    prefix: Seq<char>,
    mw: Seq<Seq<char>>,
)
    requires
        0 <= i < outer.gr@.len(),
        outer.gr@[i] is G,
        0 <= j < outer.gr@[i]->G_0.gr@.len(),
        endpoint_of(outer.gr@[i]->G_0.gr@[j]) is Some,
    ensures
        ({
            let inner = outer.gr@[i]->G_0;
            let node = inner.gr@[j];
            let r = endpoint_of(node)->Some_0;
            flatten_node(Config::G(outer), prefix, mw).contains(
                RouteView {
                    path: prefix + outer.p@ + inner.p@ + r.p@,
                    handler: r.s@,
                    middleware: mw_view(r.mw) + (mw_view(inner.mw) + (mw_view(outer.mw) + mw)),
                    method: method_name(node),
                },
            )
        }),
{
    let inner = outer.gr@[i]->G_0;
    let node = inner.gr@[j];
    let outer_prefix = prefix + outer.p@;
    let outer_mw = mw_view(outer.mw) + mw;
    let inner_prefix = outer_prefix + inner.p@;
    let inner_mw = mw_view(inner.mw) + outer_mw;
    let route = flat_route(node, inner_prefix, inner_mw);
    assert(flatten_node(node, inner_prefix, inner_mw) == seq![route]);
    assert(seq![route][0] == route);
    flatten_nodes_holds(inner.gr@, inner.gr@.len(), j, inner_prefix, inner_mw, route);
    assert(flatten_node(outer.gr@[i], outer_prefix, outer_mw) == flatten_nodes(
        inner.gr@,
        inner.gr@.len(),
        inner_prefix,
        inner_mw,
    ));
    flatten_nodes_holds(outer.gr@, outer.gr@.len(), i, outer_prefix, outer_mw, route);
}

/// Copies the names of `src` behind those of `dst`.
fn push_names(dst: &mut Vec<String>, src: &Vec<String>)
    ensures
        names_view(final(dst)@) == names_view(old(dst)@) + names_view(src@),
{
    let ghost before = names_view(dst@);
    let mut i: usize = 0;
    while i < src.len()
        invariant
            i <= src.len(),
            names_view(dst@) == before + names_view(src@).take(i as int),
        decreases src.len() - i,
    {
        let ghost so_far = names_view(dst@);
        let name = src[i].clone();
        dst.push(name);
        proof {
            assert(name@ == src@[i as int]@);
            assert(names_view(dst@) =~= so_far.push(name@));
            assert(names_view(src@).take(i as int + 1) =~= names_view(src@).take(i as int).push(
                src@[i as int]@,
            ));
            assert(names_view(dst@) =~= before + names_view(src@).take(i as int + 1));
        }
        i = i + 1;
    }
    proof {
        assert(names_view(src@).take(src.len() as int) =~= names_view(src@));
    }
}

/// Copies the names of `mw`, if there are any, behind those of `dst`.
fn push_mw(dst: &mut Vec<String>, mw: &Mw)
    ensures
        names_view(final(dst)@) == names_view(old(dst)@) + mw_view(*mw),
{
    match mw {
        Some(names) => push_names(dst, names),
        None => {
            assert(names_view(dst@) =~= names_view(dst@) + mw_view(*mw));
        },
    }
}

/// The registration of a route node: the path behind `prefix`, and the
/// route's own middleware followed by the middleware `g_mw` of the groups
/// around it.
pub fn handle_route(route: &Config, prefix: String, g_mw: &Mw) -> (flat: Route)
    requires
        endpoint_of(*route) is Some,
    ensures
        flat@ == flat_route(*route, prefix@, mw_view(*g_mw)),
{
    let (r, method): (&Endpoint, &'static str) = match route {
        Config::Get(r) => (r, "get"),
        Config::Post(r) => (r, "post"),
        Config::Put(r) => (r, "put"),
        Config::Delete(r) => (r, "delete"),
        Config::Options(r) => (r, "options"),
        Config::Head(r) => (r, "head"),
        Config::Patch(r) => (r, "patch"),
        Config::G(_) => {
            proof {
                assert(false);
            }
            vstd::pervasive::unreached()
        },
    };
    let path = prefix.concat(r.p.as_str());
    let mut middleware: Vec<String> = Vec::new();
    proof {
        assert(names_view(middleware@) =~= Seq::<Seq<char>>::empty());
    }
    push_mw(&mut middleware, &r.mw);
    push_mw(&mut middleware, g_mw);
    proof {
        assert(names_view(middleware@) =~= mw_view(r.mw) + mw_view(*g_mw));
    }
    Route { path, handler: r.s.clone(), middleware, method }
}

/// The registrations of a group's nodes, in document order. The group's path
/// fragment goes behind `prefix`, its middleware in front of `parent_mw`.
pub fn handle_group(group: &G, prefix: String, parent_mw: &Mw) -> (routes: Vec<Route>)
    ensures
        routes_view(routes@) == flatten_nodes(
            group.gr@,
            group.gr@.len(),
            prefix@ + group.p@,
            mw_view(group.mw) + mw_view(*parent_mw),
        ),
    decreases group,
{
    let mut names: Vec<String> = Vec::new();
    proof {
        assert(names_view(names@) =~= Seq::<Seq<char>>::empty());
    }
    push_mw(&mut names, &group.mw);
    push_mw(&mut names, parent_mw);
    proof {
        assert(names_view(names@) =~= mw_view(group.mw) + mw_view(*parent_mw));
    }
    let mw: Mw = Some(names);
    let prefix = prefix.concat(group.p.as_str());
    handle_nodes(&group.gr, &prefix, &mw)
}

/// The registrations of a list of nodes under one prefix and one accumulated
/// middleware list, in document order.
pub fn handle_nodes(nodes: &Vec<Config>, prefix: &String, mw: &Mw) -> (routes: Vec<Route>)
    ensures
        routes_view(routes@) == flatten_nodes(nodes@, nodes@.len(), prefix@, mw_view(*mw)),
    decreases nodes,
{
    let mut routes: Vec<Route> = Vec::new();
    let mut i: usize = 0;
    proof {
        assert(routes_view(routes@) =~= Seq::<RouteView>::empty());
    }
    while i < nodes.len()
        invariant
            i <= nodes.len(),
            routes_view(routes@) == flatten_nodes(nodes@, i as nat, prefix@, mw_view(*mw)),
        decreases nodes.len() - i,
    {
        let ghost before = routes_view(routes@);
        match &nodes[i] {
            Config::G(g) => {
                let mut inner = handle_group(g, prefix.clone(), mw);
                let ghost added = routes_view(inner@);
                routes.append(&mut inner);
                proof {
                    assert(routes_view(routes@) =~= before + added);
                    assert(flatten_node(nodes@[i as int], prefix@, mw_view(*mw)) == added);
                }
            },
            e => {
                let route = handle_route(e, prefix.clone(), mw);
                let ghost flat = route@;
                routes.push(route);
                proof {
                    assert(routes_view(routes@) =~= before + seq![flat]);
                    assert(flatten_node(nodes@[i as int], prefix@, mw_view(*mw)) == seq![flat]);
                }
            },
        }
        i = i + 1;
    }
    routes
}

/// The registrations of a document, in document order: every path starts
/// with the document's prefix, and the document's middleware is the
/// outermost of every route.
pub fn start_routes_build(config: &Document) -> (routes: Vec<Route>)
    ensures
        routes_view(routes@) == flatten_nodes(
            config.routes@,
            config.routes@.len(),
            config.prefix@,
            mw_view(config.mw),
        ),
{
    handle_nodes(&config.routes, &config.prefix, &config.mw)
}

} // verus!
