//! The text of the routes file: one call on the router for each registration.

use vstd::prelude::*;
use vstd::string::*;
use crate::builder::{
    flatten_nodes, mw_view, names_view, routes_view, start_routes_build, Document, Route, RouteView,
};

verus! {

/// The calls that add the first `n` names of `names` to a pipeline, the first
/// name first.
pub open spec fn adds_text(names: Seq<Seq<char>>, n: nat) -> Seq<char>
    decreases n,
{
    if n == 0 || n > names.len() {
        Seq::empty()
    } else {
        adds_text(names, (n - 1) as nat) + ".add("@ + names[n - 1] + ")"@
    }
}

/// The expression that builds a registration's pipeline: the handler, then
/// each middleware added around what stands before it.
pub open spec fn expression_text(route: RouteView) -> Seq<char> {
    "r("@ + route.handler + ")"@ + adds_text(route.middleware, route.middleware.len())
}

/// The call that makes one registration.
pub open spec fn call_text(route: RouteView) -> Seq<char> {
    "router."@ + route.method + "(\""@ + route.path + "\","@ + expression_text(route) + "); "@
}

/// The calls of the first `n` registrations of `routes`, in order.
pub open spec fn calls_text(routes: Seq<RouteView>, n: nat) -> Seq<char>
    decreases n,
{
    if n == 0 || n > routes.len() {
        Seq::empty()
    } else {
        calls_text(routes, (n - 1) as nat) + call_text(routes[n - 1])
    }
}

/// The import of everything in a namespace of the crate; nothing where no
/// namespace is given.
pub open spec fn use_text(namespace: Option<Seq<char>>) -> Seq<char> {
    match namespace {
        None => Seq::empty(),
        Some(name) => "use crate::"@ + name + "::*;"@,
    }
}

/// What the routes file starts with.
pub open spec fn file_head() -> Seq<char> {
    "/**\n# Generated route files by rustgram route builder.\n\nPlease do not modify this file. Any changes will be overridden by the next route build.\nUse the returned router instead\n */\nuse rustgram::{r, Router};\n"@
}

/// The routes file: the head, the two imports, and a function that makes
/// the registrations in order.
pub open spec fn file_text(routes: Seq<RouteView>, std_service: Option<Seq<char>>, std_mw: Option<Seq<char>>) -> Seq<char> {
    file_head() + use_text(std_service) + "\n"@ + use_text(std_mw)
        + "\n\npub(crate) fn routes(router: &mut Router)\n{\n\t"@ + calls_text(routes, routes.len())
        + "\n}\n\t"@
}

/// The view of an optional string.
pub open spec fn option_view(text: Option<String>) -> Option<Seq<char>> {
    match text {
        None => None,
        Some(s) => Some(s@),
    }
}

impl Route {
    /// The expression that builds this registration's pipeline.
    pub fn expression(&self) -> (text: String)
        ensures
            text@ == expression_text(self@),
    {
        let mut adds = String::new();
        let mut i: usize = 0;
        while i < self.middleware.len()
            invariant
                i <= self.middleware.len(),
                adds@ == adds_text(names_view(self.middleware@), i as nat),
            decreases self.middleware.len() - i,
        {
            adds.append(".add(");
            adds.append(self.middleware[i].as_str());
            adds.append(")");
            i = i + 1;
        }
        String::from_str("r(").concat(self.handler.as_str()).concat(")").concat(adds.as_str())
    }

    /// The call that makes this registration.
    pub fn call(&self) -> (text: String)
        ensures
            text@ == call_text(self@),
    {
        let expression = self.expression();
        String::from_str("router.").concat(self.method).concat("(\"").concat(
            self.path.as_str(),
        ).concat("\",").concat(expression.as_str()).concat("); ")
    }
}

/// The import of everything in `namespace`.
fn use_line(namespace: &Option<String>) -> (text: String)
    ensures
        text@ == use_text(option_view(*namespace)),
{
    match namespace {
        None => String::new(),
        Some(name) => String::from_str("use crate::").concat(name.as_str()).concat("::*;"),
    }
}

/// The text of the routes file for `routes`, with the imports of the handler
/// namespace `std_service` and the middleware namespace `std_mw`.
pub fn build_routes(routes: Vec<Route>, std_service: Option<String>, std_mw: Option<String>) -> (text: String)
    ensures
        text@ == file_text(routes_view(routes@), option_view(std_service), option_view(std_mw)),
{
    let std_service = use_line(&std_service);
    let std_mw = use_line(&std_mw);
    let mut routes_string = String::new();
    let mut i: usize = 0;
    while i < routes.len()
        invariant
            i <= routes.len(),
            routes_string@ == calls_text(routes_view(routes@), i as nat),
        decreases routes.len() - i,
    {
        let call = routes[i].call();
        routes_string.append(call.as_str());
        i = i + 1;
    }
    String::from_str(
        "/**\n# Generated route files by rustgram route builder.\n\nPlease do not modify this file. Any changes will be overridden by the next route build.\nUse the returned router instead\n */\nuse rustgram::{r, Router};\n",
    ).concat(std_service.as_str()).concat("\n").concat(std_mw.as_str()).concat(
        "\n\npub(crate) fn routes(router: &mut Router)\n{\n\t",
    ).concat(routes_string.as_str()).concat("\n}\n\t")
}

/// Why a document gives no routes file.
#[derive(Clone, Copy, Debug, PartialEq, Eq, Structural)]
pub enum DocumentError {
    /// The document names no handler for unmatched requests.
    MissingFallback,
}

/// The routes file of a document: its registrations in document order, with
/// the imports of its two namespaces.
pub open spec fn document_text(config: Document) -> Seq<char> {
    file_text(
        flatten_nodes(config.routes@, config.routes@.len(), config.prefix@, mw_view(config.mw)),
        Some(config.base_handler@),
        Some(config.base_mw@),
    )
}

/// The text of the routes file for a document. A document that names no
/// handler for unmatched requests is refused.
pub fn compile(config: &Document) -> (res: Result<String, DocumentError>)
    ensures
        match res {
            Ok(text) => config.handler_404 is Some && text@ == document_text(*config),
            Err(e) => config.handler_404 is None && e == DocumentError::MissingFallback,
        },
{
    if config.handler_404.is_none() {
        return Err(DocumentError::MissingFallback);
    }
    let routes = start_routes_build(config);
    let text = build_routes(routes, Some(config.base_handler.clone()), Some(config.base_mw.clone()));
    Ok(text)
}

} // verus!
