//! The dispatch core of a small HTTP routing library.
//!
//! A [`Router`] holds one route table per request method and a fallback
//! handler. Routes are registered under a method and a pattern before the
//! router serves; `handle_req` then resolves a method and a path to the
//! handler of the matching route and the parameters captured from the path,
//! or to the fallback handler. Handlers are composed from a service and the
//! middleware added around it ([`GramRoute`]), and what a handler returns is
//! coerced into the canonical [`Response`]. Route groups are flattened into
//! single registrations by the functions of [`builder`], and [`render`]
//! writes the calls that make them.
//!
//! Paths are matched by `matchit`'s radix tree, which is called, not proved:
//! [`tree`] states what this library relies on.
//!
//! Four policies are fixed here:
//!
//! - A pattern starts with a separator, holds no empty segment between two
//!   separators and no parameter name twice, and a wildcard is its whole
//!   last segment. Everything else is refused as malformed.
//! - A separator at the end of a pattern counts. `/users` and `/users/` are
//!   two routes, and `/users/:id` does not match `/users/`.
//! - The value captured by a wildcard starts with the separator that
//!   introduced it: `/files/*rest` captures `/a/b` from `/files/a/b`.
//! - The path fragments of groups and routes are joined as they are written.
//!   An empty fragment and `/` are different fragments.

pub mod builder;
pub mod error;
pub mod params;
pub mod pattern;
pub mod render;
pub mod route;
pub mod router;
pub mod service;
pub mod table;
pub mod tree;

pub use error::GramStdHttpErr;
pub use params::RouteParams;
pub use route::{r, GramRoute};
pub use router::{Method, Router, RouterMatch};
pub use service::{HttpResult, IntoResponse, Response, Service, ServiceTransform};
pub use table::{RouteError, RouterTable};
