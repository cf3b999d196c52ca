//! A route's pipeline: a handler with the middleware added around it.

use vstd::prelude::*;
use core::marker::PhantomData;
use crate::service::{Service, ServiceTransform};

verus! {

/// A pipeline under construction: the service that answers for the route.
/// Each middleware added stands around everything added before it.
#[verifier::reject_recursive_types(S)]
#[verifier::reject_recursive_types(Req)]
#[verifier::reject_recursive_types(Res)]
pub struct GramRoute<S, Req, Res> where S: Service<Req, Output = Res> {
    handler: S,
    _req: PhantomData<Req>,
    _res: PhantomData<Res>,
}

impl<S, Req, Res> GramRoute<S, Req, Res> where S: Service<Req, Output = Res> {
    /// The service that answers for the route.
    pub closed spec fn service(&self) -> S {
        self.handler
    }

    /// The pipeline that is `service` alone.
    pub fn new(service: S) -> (route: Self)
        ensures
            route.service() == service,
    {
        Self { handler: service, _req: PhantomData, _res: PhantomData }
    }

    /// The pipeline with `middleware` around what was there: its service is
    /// what the middleware makes of the old one.
    pub fn add<S1, T, Req1, Res1>(self, middleware: T) -> (route: GramRoute<S1, Req1, Res1>) where
        T: ServiceTransform<S, Service = S1>,
        S1: Service<Req1, Output = Res1>,

        requires
            middleware.admits(self.service()),
        ensures
            middleware.wraps(self.service(), route.service()),
    {
        GramRoute { handler: middleware.transform(self.handler), _req: PhantomData, _res: PhantomData }
    }

    /// Hands the request to the pipeline.
    pub fn invoke(&self, req: Req) -> (res: Res)
        requires
            self.service().accepts(req),
        ensures
            self.service().answers(req, res),
    {
        self.handler.call(req)
    }

    /// Gives the service back.
    pub fn into_service(self) -> (service: S)
        ensures
            service == self.service(),
    {
        self.handler
    }
}

/// The pipeline that is `service` alone.
pub fn r<S, Req, Res>(service: S) -> (route: GramRoute<S, Req, Res>) where
    S: Service<Req, Output = Res>,

    ensures
        route.service() == service,
{
    GramRoute::new(service)
}

} // verus!
