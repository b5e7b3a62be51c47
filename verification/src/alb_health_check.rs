//! Health checks of a load balancer: requests for one fixed URI are answered
//! by a handler of their own and never reach the service behind it.

use hyper::Uri;
use vstd::prelude::*;

verus! {

#[verifier::external_type_specification]
#[verifier::external_body]
pub struct ExUri(Uri);

/// Whether `uri` equals `text`, by the comparison that `Uri` defines against
/// a string.
pub uninterp spec fn uri_equals(uri: Uri, text: Seq<char>) -> bool;

/// `Uri == str`: the comparison of a request's URI with a string. The
/// outcome depends on the two alone.
#[verifier::external_body]
fn uri_matches(uri: &Uri, text: &str) -> (same: bool)
    ensures
        same == uri_equals(*uri, text@),
{
    uri == text
}

/// One of two values.
pub enum Either<L, R> {
    Left { value: L },
    Right { value: R },
}

/// What answers health checks, and for which URI.
#[derive(Debug)]
pub struct AlbHealthCheckLayer<'a, HealthCheckHandler> {
    health_check_uri: &'a str,
    health_check_handler: HealthCheckHandler,
}

impl<'a, H: Clone> Clone for AlbHealthCheckLayer<'a, H> {
    fn clone(&self) -> (copy: Self)
        ensures
            copy.uri() == self.uri(),
            cloned(self.handler(), copy.handler()),
    {
        AlbHealthCheckLayer {
            health_check_uri: self.health_check_uri,
            health_check_handler: self.health_check_handler.clone(),
        }
    }
}

impl<'a, H> AlbHealthCheckLayer<'a, H> {
    /// The URI whose requests are health checks.
    pub closed spec fn uri(&self) -> &'a str {
        self.health_check_uri
    }

    /// The handler that answers health checks.
    pub closed spec fn handler(&self) -> H {
        self.health_check_handler
    }

    /// Whether a request for `uri` is a health check.
    pub fn is_health_check(&self, uri: &Uri) -> (health_check: bool)
        ensures
            health_check == uri_equals(*uri, self.uri()@),
    {
        uri_matches(uri, self.health_check_uri)
    }

    /// The handler that answers health checks.
    pub fn health_check_handler(&self) -> (handler: &H)
        ensures
            *handler == self.handler(),
    {
        &self.health_check_handler
    }

    /// A service that answers health checks itself and hands every other
    /// request to `inner`.
    pub fn layer<S>(&self, inner: S) -> (service: AlbHealthCheckService<'a, H, S>) where H: Clone
        ensures
            service.inner() == inner,
            service.health_checks().uri() == self.uri(),
            cloned(self.handler(), service.health_checks().handler()),
    {
        AlbHealthCheckService { inner, layer: self.clone() }
    }
}

impl<'a> AlbHealthCheckLayer<'a, ()> {
    /// Handle health check requests at `health_check_uri` with the specified handler.
    pub fn new<H>(health_check_uri: &'static str, health_check_handler: H) -> (layer:
        AlbHealthCheckLayer<'static, H>)
        ensures
            layer.uri() == health_check_uri,
            layer.handler() == health_check_handler,
    {
        AlbHealthCheckLayer { health_check_uri, health_check_handler }
    }
}

/// A service in front of another: it answers health checks and forwards the rest.
#[derive(Debug)]
pub struct AlbHealthCheckService<'a, H, S> {
    inner: S,
    layer: AlbHealthCheckLayer<'a, H>,
}

/// Who answers a request.
#[derive(Debug, Clone, Copy, PartialEq, Eq)]
pub enum Route {
    /// The health check handler.
    HealthCheck,
    /// The service behind.
    Inner,
}

impl<'a, H, S> AlbHealthCheckService<'a, H, S> {
    /// The service behind.
    pub closed spec fn inner(&self) -> S {
        self.inner
    }

    /// What answers health checks, and for which URI.
    pub closed spec fn health_checks(&self) -> AlbHealthCheckLayer<'a, H> {
        self.layer
    }

    /// Who answers a request for `uri`: the handler if `uri` is the health
    /// check URI, else the service behind.
    pub fn route(&self, uri: &Uri) -> (route: Route)
        ensures
            route == if uri_equals(*uri, self.health_checks().uri()@) {
                Route::HealthCheck
            } else {
                Route::Inner
            },
    {
        if self.layer.is_health_check(uri) {
            Route::HealthCheck
        } else {
            Route::Inner
        }
    }

    /// The handler that answers health checks.
    pub fn health_check_handler(&self) -> (handler: &H)
        ensures
            *handler == self.health_checks().handler(),
    {
        &self.layer.health_check_handler
    }

    /// The service behind, given back for the call that forwards a request.
    pub fn into_inner(self) -> (inner: S)
        ensures
            inner == self.inner(),
    {
        self.inner
    }
}

/// The answer to a request, still to come: from the handler or from the service behind.
pub struct AlbHealthCheckFuture<HandlerFuture, ServiceFuture> {
    inner: Either<HandlerFuture, ServiceFuture>,
}

impl<HandlerFuture, ServiceFuture> AlbHealthCheckFuture<HandlerFuture, ServiceFuture> {
    /// Which of the two answers, and its future.
    pub closed spec fn source(&self) -> Either<HandlerFuture, ServiceFuture> {
        self.inner
    }

    /// The answer of the health check handler.
    pub fn handler_future(handler_future: HandlerFuture) -> (future: Self)
        ensures
            future.source() == (Either::<HandlerFuture, ServiceFuture>::Left {
                value: handler_future,
            }),
    {
        Self { inner: Either::Left { value: handler_future } }
    }

    /// The answer of the service behind.
    pub fn service_future(service_future: ServiceFuture) -> (future: Self)
        ensures
            future.source() == (Either::<HandlerFuture, ServiceFuture>::Right {
                value: service_future,
            }),
    {
        Self { inner: Either::Right { value: service_future } }
    }

    /// Hands the future out, to be polled.
    pub fn into_inner(self) -> (source: Either<HandlerFuture, ServiceFuture>)
        ensures
            source == self.source(),
    {
        self.inner
    }
}

} // verus!
