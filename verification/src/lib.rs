//! Actix web middleware hook for request start and end. Subscribe to request
//! start and end, request data, elapsed time, request id and response status.
//!
//! [`RequestHook`] is the configuration: which paths are left alone and who
//! is notified. [`RequestHookMiddleware`] applies it to the requests of one
//! service. What happens to a single request is in [`lifecycle`].
use crate::host::{
    request_method, request_method_text, request_path, request_path_text, request_uri,
    request_uri_text,
};
use crate::ident::{is_version_4, RequestId};
use crate::lifecycle::{Admission, Draining};
use crate::matcher::{ConfigError, Exclusions};
use crate::observer::{alone, share, Observer, Registry};
use crate::pattern::{any_pattern_matches, patterns_compile};
use actix_web::dev::ServiceRequest;
use std::rc::Rc;
use std::time::Instant;
use vstd::prelude::*;

pub mod body;
pub mod host;
pub mod ident;
pub mod lifecycle;
pub mod matcher;
pub mod observer;
pub mod pattern;

verus! {

/// Contains configuration for [RequestHook]
///
/// # Properties
/// * `exclusions` - the paths that are ignored, exactly or by pattern.
/// * `registry` - the observers of the requests that are not.
pub(crate) struct Inner {
    pub(crate) exclusions: Exclusions,
    pub(crate) registry: Registry,
}

impl Inner {
    /// A second configuration with the same rules and the same observers.
    fn duplicate(&self) -> (copy: Self)
        ensures
            copy.exclusions.exact_paths() == self.exclusions.exact_paths(),
            copy.exclusions.patterns() == self.exclusions.patterns(),
            copy.registry.observers() == self.registry.observers(),
    {
        Inner { exclusions: self.exclusions.duplicate(), registry: self.registry.duplicate() }
    }
}

/// Middleware for subscribing to request start and end. Enables access to
/// request data, id, status and request duration.
pub struct RequestHook(Rc<Inner>);

impl Default for RequestHook {
    fn default() -> (hook: Self)
        ensures
            hook.excluded_paths() == Set::<Seq<char>>::empty(),
            hook.patterns() == Seq::<Seq<char>>::empty(),
            hook.observers().len() == 0,
    {
        Self::new()
    }
}

impl RequestHook {
    /// The exact paths that are excluded.
    pub closed spec fn excluded_paths(&self) -> Set<Seq<char>> {
        self.0.exclusions.exact_paths()
    }

    /// The exclusion patterns, in the order they were added.
    pub closed spec fn patterns(&self) -> Seq<Seq<char>> {
        self.0.exclusions.patterns()
    }

    /// The observers, in registration order.
    pub closed spec fn observers(&self) -> Seq<Rc<dyn Observer>> {
        self.0.registry.observers()
    }

    /// Whether a request for `path` bypasses observation: the path is
    /// excluded exactly, or some pattern matches it.
    pub open spec fn excludes(&self, path: Seq<char>) -> bool {
        self.excluded_paths().contains(path) || any_pattern_matches(self.patterns(), path)
    }

    /// A hook that excludes nothing and notifies nobody.
    pub fn new() -> (hook: Self)
        ensures
            hook.excluded_paths() == Set::<Seq<char>>::empty(),
            hook.patterns() == Seq::<Seq<char>>::empty(),
            hook.observers().len() == 0,
    {
        Self(Rc::new(Inner { exclusions: Exclusions::new(), registry: Registry::new() }))
    }

    /// The configuration, to be changed. Where middlewares share it, the
    /// change is made to a copy and they keep what they have.
    fn into_inner(self) -> (inner: Inner)
        ensures
            inner.exclusions.exact_paths() == self.excluded_paths(),
            inner.exclusions.patterns() == self.patterns(),
            inner.registry.observers() == self.observers(),
    {
        match Rc::try_unwrap(self.0) {
            Ok(inner) => inner,
            Err(shared) => shared.duplicate(),
        }
    }

    /// Ignore and do not log access info for specified path.
    pub fn exclude(self, path: &str) -> (hook: Self)
        ensures
            hook.excluded_paths() == self.excluded_paths().insert(path@),
            hook.patterns() == self.patterns(),
            hook.observers() == self.observers(),
    {
        let Inner { exclusions, registry } = self.into_inner();
        Self(Rc::new(Inner { exclusions: exclusions.with_path(path.to_owned()), registry }))
    }

    /// Ignore and do not log access info for paths that match regex.
    ///
    /// The pattern has to compile together with those already there;
    /// [`RequestHook::try_exclude_regex`] finds out whether it does.
    pub fn exclude_regex(self, path: &str) -> (hook: Self)
        requires
            patterns_compile(self.patterns().push(path@)),
        ensures
            hook.patterns() == self.patterns().push(path@),
            hook.excluded_paths() == self.excluded_paths(),
            hook.observers() == self.observers(),
    {
        let Inner { exclusions, registry } = self.into_inner();
        Self(Rc::new(Inner { exclusions: exclusions.with_pattern(path.to_owned()), registry }))
    }

    /// Ignore and do not log access info for paths that match regex, if the
    /// regex is valid; otherwise say that it is not.
    pub fn try_exclude_regex(self, path: &str) -> (outcome: Result<Self, ConfigError>)
        ensures
            outcome is Ok <==> patterns_compile(self.patterns().push(path@)),
            outcome matches Ok(hook) ==> hook.patterns() == self.patterns().push(path@)
                && hook.excluded_paths() == self.excluded_paths() && hook.observers()
                == self.observers(),
            outcome matches Err(ConfigError::InvalidPattern { pattern, .. }) ==> pattern@ == path@,
    {
        match self.0.exclusions.check_pattern(path) {
            Ok(()) => Ok(self.exclude_regex(path)),
            Err(error) => Err(error),
        }
    }

    /// Registers an [Observer].
    pub fn register(self, observer: Rc<dyn Observer>) -> (hook: Self)
        ensures
            hook.observers().len() == self.observers().len() + 1,
            hook.observers().drop_last() == self.observers(),
            hook.observers().last() == observer,
            hook.excluded_paths() == self.excluded_paths(),
            hook.patterns() == self.patterns(),
    {
        let Inner { exclusions, registry } = self.into_inner();
        let mut registry = registry;
        let mut last = alone(observer);
        registry.extend(&mut last);
        assert(registry.observers().drop_last() =~= self.observers());
        Self(Rc::new(Inner { exclusions, registry }))
    }

    /// The middleware that applies this configuration in front of `service`.
    pub fn new_transform<S>(&self, service: S) -> (middleware: RequestHookMiddleware<S>)
        ensures
            middleware.excluded_paths() == self.excluded_paths(),
            middleware.patterns() == self.patterns(),
            middleware.observers() == self.observers(),
            middleware.spec_service() == service,
    {
        RequestHookMiddleware { service, inner: share(&self.0) }
    }
}

/// The hook in front of one service.
pub struct RequestHookMiddleware<S> {
    inner: Rc<Inner>,
    service: S,
}

impl<S> RequestHookMiddleware<S> {
    /// The exact paths that are excluded.
    pub closed spec fn excluded_paths(&self) -> Set<Seq<char>> {
        self.inner.exclusions.exact_paths()
    }

    /// The exclusion patterns, in the order they were added.
    pub closed spec fn patterns(&self) -> Seq<Seq<char>> {
        self.inner.exclusions.patterns()
    }

    /// The observers, in registration order.
    pub closed spec fn observers(&self) -> Seq<Rc<dyn Observer>> {
        self.inner.registry.observers()
    }

    /// Whether a request for `path` bypasses observation: the path is
    /// excluded exactly, or some pattern matches it.
    pub open spec fn excludes(&self, path: Seq<char>) -> bool {
        self.excluded_paths().contains(path) || any_pattern_matches(self.patterns(), path)
    }

    /// The service behind the hook.
    pub closed spec fn spec_service(&self) -> S {
        self.service
    }

    /// The service behind the hook.
    pub fn service(&self) -> (service: &S)
        ensures
            *service == self.spec_service(),
    {
        &self.service
    }

    /// Whether a request for `path` bypasses observation.
    pub fn is_excluded(&self, path: &str) -> (excluded: bool)
        ensures
            excluded == self.excludes(path@),
    {
        self.inner.exclusions.is_excluded(path)
    }

    /// Begins to observe a request that arrived at `started_at`, under the
    /// identifier `request_id`. Nothing of its body has been read.
    pub fn observe(
        &self,
        request_id: RequestId,
        started_at: Instant,
        uri: String,
        method: String,
    ) -> (state: Draining)
        ensures
            state.observers() == self.observers(),
            state.request_id() == request_id,
            state.started_at() == started_at,
            state.uri() == uri@,
            state.method() == method@,
            state.body() == Seq::<u8>::empty(),
    {
        Draining::open(share(&self.inner), request_id, started_at, uri, method)
    }

    /// Decides what happens to a request that has just arrived. An excluded
    /// request is passed through. Any other is observed: the clock is read,
    /// a fresh identifier is made, and the request begins to drain.
    pub fn call(&self, path: &str, uri: String, method: String) -> (admission: Admission)
        ensures
            self.excludes(path@) <==> admission is Passthrough,
            admission matches Admission::Observed(state) ==> {
                &&& state.observers() == self.observers()
                &&& is_version_4(state.request_id().bits())
                &&& state.uri() == uri@
                &&& state.method() == method@
                &&& state.body() == Seq::<u8>::empty()
            },
    {
        if self.is_excluded(path) {
            return Admission::Passthrough;
        }
        let start = Instant::now();
        let request_id = RequestId::new_v4();
        Admission::Observed(self.observe(request_id, start, uri, method))
    }

    /// Decides what happens to `req`, which has just arrived: this is
    /// [`RequestHookMiddleware::call`] on the path, the URI and the method
    /// that the request reports.
    pub fn receive(&self, req: &ServiceRequest) -> (admission: Admission)
        ensures
            self.excludes(request_path_text(*req)) <==> admission is Passthrough,
            admission matches Admission::Observed(state) ==> {
                &&& state.observers() == self.observers()
                &&& is_version_4(state.request_id().bits())
                &&& state.uri() == request_uri_text(*req)
                &&& state.method() == request_method_text(*req)
                &&& state.body() == Seq::<u8>::empty()
            },
    {
        self.call(request_path(req), request_uri(req), request_method(req))
    }
}

} // verus!
