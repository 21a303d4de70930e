//! Health reporting: a composite status of the service itself and of the
//! store behind it, and the wiring of the endpoint that serves it.

use vstd::prelude::*;

verus! {

/// The status of a component that works.
pub const STATUS_OK: &'static str = "OK";

/// The status of a component that does not.
pub const STATUS_NOT_OK: &'static str = "NOK";

/// The health of the service as it is reported to callers.
#[derive(Clone, Debug, PartialEq, Eq)]
pub struct HealthStatusResponse {
    pub api: String,
    pub database: String,
}

/// Model of a [`HealthStatusResponse`].
pub struct HealthStatusView {
    pub api: Seq<char>,
    pub database: Seq<char>,
}

impl View for HealthStatusResponse {
    type V = HealthStatusView;

    open spec fn view(&self) -> HealthStatusView {
        HealthStatusView { api: self.api@, database: self.database@ }
    }
}

/// The report for a probe of the store that succeeded or failed. The
/// service itself answers, so it is in order.
pub open spec fn status_report(store_reachable: bool) -> HealthStatusView {
    HealthStatusView {
        api: STATUS_OK@,
        database: if store_reachable {
            STATUS_OK@
        } else {
            STATUS_NOT_OK@
        },
    }
}

/// Reports the health of the service from the result of probing the store.
/// A failed probe, whatever its cause, becomes part of the report and is
/// never passed on as an error.
pub fn health_status<T, E>(probe: &Result<T, E>) -> (report: HealthStatusResponse)
    ensures
        report@ == status_report(probe is Ok),
{
    let database = match probe {
        Ok(_) => STATUS_OK,
        Err(_) => STATUS_NOT_OK,
    };
    HealthStatusResponse { api: STATUS_OK.to_owned(), database: database.to_owned() }
}

/// Where the health endpoint is mounted and what serves it, once both are
/// known.
pub struct HealthRoute<S> {
    pub prefix: String,
    pub service: S,
}

/// Collects the path prefix and the service of the health endpoint.
pub struct HealthController<S> {
    prefix: Option<String>,
    service: Option<S>,
}

impl<S> HealthController<S> {
    /// The prefix that was set, if any.
    pub closed spec fn prefix(self) -> Option<Seq<char>> {
        match self.prefix {
            Some(prefix) => Some(prefix@),
            None => None,
        }
    }

    /// The service that was set, if any.
    pub closed spec fn service(self) -> Option<S> {
        self.service
    }

    /// Whether both the prefix and the service are set.
    pub open spec fn ready(self) -> bool {
        self.prefix() is Some && self.service() is Some
    }

    /// A controller with nothing set.
    pub fn new() -> (controller: Self)
        ensures
            controller.prefix() is None,
            controller.service() is None,
    {
        Self { prefix: None, service: None }
    }

    /// Sets the path prefix, replacing an earlier one.
    pub fn with_prefix(self, prefix: &str) -> (controller: Self)
        ensures
            controller.prefix() == Some(prefix@),
            controller.service() == self.service(),
    {
        let mut controller = self;
        controller.prefix = Some(prefix.to_owned());
        controller
    }

    /// Sets the service, replacing an earlier one.
    pub fn with_service(self, service: S) -> (controller: Self)
        ensures
            controller.prefix() == self.prefix(),
            controller.service() == Some(service),
    {
        let mut controller = self;
        controller.service = Some(service);
        controller
    }

    /// Whether the prefix is set.
    pub fn has_prefix(&self) -> (set: bool)
        ensures
            set == self.prefix() is Some,
    {
        self.prefix.is_some()
    }

    /// Whether the service is set.
    pub fn has_service(&self) -> (set: bool)
        ensures
            set == self.service() is Some,
    {
        self.service.is_some()
    }

    /// Whether both the prefix and the service are set.
    pub fn is_ready(&self) -> (ready: bool)
        ensures
            ready == self.ready(),
    {
        self.has_prefix() && self.has_service()
    }

    /// The route of the endpoint. Both the prefix and the service have to be
    /// set.
    pub fn build(self) -> (route: HealthRoute<S>)
        requires
            self.ready(),
        ensures
            Some(route.prefix@) == self.prefix(),
            Some(route.service) == self.service(),
    {
        HealthRoute { prefix: self.prefix.unwrap(), service: self.service.unwrap() }
    }
}

} // verus!
