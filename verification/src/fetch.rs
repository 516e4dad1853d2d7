//! Planning backend requests and keeping their results: which request a
//! fetch makes, and which of several overlapping fetches may show its result.

use vstd::prelude::*;
use vstd::string::*;
use crate::directory::{Endpoints, Projects};
use crate::error::ErrorKind;
use crate::endpoint::{
    device_url, metadata_url, rawdata_url, sensor_url, Endpoint, EndpointTrait,
};
use crate::model::{Device, Project, Sensor};

verus! {

/// Why a fetch produced no data.
#[derive(Clone, Debug, PartialEq, Eq)]
pub enum FetchError {
    /// The page's project is not in the directory.
    NoProject,
    /// The project names an endpoint that is not in the directory.
    NoEndpoint,
    /// The request could not be completed; the text is the transport's.
    Network(String),
    /// The response body could not be decoded; the text is the decoder's.
    Decode(String),
}

impl FetchError {
    /// The class the error belongs to.
    pub open spec fn spec_kind(&self) -> ErrorKind {
        match self {
            FetchError::NoProject => ErrorKind::NotFoundLocally,
            FetchError::NoEndpoint => ErrorKind::NotFoundLocally,
            FetchError::Network(_) => ErrorKind::Network,
            FetchError::Decode(_) => ErrorKind::Decode,
        }
    }

    /// The text shown for the error.
    pub open spec fn spec_message(&self) -> Seq<char> {
        match self {
            FetchError::NoProject => "No project id"@,
            FetchError::NoEndpoint => "No Endpoint"@,
            FetchError::Network(text) => text@,
            FetchError::Decode(text) => text@,
        }
    }

    /// The class the error belongs to.
    pub fn kind(&self) -> (kind: ErrorKind)
        ensures
            kind == self.spec_kind(),
    {
        match self {
            FetchError::NoProject => ErrorKind::NotFoundLocally,
            FetchError::NoEndpoint => ErrorKind::NotFoundLocally,
            FetchError::Network(_) => ErrorKind::Network,
            FetchError::Decode(_) => ErrorKind::Decode,
        }
    }

    /// The text shown for the error.
    pub fn message(&self) -> (text: String)
        ensures
            text@ == self.spec_message(),
    {
        match self {
            FetchError::NoProject => String::from_str("No project id"),
            FetchError::NoEndpoint => String::from_str("No Endpoint"),
            FetchError::Network(text) => text.clone(),
            FetchError::Decode(text) => text.clone(),
        }
    }
}

/// A project together with the endpoint it names.
#[derive(Clone, Debug, PartialEq, Eq)]
pub struct Resolved {
    pub project: Project,
    pub endpoint: Endpoint,
}

/// The project of the given name and the endpoint it names. A project that
/// is not in the directory gives `NoProject`; one whose endpoint name is
/// dangling gives `NoEndpoint`.
pub open spec fn resolution(
    projects: Map<Seq<char>, Project>,
    endpoints: Map<Seq<char>, Endpoint>,
    project_name: Seq<char>,
) -> Result<Resolved, FetchError> {
    if !projects.contains_key(project_name) {
        Err(FetchError::NoProject)
    } else if !endpoints.contains_key(projects[project_name].endpoint_key@) {
        Err(FetchError::NoEndpoint)
    } else {
        Ok(
            Resolved {
                project: projects[project_name],
                endpoint: endpoints[projects[project_name].endpoint_key@],
            },
        )
    }
}

/// Looks up the page's project and the endpoint the project names.
pub fn resolve(projects: &Projects, endpoints: &Endpoints, project_name: &str) -> (res: Result<
    Resolved,
    FetchError,
>)
    ensures
        res == resolution(projects@, endpoints@, project_name@),
{
    match projects.get(project_name) {
        None => Err(FetchError::NoProject),
        Some(project) => match endpoints.get(project.endpoint_key.as_str()) {
            None => Err(FetchError::NoEndpoint),
            Some(endpoint) => Ok(Resolved { project: project.clone(), endpoint: endpoint.clone() }),
        },
    }
}

/// The HTTP method of a request.
#[derive(Clone, Copy, PartialEq, Eq, Structural, Debug)]
pub enum Method {
    Get,
    Put,
}

/// A request to the backend: the method, the URL, and the project key that
/// travels in the `CK` header.
#[derive(Clone, Debug, PartialEq, Eq)]
pub struct Request {
    pub method: Method,
    pub url: String,
    pub project_key: String,
}

/// The value of a [`Request`].
pub struct RequestView {
    pub method: Method,
    pub url: Seq<char>,
    pub project_key: Seq<char>,
}

impl View for Request {
    type V = RequestView;

    open spec fn view(&self) -> RequestView {
        RequestView { method: self.method, url: self.url@, project_key: self.project_key@ }
    }
}

/// The name of the header that carries the project key.
pub fn project_key_header() -> (name: String)
    ensures
        name@ == "CK"@,
{
    String::from_str("CK")
}

/// The request that lists a project's devices.
pub fn metadata_request(endpoint: &Endpoint, project: &Project) -> (request: Request)
    ensures
        request@ == (RequestView {
            method: Method::Get,
            url: metadata_url(endpoint.spec_baseurl()),
            project_key: project.project_key@,
        }),
{
    Request {
        method: Method::Get,
        url: endpoint.metadata(),
        project_key: project.project_key.clone(),
    }
}

/// The request that reads the latest values of all sensors of a device.
pub fn rawdata_request(endpoint: &Endpoint, project: &Project, device: &Device) -> (request:
    Request)
    ensures
        request@ == (RequestView {
            method: Method::Get,
            url: rawdata_url(endpoint.spec_baseurl(), device.id@),
            project_key: project.project_key@,
        }),
{
    Request {
        method: Method::Get,
        url: endpoint.rawdata(device.id.as_str()),
        project_key: project.project_key.clone(),
    }
}

/// The request that stores a partial update of a device.
pub fn save_device_request(endpoint: &Endpoint, project: &Project, device: &Device) -> (request:
    Request)
    ensures
        request@ == (RequestView {
            method: Method::Put,
            url: device_url(endpoint.spec_baseurl(), device.id@),
            project_key: project.project_key@,
        }),
{
    Request {
        method: Method::Put,
        url: endpoint.device(device.id.as_str()),
        project_key: project.project_key.clone(),
    }
}

/// The request that stores a partial update of a sensor of a device.
pub fn save_sensor_request(
    endpoint: &Endpoint,
    project: &Project,
    device: &Device,
    sensor: &Sensor,
) -> (request: Request)
    ensures
        request@ == (RequestView {
            method: Method::Put,
            url: sensor_url(endpoint.spec_baseurl(), device.id@, sensor.id@),
            project_key: project.project_key@,
        }),
{
    Request {
        method: Method::Put,
        url: endpoint.sensor(device.id.as_str(), sensor.id.as_str()),
        project_key: project.project_key.clone(),
    }
}

/// The value of a [`Fetcher`]: the number of the fetch started last, whether
/// that fetch is still under way, and the result on display, if any.
pub struct FetcherView<T> {
    pub issued: u64,
    pub pending: bool,
    pub value: Option<T>,
}

impl<T> FetcherView<T> {
    /// Nothing was fetched yet.
    pub open spec fn idle() -> FetcherView<T> {
        FetcherView { issued: 0, pending: false, value: None }
    }

    /// Whether another fetch can be numbered.
    pub open spec fn can_start(self) -> bool {
        self.issued < u64::MAX
    }

    /// After a fetch was started again on the same inputs: the fetch has the
    /// next number, and the previous result stays on display until the new
    /// one replaces it.
    pub open spec fn restart(self) -> FetcherView<T> {
        if self.can_start() {
            FetcherView { issued: (self.issued + 1) as u64, pending: true, value: self.value }
        } else {
            self
        }
    }

    /// After a fetch was started on changed inputs: the fetch has the next
    /// number, and nothing is on display until its result arrives.
    pub open spec fn reset(self) -> FetcherView<T> {
        if self.can_start() {
            FetcherView { issued: (self.issued + 1) as u64, pending: true, value: None }
        } else {
            self
        }
    }

    /// After a result was put on display that no fetch was needed for: it
    /// replaces what was shown, and a fetch still under way is awaited no
    /// longer.
    pub open spec fn settle(self, outcome: T) -> FetcherView<T> {
        FetcherView { issued: self.issued, pending: false, value: Some(outcome) }
    }

    /// Whether the result of the fetch with that number is the one awaited.
    pub open spec fn awaits(self, ticket: u64) -> bool {
        self.pending && ticket == self.issued
    }

    /// After the fetch with that number resolved: the awaited result replaces
    /// what was on display, whole; any other result is dropped.
    pub open spec fn complete(self, ticket: u64, outcome: T) -> FetcherView<T> {
        if self.awaits(ticket) {
            FetcherView { issued: self.issued, pending: false, value: Some(outcome) }
        } else {
            self
        }
    }
}

/// The holder of one fetched resource. Every fetch gets a number when it
/// starts; when it resolves, its result is taken only if no later fetch was
/// started in the meantime.
#[derive(Debug)]
pub struct Fetcher<T> {
    issued: u64,
    pending: bool,
    value: Option<T>,
}

impl<T> View for Fetcher<T> {
    type V = FetcherView<T>;

    closed spec fn view(&self) -> FetcherView<T> {
        FetcherView { issued: self.issued, pending: self.pending, value: self.value }
    }
}

impl<T> Fetcher<T> {
    /// A holder for which no fetch was started yet.
    pub fn new() -> (fetcher: Fetcher<T>)
        ensures
            fetcher@ == FetcherView::<T>::idle(),
    {
        Fetcher { issued: 0, pending: false, value: None }
    }

    /// The result on display, if there is one.
    pub fn value(&self) -> (value: Option<&T>)
        ensures
            value.is_some() == self@.value.is_some(),
            value.is_some() ==> *value.unwrap() == self@.value.unwrap(),
    {
        self.value.as_ref()
    }

    /// The number of the fetch that was started last; 0 before the first.
    pub fn latest(&self) -> (ticket: u64)
        ensures
            ticket == self@.issued,
    {
        self.issued
    }

    /// Whether a fetch is under way.
    pub fn is_pending(&self) -> (pending: bool)
        ensures
            pending == self@.pending,
    {
        self.pending
    }

    /// Whether nothing is on display yet.
    pub fn is_loading(&self) -> (loading: bool)
        ensures
            loading == self@.value.is_none(),
    {
        self.value.is_none()
    }

    /// Starts the fetch again on the same inputs and returns its number.
    /// `None`, with nothing changed, once the numbers are used up.
    pub fn restart(&mut self) -> (ticket: Option<u64>)
        ensures
            final(self)@ == old(self)@.restart(),
            old(self)@.can_start() ==> ticket == Some(final(self)@.issued),
            !old(self)@.can_start() ==> ticket.is_none(),
    {
        if self.issued < u64::MAX {
            self.issued = self.issued + 1;
            self.pending = true;
            Some(self.issued)
        } else {
            None
        }
    }

    /// Starts a fetch on changed inputs, clearing the display, and returns
    /// its number. `None`, with nothing changed, once the numbers are used up.
    pub fn reset(&mut self) -> (ticket: Option<u64>)
        ensures
            final(self)@ == old(self)@.reset(),
            old(self)@.can_start() ==> ticket == Some(final(self)@.issued),
            !old(self)@.can_start() ==> ticket.is_none(),
    {
        if self.issued < u64::MAX {
            self.issued = self.issued + 1;
            self.pending = true;
            self.value = None;
            Some(self.issued)
        } else {
            None
        }
    }

    /// Puts a result on display that no fetch was needed for. A fetch still
    /// under way is superseded: its result will be dropped.
    pub fn settle(&mut self, outcome: T)
        ensures
            final(self)@ == old(self)@.settle(outcome),
            forall|ticket: u64| !final(self)@.awaits(ticket),
    {
        self.value = Some(outcome);
        self.pending = false;
    }

    /// Hands in the result of the fetch with that number. It is put on
    /// display if that fetch is the one awaited, and dropped otherwise.
    pub fn complete(&mut self, ticket: u64, outcome: T) -> (applied: bool)
        ensures
            applied == old(self)@.awaits(ticket),
            final(self)@ == old(self)@.complete(ticket, outcome),
    {
        if self.pending && ticket == self.issued {
            self.value = Some(outcome);
            self.pending = false;
            true
        } else {
            false
        }
    }
}

/// Of two overlapping fetches the later one wins, in whichever order they
/// resolve: once fetch B was started after fetch A, the display ends up with
/// B's result.
pub proof fn lemma_later_fetch_wins<T>(state: FetcherView<T>, a: T, b: T)
    requires
        state.issued + 2 <= u64::MAX,
    ensures
        ({
            let started_a = state.restart();
            let started_b = started_a.reset();
            started_b.complete(started_b.issued, b).complete(started_a.issued, a).value == Some(b)
        }),
        ({
            let started_a = state.restart();
            let started_b = started_a.reset();
            started_b.complete(started_a.issued, a).complete(started_b.issued, b).value == Some(b)
        }),
        ({
            let started_a = state.restart();
            let started_b = started_a.restart();
            started_b.complete(started_b.issued, b).complete(started_a.issued, a).value == Some(b)
        }),
        ({
            let started_a = state.restart();
            let started_b = started_a.restart();
            started_b.complete(started_a.issued, a).complete(started_b.issued, b).value == Some(b)
        }),
{
}

/// A result that arrives for a fetch that is not awaited changes nothing.
pub proof fn lemma_stale_result_is_dropped<T>(state: FetcherView<T>, ticket: u64, outcome: T)
    requires
        !state.awaits(ticket),
    ensures
        state.complete(ticket, outcome) == state,
{
}

/// Restarting is idempotent: two restarts in a row that are answered alike
/// show the same result, and nothing of what was shown before survives.
pub proof fn lemma_restart_is_idempotent<T>(state: FetcherView<T>, response: T)
    requires
        state.issued + 2 <= u64::MAX,
    ensures
        ({
            let first = state.restart();
            let shown = first.complete(first.issued, response);
            let second = shown.restart();
            let shown_again = second.complete(second.issued, response);
            shown.value == Some(response) && shown_again.value == shown.value
        }),
{
}

} // verus!
