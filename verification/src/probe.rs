//! Health probes of backends: what they request and how they judge the answers.
use vstd::prelude::*;
use core::time::Duration;

verus! {

/// What a probe sends: a URL to request, or the whole request text.
#[derive(Debug)]
pub enum COWRequest {
    URL(String),
    Text(String),
}

/// A probe whose request text is borrowed from the caller.
#[derive(Debug)]
pub struct COWProbe {
    pub request: COWRequest,
    pub timeout: Duration,
    pub interval: Duration,
    pub exp_status: u32,
    pub window: u32,
    pub threshold: u32,
    pub initial: u32,
}

/// What a probe sends: a URL to request, or the whole request text.
#[derive(Debug)]
pub enum Request {
    URL(String),
    Text(String),
}

/// A probe that owns its request text.
#[derive(Debug)]
pub struct Probe {
    pub request: Request,
    pub timeout: Duration,
    pub interval: Duration,
    pub exp_status: u32,
    pub window: u32,
    pub threshold: u32,
    pub initial: u32,
}

/// The request texts are the same, and of the same kind.
pub open spec fn same_request(a: COWRequest, b: Request) -> bool {
    match (a, b) {
        (COWRequest::URL(x), Request::URL(y)) => x@ == y@,
        (COWRequest::Text(x), Request::Text(y)) => x@ == y@,
        _ => false,
    }
}

impl COWProbe {
    /// The same probe, owning its request text.
    pub fn to_owned(&self) -> (r: Probe)
        ensures
            same_request(self.request, r.request),
            r.timeout == self.timeout,
            r.interval == self.interval,
            r.exp_status == self.exp_status,
            r.window == self.window,
            r.threshold == self.threshold,
            r.initial == self.initial,
    {
        Probe {
            request: match &self.request {
                COWRequest::URL(s) => Request::URL(s.clone()),
                COWRequest::Text(s) => Request::Text(s.clone()),
            },
            timeout: self.timeout,
            interval: self.interval,
            exp_status: self.exp_status,
            window: self.window,
            threshold: self.threshold,
            initial: self.initial,
        }
    }
}

} // verus!
