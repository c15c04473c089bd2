//! What the collectors of vulnerability data exchange with the service
//! that drives them: how a collector is configured, what it is asked to
//! collect, and what it asks of the vulnerability database.

use std::time::Duration;
use vstd::prelude::*;

verus! {

/// The duration of a number of whole seconds.
pub uninterp spec fn duration_of_secs(secs: u64) -> Duration;

/// `Duration::from_secs`: the duration of the given number of whole
/// seconds.
pub assume_specification[ Duration::from_secs ](secs: u64) -> (duration: Duration)
    ensures
        duration == duration_of_secs(secs),
;

/// The seconds between two polls of a collector that states no cadence of
/// its own: half an hour.
pub const DEFAULT_CADENCE_SECS: u64 = 1800;

/// The time between two polls of a collector that states no cadence of its
/// own.
pub fn default_cadence() -> (cadence: Duration)
    ensures
        cadence == duration_of_secs(DEFAULT_CADENCE_SECS),
{
    Duration::from_secs(30 * 60)
}

/// How a collector is reached and how often it is polled.
#[derive(Clone, Debug)]
pub struct CollectorConfig {
    pub url: String,
    pub cadence: Duration,
}

impl CollectorConfig {
    /// The configuration of a collector from what it states of itself: its
    /// address and, where it names one, its cadence. One that names none
    /// is polled at the default cadence.
    pub fn stated(url: String, cadence: Option<Duration>) -> (config: CollectorConfig)
        ensures
            config.url == url,
            config.cadence == match cadence {
                Some(named) => named,
                None => duration_of_secs(DEFAULT_CADENCE_SECS),
            },
    {
        match cadence {
            Some(named) => CollectorConfig { url, cadence: named },
            None => CollectorConfig { url, cadence: default_cadence() },
        }
    }

    /// The configuration of a collector that states no cadence of its own.
    pub fn with_default_cadence(url: String) -> (config: CollectorConfig)
        ensures
            config.url == url,
            config.cadence == duration_of_secs(DEFAULT_CADENCE_SECS),
    {
        CollectorConfig::stated(url, None)
    }
}

/// How often a collector may be asked.
#[derive(Clone, Copy, Debug, PartialEq, Eq)]
pub enum RateLimit {
    Unlimited,
    PerSecond(u32),
    PerMinute(u32),
    PerHour(u64),
}

/// The packages that a collector is asked about, by their package URLs.
#[derive(Clone, Debug)]
pub struct CollectRequest {
    pub purls: Vec<String>,
}

/// A package, by its package URL.
#[derive(Clone, Debug)]
pub struct Package {
    pub purl: String,
}

/// The question that is put to the vulnerability database about one
/// package.
#[derive(Clone, Debug)]
pub struct QueryPackageRequest {
    pub package: Package,
}

/// The client of the vulnerability database.
#[derive(Clone, Copy, Debug)]
pub struct OsvClient {}

/// The description of the collector's interface.
#[derive(Clone, Copy, Debug)]
pub struct ApiDoc;

impl OsvClient {
    /// The questions to put to the vulnerability database for a request:
    /// one for each package, in the order of the request.
    pub fn questions(request: &CollectRequest) -> (questions: Vec<QueryPackageRequest>)
        ensures
            questions.len() == request.purls.len(),
            forall|i: int|
                0 <= i < questions.len() ==> (#[trigger] questions[i]).package.purl@
                    == request.purls[i]@,
    {
        let mut questions: Vec<QueryPackageRequest> = Vec::new();
        let mut i: usize = 0;
        while i < request.purls.len()
            invariant
                i <= request.purls.len(),
                questions.len() == i,
                forall|j: int|
                    0 <= j < i ==> (#[trigger] questions[j]).package.purl@ == request.purls[j]@,
            decreases request.purls.len() - i,
        {
            questions.push(QueryPackageRequest { package: Package { purl: request.purls[i].clone() } });
            i += 1;
        }
        questions
    }
}

} // verus!
