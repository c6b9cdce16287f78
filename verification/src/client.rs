//! The telemetry client: owns the collector base URL, the process
//! instance identity and the request stash, and builds every message
//! that leaves the process. Each operation returns the emissions it
//! produces; posting them is the transport shell's job, so a collector
//! failure can never reach the instrumented request path.

use vstd::prelude::*;
use crate::meta::RequestLogConfig;
use crate::meta::RequestMeta;
use crate::meta::ResponseMeta;
use crate::stash::RequestStash;
use crate::messages::CapturedRequest;
use crate::messages::Emission;
use crate::messages::RequestLogMessage;
use crate::messages::RequestsBundleMessage;
use crate::messages::StartupMessage;
use crate::messages::count_startup;
use crate::messages::count_sync;

verus! {

/// Why a client operation could not produce its telemetry. The request
/// path is never affected: the caller drops the error.
#[derive(Clone, Copy, Debug, PartialEq, Eq, Structural)]
pub enum TelemetryError {
    /// No stashed request record was found under the correlation key.
    LookupMiss,
}

/// Relies on uuid::Uuid::new_v4 for a fresh random 128-bit identifier;
/// nothing is assumed of the value drawn.
#[verifier::external_body]
fn fresh_uuid() -> u128 {
    uuid::Uuid::new_v4().as_u128()
}

/// The collector base URL derived from a client identifier and an
/// environment name.
pub open spec fn base_url_of(client_id: Seq<char>, environment: Seq<char>) -> Seq<char> {
    "https://hub.apitally.io/v2/"@ + client_id + "/"@ + environment
}

/// The path suffix under the base URL that an emission is posted to.
pub open spec fn suffix_of(e: Emission) -> Seq<char> {
    match e {
        Emission::Startup(_) => "startup"@,
        Emission::Sync(_) => "sync"@,
        Emission::Log(_) => "log"@,
    }
}

/// A startup message announcing `instance`: empty path list, empty
/// version map, and the client-name tag.
pub open spec fn is_startup_for(m: StartupMessage, instance: u128) -> bool {
    &&& m.instance_uuid == instance
    &&& m.paths@.len() == 0
    &&& m.versions@.len() == 0
    &&& m.client@ == "rs:axum"@
}

/// A one-entry histogram: everything counted in the zero bucket.
pub open spec fn is_unit_histogram(h: Seq<(String, usize)>) -> bool {
    &&& h.len() == 1
    &&& h[0].0@ == "0"@
    &&& h[0].1 == 1
}

/// The captured-request summary merging a stashed request record with
/// its response record: one request, the stashed sizes and path, the
/// response's status and size.
pub open spec fn captured_from(c: CapturedRequest, meta: RequestMeta, resp: ResponseMeta) -> bool {
    &&& c.consumer is None
    &&& c.method@ == meta.method@
    &&& c.path@ == meta.matched_path@
    &&& c.status_code == resp.status
    &&& c.request_count == 1
    &&& c.request_size_sum == meta.content_length
    &&& c.response_size_sum == resp.size
    &&& is_unit_histogram(c.response_times@)
    &&& is_unit_histogram(c.request_sizes@)
    &&& is_unit_histogram(c.response_sizes@)
}

/// The usage bundle for one completed request: tagged with the
/// correlation key as message identifier, carrying exactly the one
/// captured request and empty error and consumer lists.
pub open spec fn bundle_from(
    b: RequestsBundleMessage,
    instance: u128,
    key: u128,
    meta: RequestMeta,
    resp: ResponseMeta,
) -> bool {
    &&& b.time_offset == 0
    &&& b.instance_uuid == instance
    &&& b.message_uuid == key
    &&& b.requests@.len() == 1
    &&& captured_from(b.requests@[0], meta, resp)
    &&& b.validation_errors@.len() == 0
    &&& b.server_errors@.len() == 0
    &&& b.consumers@.len() == 0
}

/// The full log entry for one completed request: the stashed request
/// fields and the response fields, with empty header lists and bodies.
pub open spec fn log_from(m: RequestLogMessage, meta: RequestMeta, resp: ResponseMeta) -> bool {
    &&& m.request.timestamp == 0
    &&& m.request.method@ == meta.method@
    &&& m.request.path@ == meta.matched_path@
    &&& m.request.url@ == meta.url@
    &&& m.request.headers@.len() == 0
    &&& m.request.size == meta.content_length
    &&& m.request.consumer@ == ""@
    &&& m.request.body@ == ""@
    &&& m.response.status_code == resp.status
    &&& m.response.response_time == 100
    &&& m.response.headers@.len() == 0
    &&& m.response.size == resp.size
    &&& m.response.body@ == ""@
}

pub struct ApitallyClient {
    pub base_url: String,
    pub instance_id: u128,
    pub request_log_config: RequestLogConfig,
    pub request_stash: RequestStash,
}

impl ApitallyClient {
    /// Construct a client for one deployment. The base URL is derived
    /// deterministically from the client identifier and environment
    /// name; the instance identity is drawn fresh. Exactly one startup
    /// emission is produced, whatever number of requests follows.
    pub fn new(client_id: &str, environment: &str) -> (r: (ApitallyClient, Vec<Emission>))
        ensures
            r.0.base_url@ == base_url_of(client_id@, environment@),
            !r.0.request_log_config.enabled,
            r.0.request_stash@ == Map::<u128, RequestMeta>::empty(),
            r.1@.len() == 1,
            r.1@[0] matches Emission::Startup(m) && is_startup_for(m, r.0.instance_id),
            count_startup(r.1@) == 1,
            count_sync(r.1@) == 0,
    {
        let base_url = String::from_str("https://hub.apitally.io/v2/").concat(client_id).concat(
            "/",
        ).concat(environment);
        let instance = ApitallyClient {
            base_url,
            instance_id: fresh_uuid(),
            request_log_config: Default::default(),
            request_stash: RequestStash::new(),
        };
        let startup = instance.send_startup_data();
        let mut emissions: Vec<Emission> = Vec::new();
        emissions.push(Emission::Startup(startup));
        proof {
            assert(emissions@.drop_last() =~= Seq::<Emission>::empty());
            assert(count_startup(Seq::<Emission>::empty()) == 0);
            assert(count_sync(Seq::<Emission>::empty()) == 0);
            assert(count_startup(emissions@) == 1);
            assert(count_sync(emissions@) == 0);
        }
        (instance, emissions)
    }

    /// Replace the request-log configuration; nothing else changes.
    pub fn set_request_log_config(&mut self, request_log_config: RequestLogConfig)
        ensures
            final(self).request_log_config == request_log_config,
            final(self).base_url == old(self).base_url,
            final(self).instance_id == old(self).instance_id,
            final(self).request_stash == old(self).request_stash,
    {
        self.request_log_config = request_log_config;
    }

    /// Build the startup message for this instance. The message
    /// identifier is drawn fresh; everything else is fixed.
    pub fn send_startup_data(&self) -> (m: StartupMessage)
        ensures
            is_startup_for(m, self.instance_id),
    {
        StartupMessage {
            instance_uuid: self.instance_id,
            message_uuid: fresh_uuid(),
            paths: Vec::new(),
            versions: Vec::new(),
            client: String::from_str("rs:axum"),
        }
    }

    /// Stash the record captured at request time under its correlation
    /// key, overwriting any record already there. Always succeeds and
    /// emits nothing.
    pub fn stash_request_data(&mut self, request_key: u128, request_meta: RequestMeta) -> (r:
        Result<(), TelemetryError>)
        ensures
            r is Ok,
            final(self).request_stash@ == old(self).request_stash@.insert(
                request_key,
                request_meta,
            ),
            final(self).base_url == old(self).base_url,
            final(self).instance_id == old(self).instance_id,
            final(self).request_log_config == old(self).request_log_config,
    {
        self.request_stash.put(request_key, request_meta);
        Ok(())
    }

    /// Consume the stashed record for `request_key`, merge it with the
    /// response record, and produce this request's emissions: exactly
    /// one usage bundle, plus one log entry when request logging is
    /// enabled, and never a startup message. A missing key is reported
    /// as a lookup miss with the client left unchanged, so at worst
    /// one request's telemetry is skipped.
    pub fn send_request_data(&mut self, request_key: u128, response_meta: ResponseMeta) -> (r:
        Result<Vec<Emission>, TelemetryError>)
        ensures
            old(self).request_stash@.contains_key(request_key) ==> {
                &&& r matches Ok(emissions)
                &&& emissions@.len() == (if old(self).request_log_config.enabled {
                    2int
                } else {
                    1int
                })
                &&& emissions@[0] matches Emission::Sync(b) && bundle_from(
                    b,
                    old(self).instance_id,
                    request_key,
                    old(self).request_stash@[request_key],
                    response_meta,
                )
                &&& old(self).request_log_config.enabled ==> (emissions@[1] matches Emission::Log(
                    m,
                ) && log_from(m, old(self).request_stash@[request_key], response_meta))
                &&& count_sync(emissions@) == 1
                &&& count_startup(emissions@) == 0
                &&& final(self).request_stash@ == old(self).request_stash@.remove(request_key)
            },
            !old(self).request_stash@.contains_key(request_key) ==> {
                &&& r == Result::<Vec<Emission>, TelemetryError>::Err(TelemetryError::LookupMiss)
                &&& final(self).request_stash@ == old(self).request_stash@
            },
            final(self).base_url == old(self).base_url,
            final(self).instance_id == old(self).instance_id,
            final(self).request_log_config == old(self).request_log_config,
    {
        let request_meta = match self.request_stash.take(request_key) {
            Some(m) => m,
            None => {
                return Err(TelemetryError::LookupMiss);
            },
        };
        let captured = CapturedRequest {
            consumer: None,
            method: request_meta.method.clone(),
            path: request_meta.matched_path.clone(),
            status_code: response_meta.status,
            request_count: 1,
            request_size_sum: request_meta.content_length,
            response_size_sum: response_meta.size,
            response_times: unit_histogram(),
            request_sizes: unit_histogram(),
            response_sizes: unit_histogram(),
        };
        let mut requests: Vec<CapturedRequest> = Vec::new();
        requests.push(captured);
        let bundle = RequestsBundleMessage {
            time_offset: 0,
            instance_uuid: self.instance_id,
            message_uuid: request_key,
            requests,
            validation_errors: Vec::new(),
            server_errors: Vec::new(),
            consumers: Vec::new(),
        };
        let mut emissions: Vec<Emission> = Vec::new();
        emissions.push(Emission::Sync(bundle));
        proof {
            assert(emissions@.drop_last() =~= Seq::<Emission>::empty());
            assert(count_startup(Seq::<Emission>::empty()) == 0);
            assert(count_sync(Seq::<Emission>::empty()) == 0);
            assert(count_sync(emissions@) == 1);
            assert(count_startup(emissions@) == 0);
        }
        if self.request_log_config.enabled {
            let log = self.send_log_data(request_meta, response_meta);
            let ghost before = emissions@;
            emissions.push(Emission::Log(log));
            proof {
                assert(emissions@.drop_last() =~= before);
                assert(count_sync(emissions@) == 1);
                assert(count_startup(emissions@) == 0);
            }
        }
        Ok(emissions)
    }

    /// Build the full log entry for one completed request. The entry
    /// identifier is drawn fresh; every other field comes from the two
    /// records.
    pub fn send_log_data(&self, request_meta: RequestMeta, response_meta: ResponseMeta) -> (m:
        RequestLogMessage)
        ensures
            log_from(m, request_meta, response_meta),
    {
        RequestLogMessage {
            uuid: fresh_uuid(),
            request: crate::messages::RequestLogRequest {
                timestamp: 0,
                method: request_meta.method,
                path: request_meta.matched_path,
                url: request_meta.url,
                headers: Vec::new(),
                size: request_meta.content_length,
                consumer: String::from_str(""),
                body: String::from_str(""),
            },
            response: crate::messages::RequestLogResponse {
                status_code: response_meta.status,
                response_time: 100,
                headers: Vec::new(),
                size: response_meta.size,
                body: String::from_str(""),
            },
        }
    }

    /// The collector URL an emission is posted to: the base URL with
    /// the emission's path suffix.
    pub fn endpoint_url(&self, emission: &Emission) -> (u: String)
        ensures
            u@ == self.base_url@ + "/"@ + suffix_of(*emission),
    {
        let suffix = match emission {
            Emission::Startup(_) => "startup",
            Emission::Sync(_) => "sync",
            Emission::Log(_) => "log",
        };
        self.base_url.clone().concat("/").concat(suffix)
    }
}

/// The one-entry histogram placed in every captured-request summary.
fn unit_histogram() -> (h: Vec<(String, usize)>)
    ensures
        is_unit_histogram(h@),
{
    let mut h: Vec<(String, usize)> = Vec::new();
    h.push((String::from_str("0"), 1));
    h
}

} // verus!
