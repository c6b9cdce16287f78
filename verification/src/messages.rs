//! The telemetry messages posted to the remote collector, and the
//! emission model: every client operation returns the list of messages
//! it gives the transport shell to send, so how many messages of each
//! kind an operation produces is stated and proved here.

use vstd::prelude::*;

verus! {

/// Announces a freshly constructed client instance to the collector.
pub struct StartupMessage {
    pub instance_uuid: u128,
    pub message_uuid: u128,
    pub paths: Vec<String>,
    pub versions: Vec<(String, String)>,
    pub client: String,
}

/// Placeholder for a recorded validation failure; the bundle always
/// carries an empty list of these.
pub struct ValidationError {}

/// Placeholder for a recorded server failure; the bundle always
/// carries an empty list of these.
pub struct ServerError {}

/// The summary of one completed request inside a usage bundle.
pub struct CapturedRequest {
    pub consumer: Option<String>,
    pub method: String,
    pub path: String,
    pub status_code: u16,
    pub request_count: usize,
    pub request_size_sum: usize,
    pub response_size_sum: usize,
    pub response_times: Vec<(String, usize)>,
    pub request_sizes: Vec<(String, usize)>,
    pub response_sizes: Vec<(String, usize)>,
}

/// The usage bundle sent once per completed request.
pub struct RequestsBundleMessage {
    pub time_offset: usize,
    pub instance_uuid: u128,
    pub message_uuid: u128,
    pub requests: Vec<CapturedRequest>,
    pub validation_errors: Vec<ValidationError>,
    pub server_errors: Vec<ServerError>,
    pub consumers: Vec<String>,
}

/// The request half of a full request/response log entry. The
/// timestamp is carried in whole seconds.
pub struct RequestLogRequest {
    pub timestamp: u64,
    pub method: String,
    pub path: String,
    pub url: String,
    pub headers: Vec<(String, String)>,
    pub size: usize,
    pub consumer: String,
    pub body: String,
}

/// The response half of a full request/response log entry. The
/// response time is carried in whole milliseconds.
pub struct RequestLogResponse {
    pub status_code: u16,
    pub response_time: u64,
    pub headers: Vec<(String, String)>,
    pub size: usize,
    pub body: String,
}

/// A full request/response log entry, sent only when request logging
/// is enabled.
pub struct RequestLogMessage {
    pub uuid: u128,
    pub request: RequestLogRequest,
    pub response: RequestLogResponse,
}

/// One message handed to the transport shell for a fire-and-forget
/// POST to the collector.
pub enum Emission {
    Startup(StartupMessage),
    Sync(RequestsBundleMessage),
    Log(RequestLogMessage),
}

pub open spec fn count_startup(s: Seq<Emission>) -> nat
    decreases s.len(),
{
    if s.len() == 0 {
        0
    } else {
        count_startup(s.drop_last()) + (if s.last() is Startup {
            1nat
        } else {
            0nat
        })
    }
}

pub open spec fn count_sync(s: Seq<Emission>) -> nat
    decreases s.len(),
{
    if s.len() == 0 {
        0
    } else {
        count_sync(s.drop_last()) + (if s.last() is Sync {
            1nat
        } else {
            0nat
        })
    }
}

pub proof fn lemma_count_concat(a: Seq<Emission>, b: Seq<Emission>)
    ensures
        count_startup(a + b) == count_startup(a) + count_startup(b),
        count_sync(a + b) == count_sync(a) + count_sync(b),
    decreases b.len(),
{
    if b.len() == 0 {
        assert(a + b =~= a);
    } else {
        lemma_count_concat(a, b.drop_last());
        assert((a + b).drop_last() =~= a + b.drop_last());
        assert((a + b).last() == b.last());
    }
}

/// The startup message is sent exactly once per client construction,
/// and usage syncs match completed requests one for one: over any run
/// that starts with the construction's emissions and continues with
/// one emission batch per completed request (each carrying exactly one
/// usage sync and no startup message), the total startup count stays
/// at one and the total sync count equals the number of completed
/// requests, however many there are.
pub proof fn lemma_emission_totals(construction: Seq<Emission>, batches: Seq<Seq<Emission>>)
    requires
        count_startup(construction) == 1,
        count_sync(construction) == 0,
        forall|i: int|
            0 <= i < batches.len() ==> count_sync(#[trigger] batches[i]) == 1 && count_startup(
                batches[i],
            ) == 0,
    ensures
        count_startup(construction + batches.flatten()) == 1,
        count_sync(construction + batches.flatten()) == batches.len(),
    decreases batches.len(),
{
    if batches.len() == 0 {
        assert(batches.flatten() =~= Seq::<Emission>::empty());
        assert(construction + batches.flatten() =~= construction);
    } else {
        let rest = batches.drop_last();
        lemma_emission_totals(construction, rest);
        batches.lemma_flatten_and_flatten_alt_are_equivalent();
        rest.lemma_flatten_and_flatten_alt_are_equivalent();
        assert(batches.flatten_alt() == rest.flatten_alt() + batches.last());
        lemma_count_concat(construction, batches.flatten());
        lemma_count_concat(construction, rest.flatten());
        lemma_count_concat(rest.flatten(), batches.last());
        assert(count_sync(batches.flatten()) == count_sync(rest.flatten()) + count_sync(
            batches.last(),
        ));
        assert(count_startup(batches.flatten()) == count_startup(rest.flatten()) + count_startup(
            batches.last(),
        ));
    }
}

} // verus!
