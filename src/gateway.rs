//! Per-request decisions of the relay: what a directory lookup settles, how
//! the resource request is built, and what the caller is answered.

use vstd::prelude::*;
use crate::cache::ResolutionCache;
use crate::directory::{first_match, find_list_id, DirectoryEntry};

verus! {

/// Why a request could not be answered with the resource's body.
#[derive(Debug)]
pub enum GatewayError {
    /// The directory answered, and no entry has the requested name.
    NotFound,
    /// The directory could not be queried or its answer not decoded.
    LookupFailed(String),
    /// The resource request could not be completed.
    UpstreamTransportFailed(String),
    /// The resource answered, and its body could not be read.
    UpstreamBodyReadFailed(String),
}

/// HTTP status reported for each error. A failed lookup is reported as not
/// found, like a name the directory does not know.
pub open spec fn status_of(e: GatewayError) -> u16 {
    match e {
        GatewayError::NotFound => 404,
        GatewayError::LookupFailed(_) => 404,
        GatewayError::UpstreamTransportFailed(_) => 500,
        GatewayError::UpstreamBodyReadFailed(_) => 500,
    }
}

/// Text reported for each error: the failure's description, or nothing for
/// an unknown name.
pub open spec fn message_of(e: GatewayError) -> Seq<char> {
    match e {
        GatewayError::NotFound => Seq::empty(),
        GatewayError::LookupFailed(d) => d@,
        GatewayError::UpstreamTransportFailed(d) => d@,
        GatewayError::UpstreamBodyReadFailed(d) => d@,
    }
}

impl GatewayError {
    /// HTTP status to answer with.
    pub fn status(&self) -> (r: u16)
        ensures
            r == status_of(*self),
    {
        match self {
            GatewayError::NotFound => 404,
            GatewayError::LookupFailed(_) => 404,
            GatewayError::UpstreamTransportFailed(_) => 500,
            GatewayError::UpstreamBodyReadFailed(_) => 500,
        }
    }

    /// Body to answer with.
    pub fn message(&self) -> (r: String)
        ensures
            r@ == message_of(*self),
    {
        match self {
            GatewayError::NotFound => String::new(),
            GatewayError::LookupFailed(d) => d.clone(),
            GatewayError::UpstreamTransportFailed(d) => d.clone(),
            GatewayError::UpstreamBodyReadFailed(d) => d.clone(),
        }
    }
}

/// Records what a directory lookup for `name` found. A match is cached and
/// its identifier returned; no match, or a failed lookup, leaves the cache as
/// it was and returns the error.
pub fn settle_lookup(
    cache: &mut ResolutionCache,
    name: String,
    found: Result<Option<String>, String>,
) -> (r: Result<String, GatewayError>)
    requires
        old(cache).wf(),
    ensures
        final(cache).wf(),
        match found {
            Ok(Some(id)) => r == Ok::<String, GatewayError>(id) && final(cache)@ == old(cache)@.insert(
                name@,
                id@,
            ),
            Ok(None) => r == Err::<String, GatewayError>(GatewayError::NotFound) && final(cache)@
                == old(cache)@,
            Err(d) => r == Err::<String, GatewayError>(GatewayError::LookupFailed(d))
                && final(cache)@ == old(cache)@,
        },
{
    match found {
        Ok(Some(id)) => {
            let id_copy = id.clone();
            cache.insert(name, id);
            Ok(id_copy)
        },
        Ok(None) => Err(GatewayError::NotFound),
        Err(d) => Err(GatewayError::LookupFailed(d)),
    }
}

/// Settles a cache miss for `name` from the directory's answer: the entries
/// it listed, or a description of why they could not be had. The first entry
/// titled exactly `name` is cached and its identifier returned.
pub fn resolve_from_directory(
    cache: &mut ResolutionCache,
    name: String,
    answer: Result<Vec<DirectoryEntry>, String>,
) -> (r: Result<String, GatewayError>)
    requires
        old(cache).wf(),
    ensures
        final(cache).wf(),
        match answer {
            Ok(entries) => match first_match(entries@, name@) {
                Some(id) => r is Ok && r->Ok_0@ == id && final(cache)@ == old(cache)@.insert(
                    name@,
                    id,
                ),
                None => r == Err::<String, GatewayError>(GatewayError::NotFound) && final(cache)@
                    == old(cache)@,
            },
            Err(d) => r == Err::<String, GatewayError>(GatewayError::LookupFailed(d))
                && final(cache)@ == old(cache)@,
        },
{
    let found = match answer {
        Ok(entries) => Ok(find_list_id(&entries, &name)),
        Err(d) => Err(d),
    };
    settle_lookup(cache, name, found)
}

/// Path of the resource service under which a list's timeline is served,
/// followed by the list's identifier.
pub open spec fn resource_path() -> Seq<char> {
    "/api/v1/timelines/list/"@
}

/// Address of the resource for identifier `id` on the service at `base`.
pub fn resource_url(base: &str, id: &String) -> (r: String)
    ensures
        r@ == base@ + resource_path() + id@,
{
    let url = String::from_str(base);
    let url = url.concat("/api/v1/timelines/list/");
    url.concat(id.as_str())
}

/// The outbound request for a resolved list: its address, the credential
/// sent as `Authorization`, and the query parameters to attach.
pub struct ForwardRequest {
    pub url: String,
    pub authorization: String,
    pub query: Vec<(String, String)>,
}

/// Builds the resource request for identifier `id`. The caller's query
/// parameters are passed on exactly as they came.
pub fn forward_request(
    base: &str,
    id: &String,
    authorization: String,
    query: Vec<(String, String)>,
) -> (r: ForwardRequest)
    ensures
        r.url@ == base@ + resource_path() + id@,
        r.authorization == authorization,
        r.query == query,
{
    ForwardRequest { url: resource_url(base, id), authorization, query }
}

/// What came of the resource request.
pub enum ForwardOutcome {
    /// The service answered with `status`, and its body was read whole.
    Received { status: u16, body: String },
    /// The request could not be completed.
    TransportFailed(String),
    /// The service answered, and its body could not be read.
    BodyReadFailed(String),
}

/// The answer to the caller when the resource's body was relayed.
pub struct GatewayResponse {
    pub status: u16,
    pub content_type: String,
    pub body: String,
}

/// Media type of every relayed body.
pub open spec fn json_media_type() -> Seq<char> {
    "application/json"@
}

/// Turns the resource request's outcome into the caller's answer. A body
/// that was read is relayed verbatim with status 200, whatever status the
/// service gave; a failure becomes the matching error.
pub fn relay(outcome: ForwardOutcome) -> (r: Result<GatewayResponse, GatewayError>)
    ensures
        match outcome {
            ForwardOutcome::Received { status, body } => match r {
                Ok(resp) => resp.status == 200 && resp.body == body && resp.content_type@
                    == json_media_type(),
                Err(_) => false,
            },
            ForwardOutcome::TransportFailed(d) => r is Err && r->Err_0
                == GatewayError::UpstreamTransportFailed(d),
            ForwardOutcome::BodyReadFailed(d) => r is Err && r->Err_0
                == GatewayError::UpstreamBodyReadFailed(d),
        },
{
    match outcome {
        ForwardOutcome::Received { status: _, body } => Ok(
            GatewayResponse { status: 200, content_type: String::from_str("application/json"), body },
        ),
        ForwardOutcome::TransportFailed(d) => Err(GatewayError::UpstreamTransportFailed(d)),
        ForwardOutcome::BodyReadFailed(d) => Err(GatewayError::UpstreamBodyReadFailed(d)),
    }
}

} // verus!
