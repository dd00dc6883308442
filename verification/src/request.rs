//! The request that delivers a batch of events.

use crate::checksum::{
    calculate_json_checksum, is_hex_of, json_checksum, lemma_hex_digits, seed_view, sha256,
};
use crate::event::EventWrapper;
use vstd::prelude::*;

verus! {

/// Where a batch of events is delivered, below the address of the server.
pub const TELEMETRY_EVENTS_PATH: &'static str = "/telemetry/events";

/// What is delivered: who reports, from where, and the events.
#[derive(Debug)]
pub struct EventRequestBody {
    pub system_id: Option<String>,
    pub installation_id: Option<String>,
    pub session_id: Option<String>,
    pub metrics_id: Option<String>,
    pub is_staff: Option<bool>,
    pub app_version: String,
    pub os_name: String,
    pub os_version: Option<String>,
    pub architecture: String,
    pub release_channel: Option<String>,
    pub events: Vec<EventWrapper>,
}

/// The methods of the requests that are made.
#[derive(Clone, Copy, Debug, PartialEq, Eq, Structural)]
pub enum Method {
    Post,
}

/// A header of a request.
#[derive(Debug, PartialEq)]
pub struct Header {
    pub name: String,
    pub value: String,
}

impl View for Header {
    type V = (Seq<char>, Seq<char>);

    open spec fn view(&self) -> (Seq<char>, Seq<char>) {
        (self.name@, self.value@)
    }
}

/// A request, ready to be sent.
#[derive(Debug, PartialEq)]
pub struct HttpRequest {
    pub method: Method,
    pub uri: String,
    pub headers: Vec<Header>,
    pub body: Vec<u8>,
}

/// A request with its text as sequences of characters.
#[verifier::ext_equal]
pub struct HttpRequestView {
    pub method: Method,
    pub uri: Seq<char>,
    pub headers: Seq<(Seq<char>, Seq<char>)>,
    pub body: Seq<u8>,
}

impl View for HttpRequest {
    type V = HttpRequestView;

    open spec fn view(&self) -> HttpRequestView {
        HttpRequestView {
            method: self.method,
            uri: self.uri@,
            headers: self.headers@.map_values(|header: Header| header@),
            body: self.body@,
        }
    }
}

/// Why a request could not be built.
#[derive(Clone, Copy, Debug, PartialEq, Eq, Structural)]
pub enum BuildRequestError {
    /// The body could not be written as JSON.
    Serialization,
    /// The address of the server could not be formed.
    Uri,
}

/// The request that delivers `json` to `uri`. The checksum is empty where there
/// is no seed.
pub open spec fn request_spec(
    checksum_seed: Option<Seq<u8>>,
    json: Seq<u8>,
    uri: Seq<char>,
) -> HttpRequestView {
    HttpRequestView {
        method: Method::Post,
        uri,
        headers: seq![
            ("Content-Type"@, "application/json"@),
            (
                "x-zed-checksum"@,
                match json_checksum(checksum_seed, json) {
                    Some(checksum) => checksum,
                    None => seq![],
                },
            ),
        ],
        body: json,
    }
}

/// Builds the request for a body that was written as JSON, `json`, to the
/// address `uri`. Either is missing where it could not be made.
pub fn build_request(
    checksum_seed: &Option<Vec<u8>>,
    json: Option<Vec<u8>>,
    uri: Option<String>,
) -> (request: Result<HttpRequest, BuildRequestError>)
    ensures
        match request {
            Ok(request) => json is Some && uri is Some && request@ == request_spec(
                seed_view(*checksum_seed),
                json->0@,
                uri->0@,
            ),
            Err(BuildRequestError::Serialization) => json is None,
            Err(BuildRequestError::Uri) => json is Some && uri is None,
        },
        request matches Ok(request) ==> request@.headers.last().1.len() == (
        if checksum_seed is Some {
            64int
        } else {
            0
        }),
{
    let json = match json {
        Some(json) => json,
        None => {
            return Err(BuildRequestError::Serialization);
        },
    };
    let checksum = match calculate_json_checksum(&json, checksum_seed) {
        Some(checksum) => checksum,
        None => String::new(),
    };
    let uri = match uri {
        Some(uri) => uri,
        None => {
            return Err(BuildRequestError::Uri);
        },
    };
    let mut headers: Vec<Header> = Vec::new();
    headers.push(
        Header { name: "Content-Type".to_string(), value: "application/json".to_string() },
    );
    headers.push(Header { name: "x-zed-checksum".to_string(), value: checksum });
    let request = HttpRequest { method: Method::Post, uri, headers, body: json };
    assert(request@.headers =~= request_spec(
        seed_view(*checksum_seed),
        json@,
        uri@,
    ).headers);
    Ok(request)
}

/// The checksum that a request carries is that of the body it delivers, and the
/// body is the JSON as it was written.
pub proof fn checksum_covers_body(checksum_seed: Seq<u8>, json: Seq<u8>, uri: Seq<char>)
    ensures
        ({
            let request = request_spec(Some(checksum_seed), json, uri);
            &&& request.body == json
            &&& request.headers.last().0 == "x-zed-checksum"@
            &&& json_checksum(Some(checksum_seed), request.body) == Some(request.headers.last().1)
        }),
{
}

/// Without a seed the checksum of a request is empty, whatever it delivers.
pub proof fn checksum_is_empty_without_seed(json: Seq<u8>, uri: Seq<char>)
    ensures
        ({
            let request = request_spec(None, json, uri);
            &&& request.headers.last().0 == "x-zed-checksum"@
            &&& request.headers.last().1.len() == 0
        }),
{
}

/// A body that could be written is delivered as it is, with a POST request, to the
/// address that was given. The request has two headers: the type of the body, and
/// the checksum of exactly this body, which is empty where there is no seed. What
/// is missing is what the failure names.
pub proof fn request_delivers_body(
    checksum_seed: Option<Vec<u8>>,
    json: Option<Vec<u8>>,
    uri: Option<String>,
    request: Result<HttpRequest, BuildRequestError>,
)
    requires
        call_ensures(build_request, (&checksum_seed, json, uri), request),
    ensures
        json is None ==> request == Err::<HttpRequest, _>(BuildRequestError::Serialization),
        json is Some && uri is None ==> request == Err::<HttpRequest, _>(BuildRequestError::Uri),
        json is Some && uri is Some ==> {
            &&& request matches Ok(request)
            &&& is_delivery(request, checksum_seed, json->0@, uri->0@)
        },
{
    match request {
        Ok(request) => {
            lemma_request_is_delivery(request, checksum_seed, json->0@, uri->0@);
        },
        Err(_) => {},
    }
}

/// Whether a request delivers `json` to `uri`, with its checksum.
pub open spec fn is_delivery(
    request: HttpRequest,
    checksum_seed: Option<Vec<u8>>,
    json: Seq<u8>,
    uri: Seq<char>,
) -> bool {
    &&& request.method == Method::Post
    &&& request.uri@ == uri
    &&& request.body@ == json
    &&& request.headers@.len() == 2
    &&& request.headers@[0].name@ == "Content-Type"@
    &&& request.headers@[0].value@ == "application/json"@
    &&& request.headers@[1].name@ == "x-zed-checksum"@
    &&& match checksum_seed {
        Some(seed) => is_hex_of(request.headers@[1].value@, sha256(seed@ + json + seed@)),
        None => request.headers@[1].value@.len() == 0,
    }
}

/// A request that is as `request_spec` has it delivers the body.
pub(crate) proof fn lemma_request_is_delivery(
    request: HttpRequest,
    checksum_seed: Option<Vec<u8>>,
    json: Seq<u8>,
    uri: Seq<char>,
)
    requires
        request@ == request_spec(seed_view(checksum_seed), json, uri),
    ensures
        is_delivery(request, checksum_seed, json, uri),
{
    let headers = request@.headers;
    assert(headers.len() == request.headers@.len());
    assert(headers[0] == request.headers@[0]@);
    assert(headers[1] == request.headers@[1]@);
    match checksum_seed {
        Some(seed) => {
            lemma_hex_digits(sha256(seed@ + json + seed@));
        },
        None => {},
    }
}

} // verus!
