//! From a client's generation request to the request that the backend gets for it.
use crate::error::{ErrorView, ProxyError};
use crate::headers::{
    header_views, image_headers, image_request_headers, video_headers, video_request_headers,
    Header, HeaderSet,
};
use crate::payload::{create_json_payload, drawn_for, payload_outcome};
use crate::workflows::Workflows;
use vstd::prelude::*;

verus! {

/// The bytes of a mebibyte.
pub const BYTES_PER_MEBIBYTE: usize = 1_048_576;

/// How many bytes a body may have that may have so many mebibytes.
pub fn payload_limit(mebibytes: usize) -> (bytes: usize)
    requires
        mebibytes * BYTES_PER_MEBIBYTE <= usize::MAX,
    ensures
        bytes == mebibytes * BYTES_PER_MEBIBYTE,
{
    mebibytes * BYTES_PER_MEBIBYTE
}

/// The backend's address without a scheme.
pub open spec fn base_of(backend_url: Seq<char>, backend_port: Seq<char>) -> Seq<char> {
    backend_url + ":"@ + backend_port
}

/// The backend's address without a scheme.
pub fn target_base(backend_url: &str, backend_port: &str) -> (base: String)
    ensures
        base@ == base_of(backend_url@, backend_port@),
{
    backend_url.to_owned().concat(":").concat(backend_port)
}

/// Where the backend takes prompts.
pub open spec fn prompt_url(base: Seq<char>) -> Seq<char> {
    "http://"@ + base + "/prompt"@
}

/// Pairs of texts as mathematical objects, in their order.
pub open spec fn param_views(params: Seq<(String, String)>) -> Seq<(Seq<char>, Seq<char>)> {
    Seq::new(params.len(), |i: int| (params[i].0@, params[i].1@))
}

/// The parameters, each as its name, an equals sign and its value, with ampersands between them.
pub open spec fn joined_params(params: Seq<(Seq<char>, Seq<char>)>) -> Seq<char>
    decreases params.len(),
{
    if params.len() == 0 {
        Seq::empty()
    } else {
        let front = joined_params(params.drop_last());
        let lead = if params.len() == 1 {
            front
        } else {
            front + "&"@
        };
        lead + params.last().0 + "="@ + params.last().1
    }
}

/// The query of an address with these parameters: nothing where there are none.
pub open spec fn query_of(params: Seq<(Seq<char>, Seq<char>)>) -> Seq<char> {
    if params.len() == 0 {
        Seq::empty()
    } else {
        "?"@ + joined_params(params)
    }
}

/// The query of an address with these parameters, which stand in it as they are.
pub fn query_string(params: &Vec<(String, String)>) -> (query: String)
    ensures
        query@ == query_of(param_views(params@)),
{
    if params.is_empty() {
        return String::new();
    }
    let ghost all = param_views(params@);
    let mut query = "?".to_owned();
    let mut i: usize = 0;
    assert(query@ =~= "?"@ + joined_params(all.take(0)));
    while i < params.len()
        invariant
            i <= params.len(),
            all == param_views(params@),
            query@ == "?"@ + joined_params(all.take(i as int)),
        decreases params.len() - i,
    {
        assert(all.take(i + 1).drop_last() =~= all.take(i as int));
        if i > 0 {
            query.append("&");
        }
        query.append(params[i].0.as_str());
        query.append("=");
        query.append(params[i].1.as_str());
        assert(query@ =~= "?"@ + joined_params(all.take(i + 1)));
        i = i + 1;
    }
    assert(all.take(all.len() as int) =~= all);
    query
}

/// A request to post to the backend.
#[derive(Debug)]
pub struct UpstreamRequest {
    pub url: String,
    /// Parameters that are still to be encoded into the address.
    pub query: Vec<(String, String)>,
    pub headers: HeaderSet,
    pub body: Vec<u8>,
}

/// An `UpstreamRequest` as a mathematical object.
pub struct RequestView {
    pub url: Seq<char>,
    pub query: Seq<(Seq<char>, Seq<char>)>,
    pub headers: Map<Seq<char>, Seq<u8>>,
    pub body: Seq<u8>,
}

impl View for UpstreamRequest {
    type V = RequestView;

    open spec fn view(&self) -> RequestView {
        RequestView {
            url: self.url@,
            query: param_views(self.query@),
            headers: self.headers@,
            body: self.body@,
        }
    }
}

/// The request to the backend for images, with that body.
pub open spec fn image_request_view(
    base: Seq<char>,
    params: Seq<(Seq<char>, Seq<char>)>,
    headers: Seq<(Seq<char>, Seq<u8>)>,
    body: Seq<u8>,
) -> RequestView {
    RequestView {
        url: prompt_url(base) + query_of(params),
        query: Seq::empty(),
        headers: image_headers(headers, body.len() > 0),
        body,
    }
}

/// The request to the backend for a video, with that body.
pub open spec fn video_request_view(
    base: Seq<char>,
    params: Seq<(Seq<char>, Seq<char>)>,
    headers: Seq<(Seq<char>, Seq<u8>)>,
    body: Seq<u8>,
) -> RequestView {
    RequestView { url: prompt_url(base), query: params, headers: video_headers(headers), body }
}

/// The request to the backend for images, with that body.
pub fn image_request(
    base: &str,
    params: &Vec<(String, String)>,
    headers: &Vec<Header>,
    body: Vec<u8>,
) -> (request: UpstreamRequest)
    ensures
        request@ == image_request_view(
            base@,
            param_views(params@),
            header_views(headers@),
            body@,
        ),
{
    let query = query_string(params);
    let url = "http://".to_owned().concat(base).concat("/prompt").concat(query.as_str());
    let none: Vec<(String, String)> = Vec::new();
    assert(param_views(none@) =~= Seq::empty());
    let headers = image_request_headers(headers, !body.is_empty());
    UpstreamRequest { url, query: none, headers, body }
}

/// The request to the backend for a video, with that body.
pub fn video_request(
    base: &str,
    params: Vec<(String, String)>,
    headers: &Vec<Header>,
    body: Vec<u8>,
) -> (request: UpstreamRequest)
    ensures
        request@ == video_request_view(
            base@,
            param_views(params@),
            header_views(headers@),
            body@,
        ),
{
    let url = "http://".to_owned().concat(base).concat("/prompt");
    UpstreamRequest { url, query: params, headers: video_request_headers(headers), body }
}

/// What comes of a request whose body was turned into that payload, where `request` says what the
/// backend gets for a body.
pub open spec fn request_outcome(
    payload: Result<Seq<u8>, ErrorView>,
    request: spec_fn(Seq<u8>) -> RequestView,
) -> Result<RequestView, ErrorView> {
    match payload {
        Ok(body) => Ok(request(body)),
        Err(error) => Err(error),
    }
}

/// An outcome of a generation request as a mathematical object.
pub open spec fn outcome_view(
    outcome: Result<UpstreamRequest, ProxyError>,
) -> Result<RequestView, ErrorView> {
    match outcome {
        Ok(request) => Ok(request@),
        Err(error) => Err(error@),
    }
}

/// The request to the backend for a client's request for images, or why there is none.
pub fn generations_response(
    base: &str,
    params: &Vec<(String, String)>,
    headers: &Vec<Header>,
    body: Vec<u8>,
    workflows: &Workflows,
    client_id: &str,
) -> (outcome: Result<UpstreamRequest, ProxyError>)
    ensures
        exists|drawn: Seq<u64>| #[trigger]
            drawn_for(drawn, body@, workflows@) && outcome_view(outcome) == request_outcome(
                payload_outcome(body@, workflows@, client_id@, drawn),
                |payload: Seq<u8>|
                    image_request_view(
                        base@,
                        param_views(params@),
                        header_views(headers@),
                        payload,
                    ),
            ),
{
    match create_json_payload(body, workflows, client_id) {
        Ok(payload) => Ok(image_request(base, params, headers, payload)),
        Err(error) => Err(error),
    }
}

/// The request to the backend for a client's request for a video, or why there is none.
pub fn video_generations_response(
    base: &str,
    params: Vec<(String, String)>,
    headers: &Vec<Header>,
    body: Vec<u8>,
    workflows: &Workflows,
    client_id: &str,
) -> (outcome: Result<UpstreamRequest, ProxyError>)
    ensures
        exists|drawn: Seq<u64>| #[trigger]
            drawn_for(drawn, body@, workflows@) && outcome_view(outcome) == request_outcome(
                payload_outcome(body@, workflows@, client_id@, drawn),
                |payload: Seq<u8>|
                    video_request_view(
                        base@,
                        param_views(params@),
                        header_views(headers@),
                        payload,
                    ),
            ),
{
    match create_json_payload(body, workflows, client_id) {
        Ok(payload) => Ok(video_request(base, params, headers, payload)),
        Err(error) => Err(error),
    }
}

} // verus!
