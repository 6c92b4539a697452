//! The request that the backend gets for a client's request.
use crate::error::{ErrorView, ProxyError};
use crate::generation::{
    base_of, image_request_view, joined_params, outcome_view, param_views, query_of,
    request_outcome, video_request_view, RequestView, UpstreamRequest,
};
use crate::headers::{image_headers, video_headers};
use vstd::prelude::*;

verus! {

/// No parameters make no query. One is its name, an equals sign and its value behind a question
/// mark, and each further one follows an ampersand.
pub proof fn parameters_make_a_query(
    params: Seq<(Seq<char>, Seq<char>)>,
    name: Seq<char>,
    value: Seq<char>,
)
    ensures
        query_of(Seq::empty()) == Seq::<char>::empty(),
        query_of(seq![(name, value)]) == "?"@ + (name + "="@ + value),
        params.len() > 0 ==> query_of(params.push((name, value))) == query_of(params) + "&"@ + name
            + "="@ + value,
{
    let one = seq![(name, value)];
    assert(one.drop_last() =~= Seq::empty());
    assert(joined_params(one) =~= name + "="@ + value) by {
        assert(joined_params(Seq::empty()) =~= Seq::empty());
    }
    if params.len() > 0 {
        let more = params.push((name, value));
        assert(more.drop_last() =~= params);
        assert(query_of(more) =~= query_of(params) + "&"@ + name + "="@ + value);
    }
}

/// An image request goes to the prompt address of the backend with the parameters in its query. It
/// has the body that it was given, and the headers that go with it.
pub proof fn an_image_request_goes_to_the_prompt_address(
    url: Seq<char>,
    port: Seq<char>,
    params: Seq<(Seq<char>, Seq<char>)>,
    headers: Seq<(Seq<char>, Seq<u8>)>,
    body: Seq<u8>,
)
    ensures
        ({
            let request = image_request_view(base_of(url, port), params, headers, body);
            &&& request.url == "http://"@ + (url + ":"@ + port) + "/prompt"@ + query_of(params)
            &&& request.query.len() == 0
            &&& request.body == body
            &&& request.headers == image_headers(headers, body.len() > 0)
        }),
{
}

/// A video request goes to the prompt address of the backend and leaves its parameters to be
/// encoded. It has the body that it was given, and the headers that go with it.
pub proof fn a_video_request_goes_to_the_prompt_address(
    url: Seq<char>,
    port: Seq<char>,
    params: Seq<(Seq<char>, Seq<char>)>,
    headers: Seq<(Seq<char>, Seq<u8>)>,
    body: Seq<u8>,
)
    ensures
        ({
            let request = video_request_view(base_of(url, port), params, headers, body);
            &&& request.url == "http://"@ + (url + ":"@ + port) + "/prompt"@
            &&& request.query == params
            &&& request.body == body
            &&& request.headers == video_headers(headers)
        }),
{
}

/// A payload becomes the request for it, and an error stays that error.
pub proof fn a_payload_becomes_its_request(
    body: Seq<u8>,
    error: ErrorView,
    request: spec_fn(Seq<u8>) -> RequestView,
)
    ensures
        request_outcome(Ok(body), request) == Ok::<RequestView, ErrorView>(request(body)),
        request_outcome(Err(error), request) == Err::<RequestView, ErrorView>(error),
{
}

/// Requests, parameters and outcomes are seen as what they hold, in their order.
pub proof fn requests_are_seen_as_they_are(
    request: UpstreamRequest,
    error: ProxyError,
    params: Seq<(String, String)>,
    at: int,
)
    ensures
        request@.url == request.url@,
        request@.query == param_views(request.query@),
        request@.headers == request.headers@,
        request@.body == request.body@,
        outcome_view(Ok(request)) == Ok::<RequestView, ErrorView>(request@),
        outcome_view(Err(error)) == Err::<RequestView, ErrorView>(error@),
        param_views(params).len() == params.len(),
        0 <= at < params.len() ==> param_views(params)[at] == (params[at].0@, params[at].1@),
{
}

} // verus!
