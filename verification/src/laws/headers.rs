//! Which headers go to the backend, and which come back.
use crate::headers::{
    answer_headers, answer_states_its_length, authorization_map, first_value, header_map,
    header_views, image_headers, image_headers_are_two_at_most, json_media_type, value_view,
    video_headers, video_headers_are_the_clients, withheld_headers_stay_behind, Header,
};
use crate::text::{decimal, equal_but_for_case};
use vstd::prelude::*;
use vstd::utf8::encode_utf8;

verus! {

/// The value that comes last under a name counts, and a name that does not occur has none.
pub proof fn the_last_value_counts(headers: Seq<(Seq<char>, Seq<u8>)>, name: Seq<char>, at: int)
    ensures
        (forall|i: int| 0 <= i < headers.len() ==> (#[trigger] headers[i]).0 != name)
            ==> !header_map(headers).contains_key(name),
        0 <= at < headers.len() && headers[at].0 == name && (forall|i: int|
            at < i < headers.len() ==> (#[trigger] headers[i]).0 != name) ==> header_map(
            headers,
        ).contains_key(name) && header_map(headers)[name] == headers[at].1,
    decreases headers.len(),
{
    if headers.len() > 0 {
        let front = headers.drop_last();
        the_last_value_counts(front, name, at);
        assert(forall|i: int| 0 <= i < front.len() ==> #[trigger] front[i] == headers[i]);
        assert(headers.last() == headers[headers.len() - 1]);
        if forall|i: int| 0 <= i < headers.len() ==> (#[trigger] headers[i]).0 != name {
            assert(headers[headers.len() - 1].0 != name);
        }
        if 0 <= at < headers.len() - 1 && (forall|i: int|
            at < i < headers.len() ==> (#[trigger] headers[i]).0 != name) {
            assert(headers[headers.len() - 1].0 != name);
        }
    }
}

/// The value that comes first under a name is its first value.
pub proof fn the_first_value_is_the_first(
    headers: Seq<(Seq<char>, Seq<u8>)>,
    name: Seq<char>,
    at: int,
)
    ensures
        (forall|i: int| 0 <= i < headers.len() ==> (#[trigger] headers[i]).0 != name)
            ==> first_value(headers, name) is None,
        0 <= at < headers.len() && headers[at].0 == name && (forall|i: int|
            0 <= i < at ==> (#[trigger] headers[i]).0 != name) ==> first_value(headers, name)
            == Some(headers[at].1),
    decreases headers.len(),
{
    if headers.len() > 0 {
        let rest = headers.drop_first();
        the_first_value_is_the_first(rest, name, at - 1);
        assert(forall|i: int| 0 <= i < rest.len() ==> #[trigger] rest[i] == headers[i + 1]);
        if forall|i: int| 0 <= i < headers.len() ==> (#[trigger] headers[i]).0 != name {
            assert(headers[0].0 != name);
        }
        if 0 < at < headers.len() && (forall|i: int|
            0 <= i < at ==> (#[trigger] headers[i]).0 != name) {
            assert(headers[0].0 != name);
        }
    }
}

/// The headers carry the authorization, if there is one, and nothing else.
pub open spec fn carry_the_authorization_alone(
    headers: Map<Seq<char>, Seq<u8>>,
    authorization: Option<Seq<u8>>,
) -> bool {
    &&& forall|name: Seq<char>| #[trigger]
        headers.contains_key(name) <==> name == "authorization"@ && authorization is Some
    &&& authorization matches Some(value) ==> headers["authorization"@] == value
}

/// The authorization alone goes with everything that a job fetches.
pub proof fn the_authorization_goes_alone(authorization: Option<Seq<u8>>)
    ensures
        carry_the_authorization_alone(authorization_map(authorization), authorization),
{
}

/// An image request carries the first authorization of the client, and says that its body is JSON
/// where it has one.
pub proof fn an_image_request_carries_what_it_needs(
    headers: Seq<(Seq<char>, Seq<u8>)>,
    has_body: bool,
    name: Seq<char>,
)
    ensures
        ({
            let sent = image_headers(headers, has_body);
            &&& sent.contains_key(name) <==> (name == "content-type"@ && has_body) || (name
                == "authorization"@ && first_value(headers, "authorization"@) is Some)
            &&& has_body ==> sent["content-type"@] == encode_utf8("application/json"@)
            &&& first_value(headers, "authorization"@) matches Some(value)
                ==> sent["authorization"@] == value
        }),
{
    image_headers_are_two_at_most(headers, has_body, name);
    image_headers_are_two_at_most(headers, has_body, "content-type"@);
    image_headers_are_two_at_most(headers, has_body, "authorization"@);
}

/// A video request carries every header of the client with its last value, but for its host and
/// its length in whatever case they are written, and says that its body is JSON.
pub proof fn a_video_request_carries_the_clients_headers(
    headers: Seq<(Seq<char>, Seq<u8>)>,
    name: Seq<char>,
)
    ensures
        ({
            let sent = video_headers(headers);
            let stays_behind = equal_but_for_case(name, "host"@) || equal_but_for_case(
                name,
                "content-length"@,
            );
            &&& stays_behind ==> !sent.contains_key(name)
            &&& sent.contains_key("content-type"@) && sent["content-type"@] == encode_utf8(
                "application/json"@,
            )
            &&& !stays_behind && name != "content-type"@ ==> sent.contains_key(name)
                == header_map(headers).contains_key(name)
            &&& !stays_behind && name != "content-type"@ && sent.contains_key(name)
                ==> sent[name] == header_map(headers)[name]
        }),
{
    if equal_but_for_case(name, "host"@) || equal_but_for_case(name, "content-length"@) {
        withheld_headers_stay_behind(headers, name);
    } else {
        video_headers_are_the_clients(headers, name);
    }
}

/// The answer carries the headers of the backend with their last values, but for the length,
/// which is that of its own body in decimal digits.
pub proof fn the_answer_carries_the_backends_headers(
    headers: Seq<(Seq<char>, Seq<u8>)>,
    length: nat,
    name: Seq<char>,
)
    ensures
        ({
            let sent = answer_headers(headers, length);
            &&& sent.contains_key(name) == header_map(headers).contains_key(name)
            &&& sent.contains_key(name) && name != "content-length"@ ==> sent[name] == header_map(
                headers,
            )[name]
            &&& sent.contains_key("content-length"@) ==> sent["content-length"@] == encode_utf8(
                decimal(length),
            )
        }),
{
    answer_states_its_length(headers, length, name);
    answer_states_its_length(headers, length, "content-length"@);
}

/// Headers and values are seen as what they hold, in their order.
pub proof fn headers_are_seen_as_they_are(headers: Seq<Header>, at: int, value: Vec<u8>)
    ensures
        header_views(headers).len() == headers.len(),
        0 <= at < headers.len() ==> header_views(headers)[at] == (
            headers[at].name@,
            headers[at].value@,
        ),
        value_view(Some(value)) == Some(value@),
        value_view(None) is None,
        json_media_type() == encode_utf8("application/json"@),
{
}

} // verus!
