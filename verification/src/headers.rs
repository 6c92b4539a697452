//! Headers: which of them are sent on to the backend, and which come back to the client.
use crate::text::{
    decimal, decimal_text, equal_but_for_case, same, same_but_for_case,
};
use vstd::prelude::*;
use vstd::utf8::encode_utf8;

verus! {

/// A header: its name in small letters, and its value.
#[derive(Debug, PartialEq, Eq)]
pub struct Header {
    pub name: String,
    pub value: Vec<u8>,
}

/// A list of headers as mathematical objects, in their order.
pub open spec fn header_views(headers: Seq<Header>) -> Seq<(Seq<char>, Seq<u8>)> {
    Seq::new(headers.len(), |i: int| (headers[i].name@, headers[i].value@))
}

/// The value of the first header of that name.
pub open spec fn first_value(headers: Seq<(Seq<char>, Seq<u8>)>, name: Seq<char>) -> Option<
    Seq<u8>,
>
    decreases headers.len(),
{
    if headers.len() == 0 {
        None
    } else if headers[0].0 == name {
        Some(headers[0].1)
    } else {
        first_value(headers.drop_first(), name)
    }
}

/// Headers with one value for each name.
#[derive(Debug)]
pub struct HeaderSet {
    headers: Vec<Header>,
}

impl HeaderSet {
    #[verifier::type_invariant]
    closed spec fn names_differ(self) -> bool {
        distinct_names(header_views(self.headers@))
    }
}

/// No name occurs twice.
pub open spec fn distinct_names(headers: Seq<(Seq<char>, Seq<u8>)>) -> bool {
    forall|i: int, j: int|
        0 <= i < j < headers.len() ==> (#[trigger] headers[i]).0 != (#[trigger] headers[j]).0
}

impl View for HeaderSet {
    type V = Map<Seq<char>, Seq<u8>>;

    /// The value of each name.
    closed spec fn view(&self) -> Map<Seq<char>, Seq<u8>> {
        header_map(header_views(self.headers@))
    }
}

/// The last value of each name.
pub open spec fn header_map(headers: Seq<(Seq<char>, Seq<u8>)>) -> Map<Seq<char>, Seq<u8>>
    decreases headers.len(),
{
    if headers.len() == 0 {
        Map::empty()
    } else {
        header_map(headers.drop_last()).insert(headers.last().0, headers.last().1)
    }
}

/// A name that occurs in no header is not in the map.
proof fn absent_name(headers: Seq<(Seq<char>, Seq<u8>)>, name: Seq<char>)
    requires
        forall|i: int| 0 <= i < headers.len() ==> (#[trigger] headers[i]).0 != name,
    ensures
        !header_map(headers).contains_key(name),
    decreases headers.len(),
{
    if headers.len() > 0 {
        assert(headers.last().0 != name);
        assert forall|i: int| 0 <= i < headers.drop_last().len() implies (
        #[trigger] headers.drop_last()[i]).0 != name by {
            assert(headers.drop_last()[i] == headers[i]);
        }
        absent_name(headers.drop_last(), name);
    }
}

/// Among headers of distinct names, giving one of them another value changes the map at its name
/// alone.
proof fn replaced_value(headers: Seq<(Seq<char>, Seq<u8>)>, at: int, value: Seq<u8>)
    requires
        distinct_names(headers),
        0 <= at < headers.len(),
    ensures
        header_map(headers.update(at, (headers[at].0, value))) == header_map(headers).insert(
            headers[at].0,
            value,
        ),
    decreases headers.len(),
{
    let name = headers[at].0;
    let changed = headers.update(at, (name, value));
    let front = headers.drop_last();
    if at == headers.len() - 1 {
        assert(changed.drop_last() =~= front);
        assert(header_map(changed) =~= header_map(headers).insert(name, value));
    } else {
        assert forall|i: int, j: int| 0 <= i < j < front.len() implies (#[trigger] front[i]).0
            != (#[trigger] front[j]).0 by {
            assert(front[i] == headers[i] && front[j] == headers[j]);
        }
        replaced_value(front, at, value);
        assert(changed.drop_last() =~= front.update(at, (name, value)));
        assert(headers.last().0 != name) by {
            assert(headers[at].0 != headers[headers.len() - 1].0);
        }
        assert(header_map(changed) =~= header_map(headers).insert(name, value));
    }
}

impl HeaderSet {
    /// No headers.
    pub fn new() -> (set: HeaderSet)
        ensures
            set@ == Map::<Seq<char>, Seq<u8>>::empty(),
    {
        HeaderSet { headers: Vec::new() }
    }

    /// The headers, each name once.
    pub fn headers(&self) -> (headers: &Vec<Header>)
        ensures
            header_map(header_views(headers@)) == self@,
            distinct_names(header_views(headers@)),
    {
        proof {
            use_type_invariant(self);
        }
        &self.headers
    }

    /// The headers with `name` set to `value`.
    pub fn with(self, name: &str, value: Vec<u8>) -> (set: HeaderSet)
        ensures
            set@ == self@.insert(name@, value@),
    {
        proof {
            use_type_invariant(&self);
        }
        let ghost before = header_views(self.headers@);
        let ghost bytes = value@;
        let mut headers = self.headers;
        let mut i: usize = 0;
        while i < headers.len()
            invariant
                i <= headers.len(),
                before == header_views(headers@),
                distinct_names(before),
                self@ == header_map(before),
                bytes == value@,
                forall|k: int| 0 <= k < i ==> (#[trigger] before[k]).0 != name@,
            decreases headers.len() - i,
        {
            assert(before[i as int].0 == headers@[i as int].name@);
            if same(headers[i].name.as_str(), name) {
                headers.set(i, Header { name: name.to_owned(), value });
                proof {
                    replaced_value(before, i as int, bytes);
                    assert(header_views(headers@) =~= before.update(i as int, (name@, bytes)));
                }
                return HeaderSet { headers };
            }
            i = i + 1;
        }
        headers.push(Header { name: name.to_owned(), value });
        proof {
            absent_name(before, name@);
            assert(header_views(headers@) =~= before.push((name@, bytes)));
            assert(before.push((name@, bytes)).drop_last() =~= before);
        }
        HeaderSet { headers }
    }
}

/// The value of the header `authorization`, if there is one.
pub fn authorization(headers: &Vec<Header>) -> (value: Option<&Vec<u8>>)
    ensures
        first_value(header_views(headers@), "authorization"@) == (match value {
            Some(value) => Some(value@),
            None => None,
        }),
{
    let ghost all = header_views(headers@);
    let mut i: usize = 0;
    assert(all.skip(0) =~= all);
    while i < headers.len()
        invariant
            i <= headers.len(),
            all == header_views(headers@),
            first_value(all, "authorization"@) == first_value(
                all.skip(i as int),
                "authorization"@,
            ),
        decreases headers.len() - i,
    {
        assert(all.skip(i as int).drop_first() =~= all.skip(i + 1));
        assert(all.skip(i as int)[0].0 == headers@[i as int].name@);
        if same(headers[i].name.as_str(), "authorization") {
            return Some(&headers[i].value);
        }
        i = i + 1;
    }
    None
}

/// The authorization alone, where there is one.
pub open spec fn authorization_map(authorization: Option<Seq<u8>>) -> Map<Seq<char>, Seq<u8>> {
    match authorization {
        Some(value) => map!["authorization"@ => value],
        None => Map::empty(),
    }
}

/// An optional value as a mathematical object.
pub open spec fn value_view(value: Option<Vec<u8>>) -> Option<Seq<u8>> {
    match value {
        Some(value) => Some(value@),
        None => None,
    }
}

/// The headers of a request that carries the authorization on and nothing else.
pub fn authorization_headers(authorization: &Option<Vec<u8>>) -> (set: HeaderSet)
    ensures
        set@ == authorization_map(value_view(*authorization)),
{
    match authorization {
        Some(value) => {
            let set = HeaderSet::new().with("authorization", copy_bytes(value));
            assert(set@ =~= authorization_map(Some(value@)));
            set
        },
        None => HeaderSet::new(),
    }
}

pub(crate) fn copy_bytes(bytes: &Vec<u8>) -> (copy: Vec<u8>)
    ensures
        copy@ == bytes@,
{
    vstd::slice::slice_to_vec(bytes.as_slice())
}

/// The media type of JSON, as bytes.
pub open spec fn json_media_type() -> Seq<u8> {
    encode_utf8("application/json"@)
}

fn json_media_bytes() -> (bytes: Vec<u8>)
    ensures
        bytes@ == json_media_type(),
{
    vstd::slice::slice_to_vec("application/json".as_bytes())
}

/// The headers of an image request to the backend: the media type where there is a body, and the
/// client's authorization.
pub open spec fn image_headers(headers: Seq<(Seq<char>, Seq<u8>)>, has_body: bool) -> Map<
    Seq<char>,
    Seq<u8>,
> {
    let typed = if has_body {
        map!["content-type"@ => json_media_type()]
    } else {
        Map::empty()
    };
    typed.union_prefer_right(authorization_map(first_value(headers, "authorization"@)))
}

/// The headers of an image request to the backend.
pub fn image_request_headers(headers: &Vec<Header>, has_body: bool) -> (set: HeaderSet)
    ensures
        set@ == image_headers(header_views(headers@), has_body),
{
    let mut set = HeaderSet::new();
    if has_body {
        set = set.with("content-type", json_media_bytes());
    }
    if let Some(value) = authorization(headers) {
        set = set.with("authorization", copy_bytes(value));
    }
    assert(set@ =~= image_headers(header_views(headers@), has_body));
    set
}

/// The header belongs to one hop and is not sent on.
pub open spec fn is_withheld(name: Seq<char>) -> bool {
    equal_but_for_case(name, "host"@) || equal_but_for_case(name, "content-length"@)
}

/// The headers that are sent on, with the last value of each name.
pub open spec fn forwarded(headers: Seq<(Seq<char>, Seq<u8>)>) -> Map<Seq<char>, Seq<u8>>
    decreases headers.len(),
{
    if headers.len() == 0 {
        Map::empty()
    } else if is_withheld(headers.last().0) {
        forwarded(headers.drop_last())
    } else {
        forwarded(headers.drop_last()).insert(headers.last().0, headers.last().1)
    }
}

/// The headers of a video request to the backend: those of the client that are sent on, with the
/// media type of JSON.
pub open spec fn video_headers(headers: Seq<(Seq<char>, Seq<u8>)>) -> Map<Seq<char>, Seq<u8>> {
    forwarded(headers).insert("content-type"@, json_media_type())
}

/// The headers of a video request to the backend.
pub fn video_request_headers(headers: &Vec<Header>) -> (set: HeaderSet)
    ensures
        set@ == video_headers(header_views(headers@)),
{
    let ghost all = header_views(headers@);
    let mut set = HeaderSet::new();
    let mut i: usize = 0;
    while i < headers.len()
        invariant
            i <= headers.len(),
            all == header_views(headers@),
            set@ == forwarded(all.take(i as int)),
        decreases headers.len() - i,
    {
        assert(all.take(i + 1).drop_last() =~= all.take(i as int));
        let name = headers[i].name.as_str();
        if !same_but_for_case(name, "host") && !same_but_for_case(name, "content-length") {
            set = set.with(name, copy_bytes(&headers[i].value));
        }
        i = i + 1;
    }
    assert(all.take(all.len() as int) =~= all);
    set.with("content-type", json_media_bytes())
}

/// The value that a header of the backend has in the answer to the client: the length is that of
/// the new body.
pub open spec fn answered_value(header: (Seq<char>, Seq<u8>), length: nat) -> Seq<u8> {
    if header.0 == "content-length"@ {
        encode_utf8(decimal(length))
    } else {
        header.1
    }
}

/// The headers of the answer to the client: those of the backend, the length of the body put
/// right, with the last value of each name.
pub open spec fn answer_headers(headers: Seq<(Seq<char>, Seq<u8>)>, length: nat) -> Map<
    Seq<char>,
    Seq<u8>,
>
    decreases headers.len(),
{
    if headers.len() == 0 {
        Map::empty()
    } else {
        answer_headers(headers.drop_last(), length).insert(
            headers.last().0,
            answered_value(headers.last(), length),
        )
    }
}

/// The headers of the answer to the client, from those of the backend and the length of the
/// body.
pub fn response_headers(headers: &Vec<Header>, length: usize) -> (set: HeaderSet)
    ensures
        set@ == answer_headers(header_views(headers@), length as nat),
{
    let ghost all = header_views(headers@);
    let mut set = HeaderSet::new();
    let mut i: usize = 0;
    while i < headers.len()
        invariant
            i <= headers.len(),
            all == header_views(headers@),
            set@ == answer_headers(all.take(i as int), length as nat),
        decreases headers.len() - i,
    {
        assert(all.take(i + 1).drop_last() =~= all.take(i as int));
        let name = headers[i].name.as_str();
        let value = if same(name, "content-length") {
            let numeral = decimal_text(length);
            vstd::slice::slice_to_vec(numeral.as_str().as_bytes())
        } else {
            copy_bytes(&headers[i].value)
        };
        set = set.with(name, value);
        i = i + 1;
    }
    assert(all.take(all.len() as int) =~= all);
    set
}

/// What is sent on has every header of the client that is not withheld, with its last value, and
/// nothing else.
proof fn forwarded_is_the_rest(headers: Seq<(Seq<char>, Seq<u8>)>, name: Seq<char>)
    ensures
        is_withheld(name) ==> !forwarded(headers).contains_key(name),
        !is_withheld(name) ==> forwarded(headers).contains_key(name) == header_map(
            headers,
        ).contains_key(name),
        !is_withheld(name) && header_map(headers).contains_key(name) ==> forwarded(headers)[name]
            == header_map(headers)[name],
    decreases headers.len(),
{
    if headers.len() > 0 {
        forwarded_is_the_rest(headers.drop_last(), name);
    }
}

/// A video request has no header of the client's own hop: neither its host nor its length.
pub proof fn withheld_headers_stay_behind(headers: Seq<(Seq<char>, Seq<u8>)>, name: Seq<char>)
    requires
        is_withheld(name),
    ensures
        !video_headers(headers).contains_key(name),
{
    forwarded_is_the_rest(headers, name);
    reveal_strlit("content-type");
    reveal_strlit("host");
    reveal_strlit("content-length");
    assert("content-type"@.len() == 12 && "host"@.len() == 4 && "content-length"@.len() == 14);
}

/// Every other header of the client goes into a video request with its last value, but for the
/// media type, which is that of JSON.
pub proof fn video_headers_are_the_clients(headers: Seq<(Seq<char>, Seq<u8>)>, name: Seq<char>)
    requires
        !is_withheld(name),
    ensures
        name == "content-type"@ ==> video_headers(headers).contains_key(name) && video_headers(
            headers,
        )[name] == json_media_type(),
        name != "content-type"@ ==> video_headers(headers).contains_key(name) == header_map(
            headers,
        ).contains_key(name),
        name != "content-type"@ && header_map(headers).contains_key(name) ==> video_headers(
            headers,
        )[name] == header_map(headers)[name],
{
    forwarded_is_the_rest(headers, name);
}

/// An image request has the authorization of the client where there is one, the media type of
/// JSON where there is a body, and no other header.
pub proof fn image_headers_are_two_at_most(
    headers: Seq<(Seq<char>, Seq<u8>)>,
    has_body: bool,
    name: Seq<char>,
)
    ensures
        name == "authorization"@ ==> match first_value(headers, name) {
            Some(value) => image_headers(headers, has_body).contains_key(name) && image_headers(
                headers,
                has_body,
            )[name] == value,
            None => !image_headers(headers, has_body).contains_key(name),
        },
        name == "content-type"@ ==> image_headers(headers, has_body).contains_key(name) == has_body
            && (has_body ==> image_headers(headers, has_body)[name] == json_media_type()),
        name != "authorization"@ && name != "content-type"@ ==> !image_headers(
            headers,
            has_body,
        ).contains_key(name),
{
    reveal_strlit("content-type");
    reveal_strlit("authorization");
    assert("content-type"@.len() == 12 && "authorization"@.len() == 13);
}

/// The answer to the client has the headers of the backend, each with its last value, and states
/// the length of the body that it carries.
pub proof fn answer_states_its_length(
    headers: Seq<(Seq<char>, Seq<u8>)>,
    length: nat,
    name: Seq<char>,
)
    ensures
        answer_headers(headers, length).contains_key(name) == header_map(headers).contains_key(
            name,
        ),
        header_map(headers).contains_key(name) ==> answer_headers(headers, length)[name] == (if name
            == "content-length"@ {
            encode_utf8(decimal(length))
        } else {
            header_map(headers)[name]
        }),
    decreases headers.len(),
{
    if headers.len() > 0 {
        answer_states_its_length(headers.drop_last(), length, name);
    }
}

} // verus!
