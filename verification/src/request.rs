//! What a request builder holds, and the two builder operations that
//! attaching a JSON body relies on.

use vstd::prelude::*;

verus! {

/// The HTTP version of a request.
pub enum HttpVersion {
    Http09,
    Http10,
    Http11,
    H2,
    H3,
}

/// The body of a pending request.
pub enum BodyView {
    /// No body is set.
    Absent,
    /// The body is held in memory, with these bytes.
    Buffered(Seq<u8>),
    /// The body is a stream that has yet to be read.
    Streamed,
}

/// A pending request as plain values.
pub struct RequestView {
    /// The method, as its name in bytes (`POST`).
    pub method: Seq<u8>,
    /// The URL in its serialized form.
    pub url: Seq<u8>,
    /// For each header name that is present, in lower case, the bytes of its
    /// values in order.
    pub headers: Map<Seq<u8>, Seq<Seq<u8>>>,
    /// The body.
    pub body: BodyView,
    /// The timeout, if one is set, as whole seconds and further nanoseconds.
    pub timeout: Option<(u64, u32)>,
    /// The HTTP version.
    pub version: HttpVersion,
}

/// The name of the header that carries the media type of the body: the
/// bytes of `content-type`.
pub open spec fn content_type_name() -> Seq<u8> {
    seq![
        0x63u8, 0x6fu8, 0x6eu8, 0x74u8, 0x65u8, 0x6eu8, 0x74u8, 0x2du8, 0x74u8, 0x79u8, 0x70u8,
        0x65u8,
    ]
}

/// The media type that marks a JSON body: the bytes of `application/json`.
pub open spec fn json_media_type() -> Seq<u8> {
    seq![
        0x61u8, 0x70u8, 0x70u8, 0x6cu8, 0x69u8, 0x63u8, 0x61u8, 0x74u8, 0x69u8, 0x6fu8, 0x6eu8,
        0x2fu8, 0x6au8, 0x73u8, 0x6fu8, 0x6eu8,
    ]
}

/// The header name [`content_type_name`] as bytes.
pub fn content_type_name_bytes() -> (out: Vec<u8>)
    ensures
        out@ == content_type_name(),
{
    let out = vec![
        0x63u8, 0x6fu8, 0x6eu8, 0x74u8, 0x65u8, 0x6eu8, 0x74u8, 0x2du8, 0x74u8, 0x79u8, 0x70u8,
        0x65u8,
    ];
    assert(out@ =~= content_type_name());
    out
}

/// The media type [`json_media_type`] as bytes.
pub fn json_media_type_bytes() -> (out: Vec<u8>)
    ensures
        out@ == json_media_type(),
{
    let out = vec![
        0x61u8, 0x70u8, 0x70u8, 0x6cu8, 0x69u8, 0x63u8, 0x61u8, 0x74u8, 0x69u8, 0x6fu8, 0x6eu8,
        0x2fu8, 0x6au8, 0x73u8, 0x6fu8, 0x6eu8,
    ];
    assert(out@ =~= json_media_type());
    out
}

/// The headers of a request once a JSON body has been attached: a
/// `Content-Type` that is already present is kept with all its values, an
/// absent one is added with the JSON media type as its only value. No other
/// header changes.
pub open spec fn with_json_content_type(headers: Map<Seq<u8>, Seq<Seq<u8>>>) -> Map<
    Seq<u8>,
    Seq<Seq<u8>>,
> {
    if headers.contains_key(content_type_name()) {
        headers
    } else {
        headers.insert(content_type_name(), seq![json_media_type()])
    }
}

/// The most header names that a request may hold for one more to be added
/// without fail. The header map of the `http` crate has at most 32768 slots
/// and may have to grow, which it then cannot, once a fifth of them are
/// taken.
pub const MAX_HEADER_NAMES: usize = 6553;

/// Whether a JSON body can be attached to a request with these headers: the
/// `Content-Type` is either present already, or there is room to add it.
pub open spec fn has_room_for_content_type(headers: Map<Seq<u8>, Seq<Seq<u8>>>) -> bool {
    headers.contains_key(content_type_name()) || (headers.dom().finite() && headers.dom().len()
        <= MAX_HEADER_NAMES)
}

/// What deciding on room for the `Content-Type` header needs to know of the
/// headers of a request.
pub struct HeaderCensus {
    /// Whether a `Content-Type` header is present.
    pub typed: bool,
    /// The number of header names.
    pub names: usize,
}

/// Whether `census` describes `headers`.
pub open spec fn census_of(headers: Map<Seq<u8>, Seq<Seq<u8>>>, census: HeaderCensus) -> bool {
    &&& headers.dom().finite()
    &&& census.names == headers.dom().len()
    &&& census.typed == headers.contains_key(content_type_name())
}

/// Whether `census` is what looking at a builder that holds `pending` gives:
/// a census of the headers when the builder holds a request whose body is
/// not a stream, and nothing otherwise.
pub open spec fn census_matches(pending: Option<RequestView>, census: Option<HeaderCensus>) -> bool {
    match census {
        Some(c) => pending matches Some(r) && !(r.body is Streamed) && census_of(r.headers, c),
        None => pending matches Some(r) ==> r.body is Streamed,
    }
}

/// Whether `after` can be what attaching a JSON body made of `before`: a
/// buffered body is set, the headers are as [`with_json_content_type`]
/// says, and nothing else differs.
pub open spec fn json_attached(before: RequestView, after: RequestView) -> bool {
    &&& after.body is Buffered
    &&& after == (RequestView {
        headers: with_json_content_type(before.headers),
        body: after.body,
        ..before
    })
}

/// The request `r` with its body replaced by `body` and nothing else touched.
pub open spec fn with_body(r: RequestView, body: Seq<u8>) -> RequestView {
    RequestView { body: BodyView::Buffered(body), ..r }
}

/// `reqwest::RequestBuilder`, the builder of the asynchronous client. Its
/// inside is not visible here; [`pending_request`] names what it holds.
#[verifier::external_type_specification]
#[verifier::external_body]
pub struct ExRequestBuilder(reqwest::RequestBuilder);

/// `reqwest::blocking::RequestBuilder`, the builder of the blocking client.
/// Its inside is not visible here; [`pending_blocking_request`] names what
/// it holds.
#[verifier::external_type_specification]
#[verifier::external_body]
pub struct ExBlockingRequestBuilder(reqwest::blocking::RequestBuilder);

/// The request that the asynchronous builder `b` holds: what
/// `reqwest::RequestBuilder::build` would hand out, or `None` when the
/// builder carries an error and `build` would fail.
pub uninterp spec fn pending_request(b: reqwest::RequestBuilder) -> Option<RequestView>;

/// The request that the blocking builder `b` holds: what
/// `reqwest::blocking::RequestBuilder::build` would hand out, or `None` when
/// the builder carries an error and `build` would fail.
pub uninterp spec fn pending_blocking_request(b: reqwest::blocking::RequestBuilder) -> Option<
    RequestView,
>;

/// Calls `reqwest::RequestBuilder::json`.
///
/// A builder that carries an error comes back as it was. Otherwise the
/// payload is encoded tersely. If that fails, the builder now carries an
/// error. If it succeeds, the body is set to the encoded bytes, buffered, a
/// `Content-Type: application/json` header is added unless the header was
/// already present, and the rest of the request stays. Whether encoding
/// succeeds, and with which bytes, is up to the payload's `Serialize` impl
/// and is not stated. Adding the header panics in a header map that is full,
/// which the precondition rules out.
#[verifier::external_body]
pub(crate) fn attach_json<T: serde::Serialize + ?Sized>(
    builder: reqwest::RequestBuilder,
    json: &T,
) -> (out: reqwest::RequestBuilder)
    requires
        pending_request(builder) matches Some(r) ==> has_room_for_content_type(r.headers),
    ensures
        pending_request(builder) is None ==> out == builder,
        pending_request(out) is Some ==> pending_request(builder) is Some && json_attached(
            pending_request(builder).unwrap(),
            pending_request(out).unwrap(),
        ),
{
    builder.json(json)
}

/// Calls `reqwest::RequestBuilder::body` with a byte vector.
///
/// A builder that carries an error comes back as it was. Otherwise the body
/// becomes exactly `body`, buffered, and the rest of the request stays.
#[verifier::external_body]
pub(crate) fn replace_body(builder: reqwest::RequestBuilder, body: Vec<u8>) -> (out:
    reqwest::RequestBuilder)
    ensures
        pending_request(builder) is None ==> out == builder,
        pending_request(builder) is Some ==> pending_request(out) == Some(
            with_body(pending_request(builder).unwrap(), body@),
        ),
{
    builder.body(body)
}

/// Calls `reqwest::RequestBuilder::try_clone` and reads the headers of the
/// copy: whether a `Content-Type` is among them, and how many header names
/// there are.
///
/// The copy can be made, and the headers read, exactly when the builder
/// holds a request whose body is not a stream. The builder itself is not
/// changed.
#[verifier::external_body]
pub(crate) fn header_census(builder: &reqwest::RequestBuilder) -> (out: Option<HeaderCensus>)
    ensures
        census_matches(pending_request(*builder), out),
{
    let request = builder.try_clone()?.build().ok()?;
    let headers = request.headers();
    Some(HeaderCensus {
        typed: headers.contains_key(reqwest::header::CONTENT_TYPE),
        names: headers.keys_len(),
    })
}

/// Calls `reqwest::blocking::RequestBuilder::json`; the contract is that of
/// [`attach_json`], over the blocking builder.
#[verifier::external_body]
pub(crate) fn attach_json_blocking<T: serde::Serialize + ?Sized>(
    builder: reqwest::blocking::RequestBuilder,
    json: &T,
) -> (out: reqwest::blocking::RequestBuilder)
    requires
        pending_blocking_request(builder) matches Some(r) ==> has_room_for_content_type(
            r.headers,
        ),
    ensures
        pending_blocking_request(builder) is None ==> out == builder,
        pending_blocking_request(out) is Some ==> pending_blocking_request(builder) is Some
            && json_attached(
            pending_blocking_request(builder).unwrap(),
            pending_blocking_request(out).unwrap(),
        ),
{
    builder.json(json)
}

/// Calls `reqwest::blocking::RequestBuilder::body` with a byte vector; the
/// contract is that of [`replace_body`], over the blocking builder.
#[verifier::external_body]
pub(crate) fn replace_body_blocking(
    builder: reqwest::blocking::RequestBuilder,
    body: Vec<u8>,
) -> (out: reqwest::blocking::RequestBuilder)
    ensures
        pending_blocking_request(builder) is None ==> out == builder,
        pending_blocking_request(builder) is Some ==> pending_blocking_request(out) == Some(
            with_body(pending_blocking_request(builder).unwrap(), body@),
        ),
{
    builder.body(body)
}

/// Calls `reqwest::blocking::RequestBuilder::try_clone` and reads the
/// headers of the copy; the contract is that of [`header_census`], over the
/// blocking builder.
#[verifier::external_body]
pub(crate) fn header_census_blocking(builder: &reqwest::blocking::RequestBuilder) -> (out: Option<
    HeaderCensus,
>)
    ensures
        census_matches(pending_blocking_request(*builder), out),
{
    let request = builder.try_clone()?.build().ok()?;
    let headers = request.headers();
    Some(HeaderCensus {
        typed: headers.contains_key(reqwest::header::CONTENT_TYPE),
        names: headers.keys_len(),
    })
}

} // verus!
