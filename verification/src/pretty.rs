//! Attaching an indented JSON body to a request builder.

use crate::encode::to_pretty_bytes;
use crate::request::{
    attach_json, attach_json_blocking, content_type_name, has_room_for_content_type,
    header_census, header_census_blocking, json_attached, json_media_type,
    pending_blocking_request, pending_request, replace_body, replace_body_blocking, with_body,
    BodyView, RequestView, MAX_HEADER_NAMES,
};
use vstd::prelude::*;

verus! {

/// The bytes of a successful encoding, `None` for a failed one.
pub open spec fn encoded_bytes(pretty: Result<Vec<u8>, serde_json::Error>) -> Option<Seq<u8>> {
    match pretty {
        Ok(bytes) => Some(bytes@),
        Err(_) => None,
    }
}

/// The request that results when the indented encoding `pretty` (`None` when
/// encoding failed) meets a builder on which the terse JSON body is already
/// attached and which holds `attached`.
///
/// Indented bytes replace the body; without them the request stays as the
/// terse attachment left it. A builder that carries an error keeps it.
pub open spec fn pretty_outcome(attached: Option<RequestView>, pretty: Option<Seq<u8>>) -> Option<
    RequestView,
> {
    match (attached, pretty) {
        (Some(r), Some(bytes)) => Some(with_body(r, bytes)),
        (Some(r), None) => Some(r),
        (None, _) => None,
    }
}

/// When the indented encoding succeeds, the body is exactly its bytes, and
/// method, URL, headers, timeout and version are those of the terse
/// attachment.
pub proof fn lemma_indented_bytes_become_the_body(attached: RequestView, bytes: Seq<u8>)
    ensures
        pretty_outcome(Some(attached), Some(bytes)) == Some(
            RequestView { body: BodyView::Buffered(bytes), ..attached },
        ),
{
}

/// The same indented bytes give the same body, whatever the two builders
/// held before.
pub proof fn lemma_same_bytes_same_body(first: RequestView, second: RequestView, bytes: Seq<u8>)
    ensures
        pretty_outcome(Some(first), Some(bytes)).unwrap().body == pretty_outcome(
            Some(second),
            Some(bytes),
        ).unwrap().body,
{
}

/// When the indented encoding fails, the result is the terse attachment and
/// nothing else: same request, or same error.
pub proof fn lemma_failed_encoding_changes_nothing(attached: Option<RequestView>)
    ensures
        pretty_outcome(attached, None) == attached,
{
}

/// A request that had no `Content-Type` header ends with exactly one, the
/// JSON media type, whether or not the indented encoding succeeded; one that
/// had the header keeps its values.
pub proof fn lemma_content_type_is_json(
    before: RequestView,
    attached: RequestView,
    pretty: Option<Seq<u8>>,
)
    requires
        json_attached(before, attached),
    ensures
        json_attached(before, pretty_outcome(Some(attached), pretty).unwrap()),
        pretty_outcome(Some(attached), pretty).unwrap().headers.contains_key(content_type_name()),
        pretty_outcome(Some(attached), pretty).unwrap().headers[content_type_name()] == (
        if before.headers.contains_key(content_type_name()) {
            before.headers[content_type_name()]
        } else {
            seq![json_media_type()]
        }),
{
}

/// Finishes `pretty_json` on an asynchronous builder: `builder` already has
/// the terse JSON body attached, `pretty` is what encoding the same payload
/// with indentation gave.
///
/// On `Ok` the bytes replace the body; on `Err` the builder comes back as
/// it was and the error is dropped.
pub fn with_pretty_body(
    builder: reqwest::RequestBuilder,
    pretty: Result<Vec<u8>, serde_json::Error>,
) -> (out: reqwest::RequestBuilder)
    ensures
        pending_request(out) == pretty_outcome(pending_request(builder), encoded_bytes(pretty)),
        pretty is Err || pending_request(builder) is None ==> out == builder,
{
    match pretty {
        Ok(body) => replace_body(builder, body),
        Err(_) => builder,
    }
}

/// Finishes `pretty_json` on a blocking builder, as [`with_pretty_body`]
/// does on an asynchronous one.
pub fn with_pretty_body_blocking(
    builder: reqwest::blocking::RequestBuilder,
    pretty: Result<Vec<u8>, serde_json::Error>,
) -> (out: reqwest::blocking::RequestBuilder)
    ensures
        pending_blocking_request(out) == pretty_outcome(
            pending_blocking_request(builder),
            encoded_bytes(pretty),
        ),
        pretty is Err || pending_blocking_request(builder) is None ==> out == builder,
{
    match pretty {
        Ok(body) => replace_body_blocking(builder, body),
        Err(_) => builder,
    }
}

/// Whether a builder that holds `pending` can be seen to have room for the
/// `Content-Type` header: it holds a request, the body of the request is not
/// a stream, and the headers have the room.
pub open spec fn can_attach(pending: Option<RequestView>) -> bool {
    match pending {
        Some(r) => !(r.body is Streamed) && has_room_for_content_type(r.headers),
        None => false,
    }
}

/// Sets the body of an HTTP request to the indented, human-friendly JSON
/// encoding of a value.
pub trait PrettyJson: Sized {
    /// The request that the builder holds, `None` when it carries an error.
    spec fn pending(&self) -> Option<RequestView>;

    /// Send a "pretty" JSON body.
    ///
    /// Sets the body to the indented JSON encoding of `json`, and adds the
    /// `Content-Type: application/json` header unless a `Content-Type` is
    /// already present. If the indented encoding fails where the terse one
    /// succeeded, the terse body stays; no error is reported here. If the
    /// terse encoding fails, the builder carries that error, as after `json`.
    /// A builder that carries an error already comes back as it was.
    ///
    /// Whether `json` can be encoded, and to which bytes, is decided by its
    /// `Serialize` impl. What holds whenever a request comes out: it has a
    /// buffered body, its headers are the earlier ones with the
    /// `Content-Type` settled, and method, URL, timeout and version are
    /// unchanged.
    ///
    /// The header map of a request is bounded: the builder must either
    /// have a `Content-Type` already or hold at most [`MAX_HEADER_NAMES`]
    /// header names. [`PrettyJson::try_pretty_json`] asks nothing of the
    /// builder.
    fn pretty_json<T: serde::Serialize + ?Sized>(self, json: &T) -> (out: Self)
        requires
            self.pending() matches Some(r) ==> has_room_for_content_type(r.headers),
        ensures
            self.pending() is None ==> out == self,
            out.pending() is Some ==> self.pending() is Some && json_attached(
                self.pending().unwrap(),
                out.pending().unwrap(),
            ),
    ;

    /// Sends a "pretty" JSON body if the builder can be seen to have room
    /// for the `Content-Type` header.
    ///
    /// Looks at the headers first, which takes a copy of the pending request.
    /// `Ok` holds what [`PrettyJson::pretty_json`] made of the builder. `Err`
    /// holds the builder as it was: it carries an error, or its body is a
    /// stream so that no copy can be taken, or it has no `Content-Type` and
    /// more than [`MAX_HEADER_NAMES`] header names.
    fn try_pretty_json<T: serde::Serialize + ?Sized>(self, json: &T) -> (out: Result<Self, Self>)
        ensures
            out is Ok <==> can_attach(self.pending()),
            out matches Ok(sent) ==> (sent.pending() is Some ==> json_attached(
                self.pending().unwrap(),
                sent.pending().unwrap(),
            )),
            out matches Err(kept) ==> kept == self,
    ;
}

impl PrettyJson for reqwest::RequestBuilder {
    open spec fn pending(&self) -> Option<RequestView> {
        pending_request(*self)
    }

    fn pretty_json<T: serde::Serialize + ?Sized>(self, json: &T) -> (out: Self) {
        let builder = attach_json(self, json);
        let pretty = to_pretty_bytes(json);
        with_pretty_body(builder, pretty)
    }

    fn try_pretty_json<T: serde::Serialize + ?Sized>(self, json: &T) -> (out: Result<Self, Self>) {
        match header_census(&self) {
            Some(census) => {
                if census.typed || census.names <= MAX_HEADER_NAMES {
                    Ok(self.pretty_json(json))
                } else {
                    Err(self)
                }
            },
            None => Err(self),
        }
    }
}

impl PrettyJson for reqwest::blocking::RequestBuilder {
    open spec fn pending(&self) -> Option<RequestView> {
        pending_blocking_request(*self)
    }

    fn pretty_json<T: serde::Serialize + ?Sized>(self, json: &T) -> (out: Self) {
        let builder = attach_json_blocking(self, json);
        let pretty = to_pretty_bytes(json);
        with_pretty_body_blocking(builder, pretty)
    }

    fn try_pretty_json<T: serde::Serialize + ?Sized>(self, json: &T) -> (out: Result<Self, Self>) {
        match header_census_blocking(&self) {
            Some(census) => {
                if census.typed || census.names <= MAX_HEADER_NAMES {
                    Ok(self.pretty_json(json))
                } else {
                    Err(self)
                }
            },
            None => Err(self),
        }
    }
}

} // verus!
