//! From a request to its reply.
//!
//! A request is answered in two moves. `begin` resolves `(name, tag)` and
//! either settles the reply at once or asks for an existence probe of the
//! resolved object. `conclude` takes what the probe returned and settles the
//! reply. The probe itself, and the streaming of the body, are done by the
//! caller.

use vstd::prelude::*;
use crate::manifest::Manifest;
use crate::resolver::resolve;

verus! {

/// Status of a successful reply.
pub const STATUS_OK: u16 = 200;

/// Status of every reply that finds nothing to serve.
pub const STATUS_NOT_FOUND: u16 = 404;

/// A fault reported by the backing store: a transport or authorisation
/// failure, with the HTTP status and message the store gave, if any.
#[derive(Debug, Clone, PartialEq, Eq)]
pub struct StoreUnavailable {
    pub status: Option<u16>,
    pub message: Option<String>,
}

/// What is sent back to the client.
#[derive(Debug, Clone, PartialEq, Eq)]
pub enum Reply {
    /// Status 200; the body is the named object, streamed from the store.
    Stream { object: String },
    /// An error status; the body is the message, or the status's own
    /// default body where there is none.
    Refusal { status: u16, message: Option<String> },
}

/// A `Reply` with its texts as sequences of characters.
pub enum ReplyView {
    Stream { object: Seq<char> },
    Refusal { status: u16, message: Option<Seq<char>> },
}

impl View for Reply {
    type V = ReplyView;

    open spec fn view(&self) -> ReplyView {
        match *self {
            Reply::Stream { object } => ReplyView::Stream { object: object@ },
            Reply::Refusal { status, message } => ReplyView::Refusal {
                status,
                message: match message {
                    Some(text) => Some(text@),
                    None => None,
                },
            },
        }
    }
}

impl ReplyView {
    /// The HTTP status of the reply.
    pub open spec fn status(self) -> u16 {
        match self {
            ReplyView::Stream { .. } => STATUS_OK,
            ReplyView::Refusal { status, .. } => status,
        }
    }

    /// The `Content-Type` header of the reply, if it sets one.
    pub open spec fn content_type(self) -> Option<Seq<char>> {
        match self {
            ReplyView::Stream { .. } => Some("application/octet-stream"@),
            ReplyView::Refusal { .. } => None,
        }
    }
}

/// The plain 404 reply, without a message.
pub open spec fn not_found() -> ReplyView {
    ReplyView::Refusal { status: STATUS_NOT_FOUND, message: None }
}

/// A status is usable when it has three digits.
pub open spec fn usable_status(code: u16) -> bool {
    100 <= code <= 999
}

/// The text of an optional message; nothing stands for the empty text.
pub open spec fn message_text(message: Option<String>) -> Seq<char> {
    match message {
        Some(text) => text@,
        None => Seq::empty(),
    }
}

/// The reply that mirrors a store fault: the store's status where it gave a
/// usable one, 404 otherwise; the store's message as body where there was a
/// status at all, the empty text if the store gave a status and no message.
/// A fault without a status is the plain 404.
pub open spec fn fault_reply(fault: StoreUnavailable) -> ReplyView {
    match fault.status {
        Some(code) => ReplyView::Refusal {
            status: if usable_status(code) {
                code
            } else {
                STATUS_NOT_FOUND
            },
            message: Some(message_text(fault.message)),
        },
        None => not_found(),
    }
}

/// The reply for a resolved object, given what the existence probe returned.
pub open spec fn probe_reply(object: Seq<char>, probe: Result<bool, StoreUnavailable>) -> ReplyView {
    match probe {
        Ok(true) => ReplyView::Stream { object },
        Ok(false) => not_found(),
        Err(fault) => fault_reply(fault),
    }
}

/// The reply of the endpoint as a whole: what the manifest resolves
/// `(name, tag)` to, and what the store then said of that object.
pub open spec fn endpoint_reply(
    manifest: Manifest,
    name: Seq<char>,
    tag: Seq<char>,
    probe: Result<bool, StoreUnavailable>,
) -> ReplyView {
    match manifest.path_of(name, tag) {
        Some(object) => probe_reply(object, probe),
        None => not_found(),
    }
}

/// Trusted: `http::StatusCode::from_u16` (as re-exported by `poem`), read
/// back with `as_u16`. Claims that exactly the codes from 100 to 999 are
/// accepted and come back unchanged.
#[verifier::external_body]
fn checked_status(code: u16) -> (status: Option<u16>)
    ensures
        status == (if usable_status(code) {
            Some(code)
        } else {
            None
        }),
{
    match poem::http::StatusCode::from_u16(code) {
        Ok(status) => Some(status.as_u16()),
        Err(_) => None,
    }
}

impl Reply {
    /// The plain 404 reply.
    pub fn not_found() -> (reply: Reply)
        ensures
            reply@ == not_found(),
    {
        Reply::Refusal { status: STATUS_NOT_FOUND, message: None }
    }

    /// The HTTP status of this reply.
    pub fn status(&self) -> (code: u16)
        ensures
            code == self@.status(),
    {
        match self {
            Reply::Stream { .. } => STATUS_OK,
            Reply::Refusal { status, .. } => *status,
        }
    }

    /// The `Content-Type` this reply sets: `application/octet-stream` for a
    /// streamed object, none for a refusal.
    pub fn content_type(&self) -> (media: Option<&'static str>)
        ensures
            match media {
                Some(text) => self@.content_type() == Some(text@),
                None => self@.content_type() is None,
            },
    {
        match self {
            Reply::Stream { .. } => Some("application/octet-stream"),
            Reply::Refusal { .. } => None,
        }
    }
}

/// Turns a store fault into the reply that mirrors it.
pub fn refuse(fault: StoreUnavailable) -> (reply: Reply)
    ensures
        reply@ == fault_reply(fault),
{
    let StoreUnavailable { status, message } = fault;
    match status {
        Some(code) => {
            let status = match checked_status(code) {
                Some(valid) => valid,
                None => STATUS_NOT_FOUND,
            };
            let message = match message {
                Some(text) => text,
                None => String::new(),
            };
            Reply::Refusal { status, message: Some(message) }
        },
        None => Reply::not_found(),
    }
}

/// The next move for a request.
#[derive(Debug, Clone, PartialEq, Eq)]
pub enum Step {
    /// Ask the store whether `object` exists, then call `conclude`.
    Probe { object: String },
    /// The reply is settled.
    Done { reply: Reply },
}

/// First move: resolve `(name, tag)`. A pair the manifest does not resolve
/// is answered with 404 at once; otherwise the resolved object is to be
/// probed.
pub fn begin(manifest: &Manifest, name: &str, tag: &str) -> (step: Step)
    ensures
        match step {
            Step::Probe { object } => manifest.path_of(name@, tag@) == Some(object@),
            Step::Done { reply } => manifest.path_of(name@, tag@) is None && reply@ == not_found(),
        },
{
    match resolve(manifest, name, tag) {
        Some(object) => Step::Probe { object },
        None => Step::Done { reply: Reply::not_found() },
    }
}

/// Second move: settle the reply for `object` from the probe's outcome. An
/// existing object is streamed, an absent one is a 404, a store fault is
/// mirrored.
pub fn conclude(object: String, probe: Result<bool, StoreUnavailable>) -> (reply: Reply)
    ensures
        reply@ == probe_reply(object@, probe),
{
    match probe {
        Ok(true) => Reply::Stream { object },
        Ok(false) => Reply::not_found(),
        Err(fault) => refuse(fault),
    }
}

/// A pair that the manifest does not resolve gets a 404, whatever the store
/// would say. The pair fails to resolve when the name is unknown, when the
/// tag is unknown under a known name, and when an entry on the way is
/// malformed.
pub proof fn lemma_unresolved_is_not_found(
    manifest: Manifest,
    name: Seq<char>,
    tag: Seq<char>,
    probe: Result<bool, StoreUnavailable>,
)
    requires
        manifest.path_of(name, tag) is None,
    ensures
        endpoint_reply(manifest, name, tag, probe) == not_found(),
        endpoint_reply(manifest, name, tag, probe).status() == 404,
{
}

/// A pair that resolves to an object the store does not have gets a 404.
pub proof fn lemma_absent_object_is_not_found(manifest: Manifest, name: Seq<char>, tag: Seq<char>)
    requires
        manifest.path_of(name, tag) is Some,
    ensures
        endpoint_reply(manifest, name, tag, Ok(false)) == not_found(),
        endpoint_reply(manifest, name, tag, Ok(false)).status() == 404,
{
}

/// A pair that resolves to an object the store has gets a 200 of type
/// `application/octet-stream` whose body is that very object.
pub proof fn lemma_present_object_is_streamed(manifest: Manifest, name: Seq<char>, tag: Seq<char>)
    requires
        manifest.path_of(name, tag) is Some,
    ensures
        endpoint_reply(manifest, name, tag, Ok(true)) == (ReplyView::Stream {
            object: manifest.path_of(name, tag).unwrap(),
        }),
        endpoint_reply(manifest, name, tag, Ok(true)).status() == 200,
        endpoint_reply(manifest, name, tag, Ok(true)).content_type() == Some(
            "application/octet-stream"@,
        ),
{
}

/// The two moves together give the endpoint's reply.
pub proof fn lemma_moves_give_endpoint_reply(
    manifest: Manifest,
    name: Seq<char>,
    tag: Seq<char>,
    probe: Result<bool, StoreUnavailable>,
)
    ensures
        manifest.path_of(name, tag) is Some ==> endpoint_reply(manifest, name, tag, probe)
            == probe_reply(manifest.path_of(name, tag).unwrap(), probe),
        manifest.path_of(name, tag) is None ==> endpoint_reply(manifest, name, tag, probe)
            == not_found(),
{
}

/// The status of a mirrored store fault always has three digits: it is the
/// store's own status where that is usable, and 404 in every other case.
pub proof fn lemma_fault_status(fault: StoreUnavailable)
    ensures
        usable_status(fault_reply(fault).status()),
        fault.status is None ==> fault_reply(fault) == not_found(),
        fault.status is Some && usable_status(fault.status.unwrap()) ==> fault_reply(
            fault,
        ).status() == fault.status.unwrap(),
{
}

/// A body is streamed only after the store has said that the object
/// exists: no other outcome of the probe leads to a stream.
pub proof fn lemma_stream_only_after_positive_probe(
    object: Seq<char>,
    probe: Result<bool, StoreUnavailable>,
)
    ensures
        probe_reply(object, probe) is Stream <==> probe == Ok::<bool, StoreUnavailable>(true),
        probe_reply(object, probe) is Stream ==> probe_reply(object, probe) == (ReplyView::Stream {
            object,
        }),
{
}

} // verus!
