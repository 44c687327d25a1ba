//! A client of the lattice service on plain messages.
use async_nats::HeaderMap;
use crate::headers;
use crate::lattice_proto;
use crate::lattice_proto::{content_type_headers, LATTICE_SUBJECT};
use crate::text;
use crate::text::concatenate;
use vstd::prelude::*;

verus! {

/// Why a request failed.
#[derive(Clone, Copy, Debug, PartialEq, Eq, Structural)]
pub enum RequestErrorKind {
    TimedOut,
    NoResponders,
    Other,
}

/// The text of `async_nats::RequestErrorKind`.
#[verifier::external_body]
fn kind_text(kind: RequestErrorKind) -> (r: String)
    ensures
        r@ == match kind {
            RequestErrorKind::TimedOut => "request timed out"@,
            RequestErrorKind::NoResponders => "no responders"@,
            RequestErrorKind::Other => "request failed"@,
        },
{
    match kind {
        RequestErrorKind::TimedOut => async_nats::RequestErrorKind::TimedOut.to_string(),
        RequestErrorKind::NoResponders => async_nats::RequestErrorKind::NoResponders.to_string(),
        RequestErrorKind::Other => async_nats::RequestErrorKind::Other.to_string(),
    }
}

/// The failure of a request to the lattice service.
#[derive(Debug, PartialEq, Eq)]
pub enum LatticeError {
    Nats(RequestErrorKind),
    ApiError(String),
}

impl LatticeError {
    /// The text of the failure.
    pub fn message(&self) -> (r: String)
        ensures
            r@ == match self {
                LatticeError::Nats(RequestErrorKind::TimedOut) => "nats error: "@
                    + "request timed out"@,
                LatticeError::Nats(RequestErrorKind::NoResponders) => "nats error: "@
                    + "no responders"@,
                LatticeError::Nats(RequestErrorKind::Other) => "nats error: "@ + "request failed"@,
                LatticeError::ApiError(e) => "error: "@ + e@,
            },
    {
        match self {
            LatticeError::Nats(kind) => concatenate("nats error: ", kind_text(*kind).as_str()),
            LatticeError::ApiError(e) => concatenate("error: ", e.as_str()),
        }
    }
}

/// A request: where it is sent, and with which headers.
pub struct ClientRequest {
    pub subject: String,
    pub headers: HeaderMap,
}

impl ClientRequest {
    /// The request is sent to `subject` and says that it is a protobuf message.
    pub open spec fn is_for(&self, subject: Seq<char>) -> bool {
        &&& self.subject@ == subject
        &&& headers::first_value(self.headers, lattice_proto::CONTENT_TYPE@) == Some(
            lattice_proto::MIME_TYPE@,
        )
        &&& (headers::header_values(self.headers) == Map::<
            Seq<char>,
            Seq<Seq<char>>,
        >::empty().insert(lattice_proto::CONTENT_TYPE@, seq![lattice_proto::MIME_TYPE@]))
    }
}

/// A client of the lattice service.
pub struct LatticeClient {}

impl LatticeClient {
    /// A client.
    pub fn new() -> (r: LatticeClient)
        ensures
            r == (LatticeClient {  }),
    {
        LatticeClient {  }
    }

    /// The request for an operation on a lattice. It is routed to that operation, unless one of
    /// the two contains a dot.
    pub fn request(&self, operation: &str, name: &str) -> (r: ClientRequest)
        ensures
            r.is_for(lattice_proto::operation_subject(operation@, name@)),
    {
        let subject = concatenate(concatenate(LATTICE_SUBJECT, ".").as_str(), operation);
        let subject = concatenate(concatenate(subject.as_str(), ".").as_str(), name);
        ClientRequest { subject, headers: content_type_headers() }
    }

    /// The request to add a lattice.
    pub fn add(&self, name: &str) -> (r: ClientRequest)
        ensures
            r.is_for(lattice_proto::operation_subject("add"@, name@)),
    {
        self.request("add", name)
    }

    /// The request to watch lattices.
    pub fn watch(&self) -> (r: ClientRequest)
        ensures
            r.is_for(LATTICE_SUBJECT@ + ".watch"@),
    {
        ClientRequest {
            subject: concatenate(LATTICE_SUBJECT, ".watch"),
            headers: content_type_headers(),
        }
    }

    /// Reading lattices is not offered yet.
    pub fn get() {
    }
}

/// What a watcher does with a message.
#[derive(Debug, PartialEq, Eq)]
pub enum WatcherStep<T> {
    /// Acknowledges it, and passes on what it says.
    Forward(T),
    /// Drops it.
    Skip,
}

/// One who watches lattices.
#[derive(Debug, PartialEq, Eq)]
pub struct LatticeWatcher {
    /// How many messages it keeps until they are taken.
    pub buffer: usize,
}

impl LatticeWatcher {
    /// A watcher that keeps up to a hundred messages.
    pub fn new() -> (r: LatticeWatcher)
        ensures
            r.buffer == 100,
    {
        LatticeWatcher { buffer: 100 }
    }

    /// What to do with a message, given what it was decoded as: only one that can be decoded is
    /// acknowledged.
    pub fn received<T>(&self, decoded: Result<T, String>) -> (r: WatcherStep<T>)
        ensures
            match decoded {
                Ok(message) => r == WatcherStep::Forward(message),
                Err(_) => r is Skip,
            },
    {
        match decoded {
            Ok(message) => WatcherStep::Forward(message),
            Err(_) => WatcherStep::Skip,
        }
    }
}

/// The request to add a lattice whose name contains no dot is routed to adding that lattice, and
/// the request to watch lattices to watching.
pub proof fn requests_are_routed(name: Seq<char>)
    requires
        !name.contains('.'),
    ensures
        lattice_proto::route_of(lattice_proto::operation_subject("add"@, name))
            == lattice_proto::RouteView::Operation(lattice_proto::OperationView::Add(name)),
        lattice_proto::route_of(lattice_proto::operation_subject("get"@, name))
            == lattice_proto::RouteView::Operation(lattice_proto::OperationView::Get),
        lattice_proto::route_of(lattice_proto::operation_subject("delete"@, name))
            == lattice_proto::RouteView::Operation(lattice_proto::OperationView::Delete(name)),
        lattice_proto::route_of(LATTICE_SUBJECT@ + ".watch"@)
            == lattice_proto::RouteView::Operation(lattice_proto::OperationView::Watch),
{
    reveal_strlit("add");
    reveal_strlit("update");
    reveal_strlit("delete");
    reveal_strlit("get");
    reveal_strlit("watch");
    reveal_strlit(".watch");
    reveal_strlit("wasmcloud.lattice.v1alpha1_proto");
    assert("add"@[0] != "get"@[0]);
    assert("update"@[0] != "delete"@[0]);
    lattice_proto::operation_is_routed("add"@, name);
    lattice_proto::operation_is_routed("get"@, name);
    lattice_proto::operation_is_routed("delete"@, name);
    let parts = seq![
        LATTICE_SUBJECT@.subrange(0, 9),
        LATTICE_SUBJECT@.subrange(10, 17),
        LATTICE_SUBJECT@.subrange(18, 32),
        "watch"@,
    ];
    assert forall|i: int| 0 <= i < parts.len() implies !(#[trigger] parts[i]).contains('.') by {
        assert(i == 0 || i == 1 || i == 2 || i == 3);
    }
    text::split_of_join_is_the_tokens(parts, '.');
    reveal_with_fuel(text::join, 5);
    assert(parts.drop_last().drop_last().drop_last() =~= seq![parts[0]]);
    assert(parts.drop_last().drop_last() =~= seq![parts[0], parts[1]]);
    assert(parts.drop_last() =~= seq![parts[0], parts[1], parts[2]]);
    assert(text::join(parts, '.') =~= LATTICE_SUBJECT@ + ".watch"@);
}

} // verus!
