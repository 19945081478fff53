//! The inbound side of a connection: decoded wire messages are matched
//! against the pending-reply table or handed to the notification sink.
use vstd::prelude::*;

use crate::codec::{push_signed, signed_decimal};
use crate::pending::{handles, registered, register_spec, resolve_spec, PendingTable};

verus! {

#[verifier::external_type_specification]
#[verifier::external_body]
pub struct ExIoError(std::io::Error);

#[verifier::external_type_specification]
#[verifier::external_body]
pub struct ExRecvError(tokio::sync::oneshot::error::RecvError);

#[verifier::external_type_specification]
#[verifier::external_body]
pub struct ExJsonValue(serde_json::Value);

#[verifier::external_type_specification]
#[verifier::external_body]
#[verifier::reject_recursive_types(K)]
#[verifier::reject_recursive_types(V)]
pub struct ExJsonMap<K, V>(serde_json::Map<K, V>);

/// Values returned by the device for a successful request.
pub type Response = Vec<String>;

/// Event notification: the changed properties and their new values.
#[derive(Debug)]
pub struct Notification(pub serde_json::Map<String, serde_json::Value>);

/// Error of a request.
#[derive(Debug)]
pub enum BulbError {
    /// The request could not be transmitted.
    Io(std::io::Error),
    /// The device answered with an error object: code and message.
    ErrResponse(i32, String),
    /// The connection ended before a reply arrived.
    Recv(tokio::sync::oneshot::error::RecvError),
}

/// The text describing a device-reported error.
pub open spec fn err_response_text(code: i32, message: Seq<char>) -> Seq<char> {
    seq![
        'B',
        'u',
        'l',
        'b',
        ' ',
        'r',
        'e',
        's',
        'p',
        'o',
        'n',
        's',
        'e',
        ' ',
        'e',
        'r',
        'r',
        'o',
        'r',
        ':',
        ' ',
    ] + message + seq![' ', '(', 'c', 'o', 'd', 'e', ' '] + signed_decimal(code as int) + seq![')']
}

/// The text of a closed completion channel.
pub open spec fn channel_closed_text() -> Seq<char> {
    seq!['c', 'h', 'a', 'n', 'n', 'e', 'l', ' ', 'c', 'l', 'o', 's', 'e', 'd']
}

/// Relies on the `Display` impl of std::io::Error for its message.
#[verifier::external_body]
fn io_error_text(e: &std::io::Error) -> String {
    e.to_string()
}

/// Relies on the `Display` impl of tokio's oneshot RecvError, which writes
/// "channel closed".
#[verifier::external_body]
fn recv_error_text(e: &tokio::sync::oneshot::error::RecvError) -> (r: String)
    ensures
        r@ == channel_closed_text(),
{
    e.to_string()
}

impl BulbError {
    /// A human-readable description of the error.
    pub fn to_string(&self) -> (r: String)
        ensures
            *self matches BulbError::ErrResponse(code, message) ==> r@ == err_response_text(
                code,
                message@,
            ),
            *self is Recv ==> r@ == channel_closed_text(),
    {
        match self {
            BulbError::Io(e) => io_error_text(e),
            BulbError::Recv(e) => recv_error_text(e),
            BulbError::ErrResponse(code, message) => {
                let mut out = String::from_str("Bulb response error: ");
                out.append(message.as_str());
                out.append(" (code ");
                push_signed(&mut out, *code as i64);
                out.append(")");
                proof {
                    reveal_strlit("Bulb response error: ");
                    reveal_strlit(" (code ");
                    reveal_strlit(")");
                }
                assert(out@ =~= err_response_text(*code, message@));
                out
            },
        }
    }
}

impl From<std::io::Error> for BulbError {
    fn from(e: std::io::Error) -> (r: Self) {
        BulbError::Io(e)
    }
}

impl vstd::std_specs::convert::FromSpecImpl<std::io::Error> for BulbError {
    open spec fn obeys_from_spec() -> bool {
        true
    }

    open spec fn from_spec(e: std::io::Error) -> Self {
        BulbError::Io(e)
    }
}

impl From<tokio::sync::oneshot::error::RecvError> for BulbError {
    fn from(e: tokio::sync::oneshot::error::RecvError) -> (r: Self) {
        BulbError::Recv(e)
    }
}

impl vstd::std_specs::convert::FromSpecImpl<tokio::sync::oneshot::error::RecvError> for BulbError {
    open spec fn obeys_from_spec() -> bool {
        true
    }

    open spec fn from_spec(e: tokio::sync::oneshot::error::RecvError) -> Self {
        BulbError::Recv(e)
    }
}

/// One decoded line of the inbound stream.
#[derive(Debug)]
pub enum WireMessage {
    /// Successful reply to the request with this id.
    Result { id: u64, result: Vec<String> },
    /// Error reply to the request with this id.
    Error { id: u64, code: i32, message: String },
    /// Unsolicited state change; carries no id.
    Notification { method: String, params: serde_json::Map<String, serde_json::Value> },
}

/// What the reader does with one decoded message.
#[derive(Debug)]
pub enum Dispatch<H> {
    /// Complete this pending handle with this outcome.
    Reply(H, Result<Response, BulbError>),
    /// A reply for an id that nobody waits for; it is dropped.
    Unmatched(u64),
    /// Forward this notification to the current sink.
    Notify(Notification),
    /// A notification arrived while no sink was installed; it is dropped.
    NoSink,
}

/// Abstract state of the inbound side.
pub struct ReaderState<H, S> {
    /// Pending replies, in order of registration.
    pub pending: Seq<(u64, H)>,
    /// The notification sink currently installed.
    pub sink: Option<S>,
    /// Whether the connection has been torn down.
    pub closed: bool,
}

impl<H, S> ReaderState<H, S> {
    /// Registering a pending reply: refused once closed or for an id already
    /// pending.
    pub open spec fn register(self, id: u64, handle: H) -> (bool, Self) {
        if self.closed {
            (false, self)
        } else {
            let (ok, p) = register_spec(self.pending, id, handle);
            (ok, ReaderState { pending: p, ..self })
        }
    }

    /// Matching a reply against the table by its id.
    pub open spec fn reply(self, id: u64, outcome: Result<Response, BulbError>) -> (
        Dispatch<H>,
        Self,
    ) {
        let (h, p) = resolve_spec(self.pending, id);
        match h {
            Some(h) => (Dispatch::Reply(h, outcome), ReaderState { pending: p, ..self }),
            None => (Dispatch::Unmatched(id), self),
        }
    }

    /// The effect of one decoded message.
    pub open spec fn dispatch(self, msg: WireMessage) -> (Dispatch<H>, Self) {
        match msg {
            WireMessage::Result { id, result } => self.reply(id, Ok(result)),
            WireMessage::Error { id, code, message } => self.reply(
                id,
                Err(BulbError::ErrResponse(code, message)),
            ),
            WireMessage::Notification { params, .. } => {
                if self.sink is Some {
                    (Dispatch::Notify(Notification(params)), self)
                } else {
                    (Dispatch::NoSink, self)
                }
            },
        }
    }

    /// Installing a new sink in place of the current one.
    pub open spec fn replace_sink(self, sink: S) -> Self {
        ReaderState { sink: Some(sink), ..self }
    }

    /// Teardown: every pending handle is handed out and the table emptied.
    pub open spec fn teardown(self) -> (Seq<H>, Self) {
        (handles(self.pending), ReaderState { pending: Seq::empty(), closed: true, ..self })
    }
}

/// The shared inbound state of a connection: the pending-reply table, with
/// completion handles of type `H`, and the notification sink slot, holding a
/// sender of type `S`.
pub struct Reader<H, S> {
    pending: PendingTable<H>,
    sink: Option<S>,
    closed: bool,
}

impl<H, S> View for Reader<H, S> {
    type V = ReaderState<H, S>;

    closed spec fn view(&self) -> ReaderState<H, S> {
        ReaderState { pending: self.pending@, sink: self.sink, closed: self.closed }
    }
}

impl<H, S> Reader<H, S> {
    /// The table is well formed.
    pub closed spec fn wf(&self) -> bool {
        self.pending.wf()
    }

    /// An open connection with no pending reply and no sink.
    pub fn new() -> (r: Self)
        ensures
            r.wf(),
            r@.pending == Seq::<(u64, H)>::empty(),
            r@.sink is None,
            !r@.closed,
    {
        Reader { pending: PendingTable::new(), sink: None, closed: false }
    }

    /// Whether a reply is pending under `id`.
    pub fn is_pending(&self, id: u64) -> (r: bool)
        requires
            self.wf(),
        ensures
            r == registered(self@.pending, id),
    {
        self.pending.contains(id)
    }

    /// The number of pending replies.
    pub fn pending_count(&self) -> (r: usize)
        ensures
            r == self@.pending.len(),
    {
        self.pending.len()
    }

    /// Whether the connection has been torn down.
    pub fn is_closed(&self) -> (r: bool)
        ensures
            r == self@.closed,
    {
        self.closed
    }

    /// Registers `handle` as the pending reply for `id`. The handle is given
    /// back when the connection is closed or `id` is already pending.
    pub fn register(&mut self, id: u64, handle: H) -> (r: Result<(), H>)
        requires
            old(self).wf(),
        ensures
            final(self).wf(),
            (r is Ok, final(self)@) == old(self)@.register(id, handle),
            r matches Err(h) ==> h == handle,
    {
        if self.closed {
            Err(handle)
        } else {
            self.pending.register(id, handle)
        }
    }

    /// Removes the pending reply for `id`, if any, without completing it.
    pub fn cancel(&mut self, id: u64) -> (r: Option<H>)
        requires
            old(self).wf(),
        ensures
            final(self).wf(),
            (r, final(self)@.pending) == resolve_spec(old(self)@.pending, id),
            final(self)@.sink == old(self)@.sink,
            final(self)@.closed == old(self)@.closed,
    {
        self.pending.resolve(id)
    }

    /// Decides what becomes of one decoded message: a reply completes the
    /// handle registered under its id, a notification goes to the sink.
    pub fn dispatch(&mut self, msg: WireMessage) -> (r: Dispatch<H>)
        requires
            old(self).wf(),
        ensures
            final(self).wf(),
            (r, final(self)@) == old(self)@.dispatch(msg),
    {
        match msg {
            WireMessage::Result { id, result } => self.reply(id, Ok(result)),
            WireMessage::Error { id, code, message } => self.reply(
                id,
                Err(BulbError::ErrResponse(code, message)),
            ),
            WireMessage::Notification { method: _, params } => {
                if self.sink.is_some() {
                    Dispatch::Notify(Notification(params))
                } else {
                    Dispatch::NoSink
                }
            },
        }
    }

    fn reply(&mut self, id: u64, outcome: Result<Response, BulbError>) -> (r: Dispatch<H>)
        requires
            old(self).wf(),
        ensures
            final(self).wf(),
            (r, final(self)@) == old(self)@.reply(id, outcome),
    {
        match self.pending.resolve(id) {
            Some(h) => Dispatch::Reply(h, outcome),
            None => Dispatch::Unmatched(id),
        }
    }

    /// The sink that notifications currently go to.
    pub fn sink(&self) -> (r: Option<&S>)
        ensures
            r is Some <==> self@.sink is Some,
            r matches Some(s) ==> self@.sink == Some(*s),
    {
        self.sink.as_ref()
    }

    /// Installs `sink` in place of the current one, which is handed back.
    pub fn set_sink(&mut self, sink: S) -> (r: Option<S>)
        requires
            old(self).wf(),
        ensures
            final(self).wf(),
            final(self)@ == old(self)@.replace_sink(sink),
            r == old(self)@.sink,
    {
        let prev = self.sink.take();
        self.sink = Some(sink);
        prev
    }

    /// Closes the connection: every pending handle is handed out, in order of
    /// registration, so that each waiting caller can be failed.
    pub fn teardown(&mut self) -> (r: Vec<H>)
        requires
            old(self).wf(),
        ensures
            final(self).wf(),
            (r@, final(self)@) == old(self)@.teardown(),
    {
        self.closed = true;
        self.pending.drain()
    }
}

} // verus!
