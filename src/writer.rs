//! The outbound side of a connection: correlation ids and request lines.
use vstd::prelude::*;

use crate::codec::{encode_request, request_line};
use crate::reader::{BulbError, Response};

verus! {

/// A request line together with its correlation id.
#[derive(Debug)]
pub struct Message(pub u64, pub String);

/// A request ready for transmission.
#[derive(Debug)]
pub struct Request {
    /// Its correlation id.
    pub id: u64,
    /// The line to transmit, CRLF included.
    pub line: String,
    /// Whether a pending reply is to be registered and awaited.
    pub expect_reply: bool,
}

/// Abstract state of the outbound side.
pub struct WriterState {
    /// The last id issued; 0 before the first request.
    pub counter: u64,
    /// Whether requests wait for a reply.
    pub get_response: bool,
}

/// One step of a caller's use of a writer.
pub enum WriterCall {
    /// A request, awaiting its reply or not.
    Invoke,
    /// A switch of the reply mode.
    SetGetResponse(bool),
}

impl WriterState {
    /// Issuing the next id: `None` once every id has been used.
    pub open spec fn issue(self) -> Option<(u64, WriterState)> {
        if self.counter < u64::MAX {
            let id = (self.counter + 1) as u64;
            Some((id, WriterState { counter: id, ..self }))
        } else {
            None
        }
    }

    /// The state after a sequence of calls.
    pub open spec fn run(self, calls: Seq<WriterCall>) -> WriterState
        decreases calls.len(),
    {
        if calls.len() == 0 {
            self
        } else {
            let next = match calls[0] {
                WriterCall::Invoke => match self.issue() {
                    Some((_, w)) => w,
                    None => self,
                },
                WriterCall::SetGetResponse(b) => WriterState { get_response: b, ..self },
            };
            next.run(calls.drop_first())
        }
    }

    /// The ids issued over a sequence of calls, in order.
    pub open spec fn issued(self, calls: Seq<WriterCall>) -> Seq<u64>
        decreases calls.len(),
    {
        if calls.len() == 0 {
            Seq::empty()
        } else {
            match calls[0] {
                WriterCall::Invoke => match self.issue() {
                    Some((id, w)) => seq![id] + w.issued(calls.drop_first()),
                    None => self.issued(calls.drop_first()),
                },
                WriterCall::SetGetResponse(b) => WriterState {
                    get_response: b,
                    ..self
                }.issued(calls.drop_first()),
            }
        }
    }
}

/// Assigns correlation ids and builds request lines.
pub struct Writer {
    counter: u64,
    get_response: bool,
}

impl View for Writer {
    type V = WriterState;

    closed spec fn view(&self) -> WriterState {
        WriterState { counter: self.counter, get_response: self.get_response }
    }
}

impl Writer {
    /// A writer that has issued no id and waits for replies.
    pub fn new() -> (r: Self)
        ensures
            r@.counter == 0,
            r@.get_response,
    {
        Writer { counter: 0, get_response: true }
    }

    fn get_message_id(&mut self) -> (r: Option<u64>)
        ensures
            r matches Some(id) ==> old(self)@.issue() == Some((id, final(self)@)),
            r is None ==> old(self)@.issue() is None && final(self)@ == old(self)@,
    {
        if self.counter < u64::MAX {
            self.counter = self.counter + 1;
            Some(self.counter)
        } else {
            None
        }
    }

    /// Sets whether requests wait for a reply.
    pub fn set_get_response(&mut self, get_response: bool)
        ensures
            final(self)@ == (WriterState { get_response, ..old(self)@ }),
    {
        self.get_response = get_response;
    }

    /// Whether requests wait for a reply.
    pub fn get_response(&self) -> (r: bool)
        ensures
            r == self@.get_response,
    {
        self.get_response
    }

    /// Issues the next id and builds the request line for `method` with the
    /// rendered parameters `params`; `None` once every id has been used.
    pub fn craft_message(&mut self, method: &str, params: &str) -> (r: Option<Message>)
        ensures
            r matches Some(m) ==> old(self)@.issue() == Some((m.0, final(self)@)) && m.1@
                == request_line(m.0 as nat, method@, params@),
            r is None ==> old(self)@.issue() is None && final(self)@ == old(self)@,
    {
        match self.get_message_id() {
            Some(id) => Some(Message(id, encode_request(id, method, params))),
            None => None,
        }
    }

    /// Prepares a call of `method`: its id, its line, and whether its reply is
    /// to be awaited. An id is consumed whether or not a reply is awaited.
    pub fn prepare(&mut self, method: &str, params: &str) -> (r: Option<Request>)
        ensures
            r matches Some(q) ==> old(self)@.issue() == Some((q.id, final(self)@)) && q.line@
                == request_line(q.id as nat, method@, params@) && q.expect_reply == old(
                self,
            )@.get_response,
            r is None ==> old(self)@.issue() is None && final(self)@ == old(self)@,
    {
        match self.craft_message(method, params) {
            Some(Message(id, line)) => Some(Request { id, line, expect_reply: self.get_response }),
            None => None,
        }
    }
}

/// What an invocation does once its line has been handed to the socket.
#[derive(Debug)]
pub enum AfterWrite {
    /// The invocation is over, with this result.
    Done(Result<Option<Response>, BulbError>),
    /// The reply registered for the request is to be awaited.
    AwaitReply,
}

/// The decision after transmission: a failed write is reported at once as a
/// transport error, in either mode; a fire-and-forget request then returns
/// `None`, and a request that expects a reply waits for it.
pub fn after_write(expect_reply: bool, written: Result<(), std::io::Error>) -> (r: AfterWrite)
    ensures
        written matches Err(e) ==> (r matches AfterWrite::Done(Err(BulbError::Io(x))) && x == e),
        written is Ok && !expect_reply ==> r matches AfterWrite::Done(Ok(None)),
        written is Ok && expect_reply ==> r is AwaitReply,
{
    match written {
        Err(e) => AfterWrite::Done(Err(BulbError::Io(e))),
        Ok(()) => {
            if expect_reply {
                AfterWrite::AwaitReply
            } else {
                AfterWrite::Done(Ok(None))
            }
        },
    }
}

/// The result of an awaited reply: the device's values, the device's error,
/// or `Recv` when the connection closed before a reply came.
pub fn finish(
    outcome: Result<Result<Response, BulbError>, tokio::sync::oneshot::error::RecvError>,
) -> (r: Result<Option<Response>, BulbError>)
    ensures
        outcome matches Ok(Ok(v)) ==> r == Ok::<Option<Response>, BulbError>(Some(v)),
        outcome matches Ok(Err(e)) ==> r == Err::<Option<Response>, BulbError>(e),
        outcome matches Err(e) ==> r == Err::<Option<Response>, BulbError>(BulbError::Recv(e)),
{
    match outcome {
        Ok(Ok(values)) => Ok(Some(values)),
        Ok(Err(e)) => Err(e),
        Err(e) => Err(BulbError::Recv(e)),
    }
}

} // verus!

