use crate::app::{AppError, AppEvent};
use crate::message::ServerMessage;
use crate::ticket::Ticket;
use vstd::prelude::*;

verus! {

/// Seconds between keepalive messages once a connection stands.
pub const KEEPALIVE_SECS: u64 = 30;

/// One fire-and-forget operation for the background network context.
pub enum IoRequest {
    GetTicket { username: String, password: String },
    Connect { ticket: Ticket, character: String },
}

/// The engine's handle on the background network context: requests are
/// queued here and a driver drains them, performs the blocking work off the
/// interactive thread, and republishes every outcome as an `AppEvent`.
pub struct ChatController {
    pub requests: Vec<IoRequest>,
}

impl ChatController {
    pub fn new() -> (r: ChatController)
        ensures
            r.requests@ == Seq::<IoRequest>::empty(),
    {
        ChatController { requests: Vec::new() }
    }

    /// Queue exactly one credential exchange with exactly these values.
    pub fn get_ticket(&mut self, username: String, password: String)
        ensures
            final(self).requests@ == old(self).requests@.push(
                IoRequest::GetTicket { username, password },
            ),
    {
        self.requests.push(IoRequest::GetTicket { username, password });
    }

    /// Queue exactly one connect carrying this ticket and character.
    pub fn connect(&mut self, ticket: Ticket, character: String)
        ensures
            final(self).requests@ == old(self).requests@.push(
                IoRequest::Connect { ticket, character },
            ),
    {
        self.requests.push(IoRequest::Connect { ticket, character });
    }

    /// Hand the queued requests to the driver, leaving the queue empty.
    pub fn take_requests(&mut self) -> (r: Vec<IoRequest>)
        ensures
            r@ == old(self).requests@,
            final(self).requests@ == Seq::<IoRequest>::empty(),
    {
        let mut out: Vec<IoRequest> = Vec::new();
        core::mem::swap(&mut out, &mut self.requests);
        out
    }
}

/// What the read loop does after one poll of the incoming message stream.
pub enum StreamStep {
    Publish(AppEvent),
    Stop,
}

/// The read loop's decision for one item of the incoming stream: a message is
/// republished as a chat event, a read error as a connection error (the loop
/// keeps reading), and the end of the stream stops the loop.
pub fn stream_step(item: Option<Result<ServerMessage, String>>) -> (r: StreamStep)
    ensures
        item matches Some(Ok(m)) ==> r == StreamStep::Publish(AppEvent::Chat(m)),
        item matches Some(Err(e)) ==> r == StreamStep::Publish(
            AppEvent::Error(AppError::Connection(e)),
        ),
        item is None ==> r == StreamStep::Stop,
{
    match item {
        Some(Ok(m)) => StreamStep::Publish(AppEvent::Chat(m)),
        Some(Err(e)) => StreamStep::Publish(AppEvent::Error(AppError::Connection(e))),
        None => StreamStep::Stop,
    }
}

} // verus!
