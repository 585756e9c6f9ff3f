//! The hand-over of actions between the control side and the bus runner.
//!
//! At most one action is in flight. The control side issues it; the runner
//! takes it, performs it on the chip and answers it; the control side then
//! sees it complete. An action can also answer with a stream of chunks.
//! The async plumbing (wakers, futures) lives around this state machine: each
//! function here is one poll or one step of it.

use vstd::prelude::*;
use crate::error::Error;
use crate::bounded::{
    STREAM_CAP, STREAM_CHUNK_CAP, StreamResponse, StreamResponseChannel, chunk_bytes, queued_chunks, chunk_new,
    chunk_extend_from_slice, channel_new, channel_clear, channel_try_send, channel_try_receive,
};

verus! {

/// Information that the runner can read out of the chip.
#[derive(Clone, Copy, Debug, PartialEq, Eq, Structural)]
pub enum Item {
    UmacInfo,
}

/// An action that the control side hands to the runner.
///
/// A response buffer is given by its capacity in bytes: a response that fits
/// it is kept by the action state until the control side takes it.
#[derive(Debug)]
pub enum Action {
    /// Load the firmware image.
    Boot(Vec<u8>),
    /// Send a command: message type, whether the runner waits for the chip's
    /// answer, the encoded command, and the capacity of the response buffer.
    Command((u32, bool, Vec<u8>, Option<usize>)),
    /// Read an item into a response buffer of the given capacity.
    Get((Item, usize)),
    /// Wait until the chip reports that the running operation is done.
    WaitForDone,
}

/// What an action holds, as plain mathematical values.
pub enum ActionView {
    Boot(Seq<u8>),
    Command(u32, bool, Seq<u8>, Option<usize>),
    Get(Item, usize),
    WaitForDone,
}

impl View for Action {
    type V = ActionView;

    open spec fn view(&self) -> ActionView {
        match self {
            Action::Boot(image) => ActionView::Boot(image@),
            Action::Command((msg_type, wait, payload, buffer)) => ActionView::Command(
                *msg_type,
                *wait,
                payload@,
                *buffer,
            ),
            Action::Get((item, buffer)) => ActionView::Get(*item, *buffer),
            Action::WaitForDone => ActionView::WaitForDone,
        }
    }
}

impl ActionView {
    /// The response buffer that the action reserves, by capacity.
    pub open spec fn response_buffer(self) -> Option<usize> {
        match self {
            ActionView::Command(_, _, _, buffer) => buffer,
            ActionView::Get(_, buffer) => Some(buffer),
            _ => None,
        }
    }
}

/// The phase of the action in flight.
pub enum Phase {
    /// Issued and waiting for the runner.
    Pending(ActionView),
    /// Taken by the runner, which has not answered yet.
    Sent { response_buffer: Option<usize> },
    /// Nothing in flight: the last action ended with `result`, and `response`
    /// holds the bytes that it delivered into its response buffer.
    Done { result: Result<Option<usize>, Error>, response: Seq<u8> },
}

/// The whole state: the phase, and the chunks queued on the stream.
pub struct ActionStateView {
    pub phase: Phase,
    pub chunks: Seq<Seq<u8>>,
}

/// What a poll of a response stream yields.
pub enum StreamPoll {
    /// Nothing yet: poll again once woken.
    Pending,
    /// The next item: a chunk, the error that ended the stream, or the end.
    Ready(Option<Result<Seq<u8>, Error>>),
}

/// A runner's answer, as plain values.
pub open spec fn answer_view(result: Result<Option<Vec<u8>>, Error>) -> Result<Option<Seq<u8>>, Error> {
    match result {
        Ok(Some(data)) => Ok(Some(data@)),
        Ok(None) => Ok(None),
        Err(e) => Err(e),
    }
}

/// How an action ends, given the runner's answer and its response buffer:
/// data is delivered only into a buffer that holds all of it.
pub open spec fn answer_result(answer: Result<Option<Seq<u8>>, Error>, response_buffer: Option<usize>) -> Result<
    Option<usize>,
    Error,
> {
    match answer {
        Ok(Some(data)) => match response_buffer {
            Some(capacity) => if capacity < data.len() {
                Err(Error::BufferTooSmall)
            } else {
                Ok(Some(data.len() as usize))
            },
            None => Ok(None),
        },
        Ok(None) => Ok(None),
        Err(e) => Err(e),
    }
}

/// The bytes that end up in the response buffer.
pub open spec fn answer_delivery(answer: Result<Option<Seq<u8>>, Error>, response_buffer: Option<usize>) -> Seq<u8> {
    match answer {
        Ok(Some(data)) => match response_buffer {
            Some(capacity) => if capacity < data.len() {
                Seq::empty()
            } else {
                data
            },
            None => Seq::empty(),
        },
        _ => Seq::empty(),
    }
}

impl ActionStateView {
    /// The state of a fresh action state, and after a cancel.
    pub open spec fn idle(chunks: Seq<Seq<u8>>) -> ActionStateView {
        ActionStateView { phase: Phase::Done { result: Ok(None), response: Seq::empty() }, chunks }
    }

    pub open spec fn is_done(self) -> bool {
        self.phase is Done
    }

    pub open spec fn is_sent(self) -> bool {
        self.phase is Sent
    }

    /// What a wait for completion yields: the result once nothing is in flight.
    pub open spec fn completion(self) -> Option<Result<Option<usize>, Error>> {
        match self.phase {
            Phase::Done { result, .. } => Some(result),
            _ => None,
        }
    }

    /// The bytes delivered by the last completed action.
    pub open spec fn delivered(self) -> Seq<u8> {
        match self.phase {
            Phase::Done { response, .. } => response,
            _ => Seq::empty(),
        }
    }

    /// The action waiting for the runner, if any.
    pub open spec fn pending_action(self) -> Option<ActionView> {
        match self.phase {
            Phase::Pending(action) => Some(action),
            _ => None,
        }
    }

    /// Whether an issue is accepted: only when nothing is in flight.
    pub open spec fn issue_outcome(self) -> Result<(), Error> {
        if self.is_done() {
            Ok(())
        } else {
            Err(Error::Busy)
        }
    }

    pub open spec fn after_issue(self, action: ActionView) -> ActionStateView {
        if self.is_done() {
            ActionStateView { phase: Phase::Pending(action), chunks: self.chunks }
        } else {
            self
        }
    }

    pub open spec fn after_issue_stream(self, action: ActionView) -> ActionStateView {
        if self.is_done() {
            ActionStateView { phase: Phase::Pending(action), chunks: Seq::empty() }
        } else {
            self
        }
    }

    pub open spec fn after_wait_pending(self) -> ActionStateView {
        match self.phase {
            Phase::Pending(action) => ActionStateView {
                phase: Phase::Sent { response_buffer: action.response_buffer() },
                chunks: self.chunks,
            },
            _ => self,
        }
    }

    pub open spec fn after_cancel(self) -> ActionStateView {
        ActionStateView::idle(self.chunks)
    }

    /// An answer ends the action that the runner took; any other time it is ignored.
    pub open spec fn after_respond(self, answer: Result<Option<Seq<u8>>, Error>) -> ActionStateView {
        match self.phase {
            Phase::Sent { response_buffer } => ActionStateView {
                phase: Phase::Done {
                    result: answer_result(answer, response_buffer),
                    response: answer_delivery(answer, response_buffer),
                },
                chunks: self.chunks,
            },
            _ => self,
        }
    }

    /// Whether a chunk is accepted on the stream.
    pub open spec fn respond_stream_outcome(self, data: Seq<u8>) -> Result<(), Error> {
        if !self.is_sent() {
            Err(Error::InvalidState)
        } else if data.len() > STREAM_CHUNK_CAP {
            Err(Error::BufferTooSmall)
        } else if self.chunks.len() >= STREAM_CAP {
            Err(Error::StreamTooSmall)
        } else {
            Ok(())
        }
    }

    pub open spec fn after_respond_stream(self, data: Seq<u8>) -> ActionStateView {
        if self.respond_stream_outcome(data) is Ok {
            ActionStateView { phase: self.phase, chunks: self.chunks.push(data) }
        } else {
            self
        }
    }

    pub open spec fn after_finish_stream(self, result: Result<Option<usize>, Error>) -> ActionStateView {
        ActionStateView { phase: Phase::Done { result, response: Seq::empty() }, chunks: self.chunks }
    }

    /// What a poll of a stream yields: nothing once the stream has ended;
    /// queued chunks first, oldest first; then the end of the action.
    pub open spec fn stream_poll(self, ended: bool) -> StreamPoll {
        if ended {
            StreamPoll::Ready(None)
        } else if self.chunks.len() > 0 {
            StreamPoll::Ready(Some(Ok(self.chunks[0])))
        } else {
            match self.phase {
                Phase::Done { result, .. } => match result {
                    Ok(_) => StreamPoll::Ready(None),
                    Err(e) => StreamPoll::Ready(Some(Err(e))),
                },
                _ => StreamPoll::Pending,
            }
        }
    }

    /// Whether the stream has ended after the poll.
    pub open spec fn stream_ended_after_poll(self, ended: bool) -> bool {
        ended || (self.chunks.len() == 0 && self.is_done())
    }

    /// The state after a poll of a stream: a chunk that was yielded leaves the queue.
    pub open spec fn after_stream_poll(self, ended: bool) -> ActionStateView {
        if !ended && self.chunks.len() > 0 {
            ActionStateView { phase: self.phase, chunks: self.chunks.drop_first() }
        } else {
            self
        }
    }
}

/// What a poll of a stream yielded, as plain values; `None` stands for pending.
pub open spec fn stream_poll_view(r: Option<Option<Result<StreamResponse, Error>>>) -> StreamPoll {
    match r {
        None => StreamPoll::Pending,
        Some(None) => StreamPoll::Ready(None),
        Some(Some(Ok(chunk))) => StreamPoll::Ready(Some(Ok(chunk_bytes(chunk)))),
        Some(Some(Err(e))) => StreamPoll::Ready(Some(Err(e))),
    }
}

enum ActionStateInner {
    Pending(Action),
    Sent { response_buffer: Option<usize> },
    Done { result: Result<Option<usize>, Error>, response: Vec<u8> },
}

impl ActionStateInner {
    spec fn phase(&self) -> Phase {
        match self {
            ActionStateInner::Pending(action) => Phase::Pending(action@),
            ActionStateInner::Sent { response_buffer } => Phase::Sent {
                response_buffer: *response_buffer,
            },
            ActionStateInner::Done { result, response } => Phase::Done {
                result: *result,
                response: response@,
            },
        }
    }
}

/// The state shared by the control side and the runner.
pub struct ActionState {
    state: ActionStateInner,
    chan: StreamResponseChannel,
}

impl View for ActionState {
    type V = ActionStateView;

    closed spec fn view(&self) -> ActionStateView {
        ActionStateView { phase: self.state.phase(), chunks: queued_chunks(self.chan) }
    }
}

/// How an action ends, given the runner's answer and the capacity of its
/// response buffer, with the bytes that the buffer receives.
pub fn get_result(result: Result<Option<Vec<u8>>, Error>, response_buffer: Option<usize>) -> (r: (
    Result<Option<usize>, Error>,
    Vec<u8>,
))
    ensures
        r.0 == answer_result(answer_view(result), response_buffer),
        r.1@ == answer_delivery(answer_view(result), response_buffer),
{
    match result {
        Ok(Some(result_data)) => match response_buffer {
            Some(capacity) => {
                let result_data_length = result_data.len();
                if capacity < result_data_length {
                    return (Err(Error::BufferTooSmall), Vec::new());
                }
                (Ok(Some(result_data_length)), result_data)
            },
            None => (Ok(None), Vec::new()),
        },
        Ok(None) => (Ok(None), Vec::new()),
        Err(e) => (Err(e), Vec::new()),
    }
}

impl ActionState {
    /// A state with nothing in flight and an empty stream.
    pub fn new() -> (s: ActionState)
        ensures
            s@ == ActionStateView::idle(Seq::empty()),
    {
        ActionState {
            state: ActionStateInner::Done { result: Ok(None), response: Vec::new() },
            chan: channel_new(),
        }
    }

    /// One poll of the wait for completion: the result once nothing is in
    /// flight, `None` while the action is pending or taken.
    pub fn wait_complete(&self) -> (r: Option<Result<Option<usize>, Error>>)
        ensures
            r == self@.completion(),
    {
        match &self.state {
            ActionStateInner::Done { result, .. } => Some(*result),
            _ => None,
        }
    }

    /// One poll of the runner's wait for work: takes the pending action, if
    /// any, and records that it was sent, with its response buffer.
    pub fn wait_pending(&mut self) -> (r: Option<Action>)
        ensures
            r is Some <==> old(self)@.pending_action() is Some,
            r matches Some(action) ==> old(self)@.pending_action() == Some(action@),
            final(self)@ == old(self)@.after_wait_pending(),
    {
        if let ActionStateInner::Pending(_) = &self.state {
            let mut taken = ActionStateInner::Sent { response_buffer: None };
            core::mem::swap(&mut taken, &mut self.state);
            match taken {
                ActionStateInner::Pending(pending) => {
                    let response_buffer = match &pending {
                        Action::Command((_, _, _, response_buffer)) => *response_buffer,
                        Action::Get((_, response_buffer)) => Some(*response_buffer),
                        _ => None,
                    };
                    self.state = ActionStateInner::Sent { response_buffer };
                    Some(pending)
                },
                _ => None,
            }
        } else {
            None
        }
    }

    /// Ends whatever is in flight, as if it had completed with `Ok(None)`.
    pub fn cancel(&mut self)
        ensures
            final(self)@ == old(self)@.after_cancel(),
    {
        self.state = ActionStateInner::Done { result: Ok(None), response: Vec::new() };
    }

    /// Issues an action: refused with `Busy` while another is in flight.
    /// The control side then waits for completion.
    pub fn issue(&mut self, action: Action) -> (r: Result<(), Error>)
        ensures
            r == old(self)@.issue_outcome(),
            final(self)@ == old(self)@.after_issue(action@),
    {
        if !matches!(self.state, ActionStateInner::Done { .. }) {
            return Err(Error::Busy);
        }
        self.state = ActionStateInner::Pending(action);
        Ok(())
    }

    /// The runner's answer to the action it took. The action completes with
    /// the answer; data is kept only if it fits the response buffer. An answer
    /// while no action is taken is ignored. Returns whether the answer ended
    /// an action, that is, whether the control side has a completion to see.
    pub fn respond(&mut self, result: Result<Option<Vec<u8>>, Error>) -> (acked: bool)
        ensures
            acked == old(self)@.is_sent(),
            final(self)@ == old(self)@.after_respond(answer_view(result)),
    {
        if let ActionStateInner::Sent { response_buffer } = self.state {
            let (outcome, delivered) = get_result(result, response_buffer);
            self.state = ActionStateInner::Done { result: outcome, response: delivered };
            true
        } else {
            false
        }
    }

    /// Takes the bytes that the last completed action delivered into its
    /// response buffer (none while an action is in flight).
    pub fn take_response(&mut self) -> (r: Vec<u8>)
        ensures
            r@ == old(self)@.delivered(),
            final(self)@.phase == (match old(self)@.phase {
                Phase::Done { result, .. } => Phase::Done { result, response: Seq::empty() },
                other => other,
            }),
            final(self)@.chunks == old(self)@.chunks,
    {
        match &mut self.state {
            ActionStateInner::Done { response, .. } => {
                let mut taken = Vec::new();
                core::mem::swap(&mut taken, response);
                taken
            },
            _ => Vec::new(),
        }
    }

    /// Issues an action that answers with a stream of chunks: refused with
    /// `Busy` while another action is in flight; otherwise the stream starts empty.
    pub fn issue_stream(&mut self, action: Action) -> (r: Result<ResponseStream, Error>)
        ensures
            r is Ok <==> old(self)@.issue_outcome() is Ok,
            r matches Err(e) ==> old(self)@.issue_outcome() == Err::<(), Error>(e),
            r matches Ok(stream) ==> !stream.ended(),
            final(self)@ == old(self)@.after_issue_stream(action@),
    {
        if !matches!(self.state, ActionStateInner::Done { .. }) {
            return Err(Error::Busy);
        }
        channel_clear(&mut self.chan);
        self.state = ActionStateInner::Pending(action);
        Ok(ResponseStream { done: false })
    }

    /// Sends one chunk on the stream of the action that the runner took.
    pub fn respond_stream(&mut self, response: &[u8]) -> (r: Result<(), Error>)
        ensures
            r == old(self)@.respond_stream_outcome(response@),
            final(self)@ == old(self)@.after_respond_stream(response@),
    {
        match &self.state {
            ActionStateInner::Sent { .. } => {
                let mut v = chunk_new();
                if chunk_extend_from_slice(&mut v, response).is_err() {
                    return Err(Error::BufferTooSmall);
                }
                if channel_try_send(&mut self.chan, v).is_err() {
                    return Err(Error::StreamTooSmall);
                }
            },
            _ => return Err(Error::InvalidState),
        }
        Ok(())
    }

    /// Ends a streamed action with `result`.
    pub fn finish_stream(&mut self, result: Result<Option<usize>, Error>)
        ensures
            final(self)@ == old(self)@.after_finish_stream(result),
    {
        self.state = ActionStateInner::Done { result, response: Vec::new() };
    }
}

/// The reading end of a streamed action.
pub struct ResponseStream {
    done: bool,
}

impl ResponseStream {
    /// Whether the stream has yielded its end.
    pub closed spec fn ended(&self) -> bool {
        self.done
    }

    /// One poll of the stream; `None` stands for pending.
    pub fn poll_next(&mut self, state: &mut ActionState) -> (r: Option<Option<Result<StreamResponse, Error>>>)
        ensures
            stream_poll_view(r) == old(state)@.stream_poll(old(self).ended()),
            final(self).ended() == old(state)@.stream_ended_after_poll(old(self).ended()),
            final(state)@ == old(state)@.after_stream_poll(old(self).ended()),
    {
        if self.done {
            return Some(None);
        }
        if let Some(chunk) = channel_try_receive(&mut state.chan) {
            return Some(Some(Ok(chunk)));
        }
        if let ActionStateInner::Done { result, .. } = &state.state {
            self.done = true;
            return match result {
                Ok(_) => Some(None),
                Err(e) => Some(Some(Err(*e))),
            };
        }
        None
    }
}

} // verus!
