use crate::error::{Result, SamplingError};
use crate::sampling::Sample;
use vstd::prelude::*;

verus! {

/// The phase of a session with a remote function under test.
#[derive(Clone, Copy, Debug, PartialEq, Eq, Structural)]
pub enum SessionState {
    /// The client may send messages before its next request.
    Messaging,
    /// The client asked to continue: the next step is a classification.
    Requesting,
    /// The last classification fell out of bounds and must be retried.
    Incomplete,
}

/// What a session does to serve a classification request.
#[derive(Clone, Copy, Debug, PartialEq, Eq, Structural)]
pub enum RequestPlan {
    /// Announce the phase, wait for the client's continue signal, announce the
    /// phase again, then classify.
    AwaitContinue,
    /// Announce the phase, then classify.
    Classify,
    /// Classify again without announcing the phase.
    Retry,
}

/// What a session does when asked for a client message.
#[derive(Clone, Copy, Debug, PartialEq, Eq, Structural)]
pub enum MessagePlan {
    /// Announce the phase and read one message from the client.
    Receive,
    /// A request is pending: there is no message to read.
    Nothing,
}

impl SessionState {
    /// How a classification request is served in this state.
    pub fn request_plan(self) -> (r: RequestPlan)
        ensures
            self == SessionState::Messaging ==> r == RequestPlan::AwaitContinue,
            self == SessionState::Requesting ==> r == RequestPlan::Classify,
            self == SessionState::Incomplete ==> r == RequestPlan::Retry,
    {
        match self {
            SessionState::Messaging => RequestPlan::AwaitContinue,
            SessionState::Requesting => RequestPlan::Classify,
            SessionState::Incomplete => RequestPlan::Retry,
        }
    }

    /// How a request for a client message is served in this state. Messages are
    /// not expected while a request is being served.
    pub fn message_plan(self) -> (r: MessagePlan)
        requires
            self != SessionState::Requesting,
        ensures
            self == SessionState::Messaging ==> r == MessagePlan::Receive,
            self == SessionState::Incomplete ==> r == MessagePlan::Nothing,
    {
        match self {
            SessionState::Incomplete => MessagePlan::Nothing,
            _ => MessagePlan::Receive,
        }
    }

    /// The state after a classification: an out-of-bounds point leaves the
    /// request incomplete, any other outcome returns to messaging.
    pub fn after_classify<P>(self, result: &Result<Sample<P>>) -> (r: SessionState)
        ensures
            (*result matches Err(SamplingError::OutOfBounds)) ==> r == SessionState::Incomplete,
            !(*result matches Err(SamplingError::OutOfBounds)) ==> r == SessionState::Messaging,
    {
        match result {
            Err(SamplingError::OutOfBounds) => SessionState::Incomplete,
            _ => SessionState::Messaging,
        }
    }

    /// The state after a client message was read in the messaging state: the
    /// continue signal (`msg` is `None`) moves on to requesting.
    pub fn after_message(self, msg: &Option<String>) -> (r: SessionState)
        requires
            self == SessionState::Messaging,
        ensures
            msg is None ==> r == SessionState::Requesting,
            msg is Some ==> r == SessionState::Messaging,
    {
        match msg {
            None => SessionState::Requesting,
            Some(_) => SessionState::Messaging,
        }
    }
}

} // verus!
