//! The stages of one call. A call only ever moves forward: it is built,
//! hashed, signed and dispatched in this order, and ends completed or failed.

use vstd::prelude::*;

verus! {

/// Where a call stands.
#[derive(Clone, Copy, Debug, PartialEq, Eq, Structural)]
pub enum Stage {
    /// The request is described.
    Built,
    /// The content hash of the body is known.
    Hashed,
    /// The signing headers are attached.
    Signed,
    /// The request is on the wire.
    Dispatched,
    /// A response came back and is normalised.
    Completed,
    /// The call ended with an error.
    Failed,
}

/// What happened to a call.
#[derive(Clone, Copy, Debug, PartialEq, Eq, Structural)]
pub enum Event {
    /// The body was hashed.
    BodyHashed,
    /// The request was signed.
    RequestSigned,
    /// The request was handed to the transport.
    RequestSent,
    /// The transport delivered a response.
    ResponseReceived,
    /// Something failed.
    ErrorRaised,
}

/// What is to be done for a call.
#[derive(Clone, Copy, Debug, PartialEq, Eq, Structural)]
pub enum Action {
    /// Hash the body.
    HashBody,
    /// Compute and attach the signing headers.
    SignRequest,
    /// Send the request.
    Dispatch,
    /// Wait for the transport, then normalise what it delivers.
    AwaitResponse,
    /// Nothing: the call is over.
    Stop,
}

impl Stage {
    /// How far a stage is from the start.
    pub open spec fn rank(self) -> nat {
        match self {
            Stage::Built => 0,
            Stage::Hashed => 1,
            Stage::Signed => 2,
            Stage::Dispatched => 3,
            Stage::Completed => 4,
            Stage::Failed => 5,
        }
    }

    /// A call that is completed or failed is over.
    pub open spec fn is_final(self) -> bool {
        self == Stage::Completed || self == Stage::Failed
    }

    /// The stage that follows from `self` on `event`, if the event can happen
    /// there. An error can end any call that is not over; every other event
    /// belongs to exactly one stage.
    pub open spec fn after(self, event: Event) -> Option<Stage> {
        match (self, event) {
            (Stage::Built, Event::BodyHashed) => Some(Stage::Hashed),
            (Stage::Hashed, Event::RequestSigned) => Some(Stage::Signed),
            (Stage::Signed, Event::RequestSent) => Some(Stage::Dispatched),
            (Stage::Dispatched, Event::ResponseReceived) => Some(Stage::Completed),
            (Stage::Built, Event::ErrorRaised) => Some(Stage::Failed),
            (Stage::Hashed, Event::ErrorRaised) => Some(Stage::Failed),
            (Stage::Signed, Event::ErrorRaised) => Some(Stage::Failed),
            (Stage::Dispatched, Event::ErrorRaised) => Some(Stage::Failed),
            _ => None,
        }
    }

    /// What is to be done at a stage.
    pub open spec fn todo(self) -> Action {
        match self {
            Stage::Built => Action::HashBody,
            Stage::Hashed => Action::SignRequest,
            Stage::Signed => Action::Dispatch,
            Stage::Dispatched => Action::AwaitResponse,
            Stage::Completed => Action::Stop,
            Stage::Failed => Action::Stop,
        }
    }

    /// Moves a call on: the next stage with what is to be done there, or
    /// nothing where the event cannot happen at this stage.
    pub fn advance(self, event: Event) -> (moved: Option<(Stage, Action)>)
        ensures
            match moved {
                Some((stage, action)) => self.after(event) == Some(stage) && action == stage.todo(),
                None => self.after(event) is None,
            },
    {
        let next = match (self, event) {
            (Stage::Built, Event::BodyHashed) => Stage::Hashed,
            (Stage::Hashed, Event::RequestSigned) => Stage::Signed,
            (Stage::Signed, Event::RequestSent) => Stage::Dispatched,
            (Stage::Dispatched, Event::ResponseReceived) => Stage::Completed,
            (Stage::Completed, _) => {
                return None;
            },
            (Stage::Failed, _) => {
                return None;
            },
            (_, Event::ErrorRaised) => Stage::Failed,
            _ => {
                return None;
            },
        };
        Some((next, next.action()))
    }

    /// What is to be done at a stage.
    pub fn action(self) -> (action: Action)
        ensures
            action == self.todo(),
    {
        match self {
            Stage::Built => Action::HashBody,
            Stage::Hashed => Action::SignRequest,
            Stage::Signed => Action::Dispatch,
            Stage::Dispatched => Action::AwaitResponse,
            Stage::Completed => Action::Stop,
            Stage::Failed => Action::Stop,
        }
    }
}

/// Every step leads strictly forward, so no call comes back to a stage that it
/// has left; and a call that is over takes no further step.
pub proof fn lemma_stages_one_way(stage: Stage, event: Event)
    ensures
        stage.after(event) matches Some(next) ==> next.rank() > stage.rank(),
        stage.is_final() ==> stage.after(event) is None,
        stage.is_final() <==> stage.todo() == Action::Stop,
{
}

} // verus!
