//! The errors of the dispatcher and of a conversational turn.

use vstd::prelude::*;

verus! {

/// Why a tool call of the assistant could not be applied to the order. Such
/// an error ends the tool call, not the turn.
#[derive(Clone, Copy, Debug, PartialEq, Eq, Structural)]
pub enum DispatchError {
    /// The call names none of the functions on offer
    UnknownFunction,
    /// The payload does not have the shape that the function asks for
    BadArguments,
    /// The order holds no item with the id that the call names
    ItemNotFound,
}

impl DispatchError {
    /// A short description, fit to be reported back to the assistant.
    pub fn to_string(&self) -> (text: String)
        ensures
            text@ == self.description(),
    {
        match self {
            DispatchError::UnknownFunction => "unknown function".to_owned(),
            DispatchError::BadArguments => "invalid function arguments".to_owned(),
            DispatchError::ItemNotFound => "item not found".to_owned(),
        }
    }

    /// The description of this error.
    pub open spec fn description(&self) -> Seq<char> {
        match self {
            DispatchError::UnknownFunction => "unknown function"@,
            DispatchError::BadArguments => "invalid function arguments"@,
            DispatchError::ItemNotFound => "item not found"@,
        }
    }
}

/// Why a conversational turn failed. Such an error ends the turn; nothing is
/// tried again.
#[derive(Debug, PartialEq, Eq)]
pub enum TurnError {
    /// The assistant service could not be reached or did not answer properly;
    /// the text says what went wrong
    ServiceError(String),
    /// The service answered against the protocol: it asked for tools to be
    /// run and named none, or it answered something that was not asked
    ProtocolViolation,
    /// The service ended the turn in the status that the text names
    UpstreamFailed(String),
}

/// What a turn error holds.
pub enum TurnErrorView {
    ServiceError(Seq<char>),
    ProtocolViolation,
    UpstreamFailed(Seq<char>),
}

impl View for TurnError {
    type V = TurnErrorView;

    open spec fn view(&self) -> TurnErrorView {
        match self {
            TurnError::ServiceError(detail) => TurnErrorView::ServiceError(detail@),
            TurnError::ProtocolViolation => TurnErrorView::ProtocolViolation,
            TurnError::UpstreamFailed(status) => TurnErrorView::UpstreamFailed(status@),
        }
    }
}

impl Clone for TurnError {
    fn clone(&self) -> (copy: Self)
        ensures
            copy@ == self@,
    {
        match self {
            TurnError::ServiceError(detail) => TurnError::ServiceError(detail.clone()),
            TurnError::ProtocolViolation => TurnError::ProtocolViolation,
            TurnError::UpstreamFailed(status) => TurnError::UpstreamFailed(status.clone()),
        }
    }
}

} // verus!
