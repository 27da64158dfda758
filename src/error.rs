use vstd::prelude::*;

verus! {

/// What a lookup did not find.
#[derive(Clone, Copy, Debug, PartialEq, Eq, Structural)]
pub enum Missing {
    User,
    Status,
    Region,
    ControlMeasure,
    Level,
    Event,
}

/// Why a request cannot be carried out in the current state.
#[derive(Clone, Copy, Debug, PartialEq, Eq, Structural)]
pub enum Invalid {
    Malformed,
    EventNotRequested,
    UnknownKind,
}

/// The ways a game operation can fail. Each leaves the player's state as it
/// was.
#[derive(Clone, Copy, Debug, PartialEq, Eq, Structural)]
pub enum GameError {
    NotFound(Missing),
    InvalidRequest(Invalid),
    InsufficientFunds,
    AlreadyApplied,
    NotApplied,
    PersistenceFailure,
    IntegrationFailure,
}

pub open spec fn error_text(e: GameError) -> Seq<char> {
    match e {
        GameError::NotFound(Missing::User) => "User not found"@,
        GameError::NotFound(Missing::Status) => "User status not found"@,
        GameError::NotFound(Missing::Region) => "Region not found"@,
        GameError::NotFound(Missing::ControlMeasure) => "Control Measure not found"@,
        GameError::NotFound(Missing::Level) => "Level not found"@,
        GameError::NotFound(Missing::Event) => "Event not found"@,
        GameError::InvalidRequest(Invalid::Malformed) => "Couldn't parse request"@,
        GameError::InvalidRequest(Invalid::EventNotRequested) => "Cannot Accept event which wasn't requested"@,
        GameError::InvalidRequest(Invalid::UnknownKind) => "Invalid request sent"@,
        GameError::InsufficientFunds => "Not enough money"@,
        GameError::AlreadyApplied => "Control measure with same level already active"@,
        GameError::NotApplied => "Control Measure was not applied"@,
        GameError::PersistenceFailure => "Internal Server Error"@,
        GameError::IntegrationFailure => "Internal Server Error"@,
    }
}

impl GameError {
    /// The message the player is shown for this error.
    pub fn message(&self) -> (r: String)
        ensures
            r@ == error_text(*self),
    {
        match self {
            GameError::NotFound(Missing::User) => "User not found".to_owned(),
            GameError::NotFound(Missing::Status) => "User status not found".to_owned(),
            GameError::NotFound(Missing::Region) => "Region not found".to_owned(),
            GameError::NotFound(Missing::ControlMeasure) => "Control Measure not found".to_owned(),
            GameError::NotFound(Missing::Level) => "Level not found".to_owned(),
            GameError::NotFound(Missing::Event) => "Event not found".to_owned(),
            GameError::InvalidRequest(Invalid::Malformed) => "Couldn't parse request".to_owned(),
            GameError::InvalidRequest(Invalid::EventNotRequested) => "Cannot Accept event which wasn't requested".to_owned(),
            GameError::InvalidRequest(Invalid::UnknownKind) => "Invalid request sent".to_owned(),
            GameError::InsufficientFunds => "Not enough money".to_owned(),
            GameError::AlreadyApplied => "Control measure with same level already active".to_owned(),
            GameError::NotApplied => "Control Measure was not applied".to_owned(),
            GameError::PersistenceFailure => "Internal Server Error".to_owned(),
            GameError::IntegrationFailure => "Internal Server Error".to_owned(),
        }
    }

    /// Whether the error comes from the server rather than from the
    /// player's request.
    pub fn is_internal(&self) -> (r: bool)
        ensures
            r == (*self == GameError::PersistenceFailure || *self == GameError::IntegrationFailure),
    {
        match self {
            GameError::PersistenceFailure | GameError::IntegrationFailure => true,
            _ => false,
        }
    }
}

} // verus!
