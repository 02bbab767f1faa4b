//! Error type of the engine.

use vstd::prelude::*;
use vstd::string::StringExecFns;

verus! {

/// Engine error.
#[derive(Debug)]
pub enum EngineError {
    InvalidAction(String),
    IllegalAction(String),
    InvalidCard(String),
    InvalidTarget(String),
    NotEnoughEnergy { needed: String, available: String },
    CannotEvolve(String),
    CannotRetreat(String),
    CannotAttack(String),
    GameOver,
    InvalidState(String),
    UnknownCard(String),
    UnsupportedCard(String),
    InvalidDeck(String),
    Serialization(String),
}

/// The variant of an engine error, without its text.
#[derive(Debug, Clone, Copy, PartialEq, Eq, Structural)]
pub enum ErrorKind {
    InvalidAction,
    IllegalAction,
    InvalidCard,
    InvalidTarget,
    NotEnoughEnergy,
    CannotEvolve,
    CannotRetreat,
    CannotAttack,
    GameOver,
    InvalidState,
    UnknownCard,
    UnsupportedCard,
    InvalidDeck,
    Serialization,
}

/// An error as the contracts speak of it: its variant and its text.
pub type ErrorView = (ErrorKind, Seq<char>);

pub open spec fn err(kind: ErrorKind, text: Seq<char>) -> Option<ErrorView> {
    Some((kind, text))
}

/// `r` is an error of kind `kind` with text `text`.
pub open spec fn is_err<T>(r: EngineResult<T>, kind: ErrorKind, text: Seq<char>) -> bool {
    match r {
        Err(e) => e.spec_view() == (kind, text),
        Ok(_) => false,
    }
}

impl EngineError {
    pub open spec fn kind(&self) -> ErrorKind {
        match self {
            EngineError::InvalidAction(_) => ErrorKind::InvalidAction,
            EngineError::IllegalAction(_) => ErrorKind::IllegalAction,
            EngineError::InvalidCard(_) => ErrorKind::InvalidCard,
            EngineError::InvalidTarget(_) => ErrorKind::InvalidTarget,
            EngineError::NotEnoughEnergy { .. } => ErrorKind::NotEnoughEnergy,
            EngineError::CannotEvolve(_) => ErrorKind::CannotEvolve,
            EngineError::CannotRetreat(_) => ErrorKind::CannotRetreat,
            EngineError::CannotAttack(_) => ErrorKind::CannotAttack,
            EngineError::GameOver => ErrorKind::GameOver,
            EngineError::InvalidState(_) => ErrorKind::InvalidState,
            EngineError::UnknownCard(_) => ErrorKind::UnknownCard,
            EngineError::UnsupportedCard(_) => ErrorKind::UnsupportedCard,
            EngineError::InvalidDeck(_) => ErrorKind::InvalidDeck,
            EngineError::Serialization(_) => ErrorKind::Serialization,
        }
    }

    /// The text carried by the error (for `NotEnoughEnergy`, the needed energy).
    pub open spec fn text(&self) -> Seq<char> {
        match self {
            EngineError::InvalidAction(m) => m@,
            EngineError::IllegalAction(m) => m@,
            EngineError::InvalidCard(m) => m@,
            EngineError::InvalidTarget(m) => m@,
            EngineError::NotEnoughEnergy { needed, .. } => needed@,
            EngineError::CannotEvolve(m) => m@,
            EngineError::CannotRetreat(m) => m@,
            EngineError::CannotAttack(m) => m@,
            EngineError::GameOver => Seq::empty(),
            EngineError::InvalidState(m) => m@,
            EngineError::UnknownCard(m) => m@,
            EngineError::UnsupportedCard(m) => m@,
            EngineError::InvalidDeck(m) => m@,
            EngineError::Serialization(m) => m@,
        }
    }

    pub open spec fn spec_view(&self) -> ErrorView {
        (self.kind(), self.text())
    }

    /// The full message of the error.
    pub open spec fn spec_message(&self) -> Seq<char> {
        match self {
            EngineError::InvalidAction(m) => "Invalid action: "@ + m@,
            EngineError::IllegalAction(m) => "Illegal action: "@ + m@,
            EngineError::InvalidCard(m) => "Invalid card: "@ + m@,
            EngineError::InvalidTarget(m) => "Invalid target: "@ + m@,
            EngineError::NotEnoughEnergy { needed, available } => "Not enough energy: need "@ + needed@
                + ", have "@ + available@,
            EngineError::CannotEvolve(m) => "Cannot evolve: "@ + m@,
            EngineError::CannotRetreat(m) => "Cannot retreat: "@ + m@,
            EngineError::CannotAttack(m) => "Cannot attack: "@ + m@,
            EngineError::GameOver => "Game already over"@,
            EngineError::InvalidState(m) => "Invalid game state: "@ + m@,
            EngineError::UnknownCard(m) => "Unknown card definition: "@ + m@,
            EngineError::UnsupportedCard(m) => "Unsupported card: "@ + m@,
            EngineError::InvalidDeck(m) => "Invalid deck: "@ + m@,
            EngineError::Serialization(m) => "Serialization error: "@ + m@,
        }
    }

    /// The full message of the error.
    pub fn message(&self) -> (r: String)
        ensures
            r@ == self.spec_message(),
    {
        match self {
            EngineError::InvalidAction(m) => prefixed("Invalid action: ", m),
            EngineError::IllegalAction(m) => prefixed("Illegal action: ", m),
            EngineError::InvalidCard(m) => prefixed("Invalid card: ", m),
            EngineError::InvalidTarget(m) => prefixed("Invalid target: ", m),
            EngineError::NotEnoughEnergy { needed, available } => {
                let mut s = prefixed("Not enough energy: need ", needed);
                s.append(", have ");
                s.append(available.as_str());
                s
            },
            EngineError::CannotEvolve(m) => prefixed("Cannot evolve: ", m),
            EngineError::CannotRetreat(m) => prefixed("Cannot retreat: ", m),
            EngineError::CannotAttack(m) => prefixed("Cannot attack: ", m),
            EngineError::GameOver => String::from_str("Game already over"),
            EngineError::InvalidState(m) => prefixed("Invalid game state: ", m),
            EngineError::UnknownCard(m) => prefixed("Unknown card definition: ", m),
            EngineError::UnsupportedCard(m) => prefixed("Unsupported card: ", m),
            EngineError::InvalidDeck(m) => prefixed("Invalid deck: ", m),
            EngineError::Serialization(m) => prefixed("Serialization error: ", m),
        }
    }

    /// An `InvalidAction` error with the given text.
    pub fn invalid_action(text: &str) -> (r: Self)
        ensures
            r.spec_view() == (ErrorKind::InvalidAction, text@),
    {
        EngineError::InvalidAction(String::from_str(text))
    }

    pub fn invalid_card(text: &str) -> (r: Self)
        ensures
            r.spec_view() == (ErrorKind::InvalidCard, text@),
    {
        EngineError::InvalidCard(String::from_str(text))
    }

    pub fn invalid_target(text: &str) -> (r: Self)
        ensures
            r.spec_view() == (ErrorKind::InvalidTarget, text@),
    {
        EngineError::InvalidTarget(String::from_str(text))
    }

    pub fn cannot_evolve(text: &str) -> (r: Self)
        ensures
            r.spec_view() == (ErrorKind::CannotEvolve, text@),
    {
        EngineError::CannotEvolve(String::from_str(text))
    }

    pub fn cannot_retreat(text: &str) -> (r: Self)
        ensures
            r.spec_view() == (ErrorKind::CannotRetreat, text@),
    {
        EngineError::CannotRetreat(String::from_str(text))
    }

    pub fn cannot_attack(text: &str) -> (r: Self)
        ensures
            r.spec_view() == (ErrorKind::CannotAttack, text@),
    {
        EngineError::CannotAttack(String::from_str(text))
    }
}

fn prefixed(prefix: &str, m: &String) -> (r: String)
    ensures
        r@ == prefix@ + m@,
{
    let mut s = String::from_str(prefix);
    s.append(m.as_str());
    s
}

/// Result of an engine operation.
pub type EngineResult<T> = core::result::Result<T, EngineError>;

/// Turn a failure into an `IllegalAction` error with the given text.
pub trait ActionResult<T>: Sized {
    fn illegal(self, message: &str) -> EngineResult<T>;
}

impl<T> ActionResult<T> for core::result::Result<T, EngineError> {
    fn illegal(self, message: &str) -> (r: EngineResult<T>)
        ensures
            match self {
                Ok(v) => r == Ok::<T, EngineError>(v),
                Err(_) => r matches Err(e) && e.spec_view() == (ErrorKind::IllegalAction, message@),
            },
    {
        match self {
            Ok(v) => Ok(v),
            Err(_) => Err(EngineError::IllegalAction(String::from_str(message))),
        }
    }
}

impl<T> ActionResult<T> for Option<T> {
    fn illegal(self, message: &str) -> (r: EngineResult<T>)
        ensures
            match self {
                Some(v) => r == Ok::<T, EngineError>(v),
                None => r matches Err(e) && e.spec_view() == (ErrorKind::IllegalAction, message@),
            },
    {
        match self {
            Some(v) => Ok(v),
            None => Err(EngineError::IllegalAction(String::from_str(message))),
        }
    }
}

} // verus!
