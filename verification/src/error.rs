use vstd::prelude::*;
use vstd::string::StringExecFns;

verus! {

/// A general error carrying a message.
#[derive(Debug)]
pub enum Error {
    Message(String),
}

/// A failure reported by an action, carrying a message.
#[derive(Debug, Clone)]
pub enum Failure {
    Message(String),
}

impl Failure {
    /// The text the failure displays.
    pub fn message(&self) -> (text: String)
        ensures
            match self {
                Failure::Message(m) => text@ == m@,
            },
    {
        match self {
            Failure::Message(m) => m.clone(),
        }
    }
}

impl Error {
    /// The text the error displays.
    pub fn message(&self) -> (text: String)
        ensures
            match self {
                Error::Message(m) => text@ == m@,
            },
    {
        match self {
            Error::Message(m) => m.clone(),
        }
    }
}

impl From<String> for Failure {
    fn from(value: String) -> (f: Failure)
    {
        Failure::Message(value)
    }
}

impl vstd::std_specs::convert::FromSpecImpl<String> for Failure {
    open spec fn obeys_from_spec() -> bool {
        true
    }

    open spec fn from_spec(v: String) -> Failure {
        Failure::Message(v)
    }
}

impl<'a> From<&'a str> for Failure {
    fn from(value: &'a str) -> (f: Failure)
    {
        Failure::from_text(value)
    }
}

/// A `Failure` built from borrowed text is described by
/// [`Failure::from_text`]; a spec value of type `String` cannot be formed
/// from a `&str`, so this conversion states nothing through `from_spec`.
impl<'a> vstd::std_specs::convert::FromSpecImpl<&'a str> for Failure {
    open spec fn obeys_from_spec() -> bool {
        false
    }

    open spec fn from_spec(v: &'a str) -> Failure {
        arbitrary()
    }
}

impl Failure {
    /// A failure whose message is `text`.
    pub fn from_text(text: &str) -> (f: Failure)
        ensures
            failure_text(f) == text@,
    {
        Failure::Message(String::from_str(text))
    }
}

/// The ways running a flow can go wrong.
#[derive(Debug)]
pub enum ExecutorError {
    /// The flow, or the node, is already complete.
    Complete,
    /// A request is in flight.
    AwaitingCompletion,
    /// No request is in flight.
    NoPendingRequest,
    InputSerialize(String),
    InputDeserialize(String),
    RequestSerialize(String),
    RequestDeserialize(String),
    OutputSerialize(String),
    OutputDeserialize(String),
    ErrorSerialize(String),
    ErrorDeserialize(String),
    EmitSerialize(String),
    EmitDeserialize(String),
    ClientTransportClosed,
    ClientTransportAckDropped,
    ClientTransport(String),
    Backend(crate::transport::BackendError),
    /// An action failed.
    ActionFailure(Failure),
    /// A run to the end was given fewer completions than it needed.
    NotEnoughCompletions,
}

/// Why a flow node refuses a request or a completion.
#[derive(Debug, Clone, Copy, PartialEq, Eq, Structural)]
pub enum Refusal {
    /// The node has finished.
    Complete,
    /// A request of the node is in flight.
    AwaitingCompletion,
    /// No request of the node is in flight.
    NoPendingRequest,
}

/// The executor error that a refusal is reported as.
pub fn refusal_error(r: Refusal) -> (e: ExecutorError)
    ensures
        match r {
            Refusal::Complete => e is Complete,
            Refusal::AwaitingCompletion => e is AwaitingCompletion,
            Refusal::NoPendingRequest => e is NoPendingRequest,
        },
{
    match r {
        Refusal::Complete => ExecutorError::Complete,
        Refusal::AwaitingCompletion => ExecutorError::AwaitingCompletion,
        Refusal::NoPendingRequest => ExecutorError::NoPendingRequest,
    }
}

/// The message of a failure.
pub open spec fn failure_text(f: Failure) -> Seq<char> {
    match f {
        Failure::Message(m) => m@,
    }
}

} // verus!
