//! The status that a failed call hands back to its caller.

use vstd::prelude::*;

verus! {

/// What kind of failure a caller is told about.
#[derive(Clone, Copy, Debug, PartialEq, Eq, Hash, Structural)]
pub enum Code {
    /// A required message or field was absent: the caller must send other input.
    InvalidArgument,
    /// The engine failed: the caller may send the same request again later.
    Unavailable,
    /// The engine broke its own promise: no input of the caller is at fault.
    Internal,
}

/// A [`Status`] as a mathematical value.
pub struct StatusView {
    pub code: Code,
    pub message: Seq<char>,
}

/// A failure as the caller sees it: a kind and a text for humans.
#[derive(Clone, Debug, PartialEq, Eq)]
pub struct Status {
    pub code: Code,
    pub message: String,
}

impl View for Status {
    type V = StatusView;

    open spec fn view(&self) -> StatusView {
        StatusView { code: self.code, message: self.message@ }
    }
}

impl DeepView for Status {
    type V = StatusView;

    open spec fn deep_view(&self) -> StatusView {
        self@
    }
}

/// What a fallible step hands back, as a mathematical value.
pub open spec fn outcome<T: DeepView, E: DeepView>(r: Result<T, E>) -> Result<T::V, E::V> {
    match r {
        Ok(value) => Ok(value.deep_view()),
        Err(error) => Err(error.deep_view()),
    }
}

/// The status of kind `InvalidArgument` with the given text.
pub open spec fn invalid_argument(message: Seq<char>) -> StatusView {
    StatusView { code: Code::InvalidArgument, message }
}

/// The status of kind `Unavailable` with the given text.
pub open spec fn unavailable(message: Seq<char>) -> StatusView {
    StatusView { code: Code::Unavailable, message }
}

/// The status of kind `Internal` with the given text.
pub open spec fn internal(message: Seq<char>) -> StatusView {
    StatusView { code: Code::Internal, message }
}

impl Status {
    /// A caller left out something that the call requires.
    pub fn invalid_argument(message: String) -> (status: Status)
        ensures
            status@ == invalid_argument(message@),
    {
        Status { code: Code::InvalidArgument, message }
    }

    /// The engine could not serve the call.
    pub fn unavailable(message: String) -> (status: Status)
        ensures
            status@ == unavailable(message@),
    {
        Status { code: Code::Unavailable, message }
    }

    /// The engine returned something that it promised never to return.
    pub fn internal(message: String) -> (status: Status)
        ensures
            status@ == internal(message@),
    {
        Status { code: Code::Internal, message }
    }
}

} // verus!
