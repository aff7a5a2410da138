//! The "save file" command: what the user interface asks for, what the host
//! is to write, and what the user interface is told afterwards.

use vstd::prelude::*;

verus! {

/// A request to store `data` at `path`.
///
/// The path is taken as the caller gave it: it is neither checked nor
/// confined to a directory, and the bytes are arbitrary.
#[derive(Clone, Debug)]
pub struct SaveRequest {
    pub path: String,
    pub data: Vec<u8>,
}

/// The mathematical content of a [`SaveRequest`].
pub struct SaveRequestView {
    pub path: Seq<char>,
    pub data: Seq<u8>,
}

impl View for SaveRequest {
    type V = SaveRequestView;

    open spec fn view(&self) -> SaveRequestView {
        SaveRequestView { path: self.path@, data: self.data@ }
    }
}

impl SaveRequest {
    /// Builds the request for writing `data` to `path`, changing neither.
    pub fn new(path: String, data: Vec<u8>) -> (request: SaveRequest)
        ensures
            request@ == (SaveRequestView { path: path@, data: data@ }),
    {
        SaveRequest { path, data }
    }
}

/// The one way a save can fail: the host could not write the file.
///
/// It carries the text with which the operating system described the fault.
#[derive(Clone, Debug)]
pub struct WriteFailure {
    pub message: String,
}

impl View for WriteFailure {
    type V = Seq<char>;

    open spec fn view(&self) -> Seq<char> {
        self.message@
    }
}

impl WriteFailure {
    /// Records a failed write under the operating system's own words.
    pub fn new(message: String) -> (failure: WriteFailure)
        ensures
            failure@ == message@,
    {
        WriteFailure { message }
    }

    /// The text to show to the user.
    pub fn into_message(self) -> (message: String)
        ensures
            message@ == self@,
    {
        self.message
    }
}

/// The view of a write's outcome: success, or the failure's text.
pub open spec fn outcome_view(outcome: Result<(), WriteFailure>) -> Result<(), Seq<char>> {
    match outcome {
        Ok(()) => Ok(()),
        Err(failure) => Err(failure@),
    }
}

/// The view of a reply: success, or the text handed to the user interface.
pub open spec fn reply_view(reply: Result<(), String>) -> Result<(), Seq<char>> {
    match reply {
        Ok(()) => Ok(()),
        Err(message) => Err(message@),
    }
}

/// Turns the outcome of the write into the command's reply.
///
/// A write that went through is answered with success. A failed one is
/// answered with the failure's text, unchanged; nothing else is ever raised
/// to the caller.
pub fn reply(outcome: Result<(), WriteFailure>) -> (answer: Result<(), String>)
    ensures
        reply_view(answer) == outcome_view(outcome),
{
    match outcome {
        Ok(()) => Ok(()),
        Err(failure) => Err(failure.into_message()),
    }
}

} // verus!
