//! The kinds of events the tool reports while it works. Rendering them —
//! colour and console output — is left to the program around the library;
//! only the classification and the fixed labels live here.

use vstd::prelude::*;

verus! {

/// The kind of one reported event: information, success, or failure.
#[derive(Debug, Clone, Copy, PartialEq, Eq, Structural)]
pub enum LogType {
    Info,
    Success,
    Failure,
}

/// The fixed label under which an event of kind `t` is rendered.
pub open spec fn label_of(t: LogType) -> Seq<char> {
    match t {
        LogType::Info => " INFO "@,
        LogType::Success => "  OK  "@,
        LogType::Failure => " ERR! "@,
    }
}

impl LogType {
    /// The label text with which an event of this kind is printed.
    pub fn label(&self) -> (r: &'static str)
        ensures
            r@ == label_of(*self),
    {
        match self {
            LogType::Info => " INFO ",
            LogType::Success => "  OK  ",
            LogType::Failure => " ERR! ",
        }
    }
}

} // verus!
