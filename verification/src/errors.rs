//! User-input errors of the command channel. Each is recovered locally and
//! surfaced to the caller as an `Err` reply; none is fatal.

use vstd::prelude::*;

verus! {

/// Why a command was rejected.
#[derive(Clone, Copy, Debug, PartialEq, Eq, Structural)]
pub enum CmdError {
    /// The command came with too few arguments.
    ArgumentCount,
    /// The named indicator output does not exist.
    UnknownChannel,
    /// The requested value is neither `"on"` nor `"off"`.
    InvalidValue,
    /// The command name is not part of the vocabulary.
    UnknownCommand,
}

/// The reply payload that reports this error to the host.
pub open spec fn error_payload(e: CmdError) -> Seq<char> {
    match e {
        CmdError::ArgumentCount => "invalid args number"@,
        CmdError::UnknownChannel => "invalid label"@,
        CmdError::InvalidValue => "Wrong args"@,
        CmdError::UnknownCommand => "Invalid Command"@,
    }
}

/// Error of the chunked-transfer path: the write did not fit the
/// framebuffer and was dropped. Recovered locally; the transfer continues.
#[derive(Clone, Copy, Debug, PartialEq, Eq, Structural)]
pub enum FrameError {
    Overflow,
}

impl CmdError {
    /// The reply payload for this error, always short enough for a reply.
    pub fn payload(&self) -> (r: &'static str)
        ensures
            r@ == error_payload(*self),
            r@.len() + 5 <= crate::proto_parser::REPLY_MAX,
    {
        proof {
            reveal_strlit("invalid args number");
            reveal_strlit("invalid label");
            reveal_strlit("Wrong args");
            reveal_strlit("Invalid Command");
        }
        match self {
            CmdError::ArgumentCount => "invalid args number",
            CmdError::UnknownChannel => "invalid label",
            CmdError::InvalidValue => "Wrong args",
            CmdError::UnknownCommand => "Invalid Command",
        }
    }
}

} // verus!
