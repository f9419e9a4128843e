use vstd::prelude::*;

verus! {

/// Everything that can go wrong while brokering or carrying out a transfer.
#[derive(Clone, Copy, Debug, PartialEq, Eq, Structural)]
pub enum NudgeError {
    /// A socket could not be bound, connected, written to or read from.
    Network,
    /// A wire payload did not decode.
    MalformedPayload,
    /// No pending transfer answers to the passphrase, or the proof offered for it was wrong.
    PassphraseNotFound,
    /// The passphrase generator could not produce a fresh token.
    PassphraseGenerationError,
    /// The local file could not be read or written.
    FileSystem,
    /// The transport ran out of retransmissions while waiting for an acknowledgment.
    TransportTimeout,
}

impl NudgeError {
    /// The line that tells a user what went wrong.
    pub open spec fn spec_message(self) -> Seq<char> {
        match self {
            NudgeError::Network => "network failure"@,
            NudgeError::MalformedPayload => "malformed payload"@,
            NudgeError::PassphraseNotFound => "passphrase not found"@,
            NudgeError::PassphraseGenerationError => "could not generate a passphrase"@,
            NudgeError::FileSystem => "file system failure"@,
            NudgeError::TransportTimeout => "transport timed out"@,
        }
    }

    /// The line that tells a user what went wrong.
    pub fn message(&self) -> (m: &'static str)
        ensures
            m@ == self.spec_message(),
    {
        match self {
            NudgeError::Network => "network failure",
            NudgeError::MalformedPayload => "malformed payload",
            NudgeError::PassphraseNotFound => "passphrase not found",
            NudgeError::PassphraseGenerationError => "could not generate a passphrase",
            NudgeError::FileSystem => "file system failure",
            NudgeError::TransportTimeout => "transport timed out",
        }
    }
}

} // verus!
