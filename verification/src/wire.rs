//! The rendezvous protocol's wire format.
//!
//! A message is an ASCII command tag, one space, a single-line payload and a
//! newline. The payload is JSON text, which this module carries but does not
//! read. The tag alone says who speaks to whom and about what.

use vstd::prelude::*;

verus! {

/// The space between tag and payload.
pub const SEPARATOR: u8 = 0x20;

/// The newline that ends a message.
pub const TERMINATOR: u8 = 0x0a;

/// What a rendezvous message is about, as its tag says.
#[derive(Clone, Copy, Debug, PartialEq, Eq, Structural)]
pub enum Command {
    /// `S2X_RP`: the sender asks the relay for a passphrase.
    RequestPassphrase,
    /// `X2S_PPM`: the relay tells the sender its passphrase.
    PassphraseProvided,
    /// `R2X_RFI`: the receiver asks the relay what a passphrase stands for.
    RequestFileInfo,
    /// `X2R_AFI`: the relay tells the receiver about the pending transfer.
    FileInfoAvailable,
    /// `R2X_RSC`: the receiver asks the relay to send the sender its way.
    RequestSenderConnection,
    /// `X2S_SCON`: the relay tells the sender where the receiver is.
    SenderConnectToReceiver,
}

impl Command {
    /// The tag's ASCII bytes.
    pub open spec fn spec_tag(self) -> Seq<u8> {
        match self {
            Command::RequestPassphrase => seq![0x53u8, 0x32, 0x58, 0x5f, 0x52, 0x50],
            Command::PassphraseProvided => seq![0x58u8, 0x32, 0x53, 0x5f, 0x50, 0x50, 0x4d],
            Command::RequestFileInfo => seq![0x52u8, 0x32, 0x58, 0x5f, 0x52, 0x46, 0x49],
            Command::FileInfoAvailable => seq![0x58u8, 0x32, 0x52, 0x5f, 0x41, 0x46, 0x49],
            Command::RequestSenderConnection => seq![0x52u8, 0x32, 0x58, 0x5f, 0x52, 0x53, 0x43],
            Command::SenderConnectToReceiver => seq![
                0x58u8,
                0x32,
                0x53,
                0x5f,
                0x53,
                0x43,
                0x4f,
                0x4e,
            ],
        }
    }

    /// Whether the relay serves this command. The others are its own answers.
    pub open spec fn spec_is_request(self) -> bool {
        self == Command::RequestPassphrase || self == Command::RequestFileInfo || self
            == Command::RequestSenderConnection
    }

    /// The tag's ASCII bytes.
    pub fn tag(self) -> (t: Vec<u8>)
        ensures
            t@ == self.spec_tag(),
    {
        let t: Vec<u8> = match self {
            Command::RequestPassphrase => vec![0x53u8, 0x32, 0x58, 0x5f, 0x52, 0x50],
            Command::PassphraseProvided => vec![0x58u8, 0x32, 0x53, 0x5f, 0x50, 0x50, 0x4d],
            Command::RequestFileInfo => vec![0x52u8, 0x32, 0x58, 0x5f, 0x52, 0x46, 0x49],
            Command::FileInfoAvailable => vec![0x58u8, 0x32, 0x52, 0x5f, 0x41, 0x46, 0x49],
            Command::RequestSenderConnection => vec![0x52u8, 0x32, 0x58, 0x5f, 0x52, 0x53, 0x43],
            Command::SenderConnectToReceiver => vec![
                0x58u8,
                0x32,
                0x53,
                0x5f,
                0x53,
                0x43,
                0x4f,
                0x4e,
            ],
        };
        assert(t@ =~= self.spec_tag());
        t
    }

    /// Whether the relay serves this command.
    pub fn is_request(self) -> (b: bool)
        ensures
            b == self.spec_is_request(),
    {
        match self {
            Command::RequestPassphrase => true,
            Command::RequestFileInfo => true,
            Command::RequestSenderConnection => true,
            _ => false,
        }
    }
}

/// The message that carries `payload` under the tag of `command`.
pub open spec fn spec_encode_message(command: Command, payload: Seq<u8>) -> Seq<u8> {
    command.spec_tag() + seq![SEPARATOR] + payload + seq![TERMINATOR]
}

/// Whether `message` opens with the tag of `command` and the space after it.
pub open spec fn spec_has_tag(message: Seq<u8>, command: Command) -> bool {
    let tag = command.spec_tag();
    &&& message.len() > tag.len()
    &&& message.subrange(0, tag.len() as int) == tag
    &&& message[tag.len() as int] == SEPARATOR
}

/// What follows the tag of `command` and its space in `message`, without
/// the newline at the end if there is one.
pub open spec fn spec_payload(message: Seq<u8>, command: Command) -> Seq<u8> {
    let body = message.subrange(command.spec_tag().len() as int + 1, message.len() as int);
    if body.len() > 0 && body.last() == TERMINATOR {
        body.drop_last()
    } else {
        body
    }
}

/// No message opens with two tags: a tag followed by its space is never
/// the beginning of another.
pub proof fn lemma_tags_are_distinct(message: Seq<u8>, a: Command, b: Command)
    requires
        spec_has_tag(message, a),
        spec_has_tag(message, b),
    ensures
        a == b,
{
    let ta = a.spec_tag();
    let tb = b.spec_tag();
    assert(message.subrange(0, ta.len() as int)[0] == message[0]);
    assert(message.subrange(0, tb.len() as int)[0] == message[0]);
    assert(message.subrange(0, ta.len() as int)[2] == message[2]);
    assert(message.subrange(0, tb.len() as int)[2] == message[2]);
    assert(message.subrange(0, ta.len() as int)[4] == message[4]);
    assert(message.subrange(0, tb.len() as int)[4] == message[4]);
    assert(message.subrange(0, ta.len() as int)[5] == message[5]);
    assert(message.subrange(0, tb.len() as int)[5] == message[5]);
}

/// Reading undoes writing: a written message bears the tag it was written
/// with and no other, and its payload is the one that was put in.
pub proof fn lemma_message_round_trip(command: Command, payload: Seq<u8>, other: Command)
    ensures
        spec_has_tag(spec_encode_message(command, payload), command),
        spec_payload(spec_encode_message(command, payload), command) == payload,
        spec_has_tag(spec_encode_message(command, payload), other) ==> other == command,
{
    let message = spec_encode_message(command, payload);
    let tag = command.spec_tag();
    assert(message.subrange(0, tag.len() as int) =~= tag);
    assert(message[tag.len() as int] == SEPARATOR);
    let body = message.subrange(tag.len() as int + 1, message.len() as int);
    assert(body =~= payload + seq![TERMINATOR]);
    assert(body.drop_last() =~= payload);
    if spec_has_tag(message, other) {
        lemma_tags_are_distinct(message, command, other);
    }
}

fn append(out: &mut Vec<u8>, bytes: &[u8])
    ensures
        final(out)@ == old(out)@ + bytes@,
{
    let mut i: usize = 0;
    while i < bytes.len()
        invariant
            i <= bytes.len(),
            out@ == old(out)@ + bytes@.subrange(0, i as int),
        decreases bytes.len() - i,
    {
        out.push(bytes[i]);
        i += 1;
        assert(out@ =~= old(out)@ + bytes@.subrange(0, i as int));
    }
    assert(bytes@.subrange(0, i as int) =~= bytes@);
}

/// Writes a message: the tag of `command`, a space, `payload`, a newline.
pub fn encode_message(command: Command, payload: &[u8]) -> (message: Vec<u8>)
    ensures
        message@ == spec_encode_message(command, payload@),
{
    let mut message = command.tag();
    message.push(SEPARATOR);
    append(&mut message, payload);
    message.push(TERMINATOR);
    message
}

/// Whether `message` opens with the tag of `command` and the space after it.
pub fn has_tag(message: &[u8], command: Command) -> (b: bool)
    ensures
        b == spec_has_tag(message@, command),
{
    let tag = command.tag();
    if message.len() <= tag.len() {
        return false;
    }
    let mut i: usize = 0;
    while i < tag.len()
        invariant
            i <= tag.len(),
            tag.len() < message.len(),
            tag@ == command.spec_tag(),
            message@.subrange(0, i as int) == tag@.subrange(0, i as int),
        decreases tag.len() - i,
    {
        if message[i] != tag[i] {
            assert(message@.subrange(0, tag.len() as int)[i as int] != tag@[i as int]);
            return false;
        }
        i += 1;
        assert(message@.subrange(0, i as int) =~= tag@.subrange(0, i as int));
    }
    assert(tag@.subrange(0, i as int) =~= tag@);
    message[tag.len()] == SEPARATOR
}

/// The payload of a message that bears the tag of `command`.
pub fn payload_of(message: &[u8], command: Command) -> (payload: Vec<u8>)
    requires
        spec_has_tag(message@, command),
    ensures
        payload@ == spec_payload(message@, command),
{
    let start = command.tag().len() + 1;
    let mut end = message.len();
    if end > start && message[end - 1] == TERMINATOR {
        end = end - 1;
    }
    let mut payload: Vec<u8> = Vec::new();
    let mut i: usize = start;
    while i < end
        invariant
            start <= i <= end <= message.len(),
            payload@ == message@.subrange(start as int, i as int),
        decreases end - i,
    {
        payload.push(message[i]);
        i += 1;
        assert(payload@ =~= message@.subrange(start as int, i as int));
    }
    assert(payload@ =~= spec_payload(message@, command));
    payload
}

/// Reads a message: finds the command whose tag it bears and takes out the
/// payload. A message that bears none of the six tags gives `None`.
pub fn decode_message(message: &[u8]) -> (r: Option<(Command, Vec<u8>)>)
    ensures
        match r {
            Some((command, payload)) => spec_has_tag(message@, command) && payload@
                == spec_payload(message@, command),
            None => forall|command: Command| !spec_has_tag(message@, command),
        },
{
    let command = if has_tag(message, Command::RequestPassphrase) {
        Command::RequestPassphrase
    } else if has_tag(message, Command::PassphraseProvided) {
        Command::PassphraseProvided
    } else if has_tag(message, Command::RequestFileInfo) {
        Command::RequestFileInfo
    } else if has_tag(message, Command::FileInfoAvailable) {
        Command::FileInfoAvailable
    } else if has_tag(message, Command::RequestSenderConnection) {
        Command::RequestSenderConnection
    } else if has_tag(message, Command::SenderConnectToReceiver) {
        Command::SenderConnectToReceiver
    } else {
        return None;
    };
    Some((command, payload_of(message, command)))
}

/// Reads a message that is expected to bear the tag of `expected`, and
/// takes out its payload. Any other message is malformed.
pub fn expect_message(message: &[u8], expected: Command) -> (r: Result<
    Vec<u8>,
    crate::error::NudgeError,
>)
    ensures
        match r {
            Ok(payload) => spec_has_tag(message@, expected) && payload@ == spec_payload(
                message@,
                expected,
            ),
            Err(e) => !spec_has_tag(message@, expected) && e
                == crate::error::NudgeError::MalformedPayload,
        },
{
    if has_tag(message, expected) {
        Ok(payload_of(message, expected))
    } else {
        Err(crate::error::NudgeError::MalformedPayload)
    }
}

} // verus!
