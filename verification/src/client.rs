//! What the two peers decide on their way from the relay to each other.
//!
//! A sender announces a file and streams it once a receiver has confirmed;
//! a receiver looks a passphrase up, decides whether it wants the file and
//! confirms. The decisions are made here. Reading and writing files,
//! sockets and the terminal is the caller's business.

use vstd::prelude::*;
use vstd::string::StrSliceExecFns;
use crate::relay::{
    clone_text, text_view, FileInfo, FileInfoView, R2XRequestFileInfoMessage,
    R2XRequestSenderConnectionMessage, R2XRequestSenderConnectionView,
    S2XRequestPassphraseMessage, S2XRequestPassphraseView,
};

verus! {

/// The last component of a path: what follows its last `/`, or all of it
/// if it has none. A path that ends in `/` has an empty last component.
pub open spec fn spec_file_name(path: Seq<char>) -> Seq<char>
    decreases path.len(),
{
    if path.len() == 0 || path.last() == '/' {
        Seq::empty()
    } else {
        spec_file_name(path.drop_last()).push(path.last())
    }
}

/// The last component of a path is its longest tail without a `/`.
pub proof fn lemma_file_name_is_last_component(path: Seq<char>, start: int)
    requires
        0 <= start <= path.len(),
        forall|i: int| start <= i < path.len() ==> path[i] != '/',
        start == 0 || path[start - 1] == '/',
    ensures
        spec_file_name(path) == path.subrange(start, path.len() as int),
    decreases path.len(),
{
    if path.len() == 0 || path.last() == '/' {
        assert(path.subrange(start, path.len() as int) =~= Seq::<char>::empty());
    } else {
        let shorter = path.drop_last();
        lemma_file_name_is_last_component(shorter, start);
        assert(shorter.subrange(start, shorter.len() as int).push(path.last())
            =~= path.subrange(start, path.len() as int));
    }
}

/// The last component of `path`.
pub fn file_name_of(path: &str) -> (name: String)
    ensures
        name@ == spec_file_name(path@),
{
    let n = path.unicode_len();
    let mut start: usize = n;
    loop
        invariant
            n == path@.len(),
            start <= n,
            forall|i: int| start <= i < n ==> path@[i] != '/',
        ensures
            start == 0 || path@[start - 1] == '/',
        decreases start,
    {
        if start == 0 {
            break;
        }
        let c = path.get_char(start - 1);
        if c == '/' {
            break;
        }
        start = start - 1;
    }
    proof {
        lemma_file_name_is_last_component(path@, start as int);
    }
    path.substring_char(start, n).to_owned()
}

/// The host label that a peer shows to the other side: its host name,
/// unless it chose to hide it.
pub fn host_label(hide_hostname: bool, hostname: Option<String>) -> (label: Option<String>)
    ensures
        text_view(label) == if hide_hostname {
            None
        } else {
            text_view(hostname)
        },
{
    if hide_hostname {
        None
    } else {
        hostname
    }
}

/// The text that `humansize` writes for a number of bytes under its decimal
/// options: the number scaled down by thousands, with two decimals unless
/// it is whole, a space and the unit, as in `1.02 kB`.
pub uninterp spec fn spec_size_label(bytes: u64) -> Seq<char>;

/// Writes a number of bytes for a human reader. This calls
/// `humansize::format_size` with the options `humansize::DECIMAL`; the
/// contract claims no more than that the text depends on the number alone.
#[verifier::external_body]
fn size_label(bytes: u64) -> (label: String)
    ensures
        label@ == spec_size_label(bytes),
{
    humansize::format_size(bytes, humansize::DECIMAL)
}

/// What a sender is shown when its file starts to go out.
#[derive(Debug)]
pub struct Upload {
    /// Size of the file in bytes.
    pub file_size: u64,
    /// The chunk size, written for a human reader.
    pub chunk_size: String,
}

/// What a receiver is shown of the transfer on offer.
#[derive(Debug)]
pub struct Offer {
    /// Name of the file.
    pub file_name: String,
    /// The sender's host label, if it gave one.
    pub sender_host: Option<String>,
    /// Size of the file, written for a human reader.
    pub file_size: String,
    /// The chunk size, written for a human reader.
    pub chunk_size: String,
}

/// The mathematical content of an [`Upload`].
pub ghost struct UploadView {
    pub file_size: u64,
    pub chunk_size: Seq<char>,
}

impl View for Upload {
    type V = UploadView;

    open spec fn view(&self) -> UploadView {
        UploadView { file_size: self.file_size, chunk_size: self.chunk_size@ }
    }
}

/// The mathematical content of an [`Offer`].
pub ghost struct OfferView {
    pub file_name: Seq<char>,
    pub sender_host: Option<Seq<char>>,
    pub file_size: Seq<char>,
    pub chunk_size: Seq<char>,
}

impl View for Offer {
    type V = OfferView;

    open spec fn view(&self) -> OfferView {
        OfferView {
            file_name: self.file_name@,
            sender_host: text_view(self.sender_host),
            file_size: self.file_size@,
            chunk_size: self.chunk_size@,
        }
    }
}

/// What a receiver is shown of `record`, given the two sizes as they are
/// to be written.
pub fn offer_with(record: &FileInfo, file_size: String, chunk_size: String) -> (offer: Offer)
    ensures
        offer@ == (OfferView {
            file_name: record@.file_name,
            sender_host: record@.sender_host,
            file_size: file_size@,
            chunk_size: chunk_size@,
        }),
{
    Offer {
        file_name: record.file_name.clone(),
        sender_host: clone_text(&record.sender_host),
        file_size,
        chunk_size,
    }
}

/// What the `send` command is given.
#[derive(Debug)]
pub struct Send {
    file: String,
    relay_host: String,
    relay_port: u16,
    delay: u64,
    chunk_size: u32,
    hide_hostname: bool,
    skip_hash: bool,
}

/// The mathematical content of a [`Send`].
pub ghost struct SendView {
    /// Path of the file to send.
    pub file: Seq<char>,
    pub relay_host: Seq<char>,
    pub relay_port: u16,
    /// Spacing between transmissions.
    pub delay: u64,
    /// Largest payload of one frame.
    pub chunk_size: u32,
    /// Whether the host name is kept from the receiver.
    pub hide_hostname: bool,
    /// Whether the file goes out without a hash.
    pub skip_hash: bool,
}

impl View for Send {
    type V = SendView;

    closed spec fn view(&self) -> SendView {
        SendView {
            file: self.file@,
            relay_host: self.relay_host@,
            relay_port: self.relay_port,
            delay: self.delay,
            chunk_size: self.chunk_size,
            hide_hostname: self.hide_hostname,
            skip_hash: self.skip_hash,
        }
    }
}

impl SendView {
    /// The registration that announces the file. The name is the last
    /// component of the path. The hash is left out if hashing is skipped,
    /// the host name if it is hidden.
    pub open spec fn registration(
        self,
        hostname: Option<Seq<char>>,
        file_size: u64,
        file_hash: Option<Seq<char>>,
    ) -> S2XRequestPassphraseView {
        S2XRequestPassphraseView {
            sender_host: if self.hide_hostname {
                None
            } else {
                hostname
            },
            file_size,
            file_hash: if self.skip_hash {
                None
            } else {
                file_hash
            },
            file_name: spec_file_name(self.file),
        }
    }

    /// What to show when the file starts to go out.
    pub open spec fn upload(self, file_size: u64) -> UploadView {
        UploadView { file_size, chunk_size: spec_size_label(self.chunk_size as u64) }
    }
}

impl Send {
    /// The options of a `send` command.
    pub fn new(
        file: String,
        relay_host: String,
        relay_port: u16,
        delay: u64,
        chunk_size: u32,
        hide_hostname: bool,
        skip_hash: bool,
    ) -> (send: Send)
        ensures
            send@ == (SendView {
                file: file@,
                relay_host: relay_host@,
                relay_port,
                delay,
                chunk_size,
                hide_hostname,
                skip_hash,
            }),
    {
        Send { file, relay_host, relay_port, delay, chunk_size, hide_hostname, skip_hash }
    }

    /// The message that announces the file to the relay.
    ///
    /// `hostname` is this machine's name, `file_size` the size of the file
    /// and `file_hash` the hash of its contents, as far as the caller has
    /// them. The message says of them only what the options allow.
    pub fn registration(
        &self,
        hostname: Option<String>,
        file_size: u64,
        file_hash: Option<String>,
    ) -> (message: S2XRequestPassphraseMessage)
        ensures
            message@ == self@.registration(text_view(hostname), file_size, text_view(file_hash)),
    {
        S2XRequestPassphraseMessage {
            sender_host: host_label(self.hide_hostname, hostname),
            file_size,
            file_hash: if self.skip_hash {
                None
            } else {
                file_hash
            },
            file_name: file_name_of(self.file.as_str()),
        }
    }

    /// What to show when the file starts to go out: its size in bytes and
    /// the chunk size in the way `humansize` writes it.
    pub fn describe_upload(&self, file_size: u64) -> (upload: Upload)
        ensures
            upload@ == self@.upload(file_size),
    {
        Upload { file_size, chunk_size: size_label(self.chunk_size as u64) }
    }

    /// Path of the file to send.
    pub fn file(&self) -> (file: &str)
        ensures
            file@ == self@.file,
    {
        self.file.as_str()
    }

    /// The relay's host.
    pub fn relay_host(&self) -> (host: &str)
        ensures
            host@ == self@.relay_host,
    {
        self.relay_host.as_str()
    }

    /// The relay's port.
    pub fn relay_port(&self) -> (port: u16)
        ensures
            port == self@.relay_port,
    {
        self.relay_port
    }

    /// Spacing between transmissions.
    pub fn delay(&self) -> (delay: u64)
        ensures
            delay == self@.delay,
    {
        self.delay
    }

    /// Largest payload of one frame.
    pub fn chunk_size(&self) -> (chunk_size: u32)
        ensures
            chunk_size == self@.chunk_size,
    {
        self.chunk_size
    }

    /// Whether the host name is kept from the receiver.
    pub fn hide_hostname(&self) -> (hide: bool)
        ensures
            hide == self@.hide_hostname,
    {
        self.hide_hostname
    }

    /// Whether the file goes out without a hash.
    pub fn skip_hash(&self) -> (skip: bool)
        ensures
            skip == self@.skip_hash,
    {
        self.skip_hash
    }
}

/// What a receiver does once it has seen what is on offer.
#[derive(Clone, Copy, Debug, PartialEq, Eq, Structural)]
pub enum Decision {
    /// Ask the user whether the file is wanted.
    Ask,
    /// Go on and fetch the file.
    Download,
    /// Leave the transfer alone.
    Cancel,
}

/// What the `get` command is given.
#[derive(Debug)]
pub struct Get {
    passphrase: String,
    out_file: String,
    relay_host: String,
    relay_port: u16,
    delay: u64,
    chunk_size: u32,
    force: bool,
    hide_hostname: bool,
}

/// The mathematical content of a [`Get`].
pub ghost struct GetView {
    /// The passphrase that the sender passed on.
    pub passphrase: Seq<char>,
    /// Path of the file to write.
    pub out_file: Seq<char>,
    pub relay_host: Seq<char>,
    pub relay_port: u16,
    /// Spacing between transmissions.
    pub delay: u64,
    /// Largest payload of one frame.
    pub chunk_size: u32,
    /// Whether the file is fetched without asking.
    pub force: bool,
    /// Whether the host name is kept from the sender.
    pub hide_hostname: bool,
}

impl View for Get {
    type V = GetView;

    closed spec fn view(&self) -> GetView {
        GetView {
            passphrase: self.passphrase@,
            out_file: self.out_file@,
            relay_host: self.relay_host@,
            relay_port: self.relay_port,
            delay: self.delay,
            chunk_size: self.chunk_size,
            force: self.force,
            hide_hostname: self.hide_hostname,
        }
    }
}

impl GetView {
    /// What to show of the transfer on offer.
    pub open spec fn offer(self, record: FileInfoView) -> OfferView {
        OfferView {
            file_name: record.file_name,
            sender_host: record.sender_host,
            file_size: spec_size_label(record.file_size),
            chunk_size: spec_size_label(self.chunk_size as u64),
        }
    }

    /// The confirmation of a transfer whose record is `record`: it repeats
    /// the hash on the record, and gives the host name unless it is hidden.
    pub open spec fn connection_request(
        self,
        record: FileInfoView,
        hostname: Option<Seq<char>>,
    ) -> R2XRequestSenderConnectionView {
        R2XRequestSenderConnectionView {
            passphrase: self.passphrase,
            file_hash: record.file_hash,
            receiver_host: if self.hide_hostname {
                None
            } else {
                hostname
            },
        }
    }

    /// Whether to fetch: at once if forced, else as the user answers, and
    /// if there is no answer yet, ask.
    pub open spec fn decide(self, answer: Option<bool>) -> Decision {
        if self.force {
            Decision::Download
        } else {
            match answer {
                None => Decision::Ask,
                Some(true) => Decision::Download,
                Some(false) => Decision::Cancel,
            }
        }
    }
}

impl Get {
    /// The options of a `get` command.
    pub fn new(
        passphrase: String,
        out_file: String,
        relay_host: String,
        relay_port: u16,
        delay: u64,
        chunk_size: u32,
        force: bool,
        hide_hostname: bool,
    ) -> (get: Get)
        ensures
            get@ == (GetView {
                passphrase: passphrase@,
                out_file: out_file@,
                relay_host: relay_host@,
                relay_port,
                delay,
                chunk_size,
                force,
                hide_hostname,
            }),
    {
        Get {
            passphrase,
            out_file,
            relay_host,
            relay_port,
            delay,
            chunk_size,
            force,
            hide_hostname,
        }
    }

    /// The message that asks the relay what the passphrase stands for.
    pub fn file_info_request(&self) -> (message: R2XRequestFileInfoMessage)
        ensures
            message@ == self@.passphrase,
    {
        R2XRequestFileInfoMessage { passphrase: self.passphrase.clone() }
    }

    /// Whether to fetch the file, given the user's answer if there is one.
    pub fn decide(&self, answer: Option<bool>) -> (decision: Decision)
        ensures
            decision == self@.decide(answer),
    {
        if self.force {
            Decision::Download
        } else {
            match answer {
                None => Decision::Ask,
                Some(true) => Decision::Download,
                Some(false) => Decision::Cancel,
            }
        }
    }

    /// The message that asks the relay to send the sender this way. It
    /// repeats the hash of the record that the relay showed, which is what
    /// the relay checks, and gives the host name unless it is hidden.
    pub fn connection_request(&self, record: &FileInfo, hostname: &Option<String>) -> (message:
        R2XRequestSenderConnectionMessage)
        ensures
            message@ == self@.connection_request(record@, text_view(*hostname)),
    {
        R2XRequestSenderConnectionMessage {
            passphrase: self.passphrase.clone(),
            file_hash: clone_text(&record.file_hash),
            receiver_host: host_label(self.hide_hostname, clone_text(hostname)),
        }
    }

    /// What to show of the transfer on offer: the file's name, the sender's
    /// host label, and the file size and chunk size in the way `humansize`
    /// writes them.
    pub fn describe_offer(&self, record: &FileInfo) -> (offer: Offer)
        ensures
            offer@ == self@.offer(record@),
    {
        offer_with(record, size_label(record.file_size), size_label(self.chunk_size as u64))
    }

    /// The passphrase that the sender passed on.
    pub fn passphrase(&self) -> (passphrase: &str)
        ensures
            passphrase@ == self@.passphrase,
    {
        self.passphrase.as_str()
    }

    /// Path of the file to write.
    pub fn out_file(&self) -> (out_file: &str)
        ensures
            out_file@ == self@.out_file,
    {
        self.out_file.as_str()
    }

    /// The relay's host.
    pub fn relay_host(&self) -> (host: &str)
        ensures
            host@ == self@.relay_host,
    {
        self.relay_host.as_str()
    }

    /// The relay's port.
    pub fn relay_port(&self) -> (port: u16)
        ensures
            port == self@.relay_port,
    {
        self.relay_port
    }

    /// Spacing between transmissions.
    pub fn delay(&self) -> (delay: u64)
        ensures
            delay == self@.delay,
    {
        self.delay
    }

    /// Largest payload of one frame.
    pub fn chunk_size(&self) -> (chunk_size: u32)
        ensures
            chunk_size == self@.chunk_size,
    {
        self.chunk_size
    }

    /// Whether the file is fetched without asking.
    pub fn force(&self) -> (force: bool)
        ensures
            force == self@.force,
    {
        self.force
    }

    /// Whether the host name is kept from the sender.
    pub fn hide_hostname(&self) -> (hide: bool)
        ensures
            hide == self@.hide_hostname,
    {
        self.hide_hostname
    }
}

/// The number of bytes after which the progress display is brought up to date.
pub const PROGRESS_STEP: u32 = 25600;

/// Keeps count of the bytes that went over the wire and says when the
/// progress display is due: once every so many chunks, so that it moves
/// about every [`PROGRESS_STEP`] bytes, and with every chunk where one
/// chunk alone is more than that.
#[derive(Debug)]
pub struct Progress {
    rate: u32,
    phase: u32,
    bytes: u64,
}

/// The mathematical content of a [`Progress`].
pub ghost struct ProgressView {
    /// The display is due after every `rate` chunks.
    pub rate: u32,
    /// Chunks counted since the display was last due.
    pub phase: u32,
    /// Bytes counted in all.
    pub bytes: u64,
}

impl View for Progress {
    type V = ProgressView;

    closed spec fn view(&self) -> ProgressView {
        ProgressView { rate: self.rate, phase: self.phase, bytes: self.bytes }
    }
}

impl ProgressView {
    /// After how many chunks of `chunk_size` bytes the display is due: as
    /// many as go into [`PROGRESS_STEP`] bytes, and every single one where
    /// not even one goes into that. Chunks of no bytes move nothing, so
    /// with them the display is due with every chunk as well.
    pub open spec fn rate_for(chunk_size: u32) -> u32 {
        if chunk_size == 0 || chunk_size > PROGRESS_STEP {
            1
        } else {
            PROGRESS_STEP / chunk_size
        }
    }

    /// The count at the start of a transfer in chunks of `chunk_size` bytes.
    pub open spec fn start(chunk_size: u32) -> ProgressView {
        ProgressView { rate: ProgressView::rate_for(chunk_size), phase: 0, bytes: 0 }
    }

    /// A count is sound when its phase lies within its rate.
    pub open spec fn wf(self) -> bool {
        0 < self.rate && self.phase < self.rate
    }

    /// Whether the chunk that is counted next makes the display due.
    pub open spec fn due_next(self) -> bool {
        self.phase + 1 == self.rate
    }

    /// The count after a chunk of `n` bytes.
    pub open spec fn after(self, n: nat) -> ProgressView {
        ProgressView {
            rate: self.rate,
            phase: if self.due_next() {
                0
            } else {
                (self.phase + 1) as u32
            },
            bytes: (self.bytes + n) as u64,
        }
    }
}

impl Progress {
    #[verifier::type_invariant]
    spec fn phase_within_rate(self) -> bool {
        0 < self.rate && self.phase < self.rate
    }

    /// A count for a transfer in chunks of `chunk_size` bytes, whatever
    /// the chunk size.
    pub fn new(chunk_size: u32) -> (progress: Progress)
        ensures
            progress@ == ProgressView::start(chunk_size),
            progress@.wf(),
    {
        let rate: u32 = if chunk_size == 0 || chunk_size > PROGRESS_STEP {
            1
        } else {
            assert(PROGRESS_STEP / chunk_size >= 1) by (nonlinear_arith)
                requires
                    0 < chunk_size <= PROGRESS_STEP,
            ;
            PROGRESS_STEP / chunk_size
        };
        Progress { rate, phase: 0, bytes: 0 }
    }

    /// Counts a chunk of `n` bytes. Returns the new total if the display is
    /// due, which it is after every `rate` chunks.
    pub fn record(&mut self, n: usize) -> (position: Option<u64>)
        requires
            old(self)@.bytes + n <= u64::MAX,
        ensures
            old(self)@.wf(),
            final(self)@ == old(self)@.after(n as nat),
            final(self)@.wf(),
            position == if old(self)@.due_next() {
                Some(final(self)@.bytes)
            } else {
                None
            },
    {
        proof {
            use_type_invariant(&*self);
        }
        let total: u64 = self.bytes + n as u64;
        let due = self.phase + 1 == self.rate;
        let phase: u32 = if due {
            0
        } else {
            self.phase + 1
        };
        self.bytes = total;
        self.phase = phase;
        if due {
            Some(total)
        } else {
            None
        }
    }

    /// Bytes counted in all.
    pub fn bytes(&self) -> (bytes: u64)
        ensures
            bytes == self@.bytes,
    {
        self.bytes
    }
}

} // verus!
