//! The two peers' way through a transfer, step by step.
//!
//! Each peer is a state machine. Its caller tells it what has happened (the
//! relay answered, the user said yes, a chunk went over) and is told what to
//! do next (send this request, show this offer, connect there, go on
//! reading). The caller does what it is told and nothing else, so the order
//! of things is decided here: a receiver confirms only what it was shown and
//! only with consent, and a sender streams only to the peer that the relay
//! announced.

use vstd::prelude::*;
use crate::client::{
    Decision, Get, GetView, Offer, OfferView, Progress, ProgressView, Send, SendView, Upload,
    UploadView,
};
use crate::error::NudgeError;
use crate::relay::{
    spec_confirms, spec_lookup, text_view, Endpoint, FileInfo, FileInfoView,
    R2XRequestFileInfoMessage, R2XRequestSenderConnectionMessage,
    R2XRequestSenderConnectionView, S2XRequestPassphraseMessage, S2XRequestPassphraseView,
    Sessions, X2SPassphraseProvidedMessage, X2SSenderConnectToReceiverMessage,
    X2SSenderConnectToReceiverView,
};

verus! {

/// What can happen to a receiver.
#[derive(Debug)]
pub enum GetEvent {
    /// The command was started.
    Started,
    /// The relay answered with the record of the transfer.
    FileInfo(FileInfo),
    /// The offer was shown to the user.
    Shown,
    /// The user answered whether the file is wanted.
    Answer(bool),
    /// The file was prepared and the sender's address connected to.
    Connected,
    /// A chunk of so many bytes arrived and was written.
    Chunk(usize),
    /// The transport reported the end of the stream.
    EndOfStream,
}

/// The mathematical content of a [`GetEvent`].
pub ghost enum GetEventView {
    Started,
    FileInfo(FileInfoView),
    Shown,
    Answer(bool),
    Connected,
    Chunk(nat),
    EndOfStream,
}

impl View for GetEvent {
    type V = GetEventView;

    open spec fn view(&self) -> GetEventView {
        match self {
            GetEvent::Started => GetEventView::Started,
            GetEvent::FileInfo(record) => GetEventView::FileInfo(record@),
            GetEvent::Shown => GetEventView::Shown,
            GetEvent::Answer(yes) => GetEventView::Answer(*yes),
            GetEvent::Connected => GetEventView::Connected,
            GetEvent::Chunk(n) => GetEventView::Chunk(*n as nat),
            GetEvent::EndOfStream => GetEventView::EndOfStream,
        }
    }
}

/// What a receiver is told to do.
#[derive(Debug)]
pub enum GetAction {
    /// Send this request to the relay and wait for the record.
    RequestFileInfo(R2XRequestFileInfoMessage),
    /// Show this offer to the user.
    Show(Offer),
    /// Ask the user whether the file is wanted.
    Ask,
    /// Tell the user that nothing is fetched, and stop.
    Cancel,
    /// Prepare a file of `file_size` bytes, send `request` to the relay,
    /// connect to `sender_addr` and announce the transfer as `offer` says.
    Connect {
        file_size: u64,
        sender_addr: Endpoint,
        request: R2XRequestSenderConnectionMessage,
        offer: Offer,
    },
    /// Move the progress display to the position given, if one is given,
    /// and read the next chunk.
    Receive(Option<u64>),
    /// Tell the user that the file is there, and stop.
    Finish,
    /// Nothing: the event does not fit the stage.
    Ignore,
}

/// The mathematical content of a [`GetAction`].
pub ghost enum GetActionView {
    RequestFileInfo(Seq<char>),
    Show(OfferView),
    Ask,
    Cancel,
    Connect {
        file_size: u64,
        sender_addr: Endpoint,
        request: R2XRequestSenderConnectionView,
        offer: OfferView,
    },
    Receive(Option<u64>),
    Finish,
    Ignore,
}

impl View for GetAction {
    type V = GetActionView;

    open spec fn view(&self) -> GetActionView {
        match self {
            GetAction::RequestFileInfo(message) => GetActionView::RequestFileInfo(message@),
            GetAction::Show(offer) => GetActionView::Show(offer@),
            GetAction::Ask => GetActionView::Ask,
            GetAction::Cancel => GetActionView::Cancel,
            GetAction::Connect { file_size, sender_addr, request, offer } => GetActionView::Connect {
                file_size: *file_size,
                sender_addr: *sender_addr,
                request: request@,
                offer: offer@,
            },
            GetAction::Receive(position) => GetActionView::Receive(*position),
            GetAction::Finish => GetActionView::Finish,
            GetAction::Ignore => GetActionView::Ignore,
        }
    }
}

/// How far a receiver has come.
#[derive(Debug)]
pub enum GetStage {
    /// Nothing has happened yet.
    Idle,
    /// The relay has been asked for the record.
    AwaitingFileInfo,
    /// The record is here and its offer is being shown.
    Showing(FileInfo),
    /// The user is being asked.
    Asking(FileInfo),
    /// The transfer was confirmed to the relay; the connection is being made.
    Connecting,
    /// Chunks are coming in.
    Receiving,
    /// It is over, one way or the other.
    Done,
}

/// The mathematical content of a [`GetStage`].
pub ghost enum GetStageView {
    Idle,
    AwaitingFileInfo,
    Showing(FileInfoView),
    Asking(FileInfoView),
    Connecting,
    Receiving,
    Done,
}

impl View for GetStage {
    type V = GetStageView;

    open spec fn view(&self) -> GetStageView {
        match self {
            GetStage::Idle => GetStageView::Idle,
            GetStage::AwaitingFileInfo => GetStageView::AwaitingFileInfo,
            GetStage::Showing(record) => GetStageView::Showing(record@),
            GetStage::Asking(record) => GetStageView::Asking(record@),
            GetStage::Connecting => GetStageView::Connecting,
            GetStage::Receiving => GetStageView::Receiving,
            GetStage::Done => GetStageView::Done,
        }
    }
}

/// A receiver on its way through a transfer.
#[derive(Debug)]
pub struct GetFlow {
    options: Get,
    hostname: Option<String>,
    stage: GetStage,
    progress: Progress,
}

/// The mathematical content of a [`GetFlow`].
pub ghost struct GetFlowView {
    pub options: GetView,
    /// This machine's name, if it has one.
    pub hostname: Option<Seq<char>>,
    pub stage: GetStageView,
    pub progress: ProgressView,
}

impl View for GetFlow {
    type V = GetFlowView;

    closed spec fn view(&self) -> GetFlowView {
        GetFlowView {
            options: self.options@,
            hostname: text_view(self.hostname),
            stage: self.stage@,
            progress: self.progress@,
        }
    }
}

impl GetFlowView {
    /// A receiver before anything has happened.
    pub open spec fn start(options: GetView, hostname: Option<Seq<char>>) -> GetFlowView {
        GetFlowView {
            options,
            hostname,
            stage: GetStageView::Idle,
            progress: ProgressView::start(options.chunk_size),
        }
    }

    /// The step that confirms the transfer of `record`.
    pub open spec fn confirm(self, record: FileInfoView) -> (GetFlowView, GetActionView) {
        (
            GetFlowView { stage: GetStageView::Connecting, ..self },
            GetActionView::Connect {
                file_size: record.file_size,
                sender_addr: record.sender_addr,
                request: self.options.connection_request(record, self.hostname),
                offer: self.options.offer(record),
            },
        )
    }

    /// The step that follows from what the user wants, as far as known.
    pub open spec fn settle(self, record: FileInfoView, answer: Option<bool>) -> (
        GetFlowView,
        GetActionView,
    ) {
        match self.options.decide(answer) {
            Decision::Ask => (
                GetFlowView { stage: GetStageView::Asking(record), ..self },
                GetActionView::Ask,
            ),
            Decision::Download => self.confirm(record),
            Decision::Cancel => (
                GetFlowView { stage: GetStageView::Done, ..self },
                GetActionView::Cancel,
            ),
        }
    }

    /// The state after `event`, and what to do next. An event that does
    /// not fit the stage changes nothing and asks for nothing.
    pub open spec fn step(self, event: GetEventView) -> (GetFlowView, GetActionView) {
        match (self.stage, event) {
            (GetStageView::Idle, GetEventView::Started) => (
                GetFlowView { stage: GetStageView::AwaitingFileInfo, ..self },
                GetActionView::RequestFileInfo(self.options.passphrase),
            ),
            (GetStageView::AwaitingFileInfo, GetEventView::FileInfo(record)) => (
                GetFlowView { stage: GetStageView::Showing(record), ..self },
                GetActionView::Show(self.options.offer(record)),
            ),
            (GetStageView::Showing(record), GetEventView::Shown) => self.settle(record, None),
            (GetStageView::Asking(record), GetEventView::Answer(yes)) => self.settle(
                record,
                Some(yes),
            ),
            (GetStageView::Connecting, GetEventView::Connected) => (
                GetFlowView { stage: GetStageView::Receiving, ..self },
                GetActionView::Receive(None),
            ),
            (GetStageView::Receiving, GetEventView::Chunk(n)) => (
                GetFlowView { progress: self.progress.after(n), ..self },
                GetActionView::Receive(
                    if self.progress.due_next() {
                        Some(self.progress.after(n).bytes)
                    } else {
                        None
                    },
                ),
            ),
            (GetStageView::Receiving, GetEventView::EndOfStream) => (
                GetFlowView { stage: GetStageView::Done, ..self },
                GetActionView::Finish,
            ),
            _ => (self, GetActionView::Ignore),
        }
    }
}

impl GetFlow {
    /// A receiver before anything has happened. `hostname` is this
    /// machine's name, if it has one.
    pub fn new(options: Get, hostname: Option<String>) -> (flow: GetFlow)
        ensures
            flow@ == GetFlowView::start(options@, text_view(hostname)),
    {
        let progress = Progress::new(options.chunk_size());
        GetFlow { options, hostname, stage: GetStage::Idle, progress }
    }

    /// Makes the step that follows from what the user wants, as far as
    /// known, for a receiver that is made of these parts.
    fn settle(
        options: Get,
        hostname: Option<String>,
        progress: Progress,
        record: FileInfo,
        answer: Option<bool>,
    ) -> (r: (GetFlow, GetAction))
        ensures
            (r.0@, r.1@) == (GetFlowView {
                options: options@,
                hostname: text_view(hostname),
                stage: GetStageView::Idle,
                progress: progress@,
            }).settle(record@, answer),
    {
        match options.decide(answer) {
            Decision::Ask => (
                GetFlow { options, hostname, stage: GetStage::Asking(record), progress },
                GetAction::Ask,
            ),
            Decision::Download => {
                let action = GetAction::Connect {
                    file_size: record.file_size,
                    sender_addr: record.sender_addr,
                    request: options.connection_request(&record, &hostname),
                    offer: options.describe_offer(&record),
                };
                (GetFlow { options, hostname, stage: GetStage::Connecting, progress }, action)
            },
            Decision::Cancel => (
                GetFlow { options, hostname, stage: GetStage::Done, progress },
                GetAction::Cancel,
            ),
        }
    }

    /// Takes what has happened and says what to do next.
    pub fn step(self, event: GetEvent) -> (r: (GetFlow, GetAction))
        requires
            event matches GetEvent::Chunk(n) ==> self@.progress.bytes + n <= u64::MAX,
        ensures
            (r.0@, r.1@) == self@.step(event@),
    {
        let GetFlow { options, hostname, stage, progress } = self;
        match (stage, event) {
            (GetStage::Idle, GetEvent::Started) => {
                let action = GetAction::RequestFileInfo(options.file_info_request());
                (GetFlow { options, hostname, stage: GetStage::AwaitingFileInfo, progress }, action)
            },
            (GetStage::AwaitingFileInfo, GetEvent::FileInfo(record)) => {
                let action = GetAction::Show(options.describe_offer(&record));
                (GetFlow { options, hostname, stage: GetStage::Showing(record), progress }, action)
            },
            (GetStage::Showing(record), GetEvent::Shown) => GetFlow::settle(
                options,
                hostname,
                progress,
                record,
                None,
            ),
            (GetStage::Asking(record), GetEvent::Answer(yes)) => GetFlow::settle(
                options,
                hostname,
                progress,
                record,
                Some(yes),
            ),
            (GetStage::Connecting, GetEvent::Connected) => (
                GetFlow { options, hostname, stage: GetStage::Receiving, progress },
                GetAction::Receive(None),
            ),
            (GetStage::Receiving, GetEvent::Chunk(n)) => {
                let mut progress = progress;
                let position = progress.record(n);
                (
                    GetFlow { options, hostname, stage: GetStage::Receiving, progress },
                    GetAction::Receive(position),
                )
            },
            (GetStage::Receiving, GetEvent::EndOfStream) => (
                GetFlow { options, hostname, stage: GetStage::Done, progress },
                GetAction::Finish,
            ),
            (stage, _) => (GetFlow { options, hostname, stage, progress }, GetAction::Ignore),
        }
    }

    /// The bytes that have arrived so far.
    pub fn bytes(&self) -> (bytes: u64)
        ensures
            bytes == self@.progress.bytes,
    {
        self.progress.bytes()
    }

    /// Whether the receiver is through, so that no event will ask for
    /// anything any more.
    pub fn is_done(&self) -> (done: bool)
        ensures
            done == (self@.stage is Done),
    {
        match self.stage {
            GetStage::Done => true,
            _ => false,
        }
    }
}

/// A receiver confirms only with consent. Whatever stage a receiver is in
/// and whatever happens, it is told to confirm the transfer only if it was
/// started to fetch without asking, or if this very event is the user's yes.
pub proof fn lemma_get_confirms_only_with_consent(flow: GetFlowView, event: GetEventView)
    requires
        flow.step(event).1 is Connect,
    ensures
        flow.options.force || event == GetEventView::Answer(true),
        flow.stage is Showing || flow.stage is Asking,
{
}

/// A receiver confirms what it was shown, and the relay accepts that. If
/// the record that the flow goes by is the one that the relay holds under
/// the receiver's passphrase, then the confirmation that the receiver is
/// told to send names that passphrase and passes the relay's hash gate, and
/// the address it is told to connect to is the sender's address on record.
pub proof fn lemma_get_confirmation_is_accepted(
    sessions: Sessions,
    flow: GetFlowView,
    event: GetEventView,
)
    requires
        flow.step(event).1 is Connect,
        flow.stage matches GetStageView::Showing(record) ==> spec_lookup(
            sessions,
            flow.options.passphrase,
        ) == Ok::<FileInfoView, NudgeError>(record),
        flow.stage matches GetStageView::Asking(record) ==> spec_lookup(
            sessions,
            flow.options.passphrase,
        ) == Ok::<FileInfoView, NudgeError>(record),
    ensures
        flow.step(event).1->Connect_request.passphrase == flow.options.passphrase,
        spec_confirms(
            sessions,
            flow.step(event).1->Connect_request.passphrase,
            flow.step(event).1->Connect_request.file_hash,
        ),
        flow.step(event).1->Connect_sender_addr == sessions[flow.options.passphrase].sender_addr,
        flow.step(event).1->Connect_file_size == sessions[flow.options.passphrase].file_size,
{
}

/// The receiver's state after `events`, one after the other.
pub open spec fn get_run(flow: GetFlowView, events: Seq<GetEventView>) -> GetFlowView
    decreases events.len(),
{
    if events.len() == 0 {
        flow
    } else {
        get_run(flow.step(events.first()).0, events.drop_first())
    }
}

/// A receiver connects only after it was shown a record and the user
/// agreed. Whatever happens to a receiver from its start on, and in whatever
/// order: if it has come to connect or to receive, then the relay has
/// answered with a record, and, unless the receiver was started to fetch
/// without asking, the user has said yes.
pub proof fn lemma_get_receives_only_after_consent(
    options: GetView,
    hostname: Option<Seq<char>>,
    events: Seq<GetEventView>,
)
    requires
        ({
            let stage = get_run(GetFlowView::start(options, hostname), events).stage;
            stage is Connecting || stage is Receiving
        }),
    ensures
        exists|i: int| 0 <= i < events.len() && (#[trigger] events[i]) is FileInfo,
        options.force || exists|j: int|
            0 <= j < events.len() && #[trigger] events[j] == GetEventView::Answer(true),
{
    lemma_get_history(GetFlowView::start(options, hostname), events);
}

/// Whether a receiver in this stage has confirmed the transfer and is not
/// through with it.
spec fn get_confirmed(stage: GetStageView) -> bool {
    stage is Connecting || stage is Receiving
}

proof fn lemma_get_history(flow: GetFlowView, events: Seq<GetEventView>)
    ensures
        get_run(flow, events).options == flow.options,
        flow.stage is Done ==> get_run(flow, events).stage is Done,
        (flow.stage is Idle || flow.stage is AwaitingFileInfo) && get_confirmed(
            get_run(flow, events).stage,
        ) ==> exists|i: int| 0 <= i < events.len() && (#[trigger] events[i]) is FileInfo,
        !flow.options.force && !get_confirmed(flow.stage) && get_confirmed(
            get_run(flow, events).stage,
        ) ==> exists|j: int|
            0 <= j < events.len() && #[trigger] events[j] == GetEventView::Answer(true),
    decreases events.len(),
{
    if events.len() > 0 {
        let next = flow.step(events.first()).0;
        let rest = events.drop_first();
        lemma_get_history(next, rest);
        assert(forall|k: int| 0 <= k < rest.len() ==> rest[k] == events[k + 1]);
        let end = get_run(flow, events).stage;
        if (flow.stage is Idle || flow.stage is AwaitingFileInfo) && get_confirmed(end) {
            if next.stage is Idle || next.stage is AwaitingFileInfo {
                let i = choose|i: int| 0 <= i < rest.len() && (#[trigger] rest[i]) is FileInfo;
                assert(events[i + 1] is FileInfo);
            } else {
                assert(events[0] is FileInfo);
            }
        }
        if !flow.options.force && !get_confirmed(flow.stage) && get_confirmed(end) {
            if get_confirmed(next.stage) {
                assert(events[0] == GetEventView::Answer(true));
            } else {
                let j = choose|j: int|
                    0 <= j < rest.len() && #[trigger] rest[j] == GetEventView::Answer(true);
                assert(events[j + 1] == GetEventView::Answer(true));
            }
        }
    }
}

/// What can happen to a sender.
#[derive(Debug)]
pub enum SendEvent {
    /// The command was started and the file looked at: its size, and its
    /// hash if one was made.
    Started { file_size: u64, file_hash: Option<String> },
    /// The relay answered with the passphrase.
    PassphraseProvided(X2SPassphraseProvidedMessage),
    /// The passphrase was shown to the user.
    Shown,
    /// The relay announced a receiver.
    PeerAnnounced(X2SSenderConnectToReceiverMessage),
    /// The receiver's address was connected to.
    Connected,
    /// A chunk of so many bytes was read from the file and sent.
    Chunk(usize),
    /// The file is read to its end.
    EndOfFile,
}

/// The mathematical content of a [`SendEvent`].
pub ghost enum SendEventView {
    Started { file_size: u64, file_hash: Option<Seq<char>> },
    PassphraseProvided(Seq<char>),
    Shown,
    PeerAnnounced(X2SSenderConnectToReceiverView),
    Connected,
    Chunk(nat),
    EndOfFile,
}

impl View for SendEvent {
    type V = SendEventView;

    open spec fn view(&self) -> SendEventView {
        match self {
            SendEvent::Started { file_size, file_hash } => SendEventView::Started {
                file_size: *file_size,
                file_hash: text_view(*file_hash),
            },
            SendEvent::PassphraseProvided(message) => SendEventView::PassphraseProvided(message@),
            SendEvent::Shown => SendEventView::Shown,
            SendEvent::PeerAnnounced(notice) => SendEventView::PeerAnnounced(notice@),
            SendEvent::Connected => SendEventView::Connected,
            SendEvent::Chunk(n) => SendEventView::Chunk(*n as nat),
            SendEvent::EndOfFile => SendEventView::EndOfFile,
        }
    }
}

/// What a sender is told to do.
#[derive(Debug)]
pub enum SendAction {
    /// Send this registration to the relay and wait for the passphrase.
    Register(S2XRequestPassphraseMessage),
    /// Show this passphrase to the user.
    ShowPassphrase(String),
    /// Wait until the relay announces a receiver.
    AwaitPeer,
    /// Connect to the receiver that `notice` names and announce the
    /// transfer as `upload` says.
    Connect { notice: X2SSenderConnectToReceiverMessage, upload: Upload },
    /// Move the progress display to the position given, if one is given,
    /// and send the next chunk of the file.
    Stream(Option<u64>),
    /// End the stream, tell the user that the file is sent, and stop.
    End,
    /// Nothing: the event does not fit the stage.
    Ignore,
}

/// The mathematical content of a [`SendAction`].
pub ghost enum SendActionView {
    Register(S2XRequestPassphraseView),
    ShowPassphrase(Seq<char>),
    AwaitPeer,
    Connect { notice: X2SSenderConnectToReceiverView, upload: UploadView },
    Stream(Option<u64>),
    End,
    Ignore,
}

impl View for SendAction {
    type V = SendActionView;

    open spec fn view(&self) -> SendActionView {
        match self {
            SendAction::Register(message) => SendActionView::Register(message@),
            SendAction::ShowPassphrase(passphrase) => SendActionView::ShowPassphrase(passphrase@),
            SendAction::AwaitPeer => SendActionView::AwaitPeer,
            SendAction::Connect { notice, upload } => SendActionView::Connect {
                notice: notice@,
                upload: upload@,
            },
            SendAction::Stream(position) => SendActionView::Stream(*position),
            SendAction::End => SendActionView::End,
            SendAction::Ignore => SendActionView::Ignore,
        }
    }
}

/// How far a sender has come.
#[derive(Clone, Copy, Debug, PartialEq, Eq, Structural)]
pub enum SendStage {
    /// Nothing has happened yet.
    Idle,
    /// The relay has been asked for a passphrase.
    Registering,
    /// The passphrase is here and is being shown.
    ShowingPassphrase,
    /// The relay is to announce a receiver.
    AwaitingPeer,
    /// A receiver is announced; the connection is being made.
    Connecting,
    /// Chunks are going out.
    Streaming,
    /// It is over.
    Done,
}

/// A sender on its way through a transfer.
#[derive(Debug)]
pub struct SendFlow {
    options: Send,
    hostname: Option<String>,
    stage: SendStage,
    file_size: u64,
    progress: Progress,
}

/// The mathematical content of a [`SendFlow`].
pub ghost struct SendFlowView {
    pub options: SendView,
    /// This machine's name, if it has one.
    pub hostname: Option<Seq<char>>,
    pub stage: SendStage,
    /// The size of the file, once it is known.
    pub file_size: u64,
    pub progress: ProgressView,
}

impl View for SendFlow {
    type V = SendFlowView;

    closed spec fn view(&self) -> SendFlowView {
        SendFlowView {
            options: self.options@,
            hostname: text_view(self.hostname),
            stage: self.stage,
            file_size: self.file_size,
            progress: self.progress@,
        }
    }
}

impl SendFlowView {
    /// A sender before anything has happened.
    pub open spec fn start(options: SendView, hostname: Option<Seq<char>>) -> SendFlowView {
        SendFlowView {
            options,
            hostname,
            stage: SendStage::Idle,
            file_size: 0,
            progress: ProgressView::start(options.chunk_size),
        }
    }

    /// The state after `event`, and what to do next. An event that does
    /// not fit the stage changes nothing and asks for nothing.
    pub open spec fn step(self, event: SendEventView) -> (SendFlowView, SendActionView) {
        match (self.stage, event) {
            (SendStage::Idle, SendEventView::Started { file_size, file_hash }) => (
                SendFlowView { stage: SendStage::Registering, file_size, ..self },
                SendActionView::Register(
                    self.options.registration(self.hostname, file_size, file_hash),
                ),
            ),
            (SendStage::Registering, SendEventView::PassphraseProvided(passphrase)) => (
                SendFlowView { stage: SendStage::ShowingPassphrase, ..self },
                SendActionView::ShowPassphrase(passphrase),
            ),
            (SendStage::ShowingPassphrase, SendEventView::Shown) => (
                SendFlowView { stage: SendStage::AwaitingPeer, ..self },
                SendActionView::AwaitPeer,
            ),
            (SendStage::AwaitingPeer, SendEventView::PeerAnnounced(notice)) => (
                SendFlowView { stage: SendStage::Connecting, ..self },
                SendActionView::Connect { notice, upload: self.options.upload(self.file_size) },
            ),
            (SendStage::Connecting, SendEventView::Connected) => (
                SendFlowView { stage: SendStage::Streaming, ..self },
                SendActionView::Stream(None),
            ),
            (SendStage::Streaming, SendEventView::Chunk(n)) => (
                SendFlowView { progress: self.progress.after(n), ..self },
                SendActionView::Stream(
                    if self.progress.due_next() {
                        Some(self.progress.after(n).bytes)
                    } else {
                        None
                    },
                ),
            ),
            (SendStage::Streaming, SendEventView::EndOfFile) => (
                SendFlowView { stage: SendStage::Done, ..self },
                SendActionView::End,
            ),
            _ => (self, SendActionView::Ignore),
        }
    }
}

impl SendFlow {
    /// A sender before anything has happened. `hostname` is this machine's
    /// name, if it has one.
    pub fn new(options: Send, hostname: Option<String>) -> (flow: SendFlow)
        ensures
            flow@ == SendFlowView::start(options@, text_view(hostname)),
    {
        let progress = Progress::new(options.chunk_size());
        SendFlow { options, hostname, stage: SendStage::Idle, file_size: 0, progress }
    }

    /// Takes what has happened and says what to do next.
    pub fn step(self, event: SendEvent) -> (r: (SendFlow, SendAction))
        requires
            event matches SendEvent::Chunk(n) ==> self@.progress.bytes + n <= u64::MAX,
        ensures
            (r.0@, r.1@) == self@.step(event@),
    {
        let SendFlow { options, hostname, stage, file_size, progress } = self;
        match (stage, event) {
            (SendStage::Idle, SendEvent::Started { file_size, file_hash }) => {
                let label = crate::relay::clone_text(&hostname);
                let action = SendAction::Register(options.registration(label, file_size, file_hash));
                (
                    SendFlow { options, hostname, stage: SendStage::Registering, file_size, progress },
                    action,
                )
            },
            (SendStage::Registering, SendEvent::PassphraseProvided(message)) => (
                SendFlow {
                    options,
                    hostname,
                    stage: SendStage::ShowingPassphrase,
                    file_size,
                    progress,
                },
                SendAction::ShowPassphrase(message.passphrase),
            ),
            (SendStage::ShowingPassphrase, SendEvent::Shown) => (
                SendFlow { options, hostname, stage: SendStage::AwaitingPeer, file_size, progress },
                SendAction::AwaitPeer,
            ),
            (SendStage::AwaitingPeer, SendEvent::PeerAnnounced(notice)) => {
                let action = SendAction::Connect {
                    notice,
                    upload: options.describe_upload(file_size),
                };
                (
                    SendFlow { options, hostname, stage: SendStage::Connecting, file_size, progress },
                    action,
                )
            },
            (SendStage::Connecting, SendEvent::Connected) => (
                SendFlow { options, hostname, stage: SendStage::Streaming, file_size, progress },
                SendAction::Stream(None),
            ),
            (SendStage::Streaming, SendEvent::Chunk(n)) => {
                let mut progress = progress;
                let position = progress.record(n);
                (
                    SendFlow { options, hostname, stage: SendStage::Streaming, file_size, progress },
                    SendAction::Stream(position),
                )
            },
            (SendStage::Streaming, SendEvent::EndOfFile) => (
                SendFlow { options, hostname, stage: SendStage::Done, file_size, progress },
                SendAction::End,
            ),
            (stage, _) => (
                SendFlow { options, hostname, stage, file_size, progress },
                SendAction::Ignore,
            ),
        }
    }

    /// The bytes that have gone out so far.
    pub fn bytes(&self) -> (bytes: u64)
        ensures
            bytes == self@.progress.bytes,
    {
        self.progress.bytes()
    }

    /// Whether the sender is through, so that no event will ask for
    /// anything any more.
    pub fn is_done(&self) -> (done: bool)
        ensures
            done == (self@.stage == SendStage::Done),
    {
        match self.stage {
            SendStage::Done => true,
            _ => false,
        }
    }
}

/// The sender's state after `events`, one after the other.
pub open spec fn send_run(flow: SendFlowView, events: Seq<SendEventView>) -> SendFlowView
    decreases events.len(),
{
    if events.len() == 0 {
        flow
    } else {
        send_run(flow.step(events.first()).0, events.drop_first())
    }
}

/// A sender streams only to a peer that the relay announced. Whatever
/// happens to a sender from its start on, and in whatever order: if it has
/// come to connect or to stream, then the relay has handed it a passphrase
/// and has announced a receiver, in that order.
pub proof fn lemma_send_streams_only_after_announcement(
    options: SendView,
    hostname: Option<Seq<char>>,
    events: Seq<SendEventView>,
)
    requires
        ({
            let stage = send_run(SendFlowView::start(options, hostname), events).stage;
            stage == SendStage::Connecting || stage == SendStage::Streaming || stage
                == SendStage::Done
        }),
    ensures
        exists|i: int, j: int|
            0 <= i < j < events.len() && (#[trigger] events[i]) is PassphraseProvided && (
            #[trigger] events[j]) is PeerAnnounced,
{
    lemma_send_history(SendFlowView::start(options, hostname), events);
}

/// How far the events that have happened must have brought a sender at
/// least, for it to be in the stage it is in.
spec fn send_rank(stage: SendStage) -> int {
    match stage {
        SendStage::Idle => 0,
        SendStage::Registering => 1,
        SendStage::ShowingPassphrase => 2,
        SendStage::AwaitingPeer => 3,
        SendStage::Connecting => 4,
        SendStage::Streaming => 5,
        SendStage::Done => 6,
    }
}

proof fn lemma_send_history(flow: SendFlowView, events: Seq<SendEventView>)
    ensures
        send_rank(flow.stage) <= 3 && send_rank(send_run(flow, events).stage) >= 4 ==> exists|
            j: int,
        |
            0 <= j < events.len() && (#[trigger] events[j]) is PeerAnnounced,
        send_rank(flow.stage) <= 1 && send_rank(send_run(flow, events).stage) >= 4 ==> exists|
            i: int,
            j: int,
        |
            0 <= i < j < events.len() && (#[trigger] events[i]) is PassphraseProvided && (
            #[trigger] events[j]) is PeerAnnounced,
    decreases events.len(),
{
    if events.len() > 0 {
        let next = flow.step(events.first()).0;
        let rest = events.drop_first();
        lemma_send_history(next, rest);
        assert(forall|k: int| 0 <= k < rest.len() ==> rest[k] == events[k + 1]);
        if send_rank(flow.stage) <= 3 && send_rank(send_run(flow, events).stage) >= 4 {
            if send_rank(next.stage) <= 3 {
                let j = choose|j: int| 0 <= j < rest.len() && (#[trigger] rest[j]) is PeerAnnounced;
                assert(events[j + 1] is PeerAnnounced);
            } else {
                assert(events[0] is PeerAnnounced);
            }
        }
        if send_rank(flow.stage) <= 1 && send_rank(send_run(flow, events).stage) >= 4 {
            if send_rank(next.stage) <= 1 {
                let (i, j) = choose|i: int, j: int|
                    0 <= i < j < rest.len() && (#[trigger] rest[i]) is PassphraseProvided && (
                    #[trigger] rest[j]) is PeerAnnounced;
                assert(events[i + 1] is PassphraseProvided);
                assert(events[j + 1] is PeerAnnounced);
            } else {
                assert(events[0] is PassphraseProvided);
                let j = choose|j: int| 0 <= j < rest.len() && (#[trigger] rest[j]) is PeerAnnounced;
                assert(events[j + 1] is PeerAnnounced);
            }
        }
    }
}

/// The sum of `sizes`.
pub open spec fn spec_total(sizes: Seq<nat>) -> nat
    decreases sizes.len(),
{
    if sizes.len() == 0 {
        0
    } else {
        sizes.first() + spec_total(sizes.drop_first())
    }
}

/// The events of chunks of these sizes going out, one after the other.
pub open spec fn send_chunks(sizes: Seq<nat>) -> Seq<SendEventView> {
    Seq::new(sizes.len(), |i: int| SendEventView::Chunk(sizes[i]))
}

/// The events of chunks of these sizes coming in, one after the other.
pub open spec fn get_chunks(sizes: Seq<nat>) -> Seq<GetEventView> {
    Seq::new(sizes.len(), |i: int| GetEventView::Chunk(sizes[i]))
}

/// What leads a sender from its start to the stream: the file is looked
/// at, the relay gives a passphrase, it is shown, the relay announces a
/// receiver, the connection is made.
pub open spec fn send_handshake(
    file_size: u64,
    file_hash: Option<Seq<char>>,
    passphrase: Seq<char>,
    notice: X2SSenderConnectToReceiverView,
) -> Seq<SendEventView> {
    seq![
        SendEventView::Started { file_size, file_hash },
        SendEventView::PassphraseProvided(passphrase),
        SendEventView::Shown,
        SendEventView::PeerAnnounced(notice),
        SendEventView::Connected,
    ]
}

/// What leads a receiver from its start to the stream: the relay shows
/// the record, the offer is shown, the user says yes if asked, the
/// connection is made.
pub open spec fn get_handshake(force: bool, record: FileInfoView) -> Seq<GetEventView> {
    if force {
        seq![
            GetEventView::Started,
            GetEventView::FileInfo(record),
            GetEventView::Shown,
            GetEventView::Connected,
        ]
    } else {
        seq![
            GetEventView::Started,
            GetEventView::FileInfo(record),
            GetEventView::Shown,
            GetEventView::Answer(true),
            GetEventView::Connected,
        ]
    }
}

proof fn lemma_send_run_chunks(flow: SendFlowView, sizes: Seq<nat>)
    requires
        flow.stage == SendStage::Streaming,
        flow.progress.bytes + spec_total(sizes) <= u64::MAX,
    ensures
        send_run(flow, send_chunks(sizes)).stage == SendStage::Streaming,
        send_run(flow, send_chunks(sizes)).progress.bytes == flow.progress.bytes + spec_total(
            sizes,
        ),
    decreases sizes.len(),
{
    if sizes.len() > 0 {
        assert(send_chunks(sizes).first() == SendEventView::Chunk(sizes.first()));
        assert(send_chunks(sizes).drop_first() =~= send_chunks(sizes.drop_first()));
        lemma_send_run_chunks(flow.step(send_chunks(sizes).first()).0, sizes.drop_first());
    }
}

proof fn lemma_get_run_chunks(flow: GetFlowView, sizes: Seq<nat>)
    requires
        flow.stage is Receiving,
        flow.progress.bytes + spec_total(sizes) <= u64::MAX,
    ensures
        get_run(flow, get_chunks(sizes)).stage is Receiving,
        get_run(flow, get_chunks(sizes)).progress.bytes == flow.progress.bytes + spec_total(sizes),
    decreases sizes.len(),
{
    if sizes.len() > 0 {
        assert(get_chunks(sizes).first() == GetEventView::Chunk(sizes.first()));
        assert(get_chunks(sizes).drop_first() =~= get_chunks(sizes.drop_first()));
        lemma_get_run_chunks(flow.step(get_chunks(sizes).first()).0, sizes.drop_first());
    }
}

proof fn lemma_send_run_append(flow: SendFlowView, a: Seq<SendEventView>, b: Seq<SendEventView>)
    ensures
        send_run(flow, a + b) == send_run(send_run(flow, a), b),
    decreases a.len(),
{
    if a.len() == 0 {
        assert(a + b =~= b);
    } else {
        assert((a + b).first() == a.first());
        assert((a + b).drop_first() =~= a.drop_first() + b);
        lemma_send_run_append(flow.step(a.first()).0, a.drop_first(), b);
    }
}

proof fn lemma_get_run_append(flow: GetFlowView, a: Seq<GetEventView>, b: Seq<GetEventView>)
    ensures
        get_run(flow, a + b) == get_run(get_run(flow, a), b),
    decreases a.len(),
{
    if a.len() == 0 {
        assert(a + b =~= b);
    } else {
        assert((a + b).first() == a.first());
        assert((a + b).drop_first() =~= a.drop_first() + b);
        lemma_get_run_append(flow.step(a.first()).0, a.drop_first(), b);
    }
}

/// A sender goes through to the end, whatever its chunk size. From its
/// start, the handshake and then chunks of any sizes, as long as their
/// sum can be counted, leave it streaming with every byte counted, and
/// the end of the file then has it end the stream and be done.
pub proof fn lemma_send_goes_through(
    options: SendView,
    hostname: Option<Seq<char>>,
    file_size: u64,
    file_hash: Option<Seq<char>>,
    passphrase: Seq<char>,
    notice: X2SSenderConnectToReceiverView,
    sizes: Seq<nat>,
)
    requires
        spec_total(sizes) <= u64::MAX,
    ensures
        ({
            let events = send_handshake(file_size, file_hash, passphrase, notice) + send_chunks(
                sizes,
            );
            let streaming = send_run(SendFlowView::start(options, hostname), events);
            &&& streaming.stage == SendStage::Streaming
            &&& streaming.progress.bytes == spec_total(sizes)
            &&& streaming.step(SendEventView::EndOfFile).1 == SendActionView::End
            &&& streaming.step(SendEventView::EndOfFile).0.stage == SendStage::Done
        }),
{
    let start = SendFlowView::start(options, hostname);
    let handshake = send_handshake(file_size, file_hash, passphrase, notice);
    reveal_with_fuel(send_run, 6);
    let connected = send_run(start, handshake);
    assert(connected.stage == SendStage::Streaming);
    assert(connected.progress.bytes == 0);
    lemma_send_run_append(start, handshake, send_chunks(sizes));
    lemma_send_run_chunks(connected, sizes);
}

/// A receiver goes through to the end, whatever its chunk size. From its
/// start, the handshake, with the user's yes where it is asked for, and
/// then chunks of any sizes, as long as their sum can be counted, leave
/// it receiving with every byte counted, and the end of the stream then
/// has it finish and be done.
pub proof fn lemma_get_goes_through(
    options: GetView,
    hostname: Option<Seq<char>>,
    record: FileInfoView,
    sizes: Seq<nat>,
)
    requires
        spec_total(sizes) <= u64::MAX,
    ensures
        ({
            let events = get_handshake(options.force, record) + get_chunks(sizes);
            let receiving = get_run(GetFlowView::start(options, hostname), events);
            &&& receiving.stage is Receiving
            &&& receiving.progress.bytes == spec_total(sizes)
            &&& receiving.step(GetEventView::EndOfStream).1 == GetActionView::Finish
            &&& receiving.step(GetEventView::EndOfStream).0.stage is Done
        }),
{
    let start = GetFlowView::start(options, hostname);
    let handshake = get_handshake(options.force, record);
    reveal_with_fuel(get_run, 6);
    let connected = get_run(start, handshake);
    assert(connected.stage is Receiving);
    assert(connected.progress.bytes == 0);
    lemma_get_run_append(start, handshake, get_chunks(sizes));
    lemma_get_run_chunks(connected, sizes);
}

} // verus!
