//! The rendezvous relay: pairs a sender and a receiver by passphrase.
//!
//! The relay keeps one record for each transfer that a sender has announced
//! and no receiver has claimed yet. A record appears when a sender
//! registers, can be looked up any number of times, and disappears the
//! moment a receiver confirms it with the right file hash. The relay never
//! sees file contents, only these records and the addresses of both sides.

use vstd::prelude::*;
use vstd::hash_map::StringHashMap;
use crate::error::NudgeError;
use crate::passphrase::{spec_default_words, spec_generate, PassphraseGenerator};
use crate::wire::{decode_message, lemma_tags_are_distinct, spec_has_tag, spec_payload, Command};

verus! {

/// An internet address.
#[derive(Clone, Copy, Debug, PartialEq, Eq, Structural)]
pub enum IpAddress {
    /// The four bytes of an IPv4 address, first byte most significant.
    V4(u32),
    /// The sixteen bytes of an IPv6 address, first byte most significant.
    V6(u128),
}

/// Where a peer can be reached: the address and port that its datagrams
/// were seen to come from.
#[derive(Clone, Copy, Debug, PartialEq, Eq, Structural)]
pub struct Endpoint {
    pub ip: IpAddress,
    pub port: u16,
}

/// The view of a text that may be withheld.
pub open spec fn text_view(text: Option<String>) -> Option<Seq<char>> {
    match text {
        Some(s) => Some(s@),
        None => None,
    }
}

/// Copies a text that may be withheld.
pub fn clone_text(text: &Option<String>) -> (copy: Option<String>)
    ensures
        copy == *text,
{
    match text {
        Some(s) => Some(s.clone()),
        None => None,
    }
}

/// Whether two texts that may be withheld are the same: both withheld, or
/// both given and equal character for character.
pub fn same_text(a: &Option<String>, b: &Option<String>) -> (same: bool)
    ensures
        same == (text_view(*a) == text_view(*b)),
{
    match (a, b) {
        (Some(x), Some(y)) => *x == *y,
        (None, None) => true,
        _ => false,
    }
}

/// What the relay knows of a pending transfer.
#[derive(Debug)]
pub struct FileInfo {
    /// Size of the file in bytes.
    pub file_size: u64,
    /// Name of the file, without any directory.
    pub file_name: String,
    /// Hash of the file's contents; absent if the sender skipped hashing.
    pub file_hash: Option<String>,
    /// When the transfer was registered, in milliseconds since the epoch.
    pub created_at: u64,
    /// The sender's host label; absent if the sender withheld it.
    pub sender_host: Option<String>,
    /// Where the sender's registration was seen to come from.
    pub sender_addr: Endpoint,
}

/// The mathematical content of a [`FileInfo`].
pub ghost struct FileInfoView {
    pub file_size: u64,
    pub file_name: Seq<char>,
    pub file_hash: Option<Seq<char>>,
    pub created_at: u64,
    pub sender_host: Option<Seq<char>>,
    pub sender_addr: Endpoint,
}

impl View for FileInfo {
    type V = FileInfoView;

    open spec fn view(&self) -> FileInfoView {
        FileInfoView {
            file_size: self.file_size,
            file_name: self.file_name@,
            file_hash: text_view(self.file_hash),
            created_at: self.created_at,
            sender_host: text_view(self.sender_host),
            sender_addr: self.sender_addr,
        }
    }
}

impl Clone for FileInfo {
    fn clone(&self) -> (copy: FileInfo)
        ensures
            copy == *self,
    {
        FileInfo {
            file_size: self.file_size,
            file_name: self.file_name.clone(),
            file_hash: clone_text(&self.file_hash),
            created_at: self.created_at,
            sender_host: clone_text(&self.sender_host),
            sender_addr: self.sender_addr,
        }
    }
}

/// A sender's request for a passphrase. It names no address: the relay
/// takes the sender's address from where the request came from.
#[derive(Debug)]
pub struct S2XRequestPassphraseMessage {
    pub sender_host: Option<String>,
    pub file_size: u64,
    pub file_hash: Option<String>,
    pub file_name: String,
}

/// The mathematical content of a [`S2XRequestPassphraseMessage`].
pub ghost struct S2XRequestPassphraseView {
    pub sender_host: Option<Seq<char>>,
    pub file_size: u64,
    pub file_hash: Option<Seq<char>>,
    pub file_name: Seq<char>,
}

impl View for S2XRequestPassphraseMessage {
    type V = S2XRequestPassphraseView;

    open spec fn view(&self) -> S2XRequestPassphraseView {
        S2XRequestPassphraseView {
            sender_host: text_view(self.sender_host),
            file_size: self.file_size,
            file_hash: text_view(self.file_hash),
            file_name: self.file_name@,
        }
    }
}

/// The relay's answer to a registration: the passphrase to pass on.
#[derive(Debug)]
pub struct X2SPassphraseProvidedMessage {
    pub passphrase: String,
}

impl View for X2SPassphraseProvidedMessage {
    type V = Seq<char>;

    /// The passphrase.
    open spec fn view(&self) -> Seq<char> {
        self.passphrase@
    }
}

/// A receiver's request for the record behind a passphrase.
#[derive(Debug)]
pub struct R2XRequestFileInfoMessage {
    pub passphrase: String,
}

impl View for R2XRequestFileInfoMessage {
    type V = Seq<char>;

    /// The passphrase.
    open spec fn view(&self) -> Seq<char> {
        self.passphrase@
    }
}

/// A receiver's request to be connected with the sender. The hash shows
/// that the receiver has seen the record.
#[derive(Debug)]
pub struct R2XRequestSenderConnectionMessage {
    pub passphrase: String,
    pub file_hash: Option<String>,
    pub receiver_host: Option<String>,
}

/// The mathematical content of a [`R2XRequestSenderConnectionMessage`].
pub ghost struct R2XRequestSenderConnectionView {
    pub passphrase: Seq<char>,
    pub file_hash: Option<Seq<char>>,
    pub receiver_host: Option<Seq<char>>,
}

impl View for R2XRequestSenderConnectionMessage {
    type V = R2XRequestSenderConnectionView;

    open spec fn view(&self) -> R2XRequestSenderConnectionView {
        R2XRequestSenderConnectionView {
            passphrase: self.passphrase@,
            file_hash: text_view(self.file_hash),
            receiver_host: text_view(self.receiver_host),
        }
    }
}

/// The relay's word to the sender that a receiver is waiting, and where.
#[derive(Debug)]
pub struct X2SSenderConnectToReceiverMessage {
    pub receiver_addr: Endpoint,
    pub receiver_host: Option<String>,
}

/// The mathematical content of a [`X2SSenderConnectToReceiverMessage`].
pub ghost struct X2SSenderConnectToReceiverView {
    pub receiver_addr: Endpoint,
    pub receiver_host: Option<Seq<char>>,
}

impl View for X2SSenderConnectToReceiverMessage {
    type V = X2SSenderConnectToReceiverView;

    open spec fn view(&self) -> X2SSenderConnectToReceiverView {
        X2SSenderConnectToReceiverView {
            receiver_addr: self.receiver_addr,
            receiver_host: text_view(self.receiver_host),
        }
    }
}

/// A request that the relay serves.
#[derive(Debug)]
pub enum Request {
    RequestPassphrase(S2XRequestPassphraseMessage),
    RequestFileInfo(R2XRequestFileInfoMessage),
    RequestSenderConnection(R2XRequestSenderConnectionMessage),
}

/// A message that the relay sends in answer to a request, and to whom.
#[derive(Debug)]
pub enum Response {
    /// To the sender that registered: its passphrase.
    PassphraseProvided { to: Endpoint, message: X2SPassphraseProvidedMessage },
    /// To the receiver that asked: the record.
    FileInfoAvailable { to: Endpoint, record: FileInfo },
    /// To the sender of the confirmed transfer: the receiver's whereabouts.
    SenderConnectToReceiver { to: Endpoint, notice: X2SSenderConnectToReceiverMessage },
}

/// The mathematical content of a [`Response`].
pub ghost enum ResponseView {
    PassphraseProvided { to: Endpoint, passphrase: Seq<char> },
    FileInfoAvailable { to: Endpoint, record: FileInfoView },
    SenderConnectToReceiver {
        to: Endpoint,
        receiver_addr: Endpoint,
        receiver_host: Option<Seq<char>>,
    },
}

impl View for Response {
    type V = ResponseView;

    open spec fn view(&self) -> ResponseView {
        match self {
            Response::PassphraseProvided { to, message } => ResponseView::PassphraseProvided {
                to: *to,
                passphrase: message.passphrase@,
            },
            Response::FileInfoAvailable { to, record } => ResponseView::FileInfoAvailable {
                to: *to,
                record: record@,
            },
            Response::SenderConnectToReceiver {
                to,
                notice,
            } => ResponseView::SenderConnectToReceiver {
                to: *to,
                receiver_addr: notice.receiver_addr,
                receiver_host: text_view(notice.receiver_host),
            },
        }
    }
}

impl ResponseView {
    /// The tag under which the response travels.
    pub open spec fn command(self) -> Command {
        match self {
            ResponseView::PassphraseProvided { .. } => Command::PassphraseProvided,
            ResponseView::FileInfoAvailable { .. } => Command::FileInfoAvailable,
            ResponseView::SenderConnectToReceiver { .. } => Command::SenderConnectToReceiver,
        }
    }

    /// The peer that the response goes to.
    pub open spec fn destination(self) -> Endpoint {
        match self {
            ResponseView::PassphraseProvided { to, .. } => to,
            ResponseView::FileInfoAvailable { to, .. } => to,
            ResponseView::SenderConnectToReceiver { to, .. } => to,
        }
    }
}

impl Response {
    /// The tag under which the response travels.
    pub fn command(&self) -> (c: Command)
        ensures
            c == self@.command(),
    {
        match self {
            Response::PassphraseProvided { .. } => Command::PassphraseProvided,
            Response::FileInfoAvailable { .. } => Command::FileInfoAvailable,
            Response::SenderConnectToReceiver { .. } => Command::SenderConnectToReceiver,
        }
    }

    /// The peer that the response goes to.
    pub fn destination(&self) -> (to: Endpoint)
        ensures
            to == self@.destination(),
    {
        match self {
            Response::PassphraseProvided { to, .. } => *to,
            Response::FileInfoAvailable { to, .. } => *to,
            Response::SenderConnectToReceiver { to, .. } => *to,
        }
    }
}

/// The pending transfers, each under its passphrase.
pub type Sessions = Map<Seq<char>, FileInfoView>;

/// The record that a registration leaves behind. Every field is the
/// sender's own word except the address, which is where the request was
/// seen to come from.
pub open spec fn spec_record(
    message: S2XRequestPassphraseView,
    sender_addr: Endpoint,
    created_at: u64,
) -> FileInfoView {
    FileInfoView {
        file_size: message.file_size,
        file_name: message.file_name,
        file_hash: message.file_hash,
        created_at,
        sender_host: message.sender_host,
        sender_addr,
    }
}

/// The sessions after a transfer was registered under `passphrase`. A
/// session that was pending under the same passphrase is replaced: the
/// last registration wins.
pub open spec fn spec_register(
    sessions: Sessions,
    passphrase: Seq<char>,
    record: FileInfoView,
) -> Sessions {
    sessions.insert(passphrase, record)
}

/// What a lookup of `passphrase` finds.
pub open spec fn spec_lookup(sessions: Sessions, passphrase: Seq<char>) -> Result<
    FileInfoView,
    NudgeError,
> {
    if sessions.contains_key(passphrase) {
        Ok(sessions[passphrase])
    } else {
        Err(NudgeError::PassphraseNotFound)
    }
}

/// Whether a confirmation is valid: a transfer is pending under
/// `passphrase`, and `claimed_hash` is exactly the hash on record.
pub open spec fn spec_confirms(
    sessions: Sessions,
    passphrase: Seq<char>,
    claimed_hash: Option<Seq<char>>,
) -> bool {
    sessions.contains_key(passphrase) && sessions[passphrase].file_hash == claimed_hash
}

/// The sessions after a confirmation: a valid one consumes the session,
/// any other changes nothing.
pub open spec fn spec_after_confirm(
    sessions: Sessions,
    passphrase: Seq<char>,
    claimed_hash: Option<Seq<char>>,
) -> Sessions {
    if spec_confirms(sessions, passphrase, claimed_hash) {
        sessions.remove(passphrase)
    } else {
        sessions
    }
}

/// Reads a datagram that reached the relay: finds which of the three
/// requests it is and takes out the payload. A datagram that bears the tag
/// of none of them, be it noise or one of the relay's own answers, gives
/// `None` and is passed over.
pub fn read_request(datagram: &[u8]) -> (r: Option<(Command, Vec<u8>)>)
    ensures
        match r {
            Some((command, payload)) => {
                &&& command.spec_is_request()
                &&& spec_has_tag(datagram@, command)
                &&& payload@ == spec_payload(datagram@, command)
            },
            None => forall|command: Command|
                command.spec_is_request() ==> !spec_has_tag(datagram@, command),
        },
{
    match decode_message(datagram) {
        Some((command, payload)) => {
            if command.is_request() {
                Some((command, payload))
            } else {
                proof {
                    assert forall|other: Command| other.spec_is_request() implies !spec_has_tag(
                        datagram@,
                        other,
                    ) by {
                        if spec_has_tag(datagram@, other) {
                            lemma_tags_are_distinct(datagram@, command, other);
                        }
                    }
                }
                None
            }
        },
        None => None,
    }
}

/// What the relay is started with.
#[derive(Debug)]
pub struct RelayServerOpts {
    host: String,
    port: u16,
}

impl RelayServerOpts {
    /// Options for a relay that listens on `host` and `port`.
    pub fn new(host: String, port: u16) -> (opts: RelayServerOpts)
        ensures
            opts.spec_host() == host@,
            opts.spec_port() == port,
    {
        RelayServerOpts { host, port }
    }

    /// The host to listen on.
    pub closed spec fn spec_host(&self) -> Seq<char> {
        self.host@
    }

    /// The port to listen on.
    pub closed spec fn spec_port(&self) -> u16 {
        self.port
    }

    /// The host to listen on.
    pub fn host(&self) -> (host: &str)
        ensures
            host@ == self.spec_host(),
    {
        self.host.as_str()
    }

    /// The port to listen on.
    pub fn port(&self) -> (port: u16)
        ensures
            port == self.spec_port(),
    {
        self.port
    }
}

/// The relay: its options, its passphrase generator and the transfers that
/// are pending.
pub struct RelayServer {
    opts: RelayServerOpts,
    passphrase_generator: PassphraseGenerator,
    client_map: StringHashMap<FileInfo>,
}

impl RelayServer {
    /// The pending transfers, each under its passphrase.
    pub closed spec fn sessions(&self) -> Sessions {
        Map::new(
            |passphrase: Seq<char>| self.client_map@.contains_key(passphrase),
            |passphrase: Seq<char>| self.client_map@[passphrase]@,
        )
    }

    /// The options that the relay was started with.
    pub closed spec fn spec_opts(&self) -> RelayServerOpts {
        self.opts
    }

    /// The words that the relay makes its passphrases of.
    pub closed spec fn words(&self) -> Seq<Seq<char>> {
        self.passphrase_generator@
    }

    /// A relay without pending transfers that makes its passphrases of the
    /// built-in words.
    pub fn new(opts: RelayServerOpts) -> (r: Result<RelayServer, NudgeError>)
        ensures
            r is Ok,
            r->Ok_0.sessions() == Map::<Seq<char>, FileInfoView>::empty(),
            r->Ok_0.spec_opts() == opts,
            r->Ok_0.words() == spec_default_words(),
    {
        match PassphraseGenerator::new() {
            Ok(passphrase_generator) => Ok(RelayServer::with_generator(opts, passphrase_generator)),
            Err(e) => Err(e),
        }
    }

    /// A relay without pending transfers that makes its passphrases with
    /// `passphrase_generator`.
    pub fn with_generator(opts: RelayServerOpts, passphrase_generator: PassphraseGenerator) -> (server:
        RelayServer)
        ensures
            server.sessions() == Map::<Seq<char>, FileInfoView>::empty(),
            server.spec_opts() == opts,
            server.words() == passphrase_generator@,
    {
        let server = RelayServer { opts, passphrase_generator, client_map: StringHashMap::new() };
        assert(server.sessions() =~= Map::<Seq<char>, FileInfoView>::empty());
        server
    }

    /// The options that the relay was started with.
    pub fn opts(&self) -> (opts: &RelayServerOpts)
        ensures
            *opts == self.spec_opts(),
    {
        &self.opts
    }

    /// Registers a transfer and returns the passphrase it is pending under.
    ///
    /// The passphrase is the one that `draws` stand for, one word for each
    /// draw; the draws are chance and come from the caller. Without a draw
    /// the generator has nothing to give: the registration fails and
    /// nothing is stored. `sender_addr` is where the request was seen to
    /// come from and `created_at` is the time of its arrival. A transfer
    /// that was pending under the same passphrase is replaced.
    pub fn register_transfer(
        &mut self,
        message: S2XRequestPassphraseMessage,
        sender_addr: Endpoint,
        created_at: u64,
        draws: &[u64],
    ) -> (r: Result<String, NudgeError>)
        ensures
            final(self).spec_opts() == old(self).spec_opts(),
            final(self).words() == old(self).words(),
            match spec_generate(old(self).words(), draws@) {
                Some(passphrase) => {
                    &&& r matches Ok(given)
                    &&& given@ == passphrase
                    &&& final(self).sessions() == spec_register(
                        old(self).sessions(),
                        passphrase,
                        spec_record(message@, sender_addr, created_at),
                    )
                },
                None => {
                    &&& r == Err::<String, NudgeError>(NudgeError::PassphraseGenerationError)
                    &&& final(self).sessions() == old(self).sessions()
                },
            },
    {
        let file_info = FileInfo {
            file_size: message.file_size,
            file_name: message.file_name,
            file_hash: message.file_hash,
            created_at,
            sender_host: message.sender_host,
            sender_addr,
        };
        match self.passphrase_generator.generate(draws) {
            None => Err(NudgeError::PassphraseGenerationError),
            Some(passphrase) => {
                self.client_map.insert(passphrase.clone(), file_info);
                assert(self.sessions() =~= spec_register(
                    old(self).sessions(),
                    passphrase@,
                    spec_record(message@, sender_addr, created_at),
                ));
                Ok(passphrase)
            },
        }
    }

    /// Looks up the transfer that is pending under `passphrase`. The store
    /// is left as it is.
    pub fn lookup_transfer(&self, passphrase: &str) -> (r: Result<&FileInfo, NudgeError>)
        ensures
            match r {
                Ok(record) => spec_lookup(self.sessions(), passphrase@) == Ok::<
                    FileInfoView,
                    NudgeError,
                >(record@),
                Err(e) => spec_lookup(self.sessions(), passphrase@) == Err::<
                    FileInfoView,
                    NudgeError,
                >(e),
            },
    {
        match self.client_map.get(passphrase) {
            Some(file_info) => Ok(file_info),
            None => Err(NudgeError::PassphraseNotFound),
        }
    }

    /// Confirms a transfer and says what to tell its sender, and where.
    ///
    /// The confirmation is valid if a transfer is pending under
    /// `passphrase` and `claimed_hash` is exactly the hash on its record.
    /// Then the record is removed, and the answer is the sender's address
    /// together with the notice for it: the address that the confirmation
    /// was seen to come from and the receiver's host label. With that the
    /// relay's part in this transfer is over. Otherwise the answer is
    /// `PassphraseNotFound`, whether the passphrase or the hash was wrong,
    /// and nothing changes.
    pub fn confirm_and_connect(
        &mut self,
        passphrase: &str,
        receiver_host: Option<String>,
        receiver_addr: Endpoint,
        claimed_hash: &Option<String>,
    ) -> (r: Result<(Endpoint, X2SSenderConnectToReceiverMessage), NudgeError>)
        ensures
            final(self).spec_opts() == old(self).spec_opts(),
            final(self).words() == old(self).words(),
            final(self).sessions() == spec_after_confirm(
                old(self).sessions(),
                passphrase@,
                text_view(*claimed_hash),
            ),
            match r {
                Ok((sender_addr, notice)) => {
                    &&& spec_confirms(old(self).sessions(), passphrase@, text_view(*claimed_hash))
                    &&& sender_addr == old(self).sessions()[passphrase@].sender_addr
                    &&& notice.receiver_addr == receiver_addr
                    &&& text_view(notice.receiver_host) == text_view(receiver_host)
                },
                Err(e) => {
                    &&& !spec_confirms(old(self).sessions(), passphrase@, text_view(*claimed_hash))
                    &&& e == NudgeError::PassphraseNotFound
                },
            },
    {
        let sender_addr = match self.client_map.get(passphrase) {
            Some(file_info) => {
                if same_text(&file_info.file_hash, claimed_hash) {
                    file_info.sender_addr
                } else {
                    return Err(NudgeError::PassphraseNotFound);
                }
            },
            None => {
                return Err(NudgeError::PassphraseNotFound);
            },
        };
        self.client_map.remove(passphrase);
        assert(self.sessions() =~= old(self).sessions().remove(passphrase@));
        Ok((sender_addr, X2SSenderConnectToReceiverMessage { receiver_addr, receiver_host }))
    }

    /// What the relay answers to `request`, and how its sessions change.
    pub open spec fn spec_handle(
        sessions: Sessions,
        request: Request,
        from: Endpoint,
        now: u64,
        generated: Option<Seq<char>>,
    ) -> (Sessions, Result<ResponseView, NudgeError>) {
        match request {
            Request::RequestPassphrase(message) => match generated {
                Some(passphrase) => (
                    spec_register(sessions, passphrase, spec_record(message@, from, now)),
                    Ok(ResponseView::PassphraseProvided { to: from, passphrase }),
                ),
                None => (sessions, Err(NudgeError::PassphraseGenerationError)),
            },
            Request::RequestFileInfo(message) => (
                sessions,
                match spec_lookup(sessions, message.passphrase@) {
                    Ok(record) => Ok(ResponseView::FileInfoAvailable { to: from, record }),
                    Err(e) => Err(e),
                },
            ),
            Request::RequestSenderConnection(message) => (
                spec_after_confirm(sessions, message.passphrase@, text_view(message.file_hash)),
                if spec_confirms(sessions, message.passphrase@, text_view(message.file_hash)) {
                    Ok(
                        ResponseView::SenderConnectToReceiver {
                            to: sessions[message.passphrase@].sender_addr,
                            receiver_addr: from,
                            receiver_host: text_view(message.receiver_host),
                        },
                    )
                } else {
                    Err(NudgeError::PassphraseNotFound)
                },
            ),
        }
    }

    /// Serves one request that was seen to come from `from` at time `now`.
    ///
    /// A registration is answered to the sender with its passphrase, which
    /// is the one that `draws` stand for; no other request looks at the
    /// draws. A request for file information is answered to the receiver
    /// with the record. A valid confirmation is answered not to the
    /// receiver but to the sender of the transfer, with the address that
    /// the confirmation was seen to come from. A request that fails changes
    /// nothing and is answered to nobody.
    pub fn handle_request(
        &mut self,
        request: Request,
        from: Endpoint,
        now: u64,
        draws: &[u64],
    ) -> (r: Result<Response, NudgeError>)
        ensures
            final(self).spec_opts() == old(self).spec_opts(),
            final(self).words() == old(self).words(),
            final(self).sessions() == Self::spec_handle(
                old(self).sessions(),
                request,
                from,
                now,
                spec_generate(old(self).words(), draws@),
            ).0,
            match r {
                Ok(response) => Self::spec_handle(
                    old(self).sessions(),
                    request,
                    from,
                    now,
                    spec_generate(old(self).words(), draws@),
                ).1 == Ok::<ResponseView, NudgeError>(response@),
                Err(e) => Self::spec_handle(
                    old(self).sessions(),
                    request,
                    from,
                    now,
                    spec_generate(old(self).words(), draws@),
                ).1 == Err::<ResponseView, NudgeError>(e),
            },
    {
        match request {
            Request::RequestPassphrase(message) => {
                match self.register_transfer(message, from, now, draws) {
                    Ok(passphrase) => Ok(
                        Response::PassphraseProvided {
                            to: from,
                            message: X2SPassphraseProvidedMessage { passphrase },
                        },
                    ),
                    Err(e) => Err(e),
                }
            },
            Request::RequestFileInfo(message) => {
                match self.lookup_transfer(message.passphrase.as_str()) {
                    Ok(record) => Ok(
                        Response::FileInfoAvailable { to: from, record: record.clone() },
                    ),
                    Err(e) => Err(e),
                }
            },
            Request::RequestSenderConnection(message) => {
                match self.confirm_and_connect(
                    message.passphrase.as_str(),
                    message.receiver_host,
                    from,
                    &message.file_hash,
                ) {
                    Ok((sender_addr, notice)) => Ok(
                        Response::SenderConnectToReceiver { to: sender_addr, notice },
                    ),
                    Err(e) => Err(e),
                }
            },
        }
    }
}

/// Registration and lookup round-trip. After a transfer was registered, a
/// lookup with its passphrase finds a record whose fields are those that
/// were registered, and whose address is the one the registration was seen
/// to come from.
pub proof fn lemma_lookup_finds_registration(
    sessions: Sessions,
    passphrase: Seq<char>,
    message: S2XRequestPassphraseView,
    sender_addr: Endpoint,
    created_at: u64,
)
    ensures
        spec_lookup(
            spec_register(sessions, passphrase, spec_record(message, sender_addr, created_at)),
            passphrase,
        ) == Ok::<FileInfoView, NudgeError>(spec_record(message, sender_addr, created_at)),
        spec_record(message, sender_addr, created_at).sender_addr == sender_addr,
        spec_record(message, sender_addr, created_at).file_name == message.file_name,
        spec_record(message, sender_addr, created_at).file_size == message.file_size,
        spec_record(message, sender_addr, created_at).file_hash == message.file_hash,
        spec_record(message, sender_addr, created_at).sender_host == message.sender_host,
{
}

/// A registration touches its own passphrase only. What a lookup of any
/// other passphrase finds, a record or nothing, is the same after the
/// registration as before.
pub proof fn lemma_registration_leaves_others(
    sessions: Sessions,
    passphrase: Seq<char>,
    record: FileInfoView,
    other: Seq<char>,
)
    requires
        other != passphrase,
    ensures
        spec_lookup(spec_register(sessions, passphrase, record), other) == spec_lookup(
            sessions,
            other,
        ),
{
}

/// A session lasts until it is confirmed. A transfer that is pending stays
/// pending, with its record untouched, through every request that is
/// neither a valid confirmation of it nor a registration that is given the
/// same passphrase.
pub proof fn lemma_session_lasts_until_confirmed(
    sessions: Sessions,
    passphrase: Seq<char>,
    request: Request,
    from: Endpoint,
    now: u64,
    generated: Option<Seq<char>>,
)
    requires
        sessions.contains_key(passphrase),
        request is RequestPassphrase ==> generated != Some(passphrase),
        request matches Request::RequestSenderConnection(message) ==> !(message.passphrase@
            == passphrase && spec_confirms(sessions, passphrase, text_view(message.file_hash))),
    ensures
        spec_lookup(
            RelayServer::spec_handle(sessions, request, from, now, generated).0,
            passphrase,
        ) == Ok::<FileInfoView, NudgeError>(sessions[passphrase]),
{
}

/// A request as it reaches the relay: what it asks, where it was seen to
/// come from, when, and what the passphrase generator gives for it.
pub ghost struct Arrival {
    pub request: Request,
    pub from: Endpoint,
    pub now: u64,
    pub generated: Option<Seq<char>>,
}

/// The sessions after the relay has served `arrivals`, one after the other.
pub open spec fn spec_serve(sessions: Sessions, arrivals: Seq<Arrival>) -> Sessions
    decreases arrivals.len(),
{
    if arrivals.len() == 0 {
        sessions
    } else {
        let first = arrivals.first();
        spec_serve(
            RelayServer::spec_handle(
                sessions,
                first.request,
                first.from,
                first.now,
                first.generated,
            ).0,
            arrivals.drop_first(),
        )
    }
}

/// Whether `arrival` ends the session that is pending under `passphrase`
/// with `record`: by confirming it with the hash on record, or by
/// registering another transfer under the same passphrase.
pub open spec fn spec_ends_session(
    arrival: Arrival,
    passphrase: Seq<char>,
    record: FileInfoView,
) -> bool {
    match arrival.request {
        Request::RequestPassphrase(_) => arrival.generated == Some(passphrase),
        Request::RequestFileInfo(_) => false,
        Request::RequestSenderConnection(message) => message.passphrase@ == passphrase
            && text_view(message.file_hash) == record.file_hash,
    }
}

/// A record is visible from registration to confirmation. However many
/// requests the relay serves, of whatever kind and from whomever: as long
/// as none of them confirms the transfer with the hash on record, and none
/// registers another transfer under its passphrase, a lookup finds the
/// record as it was registered.
pub proof fn lemma_record_is_visible_until_confirmed(
    sessions: Sessions,
    passphrase: Seq<char>,
    arrivals: Seq<Arrival>,
)
    requires
        sessions.contains_key(passphrase),
        forall|i: int|
            0 <= i < arrivals.len() ==> !spec_ends_session(
                #[trigger] arrivals[i],
                passphrase,
                sessions[passphrase],
            ),
    ensures
        spec_lookup(spec_serve(sessions, arrivals), passphrase) == Ok::<FileInfoView, NudgeError>(
            sessions[passphrase],
        ),
    decreases arrivals.len(),
{
    if arrivals.len() > 0 {
        let first = arrivals.first();
        let rest = arrivals.drop_first();
        assert(!spec_ends_session(arrivals[0], passphrase, sessions[passphrase]));
        lemma_session_lasts_until_confirmed(
            sessions,
            passphrase,
            first.request,
            first.from,
            first.now,
            first.generated,
        );
        let next = RelayServer::spec_handle(
            sessions,
            first.request,
            first.from,
            first.now,
            first.generated,
        ).0;
        assert forall|i: int| 0 <= i < rest.len() implies !spec_ends_session(
            #[trigger] rest[i],
            passphrase,
            next[passphrase],
        ) by {
            assert(rest[i] == arrivals[i + 1]);
        }
        lemma_record_is_visible_until_confirmed(next, passphrase, rest);
    }
}

/// Confirmation is single-use. After a valid confirmation, every further
/// confirmation with the same passphrase, whatever hash it claims, and
/// every lookup of it, fails with `PassphraseNotFound`.
pub proof fn lemma_confirmation_is_single_use(
    sessions: Sessions,
    passphrase: Seq<char>,
    claimed_hash: Option<Seq<char>>,
    second_hash: Option<Seq<char>>,
)
    requires
        spec_confirms(sessions, passphrase, claimed_hash),
    ensures
        !spec_confirms(
            spec_after_confirm(sessions, passphrase, claimed_hash),
            passphrase,
            second_hash,
        ),
        spec_lookup(spec_after_confirm(sessions, passphrase, claimed_hash), passphrase) == Err::<
            FileInfoView,
            NudgeError,
        >(NudgeError::PassphraseNotFound),
{
}

/// The hash gate. A confirmation whose claimed hash differs from the hash
/// on record is rejected and leaves the sessions as they were, so that a
/// later confirmation with the right hash is still valid.
pub proof fn lemma_hash_gate(
    sessions: Sessions,
    passphrase: Seq<char>,
    wrong_hash: Option<Seq<char>>,
)
    requires
        sessions.contains_key(passphrase),
        wrong_hash != sessions[passphrase].file_hash,
    ensures
        !spec_confirms(sessions, passphrase, wrong_hash),
        spec_after_confirm(sessions, passphrase, wrong_hash) == sessions,
        spec_confirms(
            spec_after_confirm(sessions, passphrase, wrong_hash),
            passphrase,
            sessions[passphrase].file_hash,
        ),
{
}

} // verus!
