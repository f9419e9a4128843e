use nudge::error::NudgeError;
use nudge::passphrase::PassphraseGenerator;
use nudge::relay::{
    clone_text, read_request, same_text, Endpoint, FileInfo, IpAddress,
    R2XRequestFileInfoMessage, R2XRequestSenderConnectionMessage, RelayServer, RelayServerOpts,
    Request, Response, S2XRequestPassphraseMessage,
};
use nudge::wire::{encode_message, Command};

const WORDS: [&str; 8] = ["correct", "horse", "p", "same", "a", "b", "Horse", "unused"];

/// A relay whose generator draws from `WORDS`.
fn server() -> RelayServer {
    let words = WORDS.iter().map(|w| w.to_string()).collect();
    RelayServer::with_generator(
        RelayServerOpts::new("0.0.0.0".to_string(), 4000),
        PassphraseGenerator::with_words(words).unwrap(),
    )
}

/// The draws that stand for `passphrase` with the generator of `server`.
fn text(passphrase: &str) -> Vec<u64> {
    passphrase
        .split('-')
        .map(|word| WORDS.iter().position(|w| *w == word).unwrap() as u64)
        .collect()
}

const NONE: [u64; 0] = [];

fn v4(a: u8, b: u8, c: u8, d: u8, port: u16) -> Endpoint {
    Endpoint { ip: IpAddress::V4(u32::from_be_bytes([a, b, c, d])), port }
}

fn registration(name: &str, size: u64, hash: Option<&str>) -> S2XRequestPassphraseMessage {
    S2XRequestPassphraseMessage {
        sender_host: Some("sender-host".to_string()),
        file_size: size,
        file_hash: hash.map(|h| h.to_string()),
        file_name: name.to_string(),
    }
}

fn some(s: &str) -> Option<String> {
    Some(s.to_string())
}

const RECEIVER: Endpoint = Endpoint { ip: IpAddress::V4(0xc0a8_0114), port: 50000 };

/// Confirms from `RECEIVER` and returns the address that the notice goes to.
fn confirm(relay: &mut RelayServer, passphrase: &str, claimed_hash: &Option<String>) -> Result<Endpoint, NudgeError> {
    relay
        .confirm_and_connect(passphrase, some("receiver-host"), RECEIVER, claimed_hash)
        .map(|(to, notice)| {
            assert_eq!(notice.receiver_addr, RECEIVER);
            assert_eq!(notice.receiver_host, some("receiver-host"));
            to
        })
}

#[test]
fn relay_with_built_in_words_registers_under_them() {
    let mut relay = RelayServer::new(RelayServerOpts::new("0.0.0.0".to_string(), 4000)).unwrap();
    let passphrase = relay.register_transfer(registration("a.bin", 1, None), v4(1, 1, 1, 1, 1), 0, &[0, 17, 31]).unwrap();
    // sixteen words: the draws pick the first, the second and the last
    assert_eq!(passphrase, "amber-basil-pearl");
    assert!(relay.lookup_transfer("amber-basil-pearl").is_ok());
}

#[test]
fn new_relay_keeps_its_options_and_has_no_sessions() {
    let relay = RelayServer::new(RelayServerOpts::new("127.0.0.1".to_string(), 4001)).unwrap();
    assert_eq!(relay.opts().host(), "127.0.0.1");
    assert_eq!(relay.opts().port(), 4001);
    assert_eq!(relay.lookup_transfer("anything").err(), Some(NudgeError::PassphraseNotFound));
}

#[test]
fn lookup_finds_what_was_registered() {
    let mut relay = server();
    let sender = v4(10, 0, 0, 1, 5000);
    let passphrase = relay
        .register_transfer(registration("a.bin", 1024, Some("deadbeef")), sender, 1_700_000_000_000, &text("correct-horse"))
        .unwrap();
    assert_eq!(passphrase, "correct-horse");
    let record = relay.lookup_transfer(&passphrase).unwrap();
    assert_eq!(record.file_name, "a.bin");
    assert_eq!(record.file_size, 1024);
    assert_eq!(record.file_hash, some("deadbeef"));
    assert_eq!(record.created_at, 1_700_000_000_000);
    assert_eq!(record.sender_host, some("sender-host"));
    assert_eq!(record.sender_addr, sender);
}

#[test]
fn lookup_does_not_consume_the_session() {
    let mut relay = server();
    relay.register_transfer(registration("a.bin", 1, None), v4(1, 1, 1, 1, 1), 0, &text("p")).unwrap();
    assert!(relay.lookup_transfer("p").is_ok());
    assert!(relay.lookup_transfer("p").is_ok());
}

#[test]
fn passphrases_are_case_sensitive() {
    let mut relay = server();
    relay.register_transfer(registration("a.bin", 1, None), v4(1, 1, 1, 1, 1), 0, &text("Horse")).unwrap();
    assert_eq!(relay.lookup_transfer("horse").err(), Some(NudgeError::PassphraseNotFound));
    assert!(relay.lookup_transfer("Horse").is_ok());
}

#[test]
fn exhausted_generator_fails_the_registration() {
    let mut relay = server();
    let r = relay.register_transfer(registration("a.bin", 1, None), v4(1, 1, 1, 1, 1), 0, &NONE);
    assert_eq!(r, Err(NudgeError::PassphraseGenerationError));
}

#[test]
fn colliding_passphrase_replaces_the_pending_session() {
    let mut relay = server();
    relay.register_transfer(registration("first.bin", 1, Some("aa")), v4(1, 1, 1, 1, 1), 0, &text("same")).unwrap();
    relay.register_transfer(registration("second.bin", 2, Some("bb")), v4(2, 2, 2, 2, 2), 1, &text("same")).unwrap();
    let record = relay.lookup_transfer("same").unwrap();
    assert_eq!(record.file_name, "second.bin");
    assert_eq!(record.sender_addr, v4(2, 2, 2, 2, 2));
    assert_eq!(confirm(&mut relay, "same", &some("aa")), Err(NudgeError::PassphraseNotFound));
    assert_eq!(confirm(&mut relay, "same", &some("bb")), Ok(v4(2, 2, 2, 2, 2)));
}

#[test]
fn confirmation_is_single_use() {
    let mut relay = server();
    let sender = v4(10, 0, 0, 1, 5000);
    relay.register_transfer(registration("a.bin", 1, Some("h")), sender, 0, &text("p")).unwrap();
    assert_eq!(confirm(&mut relay, "p", &some("h")), Ok(sender));
    assert_eq!(confirm(&mut relay, "p", &some("h")), Err(NudgeError::PassphraseNotFound));
    assert_eq!(relay.lookup_transfer("p").err(), Some(NudgeError::PassphraseNotFound));
}

#[test]
fn wrong_hash_is_rejected_and_leaves_the_session() {
    let mut relay = server();
    let sender = v4(10, 0, 0, 1, 5000);
    relay.register_transfer(registration("a.bin", 1, Some("deadbeef")), sender, 0, &text("p")).unwrap();
    // one character off, one character short, no hash at all
    assert_eq!(confirm(&mut relay, "p", &some("deadbeee")), Err(NudgeError::PassphraseNotFound));
    assert_eq!(confirm(&mut relay, "p", &some("deadbee")), Err(NudgeError::PassphraseNotFound));
    assert_eq!(confirm(&mut relay, "p", &None), Err(NudgeError::PassphraseNotFound));
    assert!(relay.lookup_transfer("p").is_ok());
    assert_eq!(confirm(&mut relay, "p", &some("deadbeef")), Ok(sender));
}

#[test]
fn unknown_passphrase_cannot_be_confirmed() {
    let mut relay = server();
    assert_eq!(confirm(&mut relay, "nobody", &None), Err(NudgeError::PassphraseNotFound));
}

#[test]
fn transfer_without_hash_is_confirmed_without_hash() {
    let mut relay = server();
    let sender = v4(10, 0, 0, 1, 5000);
    relay.register_transfer(registration("a.bin", 1, None), sender, 0, &text("p")).unwrap();
    assert_eq!(confirm(&mut relay, "p", &some("")), Err(NudgeError::PassphraseNotFound));
    assert_eq!(confirm(&mut relay, "p", &None), Ok(sender));
}

#[test]
fn confirming_one_session_leaves_the_others() {
    let mut relay = server();
    relay.register_transfer(registration("a.bin", 1, Some("ha")), v4(1, 1, 1, 1, 1), 0, &text("a")).unwrap();
    relay.register_transfer(registration("b.bin", 2, Some("hb")), v4(2, 2, 2, 2, 2), 0, &text("b")).unwrap();
    assert!(confirm(&mut relay, "a", &some("ha")).is_ok());
    assert_eq!(relay.lookup_transfer("b").unwrap().file_name, "b.bin");
}

#[test]
fn sender_registers_receiver_looks_up_and_confirms() {
    let mut relay = server();
    let sender = v4(192, 168, 1, 10, 40000);
    let receiver = v4(192, 168, 1, 20, 50000);

    let registered = relay.handle_request(
        Request::RequestPassphrase(registration("a.bin", 1024, Some("deadbeef"))),
        sender,
        1,
        &text("correct-horse"),
    );
    match registered {
        Ok(Response::PassphraseProvided { to, message }) => {
            assert_eq!(to, sender);
            assert_eq!(message.passphrase, "correct-horse");
        }
        other => panic!("no passphrase: {:?}", other),
    }

    let looked_up = relay.handle_request(
        Request::RequestFileInfo(R2XRequestFileInfoMessage { passphrase: "correct-horse".to_string() }),
        receiver,
        2,
        &NONE,
    );
    match looked_up {
        Ok(Response::FileInfoAvailable { to, record }) => {
            assert_eq!(to, receiver);
            assert_eq!(record.file_name, "a.bin");
            assert_eq!(record.file_size, 1024);
            assert_eq!(record.file_hash, some("deadbeef"));
            assert_eq!(record.sender_addr, sender);
        }
        other => panic!("no record: {:?}", other),
    }

    let confirm = || {
        Request::RequestSenderConnection(R2XRequestSenderConnectionMessage {
            passphrase: "correct-horse".to_string(),
            file_hash: some("deadbeef"),
            receiver_host: some("receiver-host"),
        })
    };
    match relay.handle_request(confirm(), receiver, 3, &NONE) {
        Ok(Response::SenderConnectToReceiver { to, notice }) => {
            // the relay tells the sender, not the receiver
            assert_eq!(to, sender);
            assert_eq!(notice.receiver_addr, receiver);
            assert_eq!(notice.receiver_host, some("receiver-host"));
        }
        other => panic!("no connection: {:?}", other),
    }

    // the record is gone
    assert_eq!(relay.lookup_transfer("correct-horse").err(), Some(NudgeError::PassphraseNotFound));
    match relay.handle_request(confirm(), receiver, 4, &NONE) {
        Err(e) => assert_eq!(e, NudgeError::PassphraseNotFound),
        other => panic!("second confirmation went through: {:?}", other),
    }
}

#[test]
fn address_on_record_is_the_observed_one() {
    let mut relay = server();
    let observed = Endpoint { ip: IpAddress::V6(1), port: 6000 };
    relay
        .handle_request(Request::RequestPassphrase(registration("a.bin", 1, None)), observed, 0, &text("p"))
        .unwrap();
    assert_eq!(relay.lookup_transfer("p").unwrap().sender_addr, observed);
}

#[test]
fn failed_requests_are_answered_with_their_error() {
    let mut relay = server();
    let from = v4(1, 2, 3, 4, 5);
    let r = relay.handle_request(Request::RequestPassphrase(registration("a.bin", 1, None)), from, 0, &NONE);
    assert_eq!(r.err(), Some(NudgeError::PassphraseGenerationError));
    let r = relay.handle_request(
        Request::RequestFileInfo(R2XRequestFileInfoMessage { passphrase: "p".to_string() }),
        from,
        0,
        &text("unused"),
    );
    assert_eq!(r.err(), Some(NudgeError::PassphraseNotFound));
    // a passphrase that was offered for another kind of request is not stored
    assert_eq!(relay.lookup_transfer("unused").err(), Some(NudgeError::PassphraseNotFound));
}

#[test]
fn response_knows_its_tag_and_destination() {
    let mut relay = server();
    let sender = v4(1, 1, 1, 1, 1);
    let receiver = v4(2, 2, 2, 2, 2);
    let r = relay.handle_request(Request::RequestPassphrase(registration("a", 1, None)), sender, 0, &text("p")).unwrap();
    assert_eq!(r.command(), Command::PassphraseProvided);
    assert_eq!(r.destination(), sender);
    let r = relay
        .handle_request(Request::RequestFileInfo(R2XRequestFileInfoMessage { passphrase: "p".to_string() }), receiver, 0, &NONE)
        .unwrap();
    assert_eq!(r.command(), Command::FileInfoAvailable);
    assert_eq!(r.destination(), receiver);
    let r = relay
        .handle_request(
            Request::RequestSenderConnection(R2XRequestSenderConnectionMessage {
                passphrase: "p".to_string(),
                file_hash: None,
                receiver_host: None,
            }),
            receiver,
            0,
            &NONE,
        )
        .unwrap();
    assert_eq!(r.command(), Command::SenderConnectToReceiver);
    assert_eq!(r.destination(), sender);
}

#[test]
fn relay_reads_requests_and_passes_over_the_rest() {
    for command in [Command::RequestPassphrase, Command::RequestFileInfo, Command::RequestSenderConnection] {
        let datagram = encode_message(command, b"{}");
        assert_eq!(read_request(&datagram), Some((command, b"{}".to_vec())));
    }
    for command in [Command::PassphraseProvided, Command::FileInfoAvailable, Command::SenderConnectToReceiver] {
        assert_eq!(read_request(&encode_message(command, b"{}")), None);
    }
    assert_eq!(read_request(b"\xff\xfe not text"), None);
    assert_eq!(read_request(b""), None);
}

#[test]
fn texts_compare_by_their_characters() {
    assert!(same_text(&None, &None));
    assert!(same_text(&some("a"), &some("a")));
    assert!(!same_text(&some("a"), &some("b")));
    assert!(!same_text(&some(""), &None));
    assert!(!same_text(&None, &some("")));
    assert_eq!(clone_text(&some("copy")), some("copy"));
    assert_eq!(clone_text(&None), None);
}

#[test]
fn record_copy_has_the_same_fields() {
    let record = FileInfo {
        file_size: 9,
        file_name: "n".to_string(),
        file_hash: some("h"),
        created_at: 7,
        sender_host: None,
        sender_addr: v4(9, 9, 9, 9, 9),
    };
    let copy = record.clone();
    assert_eq!(copy.file_size, 9);
    assert_eq!(copy.file_name, "n");
    assert_eq!(copy.file_hash, some("h"));
    assert_eq!(copy.created_at, 7);
    assert_eq!(copy.sender_host, None);
    assert_eq!(copy.sender_addr, v4(9, 9, 9, 9, 9));
}
