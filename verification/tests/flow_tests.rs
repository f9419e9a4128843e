use nudge::client::{Get, Send};
use nudge::flow::{GetAction, GetEvent, GetFlow, SendAction, SendEvent, SendFlow};
use nudge::relay::{
    Endpoint, FileInfo, IpAddress, X2SPassphraseProvidedMessage, X2SSenderConnectToReceiverMessage,
};

const SENDER: Endpoint = Endpoint { ip: IpAddress::V4(0x0a00_0001), port: 5000 };
const RECEIVER: Endpoint = Endpoint { ip: IpAddress::V4(0x0a00_0002), port: 6000 };

fn get_flow_with(chunk_size: u32, force: bool, hide_hostname: bool) -> GetFlow {
    let options = Get::new(
        "correct-horse".to_string(),
        "out.bin".to_string(),
        "relay.example".to_string(),
        4000,
        500,
        chunk_size,
        force,
        hide_hostname,
    );
    GetFlow::new(options, Some("receiver-box".to_string()))
}

fn get_flow(force: bool, hide_hostname: bool) -> GetFlow {
    get_flow_with(4096, force, hide_hostname)
}

fn send_flow_with(chunk_size: u32, hide_hostname: bool, skip_hash: bool) -> SendFlow {
    let options = Send::new(
        "dir/a.bin".to_string(),
        "relay.example".to_string(),
        4000,
        500,
        chunk_size,
        hide_hostname,
        skip_hash,
    );
    SendFlow::new(options, Some("sender-box".to_string()))
}

fn send_flow(hide_hostname: bool, skip_hash: bool) -> SendFlow {
    send_flow_with(4096, hide_hostname, skip_hash)
}

fn record() -> FileInfo {
    FileInfo {
        file_size: 1024,
        file_name: "a.bin".to_string(),
        file_hash: Some("deadbeef".to_string()),
        created_at: 1,
        sender_host: Some("sender-box".to_string()),
        sender_addr: SENDER,
    }
}

/// Takes the receiver up to the point where the offer was shown.
fn shown(force: bool, hide_hostname: bool) -> (GetFlow, GetAction) {
    let flow = get_flow(force, hide_hostname);
    let (flow, action) = flow.step(GetEvent::Started);
    match action {
        GetAction::RequestFileInfo(message) => assert_eq!(message.passphrase, "correct-horse"),
        other => panic!("{:?}", other),
    }
    let (flow, action) = flow.step(GetEvent::FileInfo(record()));
    match action {
        GetAction::Show(offer) => {
            assert_eq!(offer.file_name, "a.bin");
            assert_eq!(offer.sender_host, Some("sender-box".to_string()));
            assert_eq!(offer.file_size, "1.02 kB");
            assert_eq!(offer.chunk_size, "4.10 kB");
        }
        other => panic!("{:?}", other),
    }
    flow.step(GetEvent::Shown)
}

fn assert_confirms(action: GetAction, receiver_host: Option<&str>) {
    match action {
        GetAction::Connect { file_size, sender_addr, request, offer } => {
            assert_eq!(file_size, 1024);
            assert_eq!(sender_addr, SENDER);
            assert_eq!(request.passphrase, "correct-horse");
            assert_eq!(request.file_hash, Some("deadbeef".to_string()));
            assert_eq!(request.receiver_host, receiver_host.map(|h| h.to_string()));
            assert_eq!(offer.file_size, "1.02 kB");
        }
        other => panic!("{:?}", other),
    }
}

#[test]
fn forced_receiver_confirms_without_asking() {
    let (flow, action) = shown(true, false);
    assert_confirms(action, Some("receiver-box"));
    assert!(!flow.is_done());
}

#[test]
fn unforced_receiver_asks_and_confirms_on_yes() {
    let (flow, action) = shown(false, false);
    assert!(matches!(action, GetAction::Ask));
    let (flow, action) = flow.step(GetEvent::Answer(true));
    assert_confirms(action, Some("receiver-box"));
    assert!(!flow.is_done());
}

#[test]
fn unforced_receiver_cancels_on_no() {
    let (flow, _) = shown(false, false);
    let (flow, action) = flow.step(GetEvent::Answer(false));
    assert!(matches!(action, GetAction::Cancel));
    assert!(flow.is_done());
    // nothing revives it
    let (flow, action) = flow.step(GetEvent::Answer(true));
    assert!(matches!(action, GetAction::Ignore));
    let (flow, action) = flow.step(GetEvent::Connected);
    assert!(matches!(action, GetAction::Ignore));
    assert!(flow.is_done());
}

#[test]
fn receiver_that_hides_its_host_confirms_without_it() {
    let (_, action) = shown(true, true);
    assert_confirms(action, None);
}

#[test]
fn receiver_counts_chunks_and_finishes_at_the_end() {
    let (flow, _) = shown(true, false);
    let (mut flow, action) = flow.step(GetEvent::Connected);
    assert!(matches!(action, GetAction::Receive(None)));
    // 25600 / 4096 = 6: the display moves with every sixth chunk
    for _ in 0..5 {
        let (next, action) = flow.step(GetEvent::Chunk(4096));
        assert!(matches!(action, GetAction::Receive(None)));
        flow = next;
    }
    let (flow, action) = flow.step(GetEvent::Chunk(4096));
    assert!(matches!(action, GetAction::Receive(Some(24576))));
    assert_eq!(flow.bytes(), 24576);
    let (flow, action) = flow.step(GetEvent::EndOfStream);
    assert!(matches!(action, GetAction::Finish));
    assert!(flow.is_done());
}

#[test]
fn receiver_ignores_what_does_not_fit_its_stage() {
    let flow = get_flow(true, false);
    let (flow, action) = flow.step(GetEvent::Chunk(10));
    assert!(matches!(action, GetAction::Ignore));
    assert_eq!(flow.bytes(), 0);
    let (flow, action) = flow.step(GetEvent::FileInfo(record()));
    assert!(matches!(action, GetAction::Ignore));
    let (flow, action) = flow.step(GetEvent::Answer(true));
    assert!(matches!(action, GetAction::Ignore));
    let (flow, action) = flow.step(GetEvent::EndOfStream);
    assert!(matches!(action, GetAction::Ignore));
    // it is still at its start
    let (flow, action) = flow.step(GetEvent::Started);
    assert!(matches!(action, GetAction::RequestFileInfo(_)));
    // an answer before the question is no consent
    let (flow, _) = flow.step(GetEvent::FileInfo(record()));
    let (_, action) = flow.step(GetEvent::Answer(true));
    assert!(matches!(action, GetAction::Ignore));
}

#[test]
fn sender_goes_from_registration_to_the_end_of_the_stream() {
    let flow = send_flow(false, false);
    let (flow, action) = flow.step(SendEvent::Started { file_size: 10_000, file_hash: Some("deadbeef".to_string()) });
    match action {
        SendAction::Register(message) => {
            assert_eq!(message.file_name, "a.bin");
            assert_eq!(message.file_size, 10_000);
            assert_eq!(message.file_hash, Some("deadbeef".to_string()));
            assert_eq!(message.sender_host, Some("sender-box".to_string()));
        }
        other => panic!("{:?}", other),
    }
    let (flow, action) = flow.step(SendEvent::PassphraseProvided(X2SPassphraseProvidedMessage {
        passphrase: "correct-horse".to_string(),
    }));
    match action {
        SendAction::ShowPassphrase(passphrase) => assert_eq!(passphrase, "correct-horse"),
        other => panic!("{:?}", other),
    }
    let (flow, action) = flow.step(SendEvent::Shown);
    assert!(matches!(action, SendAction::AwaitPeer));
    let (flow, action) = flow.step(SendEvent::PeerAnnounced(X2SSenderConnectToReceiverMessage {
        receiver_addr: RECEIVER,
        receiver_host: Some("receiver-box".to_string()),
    }));
    match action {
        SendAction::Connect { notice, upload } => {
            assert_eq!(notice.receiver_addr, RECEIVER);
            assert_eq!(notice.receiver_host, Some("receiver-box".to_string()));
            assert_eq!(upload.file_size, 10_000);
            assert_eq!(upload.chunk_size, "4.10 kB");
        }
        other => panic!("{:?}", other),
    }
    let (mut flow, action) = flow.step(SendEvent::Connected);
    assert!(matches!(action, SendAction::Stream(None)));
    for _ in 0..5 {
        let (next, action) = flow.step(SendEvent::Chunk(100));
        assert!(matches!(action, SendAction::Stream(None)));
        flow = next;
    }
    let (flow, action) = flow.step(SendEvent::Chunk(100));
    assert!(matches!(action, SendAction::Stream(Some(600))));
    assert_eq!(flow.bytes(), 600);
    assert!(!flow.is_done());
    let (flow, action) = flow.step(SendEvent::EndOfFile);
    assert!(matches!(action, SendAction::End));
    assert!(flow.is_done());
    let (_, action) = flow.step(SendEvent::Chunk(1));
    assert!(matches!(action, SendAction::Ignore));
}

#[test]
fn sender_with_a_large_chunk_size_goes_through_to_the_end() {
    for chunk_size in [25601, 32768, u32::MAX] {
        let flow = send_flow_with(chunk_size, false, false);
        let (flow, action) = flow.step(SendEvent::Started { file_size: 70_000, file_hash: None });
        assert!(matches!(action, SendAction::Register(_)));
        let (flow, action) = flow.step(SendEvent::PassphraseProvided(X2SPassphraseProvidedMessage {
            passphrase: "correct-horse".to_string(),
        }));
        assert!(matches!(action, SendAction::ShowPassphrase(_)));
        let (flow, action) = flow.step(SendEvent::Shown);
        assert!(matches!(action, SendAction::AwaitPeer));
        let (flow, action) = flow.step(SendEvent::PeerAnnounced(X2SSenderConnectToReceiverMessage {
            receiver_addr: RECEIVER,
            receiver_host: None,
        }));
        assert!(matches!(action, SendAction::Connect { .. }));
        let (flow, action) = flow.step(SendEvent::Connected);
        assert!(matches!(action, SendAction::Stream(None)));
        // with chunks this large the display moves with every one of them
        let (flow, action) = flow.step(SendEvent::Chunk(32768));
        assert!(matches!(action, SendAction::Stream(Some(32768))));
        let (flow, action) = flow.step(SendEvent::Chunk(32768));
        assert!(matches!(action, SendAction::Stream(Some(65536))));
        let (flow, action) = flow.step(SendEvent::Chunk(4464));
        assert!(matches!(action, SendAction::Stream(Some(70_000))));
        assert_eq!(flow.bytes(), 70_000);
        let (flow, action) = flow.step(SendEvent::EndOfFile);
        assert!(matches!(action, SendAction::End));
        assert!(flow.is_done());
    }
}

#[test]
fn receiver_with_a_large_chunk_size_goes_through_to_the_end() {
    for chunk_size in [25601, 32768, u32::MAX] {
        let flow = get_flow_with(chunk_size, true, false);
        let (flow, _) = flow.step(GetEvent::Started);
        let (flow, _) = flow.step(GetEvent::FileInfo(record()));
        let (flow, action) = flow.step(GetEvent::Shown);
        assert!(matches!(action, GetAction::Connect { .. }));
        let (flow, action) = flow.step(GetEvent::Connected);
        assert!(matches!(action, GetAction::Receive(None)));
        let (flow, action) = flow.step(GetEvent::Chunk(32768));
        assert!(matches!(action, GetAction::Receive(Some(32768))));
        let (flow, action) = flow.step(GetEvent::Chunk(100));
        assert!(matches!(action, GetAction::Receive(Some(32868))));
        assert_eq!(flow.bytes(), 32868);
        let (flow, action) = flow.step(GetEvent::EndOfStream);
        assert!(matches!(action, GetAction::Finish));
        assert!(flow.is_done());
    }
}

#[test]
fn sender_registration_follows_its_options() {
    let flow = send_flow(true, true);
    let (_, action) = flow.step(SendEvent::Started { file_size: 1, file_hash: Some("deadbeef".to_string()) });
    match action {
        SendAction::Register(message) => {
            assert_eq!(message.file_hash, None);
            assert_eq!(message.sender_host, None);
        }
        other => panic!("{:?}", other),
    }
}

#[test]
fn sender_does_not_stream_before_a_receiver_is_announced() {
    let flow = send_flow(false, false);
    let (flow, action) = flow.step(SendEvent::Connected);
    assert!(matches!(action, SendAction::Ignore));
    let (flow, action) = flow.step(SendEvent::Chunk(1));
    assert!(matches!(action, SendAction::Ignore));
    let (flow, action) = flow.step(SendEvent::PeerAnnounced(X2SSenderConnectToReceiverMessage {
        receiver_addr: RECEIVER,
        receiver_host: None,
    }));
    assert!(matches!(action, SendAction::Ignore));
    let (flow, _) = flow.step(SendEvent::Started { file_size: 1, file_hash: None });
    // the announcement before the passphrase does not count
    let (flow, action) = flow.step(SendEvent::PeerAnnounced(X2SSenderConnectToReceiverMessage {
        receiver_addr: RECEIVER,
        receiver_host: None,
    }));
    assert!(matches!(action, SendAction::Ignore));
    assert_eq!(flow.bytes(), 0);
    assert!(!flow.is_done());
}
