use nudge::client::{file_name_of, host_label, offer_with, Decision, Get, Progress, Send, PROGRESS_STEP};
use nudge::error::NudgeError;
use nudge::relay::{Endpoint, FileInfo, IpAddress};

fn send(file: &str, hide_hostname: bool, skip_hash: bool) -> Send {
    Send::new(file.to_string(), "relay.example".to_string(), 4000, 500, 4096, hide_hostname, skip_hash)
}

fn get(force: bool, hide_hostname: bool) -> Get {
    Get::new(
        "correct-horse".to_string(),
        "out.bin".to_string(),
        "relay.example".to_string(),
        4000,
        500,
        4096,
        force,
        hide_hostname,
    )
}

#[test]
fn file_name_is_the_last_component_of_the_path() {
    assert_eq!(file_name_of("a/b/c.txt"), "c.txt");
    assert_eq!(file_name_of("/abs/a.bin"), "a.bin");
    assert_eq!(file_name_of("plain"), "plain");
    assert_eq!(file_name_of("dir/"), "");
    assert_eq!(file_name_of("/"), "");
    assert_eq!(file_name_of(""), "");
    assert_eq!(file_name_of("a//b"), "b");
    assert_eq!(file_name_of("dossier/été.txt"), "été.txt");
    assert_eq!(file_name_of("back\\slash"), "back\\slash");
}

#[test]
fn host_label_is_withheld_on_request() {
    assert_eq!(host_label(false, Some("box".to_string())), Some("box".to_string()));
    assert_eq!(host_label(true, Some("box".to_string())), None);
    assert_eq!(host_label(false, None), None);
}

#[test]
fn registration_names_the_file_and_says_what_the_options_allow() {
    let message = send("dir/a.bin", false, false).registration(Some("box".to_string()), 1024, Some("deadbeef".to_string()));
    assert_eq!(message.file_name, "a.bin");
    assert_eq!(message.file_size, 1024);
    assert_eq!(message.file_hash, Some("deadbeef".to_string()));
    assert_eq!(message.sender_host, Some("box".to_string()));

    let message = send("dir/a.bin", true, true).registration(Some("box".to_string()), 1024, Some("deadbeef".to_string()));
    assert_eq!(message.file_name, "a.bin");
    assert_eq!(message.file_hash, None);
    assert_eq!(message.sender_host, None);
}

#[test]
fn send_options_are_kept() {
    let s = Send::new("f".to_string(), "h".to_string(), 1, 2, 3, true, false);
    assert_eq!(s.file(), "f");
    assert_eq!(s.relay_host(), "h");
    assert_eq!(s.relay_port(), 1);
    assert_eq!(s.delay(), 2);
    assert_eq!(s.chunk_size(), 3);
    assert!(s.hide_hostname());
    assert!(!s.skip_hash());
}

#[test]
fn get_options_are_kept() {
    let g = Get::new("p".to_string(), "o".to_string(), "h".to_string(), 1, 2, 3, true, false);
    assert_eq!(g.passphrase(), "p");
    assert_eq!(g.out_file(), "o");
    assert_eq!(g.relay_host(), "h");
    assert_eq!(g.relay_port(), 1);
    assert_eq!(g.delay(), 2);
    assert_eq!(g.chunk_size(), 3);
    assert!(g.force());
    assert!(!g.hide_hostname());
}

#[test]
fn forced_get_never_asks() {
    assert_eq!(get(true, false).decide(None), Decision::Download);
    assert_eq!(get(true, false).decide(Some(false)), Decision::Download);
    assert_eq!(get(true, false).decide(Some(true)), Decision::Download);
}

#[test]
fn unforced_get_asks_and_follows_the_answer() {
    assert_eq!(get(false, false).decide(None), Decision::Ask);
    assert_eq!(get(false, false).decide(Some(true)), Decision::Download);
    assert_eq!(get(false, false).decide(Some(false)), Decision::Cancel);
}

#[test]
fn get_asks_for_its_passphrase() {
    assert_eq!(get(false, false).file_info_request().passphrase, "correct-horse");
}

#[test]
fn connection_request_repeats_the_hash_on_record() {
    let record = FileInfo {
        file_size: 1024,
        file_name: "a.bin".to_string(),
        file_hash: Some("deadbeef".to_string()),
        created_at: 0,
        sender_host: None,
        sender_addr: Endpoint { ip: IpAddress::V4(0x7f00_0001), port: 9 },
    };
    let message = get(false, false).connection_request(&record, &Some("box".to_string()));
    assert_eq!(message.passphrase, "correct-horse");
    assert_eq!(message.file_hash, Some("deadbeef".to_string()));
    assert_eq!(message.receiver_host, Some("box".to_string()));
    let message = get(false, true).connection_request(&record, &Some("box".to_string()));
    assert_eq!(message.receiver_host, None);
}

#[test]
fn offer_shows_the_record_with_sizes_for_a_human_reader() {
    let record = FileInfo {
        file_size: 1024,
        file_name: "a.bin".to_string(),
        file_hash: None,
        created_at: 0,
        sender_host: Some("box".to_string()),
        sender_addr: Endpoint { ip: IpAddress::V4(0x7f00_0001), port: 9 },
    };
    let offer = get(false, false).describe_offer(&record);
    assert_eq!(offer.file_name, "a.bin");
    assert_eq!(offer.sender_host, Some("box".to_string()));
    assert_eq!(offer.file_size, "1.02 kB");
    assert_eq!(offer.chunk_size, "4.10 kB");
}

#[test]
fn offer_sizes_scale_by_thousands() {
    let mut record = FileInfo {
        file_size: 0,
        file_name: String::new(),
        file_hash: None,
        created_at: 0,
        sender_host: None,
        sender_addr: Endpoint { ip: IpAddress::V4(0), port: 0 },
    };
    let g = get(false, false);
    assert_eq!(g.describe_offer(&record).file_size, "0 B");
    record.file_size = 999;
    assert_eq!(g.describe_offer(&record).file_size, "999 B");
    record.file_size = 1000;
    assert_eq!(g.describe_offer(&record).file_size, "1 kB");
    record.file_size = 1_500_000;
    assert_eq!(g.describe_offer(&record).file_size, "1.50 MB");
    record.file_size = u64::MAX;
    assert_eq!(g.describe_offer(&record).file_size, "18.45 EB");
    assert_eq!(g.describe_offer(&record).sender_host, None);
}

#[test]
fn offer_takes_the_sizes_as_they_are_written() {
    let record = FileInfo {
        file_size: 5,
        file_name: "n".to_string(),
        file_hash: None,
        created_at: 0,
        sender_host: None,
        sender_addr: Endpoint { ip: IpAddress::V4(0), port: 0 },
    };
    let offer = offer_with(&record, "five".to_string(), "six".to_string());
    assert_eq!(offer.file_name, "n");
    assert_eq!(offer.sender_host, None);
    assert_eq!(offer.file_size, "five");
    assert_eq!(offer.chunk_size, "six");
}

#[test]
fn upload_shows_bytes_and_chunk_size() {
    let upload = send("a.bin", false, false).describe_upload(123_456);
    assert_eq!(upload.file_size, 123_456);
    assert_eq!(upload.chunk_size, "4.10 kB");
}

#[test]
fn progress_is_due_every_so_many_chunks() {
    assert_eq!(PROGRESS_STEP, 25 * 1024);
    // 25600 / 4096 = 6: the display moves with every sixth chunk
    let mut progress = Progress::new(4096);
    for _ in 0..5 {
        assert_eq!(progress.record(4096), None);
    }
    assert_eq!(progress.record(4096), Some(6 * 4096));
    for _ in 0..5 {
        assert_eq!(progress.record(4096), None);
    }
    assert_eq!(progress.record(100), Some(11 * 4096 + 100));
    assert_eq!(progress.bytes(), 11 * 4096 + 100);
}

#[test]
fn progress_with_the_largest_chunk_is_due_every_time() {
    let mut progress = Progress::new(PROGRESS_STEP);
    assert_eq!(progress.record(10), Some(10));
    assert_eq!(progress.record(10), Some(20));
}

#[test]
fn progress_with_a_chunk_above_the_step_is_due_every_time() {
    assert_eq!(PROGRESS_STEP, 25600);
    for chunk_size in [25601, 32768, 65507, u32::MAX] {
        let mut progress = Progress::new(chunk_size);
        assert_eq!(progress.record(32768), Some(32768));
        assert_eq!(progress.record(32768), Some(65536));
        assert_eq!(progress.record(1), Some(65537));
        assert_eq!(progress.bytes(), 65537);
    }
}

#[test]
fn progress_just_below_the_step_is_due_every_time_too() {
    // 25600 / 12801 = 1
    let mut progress = Progress::new(12801);
    assert_eq!(progress.record(12801), Some(12801));
    // 25600 / 12800 = 2
    let mut progress = Progress::new(12800);
    assert_eq!(progress.record(12800), None);
    assert_eq!(progress.record(12800), Some(25600));
}

#[test]
fn progress_with_chunks_of_no_bytes_is_due_every_time() {
    let mut progress = Progress::new(0);
    assert_eq!(progress.record(0), Some(0));
    assert_eq!(progress.record(0), Some(0));
}

#[test]
fn progress_with_the_smallest_chunk_is_due_every_step_bytes() {
    let mut progress = Progress::new(1);
    for _ in 0..25599 {
        assert_eq!(progress.record(1), None);
    }
    assert_eq!(progress.record(1), Some(25600));
}

#[test]
fn every_error_has_its_message() {
    assert_eq!(NudgeError::Network.message(), "network failure");
    assert_eq!(NudgeError::MalformedPayload.message(), "malformed payload");
    assert_eq!(NudgeError::PassphraseNotFound.message(), "passphrase not found");
    assert_eq!(NudgeError::PassphraseGenerationError.message(), "could not generate a passphrase");
    assert_eq!(NudgeError::FileSystem.message(), "file system failure");
    assert_eq!(NudgeError::TransportTimeout.message(), "transport timed out");
}
