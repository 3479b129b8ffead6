use entanglo::clipboard::ClipboardSyncService;
use entanglo::envelope::encode_base64;
use entanglo::file_transfer::FileTransferService;
use entanglo::network_quality::NetworkQualityMonitor;
use entanglo::payloads::{FileChunkPayload, FileOfferPayload, MAX_CLIPBOARD_TEXT_BYTES};
use entanglo::update::UpdateService;
use entanglo::url_push::{check_lowercase_scheme, check_url_scheme, UrlPushError};

#[test]
fn clipboard_is_off_by_default() {
    let service = ClipboardSyncService::new();
    assert!(service.build_payload("hi").is_none());
    let mut service = ClipboardSyncService::default();
    service.set_enabled(true);
    assert_eq!(service.build_payload("hi").unwrap().text, "hi");
    service.set_enabled(false);
    assert!(service.build_payload("hi").is_none());
}

#[test]
fn clipboard_text_is_cut_on_a_char_boundary() {
    let mut service = ClipboardSyncService::new();
    service.set_enabled(true);
    let exact = "a".repeat(MAX_CLIPBOARD_TEXT_BYTES);
    assert_eq!(service.build_payload(&exact).unwrap().text.len(), MAX_CLIPBOARD_TEXT_BYTES);
    // One ASCII byte then two-byte characters: the cap falls inside one.
    let mut text = String::from("a");
    while text.len() <= MAX_CLIPBOARD_TEXT_BYTES {
        text.push('é');
    }
    let cut = service.build_payload(&text).unwrap().text;
    assert_eq!(cut.len(), MAX_CLIPBOARD_TEXT_BYTES - 1);
    assert!(text.starts_with(&cut));
    let long = "b".repeat(MAX_CLIPBOARD_TEXT_BYTES + 10);
    assert_eq!(service.build_payload(&long).unwrap().text.len(), MAX_CLIPBOARD_TEXT_BYTES);
}

fn offer() -> FileOfferPayload {
    FileOfferPayload {
        transfer_id: "t-1".into(),
        name: "notes.txt".into(),
        size_bytes: 11,
        total_chunks: 2,
        chunk_size: 6,
        kind: None,
    }
}

#[test]
fn file_chunks_reassemble() {
    let service = FileTransferService::new();
    let mut transfer = service.begin_incoming(offer());
    assert!(transfer.received_bytes.is_empty());
    for (sequence, part) in [&b"hello "[..], &b"world"[..]].iter().enumerate() {
        let chunk = FileChunkPayload { transfer_id: "t-1".into(), sequence: sequence as u32, data: encode_base64(part) };
        service.apply_chunk(&mut transfer, &chunk).unwrap();
    }
    assert_eq!(transfer.received_bytes, b"hello world".to_vec());
    let bad = FileChunkPayload { transfer_id: "t-1".into(), sequence: 2, data: "%%%".into() };
    assert!(service.apply_chunk(&mut transfer, &bad).is_err());
    assert_eq!(transfer.received_bytes, b"hello world".to_vec());
    let ack = service.finish(transfer);
    assert_eq!(ack.transfer_id, "t-1");
    assert!(ack.ok);
    assert_eq!(ack.failure_reason, None);
}

#[test]
fn url_schemes_are_allow_listed() {
    assert!(check_url_scheme("https://example.com").is_ok());
    assert!(check_url_scheme("HTTP://example.com").is_ok());
    assert!(check_url_scheme("file:///tmp/x").is_ok());
    assert_eq!(
        check_url_scheme("JavaScript:alert(1)"),
        Err(UrlPushError::SchemeNotAllowed("javascript".to_string()))
    );
    assert_eq!(check_url_scheme("no-colon"), Err(UrlPushError::SchemeNotAllowed("no-colon".to_string())));
    assert_eq!(check_url_scheme(""), Err(UrlPushError::SchemeNotAllowed(String::new())));
}

#[test]
fn sha256_is_checked_ignoring_case() {
    let abc = "ba7816bf8f01cfea414140de5dae2223b00361a396177a9cb410ff61f20015ad";
    assert!(UpdateService::verify_sha256(b"abc", abc));
    assert!(UpdateService::verify_sha256(b"abc", &abc.to_uppercase()));
    assert!(!UpdateService::verify_sha256(b"abd", abc));
    assert!(!UpdateService::verify_sha256(b"abc", &abc[..60]));
}

#[test]
fn digest_is_compared_as_lowercase_hex() {
    let digest = [0x00u8, 0x0f, 0xa0, 0xff];
    assert!(UpdateService::digest_matches(&digest, "000fa0ff"));
    assert!(UpdateService::digest_matches(&digest, "000FA0FF"));
    assert!(!UpdateService::digest_matches(&digest, "000fa0f"));
    assert!(!UpdateService::digest_matches(&digest, "000fa0fe"));
    assert!(UpdateService::digest_matches(&[], ""));
}

#[test]
fn lowercased_scheme_allow_list() {
    assert_eq!(check_lowercase_scheme("https".to_string()), Ok(()));
    assert_eq!(check_lowercase_scheme("file".to_string()), Ok(()));
    assert_eq!(
        check_lowercase_scheme("HTTP".to_string()),
        Err(UrlPushError::SchemeNotAllowed("HTTP".to_string()))
    );
    assert_eq!(
        check_lowercase_scheme("ftp".to_string()),
        Err(UrlPushError::SchemeNotAllowed("ftp".to_string()))
    );
}

#[test]
fn heartbeat_gaps_count_as_missed() {
    let mut monitor = NetworkQualityMonitor::new();
    monitor.record_heartbeat(0, Some(1.5f64.to_bits()));
    monitor.record_heartbeat(1, None);
    assert_eq!(monitor.missed_heartbeats(), 0);
    assert_eq!(monitor.last_sequence_seen(), Some(1));
    monitor.record_heartbeat(4, Some(2.0f64.to_bits()));
    assert_eq!(monitor.missed_heartbeats(), 2);
    monitor.record_heartbeat(2, None);
    assert_eq!(monitor.missed_heartbeats(), 2);
    assert_eq!(monitor.rtt_sample_bits(), &[1.5f64.to_bits(), 2.0f64.to_bits()]);
}

#[test]
fn rtt_window_keeps_the_latest_sixty() {
    let mut monitor = NetworkQualityMonitor::default();
    for i in 0..70u64 {
        monitor.record_heartbeat(i, Some(i));
    }
    let samples = monitor.rtt_sample_bits();
    assert_eq!(samples.len(), 60);
    assert_eq!(samples[0], 10);
    assert_eq!(samples[59], 69);
}
