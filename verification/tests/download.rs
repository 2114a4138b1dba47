use universal_updater::{
    init, parse_content_length, Config, Download, DownloadEvent, ManifestDocument,
    ManifestResponse, NetworkFailure, Phase, PlatformEntry, Signal, TargetFamily, Update,
    UpdateError, Url, Version,
};

fn update() -> Update {
    let config = Config { endpoint: Url::parse("https://updates.example.com/latest.json") };
    let updater =
        init(&config, Version::new(1, 0, 0), TargetFamily::Desktop, "linux", "x86_64").unwrap();
    let doc = ManifestDocument {
        version: Some("2.0.0".to_string()),
        name: None,
        notes: None,
        pub_date: None,
        platforms: vec![PlatformEntry {
            target: "linux-x86_64".to_string(),
            url: "https://x/a.bin".to_string(),
        }],
    };
    updater
        .check(&ManifestResponse::Answered { status: 200, document: Some(doc) })
        .unwrap()
        .unwrap()
}

fn ok_response(content_length: Option<&str>) -> Signal {
    Signal::Response { status: 200, content_length: content_length.map(|v| v.as_bytes().to_vec()) }
}

fn streaming() -> Download {
    let mut download = update().download();
    assert!(download.step(&ok_response(None)).is_ok());
    download
}

fn out_of_order() -> UpdateError {
    UpdateError::Network(NetworkFailure::OutOfOrder)
}

#[test]
fn a_download_begins_at_the_update_url() {
    let download = update().download();
    assert_eq!(download.url().as_str(), "https://x/a.bin");
    assert_eq!(download.phase(), Phase::AwaitingResponse);
    assert_eq!(download.received(), 0);
}

#[test]
fn three_chunks_give_started_three_progress_finished() {
    let chunks: Vec<Vec<u8>> = vec![vec![1, 2, 3], vec![4], vec![5, 6, 7, 8, 9]];
    let mut download = update().download();
    let mut events = Vec::new();
    events.push(download.step(&ok_response(Some("9"))).unwrap());
    for chunk in &chunks {
        events.push(download.step(&Signal::Chunk(chunk.clone())).unwrap());
    }
    events.push(download.step(&Signal::End).unwrap());
    assert_eq!(
        events,
        vec![
            DownloadEvent::Started { content_length: Some(9) },
            DownloadEvent::Progress { chunk_length: 3 },
            DownloadEvent::Progress { chunk_length: 1 },
            DownloadEvent::Progress { chunk_length: 5 },
            DownloadEvent::Finished,
        ]
    );
    assert_eq!(download.phase(), Phase::Finished);
    let bytes = download.into_bytes().unwrap();
    assert_eq!(bytes, vec![1, 2, 3, 4, 5, 6, 7, 8, 9]);
    let total: usize = events
        .iter()
        .map(|e| match e {
            DownloadEvent::Progress { chunk_length } => *chunk_length,
            _ => 0,
        })
        .sum();
    assert_eq!(total, bytes.len());
}

#[test]
fn an_empty_body_gives_started_and_finished() {
    let (events, artifact) =
        update().download_and_install(&vec![ok_response(None), Signal::End]);
    assert_eq!(
        events,
        vec![DownloadEvent::Started { content_length: None }, DownloadEvent::Finished]
    );
    assert_eq!(artifact, Ok(vec![]));
}

#[test]
fn a_whole_exchange_at_once() {
    let signals = vec![
        ok_response(Some("5")),
        Signal::Chunk(vec![10, 20]),
        Signal::Chunk(vec![]),
        Signal::Chunk(vec![30, 40, 50]),
        Signal::End,
    ];
    let (events, artifact) = update().download_and_install(&signals);
    assert_eq!(
        events,
        vec![
            DownloadEvent::Started { content_length: Some(5) },
            DownloadEvent::Progress { chunk_length: 2 },
            DownloadEvent::Progress { chunk_length: 0 },
            DownloadEvent::Progress { chunk_length: 3 },
            DownloadEvent::Finished,
        ]
    );
    assert_eq!(artifact, Ok(vec![10, 20, 30, 40, 50]));
}

#[test]
fn a_transport_error_after_two_of_five_chunks() {
    let signals = vec![
        ok_response(Some("50")),
        Signal::Chunk(vec![0; 10]),
        Signal::Chunk(vec![1; 10]),
        Signal::Failure("connection reset".to_string()),
        Signal::Chunk(vec![2; 10]),
        Signal::Chunk(vec![3; 10]),
        Signal::Chunk(vec![4; 10]),
        Signal::End,
    ];
    let (events, artifact) = update().download_and_install(&signals);
    assert_eq!(
        events,
        vec![
            DownloadEvent::Started { content_length: Some(50) },
            DownloadEvent::Progress { chunk_length: 10 },
            DownloadEvent::Progress { chunk_length: 10 },
        ]
    );
    assert!(!events.contains(&DownloadEvent::Finished));
    assert_eq!(
        artifact,
        Err(UpdateError::Network(NetworkFailure::Transport("connection reset".to_string())))
    );
}

#[test]
fn a_failed_download_discards_what_arrived() {
    let mut download = streaming();
    assert!(download.step(&Signal::Chunk(vec![1, 2, 3])).is_ok());
    assert_eq!(download.received(), 3);
    assert_eq!(
        download.step(&Signal::Failure("timed out".to_string())),
        Err(UpdateError::Network(NetworkFailure::Transport("timed out".to_string())))
    );
    assert_eq!(download.phase(), Phase::Failed);
    assert_eq!(download.received(), 0);
    assert_eq!(download.step(&Signal::End), Err(out_of_order()));
    assert_eq!(download.phase(), Phase::Failed);
    assert_eq!(download.into_bytes(), Err(out_of_order()));
}

#[test]
fn a_non_success_status_fails_before_any_event() {
    for status in [404, 500, 301, 199, 300, 0] {
        let (events, artifact) = update().download_and_install(&vec![
            Signal::Response { status, content_length: Some(b"12".to_vec()) },
            Signal::Chunk(vec![1]),
            Signal::End,
        ]);
        assert_eq!(events, vec![]);
        assert_eq!(artifact, Err(UpdateError::Network(NetworkFailure::Status(status))));
    }
}

#[test]
fn every_success_status_starts_the_body() {
    for status in [200, 201, 204, 206, 299] {
        let mut download = update().download();
        assert_eq!(
            download.step(&Signal::Response { status, content_length: None }),
            Ok(DownloadEvent::Started { content_length: None })
        );
        assert_eq!(download.phase(), Phase::Streaming);
    }
}

#[test]
fn a_failure_before_the_response() {
    let mut download = update().download();
    assert_eq!(
        download.step(&Signal::Failure("dns".to_string())),
        Err(UpdateError::Network(NetworkFailure::Transport("dns".to_string())))
    );
    assert_eq!(download.phase(), Phase::Failed);
}

#[test]
fn body_before_response_is_out_of_order() {
    let mut download = update().download();
    assert_eq!(download.step(&Signal::Chunk(vec![1])), Err(out_of_order()));
    assert_eq!(download.phase(), Phase::Failed);
    let mut download = update().download();
    assert_eq!(download.step(&Signal::End), Err(out_of_order()));
    assert_eq!(download.phase(), Phase::Failed);
}

#[test]
fn a_second_response_is_out_of_order() {
    let mut download = streaming();
    assert!(download.step(&Signal::Chunk(vec![1])).is_ok());
    assert_eq!(download.step(&ok_response(None)), Err(out_of_order()));
    assert_eq!(download.phase(), Phase::Failed);
    assert_eq!(download.received(), 0);
}

#[test]
fn nothing_is_delivered_after_finished() {
    let mut download = streaming();
    assert!(download.step(&Signal::Chunk(vec![1, 2])).is_ok());
    assert_eq!(download.step(&Signal::End), Ok(DownloadEvent::Finished));
    assert_eq!(download.step(&Signal::Chunk(vec![3])), Err(out_of_order()));
    assert_eq!(download.step(&Signal::End), Err(out_of_order()));
    assert_eq!(download.step(&ok_response(None)), Err(out_of_order()));
    assert_eq!(download.step(&Signal::Failure("late".to_string())), Err(out_of_order()));
    assert_eq!(download.phase(), Phase::Finished);
    assert_eq!(download.into_bytes(), Ok(vec![1, 2]));
}

#[test]
fn an_exchange_past_its_end_reports_the_first_error() {
    let (events, artifact) = update().download_and_install(&vec![
        ok_response(None),
        Signal::Chunk(vec![1]),
        Signal::End,
        Signal::Chunk(vec![2]),
    ]);
    assert_eq!(events.len(), 3);
    assert_eq!(events[2], DownloadEvent::Finished);
    assert_eq!(artifact, Err(out_of_order()));
}

#[test]
fn an_unfinished_download_has_no_artifact() {
    assert_eq!(update().download().into_bytes(), Err(out_of_order()));
    let mut download = streaming();
    assert!(download.step(&Signal::Chunk(vec![1, 2, 3])).is_ok());
    assert_eq!(download.into_bytes(), Err(out_of_order()));
    let (events, artifact) =
        update().download_and_install(&vec![ok_response(None), Signal::Chunk(vec![7])]);
    assert_eq!(events.len(), 2);
    assert_eq!(artifact, Err(out_of_order()));
    let (events, artifact) = update().download_and_install(&vec![]);
    assert_eq!(events, vec![]);
    assert_eq!(artifact, Err(out_of_order()));
}

#[test]
fn progress_carries_the_chunk_length_not_a_total() {
    let mut download = streaming();
    assert_eq!(
        download.step(&Signal::Chunk(vec![0; 100])),
        Ok(DownloadEvent::Progress { chunk_length: 100 })
    );
    assert_eq!(
        download.step(&Signal::Chunk(vec![0; 7])),
        Ok(DownloadEvent::Progress { chunk_length: 7 })
    );
    assert_eq!(download.received(), 107);
}

#[test]
fn content_length_values() {
    assert_eq!(parse_content_length(b"0"), Some(0));
    assert_eq!(parse_content_length(b"42"), Some(42));
    assert_eq!(parse_content_length(b"007"), Some(7));
    assert_eq!(parse_content_length(b"+15"), Some(15));
    assert_eq!(parse_content_length(b"18446744073709551615"), Some(u64::MAX));
    assert_eq!(parse_content_length(b"018446744073709551615"), Some(u64::MAX));
}

#[test]
fn content_length_that_announces_nothing() {
    assert_eq!(parse_content_length(b""), None);
    assert_eq!(parse_content_length(b"+"), None);
    assert_eq!(parse_content_length(b"-1"), None);
    assert_eq!(parse_content_length(b"++1"), None);
    assert_eq!(parse_content_length(b"1+"), None);
    assert_eq!(parse_content_length(b" 12"), None);
    assert_eq!(parse_content_length(b"12 "), None);
    assert_eq!(parse_content_length(b"1,2"), None);
    assert_eq!(parse_content_length(b"12a"), None);
    assert_eq!(parse_content_length(b"0x10"), None);
    assert_eq!(parse_content_length(b"1.0"), None);
    assert_eq!(parse_content_length(&[0x31, 0xff]), None);
    assert_eq!(parse_content_length(b"18446744073709551616"), None);
    assert_eq!(parse_content_length(b"99999999999999999999999"), None);
}

#[test]
fn content_length_agrees_with_the_standard_parser() {
    let samples: [&str; 12] = [
        "0", "1", "10", "+0", "00", "4294967296", "18446744073709551615",
        "18446744073709551616", "-0", "", "+", "12x",
    ];
    for text in samples {
        assert_eq!(parse_content_length(text.as_bytes()), text.parse::<u64>().ok(), "{:?}", text);
    }
}

#[test]
fn started_carries_the_announced_length() {
    let mut download = update().download();
    assert_eq!(
        download.step(&ok_response(Some("1024"))),
        Ok(DownloadEvent::Started { content_length: Some(1024) })
    );
    let mut download = update().download();
    assert_eq!(
        download.step(&ok_response(Some("many"))),
        Ok(DownloadEvent::Started { content_length: None })
    );
}
