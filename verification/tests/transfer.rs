use hedgehog::download_item::download;
use hedgehog::download_item::download::{
    announced_total, destination_for, negotiate, progress, range_for, step, Action, Error, Event,
    Outcome, Progress, State, PARTIAL_CONTENT,
};

fn ready(resume_from: u64) -> State {
    download::file(7, "http://example.com/files/a.bin".to_string(), resume_from)
}

fn responded(status: u16, length: Option<&str>, range: Option<&str>) -> Event {
    Event::Responded {
        status,
        content_length: length.map(|s| s.to_string()),
        content_range: range.map(|s| s.to_string()),
    }
}

fn failed(reason: &str) -> (State, Option<download::Report>) {
    (
        State::Terminal(Outcome::Failed(reason.to_string())),
        Some((7, Err(Error::DownloadError(reason.to_string())))),
    )
}

#[test]
fn file_gives_a_ready_transfer() {
    assert_eq!(
        download::file(3, "http://h/x".to_string(), 12),
        State::Ready(3, "http://h/x".to_string(), 12)
    );
}

#[test]
fn fresh_transfer_runs_to_completion() {
    let state = ready(0);
    assert_eq!(state.action(), Action::CreateDirectory("downloads".to_string()));

    let (state, report) = step(state, Event::DirectoryReady);
    assert_eq!(report, None);
    assert_eq!(
        state.action(),
        Action::SendRequest { url: "http://example.com/files/a.bin".to_string(), range: None }
    );

    let (state, report) = step(state, responded(200, Some("300"), None));
    assert_eq!(
        report,
        Some((
            7,
            Ok(Progress::Started {
                file_path: "downloads/a.bin".to_string(),
                total_size: Some(300)
            })
        ))
    );
    assert_eq!(
        state.action(),
        Action::OpenFile { path: "downloads/a.bin".to_string(), append: false }
    );

    let (state, report) = step(state, Event::FileOpened);
    assert_eq!(report, None);
    assert_eq!(
        state,
        State::Streaming {
            id: 7,
            url: "http://example.com/files/a.bin".to_string(),
            file_path: "downloads/a.bin".to_string(),
            total_size: Some(300),
            downloaded: 0
        }
    );
    assert_eq!(state.action(), Action::TransferChunk);

    let (state, report) = step(state, Event::ChunkWritten(100));
    assert_eq!(report, Some((7, Ok(Progress::Advanced(Some(33), 100)))));
    let (state, report) = step(state, Event::ChunkWritten(100));
    assert_eq!(report, Some((7, Ok(Progress::Advanced(Some(66), 200)))));
    let (state, report) = step(state, Event::ChunkWritten(100));
    assert_eq!(report, Some((7, Ok(Progress::Advanced(Some(100), 300)))));
    assert_eq!(
        state,
        State::Streaming {
            id: 7,
            url: "http://example.com/files/a.bin".to_string(),
            file_path: "downloads/a.bin".to_string(),
            total_size: Some(300),
            downloaded: 300
        }
    );

    let (state, report) = step(state, Event::BodyEnded);
    assert_eq!(report, Some((7, Ok(Progress::Finished))));
    assert_eq!(state, State::Terminal(Outcome::Completed));
    assert!(state.is_terminal());
    assert_eq!(state.action(), Action::Nothing);
}

#[test]
fn reports_are_started_one_per_chunk_and_finished() {
    let mut state = download::file(1, "http://h/a.bin".to_string(), 0);
    let mut reports = Vec::new();
    for event in [
        Event::DirectoryReady,
        responded(200, Some("8"), None),
        Event::FileOpened,
        Event::ChunkWritten(2),
        Event::ChunkWritten(6),
        Event::BodyEnded,
    ] {
        let (next, report) = step(state, event);
        state = next;
        reports.extend(report);
    }
    assert_eq!(
        reports,
        vec![
            (1, Ok(Progress::Started { file_path: "downloads/a.bin".to_string(), total_size: Some(8) })),
            (1, Ok(Progress::Advanced(Some(25), 2))),
            (1, Ok(Progress::Advanced(Some(100), 8))),
            (1, Ok(Progress::Finished)),
        ]
    );
    assert_eq!(state, State::Terminal(Outcome::Completed));
    assert_eq!(state.action(), Action::Nothing);
    let (state, report) = step(state, Event::ChunkWritten(1));
    assert_eq!(report, None);
    assert_eq!(state, State::Terminal(Outcome::Completed));
}

#[test]
fn opening_the_file_reports_nothing() {
    for resume_from in [0u64, 1, 4096, u64::MAX] {
        let status = if resume_from > 0 { 206 } else { 200 };
        let (state, _) = step(ready(resume_from), Event::DirectoryReady);
        let (state, _) = step(state, responded(status, Some("10"), Some("bytes 1-9/10")));
        let (state, report) = step(state, Event::FileOpened);
        assert_eq!(report, None);
        assert_eq!(
            state,
            State::Streaming {
                id: 7,
                url: "http://example.com/files/a.bin".to_string(),
                file_path: "downloads/a.bin".to_string(),
                total_size: Some(10),
                downloaded: resume_from
            }
        );
    }
}

#[test]
fn resumed_transfer_asks_for_the_rest_and_appends() {
    let (state, _) = step(ready(4096), Event::DirectoryReady);
    assert_eq!(
        state.action(),
        Action::SendRequest {
            url: "http://example.com/files/a.bin".to_string(),
            range: Some("bytes=4096-".to_string())
        }
    );
    let (state, report) =
        step(state, responded(206, Some("5904"), Some("bytes 4096-9999/10000")));
    assert_eq!(
        report,
        Some((
            7,
            Ok(Progress::Started {
                file_path: "downloads/a.bin".to_string(),
                total_size: Some(10000)
            })
        ))
    );
    assert_eq!(
        state.action(),
        Action::OpenFile { path: "downloads/a.bin".to_string(), append: true }
    );
    let (state, report) = step(state, Event::FileOpened);
    assert_eq!(report, None);
    assert_eq!(
        state,
        State::Streaming {
            id: 7,
            url: "http://example.com/files/a.bin".to_string(),
            file_path: "downloads/a.bin".to_string(),
            total_size: Some(10000),
            downloaded: 4096
        }
    );
    let (_, report) = step(state, Event::ChunkWritten(904));
    assert_eq!(report, Some((7, Ok(Progress::Advanced(Some(50), 5000)))));
}

#[test]
fn resume_against_full_response_fails_without_a_write() {
    let (state, _) = step(ready(4096), Event::DirectoryReady);
    let out = step(state, responded(200, Some("10000"), None));
    assert_eq!(out, failed("server does not support resume"));
    let (state, _) = out;
    assert_eq!(state.action(), Action::Nothing);
    let (state, report) = step(state, Event::FileOpened);
    assert_eq!(report, None);
    let (state, report) = step(state, Event::ChunkWritten(10));
    assert_eq!(report, None);
    assert_eq!(
        state,
        State::Terminal(Outcome::Failed("server does not support resume".to_string()))
    );
    assert_eq!(state.action(), Action::Nothing);
}

#[test]
fn resume_is_refused_for_every_status_but_partial_content() {
    for status in [100u16, 199, 200, 204, 205, 207, 301, 404, 416, 500] {
        let (state, _) = step(ready(1), Event::DirectoryReady);
        assert_eq!(
            step(state, responded(status, None, Some("bytes 1-9/10"))),
            failed("server does not support resume")
        );
    }
    assert_eq!(PARTIAL_CONTENT, 206);
}

#[test]
fn fresh_transfer_needs_a_success_status() {
    for (status, text) in [(404u16, "404"), (199, "199"), (300, "300"), (500, "500")] {
        let (state, _) = step(ready(0), Event::DirectoryReady);
        let reason = format!("unexpected response status {}", text);
        assert_eq!(step(state, responded(status, Some("10"), None)), failed(&reason));
    }
    for status in [200u16, 206, 299] {
        let (state, _) = step(ready(0), Event::DirectoryReady);
        let (state, _) = step(state, responded(status, Some("10"), None));
        assert!(matches!(state, State::Opening { .. }));
    }
}

#[test]
fn directory_failure_skips_the_request() {
    let out = step(ready(0), Event::DirectoryFailed("read-only file system".to_string()));
    assert_eq!(out, failed("read-only file system"));
    assert_eq!(out.0.action(), Action::Nothing);
}

#[test]
fn request_failure_ends_the_transfer() {
    let (state, _) = step(ready(0), Event::DirectoryReady);
    assert_eq!(
        step(state, Event::RequestFailed("connection refused".to_string())),
        failed("connection refused")
    );
}

#[test]
fn file_failure_ends_the_transfer() {
    let (state, _) = step(ready(0), Event::DirectoryReady);
    let (state, _) = step(state, responded(200, None, None));
    assert_eq!(
        step(state, Event::FileFailed("permission denied".to_string())),
        failed("permission denied")
    );
}

#[test]
fn stream_failure_ends_the_transfer() {
    let (state, _) = step(ready(0), Event::DirectoryReady);
    let (state, _) = step(state, responded(200, None, None));
    let (state, _) = step(state, Event::FileOpened);
    let (state, _) = step(state, Event::ChunkWritten(5));
    assert_eq!(
        step(state, Event::StreamFailed("connection reset".to_string())),
        failed("connection reset")
    );
}

#[test]
fn unknown_size_gives_unknown_progress() {
    let (state, _) = step(ready(0), Event::DirectoryReady);
    let (state, report) = step(state, responded(200, None, None));
    assert_eq!(
        report,
        Some((
            7,
            Ok(Progress::Started { file_path: "downloads/a.bin".to_string(), total_size: None })
        ))
    );
    let (state, report) = step(state, Event::FileOpened);
    assert_eq!(report, None);
    let (_, report) = step(state, Event::ChunkWritten(1234));
    assert_eq!(report, Some((7, Ok(Progress::Advanced(None, 1234)))));
}

#[test]
fn byte_counts_never_decrease() {
    let (state, _) = step(ready(10), Event::DirectoryReady);
    let (state, _) = step(state, responded(206, None, Some("bytes 10-99/100")));
    let (mut state, report) = step(state, Event::FileOpened);
    assert_eq!(report, None);
    let mut last: u64 = 10;
    for len in [0u64, 1, 30, 0, 59] {
        let (next, report) = step(state, Event::ChunkWritten(len));
        state = next;
        match report {
            Some((_, Ok(Progress::Advanced(_, bytes)))) => {
                assert!(bytes >= last);
                assert_eq!(bytes, last + len);
                last = bytes;
            }
            other => panic!("unexpected report {:?}", other),
        }
    }
    assert_eq!(last, 100);
    let (_, report) = step(state, Event::BodyEnded);
    assert_eq!(report, Some((7, Ok(Progress::Finished))));
}

#[test]
fn short_body_still_finishes() {
    let (state, _) = step(ready(0), Event::DirectoryReady);
    let (state, _) = step(state, responded(200, Some("100"), None));
    let (state, _) = step(state, Event::FileOpened);
    let (state, report) = step(state, Event::ChunkWritten(40));
    assert_eq!(report, Some((7, Ok(Progress::Advanced(Some(40), 40)))));
    let (state, report) = step(state, Event::BodyEnded);
    assert_eq!(report, Some((7, Ok(Progress::Finished))));
    assert_eq!(state, State::Terminal(Outcome::Completed));
}

#[test]
fn byte_count_overflow_fails_the_transfer() {
    let (state, _) = step(ready(0), Event::DirectoryReady);
    let (state, _) = step(state, responded(200, None, None));
    let (state, _) = step(state, Event::FileOpened);
    let (state, _) = step(state, Event::ChunkWritten(1));
    assert_eq!(step(state, Event::ChunkWritten(u64::MAX)), failed("byte count overflow"));

    let (state, _) = step(ready(0), Event::DirectoryReady);
    let (state, _) = step(state, responded(200, None, None));
    let (state, _) = step(state, Event::FileOpened);
    let (_, report) = step(state, Event::ChunkWritten(u64::MAX));
    assert_eq!(report, Some((7, Ok(Progress::Advanced(None, u64::MAX)))));
}

#[test]
fn cancel_stops_a_transfer_in_every_state() {
    let cancelled = (State::Terminal(Outcome::Cancelled), None);

    assert_eq!(step(ready(0), Event::Cancel), cancelled);

    let (negotiating, _) = step(ready(0), Event::DirectoryReady);
    assert_eq!(step(negotiating.clone(), Event::Cancel), cancelled);

    let (opening, _) = step(negotiating, responded(200, Some("10"), None));
    assert_eq!(step(opening.clone(), Event::Cancel), cancelled);

    let (streaming, _) = step(opening, Event::FileOpened);
    let (streaming, _) = step(streaming, Event::ChunkWritten(4));
    let (state, report) = step(streaming, Event::Cancel);
    assert_eq!(report, None);
    assert_eq!(state.action(), Action::Nothing);

    let (state, report) = step(state, Event::ChunkWritten(6));
    assert_eq!(report, None);
    let (state, report) = step(state, Event::BodyEnded);
    assert_eq!(report, None);
    assert_eq!(state, State::Terminal(Outcome::Cancelled));
    assert_eq!(state.action(), Action::Nothing);
}

#[test]
fn cancel_leaves_a_finished_transfer_alone() {
    for outcome in
        [Outcome::Completed, Outcome::Cancelled, Outcome::Failed("disk full".to_string())]
    {
        let state = State::Terminal(outcome.clone());
        assert_eq!(step(state, Event::Cancel), (State::Terminal(outcome), None));
    }
}

#[test]
fn events_out_of_turn_change_nothing() {
    let state = ready(5);
    for event in [
        responded(206, None, None),
        Event::RequestFailed("x".to_string()),
        Event::FileOpened,
        Event::FileFailed("x".to_string()),
        Event::ChunkWritten(9),
        Event::BodyEnded,
        Event::StreamFailed("x".to_string()),
    ] {
        assert_eq!(step(state.clone(), event), (state.clone(), None));
    }
    let (negotiating, _) = step(ready(5), Event::DirectoryReady);
    for event in [Event::DirectoryReady, Event::FileOpened, Event::ChunkWritten(9), Event::BodyEnded] {
        assert_eq!(step(negotiating.clone(), event), (negotiating.clone(), None));
    }
    let (opening, _) = step(negotiating, responded(206, None, None));
    for event in [Event::DirectoryReady, responded(200, None, None), Event::ChunkWritten(9)] {
        assert_eq!(step(opening.clone(), event), (opening.clone(), None));
    }
    let (streaming, _) = step(opening, Event::FileOpened);
    for event in [Event::DirectoryReady, Event::FileOpened, responded(200, None, None)] {
        assert_eq!(step(streaming.clone(), event), (streaming.clone(), None));
    }
}

#[test]
fn negotiate_settles_destination_and_size() {
    let (state, report) = negotiate(
        1,
        "https://host/dir/".to_string(),
        0,
        200,
        Some("42".to_string()),
        Some("bytes 0-41/99".to_string()),
    );
    assert_eq!(
        state,
        State::Opening {
            id: 1,
            url: "https://host/dir/".to_string(),
            file_path: "downloads/download".to_string(),
            total_size: Some(42),
            resume_from: 0
        }
    );
    assert_eq!(
        report,
        Some((
            1,
            Ok(Progress::Started {
                file_path: "downloads/download".to_string(),
                total_size: Some(42)
            })
        ))
    );
}

#[test]
fn destination_is_the_last_segment_under_downloads() {
    assert_eq!(destination_for("http://example.com/file.zip"), "downloads/file.zip");
    assert_eq!(destination_for("http://example.com/a/b/c.tar.gz"), "downloads/c.tar.gz");
    assert_eq!(destination_for("http://example.com/"), "downloads/download");
    assert_eq!(destination_for(""), "downloads/download");
    assert_eq!(destination_for("plain"), "downloads/plain");
    assert_eq!(destination_for("http://example.com/x?y=1"), "downloads/x?y=1");
}

#[test]
fn range_header_names_the_offset() {
    assert_eq!(range_for(0), None);
    assert_eq!(range_for(1), Some("bytes=1-".to_string()));
    assert_eq!(range_for(4096), Some("bytes=4096-".to_string()));
    assert_eq!(range_for(u64::MAX), Some("bytes=18446744073709551615-".to_string()));
}

#[test]
fn announced_total_reads_the_right_field() {
    let length = Some("1000".to_string());
    let range = Some("bytes 100-999/5000".to_string());
    assert_eq!(announced_total(0, &length, &range), Some(1000));
    assert_eq!(announced_total(100, &length, &range), Some(5000));
    assert_eq!(announced_total(0, &None, &range), None);
    assert_eq!(announced_total(100, &length, &None), None);
    assert_eq!(announced_total(100, &length, &Some("bytes 100-999/*".to_string())), None);
    assert_eq!(announced_total(100, &length, &Some("5000".to_string())), Some(5000));
    assert_eq!(announced_total(0, &Some("12 ".to_string()), &None), None);
    assert_eq!(announced_total(0, &Some("".to_string()), &None), None);
    assert_eq!(announced_total(0, &Some("0".to_string()), &None), Some(0));
}

#[test]
fn progress_is_the_percentage_rounded_down() {
    assert_eq!(progress(0, Some(200)), Some(0));
    assert_eq!(progress(50, Some(200)), Some(25));
    assert_eq!(progress(199, Some(200)), Some(99));
    assert_eq!(progress(200, Some(200)), Some(100));
    assert_eq!(progress(1, Some(3)), Some(33));
    assert_eq!(progress(2, Some(3)), Some(66));
    assert_eq!(progress(u64::MAX, Some(u64::MAX)), Some(100));
    assert_eq!(progress(u64::MAX - 1, Some(u64::MAX)), Some(99));
    assert_eq!(progress(201, Some(200)), None);
    assert_eq!(progress(0, Some(0)), None);
    assert_eq!(progress(10, None), None);
}

#[test]
fn error_text_has_its_prefix() {
    assert_eq!(
        Error::DownloadError("connection reset".to_string()).to_text(),
        "Download error: connection reset"
    );
    assert_eq!(Error::DownloadError(String::new()).to_text(), "Download error: ");
}
