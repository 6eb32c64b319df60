use xsay::download::{
    content_length_total, content_range_total, final_state, hf_url, partial_path, range_header,
    remote_size, resume_plan, stop_reason, DlState, DownloadCmd, ResumePlan,
};

#[test]
fn urls_and_paths() {
    assert_eq!(
        hf_url("ggerganov/whisper.cpp", "ggml-base.bin"),
        "https://huggingface.co/ggerganov/whisper.cpp/resolve/main/ggml-base.bin"
    );
    assert_eq!(partial_path("/tmp/models/x.bin"), "/tmp/models/x.bin.partial");
}

#[test]
fn range_requests() {
    assert_eq!(range_header(0), None);
    assert_eq!(range_header(1048576), Some("bytes=1048576-".to_string()));
}

#[test]
fn reading_sizes() {
    assert_eq!(content_range_total(Some("bytes 100-999/1000")), 1000);
    assert_eq!(content_range_total(Some("bytes 100-999/*")), 0);
    assert_eq!(content_range_total(Some("1234")), 1234);
    assert_eq!(content_range_total(None), 0);
    assert_eq!(content_length_total(Some("4096")), 4096);
    assert_eq!(content_length_total(Some(" 4096")), 0);
    assert_eq!(remote_size(Some("77")), Some(77));
    assert_eq!(remote_size(Some("x")), None);
    assert_eq!(remote_size(None), None);
}

#[test]
fn resuming() {
    assert_eq!(
        resume_plan(206, 500, Some("bytes 500-999/1000"), Some("500")),
        ResumePlan { total: 1000, start_offset: 500, append: true }
    );
    assert_eq!(
        resume_plan(200, 500, None, Some("1000")),
        ResumePlan { total: 1000, start_offset: 0, append: false }
    );
    assert_eq!(
        resume_plan(206, 0, Some("bytes 0-9/10"), None),
        ResumePlan { total: 10, start_offset: 0, append: false }
    );
}

#[test]
fn ending_states() {
    assert!(matches!(final_state(&Ok(())), (DlState::Completed, false)));
    let paused = stop_reason(Some(DownloadCmd::Pause)).unwrap();
    assert!(matches!(final_state(&Err(paused)), (DlState::Paused, false)));
    let cancelled = stop_reason(Some(DownloadCmd::Cancel)).unwrap();
    assert!(matches!(final_state(&Err(cancelled)), (DlState::Cancelled, true)));
    match final_state(&Err("timed out".to_string())) {
        (DlState::Failed(m), false) => assert_eq!(m, "timed out"),
        other => panic!("unexpected {:?}", other),
    }
    assert_eq!(stop_reason(None), None);
}
