use dictation::session::{
    Phase, RecordAction, RefineFlow, Session, artifact_path, build_transcription_request,
};

fn fresh(refine_available: bool) -> Session {
    Session::new("k123".to_string(), refine_available)
}

#[test]
fn new_session_starts_stopped() {
    let s = fresh(true);
    assert_eq!(s.phase, Phase::Stopped);
    assert_eq!(s.transcript, "");
    assert_eq!(s.status, "Idle");
    assert_eq!(s.api_key, "k123");
    assert!(s.refine_available);
    assert_eq!(s.refine_flow, RefineFlow::Quiet);
}

#[test]
fn state_cycle_three_presses() {
    let mut s = fresh(false);

    let first = s.press_record();
    assert_eq!(s.phase, Phase::Recording);
    assert_eq!(s.status, "Recording...");
    assert!(matches!(first, RecordAction::StartCapture { .. }));

    let second = s.press_record();
    assert_eq!(s.phase, Phase::Processing);
    assert_eq!(s.status, "Processing...");
    assert!(matches!(second, RecordAction::StopAndTranscribe { .. }));

    let text = s.finish_processing(Some("hello".to_string()));
    assert_eq!(s.phase, Phase::Stopped);
    assert_eq!(s.status, "Idle");
    assert_eq!(s.transcript, "hello");
    assert_eq!(text, "hello");

    let third = s.press_record();
    assert_eq!(s.phase, Phase::Recording);
    assert!(matches!(third, RecordAction::StartCapture { .. }));
}

#[test]
fn processing_press_is_ignored() {
    let mut s = fresh(false);
    s.press_record();
    s.press_record();
    assert_eq!(s.phase, Phase::Processing);

    let action = s.press_record();
    assert!(matches!(action, RecordAction::Ignore));
    assert_eq!(s.phase, Phase::Processing);
    assert_eq!(s.status, "Processing...");
}

#[test]
fn artifact_path_fixed_across_cycles() {
    let mut s = fresh(false);
    let mut seen: Vec<String> = Vec::new();
    for _ in 0..2 {
        match s.press_record() {
            RecordAction::StartCapture { path } => seen.push(path),
            other => panic!("expected StartCapture, got {:?}", other),
        }
        match s.press_record() {
            RecordAction::StopAndTranscribe { request } => seen.push(request.file_path),
            other => panic!("expected StopAndTranscribe, got {:?}", other),
        }
        s.finish_processing(Some("t".to_string()));
    }
    for path in seen {
        assert_eq!(path, "/tmp/whisper_record.wav");
    }
}

#[test]
fn transcription_request_fields() {
    let mut s = fresh(false);
    s.press_record();
    let request = match s.press_record() {
        RecordAction::StopAndTranscribe { request } => request,
        other => panic!("expected StopAndTranscribe, got {:?}", other),
    };
    assert_eq!(request.endpoint, "https://api.openai.com/v1/audio/transcriptions");
    assert_eq!(request.file_path, "/tmp/whisper_record.wav");
    assert_eq!(request.auth_header, "Bearer k123");
    assert_eq!(request.model, "whisper-1");
    assert_eq!(request.response_format, "text");
}

#[test]
fn request_built_from_key_alone() {
    let request = build_transcription_request("other-key");
    assert_eq!(request.auth_header, "Bearer other-key");
    assert_eq!(request.file_path, artifact_path());
    assert_eq!(artifact_path(), "/tmp/whisper_record.wav");
}

#[test]
fn transcription_failure_sets_sentinel() {
    let mut s = fresh(false);
    s.press_record();
    s.press_record();
    let text = s.finish_processing(None);
    assert_eq!(text, "Transcription failed");
    assert_eq!(s.transcript, "Transcription failed");
    assert_eq!(s.phase, Phase::Stopped);
    assert_eq!(s.status, "Idle");
}

#[test]
fn capture_failure_returns_to_stopped() {
    let mut s = fresh(false);
    s.press_record();
    assert_eq!(s.phase, Phase::Recording);
    s.note_capture_failure();
    assert_eq!(s.phase, Phase::Stopped);
    assert_eq!(s.status, "Recording failed");
    assert_eq!(s.transcript, "");
}

#[test]
fn clipboard_failure_keeps_transcript() {
    let mut s = fresh(false);
    s.press_record();
    s.press_record();
    let text = s.finish_processing(Some("kept".to_string()));
    s.note_clipboard(false);
    assert_eq!(s.transcript, "kept");
    assert_eq!(s.phase, Phase::Stopped);
    assert_eq!(s.status, "Idle");
    assert_eq!(text, "kept");
}
