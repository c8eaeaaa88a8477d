use screencrab::flow::{CaptureFlow, CaptureAction, Outcome, RecordAction, on_record_exit, on_record_open, ffmpeg_recording_finished};

fn texts(r: &screencrab::response::Response) -> (Option<String>, Option<String>) {
    (r.response.clone(), r.error.clone())
}

#[test]
fn outcome_answers() {
    let f = "/tmp/a.png";
    assert_eq!(texts(&Outcome::Cancelled.response(f)), (None, Some("Screen Crab cancelled".to_string())));
    assert_eq!(texts(&Outcome::SavedTo.response(f)), (Some("Screen Crab saved to /tmp/a.png".to_string()), None));
    assert_eq!(texts(&Outcome::SavedToClipboard.response(f)), (Some("Screen Crab saved to Clipboard".to_string()), None));
    assert_eq!(texts(&Outcome::FailedToOpen.response(f)), (Some("Failed to open /tmp/a.png".to_string()), None));
    assert_eq!(
        texts(&Outcome::FailedToCopy.response(f)),
        (Some("Failed to copy on Clipboard. Screen Crab saved to /tmp/a.png".to_string()), None)
    );
    assert_eq!(texts(&Outcome::Cancelled.response_with_full_stop(f)), (None, Some("Screen Crab cancelled.".to_string())));
    assert_eq!(texts(&Outcome::SavedTo.response_with_full_stop(f)), (Some("Screen Crab saved to /tmp/a.png".to_string()), None));
}

#[test]
fn capture_flow_linux_clipboard() {
    let f = CaptureFlow { clipboard: true, open_file: true, tool_copies: false };
    assert_eq!(f.on_capture_exit(false), CaptureAction::Finish(Outcome::Cancelled));
    assert_eq!(f.on_capture_exit(true), CaptureAction::CopyToClipboard);
    assert_eq!(f.on_copy(true), CaptureAction::RemoveFile);
    assert_eq!(f.on_remove(), CaptureAction::Finish(Outcome::SavedToClipboard));
    assert_eq!(f.on_copy(false), CaptureAction::Finish(Outcome::FailedToCopy));
}

#[test]
fn capture_flow_open_then_answer() {
    let f = CaptureFlow { clipboard: false, open_file: true, tool_copies: false };
    assert_eq!(f.on_capture_exit(true), CaptureAction::Open);
    assert_eq!(f.on_open(true), CaptureAction::Finish(Outcome::SavedTo));
    assert_eq!(f.on_open(false), CaptureAction::Finish(Outcome::FailedToOpen));
    let g = CaptureFlow { clipboard: false, open_file: false, tool_copies: false };
    assert_eq!(g.on_capture_exit(true), CaptureAction::Finish(Outcome::SavedTo));
}

#[test]
fn capture_flow_macos_clipboard_needs_no_copy() {
    let f = CaptureFlow { clipboard: true, open_file: true, tool_copies: true };
    assert_eq!(f.on_capture_exit(true), CaptureAction::Finish(Outcome::SavedToClipboard));
}

#[test]
fn capture_answer_is_success_exactly_when_capture_succeeded() {
    for clipboard in [false, true] {
        for open_file in [false, true] {
            for tool_copies in [false, true] {
                for succeeded in [false, true] {
                    for step_ok in [false, true] {
                        let f = CaptureFlow { clipboard, open_file, tool_copies };
                        let mut a = f.on_capture_exit(succeeded);
                        let mut steps = 0;
                        let outcome = loop {
                            steps += 1;
                            assert!(steps <= 3);
                            a = match a {
                                CaptureAction::Finish(o) => break o,
                                CaptureAction::Open => f.on_open(step_ok),
                                CaptureAction::CopyToClipboard => f.on_copy(step_ok),
                                CaptureAction::RemoveFile => f.on_remove(),
                            };
                        };
                        assert_eq!(outcome.response("f").success(), succeeded);
                    }
                }
            }
        }
    }
}

#[test]
fn record_flow() {
    assert_eq!(on_record_exit(true, false), RecordAction::Finish(Outcome::Cancelled));
    assert_eq!(on_record_exit(true, true), RecordAction::Open);
    assert_eq!(on_record_exit(false, true), RecordAction::Finish(Outcome::SavedTo));
    assert_eq!(on_record_open(true), RecordAction::Finish(Outcome::SavedTo));
    assert_eq!(on_record_open(false), RecordAction::Finish(Outcome::FailedToOpen));
    assert!(ffmpeg_recording_finished(255));
    assert!(!ffmpeg_recording_finished(0));
    assert!(!ffmpeg_recording_finished(-1));
}
