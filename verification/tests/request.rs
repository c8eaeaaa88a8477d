use screencrab::request::{capture_mode, output_path, plan_capture, notice_for, CaptureMode, CapturePlan};
use screencrab::response::Response;
use screencrab::flow::Outcome;

#[test]
fn modes_are_read() {
    assert_eq!(capture_mode("capture", "fullscreen").ok(), Some(CaptureMode::CaptureFullscreen));
    assert_eq!(capture_mode("capture", "custom").ok(), Some(CaptureMode::CaptureCustom));
    assert_eq!(capture_mode("record", "fullscreen").ok(), Some(CaptureMode::RecordFullscreen));
    assert_eq!(capture_mode("record", "custom").ok(), Some(CaptureMode::RecordCustom));
}

#[test]
fn unknown_view_is_blamed_when_mode_is_known() {
    let e = capture_mode("record", "window").unwrap_err();
    assert_eq!((e.response, e.error), (None, Some("Invalid view: window".to_string())));
    let e = capture_mode("capture", "").unwrap_err();
    assert_eq!(e.error, Some("Invalid view: ".to_string()));
}

#[test]
fn unknown_mode_is_blamed() {
    let e = capture_mode("paint", "custom").unwrap_err();
    assert_eq!((e.response, e.error), (None, Some("Invalid mode: paint".to_string())));
    let e = capture_mode("Capture", "custom").unwrap_err();
    assert_eq!(e.error, Some("Invalid mode: Capture".to_string()));
}

#[test]
fn output_path_in_a_directory_is_named_after_the_date() {
    assert_eq!(
        output_path("/home/u/Pictures/", false, true, "2024-01-02 at 03-04-05", "png"),
        Ok("/home/u/Pictures/Screen Crab 2024-01-02 at 03-04-05.png".to_string())
    );
    assert_eq!(
        output_path("C:\\Users\\u\\", true, true, "2024-01-02 at 03-04-05", "jpg"),
        Ok("C:\\Users\\u\\Screen Crab 2024-01-02 at 03-04-05.jpg".to_string())
    );
}

#[test]
fn output_path_of_a_file_gets_the_type() {
    assert_eq!(output_path("/tmp/shot", false, false, "d", "png"), Ok("/tmp/shot.png".to_string()));
    assert_eq!(output_path("C:\\a/", true, false, "d", "mov"), Ok("C:\\a/.mov".to_string()));
}

#[test]
fn output_path_in_a_missing_directory_is_refused() {
    assert_eq!(
        output_path("/nowhere/", false, false, "d", "png"),
        Err("\"/nowhere/\" is not a valid directory.".to_string())
    );
}

#[test]
fn plan_refuses_directory_before_mode() {
    match plan_capture("paint", "x", "/nowhere/", false, false, "d", "png") {
        Err(e) => assert_eq!(e, "\"/nowhere/\" is not a valid directory."),
        other => panic!("{:?}", other),
    }
    match plan_capture("paint", "x", "/tmp/a", false, false, "d", "png") {
        Ok(CapturePlan::Answer(r)) => assert_eq!(r.error, Some("Invalid mode: paint".to_string())),
        other => panic!("{:?}", other),
    }
    match plan_capture("record", "custom", "/tmp/a", false, false, "d", "mov") {
        Ok(CapturePlan::Run(m, p)) => {
            assert_eq!(m, CaptureMode::RecordCustom);
            assert_eq!(p, "/tmp/a.mov");
        },
        other => panic!("{:?}", other),
    }
}

#[test]
fn notices() {
    let n = notice_for(&Outcome::SavedTo.response("/x.png")).unwrap();
    assert_eq!(n.title, Some("All done!".to_string()));
    assert_eq!(n.body, "Screen Crab saved to /x.png");
    let n = notice_for(&Outcome::Cancelled.response("/x.png")).unwrap();
    assert_eq!(n.title, None);
    assert_eq!(n.body, "Screen Crab cancelled");
    assert!(notice_for(&Response::new(None, None)).is_none());
    let n = notice_for(&Response::new(Some("m".to_string()), Some("e".to_string()))).unwrap();
    assert_eq!((n.title, n.body), (None, "e".to_string()));
}

#[test]
fn every_outcome_has_a_notice() {
    for o in [Outcome::Cancelled, Outcome::SavedTo, Outcome::SavedToClipboard, Outcome::FailedToOpen, Outcome::FailedToCopy] {
        assert!(notice_for(&o.response("f")).is_some());
    }
}
