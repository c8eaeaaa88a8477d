use screencrab::commands::{screencapture_capture_args, screencapture_record_args, kill_args, taskkill_args, timeout_args, sleep_args, interactive_capture_args, x11_capture_args, x11_record_args, gdi_capture_args, gdi_record_args, dshow_audio_args, gdi_record_output_args};
use screencrab::area::Area;

fn v(xs: &[&str]) -> Vec<String> {
    xs.iter().map(|x| x.to_string()).collect()
}

#[test]
fn screencapture_capture_fullscreen_args() {
    assert_eq!(
        screencapture_capture_args(true, false, None, "png", 5, Some(2), "/t/a.png"),
        v(&["-C", "-t", "png", "-T", "5", "-D", "2", "/t/a.png"])
    );
    assert_eq!(
        screencapture_capture_args(false, true, Some("1,2,3,4"), "jpg", 0, None, "f"),
        v(&["-c", "-R", "1,2,3,4", "-t", "jpg", "-T", "0", "f"])
    );
}

#[test]
fn screencapture_record_args_macos() {
    assert_eq!(
        screencapture_record_args(false, false, true, Some("0,0,10,10"), 3, Some(1), "v.mov"),
        v(&["-v", "-g", "-T", "3", "-R", "0,0,10,10", "-D", "1", "v.mov"])
    );
    assert_eq!(
        screencapture_record_args(true, true, false, None, 0, None, "v.mov"),
        v(&["-v", "-C", "-c", "-T", "0", "v.mov"])
    );
}

#[test]
fn process_args() {
    assert_eq!(kill_args(15, 4242), v(&["-15", "4242"]));
    assert_eq!(kill_args(2, 7), v(&["-2", "7"]));
    assert_eq!(taskkill_args(99), v(&["/F", "/PID", "99"]));
    assert_eq!(timeout_args(10), v(&["/t", "10", "/nobreak"]));
    assert_eq!(sleep_args(3), v(&["3"]));
    assert_eq!(interactive_capture_args("x.png"), v(&["-i", "x.png"]));
}

#[test]
fn x11_args() {
    assert_eq!(
        x11_capture_args(0, None, true, "a.png"),
        v(&["-y", "-f", "x11grab", "-i", ":0.0+0,0", "-frames:v", "1", "a.png", "-draw_mouse", "1"])
    );
    let a = Area { x: 10, y: -20, width: 640, height: 480 };
    assert_eq!(
        x11_capture_args(1, Some(a), false, "a.png"),
        v(&["-y", "-f", "x11grab", "-video_size", "640,480", "-i", ":1.0+10,-20", "-draw_mouse", "false",
            "-frames:v", "1", "a.png", "-draw_mouse", "0"])
    );
    assert_eq!(
        x11_record_args(0, None, true, "r.mp4"),
        v(&["-y", "-f", "x11grab", "-i", ":0.0+0,0", "r.mp4", "-f", "pulse", "-i", "default"])
    );
    assert_eq!(
        x11_record_args(2, Some(a), false, "r.mp4"),
        v(&["-f", "x11grab", "-video_size", "640,480", "-i", ":2.0+10,-20", "r.mp4", "-show_region", "1"])
    );
}

#[test]
fn gdi_args() {
    assert_eq!(
        gdi_capture_args(1920, 0, 1280, 720, false, true, "c.png"),
        v(&["-draw_mouse", "1", "-f", "gdigrab", "-offset_x", "1920", "-offset_y", "0", "-video_size", "1280x720",
            "-i", "desktop", "-frames:v", "1", "c.png"])
    );
    assert_eq!(
        gdi_capture_args(-5, 6, 7, 8, true, false, "c.png"),
        v(&["-draw_mouse", "0", "-f", "gdigrab", "-framerate", "30", "-offset_x", "-5", "-offset_y", "6",
            "-video_size", "7x8", "-i", "desktop", "-frames:v", "1", "c.png"])
    );
    assert_eq!(
        gdi_record_args(0, 0, 1920, 1080),
        v(&["-f", "gdigrab", "-framerate", "30", "-offset_x", "0", "-offset_y", "0", "-video_size", "1920x1080",
            "-i", "desktop"])
    );
    assert_eq!(dshow_audio_args("Mic (USB)"), v(&["-f", "dshow", "-i", "audio=\"Mic (USB)\""]));
    assert_eq!(gdi_record_output_args(true, "o.mp4"), v(&["-show_region", "1", "o.mp4"]));
    assert_eq!(gdi_record_output_args(false, "o.mp4"), v(&["o.mp4"]));
}
