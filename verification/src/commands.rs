use vstd::prelude::*;
use crate::text::{decimal, signed_decimal, decimal_string, signed_string, push_decimal, push_signed, owned, joined};
use crate::area::Area;

verus! {

/// The characters of each argument of a command line.
pub open spec fn args_view(v: Seq<String>) -> Seq<Seq<char>> {
    v.map_values(|s: String| s@)
}

/// One argument when `b` holds, none otherwise.
pub open spec fn flag(b: bool, f: Seq<char>) -> Seq<Seq<char>> {
    if b { seq![f] } else { Seq::empty() }
}

fn push_arg(v: &mut Vec<String>, s: String)
    ensures
        args_view(final(v)@) == args_view(old(v)@).push(s@),
{
    v.push(s);
    assert(args_view(final(v)@) =~= args_view(old(v)@).push(s@));
}

fn push_lit(v: &mut Vec<String>, lit: &str)
    ensures
        args_view(final(v)@) == args_view(old(v)@).push(lit@),
{
    push_arg(v, owned(lit));
}

fn push_flag(v: &mut Vec<String>, b: bool, lit: &str)
    ensures
        args_view(final(v)@) == args_view(old(v)@) + flag(b, lit@),
{
    if b {
        push_lit(v, lit);
        assert(args_view(final(v)@) =~= args_view(old(v)@) + flag(b, lit@));
    } else {
        assert(args_view(final(v)@) =~= args_view(old(v)@) + flag(b, lit@));
    }
}

// ---------------------------------------------------------------------------
// screencapture, on macOS
// ---------------------------------------------------------------------------

/// `-R area` when an area is given.
pub open spec fn area_opt(area: Option<Seq<char>>) -> Seq<Seq<char>> {
    match area {
        Some(a) => seq!["-R"@, a],
        None => Seq::empty(),
    }
}

/// `-D display` when a display is given.
pub open spec fn display_opt(display: Option<usize>) -> Seq<Seq<char>> {
    match display {
        Some(d) => seq!["-D"@, decimal(d as nat)],
        None => Seq::empty(),
    }
}

/// The arguments of `screencapture` for a picture: the mouse pointer and
/// clipboard flags, the area when there is one, the file type, the delay, the
/// display when there is one, and the file.
pub open spec fn screencapture_capture(
    pointer: bool,
    clipboard: bool,
    area: Option<Seq<char>>,
    file_type: Seq<char>,
    timer: u64,
    display: Option<usize>,
    filename: Seq<char>,
) -> Seq<Seq<char>> {
    flag(pointer, "-C"@) + flag(clipboard, "-c"@) + area_opt(area) + seq!["-t"@, file_type, "-T"@, decimal(timer as nat)]
        + display_opt(display) + seq![filename]
}

/// The arguments of `screencapture` for a video: `-v`, the mouse pointer,
/// clipboard and audio flags, the delay, the area when there is one, the
/// display when there is one, and the file.
pub open spec fn screencapture_record(
    pointer: bool,
    clipboard: bool,
    audio: bool,
    area: Option<Seq<char>>,
    timer: u64,
    display: Option<usize>,
    filename: Seq<char>,
) -> Seq<Seq<char>> {
    seq!["-v"@] + flag(pointer, "-C"@) + flag(clipboard, "-c"@) + flag(audio, "-g"@) + seq!["-T"@, decimal(timer as nat)]
        + area_opt(area) + display_opt(display) + seq![filename]
}

pub open spec fn opt_str(o: Option<&str>) -> Option<Seq<char>> {
    match o {
        Some(s) => Some(s@),
        None => None,
    }
}

fn push_area(v: &mut Vec<String>, area: Option<&str>)
    ensures
        args_view(final(v)@) == args_view(old(v)@) + area_opt(opt_str(area)),
{
    match area {
        Some(a) => {
            push_lit(v, "-R");
            push_arg(v, owned(a));
        },
        None => {},
    }
    assert(args_view(final(v)@) =~= args_view(old(v)@) + area_opt(opt_str(area)));
}

fn push_display(v: &mut Vec<String>, display: Option<usize>)
    ensures
        args_view(final(v)@) == args_view(old(v)@) + display_opt(display),
{
    match display {
        Some(d) => {
            push_lit(v, "-D");
            push_arg(v, decimal_string(d as u64));
        },
        None => {},
    }
    assert(args_view(final(v)@) =~= args_view(old(v)@) + display_opt(display));
}

/// The arguments of `screencapture` for a picture.
pub fn screencapture_capture_args(
    pointer: bool,
    clipboard: bool,
    area: Option<&str>,
    file_type: &str,
    timer: u64,
    display: Option<usize>,
    filename: &str,
) -> (v: Vec<String>)
    ensures
        args_view(v@) == screencapture_capture(pointer, clipboard, opt_str(area), file_type@, timer, display, filename@),
{
    let mut v: Vec<String> = Vec::new();
    assert(args_view(v@) =~= Seq::<Seq<char>>::empty());
    push_flag(&mut v, pointer, "-C");
    push_flag(&mut v, clipboard, "-c");
    push_area(&mut v, area);
    push_lit(&mut v, "-t");
    push_arg(&mut v, owned(file_type));
    push_lit(&mut v, "-T");
    push_arg(&mut v, decimal_string(timer));
    push_display(&mut v, display);
    push_arg(&mut v, owned(filename));
    assert(args_view(v@) =~= screencapture_capture(pointer, clipboard, opt_str(area), file_type@, timer, display, filename@));
    v
}

/// The arguments of `screencapture` for a video.
pub fn screencapture_record_args(
    pointer: bool,
    clipboard: bool,
    audio: bool,
    area: Option<&str>,
    timer: u64,
    display: Option<usize>,
    filename: &str,
) -> (v: Vec<String>)
    ensures
        args_view(v@) == screencapture_record(pointer, clipboard, audio, opt_str(area), timer, display, filename@),
{
    let mut v: Vec<String> = Vec::new();
    assert(args_view(v@) =~= Seq::<Seq<char>>::empty());
    push_lit(&mut v, "-v");
    push_flag(&mut v, pointer, "-C");
    push_flag(&mut v, clipboard, "-c");
    push_flag(&mut v, audio, "-g");
    push_lit(&mut v, "-T");
    push_arg(&mut v, decimal_string(timer));
    push_area(&mut v, area);
    push_display(&mut v, display);
    push_arg(&mut v, owned(filename));
    assert(args_view(v@) =~= screencapture_record(pointer, clipboard, audio, opt_str(area), timer, display, filename@));
    v
}

/// The arguments of the interactive `screencapture -i` picture.
pub fn interactive_capture_args(filename: &str) -> (v: Vec<String>)
    ensures
        args_view(v@) == seq!["-i"@, filename@],
{
    let mut v: Vec<String> = Vec::new();
    push_lit(&mut v, "-i");
    push_arg(&mut v, owned(filename));
    assert(args_view(v@) =~= seq!["-i"@, filename@]);
    v
}

// ---------------------------------------------------------------------------
// Processes
// ---------------------------------------------------------------------------

/// The arguments of `kill` sending signal `signal` to the process `pid`.
pub fn kill_args(signal: u8, pid: u32) -> (v: Vec<String>)
    ensures
        args_view(v@) == seq![seq!['-'] + decimal(signal as nat), decimal(pid as nat)],
{
    let mut v: Vec<String> = Vec::new();
    let mut s = String::new();
    crate::text::push_char(&mut s, '-');
    push_decimal(&mut s, signal as u64);
    push_arg(&mut v, s);
    push_arg(&mut v, decimal_string(pid as u64));
    assert(args_view(v@) =~= seq![seq!['-'] + decimal(signal as nat), decimal(pid as nat)]);
    v
}

/// The arguments of `taskkill` ending the process `pid` by force.
pub fn taskkill_args(pid: u32) -> (v: Vec<String>)
    ensures
        args_view(v@) == seq!["/F"@, "/PID"@, decimal(pid as nat)],
{
    let mut v: Vec<String> = Vec::new();
    push_lit(&mut v, "/F");
    push_lit(&mut v, "/PID");
    push_arg(&mut v, decimal_string(pid as u64));
    assert(args_view(v@) =~= seq!["/F"@, "/PID"@, decimal(pid as nat)]);
    v
}

/// The arguments of the Windows `timeout` that waits `timer` seconds without
/// letting a key press skip the wait.
pub fn timeout_args(timer: u64) -> (v: Vec<String>)
    ensures
        args_view(v@) == seq!["/t"@, decimal(timer as nat), "/nobreak"@],
{
    let mut v: Vec<String> = Vec::new();
    push_lit(&mut v, "/t");
    push_arg(&mut v, decimal_string(timer));
    push_lit(&mut v, "/nobreak");
    assert(args_view(v@) =~= seq!["/t"@, decimal(timer as nat), "/nobreak"@]);
    v
}

/// The argument of `sleep` that waits `timer` seconds.
pub fn sleep_args(timer: u64) -> (v: Vec<String>)
    ensures
        args_view(v@) == seq![decimal(timer as nat)],
{
    let mut v: Vec<String> = Vec::new();
    push_arg(&mut v, decimal_string(timer));
    assert(args_view(v@) =~= seq![decimal(timer as nat)]);
    v
}


// ---------------------------------------------------------------------------
// ffmpeg on X11, on Linux
// ---------------------------------------------------------------------------

/// The X11 input of display `index` from the point (x, y): ":index.0+x,y".
pub open spec fn x11_input(index: usize, x: int, y: int) -> Seq<char> {
    ":"@ + decimal(index as nat) + ".0+"@ + signed_decimal(x) + ","@ + signed_decimal(y)
}

/// A size written "width,height".
pub open spec fn comma_size(w: int, h: int) -> Seq<char> {
    signed_decimal(w) + ","@ + signed_decimal(h)
}

/// The `-draw_mouse` flag with the value "1" or "0".
pub open spec fn draw_mouse(pointer: bool) -> Seq<Seq<char>> {
    seq!["-draw_mouse"@, if pointer { "1"@ } else { "0"@ }]
}

/// The arguments of ffmpeg taking one picture of display `index` on X11: of
/// the whole display, or of an area of it.
pub open spec fn x11_capture(index: usize, area: Option<Area>, pointer: bool, filename: Seq<char>) -> Seq<Seq<char>> {
    match area {
        None => seq!["-y"@, "-f"@, "x11grab"@, "-i"@, x11_input(index, 0, 0), "-frames:v"@, "1"@, filename]
            + draw_mouse(pointer),
        Some(a) => seq!["-y"@, "-f"@, "x11grab"@, "-video_size"@, comma_size(a.width as int, a.height as int), "-i"@,
            x11_input(index, a.x as int, a.y as int), "-draw_mouse"@, if pointer { "true"@ } else { "false"@ },
            "-frames:v"@, "1"@, filename] + draw_mouse(pointer),
    }
}

/// The arguments that add the default PulseAudio input, when audio is asked for.
pub open spec fn pulse_audio(audio: bool) -> Seq<Seq<char>> {
    if audio { seq!["-f"@, "pulse"@, "-i"@, "default"@] } else { Seq::empty() }
}

/// The arguments of ffmpeg recording display `index` on X11: the whole
/// display, or an area of it with its region shown.
pub open spec fn x11_record(index: usize, area: Option<Area>, audio: bool, filename: Seq<char>) -> Seq<Seq<char>> {
    match area {
        None => seq!["-y"@, "-f"@, "x11grab"@, "-i"@, x11_input(index, 0, 0), filename] + pulse_audio(audio),
        Some(a) => seq!["-f"@, "x11grab"@, "-video_size"@, comma_size(a.width as int, a.height as int), "-i"@,
            x11_input(index, a.x as int, a.y as int), filename] + pulse_audio(audio) + seq!["-show_region"@, "1"@],
    }
}

fn x11_input_string(index: usize, x: i32, y: i32) -> (s: String)
    ensures
        s@ == x11_input(index, x as int, y as int),
{
    let mut s = owned(":");
    push_decimal(&mut s, index as u64);
    s.append(".0+");
    push_signed(&mut s, x as i64);
    s.append(",");
    push_signed(&mut s, y as i64);
    assert(s@ =~= x11_input(index, x as int, y as int));
    s
}

fn size_string(w: i64, h: i64, sep: &str) -> (s: String)
    ensures
        s@ == signed_decimal(w as int) + sep@ + signed_decimal(h as int),
{
    let mut s = signed_string(w);
    s.append(sep);
    push_signed(&mut s, h);
    assert(s@ =~= signed_decimal(w as int) + sep@ + signed_decimal(h as int));
    s
}

fn push_draw_mouse(v: &mut Vec<String>, pointer: bool)
    ensures
        args_view(final(v)@) == args_view(old(v)@) + draw_mouse(pointer),
{
    push_lit(v, "-draw_mouse");
    if pointer { push_lit(v, "1"); } else { push_lit(v, "0"); }
    assert(args_view(final(v)@) =~= args_view(old(v)@) + draw_mouse(pointer));
}

fn push_pulse_audio(v: &mut Vec<String>, audio: bool)
    ensures
        args_view(final(v)@) == args_view(old(v)@) + pulse_audio(audio),
{
    if audio {
        push_lit(v, "-f");
        push_lit(v, "pulse");
        push_lit(v, "-i");
        push_lit(v, "default");
    }
    assert(args_view(final(v)@) =~= args_view(old(v)@) + pulse_audio(audio));
}

/// The arguments of ffmpeg taking one picture on X11.
pub fn x11_capture_args(index: usize, area: Option<Area>, pointer: bool, filename: &str) -> (v: Vec<String>)
    ensures
        args_view(v@) == x11_capture(index, area, pointer, filename@),
{
    let mut v: Vec<String> = Vec::new();
    push_lit(&mut v, "-y");
    push_lit(&mut v, "-f");
    push_lit(&mut v, "x11grab");
    match area {
        None => {
            push_lit(&mut v, "-i");
            push_arg(&mut v, x11_input_string(index, 0, 0));
        },
        Some(a) => {
            push_lit(&mut v, "-video_size");
            push_arg(&mut v, size_string(a.width as i64, a.height as i64, ","));
            push_lit(&mut v, "-i");
            push_arg(&mut v, x11_input_string(index, a.x, a.y));
            push_lit(&mut v, "-draw_mouse");
            if pointer { push_lit(&mut v, "true"); } else { push_lit(&mut v, "false"); }
        },
    }
    push_lit(&mut v, "-frames:v");
    push_lit(&mut v, "1");
    push_arg(&mut v, owned(filename));
    push_draw_mouse(&mut v, pointer);
    assert(args_view(v@) =~= x11_capture(index, area, pointer, filename@));
    v
}

/// The arguments of ffmpeg recording on X11.
pub fn x11_record_args(index: usize, area: Option<Area>, audio: bool, filename: &str) -> (v: Vec<String>)
    ensures
        args_view(v@) == x11_record(index, area, audio, filename@),
{
    let mut v: Vec<String> = Vec::new();
    match area {
        None => {
            push_lit(&mut v, "-y");
            push_lit(&mut v, "-f");
            push_lit(&mut v, "x11grab");
            push_lit(&mut v, "-i");
            push_arg(&mut v, x11_input_string(index, 0, 0));
            push_arg(&mut v, owned(filename));
            push_pulse_audio(&mut v, audio);
        },
        Some(a) => {
            push_lit(&mut v, "-f");
            push_lit(&mut v, "x11grab");
            push_lit(&mut v, "-video_size");
            push_arg(&mut v, size_string(a.width as i64, a.height as i64, ","));
            push_lit(&mut v, "-i");
            push_arg(&mut v, x11_input_string(index, a.x, a.y));
            push_arg(&mut v, owned(filename));
            push_pulse_audio(&mut v, audio);
            push_lit(&mut v, "-show_region");
            push_lit(&mut v, "1");
        },
    }
    assert(args_view(v@) =~= x11_record(index, area, audio, filename@));
    v
}

// ---------------------------------------------------------------------------
// ffmpeg with gdigrab, on Windows
// ---------------------------------------------------------------------------

/// The arguments of ffmpeg that select the desktop rectangle at (x, y) of size
/// w by h.
pub open spec fn gdi_rectangle(x: int, y: int, w: int, h: int) -> Seq<Seq<char>> {
    seq!["-offset_x"@, signed_decimal(x), "-offset_y"@, signed_decimal(y), "-video_size"@,
        signed_decimal(w) + "x"@ + signed_decimal(h), "-i"@, "desktop"@]
}

/// The arguments of ffmpeg taking one picture of a desktop rectangle; a
/// custom area is grabbed at 30 frames per second.
pub open spec fn gdi_capture(x: int, y: int, w: int, h: int, custom: bool, pointer: bool, filename: Seq<char>) -> Seq<Seq<char>> {
    draw_mouse(pointer) + seq!["-f"@, "gdigrab"@] + (if custom { seq!["-framerate"@, "30"@] } else { Seq::empty() })
        + gdi_rectangle(x, y, w, h) + seq!["-frames:v"@, "1"@, filename]
}

/// The arguments of ffmpeg that start a recording of a desktop rectangle.
pub open spec fn gdi_record(x: int, y: int, w: int, h: int) -> Seq<Seq<char>> {
    seq!["-f"@, "gdigrab"@, "-framerate"@, "30"@] + gdi_rectangle(x, y, w, h)
}

fn push_gdi_rectangle(v: &mut Vec<String>, x: i64, y: i64, w: i64, h: i64)
    ensures
        args_view(final(v)@) == args_view(old(v)@) + gdi_rectangle(x as int, y as int, w as int, h as int),
{
    push_lit(v, "-offset_x");
    push_arg(v, signed_string(x));
    push_lit(v, "-offset_y");
    push_arg(v, signed_string(y));
    push_lit(v, "-video_size");
    push_arg(v, size_string(w, h, "x"));
    push_lit(v, "-i");
    push_lit(v, "desktop");
    assert(args_view(final(v)@) =~= args_view(old(v)@) + gdi_rectangle(x as int, y as int, w as int, h as int));
}

/// The arguments of ffmpeg taking one picture of a desktop rectangle.
pub fn gdi_capture_args(x: i64, y: i64, w: i64, h: i64, custom: bool, pointer: bool, filename: &str) -> (v: Vec<String>)
    ensures
        args_view(v@) == gdi_capture(x as int, y as int, w as int, h as int, custom, pointer, filename@),
{
    let mut v: Vec<String> = Vec::new();
    assert(args_view(v@) =~= Seq::<Seq<char>>::empty());
    push_draw_mouse(&mut v, pointer);
    push_lit(&mut v, "-f");
    push_lit(&mut v, "gdigrab");
    if custom {
        push_lit(&mut v, "-framerate");
        push_lit(&mut v, "30");
    }
    push_gdi_rectangle(&mut v, x, y, w, h);
    push_lit(&mut v, "-frames:v");
    push_lit(&mut v, "1");
    push_arg(&mut v, owned(filename));
    assert(args_view(v@) =~= gdi_capture(x as int, y as int, w as int, h as int, custom, pointer, filename@));
    v
}

/// The arguments of ffmpeg that start a recording of a desktop rectangle.
pub fn gdi_record_args(x: i64, y: i64, w: i64, h: i64) -> (v: Vec<String>)
    ensures
        args_view(v@) == gdi_record(x as int, y as int, w as int, h as int),
{
    let mut v: Vec<String> = Vec::new();
    push_lit(&mut v, "-f");
    push_lit(&mut v, "gdigrab");
    push_lit(&mut v, "-framerate");
    push_lit(&mut v, "30");
    push_gdi_rectangle(&mut v, x, y, w, h);
    assert(args_view(v@) =~= gdi_record(x as int, y as int, w as int, h as int));
    v
}

/// The arguments of ffmpeg that add the DirectShow microphone `mic`; the
/// last one is passed to the process as it is, quotes included.
pub fn dshow_audio_args(mic: &str) -> (v: Vec<String>)
    ensures
        args_view(v@) == seq!["-f"@, "dshow"@, "-i"@, "audio=\""@ + mic@ + "\""@],
{
    let mut v: Vec<String> = Vec::new();
    push_lit(&mut v, "-f");
    push_lit(&mut v, "dshow");
    push_lit(&mut v, "-i");
    let mut s = joined("audio=\"", mic);
    s.append("\"");
    push_arg(&mut v, s);
    assert(args_view(v@) =~= seq!["-f"@, "dshow"@, "-i"@, "audio=\""@ + mic@ + "\""@]);
    v
}

/// The last arguments of a recording of the desktop: the region shown for a
/// custom area, then the file.
pub fn gdi_record_output_args(custom: bool, filename: &str) -> (v: Vec<String>)
    ensures
        args_view(v@) == (if custom { seq!["-show_region"@, "1"@] } else { Seq::<Seq<char>>::empty() }) + seq![filename@],
{
    let mut v: Vec<String> = Vec::new();
    if custom {
        push_lit(&mut v, "-show_region");
        push_lit(&mut v, "1");
    }
    push_arg(&mut v, owned(filename));
    assert(args_view(v@) =~= (if custom { seq!["-show_region"@, "1"@] } else { Seq::<Seq<char>>::empty() }) + seq![filename@]);
    v
}

// ---------------------------------------------------------------------------
// How the command lines relate to what is asked
// ---------------------------------------------------------------------------

/// The `screencapture` picture arguments: without options they are the file
/// type, the delay and the file; the pointer flag and the clipboard flag come
/// first when asked; an area adds "-R" and the area right after those flags;
/// and a display adds "-D" and its number right before the file, whether or
/// not there is an area.
pub proof fn law_screencapture_capture(
    pointer: bool,
    clipboard: bool,
    area: Option<Seq<char>>,
    file_type: Seq<char>,
    timer: u64,
    display: Option<usize>,
    filename: Seq<char>,
)
    ensures
        screencapture_capture(false, false, None, file_type, timer, None, filename)
            == seq!["-t"@, file_type, "-T"@, decimal(timer as nat), filename],
        screencapture_capture(true, clipboard, area, file_type, timer, display, filename)
            == seq!["-C"@] + screencapture_capture(false, clipboard, area, file_type, timer, display, filename),
        screencapture_capture(false, true, area, file_type, timer, display, filename)
            == seq!["-c"@] + screencapture_capture(false, false, area, file_type, timer, display, filename),
        area matches Some(a) ==> ({
            let w = screencapture_capture(pointer, clipboard, None, file_type, timer, display, filename);
            let k: int = (flag(pointer, "-C"@).len() + flag(clipboard, "-c"@).len()) as int;
            screencapture_capture(pointer, clipboard, area, file_type, timer, display, filename)
                == w.take(k) + seq!["-R"@, a] + w.skip(k)
        }),
        display matches Some(d) ==> ({
            let w = screencapture_capture(pointer, clipboard, area, file_type, timer, None, filename);
            screencapture_capture(pointer, clipboard, area, file_type, timer, display, filename)
                == w.drop_last() + seq!["-D"@, decimal(d as nat), filename]
        }),
{
    let w0 = screencapture_capture(pointer, clipboard, None, file_type, timer, display, filename);
    let k: int = (flag(pointer, "-C"@).len() + flag(clipboard, "-c"@).len()) as int;
    if let Some(a) = area {
        assert(screencapture_capture(pointer, clipboard, area, file_type, timer, display, filename)
            =~= w0.take(k) + seq!["-R"@, a] + w0.skip(k));
    }
    if let Some(d) = display {
        let w = screencapture_capture(pointer, clipboard, area, file_type, timer, None, filename);
        assert(screencapture_capture(pointer, clipboard, area, file_type, timer, display, filename)
            =~= w.drop_last() + seq!["-D"@, decimal(d as nat), filename]);
    }
    assert(screencapture_capture(false, false, None, file_type, timer, None, filename)
        =~= seq!["-t"@, file_type, "-T"@, decimal(timer as nat), filename]);
    assert(screencapture_capture(true, clipboard, area, file_type, timer, display, filename)
        =~= seq!["-C"@] + screencapture_capture(false, clipboard, area, file_type, timer, display, filename));
    assert(screencapture_capture(false, true, area, file_type, timer, display, filename)
        =~= seq!["-c"@] + screencapture_capture(false, false, area, file_type, timer, display, filename));
}

/// The `screencapture` video arguments: without options they are "-v", the
/// delay and the file; the pointer, clipboard and audio flags come right
/// after "-v" when asked; an area adds "-R" and the area right after the
/// delay; and a display adds "-D" and its number right before the file,
/// whether or not there is an area.
pub proof fn law_screencapture_record(
    pointer: bool,
    clipboard: bool,
    audio: bool,
    area: Option<Seq<char>>,
    timer: u64,
    display: Option<usize>,
    filename: Seq<char>,
)
    ensures
        screencapture_record(false, false, false, None, timer, None, filename)
            == seq!["-v"@, "-T"@, decimal(timer as nat), filename],
        screencapture_record(true, clipboard, audio, area, timer, display, filename)
            == seq!["-v"@, "-C"@] + screencapture_record(false, clipboard, audio, area, timer, display, filename).skip(1),
        screencapture_record(false, true, audio, area, timer, display, filename)
            == seq!["-v"@, "-c"@] + screencapture_record(false, false, audio, area, timer, display, filename).skip(1),
        screencapture_record(false, false, true, area, timer, display, filename)
            == seq!["-v"@, "-g"@] + screencapture_record(false, false, false, area, timer, display, filename).skip(1),
        area matches Some(a) ==> ({
            let w = screencapture_record(pointer, clipboard, audio, None, timer, display, filename);
            let k: int = (3 + flag(pointer, "-C"@).len() + flag(clipboard, "-c"@).len() + flag(audio, "-g"@).len()) as int;
            screencapture_record(pointer, clipboard, audio, area, timer, display, filename)
                == w.take(k) + seq!["-R"@, a] + w.skip(k)
        }),
        display matches Some(d) ==> ({
            let w = screencapture_record(pointer, clipboard, audio, area, timer, None, filename);
            screencapture_record(pointer, clipboard, audio, area, timer, display, filename)
                == w.drop_last() + seq!["-D"@, decimal(d as nat), filename]
        }),
{
    lemma_record_flags(pointer, clipboard, audio, area, timer, display, filename);
    lemma_record_area(pointer, clipboard, audio, area, timer, display, filename);
    lemma_record_display(pointer, clipboard, audio, area, timer, display, filename);
}

proof fn lemma_record_flags(
    pointer: bool,
    clipboard: bool,
    audio: bool,
    area: Option<Seq<char>>,
    timer: u64,
    display: Option<usize>,
    filename: Seq<char>,
)
    ensures
        screencapture_record(false, false, false, None, timer, None, filename)
            == seq!["-v"@, "-T"@, decimal(timer as nat), filename],
        screencapture_record(true, clipboard, audio, area, timer, display, filename)
            == seq!["-v"@, "-C"@] + screencapture_record(false, clipboard, audio, area, timer, display, filename).skip(1),
        screencapture_record(false, true, audio, area, timer, display, filename)
            == seq!["-v"@, "-c"@] + screencapture_record(false, false, audio, area, timer, display, filename).skip(1),
        screencapture_record(false, false, true, area, timer, display, filename)
            == seq!["-v"@, "-g"@] + screencapture_record(false, false, false, area, timer, display, filename).skip(1),
{
    assert(screencapture_record(false, false, false, None, timer, None, filename)
        =~= seq!["-v"@, "-T"@, decimal(timer as nat), filename]);
    assert(screencapture_record(true, clipboard, audio, area, timer, display, filename)
        =~= seq!["-v"@, "-C"@] + screencapture_record(false, clipboard, audio, area, timer, display, filename).skip(1));
    assert(screencapture_record(false, true, audio, area, timer, display, filename)
        =~= seq!["-v"@, "-c"@] + screencapture_record(false, false, audio, area, timer, display, filename).skip(1));
    assert(screencapture_record(false, false, true, area, timer, display, filename)
        =~= seq!["-v"@, "-g"@] + screencapture_record(false, false, false, area, timer, display, filename).skip(1));
}

proof fn lemma_record_area(
    pointer: bool,
    clipboard: bool,
    audio: bool,
    area: Option<Seq<char>>,
    timer: u64,
    display: Option<usize>,
    filename: Seq<char>,
)
    ensures
        area matches Some(a) ==> ({
            let w = screencapture_record(pointer, clipboard, audio, None, timer, display, filename);
            let k: int = (3 + flag(pointer, "-C"@).len() + flag(clipboard, "-c"@).len() + flag(audio, "-g"@).len()) as int;
            screencapture_record(pointer, clipboard, audio, area, timer, display, filename)
                == w.take(k) + seq!["-R"@, a] + w.skip(k)
        }),
{
    let w0 = screencapture_record(pointer, clipboard, audio, None, timer, display, filename);
    let k: int = (3 + flag(pointer, "-C"@).len() + flag(clipboard, "-c"@).len() + flag(audio, "-g"@).len()) as int;
    if let Some(a) = area {
        assert(screencapture_record(pointer, clipboard, audio, area, timer, display, filename)
            =~= w0.take(k) + seq!["-R"@, a] + w0.skip(k));
    }
}

proof fn lemma_record_display(
    pointer: bool,
    clipboard: bool,
    audio: bool,
    area: Option<Seq<char>>,
    timer: u64,
    display: Option<usize>,
    filename: Seq<char>,
)
    ensures
        display matches Some(d) ==> ({
            let w = screencapture_record(pointer, clipboard, audio, area, timer, None, filename);
            screencapture_record(pointer, clipboard, audio, area, timer, display, filename)
                == w.drop_last() + seq!["-D"@, decimal(d as nat), filename]
        }),
{
    if let Some(d) = display {
        let w = screencapture_record(pointer, clipboard, audio, area, timer, None, filename);
        assert(screencapture_record(pointer, clipboard, audio, area, timer, display, filename)
            =~= w.drop_last() + seq!["-D"@, decimal(d as nat), filename]);
    }
}

/// The X11 input names the display and the corner: ":", the display's
/// number, ".0+", then x and y with a comma between.
pub proof fn law_x11_input(index: usize, x: int, y: int)
    ensures
        x11_input(index, x, y) == ":"@ + decimal(index as nat) + ".0+"@ + signed_decimal(x) + ","@ + signed_decimal(y),
        comma_size(x, y) == signed_decimal(x) + ","@ + signed_decimal(y),
{
}

/// The ffmpeg arguments of a picture on X11: of the whole display, the X11
/// grab of its corner (0, 0), one frame, the file, and the pointer drawn or
/// not; an area puts its size before the input, grabs from its corner, and
/// repeats the pointer choice as "true" or "false" before the frame count.
pub proof fn law_x11_capture(index: usize, area: Option<Area>, pointer: bool, filename: Seq<char>)
    ensures
        x11_capture(index, None, pointer, filename) == seq!["-y"@, "-f"@, "x11grab"@, "-i"@, x11_input(index, 0, 0),
            "-frames:v"@, "1"@, filename, "-draw_mouse"@, if pointer { "1"@ } else { "0"@ }],
        area matches Some(a) ==> ({
            let w = x11_capture(index, None, pointer, filename);
            x11_capture(index, area, pointer, filename) == w.take(3) + seq!["-video_size"@,
                comma_size(a.width as int, a.height as int), "-i"@, x11_input(index, a.x as int, a.y as int),
                "-draw_mouse"@, if pointer { "true"@ } else { "false"@ }] + w.skip(5)
        }),
{
    assert(x11_capture(index, None, pointer, filename) =~= seq!["-y"@, "-f"@, "x11grab"@, "-i"@, x11_input(index, 0, 0),
        "-frames:v"@, "1"@, filename, "-draw_mouse"@, if pointer { "1"@ } else { "0"@ }]);
    if let Some(a) = area {
        let w = x11_capture(index, None, pointer, filename);
        assert(x11_capture(index, area, pointer, filename) =~= w.take(3) + seq!["-video_size"@,
            comma_size(a.width as int, a.height as int), "-i"@, x11_input(index, a.x as int, a.y as int),
            "-draw_mouse"@, if pointer { "true"@ } else { "false"@ }] + w.skip(5));
    }
}

/// The ffmpeg arguments of a recording on X11: without audio, the X11 grab of
/// the whole display from (0, 0) and the file, or for an area its size, the
/// grab from its corner, the file and the region shown. With audio, whatever
/// the area, the same arguments with the default PulseAudio input added right
/// after the file.
pub proof fn law_x11_record(index: usize, area: Option<Area>, audio: bool, filename: Seq<char>)
    ensures
        x11_record(index, None, false, filename) == seq!["-y"@, "-f"@, "x11grab"@, "-i"@, x11_input(index, 0, 0), filename],
        area matches Some(a) ==> x11_record(index, area, false, filename) == seq!["-f"@, "x11grab"@, "-video_size"@,
            comma_size(a.width as int, a.height as int), "-i"@, x11_input(index, a.x as int, a.y as int), filename,
            "-show_region"@, "1"@],
        ({
            let w = x11_record(index, area, false, filename);
            let j: int = if area is Some { 7 } else { 6 };
            &&& w[j - 1] == filename
            &&& x11_record(index, area, true, filename) == w.take(j) + seq!["-f"@, "pulse"@, "-i"@, "default"@] + w.skip(j)
        }),
{
    assert(x11_record(index, None, false, filename) =~= seq!["-y"@, "-f"@, "x11grab"@, "-i"@, x11_input(index, 0, 0), filename]);
    let w = x11_record(index, area, false, filename);
    let j: int = if area is Some { 7 } else { 6 };
    if let Some(a) = area {
        assert(w =~= seq!["-f"@, "x11grab"@, "-video_size"@,
            comma_size(a.width as int, a.height as int), "-i"@, x11_input(index, a.x as int, a.y as int), filename,
            "-show_region"@, "1"@]);
    }
    assert(x11_record(index, area, true, filename) =~= w.take(j) + seq!["-f"@, "pulse"@, "-i"@, "default"@] + w.skip(j));
}

/// The ffmpeg arguments of a picture with gdigrab: the pointer drawn or not,
/// the gdigrab input, the rectangle's corner and its size written
/// "widthxheight" from the desktop, one frame, and the file; a custom area
/// adds a frame rate of 30 right before the rectangle. A recording starts
/// with gdigrab at 30 frames per second and the same rectangle.
pub proof fn law_gdi_args(x: int, y: int, w: int, h: int, custom: bool, pointer: bool, filename: Seq<char>)
    ensures
        gdi_capture(x, y, w, h, false, pointer, filename) == seq!["-draw_mouse"@, if pointer { "1"@ } else { "0"@ },
            "-f"@, "gdigrab"@, "-offset_x"@, signed_decimal(x), "-offset_y"@, signed_decimal(y), "-video_size"@,
            signed_decimal(w) + "x"@ + signed_decimal(h), "-i"@, "desktop"@, "-frames:v"@, "1"@, filename],
        ({
            let c = gdi_capture(x, y, w, h, false, pointer, filename);
            gdi_capture(x, y, w, h, true, pointer, filename) == c.take(4) + seq!["-framerate"@, "30"@] + c.skip(4)
        }),
        gdi_record(x, y, w, h) == seq!["-f"@, "gdigrab"@, "-framerate"@, "30"@]
            + gdi_capture(x, y, w, h, custom, pointer, filename).subrange(
                if custom { 6 } else { 4 },
                if custom { 14 } else { 12 },
            ),
{
    let c = gdi_capture(x, y, w, h, false, pointer, filename);
    assert(c =~= seq!["-draw_mouse"@, if pointer { "1"@ } else { "0"@ },
        "-f"@, "gdigrab"@, "-offset_x"@, signed_decimal(x), "-offset_y"@, signed_decimal(y), "-video_size"@,
        signed_decimal(w) + "x"@ + signed_decimal(h), "-i"@, "desktop"@, "-frames:v"@, "1"@, filename]);
    assert(gdi_capture(x, y, w, h, true, pointer, filename) =~= c.take(4) + seq!["-framerate"@, "30"@] + c.skip(4));
    assert(gdi_record(x, y, w, h) =~= seq!["-f"@, "gdigrab"@, "-framerate"@, "30"@]
        + gdi_capture(x, y, w, h, custom, pointer, filename).subrange(
            if custom { 6 } else { 4 },
            if custom { 14 } else { 12 },
        ));
}

} // verus!
