use vstd::prelude::*;
use crate::response::{Response, opt_chars};
use crate::flow::texts;
use crate::text::{owned, joined, same_text, ends_with_char};

verus! {

// ---------------------------------------------------------------------------
// What is asked for
// ---------------------------------------------------------------------------

/// A picture or a video, of the whole display or of an area.
#[derive(Clone, Copy, Debug, PartialEq, Eq, Structural)]
pub enum CaptureMode {
    CaptureFullscreen,
    CaptureCustom,
    RecordFullscreen,
    RecordCustom,
}

/// The mode that a mode ("capture" or "record") and a view ("fullscreen" or
/// "custom") name.
pub open spec fn mode_of(mode: Seq<char>, view: Seq<char>) -> Option<CaptureMode> {
    if mode == "capture"@ {
        if view == "fullscreen"@ {
            Some(CaptureMode::CaptureFullscreen)
        } else if view == "custom"@ {
            Some(CaptureMode::CaptureCustom)
        } else {
            None
        }
    } else if mode == "record"@ {
        if view == "fullscreen"@ {
            Some(CaptureMode::RecordFullscreen)
        } else if view == "custom"@ {
            Some(CaptureMode::RecordCustom)
        } else {
            None
        }
    } else {
        None
    }
}

/// The error text for a mode and a view that name no mode: the view is
/// blamed when the mode is known.
pub open spec fn mode_error(mode: Seq<char>, view: Seq<char>) -> Seq<char> {
    if mode == "capture"@ || mode == "record"@ {
        "Invalid view: "@ + view
    } else {
        "Invalid mode: "@ + mode
    }
}

/// Reads the mode and the view of a request; a request that names no mode is
/// answered with an error.
pub fn capture_mode(mode: &str, view: &str) -> (r: Result<CaptureMode, Response>)
    ensures
        match mode_of(mode@, view@) {
            Some(m) => r == Ok::<CaptureMode, Response>(m),
            None => r matches Err(e) && texts(e) == (None::<Seq<char>>, Some(mode_error(mode@, view@))),
        },
{
    let capture = same_text(mode, "capture");
    let record = same_text(mode, "record");
    if capture || record {
        let full = same_text(view, "fullscreen");
        let custom = same_text(view, "custom");
        if full {
            Ok(if capture { CaptureMode::CaptureFullscreen } else { CaptureMode::RecordFullscreen })
        } else if custom {
            Ok(if capture { CaptureMode::CaptureCustom } else { CaptureMode::RecordCustom })
        } else {
            Err(Response::new(None, Some(joined("Invalid view: ", view))))
        }
    } else {
        Err(Response::new(None, Some(joined("Invalid mode: ", mode))))
    }
}

// ---------------------------------------------------------------------------
// Where the file goes
// ---------------------------------------------------------------------------

/// The path separator of the platform.
pub open spec fn separator(windows: bool) -> char {
    if windows { '\\' } else { '/' }
}

/// A path that ends with the separator names a directory.
pub open spec fn names_directory(p: Seq<char>, windows: bool) -> bool {
    p.len() > 0 && p.last() == separator(windows)
}

/// The file a capture writes: in a directory, a file named after the date;
/// otherwise the path with the file type as extension. A directory that does
/// not exist is refused.
pub open spec fn output_path_of(p: Seq<char>, windows: bool, is_dir: bool, date: Seq<char>, file_type: Seq<char>)
    -> Result<Seq<char>, Seq<char>>
{
    if names_directory(p, windows) {
        if !is_dir {
            Err("\""@ + p + "\" is not a valid directory."@)
        } else {
            Ok(p + "Screen Crab "@ + date + "."@ + file_type)
        }
    } else {
        Ok(p + "."@ + file_type)
    }
}

/// The characters of a result of strings.
pub open spec fn result_chars(r: Result<String, String>) -> Result<Seq<char>, Seq<char>> {
    match r {
        Ok(s) => Ok(s@),
        Err(e) => Err(e@),
    }
}

/// Decides the file a capture writes. `is_dir` says whether `file_path` is an
/// existing directory, `date` is the date written "%Y-%m-%d at %H-%M-%S".
pub fn output_path(file_path: &str, windows: bool, is_dir: bool, date: &str, file_type: &str) -> (r: Result<String, String>)
    ensures
        result_chars(r) == output_path_of(file_path@, windows, is_dir, date@, file_type@),
{
    let sep = if windows { '\\' } else { '/' };
    if ends_with_char(file_path, sep) {
        if !is_dir {
            let mut e = joined("\"", file_path);
            e.append("\" is not a valid directory.");
            Err(e)
        } else {
            let mut s = owned(file_path);
            s.append("Screen Crab ");
            s.append(date);
            s.append(".");
            s.append(file_type);
            Ok(s)
        }
    } else {
        let mut s = owned(file_path);
        s.append(".");
        s.append(file_type);
        Ok(s)
    }
}

// ---------------------------------------------------------------------------
// The request as a whole
// ---------------------------------------------------------------------------

/// What a capture request comes to: run the mode on the file, or answer at
/// once.
#[derive(Debug)]
pub enum CapturePlan {
    Run(CaptureMode, String),
    Answer(Response),
}

/// A capture request: a refused directory first, then an unknown mode or view,
/// which is answered with an error, and otherwise the mode and the file.
pub open spec fn plan_matches(
    r: Result<CapturePlan, String>,
    mode: Seq<char>,
    view: Seq<char>,
    path: Result<Seq<char>, Seq<char>>,
) -> bool {
    match path {
        Err(e) => r matches Err(x) && x@ == e,
        Ok(p) => match mode_of(mode, view) {
            Some(m) => r matches Ok(CapturePlan::Run(m2, f)) && m2 == m && f@ == p,
            None => r matches Ok(CapturePlan::Answer(a)) && texts(a) == (None::<Seq<char>>, Some(mode_error(mode, view))),
        },
    }
}

/// Decides what a capture request comes to.
pub fn plan_capture(
    mode: &str,
    view: &str,
    file_path: &str,
    windows: bool,
    is_dir: bool,
    date: &str,
    file_type: &str,
) -> (r: Result<CapturePlan, String>)
    ensures
        plan_matches(r, mode@, view@, output_path_of(file_path@, windows, is_dir, date@, file_type@)),
{
    let path = match output_path(file_path, windows, is_dir, date, file_type) {
        Ok(p) => p,
        Err(e) => return Err(e),
    };
    match capture_mode(mode, view) {
        Ok(m) => Ok(CapturePlan::Run(m, path)),
        Err(a) => Ok(CapturePlan::Answer(a)),
    }
}

// ---------------------------------------------------------------------------
// The notification at the end
// ---------------------------------------------------------------------------

/// The notification shown when a capture is answered: a title and a body.
#[derive(Debug)]
pub struct Notice {
    pub title: Option<String>,
    pub body: String,
}

/// The title and body of the notification for an answer with these texts: a
/// success shows its message under "All done!", a failure its error text
/// without a title; a failure without an error text has none.
pub open spec fn notice_texts(t: (Option<Seq<char>>, Option<Seq<char>>)) -> Option<(Option<Seq<char>>, Seq<char>)> {
    if t.0 is Some && t.1 is None {
        Some((Some("All done!"@), t.0->0))
    } else if t.1 is Some {
        Some((None, t.1->0))
    } else {
        None
    }
}

/// The characters of a notification.
pub open spec fn notice_chars(n: Option<Notice>) -> Option<(Option<Seq<char>>, Seq<char>)> {
    match n {
        Some(x) => Some((opt_chars(x.title), x.body@)),
        None => None,
    }
}

/// The notification for an answer.
pub fn notice_for(r: &Response) -> (n: Option<Notice>)
    ensures
        notice_chars(n) == notice_texts(texts(*r)),
{
    if r.success() {
        match &r.response {
            Some(m) => Some(Notice { title: Some(owned("All done!")), body: m.clone() }),
            None => None,
        }
    } else {
        match &r.error {
            Some(e) => Some(Notice { title: None, body: e.clone() }),
            None => None,
        }
    }
}

/// Every answer that a capture or a recording ends with has a notification:
/// a success shows its message, a failure its error text.
pub proof fn law_every_outcome_is_notified(o: crate::flow::Outcome, f: Seq<char>)
    ensures
        notice_texts(crate::flow::outcome_texts(o, f)) is Some,
        o != crate::flow::Outcome::Cancelled ==> (notice_texts(crate::flow::outcome_texts(o, f))->0).0 == Some("All done!"@),
        o == crate::flow::Outcome::Cancelled ==> notice_texts(crate::flow::outcome_texts(o, f))
            == Some((None::<Seq<char>>, "Screen Crab cancelled"@)),
{
}

/// A capture file always has the asked file type as its extension, and the
/// path is refused only when it names a directory that does not exist.
pub proof fn law_output_has_type(p: Seq<char>, windows: bool, is_dir: bool, date: Seq<char>, file_type: Seq<char>)
    ensures
        match output_path_of(p, windows, is_dir, date, file_type) {
            Ok(o) => o.len() > file_type.len() && o.skip(o.len() - file_type.len()) == file_type
                && o[o.len() - file_type.len() - 1] == '.',
            Err(_) => names_directory(p, windows) && !is_dir,
        },
{
    reveal_strlit(".");
    match output_path_of(p, windows, is_dir, date, file_type) {
        Ok(o) => {
            let front = if names_directory(p, windows) { p + "Screen Crab "@ + date } else { p };
            assert(o == front + "."@ + file_type);
            assert(o.skip(o.len() - file_type.len()) =~= file_type);
            assert(o[o.len() - file_type.len() - 1] == "."@[0]);
        },
        Err(_) => {},
    }
}

/// The file of a capture, on each platform: a path that ends with the
/// platform's separator ('\\' on Windows, '/' elsewhere) is refused exactly
/// when it is not an existing directory, with an error that quotes it; an
/// existing one gets a file named after the date. Any other path, whether or
/// not it exists, gets the file type as its extension.
pub proof fn law_output_path(p: Seq<char>, windows: bool, is_dir: bool, date: Seq<char>, file_type: Seq<char>)
    ensures
        ({
            let dir = p.len() > 0 && p.last() == (if windows { '\\' } else { '/' });
            &&& (output_path_of(p, windows, is_dir, date, file_type) is Err <==> dir && !is_dir)
            &&& dir && !is_dir ==> output_path_of(p, windows, is_dir, date, file_type)
                == Err::<Seq<char>, Seq<char>>("\""@ + p + "\" is not a valid directory."@)
            &&& dir && is_dir ==> output_path_of(p, windows, is_dir, date, file_type)
                == Ok::<Seq<char>, Seq<char>>(p + "Screen Crab "@ + date + "."@ + file_type)
            &&& !dir ==> output_path_of(p, windows, is_dir, date, file_type) == Ok::<Seq<char>, Seq<char>>(p + "."@ + file_type)
        }),
{
}

/// The mode of a request, from the words: "capture" or "record" with
/// "fullscreen" or "custom" name the four modes; any other view of a known
/// mode blames the view, and any other mode blames the mode.
pub proof fn law_capture_mode(mode: Seq<char>, view: Seq<char>)
    ensures
        mode_of("capture"@, "fullscreen"@) == Some(CaptureMode::CaptureFullscreen),
        mode_of("capture"@, "custom"@) == Some(CaptureMode::CaptureCustom),
        mode_of("record"@, "fullscreen"@) == Some(CaptureMode::RecordFullscreen),
        mode_of("record"@, "custom"@) == Some(CaptureMode::RecordCustom),
        (mode == "capture"@ || mode == "record"@) && view != "fullscreen"@ && view != "custom"@ ==> mode_of(mode, view) is None
            && mode_error(mode, view) == "Invalid view: "@ + view,
        mode != "capture"@ && mode != "record"@ ==> mode_of(mode, view) is None && mode_error(mode, view) == "Invalid mode: "@ + mode,
{
    reveal_strlit("capture");
    reveal_strlit("record");
    reveal_strlit("fullscreen");
    reveal_strlit("custom");
    assert("capture"@.len() == 7 && "record"@.len() == 6);
    assert("fullscreen"@.len() == 10 && "custom"@.len() == 6);
}

} // verus!
