use vstd::prelude::*;
use crate::response::{Response, is_success};
use crate::flow::texts;
use crate::text::{owned, chars_of, push_char, string_of};
use crate::parse::{trim, trim_chars, replace_char, replace_chars};

verus! {

/// Where pictures go by default on macOS, from what `defaults read
/// com.apple.screencapture location` printed and the user's directory
/// `home`: the printed path without white space around it, or `home` when it
/// printed nothing; a leading '~' means every '~' is replaced by `home`; and
/// the path ends with '/'.
pub open spec fn default_location(out: Seq<char>, home: Seq<char>) -> Seq<char> {
    let t = trim(out);
    let a = if t.len() == 0 { home } else { t };
    let b = if a.len() > 0 && a[0] == '~' { replace_char(a, '~', home) } else { a };
    if b.len() > 0 && b.last() == '/' { b } else { b.push('/') }
}

/// Decides where pictures go by default on macOS.
pub fn default_location_path(out: &str, home: &str) -> (s: String)
    ensures
        s@ == default_location(out@, home@),
        s@.len() > 0 && s@.last() == '/',
{
    let t = trim_chars(&chars_of(out));
    let h = chars_of(home);
    let a = if t.len() == 0 { h.clone() } else { t };
    let b = if a.len() > 0 && a[0] == '~' { replace_chars(&a, '~', &h) } else { a };
    let mut s = string_of(&b);
    if !(b.len() > 0 && b[b.len() - 1] == '/') {
        push_char(&mut s, '/');
    }
    s
}

/// The default answer of the current-path request on macOS.
pub fn default_location_response(out: &str, home: &str) -> (r: Response)
    ensures
        texts(r) == (Some(default_location(out@, home@)), None::<Seq<char>>),
        is_success(r),
{
    Response::new(Some(default_location_path(out, home)), None)
}

/// The user's directory with the separator of the platform after it, which
/// is where pictures go by default on Linux and Windows.
pub fn home_location_response(home: &str, windows: bool) -> (r: Response)
    ensures
        texts(r) == (Some(home@.push(if windows { '\\' } else { '/' })), None::<Seq<char>>),
        is_success(r),
{
    let mut s = owned(home);
    push_char(&mut s, if windows { '\\' } else { '/' });
    Response::new(Some(s), None)
}

/// Where pictures go by default: on macOS, from what `defaults read
/// com.apple.screencapture location` printed (`printed`); elsewhere, the user's
/// directory with the separator of the platform after it.
pub fn current_default_path(printed: Option<&str>, home: &str, windows: bool) -> (r: Response)
    ensures
        match printed {
            Some(out) => texts(r) == (Some(default_location(out@, home@)), None::<Seq<char>>),
            None => texts(r) == (Some(home@.push(if windows { '\\' } else { '/' })), None::<Seq<char>>),
        },
        is_success(r),
{
    match printed {
        Some(out) => default_location_response(out, home),
        None => home_location_response(home, windows),
    }
}

/// The answer of the folder dialog: the chosen folder with the separator of
/// the platform after it, or an error when none was chosen.
pub fn folder_response(folder: Option<&str>, windows: bool) -> (r: Response)
    ensures
        match folder {
            Some(f) => texts(r) == (Some(f@.push(if windows { '\\' } else { '/' })), None::<Seq<char>>),
            None => texts(r) == (None::<Seq<char>>, Some("The path is empty."@)),
        },
{
    match folder {
        Some(f) => {
            let mut s = owned(f);
            push_char(&mut s, if windows { '\\' } else { '/' });
            Response::new(Some(s), None)
        },
        None => Response::new(None, Some(owned("The path is empty."))),
    }
}

/// The answer of the first folder dialog: the chosen folder as it is, or an
/// error when none was chosen.
pub fn plain_folder_response(folder: Option<&str>) -> (r: Response)
    ensures
        match folder {
            Some(f) => texts(r) == (Some(f@), None::<Seq<char>>),
            None => texts(r) == (None::<Seq<char>>, Some("The path is empty."@)),
        },
{
    match folder {
        Some(f) => Response::new(Some(owned(f)), None),
        None => Response::new(None, Some(owned("The path is empty."))),
    }
}

/// The answer when the folder dialog gave no answer at all.
pub fn folder_unavailable() -> (r: Response)
    ensures
        texts(r) == (None::<Seq<char>>, Some("Failed to retrieve the folder path."@)),
{
    Response::new(None, Some(owned("Failed to retrieve the folder path.")))
}

/// The answer of the home-directory request: the user's directory, or an
/// error when it is not known.
pub fn home_response(home: Option<&str>) -> (r: Response)
    ensures
        match home {
            Some(h) => texts(r) == (Some(h@), None::<Seq<char>>),
            None => texts(r) == (None::<Seq<char>>, Some("Error while retrieving current user home directory."@)),
        },
{
    match home {
        Some(h) => Response::new(Some(owned(h)), None),
        None => Response::new(None, Some(owned("Error while retrieving current user home directory."))),
    }
}

/// The answer of the working-directory request: the directory when it is
/// known and is valid text, nothing when it is not valid text, and the
/// error's text when it is not known.
pub fn current_dir_response(dir: Result<Option<&str>, &str>) -> (r: Response)
    ensures
        match dir {
            Ok(Some(d)) => texts(r) == (Some(d@), None::<Seq<char>>),
            Ok(None) => texts(r) == (None::<Seq<char>>, None::<Seq<char>>),
            Err(e) => texts(r) == (None::<Seq<char>>, Some(e@)),
        },
{
    match dir {
        Ok(Some(d)) => Response::new(Some(owned(d)), None),
        Ok(None) => Response::new(None, None),
        Err(e) => Response::new(None, Some(owned(e))),
    }
}

/// The default location on macOS: a printed path that does not start with
/// '~' is kept as printed, without the white space around it, and given a
/// closing '/' when it has none; when nothing but white space was printed,
/// the user's directory (not starting with '~') is taken in the same way.
pub proof fn law_default_location(out: Seq<char>, home: Seq<char>)
    ensures
        trim(out).len() > 0 && trim(out)[0] != '~' ==> default_location(out, home)
            == (if trim(out).last() == '/' { trim(out) } else { trim(out).push('/') }),
        trim(out).len() == 0 && (home.len() == 0 || home[0] != '~') ==> default_location(out, home)
            == (if home.len() > 0 && home.last() == '/' { home } else { home.push('/') }),
{
}

} // verus!
