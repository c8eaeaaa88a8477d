use vstd::prelude::*;
use crate::response::{Response, opt_chars};
use crate::flow::texts;
use crate::text::{joined, same_text};

verus! {

/// The video codecs that a recording on Windows may be written with.
#[derive(Clone, Copy, Debug, PartialEq, Eq, Structural)]
pub enum VideoCodec {
    /// H.264 (libx264), for ".mp4".
    H264,
    /// QuickTime Animation (qtrle), for ".mov".
    QtRle,
    /// MPEG-4 part 2, for ".avi".
    Mpeg4,
}

/// The codec for a file extension written in lower case.
pub open spec fn codec_for(ext: Seq<char>) -> Option<VideoCodec> {
    if ext == "mp4"@ {
        Some(VideoCodec::H264)
    } else if ext == "mov"@ {
        Some(VideoCodec::QtRle)
    } else if ext == "avi"@ {
        Some(VideoCodec::Mpeg4)
    } else {
        None
    }
}

/// Chooses the codec for a lower case extension; any other extension is
/// answered with an error that names it.
pub fn codec_for_extension(ext: &str) -> (r: Result<VideoCodec, Response>)
    ensures
        match codec_for(ext@) {
            Some(c) => r == Ok::<VideoCodec, Response>(c),
            None => r matches Err(e) && texts(e) == (None::<Seq<char>>, Some("Unsupported file format: "@ + ext@)),
        },
{
    if same_text(ext, "mp4") {
        Ok(VideoCodec::H264)
    } else if same_text(ext, "mov") {
        Ok(VideoCodec::QtRle)
    } else if same_text(ext, "avi") {
        Ok(VideoCodec::Mpeg4)
    } else {
        Err(Response::new(None, Some(joined("Unsupported file format: ", ext))))
    }
}

impl VideoCodec {
    /// The ffmpeg option and encoder name of the codec.
    pub fn ffmpeg_codec(self) -> (r: (&'static str, &'static str))
        ensures
            r.0@ == "-c:v"@,
            self == VideoCodec::H264 ==> r.1@ == "libx264"@,
            self == VideoCodec::QtRle ==> r.1@ == "qtrle"@,
            self == VideoCodec::Mpeg4 ==> r.1@ == "mpeg4"@,
    {
        match self {
            VideoCodec::H264 => ("-c:v", "libx264"),
            VideoCodec::QtRle => ("-c:v", "qtrle"),
            VideoCodec::Mpeg4 => ("-c:v", "mpeg4"),
        }
    }
}

/// Whether every character is ASCII.
pub open spec fn all_ascii(s: Seq<char>) -> bool {
    forall|i: int| 0 <= i < s.len() ==> (#[trigger] s[i] as u32) < 128
}

/// A character with ASCII capitals made small.
pub open spec fn ascii_lower(c: char) -> char {
    if 65 <= (c as u32) <= 90 { ((c as u32) + 32) as char } else { c }
}

/// What `str::to_lowercase` gives for a text: its Unicode lower case.
pub uninterp spec fn lowercase(s: Seq<char>) -> Seq<char>;

/// Calls `str::to_lowercase`. The contract claims that the result is what
/// `lowercase` names for the text, and that a text of ASCII characters has
/// each capital letter made small and nothing else changed.
#[verifier::external_body]
fn to_lowercase(s: &str) -> (r: String)
    ensures
        r@ == lowercase(s@),
        all_ascii(s@) ==> r@ == s@.map_values(|c: char| ascii_lower(c)),
{
    s.to_lowercase()
}

/// A path that is a bare file name on every platform: no separator ('/' or
/// '\\'), no drive colon, and not "..".
pub open spec fn plain_name(p: Seq<char>) -> bool {
    &&& p != ".."@
    &&& forall|i: int| 0 <= i < p.len() ==> p[i] != '/' && p[i] != '\\' && p[i] != ':'
}

/// The extension of a bare file name: the text after its last '.', when that
/// '.' is not the first character; `None` otherwise.
pub open spec fn name_extension(p: Seq<char>) -> Option<Seq<char>>
    decreases p.len(),
{
    if p.len() <= 1 {
        None
    } else if p.last() == '.' {
        Some(Seq::empty())
    } else {
        match name_extension(p.drop_last()) {
            Some(e) => Some(e.push(p.last())),
            None => None,
        }
    }
}

/// `e` stands in `p` right after a '.'.
pub open spec fn follows_dot(p: Seq<char>, e: Seq<char>) -> bool {
    exists|i: int| 0 <= i && i + 1 + e.len() <= p.len() && #[trigger] p[i] == '.' && p.subrange(i + 1, i + 1 + e.len()) == e
}

/// A separator of a path's parts on some platform: '/' or '\\'.
pub open spec fn is_separator(c: char) -> bool {
    c == '/' || c == '\\'
}

/// The last part of a path: the text after its last separator, or the whole
/// path when it has none.
pub open spec fn last_part(p: Seq<char>) -> Seq<char>
    decreases p.len(),
{
    if p.len() == 0 {
        Seq::empty()
    } else if is_separator(p.last()) {
        Seq::empty()
    } else {
        last_part(p.drop_last()).push(p.last())
    }
}

/// A path whose file name is its last part on every platform: it does not
/// start with two separators (a network or device prefix on Windows), and its
/// last part is not ".." and holds no drive colon.
pub open spec fn named_path(p: Seq<char>) -> bool {
    &&& !(p.len() >= 2 && is_separator(p[0]) && is_separator(p[1]))
    &&& last_part(p) != ".."@
    &&& forall|i: int| 0 <= i < last_part(p).len() ==> last_part(p)[i] != ':'
}

/// Calls `Path::extension` on the path `p` (a `str`, so the extension is
/// valid text). The contract claims that an extension holds no '.' and stands
/// in `p` right after a '.'; that for a bare file name it is the text after
/// the last '.' that is not the first character, and `None` when there is no
/// such '.'; and that for a path whose last part (after its last '/' or '\\')
/// has such a '.', it is the text after the last '.' of that part. Where the
/// last part has a '.' only as its first character, the answer differs between
/// platforms ('\\' separates parts only on Windows) and is left unsaid.
#[verifier::external_body]
fn path_extension(p: &str) -> (r: Option<String>)
    ensures
        r matches Some(e) ==> forall|i: int| 0 <= i < e@.len() ==> e@[i] != '.',
        r matches Some(e) ==> follows_dot(p@, e@),
        plain_name(p@) ==> opt_chars(r) == name_extension(p@),
        named_path(p@) && name_extension(last_part(p@)) is Some ==> opt_chars(r) == name_extension(last_part(p@)),
{
    std::path::Path::new(p).extension().map(|e| e.to_string_lossy().into_owned())
}

/// The extension of a bare file name, or the empty text when it has none.
pub open spec fn extension_or_empty(p: Seq<char>) -> Seq<char> {
    match name_extension(p) {
        Some(e) => e,
        None => Seq::empty(),
    }
}

/// `r` is the answer for the lower case extension `l`: its codec, or the error
/// that names it.
pub open spec fn codec_answer(r: Result<VideoCodec, Response>, l: Seq<char>) -> bool {
    match codec_for(l) {
        Some(c) => r == Ok::<VideoCodec, Response>(c),
        None => r matches Err(x) && texts(x) == (None::<Seq<char>>, Some("Unsupported file format: "@ + l)),
    }
}

/// Chooses the codec of a recording on Windows from the extension of its
/// file, written in lower case; a file without an extension has the empty
/// extension. The extension comes from `Path::extension`: for a bare file
/// name it is the text after its last '.' (not the first character), for a
/// path whose last part has such a '.' it is the text after the last '.' of
/// that part, and for any path it is empty or a text that stands in the path
/// right after a '.'.
pub fn recording_codec(filename: &str) -> (r: Result<VideoCodec, Response>)
    ensures
        plain_name(filename@) ==> codec_answer(r, lowercase(extension_or_empty(filename@))),
        plain_name(filename@) && all_ascii(extension_or_empty(filename@)) ==> codec_answer(
            r,
            extension_or_empty(filename@).map_values(|c: char| ascii_lower(c)),
        ),
        named_path(filename@) && name_extension(last_part(filename@)) is Some ==> codec_answer(
            r,
            lowercase(name_extension(last_part(filename@))->0),
        ),
        name_extension(last_part(filename@)) matches Some(x) ==> (named_path(filename@) && all_ascii(x) ==> codec_answer(
            r,
            x.map_values(|c: char| ascii_lower(c)),
        )),
        exists|e: Seq<char>| #![trigger lowercase(e)] (e.len() == 0 || follows_dot(filename@, e)) && codec_answer(r, lowercase(e)),
{
    let ext = match path_extension(filename) {
        Some(e) => e,
        None => String::new(),
    };
    let lower = to_lowercase(ext.as_str());
    let r = codec_for_extension(lower.as_str());
    assert(lower@ == lowercase(ext@));
    assert(codec_answer(r, lowercase(ext@)));
    r
}

/// The three supported extensions choose their codecs, and every other lower
/// case extension is unsupported.
pub proof fn law_codecs(ext: Seq<char>)
    ensures
        codec_for("mp4"@) == Some(VideoCodec::H264),
        codec_for("mov"@) == Some(VideoCodec::QtRle),
        codec_for("avi"@) == Some(VideoCodec::Mpeg4),
        ext != "mp4"@ && ext != "mov"@ && ext != "avi"@ ==> codec_for(ext) is None,
{
    reveal_strlit("mp4");
    reveal_strlit("mov");
    reveal_strlit("avi");
    assert("mp4"@[1] != "mov"@[1] && "mp4"@[0] != "avi"@[0] && "mov"@[0] != "avi"@[0]);
}

} // verus!
