use screencrab::formats::{codec_for_extension, recording_codec, VideoCodec};

#[test]
fn codecs_for_known_extensions() {
    assert_eq!(codec_for_extension("mp4").ok(), Some(VideoCodec::H264));
    assert_eq!(codec_for_extension("mov").ok(), Some(VideoCodec::QtRle));
    assert_eq!(codec_for_extension("avi").ok(), Some(VideoCodec::Mpeg4));
    assert_eq!(VideoCodec::H264.ffmpeg_codec(), ("-c:v", "libx264"));
}

#[test]
fn unknown_extension_is_refused() {
    let e = codec_for_extension("MP4").unwrap_err();
    assert_eq!((e.response, e.error), (None, Some("Unsupported file format: MP4".to_string())));
}

#[test]
fn recording_codec_reads_extension_in_lower_case() {
    assert_eq!(recording_codec("C:/Videos/Rec.MP4").ok(), Some(VideoCodec::H264));
    assert_eq!(recording_codec("/v/a.b.Mov").ok(), Some(VideoCodec::QtRle));
    let e = recording_codec("/v/a.MKV").unwrap_err();
    assert_eq!(e.error, Some("Unsupported file format: mkv".to_string()));
    let e = recording_codec("/v/noext").unwrap_err();
    assert_eq!(e.error, Some("Unsupported file format: ".to_string()));
    let e = recording_codec("/v/.hidden").unwrap_err();
    assert_eq!(e.error, Some("Unsupported file format: ".to_string()));
}

#[test]
fn bare_file_names_choose_their_codec() {
    assert_eq!(recording_codec("clip.mp4").ok(), Some(VideoCodec::H264));
    assert_eq!(recording_codec("clip.AVI").ok(), Some(VideoCodec::Mpeg4));
    assert_eq!(recording_codec("a.mov.mp4").ok(), Some(VideoCodec::H264));
    assert!(recording_codec("mp4").is_err());
    assert!(recording_codec(".mp4").is_err());
}

#[test]
fn paths_with_separators_choose_by_their_last_part() {
    assert_eq!(recording_codec("C:\\Users\\u\\Videos\\clip.mp4").ok(), Some(VideoCodec::H264));
    assert_eq!(recording_codec("/home/u/v.d/clip.Avi").ok(), Some(VideoCodec::Mpeg4));
    let e = recording_codec("C:\\Videos\\clip.GIF").unwrap_err();
    assert_eq!(e.error, Some("Unsupported file format: gif".to_string()));
    assert_eq!(e.response, None);
}
