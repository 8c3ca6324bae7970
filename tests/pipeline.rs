use ellier::config::Auth;
use ellier::ffmpeg::{
    crf, escape_special_chars, ffmpeg_args, post_process, streamlink_args, AudioCodec, Ffmpeg,
    OutputFormat, VideoCodec,
};

#[test]
fn metadata_escaping() {
    assert_eq!(escape_special_chars("a=b;c#d\\e\nf"), "a\\=b\\;c\\#d\\\\e f");
    assert_eq!(escape_special_chars("plain"), "plain");
    assert_eq!(escape_special_chars(""), "");
}

#[test]
fn fetcher_args_to_file() {
    let args = streamlink_args("https://x/y.m3u8", "/usr/bin/ffmpeg", None, false, "/r/index.mkv");
    assert_eq!(
        args,
        vec![
            "https://x/y.m3u8", "best", "--loglevel", "info", "--progress", "no",
            "--ffmpeg-ffmpeg", "/usr/bin/ffmpeg", "--ffmpeg-copyts", "--ffmpeg-fout",
            "matroska", "-o", "/r/index.mkv",
        ]
    );
}

#[test]
fn fetcher_args_to_pipe_with_cookies() {
    let auth = Auth {
        nid_ses: "ses".to_string(),
        nid_aut: "aut".to_string(),
        nid_jkl: "jkl".to_string(),
    };
    let args = streamlink_args("u", "ff", Some(&auth), true, "/unused");
    assert_eq!(
        args,
        vec![
            "u", "best", "--loglevel", "info", "--progress", "no", "--ffmpeg-ffmpeg", "ff",
            "--ffmpeg-copyts", "--ffmpeg-fout", "matroska", "--http-cookie", "NID_AUT=aut",
            "--http-cookie", "NID_SES=ses", "--http-cookie", "NID_JKL=jkl", "--stdout",
        ]
    );
}

#[test]
fn transcoder_args() {
    let args = ffmpeg_args(VideoCodec::Copy, AudioCodec::AacAudiotoolbox, "a=b", "me", "/o.mkv");
    assert_eq!(
        args,
        vec![
            "-hide_banner", "-nostats", "-loglevel", "info", "-i", "pipe:", "-c:v", "copy",
            "-c:a", "aac_at", "-map_metadata", "0", "-metadata", "title=\"a\\=b\"",
            "-metadata", "artist=\"me\"", "/o.mkv",
        ]
    );
}

#[test]
fn codec_names() {
    assert_eq!(VideoCodec::Copy.as_str(), "copy");
    assert_eq!(VideoCodec::HevcVideotoolbox.as_str(), "hevc_videotoolbox");
    assert_eq!(AudioCodec::Copy.as_str(), "copy");
    assert_eq!(AudioCodec::AacAudiotoolbox.as_str(), "aac_at");
    assert_eq!(OutputFormat::Matroska.as_str(), "matroska");
    assert_eq!(OutputFormat::Mpegts.as_str(), "mpegts");
    assert_eq!(OutputFormat::Matroska.as_ext(), "mkv");
    assert_eq!(OutputFormat::Mpegts.as_ext(), "ts");
}

#[test]
fn codec_parsing() {
    assert_eq!(VideoCodec::parse("hevc_videotoolbox"), Some(VideoCodec::HevcVideotoolbox));
    assert_eq!(VideoCodec::parse("copy"), Some(VideoCodec::Copy));
    assert_eq!(VideoCodec::parse("h264"), None);
    assert_eq!(AudioCodec::parse("aac_at"), Some(AudioCodec::AacAudiotoolbox));
    assert_eq!("copy".parse::<AudioCodec>(), Ok(AudioCodec::Copy));
    assert_eq!("nope".parse::<VideoCodec>(), Err(()));
}

#[test]
fn capture_defaults() {
    let f = Ffmpeg::default();
    assert!(f.post_process);
    assert!(f.ffmpeg_binary.is_empty());
    assert_eq!(f.video_codec, VideoCodec::Copy);
    assert_eq!(f.audio_codec, AudioCodec::Copy);
    assert_eq!(f.output_format, OutputFormat::Matroska);
    assert_eq!(f.crf, 23);
    assert_eq!(crf(), 23);
    assert!(!post_process());
}
