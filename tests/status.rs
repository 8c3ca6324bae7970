use ellier::ffprobe::{FfprobeAudioStream, FfprobeStream, FfprobeVideoStream};
use ellier::status::{
    is_modified, needs_detail, select_stream, LiveDetail, LivePlayback, LivePlaybackMedia,
    LiveStatus, LiveStatusType, PollError,
};

fn status(title: &str, category: Option<&str>, value: &str, adult: bool) -> LiveStatus {
    LiveStatus {
        status: LiveStatusType::Open,
        live_title: title.to_string(),
        category_type: None,
        live_category: category.map(|c| c.to_string()),
        live_category_value: value.to_string(),
        adult,
    }
}

fn media(id: &str, path: &str) -> LivePlaybackMedia {
    LivePlaybackMedia { media_id: id.to_string(), path: path.to_string() }
}

fn detail(adult: bool, playback: Option<Vec<LivePlaybackMedia>>) -> LiveDetail {
    LiveDetail {
        status: status("t", None, "", adult),
        channel_name: "ch".to_string(),
        live_playback: playback.map(|media| LivePlayback { media }),
    }
}

#[test]
fn modification_rules() {
    let base = status("A", Some("x"), "X", false);
    assert!(!is_modified(None, &base));
    assert!(!is_modified(Some(&base), &base));
    assert!(is_modified(Some(&base), &status("B", Some("x"), "X", false)));
    assert!(is_modified(Some(&base), &status("A", Some("x"), "X", true)));
    assert!(is_modified(Some(&base), &status("A", Some("y"), "Y", false)));
    assert!(!is_modified(Some(&base), &status("A", Some("y"), "X", false)));
    assert!(!is_modified(Some(&base), &status("A", Some("x"), "Y", false)));
}

#[test]
fn detail_only_when_open() {
    assert!(needs_detail(&status("A", None, "", false)));
    let mut closed = status("A", None, "", false);
    closed.status = LiveStatusType::Close;
    assert!(!needs_detail(&closed));
}

#[test]
fn adult_channel_without_playback_is_refused() {
    assert_eq!(select_stream(&detail(true, None)).err(), Some(PollError::NotAdult));
}

#[test]
fn no_playback_means_no_stream() {
    assert!(matches!(select_stream(&detail(false, None)), Ok(None)));
}

#[test]
fn first_hls_entry_is_picked() {
    let d = detail(
        true,
        Some(vec![media("LLHLS", "a"), media("HLS", "b"), media("HLS", "c")]),
    );
    let picked = select_stream(&d).unwrap().unwrap();
    assert_eq!(picked.media_id, "HLS");
    assert_eq!(picked.path, "b");
}

#[test]
fn no_hls_entry_means_no_stream() {
    let d = detail(false, Some(vec![media("LLHLS", "a"), media("DASH", "b")]));
    assert!(matches!(select_stream(&d), Ok(None)));
}

#[test]
fn probe_stream_accessors() {
    let audio = FfprobeStream::Audio(FfprobeAudioStream {
        codec_name: "aac".to_string(),
        profile: "LC".to_string(),
        sample_rate: "48000".to_string(),
        channel_layout: "stereo".to_string(),
    });
    let video = FfprobeStream::Video(FfprobeVideoStream {
        codec_name: "hevc".to_string(),
        profile: "Main".to_string(),
        width: 1920,
        height: 1080,
        pix_fmt: "yuv420p".to_string(),
        avg_frame_rate: "60/1".to_string(),
    });
    assert_eq!(audio.audio().unwrap().codec_name, "aac");
    assert!(audio.video().is_none());
    assert_eq!(video.video().unwrap().width, 1920);
    assert!(video.audio().is_none());
}
