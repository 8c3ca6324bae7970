use vstd::prelude::*;

use crate::config::Auth;

verus! {

/// Video codec handed to the transcoder.
#[derive(Debug, Clone, Copy, PartialEq, Eq, Structural)]
pub enum VideoCodec {
    HevcVideotoolbox,
    Copy,
}

/// Audio codec handed to the transcoder.
#[derive(Debug, Clone, Copy, PartialEq, Eq, Structural)]
pub enum AudioCodec {
    AacAudiotoolbox,
    Copy,
}

/// Container written by the transcoder.
#[derive(Debug, Clone, Copy, PartialEq, Eq, Structural)]
pub enum OutputFormat {
    Matroska,
    Mpegts,
}

pub open spec fn video_codec_name(c: VideoCodec) -> Seq<char> {
    match c {
        VideoCodec::HevcVideotoolbox => "hevc_videotoolbox"@,
        VideoCodec::Copy => "copy"@,
    }
}

pub open spec fn audio_codec_name(c: AudioCodec) -> Seq<char> {
    match c {
        AudioCodec::AacAudiotoolbox => "aac_at"@,
        AudioCodec::Copy => "copy"@,
    }
}

/// Whether `a` and `b` hold the same text.
fn str_eq(a: &str, b: &str) -> (r: bool)
    ensures
        r == (a@ == b@),
{
    let x = String::from_str(a);
    let y = String::from_str(b);
    x == y
}

impl VideoCodec {
    /// The codec's name on the transcoder's command line.
    pub fn as_str(&self) -> (r: &'static str)
        ensures
            r@ == video_codec_name(*self),
    {
        match self {
            VideoCodec::HevcVideotoolbox => "hevc_videotoolbox",
            VideoCodec::Copy => "copy",
        }
    }

    /// The codec with the name `s`, if any.
    pub fn parse(s: &str) -> (r: Option<VideoCodec>)
        ensures
            r matches Some(c) ==> video_codec_name(c) == s@,
            r is None ==> forall|c: VideoCodec| video_codec_name(c) != s@,
    {
        if str_eq(s, "hevc_videotoolbox") {
            Some(VideoCodec::HevcVideotoolbox)
        } else if str_eq(s, "copy") {
            Some(VideoCodec::Copy)
        } else {
            proof {
                assert forall|c: VideoCodec| video_codec_name(c) != s@ by {
                    match c {
                        VideoCodec::HevcVideotoolbox => {},
                        VideoCodec::Copy => {},
                    }
                }
            }
            None
        }
    }
}

impl Default for VideoCodec {
    fn default() -> (r: VideoCodec)
        ensures
            r == VideoCodec::Copy,
    {
        VideoCodec::Copy
    }
}

impl std::str::FromStr for VideoCodec {
    type Err = ();

    fn from_str(s: &str) -> Result<VideoCodec, ()> {
        match VideoCodec::parse(s) {
            Some(c) => Ok(c),
            None => Err(()),
        }
    }
}

impl AudioCodec {
    /// The codec's name on the transcoder's command line.
    pub fn as_str(&self) -> (r: &'static str)
        ensures
            r@ == audio_codec_name(*self),
    {
        match self {
            AudioCodec::AacAudiotoolbox => "aac_at",
            AudioCodec::Copy => "copy",
        }
    }

    /// The codec with the name `s`, if any.
    pub fn parse(s: &str) -> (r: Option<AudioCodec>)
        ensures
            r matches Some(c) ==> audio_codec_name(c) == s@,
            r is None ==> forall|c: AudioCodec| audio_codec_name(c) != s@,
    {
        if str_eq(s, "aac_at") {
            Some(AudioCodec::AacAudiotoolbox)
        } else if str_eq(s, "copy") {
            Some(AudioCodec::Copy)
        } else {
            proof {
                assert forall|c: AudioCodec| audio_codec_name(c) != s@ by {
                    match c {
                        AudioCodec::AacAudiotoolbox => {},
                        AudioCodec::Copy => {},
                    }
                }
            }
            None
        }
    }
}

impl Default for AudioCodec {
    fn default() -> (r: AudioCodec)
        ensures
            r == AudioCodec::Copy,
    {
        AudioCodec::Copy
    }
}

impl std::str::FromStr for AudioCodec {
    type Err = ();

    fn from_str(s: &str) -> Result<AudioCodec, ()> {
        match AudioCodec::parse(s) {
            Some(c) => Ok(c),
            None => Err(()),
        }
    }
}

impl OutputFormat {
    /// The container's name on the transcoder's command line.
    pub fn as_str(&self) -> (r: &'static str)
        ensures
            r@ == (match *self {
                OutputFormat::Matroska => "matroska"@,
                OutputFormat::Mpegts => "mpegts"@,
            }),
    {
        match self {
            OutputFormat::Matroska => "matroska",
            OutputFormat::Mpegts => "mpegts",
        }
    }

    /// The file extension of the container.
    pub fn as_ext(&self) -> (r: &'static str)
        ensures
            r@ == (match *self {
                OutputFormat::Matroska => "mkv"@,
                OutputFormat::Mpegts => "ts"@,
            }),
    {
        match self {
            OutputFormat::Matroska => "mkv",
            OutputFormat::Mpegts => "ts",
        }
    }
}

impl Default for OutputFormat {
    fn default() -> (r: OutputFormat)
        ensures
            r == OutputFormat::Matroska,
    {
        OutputFormat::Matroska
    }
}

/// Default constant rate factor of an encode.
pub const DEFAULT_CRF: u8 = 23;

/// Default constant rate factor of an encode.
pub fn crf() -> (r: u8)
    ensures
        r == DEFAULT_CRF,
{
    DEFAULT_CRF
}

/// Whether local post-processing is on when the configuration does not say.
pub fn post_process() -> (r: bool)
    ensures
        !r,
{
    false
}

/// Capture settings: whether the stream is transcoded locally, the
/// transcoder binary, and the codecs and container it uses.
pub struct Ffmpeg {
    pub post_process: bool,
    pub ffmpeg_binary: String,
    pub video_codec: VideoCodec,
    pub audio_codec: AudioCodec,
    pub output_format: OutputFormat,
    pub crf: u8,
}

impl Default for Ffmpeg {
    fn default() -> (r: Ffmpeg)
        ensures
            r.post_process,
            r.ffmpeg_binary@.len() == 0,
            r.video_codec == VideoCodec::Copy,
            r.audio_codec == AudioCodec::Copy,
            r.output_format == OutputFormat::Matroska,
            r.crf == DEFAULT_CRF,
    {
        Ffmpeg {
            post_process: true,
            ffmpeg_binary: String::new(),
            video_codec: VideoCodec::Copy,
            audio_codec: AudioCodec::Copy,
            output_format: OutputFormat::Matroska,
            crf: crf(),
        }
    }
}

/// The escaped form of one character in a metadata value: `=`, `;`, `#` and
/// backslash get a backslash before them, a newline becomes a space.
pub open spec fn escape_char(c: char) -> Seq<char> {
    if c == '=' || c == ';' || c == '#' || c == '\\' {
        seq!['\\', c]
    } else if c == '\n' {
        seq![' ']
    } else {
        seq![c]
    }
}

/// `s` with every character in its escaped form.
pub open spec fn escaped(s: Seq<char>) -> Seq<char>
    decreases s.len(),
{
    if s.len() == 0 {
        s
    } else {
        escaped(s.drop_last()) + escape_char(s.last())
    }
}

/// Escapes the characters that are structural in a metadata value.
pub fn escape_special_chars(s: &str) -> (r: String)
    ensures
        r@ == escaped(s@),
{
    let n = s.unicode_len();
    let mut out = String::new();
    let mut i: usize = 0;
    while i < n
        invariant
            n == s@.len(),
            i <= n,
            out@ == escaped(s@.take(i as int)),
        decreases n - i,
    {
        let c = s.get_char(i);
        let ghost before = out@;
        let piece = s.substring_char(i, i + 1);
        proof {
            assert(piece@ =~= seq![c]);
            reveal_strlit("\\");
            reveal_strlit(" ");
        }
        if c == '=' || c == ';' || c == '#' || c == '\\' {
            out.append("\\");
            out.append(piece);
        } else if c == '\n' {
            out.append(" ");
        } else {
            out.append(piece);
        }
        proof {
            assert(s@.take(i + 1).drop_last() =~= s@.take(i as int));
            assert(out@ =~= before + escape_char(c));
        }
        i = i + 1;
    }
    proof {
        assert(s@.take(n as int) =~= s@);
    }
    out
}

/// The views of a list of strings.
pub open spec fn texts(v: Seq<String>) -> Seq<Seq<char>> {
    v.map_values(|s: String| s@)
}

/// Cookie arguments that authenticate the fetcher.
pub open spec fn cookie_args(auth: Option<Auth>) -> Seq<Seq<char>> {
    match auth {
        Some(a) => seq![
            "--http-cookie"@,
            "NID_AUT="@ + a.nid_aut@,
            "--http-cookie"@,
            "NID_SES="@ + a.nid_ses@,
            "--http-cookie"@,
            "NID_JKL="@ + a.nid_jkl@,
        ],
        None => seq![],
    }
}

/// Arguments of the fetcher: it fetches the best quality of `stream_url`,
/// remuxed to Matroska by `ffmpeg_binary`, and writes it to its standard
/// output when the stream is transcoded, to `output_path` otherwise.
pub open spec fn streamlink_arg_list(
    stream_url: Seq<char>,
    ffmpeg_binary: Seq<char>,
    auth: Option<Auth>,
    post_process: bool,
    output_path: Seq<char>,
) -> Seq<Seq<char>> {
    seq![
        stream_url,
        "best"@,
        "--loglevel"@,
        "info"@,
        "--progress"@,
        "no"@,
        "--ffmpeg-ffmpeg"@,
        ffmpeg_binary,
        "--ffmpeg-copyts"@,
        "--ffmpeg-fout"@,
        "matroska"@,
    ] + cookie_args(auth) + if post_process {
        seq!["--stdout"@]
    } else {
        seq!["-o"@, output_path]
    }
}

/// Arguments of the transcoder: it reads the fetcher's output on its
/// standard input, encodes with the given codecs, tags the file with the
/// escaped title and artist, and writes `output_path`.
pub open spec fn transcoder_arg_list(
    video: VideoCodec,
    audio: AudioCodec,
    title: Seq<char>,
    artist: Seq<char>,
    output_path: Seq<char>,
) -> Seq<Seq<char>> {
    seq![
        "-hide_banner"@,
        "-nostats"@,
        "-loglevel"@,
        "info"@,
        "-i"@,
        "pipe:"@,
        "-c:v"@,
        video_codec_name(video),
        "-c:a"@,
        audio_codec_name(audio),
        "-map_metadata"@,
        "0"@,
        "-metadata"@,
        "title=\""@ + escaped(title) + "\""@,
        "-metadata"@,
        "artist=\""@ + escaped(artist) + "\""@,
        output_path,
    ]
}

fn push_arg(args: &mut Vec<String>, a: &str)
    ensures
        texts(final(args)@) == texts(old(args)@).push(a@),
{
    args.push(String::from_str(a));
    proof {
        assert(texts(args@) =~= texts(old(args)@).push(a@));
    }
}

fn push_owned_arg(args: &mut Vec<String>, a: String)
    ensures
        texts(final(args)@) == texts(old(args)@).push(a@),
{
    args.push(a);
    proof {
        assert(texts(args@) =~= texts(old(args)@).push(a@));
    }
}

fn prefixed(prefix: &str, value: &str) -> (r: String)
    ensures
        r@ == prefix@ + value@,
{
    let mut s = String::from_str(prefix);
    s.append(value);
    s
}

/// Returns the fetcher's arguments.
pub fn streamlink_args(
    stream_url: &str,
    ffmpeg_binary: &str,
    auth: Option<&Auth>,
    post_process: bool,
    output_path: &str,
) -> (r: Vec<String>)
    ensures
        texts(r@) == streamlink_arg_list(
            stream_url@,
            ffmpeg_binary@,
            match auth {
                Some(a) => Some(*a),
                None => None,
            },
            post_process,
            output_path@,
        ),
{
    let mut args: Vec<String> = Vec::new();
    push_arg(&mut args, stream_url);
    push_arg(&mut args, "best");
    push_arg(&mut args, "--loglevel");
    push_arg(&mut args, "info");
    push_arg(&mut args, "--progress");
    push_arg(&mut args, "no");
    push_arg(&mut args, "--ffmpeg-ffmpeg");
    push_arg(&mut args, ffmpeg_binary);
    push_arg(&mut args, "--ffmpeg-copyts");
    push_arg(&mut args, "--ffmpeg-fout");
    push_arg(&mut args, "matroska");
    let ghost head = texts(args@);
    match auth {
        Some(a) => {
            push_arg(&mut args, "--http-cookie");
            push_owned_arg(&mut args, prefixed("NID_AUT=", a.nid_aut.as_str()));
            push_arg(&mut args, "--http-cookie");
            push_owned_arg(&mut args, prefixed("NID_SES=", a.nid_ses.as_str()));
            push_arg(&mut args, "--http-cookie");
            push_owned_arg(&mut args, prefixed("NID_JKL=", a.nid_jkl.as_str()));
        },
        None => {},
    }
    let ghost with_cookies = texts(args@);
    if post_process {
        push_arg(&mut args, "--stdout");
    } else {
        push_arg(&mut args, "-o");
        push_arg(&mut args, output_path);
    }
    proof {
        let a = match auth {
            Some(a) => Some(*a),
            None => None,
        };
        assert(with_cookies =~= head + cookie_args(a));
        assert(texts(args@) =~= streamlink_arg_list(
            stream_url@,
            ffmpeg_binary@,
            a,
            post_process,
            output_path@,
        ));
    }
    args
}

/// Returns the transcoder's arguments.
pub fn ffmpeg_args(
    video: VideoCodec,
    audio: AudioCodec,
    title: &str,
    artist: &str,
    output_path: &str,
) -> (r: Vec<String>)
    ensures
        texts(r@) == transcoder_arg_list(video, audio, title@, artist@, output_path@),
{
    let mut args: Vec<String> = Vec::new();
    push_arg(&mut args, "-hide_banner");
    push_arg(&mut args, "-nostats");
    push_arg(&mut args, "-loglevel");
    push_arg(&mut args, "info");
    push_arg(&mut args, "-i");
    push_arg(&mut args, "pipe:");
    push_arg(&mut args, "-c:v");
    push_arg(&mut args, video.as_str());
    push_arg(&mut args, "-c:a");
    push_arg(&mut args, audio.as_str());
    push_arg(&mut args, "-map_metadata");
    push_arg(&mut args, "0");
    push_arg(&mut args, "-metadata");
    let mut t = prefixed("title=\"", escape_special_chars(title).as_str());
    t.append("\"");
    push_owned_arg(&mut args, t);
    push_arg(&mut args, "-metadata");
    let mut a = prefixed("artist=\"", escape_special_chars(artist).as_str());
    a.append("\"");
    push_owned_arg(&mut args, a);
    push_arg(&mut args, output_path);
    proof {
        assert(texts(args@) =~= transcoder_arg_list(
            video,
            audio,
            title@,
            artist@,
            output_path@,
        ));
    }
    args
}

} // verus!
