use vstd::prelude::*;

use crate::ffmpeg::Ffmpeg;

verus! {

/// Session cookies that authenticate requests to the platform.
#[derive(Debug, Clone)]
pub struct Auth {
    pub nid_ses: String,
    pub nid_aut: String,
    pub nid_jkl: String,
}

/// A channel to watch: its platform identifier and the name its recordings
/// are filed under.
#[derive(Debug, Clone)]
pub struct Channel {
    pub channel_id: String,
    pub channel_name: String,
}

/// Default value of each field of a [`Timezone`].
pub fn zero() -> (r: i8)
    ensures
        r == 0,
{
    0
}

/// A fixed offset from UTC, in hours, minutes and seconds.
#[derive(Debug, Clone, Copy, PartialEq, Eq, Structural)]
pub struct Timezone {
    pub hours: i8,
    pub minutes: i8,
    pub seconds: i8,
}

#[verifier::external_type_specification]
#[verifier::external_body]
pub struct ExFixedOffset(chrono::FixedOffset);

/// Relies on chrono's `FixedOffset::east_opt`: it gives an offset exactly for
/// the values strictly between minus and plus one day in seconds.
pub assume_specification[ chrono::FixedOffset::east_opt ](secs: i32) -> (r: Option<
    chrono::FixedOffset,
>)
    ensures
        r is Some <==> -86_400 < secs < 86_400,
;

impl Default for Timezone {
    fn default() -> (r: Timezone)
        ensures
            r == (Timezone { hours: 0, minutes: 0, seconds: 0 }),
    {
        Timezone { hours: zero(), minutes: zero(), seconds: zero() }
    }
}

impl Timezone {
    pub open spec fn spec_offset_seconds(&self) -> int {
        self.hours * 3600 + self.minutes * 60 + self.seconds
    }

    /// The offset east of UTC, in seconds.
    pub fn offset_seconds(&self) -> (r: i32)
        ensures
            r == self.spec_offset_seconds(),
    {
        (self.hours as i32) * 3600 + (self.minutes as i32) * 60 + (self.seconds as i32)
    }

    /// The offset as a chrono offset; none when it is a day or more.
    pub fn to_fixed_offset(&self) -> (r: Option<chrono::FixedOffset>)
        ensures
            r is Some <==> -86_400 < self.spec_offset_seconds() < 86_400,
    {
        chrono::FixedOffset::east_opt(self.offset_seconds())
    }
}

/// Everything the recorder is configured with.
pub struct Config {
    /// Root directory of the recordings.
    pub path: String,
    pub auth: Option<Auth>,
    pub channels: Vec<Channel>,
    pub ffmpeg: Ffmpeg,
    pub timezone: Timezone,
    /// Whether the cookies are fetched from an auth broker before each tick.
    pub slave: bool,
    /// Base URL of the auth broker.
    pub master_url: Option<String>,
}

/// Index of the first channel named `name`.
pub open spec fn is_first_named(channels: Seq<Channel>, name: Seq<char>, k: int) -> bool {
    0 <= k < channels.len() && channels[k].channel_name@ == name && forall|j: int|
        0 <= j < k ==> channels[j].channel_name@ != name
}

/// `r` is the first channel named `name`, or none when no channel is.
pub open spec fn named_choice(channels: Seq<Channel>, name: Seq<char>, r: Option<usize>) -> bool {
    match r {
        Some(k) => is_first_named(channels, name, k as int),
        None => forall|j: int| 0 <= j < channels.len() ==> channels[j].channel_name@ != name,
    }
}

/// Picks the channel to watch: the one at `index` when given, else the first
/// one named `name` when given, else the first one.
pub fn select_channel(channels: &Vec<Channel>, index: Option<usize>, name: Option<&str>) -> (r:
    Option<usize>)
    ensures
        index matches Some(i) ==> r == (if i < channels@.len() {
            Some(i)
        } else {
            None::<usize>
        }),
        index is None && name is None ==> r == (if channels@.len() > 0 {
            Some(0usize)
        } else {
            None::<usize>
        }),
        index is None && name is Some ==> named_choice(channels@, name->0@, r),
{
    match index {
        Some(i) => {
            if i < channels.len() {
                Some(i)
            } else {
                None
            }
        },
        None => match name {
            None => {
                if channels.len() > 0 {
                    Some(0)
                } else {
                    None
                }
            },
            Some(n) => {
                let wanted = String::from_str(n);
                let len = channels.len();
                let mut k: usize = 0;
                while k < len
                    invariant
                        index is None,
                        name == Some(n),
                        len == channels@.len(),
                        k <= len,
                        wanted@ == n@,
                        forall|j: int| 0 <= j < k ==> channels@[j].channel_name@ != n@,
                    decreases len - k,
                {
                    if channels[k].channel_name == wanted {
                        return Some(k);
                    }
                    k = k + 1;
                }
                None
            },
        },
    }
}

/// The URL from which an auth broker at `master_url` hands out cookies.
pub fn broker_auth_url(master_url: &str) -> (r: String)
    ensures
        r@ == master_url@ + "/chzzk-auth"@,
{
    let mut s = String::from_str(master_url);
    s.append("/chzzk-auth");
    s
}

/// Verbosity of the process log.
#[derive(Debug, Clone, Copy, PartialEq, Eq, Structural)]
pub enum LogLevel {
    Error,
    Warn,
    Info,
    Debug,
    Trace,
}

pub open spec fn log_level_name(l: LogLevel) -> Seq<char> {
    match l {
        LogLevel::Error => "error"@,
        LogLevel::Warn => "warn"@,
        LogLevel::Info => "info"@,
        LogLevel::Debug => "debug"@,
        LogLevel::Trace => "trace"@,
    }
}

impl LogLevel {
    /// The level named `name`, if any.
    pub fn from_name(name: &str) -> (r: Option<LogLevel>)
        ensures
            r matches Some(l) ==> log_level_name(l) == name@,
            r is None ==> forall|l: LogLevel| log_level_name(l) != name@,
    {
        let s = String::from_str(name);
        if s == String::from_str("error") {
            Some(LogLevel::Error)
        } else if s == String::from_str("warn") {
            Some(LogLevel::Warn)
        } else if s == String::from_str("info") {
            Some(LogLevel::Info)
        } else if s == String::from_str("debug") {
            Some(LogLevel::Debug)
        } else if s == String::from_str("trace") {
            Some(LogLevel::Trace)
        } else {
            proof {
                assert forall|l: LogLevel| log_level_name(l) != name@ by {
                    match l {
                        LogLevel::Error => {},
                        LogLevel::Warn => {},
                        LogLevel::Info => {},
                        LogLevel::Debug => {},
                        LogLevel::Trace => {},
                    }
                }
            }
            None
        }
    }
}

} // verus!
