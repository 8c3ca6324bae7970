use vstd::prelude::*;

verus! {

/// Whether the channel is broadcasting.
#[derive(Debug, Clone, Copy, PartialEq, Eq, Structural)]
pub enum LiveStatusType {
    Open,
    Close,
}

/// A point-in-time read of the channel.
#[derive(Debug, Clone)]
pub struct LiveStatus {
    pub status: LiveStatusType,
    pub live_title: String,
    pub category_type: Option<String>,
    pub live_category: Option<String>,
    pub live_category_value: String,
    pub adult: bool,
}

/// Returns whether two optional strings hold the same text.
pub fn same_text(a: &Option<String>, b: &Option<String>) -> (r: bool)
    ensures
        r == (opt_view(a) == opt_view(b)),
{
    match a {
        Some(x) => match b {
            Some(y) => {
                let eq = x.eq(y);
                eq
            },
            None => false,
        },
        None => b.is_none(),
    }
}

/// The text held by an optional string, if any.
pub open spec fn opt_view(a: &Option<String>) -> Option<Seq<char>> {
    match a {
        Some(s) => Some(s@),
        None => None,
    }
}

/// The mathematical content of a [`LiveStatus`].
pub struct StatusView {
    pub status: LiveStatusType,
    pub title: Seq<char>,
    pub category_type: Option<Seq<char>>,
    pub category: Option<Seq<char>>,
    pub category_value: Seq<char>,
    pub adult: bool,
}

impl View for LiveStatus {
    type V = StatusView;

    open spec fn view(&self) -> StatusView {
        StatusView {
            status: self.status,
            title: self.live_title@,
            category_type: opt_view(&self.category_type),
            category: opt_view(&self.live_category),
            category_value: self.live_category_value@,
            adult: self.adult,
        }
    }
}

impl LiveStatus {
    pub open spec fn category(&self) -> Option<Seq<char>> {
        opt_view(&self.live_category)
    }

    pub open spec fn is_open(&self) -> bool {
        self.status == LiveStatusType::Open
    }

    /// Returns a copy of the snapshot with the same text in every field.
    pub fn duplicate(&self) -> (r: LiveStatus)
        ensures
            r@ == self@,
    {
        LiveStatus {
            status: self.status,
            live_title: self.live_title.clone(),
            category_type: clone_opt(&self.category_type),
            live_category: clone_opt(&self.live_category),
            live_category_value: self.live_category_value.clone(),
            adult: self.adult,
        }
    }
}

/// Copies an optional string.
pub fn clone_opt(a: &Option<String>) -> (r: Option<String>)
    ensures
        opt_view(&r) == opt_view(a),
{
    match a {
        Some(s) => Some(s.clone()),
        None => None,
    }
}

/// Whether the change from `prev` to `curr` is worth recording as a new
/// live-status event: the title changed, the adult flag changed, or both
/// the category and its display value changed. Without a previous snapshot
/// nothing counts as modified.
pub open spec fn modified(prev: Option<LiveStatus>, curr: LiveStatus) -> bool {
    match prev {
        None => false,
        Some(p) => {
            ||| p.live_title@ != curr.live_title@
            ||| p.adult != curr.adult
            ||| (p.category() != curr.category() && p.live_category_value@
                != curr.live_category_value@)
        },
    }
}

/// Returns whether `curr` differs from `prev` in a way worth recording.
pub fn is_modified(prev: Option<&LiveStatus>, curr: &LiveStatus) -> (r: bool)
    ensures
        r == modified(
            match prev {
                Some(p) => Some(*p),
                None => None,
            },
            *curr,
        ),
{
    match prev {
        None => false,
        Some(p) => {
            let title_changed = p.live_title != curr.live_title;
            let adult_changed = p.adult != curr.adult;
            let category_changed = !same_text(&p.live_category, &curr.live_category)
                && p.live_category_value != curr.live_category_value;
            title_changed || adult_changed || category_changed
        },
    }
}

/// One playback entry of a live detail: a delivery format and its URL.
#[derive(Debug, Clone)]
pub struct LivePlaybackMedia {
    pub media_id: String,
    pub path: String,
}

/// The playback descriptor of a live detail.
#[derive(Debug, Clone)]
pub struct LivePlayback {
    pub media: Vec<LivePlaybackMedia>,
}

/// Full live detail: the status fields, the channel's display name and the
/// playback descriptor when one is accessible.
#[derive(Debug, Clone)]
pub struct LiveDetail {
    pub status: LiveStatus,
    pub channel_name: String,
    pub live_playback: Option<LivePlayback>,
}

/// Why no stream can be recorded although the channel is live.
#[derive(Debug, Clone, Copy, PartialEq, Eq, Structural)]
pub enum PollError {
    /// The channel requires adult verification and no playback is accessible.
    NotAdult,
}

/// The delivery-format tag of the stream that gets recorded.
pub open spec fn hls_tag() -> Seq<char> {
    seq!['H', 'L', 'S']
}

/// Whether a second request for the full live detail is needed.
pub fn needs_detail(status: &LiveStatus) -> (r: bool)
    ensures
        r == status.is_open(),
{
    status.status == LiveStatusType::Open
}

/// Entry `i` is the first of `media` with the recorded delivery format.
pub open spec fn is_first_hls(media: Seq<LivePlaybackMedia>, i: int) -> bool {
    0 <= i < media.len() && media[i].media_id@ == hls_tag() && forall|j: int|
        0 <= j < i ==> media[j].media_id@ != hls_tag()
}

/// `m` is a copy of the first playback entry of `detail` tagged HLS.
pub open spec fn first_hls_of(detail: LiveDetail, m: LivePlaybackMedia) -> bool {
    match detail.live_playback {
        Some(p) => exists|i: int|
            is_first_hls(p.media@, i) && m.media_id@ == p.media@[i].media_id@ && m.path@
                == p.media@[i].path@,
        None => false,
    }
}

/// No playback is accessible because the channel is for adults only.
pub open spec fn adult_blocked(detail: LiveDetail) -> bool {
    detail.status.adult && detail.live_playback is None
}

/// Picks the stream to record from a live detail: the first playback entry
/// tagged HLS. An adult-only channel without accessible playback is an error;
/// no playback, or no HLS entry, means there is nothing to record yet.
pub fn select_stream(detail: &LiveDetail) -> (r: Result<Option<LivePlaybackMedia>, PollError>)
    ensures
        r is Err <==> adult_blocked(*detail),
        r is Err ==> r == Err::<Option<LivePlaybackMedia>, PollError>(PollError::NotAdult),
        r matches Ok(None) ==> (detail.live_playback matches Some(p) ==> forall|i: int|
            0 <= i < p.media@.len() ==> p.media@[i].media_id@ != hls_tag()),
        r matches Ok(Some(m)) ==> first_hls_of(*detail, m),
{
    if detail.status.adult && detail.live_playback.is_none() {
        return Err(PollError::NotAdult);
    }
    match &detail.live_playback {
        None => Ok(None),
        Some(playback) => {
            proof {
                reveal_strlit("HLS");
            }
            let hls = String::from_str("HLS");
            let n = playback.media.len();
            let mut i: usize = 0;
            while i < n
                invariant
                    detail.live_playback == Some(*playback),
                    !adult_blocked(*detail),
                    n == playback.media@.len(),
                    i <= n,
                    hls@ == hls_tag(),
                    forall|j: int| 0 <= j < i ==> playback.media@[j].media_id@ != hls_tag(),
                decreases n - i,
            {
                if playback.media[i].media_id == hls {
                    let m = LivePlaybackMedia {
                        media_id: playback.media[i].media_id.clone(),
                        path: playback.media[i].path.clone(),
                    };
                    proof {
                        let p = detail.live_playback->0;
                        assert(is_first_hls(p.media@, i as int));
                    }
                    return Ok(Some(m));
                }
                i = i + 1;
            }
            Ok(None)
        },
    }
}

} // verus!
