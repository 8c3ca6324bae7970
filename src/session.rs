use vstd::prelude::*;

use crate::chapter::{
    lemma_observed_chapters_sorted, observe_all, observe_result, sorted_by_elapsed, views, Chapter,
    ChapterTracker, ChapterView,
};
use crate::sidecar::{
    lemma_sorted_views_keeps_sorted, lemma_sorted_views_sorted, sort_by_elapsed, sorted_views,
};
use crate::status::LiveStatus;

verus! {

/// A recording that ended before this many seconds is not kept.
pub const MIN_SESSION_SECS: u64 = 15;

/// Seconds to wait between two ticks of the supervisor loop.
pub const TICK_DELAY_SECS: u64 = 5;

/// The state of the active recording session.
pub struct Recording {
    tracker: ChapterTracker,
    has_transcoder: bool,
}

/// The mathematical content of a [`Recording`].
pub struct RecordingView {
    pub chapters: Seq<ChapterView>,
    pub has_transcoder: bool,
}

impl View for Recording {
    type V = RecordingView;

    closed spec fn view(&self) -> RecordingView {
        RecordingView { chapters: self.tracker@, has_transcoder: self.has_transcoder }
    }
}

/// What to do with a recording whose fetcher has exited.
pub enum SessionEnd {
    /// The recording is too short: remove its output directory, finalize
    /// nothing.
    Discard,
    /// Write these chapters, sorted by start time, into the recording.
    Finalize(Vec<Chapter>),
}

/// What to do when a shutdown signal arrives.
pub enum StopAction {
    /// Nothing is recording: exit at once.
    Exit,
    /// Stop the fetcher and wait for it, write the chapters when there are
    /// any to write, then exit.
    Terminate { finalize: Option<Vec<Chapter>> },
}

/// Decides the lifecycle of recording sessions: idle, or recording one
/// session at a time.
pub struct Supervisor {
    session: Option<Recording>,
}

impl View for Supervisor {
    type V = Option<RecordingView>;

    closed spec fn view(&self) -> Option<RecordingView> {
        match self.session {
            Some(r) => Some(r@),
            None => None,
        }
    }
}

impl Supervisor {
    /// An idle supervisor.
    pub fn new() -> (r: Supervisor)
        ensures
            r@ is None,
    {
        Supervisor { session: None }
    }

    /// Whether a session is recording.
    pub fn is_recording(&self) -> (r: bool)
        ensures
            r == self@ is Some,
    {
        self.session.is_some()
    }

    /// Starts a session whose pipeline has just been spawned, with or without
    /// a transcoder; `first` is the live detail that started it, recorded as
    /// the chapter at second zero.
    pub fn start_recording(&mut self, first: LiveStatus, has_transcoder: bool)
        requires
            old(self)@ is None,
        ensures
            final(self)@ == Some(
                RecordingView {
                    chapters: observe_result(Seq::empty(), Chapter { elapsed: 0, status: first }@),
                    has_transcoder,
                },
            ),
    {
        let mut tracker = ChapterTracker::new();
        tracker.observe(0, first);
        self.session = Some(Recording { tracker, has_transcoder });
    }

    /// Feeds a snapshot polled `elapsed` seconds into the session into its
    /// chapters; returns whether the chapter list changed.
    pub fn observe(&mut self, elapsed: u64, status: LiveStatus) -> (r: bool)
        requires
            old(self)@ is Some,
        ensures
            final(self)@ is Some,
            final(self)@->0.has_transcoder == old(self)@->0.has_transcoder,
            final(self)@->0.chapters == observe_result(
                old(self)@->0.chapters,
                Chapter { elapsed, status }@,
            ),
            r == (final(self)@->0.chapters != old(self)@->0.chapters),
    {
        let mut rec = self.session.take().unwrap();
        let changed = rec.tracker.observe(elapsed, status);
        self.session = Some(rec);
        changed
    }

    /// The fetcher exited `elapsed` seconds into the session, cleanly or not:
    /// the session ends. Below the minimum duration the recording is
    /// discarded; otherwise its chapters, sorted, are to be finalized once.
    pub fn fetcher_exited(&mut self, elapsed: u64) -> (r: SessionEnd)
        requires
            old(self)@ is Some,
        ensures
            final(self)@ is None,
            elapsed < MIN_SESSION_SECS ==> r is Discard,
            elapsed >= MIN_SESSION_SECS ==> (r matches SessionEnd::Finalize(v) && views(v@)
                == sorted_views(old(self)@->0.chapters) && sorted_by_elapsed(views(v@))),
    {
        proof {
            lemma_sorted_views_sorted(self@->0.chapters);
        }
        let rec = self.session.take().unwrap();
        if elapsed < MIN_SESSION_SECS {
            SessionEnd::Discard
        } else {
            SessionEnd::Finalize(sort_by_elapsed(rec.tracker.into_chapters()))
        }
    }

    /// A shutdown signal arrived. While idle the process exits at once; while
    /// recording the fetcher is stopped, and the chapters, sorted, are written
    /// when a transcoder is part of the pipeline.
    pub fn stop(&mut self) -> (r: StopAction)
        ensures
            final(self)@ is None,
            old(self)@ is None ==> r is Exit,
            old(self)@ matches Some(rec) ==> (r matches StopAction::Terminate { finalize } && (
            finalize is Some <==> rec.has_transcoder) && (finalize matches Some(v) ==> views(v@)
                == sorted_views(rec.chapters) && sorted_by_elapsed(views(v@)))),
    {
        proof {
            if self@ is Some {
                lemma_sorted_views_sorted(self@->0.chapters);
            }
        }
        match self.session.take() {
            None => StopAction::Exit,
            Some(rec) => {
                if rec.has_transcoder {
                    StopAction::Terminate {
                        finalize: Some(sort_by_elapsed(rec.tracker.into_chapters())),
                    }
                } else {
                    StopAction::Terminate { finalize: None }
                }
            },
        }
    }
}

/// When the observations of a session come in the order of its monotonic
/// clock, the chapters finalized at its end are exactly the chapters it
/// accumulated: sorting them changes nothing.
pub proof fn lemma_finalized_chapters_are_accumulated(obs: Seq<ChapterView>)
    requires
        forall|i: int, j: int| 0 <= i <= j < obs.len() ==> obs[i].elapsed <= obs[j].elapsed,
    ensures
        sorted_views(observe_all(Seq::empty(), obs)) == observe_all(Seq::empty(), obs),
{
    lemma_observed_chapters_sorted(obs);
    lemma_sorted_views_keeps_sorted(observe_all(Seq::empty(), obs));
}

} // verus!
