use vstd::prelude::*;

use crate::status::{same_text, LiveStatus, LiveStatusType, StatusView};

verus! {

/// Width of the window, in seconds, inside which a snapshot whose title is
/// already a chapter only corrects that chapter's category.
pub const MERGE_WINDOW_SECS: u64 = 60;

/// A chapter candidate: seconds since the session started, and the snapshot
/// observed then.
#[derive(Debug, Clone)]
pub struct Chapter {
    pub elapsed: u64,
    pub status: LiveStatus,
}

/// The mathematical content of a [`Chapter`].
pub struct ChapterView {
    pub elapsed: u64,
    pub status: StatusView,
}

impl View for Chapter {
    type V = ChapterView;

    open spec fn view(&self) -> ChapterView {
        ChapterView { elapsed: self.elapsed, status: self.status@ }
    }
}

pub open spec fn views(s: Seq<Chapter>) -> Seq<ChapterView> {
    s.map_values(|c: Chapter| c@)
}

/// A candidate at `candidate` seconds lies in the merge window of an
/// observation at `elapsed` seconds.
pub open spec fn within_window(candidate: u64, elapsed: u64) -> bool {
    candidate <= elapsed && elapsed - candidate <= MERGE_WINDOW_SECS
}

/// Entry `i` of `s` has the title of `c` and lies in its merge window.
pub open spec fn same_title_near(s: Seq<ChapterView>, i: int, c: ChapterView) -> bool {
    0 <= i < s.len() && within_window(s[i].elapsed, c.elapsed) && s[i].status.title
        == c.status.title
}

/// Among the first `k` entries, `b` is the earliest-starting one that has the
/// title of `c` inside its window; on equal start times, the first in the list.
pub open spec fn is_oldest_among(s: Seq<ChapterView>, c: ChapterView, b: int, k: int) -> bool {
    &&& 0 <= b < k <= s.len()
    &&& same_title_near(s, b, c)
    &&& forall|j: int| 0 <= j < k && same_title_near(s, j, c) ==> s[b].elapsed <= s[j].elapsed
    &&& forall|j: int| 0 <= j < b && same_title_near(s, j, c) ==> s[b].elapsed < s[j].elapsed
}

pub open spec fn is_oldest_match(s: Seq<ChapterView>, c: ChapterView, b: int) -> bool {
    is_oldest_among(s, c, b, s.len() as int)
}

/// The chapter that an observation `c` would correct, if any.
pub open spec fn oldest_match(s: Seq<ChapterView>, c: ChapterView) -> Option<int> {
    if exists|b: int| is_oldest_match(s, c, b) {
        Some(choose|b: int| is_oldest_match(s, c, b))
    } else {
        None
    }
}

/// `v` with its category replaced by `category`.
pub open spec fn with_category(v: ChapterView, category: Option<Seq<char>>) -> ChapterView {
    ChapterView {
        elapsed: v.elapsed,
        status: StatusView {
            status: v.status.status,
            title: v.status.title,
            category_type: v.status.category_type,
            category: category,
            category_value: v.status.category_value,
            adult: v.status.adult,
        },
    }
}

/// Two entries carry the same title and the same category.
pub open spec fn same_heading(a: ChapterView, b: ChapterView) -> bool {
    a.status.title == b.status.title && a.status.category == b.status.category
}

/// The chapter list after observing `c`:
/// closed snapshots are ignored; the first open one starts the list; one
/// whose title is already a chapter inside the merge window corrects the
/// category of the oldest such chapter; any other is appended when its title
/// or category differs from the last chapter.
pub open spec fn observe_result(s: Seq<ChapterView>, c: ChapterView) -> Seq<ChapterView> {
    if c.status.status == LiveStatusType::Close {
        s
    } else if s.len() == 0 {
        seq![c]
    } else {
        match oldest_match(s, c) {
            Some(i) => if s[i].status.category != c.status.category {
                s.update(i, with_category(s[i], c.status.category))
            } else {
                s
            },
            None => if !same_heading(s.last(), c) {
                s.push(c)
            } else {
                s
            },
        }
    }
}

/// The chapter list after observing every entry of `obs` in order, starting
/// from `s`.
pub open spec fn observe_all(s: Seq<ChapterView>, obs: Seq<ChapterView>) -> Seq<ChapterView>
    decreases obs.len(),
{
    if obs.len() == 0 {
        s
    } else {
        observe_result(observe_all(s, obs.drop_last()), obs.last())
    }
}

proof fn lemma_oldest_unique(s: Seq<ChapterView>, c: ChapterView, b1: int, b2: int)
    requires
        is_oldest_match(s, c, b1),
        is_oldest_match(s, c, b2),
    ensures
        b1 == b2,
{
}

proof fn lemma_oldest_match_is(s: Seq<ChapterView>, c: ChapterView, b: int)
    requires
        is_oldest_match(s, c, b),
    ensures
        oldest_match(s, c) == Some(b),
{
    let k = choose|k: int| is_oldest_match(s, c, k);
    lemma_oldest_unique(s, c, k, b);
}

/// Feeds one observation into `chapters`; returns whether the list changed.
pub fn push_or_modify_chapter(chapters: &mut Vec<Chapter>, curr: Chapter) -> (r: bool)
    ensures
        views(final(chapters)@) == observe_result(views(old(chapters)@), curr@),
        r == (views(final(chapters)@) != views(old(chapters)@)),
{
    let ghost s = views(chapters@);
    let ghost c = curr@;
    if curr.status.status == LiveStatusType::Close {
        return false;
    }
    let n = chapters.len();
    if n == 0 {
        chapters.push(curr);
        proof {
            assert(views(chapters@) =~= seq![c]);
        }
        return true;
    }
    let mut best: Option<usize> = None;
    let mut i: usize = 0;
    while i < n
        invariant
            n == chapters.len(),
            s == views(chapters@),
            c == curr@,
            i <= n,
            match best {
                None => forall|j: int| 0 <= j < i ==> !same_title_near(s, j, c),
                Some(b) => is_oldest_among(s, c, b as int, i as int),
            },
        decreases n - i,
    {
        let e = chapters[i].elapsed;
        let near = e <= curr.elapsed && curr.elapsed - e <= MERGE_WINDOW_SECS
            && chapters[i].status.live_title == curr.status.live_title;
        proof {
            assert(s[i as int] == chapters@[i as int]@);
        }
        if near {
            match best {
                None => {
                    best = Some(i);
                },
                Some(b) => {
                    if e < chapters[b].elapsed {
                        best = Some(i);
                    }
                },
            }
        }
        i = i + 1;
    }
    match best {
        Some(b) => {
            proof {
                lemma_oldest_match_is(s, c, b as int);
            }
            if !same_text(&chapters[b].status.live_category, &curr.status.live_category) {
                let old_status = chapters[b].status.duplicate();
                let corrected = Chapter {
                    elapsed: chapters[b].elapsed,
                    status: LiveStatus { live_category: curr.status.live_category, ..old_status },
                };
                chapters.set(b, corrected);
                proof {
                    assert(views(chapters@) =~= s.update(b as int, with_category(s[b as int], c.status.category)));
                    assert(views(chapters@)[b as int] != s[b as int]);
                }
                true
            } else {
                false
            }
        },
        None => {
            proof {
                assert(!exists|k: int| is_oldest_match(s, c, k));
            }
            let last = n - 1;
            proof {
                assert(s.last() == chapters@[last as int]@);
            }
            let differs = chapters[last].status.live_title != curr.status.live_title
                || !same_text(&chapters[last].status.live_category, &curr.status.live_category);
            if differs {
                chapters.push(curr);
                proof {
                    assert(views(chapters@) =~= s.push(c));
                    assert(views(chapters@).len() != s.len());
                }
                true
            } else {
                false
            }
        },
    }
}


/// The ordered list of chapter candidates of one recording session.
pub struct ChapterTracker {
    chapters: Vec<Chapter>,
}

impl View for ChapterTracker {
    type V = Seq<ChapterView>;

    closed spec fn view(&self) -> Seq<ChapterView> {
        views(self.chapters@)
    }
}

impl ChapterTracker {
    /// A tracker with no chapter yet.
    pub fn new() -> (r: ChapterTracker)
        ensures
            r@ == Seq::<ChapterView>::empty(),
    {
        let r = ChapterTracker { chapters: Vec::new() };
        proof {
            assert(r@ =~= Seq::<ChapterView>::empty());
        }
        r
    }

    /// Observes the snapshot `status` taken `elapsed` seconds into the
    /// session; returns whether the chapter list changed.
    pub fn observe(&mut self, elapsed: u64, status: LiveStatus) -> (r: bool)
        ensures
            final(self)@ == observe_result(old(self)@, Chapter { elapsed, status }@),
            r == (final(self)@ != old(self)@),
    {
        push_or_modify_chapter(&mut self.chapters, Chapter { elapsed, status })
    }

    /// The chapters, in the order they were recorded.
    pub fn chapters(&self) -> (r: &Vec<Chapter>)
        ensures
            views(r@) == self@,
    {
        &self.chapters
    }

    /// Hands out the chapters, in the order they were recorded.
    pub fn into_chapters(self) -> (r: Vec<Chapter>)
        ensures
            views(r@) == self@,
    {
        self.chapters
    }
}

/// Every entry starts no later than the entries after it.
pub open spec fn sorted_by_elapsed(s: Seq<ChapterView>) -> bool {
    forall|i: int, j: int| 0 <= i <= j < s.len() ==> s[i].elapsed <= s[j].elapsed
}

/// No two neighbouring entries carry the same title and category.
pub open spec fn no_adjacent_repeat(s: Seq<ChapterView>) -> bool {
    forall|i: int| 0 <= i < s.len() - 1 ==> !same_heading(#[trigger] s[i], s[i + 1])
}

/// Observing `c` corrects the category of an entry of `s` so that it repeats
/// the title and category of a neighbour.
pub open spec fn correction_repeats_neighbour(s: Seq<ChapterView>, c: ChapterView) -> bool {
    c.status.status != LiveStatusType::Close && match oldest_match(s, c) {
        Some(i) => s[i].status.category != c.status.category && (
        (i > 0 && same_heading(s[i - 1], with_category(s[i], c.status.category))) || (i + 1
            < s.len() && same_heading(s[i + 1], with_category(s[i], c.status.category)))),
        None => false,
    }
}

proof fn lemma_oldest_among_exists(s: Seq<ChapterView>, c: ChapterView, k: int) -> (m: int)
    requires
        0 <= k <= s.len(),
        exists|j: int| 0 <= j < k && same_title_near(s, j, c),
    ensures
        is_oldest_among(s, c, m, k),
    decreases k,
{
    if exists|j: int| 0 <= j < k - 1 && same_title_near(s, j, c) {
        let m0 = lemma_oldest_among_exists(s, c, k - 1);
        if same_title_near(s, k - 1, c) && s[k - 1].elapsed < s[m0].elapsed {
            k - 1
        } else {
            m0
        }
    } else {
        k - 1
    }
}

proof fn lemma_no_match_none_near(s: Seq<ChapterView>, c: ChapterView)
    requires
        oldest_match(s, c) is None,
    ensures
        forall|j: int| !same_title_near(s, j, c),
{
    assert forall|j: int| !same_title_near(s, j, c) by {
        if same_title_near(s, j, c) {
            let m = lemma_oldest_among_exists(s, c, s.len() as int);
            assert(is_oldest_match(s, c, m));
        }
    }
}

proof fn lemma_oldest_match_facts(s: Seq<ChapterView>, c: ChapterView)
    ensures
        match oldest_match(s, c) {
            Some(i) => is_oldest_match(s, c, i),
            None => forall|i: int| !is_oldest_match(s, c, i),
        },
{
}

proof fn lemma_observe_shape(s: Seq<ChapterView>, c: ChapterView)
    ensures
        forall|i: int| 0 <= i < s.len() ==> observe_result(s, c)[i].elapsed == s[i].elapsed,
        observe_result(s, c).len() == s.len() || observe_result(s, c) == s.push(c),
{
    lemma_oldest_match_facts(s, c);
    if c.status.status != LiveStatusType::Close && s.len() == 0 {
        assert(seq![c] =~= s.push(c));
    }
}

proof fn lemma_observe_all_bounded(obs: Seq<ChapterView>, bound: u64)
    requires
        forall|k: int| 0 <= k < obs.len() ==> obs[k].elapsed <= bound,
    ensures
        forall|i: int|
            0 <= i < observe_all(seq![], obs).len() ==> observe_all(seq![], obs)[i].elapsed
                <= bound,
    decreases obs.len(),
{
    if obs.len() > 0 {
        let prev = obs.drop_last();
        lemma_observe_all_bounded(prev, bound);
        lemma_observe_shape(observe_all(seq![], prev), obs.last());
    }
}

/// Whatever open snapshots are observed, in the order of a monotonic clock,
/// the chapter list stays sorted by start time.
pub proof fn lemma_observed_chapters_sorted(obs: Seq<ChapterView>)
    requires
        forall|i: int, j: int| 0 <= i <= j < obs.len() ==> obs[i].elapsed <= obs[j].elapsed,
    ensures
        sorted_by_elapsed(observe_all(seq![], obs)),
    decreases obs.len(),
{
    if obs.len() > 0 {
        let prev = obs.drop_last();
        let c = obs.last();
        let s = observe_all(seq![], prev);
        lemma_observed_chapters_sorted(prev);
        lemma_observe_all_bounded(prev, c.elapsed);
        lemma_observe_shape(s, c);
    }
}

/// Observing snapshots never leaves two neighbouring chapters with the same
/// title and category, unless some observation corrects a chapter's category
/// into that of a neighbour with the same title.
pub proof fn lemma_observed_chapters_no_repeat(obs: Seq<ChapterView>)
    requires
        forall|k: int|
            0 <= k < obs.len() ==> !correction_repeats_neighbour(
                observe_all(seq![], obs.take(k)),
                #[trigger] obs[k],
            ),
    ensures
        no_adjacent_repeat(observe_all(seq![], obs)),
    decreases obs.len(),
{
    if obs.len() > 0 {
        let prev = obs.drop_last();
        let c = obs.last();
        let s = observe_all(seq![], prev);
        assert forall|k: int|
            0 <= k < prev.len() implies !correction_repeats_neighbour(
            observe_all(seq![], prev.take(k)),
            #[trigger] prev[k],
        ) by {
            assert(prev.take(k) =~= obs.take(k));
            assert(prev[k] == obs[k]);
        }
        lemma_observed_chapters_no_repeat(prev);
        assert(obs.take(prev.len() as int) =~= prev);
        assert(!correction_repeats_neighbour(s, obs[prev.len() as int]));
        lemma_oldest_match_facts(s, c);
        let r = observe_result(s, c);
        assert forall|i: int| 0 <= i < r.len() - 1 implies !same_heading(#[trigger] r[i], r[i + 1]) by {
            assert(!same_heading(s[i], s[i + 1]) || i + 1 >= s.len());
        }
    }
}

proof fn lemma_same_near_set(s: Seq<ChapterView>, t: Seq<ChapterView>, c: ChapterView)
    requires
        s.len() == t.len(),
        forall|i: int|
            0 <= i < s.len() ==> s[i].elapsed == t[i].elapsed && s[i].status.title
                == t[i].status.title,
    ensures
        oldest_match(s, c) == oldest_match(t, c),
{
    assert forall|b: int| is_oldest_match(s, c, b) <==> is_oldest_match(t, c, b) by {
        assert forall|j: int| same_title_near(s, j, c) <==> same_title_near(t, j, c) by {}
    }
    if exists|b: int| is_oldest_match(s, c, b) {
        let b = choose|b: int| is_oldest_match(s, c, b);
        lemma_oldest_match_is(s, c, b);
        lemma_oldest_match_is(t, c, b);
    }
}

/// Observing the same snapshot at the same time twice in a row changes
/// nothing the second time.
pub proof fn lemma_repeated_observation_ignored(s: Seq<ChapterView>, c: ChapterView)
    ensures
        observe_result(observe_result(s, c), c) == observe_result(s, c),
{
    let r = observe_result(s, c);
    lemma_oldest_match_facts(s, c);
    if c.status.status != LiveStatusType::Close {
        if s.len() == 0 || (oldest_match(s, c) is None && !same_heading(s.last(), c)) {
            let n = s.len() as int;
            assert(r =~= s.push(c));
            lemma_no_match_none_near(s, c);
            assert forall|j: int| 0 <= j < n implies !same_title_near(r, j, c) by {
                assert(r[j] == s[j]);
                assert(!same_title_near(s, j, c));
            }
            assert(same_title_near(r, n, c));
            assert(is_oldest_match(r, c, n));
            lemma_oldest_match_is(r, c, n);
        } else if oldest_match(s, c) is Some {
            lemma_same_near_set(s, r, c);
        }
    }
}

/// An open snapshot whose title is already carried by a chapter inside its
/// merge window, with another category than the oldest such chapter,
/// corrects that chapter's category in place: nothing is appended.
pub proof fn lemma_near_same_title_corrects_category(s: Seq<ChapterView>, c: ChapterView, i: int)
    requires
        c.status.status == LiveStatusType::Open,
        is_oldest_match(s, c, i),
        s[i].status.category != c.status.category,
    ensures
        observe_result(s, c) == s.update(i, with_category(s[i], c.status.category)),
        observe_result(s, c).len() == s.len(),
{
    lemma_oldest_match_is(s, c, i);
}

/// An open snapshot with no chapter of its title inside its merge window is
/// compared with the most recent chapter: it is appended when its title or
/// category differs from that chapter, and dropped otherwise.
pub proof fn lemma_far_snapshot_compares_with_last(s: Seq<ChapterView>, c: ChapterView)
    requires
        c.status.status == LiveStatusType::Open,
        s.len() > 0,
        forall|j: int| !same_title_near(s, j, c),
    ensures
        observe_result(s, c) == (if same_heading(s.last(), c) {
            s
        } else {
            s.push(c)
        }),
{
    lemma_oldest_match_facts(s, c);
}

} // verus!
