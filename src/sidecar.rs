use vstd::prelude::*;

use crate::chapter::{sorted_by_elapsed, views, Chapter, ChapterView};
use crate::status::{LiveStatus, StatusView};
use crate::time::{readable, time_of, Time};

verus! {

/// Opening of the chapter document, up to the first chapter atom.
pub open spec fn document_head() -> Seq<char> {
    "<?xml version=\"1.0\" encoding=\"UTF-8\"?>"@ + "<!DOCTYPE Chapters SYSTEM \"matroskachapters.dtd\">"@
        + "<Chapters><EditionEntry>"@
}

/// Closing of the chapter document.
pub open spec fn document_tail() -> Seq<char> {
    "</EditionEntry></Chapters>"@
}

/// One chapter atom: its start time and its display string.
pub open spec fn atom_text(title: Seq<char>, start: Time) -> Seq<char> {
    "<ChapterAtom>"@ + "<ChapterTimeStart>"@ + readable(start, ":"@) + ".000"@
        + "</ChapterTimeStart>"@ + "<ChapterDisplay>"@ + "<ChapterString>"@ + title
        + "</ChapterString>"@ + "<ChapterLanguage>"@ + "ko"@ + "</ChapterLanguage>"@
        + "</ChapterDisplay>"@ + "</ChapterAtom>"@
}

/// A chapter document under construction.
pub struct Chapters(pub String);

impl Chapters {
    /// A document holding its opening and no chapter.
    pub fn new() -> (r: Chapters)
        ensures
            r.0@ == document_head(),
    {
        let mut s = String::new();
        s.append("<?xml version=\"1.0\" encoding=\"UTF-8\"?>");
        s.append("<!DOCTYPE Chapters SYSTEM \"matroskachapters.dtd\">");
        s.append("<Chapters><EditionEntry>");
        proof {
            assert(s@ =~= document_head());
        }
        Chapters(s)
    }

    /// Closes the document and returns its text.
    pub fn build(self) -> (r: String)
        ensures
            r@ == self.0@ + document_tail(),
    {
        let mut s = self.0;
        s.append("</EditionEntry></Chapters>");
        s
    }

    /// Appends a chapter that starts at `start` and displays `title`.
    pub fn add_chapter(&mut self, title: &str, start: Time)
        ensures
            final(self).0@ == old(self).0@ + atom_text(title@, start),
    {
        let readable_start = start.to_readable(":");
        self.0.append("<ChapterAtom>");
        self.0.append("<ChapterTimeStart>");
        self.0.append(readable_start.as_str());
        self.0.append(".000");
        self.0.append("</ChapterTimeStart>");
        self.0.append("<ChapterDisplay>");
        self.0.append("<ChapterString>");
        self.0.append(title);
        self.0.append("</ChapterString>");
        self.0.append("<ChapterLanguage>");
        self.0.append("ko");
        self.0.append("</ChapterLanguage>");
        self.0.append("</ChapterDisplay>");
        self.0.append("</ChapterAtom>");
        proof {
            assert(self.0@ =~= old(self).0@ + atom_text(title@, start));
        }
    }
}

/// `text` with every underscore shown as a space.
pub open spec fn underscores_as_spaces(text: Seq<char>) -> Seq<char> {
    text.map_values(|ch: char| if ch == '_' { ' ' } else { ch })
}

/// The display string of a chapter: "<title> Playing <category>", the
/// category with underscores shown as spaces, or "unknown" without one.
pub open spec fn heading(status: StatusView) -> Seq<char> {
    status.title + " Playing "@ + match status.category {
        Some(category) => underscores_as_spaces(category),
        None => "unknown"@,
    }
}

/// Returns `text` with every underscore shown as a space.
pub fn replace_underscores(text: &str) -> (r: String)
    ensures
        r@ == underscores_as_spaces(text@),
{
    proof {
        reveal_strlit(" ");
    }
    let n = text.unicode_len();
    let mut out = String::new();
    let mut i: usize = 0;
    while i < n
        invariant
            n == text@.len(),
            i <= n,
            out@ == underscores_as_spaces(text@.take(i as int)),
        decreases n - i,
    {
        let ch = text.get_char(i);
        let ghost before = out@;
        if ch == '_' {
            proof {
                reveal_strlit(" ");
            }
            out.append(" ");
        } else {
            let one = text.substring_char(i, i + 1);
            proof {
                assert(one@ =~= seq![ch]);
            }
            out.append(one);
        }
        proof {
            let f = |c: char| if c == '_' { ' ' } else { c };
            assert(text@.take(i + 1) =~= text@.take(i as int).push(ch));
            assert(out@ =~= before.push(f(ch)));
            assert(underscores_as_spaces(text@.take(i as int).push(ch)) =~= underscores_as_spaces(
                text@.take(i as int),
            ).push(f(ch)));
        }
        i = i + 1;
        proof {
            assert(out@ =~= underscores_as_spaces(text@.take(i as int)));
        }
    }
    proof {
        assert(text@.take(n as int) =~= text@);
    }
    out
}

/// Returns the display string of a chapter observed with `status`.
pub fn chapter_heading(status: &LiveStatus) -> (r: String)
    ensures
        r@ == heading(status@),
{
    let mut s = status.live_title.clone();
    s.append(" Playing ");
    match &status.live_category {
        Some(category) => {
            let shown = replace_underscores(category.as_str());
            s.append(shown.as_str());
        },
        None => {
            s.append("unknown");
        },
    }
    s
}

/// Where a chapter starting at `elapsed` goes in the sorted list `s`: after
/// every entry that starts no later than it.
pub open spec fn insertion_point(s: Seq<ChapterView>, elapsed: u64) -> int
    decreases s.len(),
{
    if s.len() == 0 {
        0
    } else if s.last().elapsed <= elapsed {
        s.len() as int
    } else {
        insertion_point(s.drop_last(), elapsed)
    }
}

/// `s` sorted by start time; entries that start together keep their order.
pub open spec fn sorted_views(s: Seq<ChapterView>) -> Seq<ChapterView>
    decreases s.len(),
{
    if s.len() == 0 {
        s
    } else {
        let t = sorted_views(s.drop_last());
        t.insert(insertion_point(t, s.last().elapsed), s.last())
    }
}

proof fn lemma_insertion_point_bounds(s: Seq<ChapterView>, elapsed: u64)
    ensures
        0 <= insertion_point(s, elapsed) <= s.len(),
    decreases s.len(),
{
    if s.len() > 0 {
        lemma_insertion_point_bounds(s.drop_last(), elapsed);
    }
}

/// Inserts `c` into `out` after every entry that starts no later than it.
fn insert_chapter(out: &mut Vec<Chapter>, c: Chapter)
    ensures
        views(final(out)@) == views(old(out)@).insert(
            insertion_point(views(old(out)@), c.elapsed),
            c@,
        ),
{
    let ghost s = views(out@);
    let mut j: usize = out.len();
    proof {
        assert(s.take(j as int) =~= s);
    }
    while j > 0 && out[j - 1].elapsed > c.elapsed
        invariant
            j <= out.len(),
            s == views(out@),
            insertion_point(s, c.elapsed) == insertion_point(s.take(j as int), c.elapsed),
        decreases j,
    {
        proof {
            assert(s.take(j as int).drop_last() =~= s.take(j - 1));
        }
        j = j - 1;
    }
    proof {
        if j > 0 {
            assert(s.take(j as int).last() == s[j - 1]);
        }
        lemma_insertion_point_bounds(s, c.elapsed);
    }
    out.insert(j, c);
    proof {
        assert(views(out@) =~= s.insert(j as int, c@));
    }
}

/// Returns `chapters` sorted by start time; chapters that start together keep
/// their order.
pub fn sort_by_elapsed(chapters: Vec<Chapter>) -> (r: Vec<Chapter>)
    ensures
        views(r@) == sorted_views(views(chapters@)),
{
    let ghost all = views(chapters@);
    let mut rest = chapters;
    let mut out: Vec<Chapter> = Vec::new();
    let ghost mut k: int = 0;
    proof {
        assert(views(out@) =~= sorted_views(all.take(0)));
        assert(views(rest@) =~= all.skip(0));
    }
    while rest.len() > 0
        invariant
            0 <= k <= all.len(),
            views(rest@) == all.skip(k),
            rest@.len() == all.len() - k,
            views(out@) == sorted_views(all.take(k)),
        decreases rest.len(),
    {
        let ghost before = views(rest@);
        let c = rest.remove(0);
        proof {
            assert(before[0] == all[k]);
            assert(c@ == all[k]);
            assert(all.take(k + 1).drop_last() =~= all.take(k));
            assert(all.take(k + 1).last() == all[k]);
        }
        proof {
            assert(views(rest@) =~= before.drop_first());
            assert(before.drop_first() =~= all.skip(k + 1));
        }
        insert_chapter(&mut out, c);
        proof {
            k = k + 1;
            assert(views(rest@) =~= all.skip(k));
        }
    }
    proof {
        assert(all.skip(k).len() == 0);
        assert(all.take(k) =~= all);
    }
    out
}

proof fn lemma_insertion_point_splits(t: Seq<ChapterView>, e: u64)
    requires
        sorted_by_elapsed(t),
    ensures
        forall|i: int| 0 <= i < insertion_point(t, e) ==> t[i].elapsed <= e,
        forall|i: int| insertion_point(t, e) <= i < t.len() ==> t[i].elapsed > e,
    decreases t.len(),
{
    lemma_insertion_point_bounds(t, e);
    if t.len() > 0 && t.last().elapsed > e {
        let u = t.drop_last();
        lemma_insertion_point_splits(u, e);
        assert forall|i: int| insertion_point(t, e) <= i < t.len() implies t[i].elapsed > e by {
            if i < u.len() {
                assert(u[i] == t[i]);
            }
        }
        assert forall|i: int| 0 <= i < insertion_point(t, e) implies t[i].elapsed <= e by {
            assert(u[i] == t[i]);
        }
    } else if t.len() > 0 {
        assert forall|i: int| 0 <= i < insertion_point(t, e) implies t[i].elapsed <= e by {
            assert(t[i].elapsed <= t[t.len() - 1].elapsed);
        }
    }
}

/// Sorting yields a list ordered by start time.
pub proof fn lemma_sorted_views_sorted(s: Seq<ChapterView>)
    ensures
        sorted_by_elapsed(sorted_views(s)),
    decreases s.len(),
{
    if s.len() > 0 {
        let t = sorted_views(s.drop_last());
        let c = s.last();
        lemma_sorted_views_sorted(s.drop_last());
        lemma_insertion_point_splits(t, c.elapsed);
        lemma_insertion_point_bounds(t, c.elapsed);
        let p = insertion_point(t, c.elapsed);
        let r = t.insert(p, c);
        assert forall|i: int, j: int| 0 <= i <= j < r.len() implies r[i].elapsed <= r[j].elapsed by {
            if j < p {
            } else if j == p {
            } else if i < p {
                assert(r[j] == t[j - 1]);
            } else if i == p {
                assert(r[j] == t[j - 1]);
            } else {
                assert(r[j] == t[j - 1] && r[i] == t[i - 1]);
            }
        }
    }
}

/// A list already ordered by start time is left as it is by sorting.
pub proof fn lemma_sorted_views_keeps_sorted(s: Seq<ChapterView>)
    requires
        sorted_by_elapsed(s),
    ensures
        sorted_views(s) == s,
    decreases s.len(),
{
    if s.len() > 0 {
        let u = s.drop_last();
        assert(sorted_by_elapsed(u));
        lemma_sorted_views_keeps_sorted(u);
        if u.len() > 0 {
            assert(u.last() == s[s.len() - 2]);
        }
        assert(u.insert(u.len() as int, s.last()) =~= s);
    }
}

/// The chapter atoms of `s`, in order, each at its own start time.
pub open spec fn atoms(s: Seq<ChapterView>) -> Seq<char>
    decreases s.len(),
{
    if s.len() == 0 {
        Seq::empty()
    } else {
        atoms(s.drop_last()) + atom_text(heading(s.last().status), time_of(s.last().elapsed))
    }
}

/// The chapter document for `chapters`: one atom per chapter, sorted by
/// start time.
pub open spec fn document(chapters: Seq<ChapterView>) -> Seq<char> {
    document_head() + atoms(sorted_views(chapters)) + document_tail()
}

/// Renders the chapter document for `chapters`, sorted by start time.
pub fn chapter_document(chapters: Vec<Chapter>) -> (r: String)
    ensures
        r@ == document(views(chapters@)),
{
    let sorted = sort_by_elapsed(chapters);
    let ghost s = views(sorted@);
    let mut builder = Chapters::new();
    let n = sorted.len();
    let mut i: usize = 0;
    while i < n
        invariant
            n == sorted.len(),
            s == views(sorted@),
            i <= n,
            builder.0@ == document_head() + atoms(s.take(i as int)),
        decreases n - i,
    {
        let heading_text = chapter_heading(&sorted[i].status);
        builder.add_chapter(heading_text.as_str(), Time::from_secs(sorted[i].elapsed));
        proof {
            assert(s[i as int] == sorted@[i as int]@);
            assert(s.take(i + 1).drop_last() =~= s.take(i as int));
            assert(document_head() + atoms(s.take(i as int)) + atom_text(
                heading(s[i as int].status),
                time_of(s[i as int].elapsed),
            ) =~= document_head() + atoms(s.take(i + 1)));
        }
        i = i + 1;
    }
    proof {
        assert(s.take(n as int) =~= s);
    }
    builder.build()
}

} // verus!
