use ellier::chapter::Chapter;
use ellier::sidecar::{chapter_document, chapter_heading, replace_underscores, sort_by_elapsed, Chapters};
use ellier::status::{LiveStatus, LiveStatusType};
use ellier::time::{LocalDateTime, Time};

fn snapshot(title: &str, category: Option<&str>) -> LiveStatus {
    LiveStatus {
        status: LiveStatusType::Open,
        live_title: title.to_string(),
        category_type: None,
        live_category: category.map(|c| c.to_string()),
        live_category_value: String::new(),
        adult: false,
    }
}

#[test]
fn readable_time_pads_fields() {
    assert_eq!(Time(1, 2, 3).to_readable(":"), "01:02:03");
    assert_eq!(Time(100, 15, 9).to_readable("-"), "100-15-09");
    assert_eq!(Time(0, 0, 0).to_readable(":"), "00:00:00");
}

#[test]
fn unknown_time_placeholder() {
    assert_eq!(Time::to_unknown_readable("-"), "??-??-??");
    assert_eq!(Time::to_unknown_readable(":"), "??:??:??");
}

#[test]
fn seconds_split_into_fields() {
    assert_eq!(Time::from_secs(3725), Time(1, 2, 5));
    assert_eq!(Time::from_secs(59), Time(0, 0, 59));
    assert_eq!(Time(2, 0, 1).as_secs(), 7201);
}

#[test]
fn heading_shows_category_with_spaces() {
    assert_eq!(
        chapter_heading(&snapshot("Hi", Some("League_of_Legends"))),
        "Hi Playing League of Legends"
    );
    assert_eq!(chapter_heading(&snapshot("Hi", None)), "Hi Playing unknown");
    assert_eq!(replace_underscores("_a__b_"), " a  b ");
}

#[test]
fn builder_writes_atoms() {
    let mut c = Chapters::new();
    c.add_chapter("T", Time(0, 1, 2));
    assert_eq!(
        c.build(),
        [
            r#"<?xml version="1.0" encoding="UTF-8"?>"#,
            r#"<!DOCTYPE Chapters SYSTEM "matroskachapters.dtd">"#,
            "<Chapters><EditionEntry>",
            "<ChapterAtom><ChapterTimeStart>00:01:02.000</ChapterTimeStart>",
            "<ChapterDisplay><ChapterString>T</ChapterString>",
            "<ChapterLanguage>ko</ChapterLanguage></ChapterDisplay></ChapterAtom>",
            "</EditionEntry></Chapters>",
        ]
        .concat()
    );
}

#[test]
fn document_sorts_chapters() {
    let chapters = vec![
        Chapter { elapsed: 3700, status: snapshot("B", Some("x_y")) },
        Chapter { elapsed: 0, status: snapshot("A", None) },
    ];
    let doc = chapter_document(chapters);
    let a = doc.find("<ChapterTimeStart>00:00:00.000</ChapterTimeStart><ChapterDisplay><ChapterString>A Playing unknown</ChapterString>");
    let b = doc.find("<ChapterTimeStart>01:01:40.000</ChapterTimeStart><ChapterDisplay><ChapterString>B Playing x y</ChapterString>");
    assert!(a.is_some() && b.is_some());
    assert!(a.unwrap() < b.unwrap());
    assert!(doc.ends_with("</ChapterAtom></EditionEntry></Chapters>"));
}

#[test]
fn sort_is_stable() {
    let chapters = vec![
        Chapter { elapsed: 5, status: snapshot("first", None) },
        Chapter { elapsed: 1, status: snapshot("early", None) },
        Chapter { elapsed: 5, status: snapshot("second", None) },
    ];
    let sorted: Vec<String> = sort_by_elapsed(chapters)
        .into_iter()
        .map(|c| c.status.live_title)
        .collect();
    assert_eq!(sorted, vec!["early", "first", "second"]);
}

#[test]
fn session_directory_stamp() {
    let t = LocalDateTime { year: 2024, month: 2, day: 28, hour: 2, minute: 34, second: 8 };
    assert_eq!(t.stamp(), "2024-02-28_02-34-08");
    let early = LocalDateTime { year: 7, month: 11, day: 1, hour: 23, minute: 0, second: 59 };
    assert_eq!(early.stamp(), "0007-11-01_23-00-59");
}
