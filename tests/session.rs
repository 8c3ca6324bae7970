use ellier::session::{SessionEnd, StopAction, Supervisor, MIN_SESSION_SECS, TICK_DELAY_SECS};
use ellier::status::{LiveStatus, LiveStatusType};

fn snapshot(title: &str, category: &str) -> LiveStatus {
    LiveStatus {
        status: LiveStatusType::Open,
        live_title: title.to_string(),
        category_type: None,
        live_category: Some(category.to_string()),
        live_category_value: category.to_string(),
        adult: false,
    }
}

#[test]
fn short_session_is_discarded() {
    let mut s = Supervisor::new();
    s.start_recording(snapshot("A", "x"), true);
    assert!(s.is_recording());
    assert!(matches!(s.fetcher_exited(14), SessionEnd::Discard));
    assert!(!s.is_recording());
}

#[test]
fn long_session_finalizes_sorted_chapters() {
    let mut s = Supervisor::new();
    s.start_recording(snapshot("A", "x"), false);
    assert!(s.observe(20, snapshot("B", "x")));
    assert!(!s.observe(25, snapshot("B", "x")));
    assert!(s.observe(90, snapshot("C", "y")));
    match s.fetcher_exited(MIN_SESSION_SECS) {
        SessionEnd::Finalize(chapters) => {
            let got: Vec<(u64, String)> = chapters
                .iter()
                .map(|c| (c.elapsed, c.status.live_title.clone()))
                .collect();
            assert_eq!(
                got,
                vec![(0, "A".to_string()), (20, "B".to_string()), (90, "C".to_string())]
            );
        }
        SessionEnd::Discard => panic!("a long session is kept"),
    }
    assert!(!s.is_recording());
}

#[test]
fn stop_while_idle_exits() {
    let mut s = Supervisor::new();
    assert!(matches!(s.stop(), StopAction::Exit));
}

#[test]
fn stop_with_transcoder_finalizes() {
    let mut s = Supervisor::new();
    s.start_recording(snapshot("A", "x"), true);
    match s.stop() {
        StopAction::Terminate { finalize: Some(chapters) } => assert_eq!(chapters.len(), 1),
        _ => panic!("chapters are written when a transcoder runs"),
    }
    assert!(!s.is_recording());
}

#[test]
fn stop_without_transcoder_writes_nothing() {
    let mut s = Supervisor::new();
    s.start_recording(snapshot("A", "x"), false);
    assert!(matches!(s.stop(), StopAction::Terminate { finalize: None }));
}

#[test]
fn timing_constants() {
    assert_eq!(MIN_SESSION_SECS, 15);
    assert_eq!(TICK_DELAY_SECS, 5);
}
