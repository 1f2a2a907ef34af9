use nowplaying_status::reconcile::{Reconciler, TickAction};
use nowplaying_status::schedule::next_deadline;
use nowplaying_status::track::{SourceError, UnifiedTrack};

fn run(rec: &mut Reconciler, texts: &[&str]) -> Vec<String> {
    let mut sent = Vec::new();
    for t in texts {
        if let TickAction::Publish(x) = rec.decide_text(Some(t.to_string())) {
            sent.push(x.clone());
            rec.record(x, true);
        }
    }
    sent
}

#[test]
fn dedup_sends_each_change_once() {
    let mut rec = Reconciler::new();
    let sent = run(&mut rec, &["A", "A", "B", "B", "B"]);
    assert_eq!(sent, vec!["A".to_string(), "B".to_string()]);
    assert_eq!(rec.last_published, "B");
}

#[test]
fn same_text_twice_is_quiet() {
    let mut rec = Reconciler::new();
    assert_eq!(run(&mut rec, &["bio"]), vec!["bio".to_string()]);
    assert!(matches!(rec.decide_text(Some("bio".to_string())), TickAction::Skip));
}

#[test]
fn fetch_failure_is_isolated() {
    let mut rec = Reconciler::new();
    run(&mut rec, &["A"]);
    let action = rec.decide(Err(SourceError::Fetch("down".to_string())), "{title}", "none");
    assert!(matches!(action, TickAction::Skip));
    assert_eq!(rec.last_published, "A");
    let t = UnifiedTrack {
        artist: "x".to_string(),
        title: "B".to_string(),
        progress_ms: 0,
        duration_ms: 0,
    };
    match rec.decide(Ok(Some(t)), "{title}", "none") {
        TickAction::Publish(x) => assert_eq!(x, "B"),
        TickAction::Skip => panic!("the tick after a failure must publish"),
    }
}

#[test]
fn rejected_publish_is_retried() {
    let mut rec = Reconciler::new();
    let text = match rec.decide(Ok(None), "{title}", "nothing") {
        TickAction::Publish(x) => x,
        TickAction::Skip => panic!("first tick publishes"),
    };
    rec.record(text.clone(), false);
    assert_eq!(rec.last_published, "");
    assert!(matches!(rec.decide_text(Some(text)), TickAction::Publish(_)));
}

#[test]
fn first_tick_never_skips_nonempty_text() {
    let rec = Reconciler::new();
    assert!(matches!(rec.decide(Ok(None), "", "idle"), TickAction::Publish(_)));
    assert!(matches!(rec.decide_text(Some(String::new())), TickAction::Skip));
}

#[test]
fn on_time_cycle_keeps_grid() {
    assert_eq!(next_deadline(0, 1000, 0), 1000);
    assert_eq!(next_deadline(0, 1000, 999), 1000);
}

#[test]
fn missed_ticks_are_skipped() {
    // a cycle due at 0 that ran until 3500 waits for 4000, not 1000
    assert_eq!(next_deadline(0, 1000, 3500), 4000);
    assert_eq!(next_deadline(0, 1000, 1000), 2000);
    assert_eq!(next_deadline(500, 1000, 2600), 3500);
}

#[test]
fn slow_cycles_never_queue() {
    // every cycle takes 2.5 periods: cycles start at 0, 3000, 6000, ...
    let period = 1000;
    let mut deadline = 0;
    let mut starts = Vec::new();
    for _ in 0..5 {
        starts.push(deadline);
        let finished = deadline + 2500;
        deadline = next_deadline(deadline, period, finished);
    }
    assert_eq!(starts, vec![0, 3000, 6000, 9000, 12000]);
    for w in starts.windows(2) {
        assert!(w[1] - w[0] >= period);
    }
}
