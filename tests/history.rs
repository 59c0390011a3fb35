use digmbot::volatile_state::{History, HistoryEntry, NotifyTimestamp, VolatileState};

fn entry(author_id: u64, name: &str, content: &str) -> HistoryEntry {
    HistoryEntry {
        author_id,
        author_name: name.to_string(),
        human_format_content: content.to_string(),
    }
}

fn contents(h: &History, channel: u64) -> Vec<String> {
    h.get(channel)
        .map(|v| v.iter().map(|e| e.human_format_content.clone()).collect())
        .unwrap_or_default()
}

#[test]
fn cap_fifty_after_sixty_pushes_keeps_most_recent_in_order() {
    let mut h = History::new();
    h.backfill(7, Vec::new());
    for i in 0..60 {
        h.push(7, entry(1, "a", &format!("m{}", i)), 50);
    }
    let got = contents(&h, 7);
    let want: Vec<String> = (10..60).map(|i| format!("m{}", i)).collect();
    assert_eq!(got, want);
}

#[test]
fn pushes_never_exceed_cap() {
    let mut h = History::new();
    for i in 0..30 {
        h.push(1, entry(1, "a", &format!("x{}", i)), 5);
        h.push(2, entry(2, "b", &format!("y{}", i)), 3);
        assert!(h.get(1).unwrap().len() <= 5);
        assert!(h.get(2).unwrap().len() <= 3);
    }
    assert_eq!(contents(&h, 2), vec!["y27", "y28", "y29"]);
}

#[test]
fn cap_zero_keeps_nothing() {
    let mut h = History::new();
    h.push(3, entry(1, "a", "hello"), 0);
    assert!(h.is_backfilled(3));
    assert_eq!(h.get(3).unwrap().len(), 0);
}

#[test]
fn backfill_reverses_newest_first_order() {
    let mut h = History::new();
    assert!(!h.is_backfilled(9));
    assert!(h.get(9).is_none());
    h.backfill(9, vec![entry(1, "a", "newest"), entry(1, "a", "middle"), entry(1, "a", "oldest")]);
    assert!(h.is_backfilled(9));
    assert_eq!(contents(&h, 9), vec!["oldest", "middle", "newest"]);
}

#[test]
fn backfill_happens_once_per_channel() {
    let mut h = History::new();
    h.backfill(4, vec![entry(1, "a", "first")]);
    let before = contents(&h, 4);
    h.backfill(4, vec![entry(1, "a", "other"), entry(1, "a", "more")]);
    assert_eq!(contents(&h, 4), before);
    assert_eq!(contents(&h, 4), contents(&h, 4));
}

#[test]
fn failed_backfill_gives_empty_history() {
    let mut h = History::new();
    h.backfill(5, Vec::new());
    assert!(h.is_backfilled(5));
    assert_eq!(h.get(5).unwrap().len(), 0);
    h.push(5, entry(2, "b", "hi"), 10);
    assert_eq!(contents(&h, 5), vec!["hi"]);
}

#[test]
fn notify_limiter_respects_cooldown() {
    let mut t = NotifyTimestamp::new();
    assert!(t.okay_to_notify(11, 1_000, 60));
    t.update_notify_timestamp(11, 1_000);
    assert!(!t.okay_to_notify(11, 1_000, 60));
    assert!(!t.okay_to_notify(11, 60_999, 60));
    assert!(t.okay_to_notify(11, 61_001, 60));
    assert!(t.okay_to_notify(12, 1_000, 60));
    // A clock reading before the last notification counts as no time passed.
    assert!(!t.okay_to_notify(11, 500, 1));
    assert!(!t.okay_to_notify(11, 500, 0));
    assert!(t.okay_to_notify(11, 1_001, 0));
}

#[test]
fn notify_limiter_needs_more_than_the_cooldown() {
    let mut t = NotifyTimestamp::new();
    t.update_notify_timestamp(1, 0);
    // Exactly the cooldown has passed: not yet.
    assert!(!t.okay_to_notify(1, 1_000, 1));
    assert!(t.okay_to_notify(1, 1_001, 1));
}

#[test]
fn volatile_state_starts_empty() {
    let v = VolatileState::new();
    assert!(!v.history.is_backfilled(1));
    assert!(v.notify_timestamp.okay_to_notify(1, 0, u64::MAX));
}
