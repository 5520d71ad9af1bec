use rand::rngs::StdRng;
use rand::SeedableRng;
use std::collections::BTreeSet;
use tidal_tui::player::queue::{PlaybackQueue, QueueEntry};

fn entry(id: &str) -> QueueEntry {
    QueueEntry {
        track_id: id.into(),
        title: id.into(),
        artist: String::new(),
        album: String::new(),
        duration: 0,
        stream_url: String::new(),
    }
}

fn ids(q: &PlaybackQueue) -> (Vec<String>, Option<String>, Vec<String>) {
    (
        q.history.iter().map(|e| e.track_id.clone()).collect(),
        q.current.as_ref().map(|e| e.track_id.clone()),
        q.upcoming.iter().map(|e| e.track_id.clone()).collect(),
    )
}

#[test]
fn advance_moves_current_to_history() {
    let mut q = PlaybackQueue::new();
    q.current = Some(entry("a"));
    q.upcoming.push_back(entry("b"));
    q.advance();
    assert_eq!(q.current.as_ref().unwrap().track_id, "b");
    assert_eq!(q.history.len(), 1);
    assert_eq!(q.history[0].track_id, "a");
}

#[test]
fn advance_on_empty_upcoming_returns_none() {
    let mut q = PlaybackQueue::new();
    q.current = Some(entry("a"));
    let result = q.advance();
    assert!(result.is_none());
    assert!(q.current.is_none());
    assert_eq!(q.history.len(), 1);
    assert_eq!(q.history[0].track_id, "a");
}

#[test]
fn advance_with_no_current_pops_upcoming() {
    let mut q = PlaybackQueue::new();
    q.upcoming.push_back(entry("b"));
    q.upcoming.push_back(entry("c"));
    q.advance();
    assert_eq!(q.current.as_ref().unwrap().track_id, "b");
    assert_eq!(q.upcoming.len(), 1);
    assert!(q.history.is_empty());
}

#[test]
fn step_back_restores_previous() {
    let mut q = PlaybackQueue::new();
    q.history.push(entry("a"));
    q.current = Some(entry("b"));
    q.step_back();
    assert_eq!(q.current.as_ref().unwrap().track_id, "a");
    assert_eq!(q.upcoming[0].track_id, "b");
    assert!(q.history.is_empty());
}

#[test]
fn step_back_with_no_history_is_noop() {
    let mut q = PlaybackQueue::new();
    q.current = Some(entry("a"));
    let result = q.step_back();
    // No history -> current unchanged, nothing moved
    assert!(result.is_some());
    assert_eq!(q.current.as_ref().unwrap().track_id, "a");
    assert!(q.upcoming.is_empty());
}

#[test]
fn restart_cycle_rebuilds_playlist() {
    let mut q = PlaybackQueue::new();
    q.history.push(entry("a"));
    q.history.push(entry("b"));
    q.current = Some(entry("c"));

    q.restart_cycle();

    assert_eq!(q.current.as_ref().unwrap().track_id, "a");
    assert_eq!(q.upcoming[0].track_id, "b");
    assert_eq!(q.upcoming[1].track_id, "c");
    assert!(q.history.is_empty());
}

#[test]
fn shuffle_upcoming_preserves_length_and_membership() {
    let mut q = PlaybackQueue::new();
    q.upcoming.push_back(entry("a"));
    q.upcoming.push_back(entry("b"));
    q.upcoming.push_back(entry("c"));

    let before: BTreeSet<_> = q.upcoming.iter().map(|e| e.track_id.clone()).collect();
    q.shuffle_upcoming(&mut StdRng::from_entropy());
    let after: BTreeSet<_> = q.upcoming.iter().map(|e| e.track_id.clone()).collect();

    assert_eq!(q.upcoming.len(), 3);
    assert_eq!(before, after);
}

#[test]
fn shuffle_upcoming_keeps_current_and_history() {
    let mut q = PlaybackQueue::new();
    q.history.push(entry("h"));
    q.current = Some(entry("c"));
    for id in ["u1", "u2", "u3", "u4"] {
        q.upcoming.push_back(entry(id));
    }
    q.shuffle_upcoming(&mut StdRng::from_entropy());
    let (history, current, mut upcoming) = ids(&q);
    upcoming.sort();
    assert_eq!(history, vec!["h".to_string()]);
    assert_eq!(current, Some("c".to_string()));
    assert_eq!(upcoming, vec!["u1", "u2", "u3", "u4"]);
}

#[test]
fn step_back_undoes_advance() {
    let mut q = PlaybackQueue::new();
    q.history.push(entry("a"));
    q.current = Some(entry("b"));
    q.upcoming.push_back(entry("c"));
    q.upcoming.push_back(entry("d"));
    let before = ids(&q);
    let next = q.advance().map(|e| e.track_id.clone());
    assert_eq!(next, Some("c".to_string()));
    let back = q.step_back().map(|e| e.track_id.clone());
    assert_eq!(back, Some("b".to_string()));
    assert_eq!(ids(&q), before);
}

#[test]
fn advance_keeps_play_order() {
    let mut q = PlaybackQueue::new();
    q.history.push(entry("a"));
    q.upcoming.push_back(entry("b"));
    q.upcoming.push_back(entry("c"));
    q.advance();
    q.advance();
    let (history, current, upcoming) = ids(&q);
    assert_eq!(history, vec!["a".to_string(), "b".to_string()]);
    assert_eq!(current, Some("c".to_string()));
    assert!(upcoming.is_empty());
}

#[test]
fn restart_cycle_on_empty_queue_returns_none() {
    let mut q = PlaybackQueue::new();
    assert!(q.restart_cycle().is_none());
    assert!(q.current.is_none());
    assert!(q.upcoming.is_empty());
    assert!(q.history.is_empty());
}

#[test]
fn restart_cycle_appends_after_remaining_upcoming() {
    let mut q = PlaybackQueue::new();
    q.history.push(entry("a"));
    q.current = Some(entry("b"));
    q.upcoming.push_back(entry("x"));
    let first = q.restart_cycle().map(|e| e.track_id.clone());
    assert_eq!(first, Some("a".to_string()));
    let (history, current, upcoming) = ids(&q);
    assert!(history.is_empty());
    assert_eq!(current, Some("a".to_string()));
    assert_eq!(upcoming, vec!["x".to_string(), "b".to_string()]);
}

#[test]
fn default_queue_is_empty() {
    let q = PlaybackQueue::default();
    assert!(q.current.is_none());
    assert!(q.upcoming.is_empty());
    assert!(q.history.is_empty());
}

#[test]
fn shuffle_upcoming_reorders_a_long_queue() {
    let mut q = PlaybackQueue::new();
    let ids: Vec<String> = (0..12).map(|i| format!("t{i}")).collect();
    for id in &ids {
        q.upcoming.push_back(entry(id));
    }
    q.shuffle_upcoming(&mut StdRng::seed_from_u64(7));
    let after: Vec<String> = q.upcoming.iter().map(|e| e.track_id.clone()).collect();
    assert_ne!(after, ids);
    let mut sorted = after.clone();
    sorted.sort();
    let mut expected = ids.clone();
    expected.sort();
    assert_eq!(sorted, expected);
}
