use favis::tracker::{FileTracker, RunPhase};
use std::sync::atomic::{AtomicBool, Ordering};
use std::sync::Arc;

fn fresh_tracker() -> (FileTracker, Arc<AtomicBool>) {
    let flag = Arc::new(AtomicBool::new(false));
    (FileTracker::new_with_cancellation(flag.clone()), flag)
}

#[test]
fn a_new_tracker_is_active_and_empty() {
    let (tracker, _) = fresh_tracker();
    assert_eq!(tracker.phase(), RunPhase::Active);
    assert!(tracker.files().is_empty());
    assert!(!tracker.is_cancelled());
}

#[test]
fn track_appends_in_order() {
    let (mut tracker, _) = fresh_tracker();
    tracker.track("favicon-16x16.png".to_string());
    tracker.track("favicon-32x32.png".to_string());
    tracker.track("favicon-16x16.png".to_string());
    assert_eq!(
        tracker.files(),
        &vec![
            "favicon-16x16.png".to_string(),
            "favicon-32x32.png".to_string(),
            "favicon-16x16.png".to_string()
        ]
    );
    assert_eq!(tracker.phase(), RunPhase::Active);
}

#[test]
fn is_cancelled_reads_the_shared_flag() {
    let (tracker, flag) = fresh_tracker();
    assert!(!tracker.is_cancelled());
    flag.store(true, Ordering::Relaxed);
    assert!(tracker.is_cancelled());
    flag.store(false, Ordering::Relaxed);
    assert!(!tracker.is_cancelled());
}

#[test]
fn commit_forgets_the_paths_and_asks_for_no_deletion() {
    let (mut tracker, _) = fresh_tracker();
    tracker.track("a.png".to_string());
    tracker.track("favicon.ico".to_string());
    tracker.commit();
    assert_eq!(tracker.phase(), RunPhase::Committed);
    assert!(tracker.files().is_empty());
}

#[test]
fn rollback_hands_out_every_path() {
    let (mut tracker, _) = fresh_tracker();
    tracker.track("a.png".to_string());
    tracker.track("b.png".to_string());
    let doomed = tracker.rollback();
    assert_eq!(doomed, vec!["a.png".to_string(), "b.png".to_string()]);
    assert_eq!(tracker.phase(), RunPhase::RolledBack);
    assert!(tracker.files().is_empty());
}

#[test]
fn rollback_of_an_empty_tracker_hands_out_nothing() {
    let (mut tracker, _) = fresh_tracker();
    assert_eq!(tracker.rollback(), Vec::<String>::new());
    assert_eq!(tracker.phase(), RunPhase::RolledBack);
}

#[test]
fn observe_rolls_back_only_on_cancellation() {
    let (mut tracker, _) = fresh_tracker();
    tracker.track("a.png".to_string());
    assert_eq!(tracker.observe(false), None);
    assert_eq!(tracker.phase(), RunPhase::Active);
    assert_eq!(tracker.files(), &vec!["a.png".to_string()]);
    assert_eq!(tracker.observe(true), Some(vec!["a.png".to_string()]));
    assert_eq!(tracker.phase(), RunPhase::RolledBack);
    assert!(tracker.files().is_empty());
}

#[test]
fn check_cancelled_follows_the_flag() {
    let (mut tracker, flag) = fresh_tracker();
    tracker.track("a.png".to_string());
    assert_eq!(tracker.check_cancelled(), None);
    assert_eq!(tracker.phase(), RunPhase::Active);
    flag.store(true, Ordering::Relaxed);
    assert_eq!(tracker.check_cancelled(), Some(vec!["a.png".to_string()]));
    assert_eq!(tracker.phase(), RunPhase::RolledBack);
}

#[test]
fn each_tracker_watches_the_flag_it_was_given() {
    let (first, first_flag) = fresh_tracker();
    let (second, second_flag) = fresh_tracker();
    first_flag.store(true, Ordering::Relaxed);
    assert!(first.is_cancelled());
    assert!(!second.is_cancelled());
    second_flag.store(true, Ordering::Relaxed);
    first_flag.store(false, Ordering::Relaxed);
    assert!(!first.is_cancelled());
    assert!(second.is_cancelled());
}
