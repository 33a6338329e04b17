use typewriter::watcher::{CancellationWatcher, InputEvent, WatcherAction};

#[test]
fn new_watcher_is_armed() {
    assert!(!CancellationWatcher::new().is_triggered());
}

#[test]
fn primary_button_press_terminates() {
    let mut watcher = CancellationWatcher::new();
    assert_eq!(watcher.observe(InputEvent::PrimaryButtonPress), WatcherAction::Terminate);
    assert!(watcher.is_triggered());
}

#[test]
fn other_events_are_ignored() {
    let mut watcher = CancellationWatcher::new();
    for _ in 0..5 {
        assert_eq!(watcher.observe(InputEvent::Other), WatcherAction::KeepListening);
        assert!(!watcher.is_triggered());
    }
    assert_eq!(watcher.observe(InputEvent::PrimaryButtonPress), WatcherAction::Terminate);
}

#[test]
fn triggered_watcher_terminates_once() {
    let mut watcher = CancellationWatcher::new();
    assert_eq!(watcher.observe(InputEvent::PrimaryButtonPress), WatcherAction::Terminate);
    assert_eq!(watcher.observe(InputEvent::PrimaryButtonPress), WatcherAction::KeepListening);
    assert_eq!(watcher.observe(InputEvent::Other), WatcherAction::KeepListening);
    assert!(watcher.is_triggered());
}
