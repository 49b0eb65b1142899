use pawo::lifecycle::{Action, Event, Lifecycle, INITIAL_SIZE, WINDOW_TITLE};

fn ready() -> Lifecycle {
    let mut s = Lifecycle::new();
    assert!(s.resumed());
    s.window_opened();
    s.initialized(INITIAL_SIZE, INITIAL_SIZE);
    s
}

#[test]
fn window_settings() {
    assert_eq!(WINDOW_TITLE, "pawo the game");
    assert_eq!(INITIAL_SIZE, 128);
}

#[test]
fn only_first_resume_creates_window() {
    let mut s = Lifecycle::new();
    assert!(!s.window_created);
    assert!(s.resumed());
    s.window_opened();
    assert!(s.window_created);
    for _ in 0..10 {
        assert!(!s.resumed());
    }
    assert!(s.window_created);
}

#[test]
fn failed_window_creation_is_retried() {
    let mut s = Lifecycle::new();
    assert!(s.resumed());
    assert!(s.resumed());
    assert!(!s.window_created);
    s.window_opened();
    assert!(!s.resumed());
}

#[test]
fn initialized_records_size() {
    let s = ready();
    assert!(s.ready);
    assert_eq!((s.width, s.height), (128, 128));
}

#[test]
fn resize_event_is_forwarded() {
    let mut s = ready();
    let a = s.window_event(Event::Resized { width: 800, height: 600 });
    assert_eq!(a, Action::Resize { width: 800, height: 600 });
    assert_eq!((s.width, s.height), (800, 600));
}

#[test]
fn minimize_event_is_forwarded_unchanged() {
    let mut s = ready();
    s.window_event(Event::Resized { width: 800, height: 600 });
    let a = s.window_event(Event::Resized { width: 0, height: 0 });
    assert_eq!(a, Action::Resize { width: 0, height: 0 });
}

#[test]
fn close_exits_exactly_once() {
    let mut s = ready();
    assert_eq!(s.window_event(Event::CloseRequested), Action::Exit);
    assert!(s.exited);
    assert_eq!(s.window_event(Event::CloseRequested), Action::Ignore);
    assert_eq!(s.window_event(Event::Resized { width: 10, height: 10 }), Action::Ignore);
    assert_eq!(s.window_event(Event::RedrawRequested), Action::Ignore);
    assert_eq!((s.width, s.height), (128, 128));
}

#[test]
fn every_event_kind_is_handled() {
    let events = [
        Event::CloseRequested,
        Event::Resized { width: 3, height: 4 },
        Event::RedrawRequested,
        Event::Other,
    ];
    let expected = [Action::Exit, Action::Resize { width: 3, height: 4 }, Action::Ignore, Action::Ignore];
    for (e, want) in events.iter().zip(expected.iter()) {
        let mut s = ready();
        assert_eq!(s.window_event(*e), *want);
    }
}

#[test]
fn resizes_before_surface_are_ignored() {
    let mut s = Lifecycle::new();
    assert_eq!(s.window_event(Event::Resized { width: 5, height: 5 }), Action::Ignore);
    assert_eq!(s.window_event(Event::RedrawRequested), Action::Ignore);
    assert!(s.resumed());
    assert_eq!(s.window_event(Event::Resized { width: 5, height: 5 }), Action::Ignore);
    assert_eq!((s.width, s.height), (0, 0));
    assert!(!s.exited);
}

#[test]
fn close_before_surface_exits() {
    let mut s = Lifecycle::new();
    assert_eq!(s.window_event(Event::CloseRequested), Action::Exit);
    assert!(s.exited);
    assert_eq!(s.window_event(Event::CloseRequested), Action::Ignore);
    let mut t = Lifecycle::new();
    assert!(t.resumed());
    assert_eq!(t.window_event(Event::CloseRequested), Action::Exit);
}
