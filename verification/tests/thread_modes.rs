use eng_on_esc::thread_modes::{states, NO_THREAD};

#[test]
fn unseen_threads_are_english() {
    let s = states();
    assert!(!s.is_korean(1));
    assert!(!s.is_korean(4242));
}

#[test]
fn hangul_toggles_the_foreground_thread() {
    let mut s = states();
    s.toggle(7);
    assert!(s.is_korean(7));
    assert!(!s.is_korean(8));
    s.toggle(7);
    assert!(!s.is_korean(7));
}

#[test]
fn escape_on_korean_thread_sends_and_resets() {
    let mut s = states();
    s.toggle(7);
    assert!(s.escape(7));
    assert!(!s.is_korean(7));
    assert!(!s.escape(7));
}

#[test]
fn escape_on_english_thread_sends_nothing() {
    let mut s = states();
    assert!(!s.escape(9));
    s.toggle(9);
    s.toggle(9);
    assert!(!s.escape(9));
}

#[test]
fn threads_are_tracked_separately() {
    let mut s = states();
    s.toggle(1);
    s.toggle(2);
    s.toggle(2);
    assert!(s.is_korean(1));
    assert!(!s.is_korean(2));
    assert!(!s.escape(2));
    assert!(s.is_korean(1));
    assert!(s.escape(1));
}

#[test]
fn no_foreground_thread_is_ignored() {
    let mut s = states();
    s.toggle(NO_THREAD);
    assert!(!s.is_korean(NO_THREAD));
    assert!(!s.escape(NO_THREAD));
    assert_eq!(NO_THREAD, 0);
}

#[test]
fn odd_number_of_presses_since_escape_means_korean() {
    let mut s = states();
    for _ in 0..5 {
        s.toggle(3);
    }
    assert!(s.escape(3));
    for _ in 0..4 {
        s.toggle(3);
    }
    assert!(!s.escape(3));
}

