use std::time::{Duration, Instant};

use rm_pad::config::Config;
use rm_pad::orientation::Orientation;
use rm_pad::palm::{create_palm_state, palm_suppression, should_suppress_palm, PalmState};

fn config(touch_only: bool, pen_only: bool, no_palm_rejection: bool) -> Config {
    Config {
        host: "h".to_string(),
        key_path: None,
        password: None,
        pen_device: "p".to_string(),
        touch_device: "t".to_string(),
        touch_only,
        pen_only,
        grab_input: false,
        no_palm_rejection,
        palm_grace_ms: 500,
        orientation: Orientation::LandscapeRight,
    }
}

#[test]
fn grace_window_boundaries() {
    let grace = 500u64;
    assert!(palm_suppression(true, None, grace));
    assert!(palm_suppression(false, Some((grace - 1) as u128), grace));
    assert!(!palm_suppression(false, Some(grace as u128), grace));
    assert!(!palm_suppression(false, Some((grace + 1) as u128), grace));
    assert!(!palm_suppression(false, None, grace));
}

#[test]
fn suppression_from_shared_state() {
    let mut s = PalmState::new();
    assert!(!should_suppress_palm(&s, 500));
    s.pen_down = true;
    assert!(should_suppress_palm(&s, 500));
    s.pen_down = false;
    s.last_pen_up = Some(Instant::now());
    assert!(should_suppress_palm(&s, 60_000));
    s.last_pen_up = Some(Instant::now() - Duration::from_millis(2_000));
    assert!(!should_suppress_palm(&s, 500));
}

#[test]
fn palm_state_only_with_both_pipelines() {
    assert!(create_palm_state(&config(false, false, false)).is_some());
    assert!(create_palm_state(&config(true, false, false)).is_none());
    assert!(create_palm_state(&config(false, true, false)).is_none());
    assert!(create_palm_state(&config(false, false, true)).is_none());
    let s = create_palm_state(&config(false, false, false)).unwrap();
    assert!(!s.pen_down && s.last_pen_up.is_none());
}
