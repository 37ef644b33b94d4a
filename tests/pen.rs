use std::time::Instant;

use rm_pad::device::DeviceProfile;
use rm_pad::event::{
    RawEvent, ABS_DISTANCE, ABS_PRESSURE, ABS_TILT_X, ABS_TILT_Y, ABS_X, ABS_Y, BTN_TOUCH, EV_ABS,
    EV_KEY, EV_SYN, SYN_REPORT,
};
use rm_pad::orientation::Orientation;
use rm_pad::palm::{update_palm_state, PalmState};
use rm_pad::pen::{PenFrame, PenFrameProcessor};

fn abs(code: u16, value: i32) -> RawEvent {
    RawEvent { event_type: EV_ABS, code, value }
}

fn syn() -> RawEvent {
    RawEvent { event_type: EV_SYN, code: SYN_REPORT, value: 0 }
}

fn run_frame(p: &mut PenFrameProcessor, evs: &[RawEvent], o: Orientation) -> PenFrame {
    let device = DeviceProfile::current();
    for ev in evs {
        assert!(p.handle_event(*ev, &device, o).is_none());
    }
    p.handle_event(syn(), &device, o).unwrap()
}

#[test]
fn pressure_transitions_drive_touch_key_and_palm_state() {
    let mut p = PenFrameProcessor::new();
    let mut palm = PalmState::new();
    let o = Orientation::LandscapeRight;
    let mut transitions = Vec::new();
    for pressure in [0, 100, 0] {
        let f = run_frame(&mut p, &[abs(ABS_PRESSURE, pressure)], o);
        if let Some(t) = f.touch_transition {
            update_palm_state(&mut palm, t, Instant::now());
            assert_eq!(f.events[0], RawEvent { event_type: EV_KEY, code: BTN_TOUCH, value: t as i32 });
        } else {
            assert!(f.events.iter().all(|e| e.event_type != EV_KEY));
        }
        transitions.push(f.touch_transition);
        if transitions.len() < 3 {
            assert!(palm.last_pen_up.is_none());
        }
    }
    assert_eq!(transitions, vec![None, Some(true), Some(false)]);
    assert!(!palm.pen_down);
    assert!(palm.last_pen_up.is_some());
}

#[test]
fn lift_time_is_stamped_only_when_the_pen_leaves() {
    let mut palm = PalmState::new();
    update_palm_state(&mut palm, false, Instant::now());
    assert!(!palm.pen_down);
    assert!(palm.last_pen_up.is_none());
    update_palm_state(&mut palm, true, Instant::now());
    assert!(palm.last_pen_up.is_none());
    let lift = Instant::now();
    update_palm_state(&mut palm, false, lift);
    assert_eq!(palm.last_pen_up, Some(lift));
    update_palm_state(&mut palm, false, lift + std::time::Duration::from_millis(5));
    assert_eq!(palm.last_pen_up, Some(lift));
}

#[test]
fn pen_down_is_recorded_without_lift_time() {
    let mut palm = PalmState::new();
    update_palm_state(&mut palm, true, Instant::now());
    assert!(palm.pen_down);
    assert!(palm.last_pen_up.is_none());
}

#[test]
fn position_and_tilt_are_transformed_and_put_first() {
    let mut p = PenFrameProcessor::new();
    let f = run_frame(
        &mut p,
        &[abs(ABS_X, 100), abs(ABS_Y, 200), abs(ABS_DISTANCE, 7), abs(ABS_TILT_X, 30), abs(ABS_TILT_Y, -40)],
        Orientation::Portrait,
    );
    assert_eq!(f.touch_transition, None);
    assert_eq!(
        f.events,
        vec![
            abs(ABS_TILT_X, -40),
            abs(ABS_TILT_Y, 30),
            abs(ABS_X, 200),
            abs(ABS_Y, 100),
            abs(ABS_DISTANCE, 7),
            syn(),
        ]
    );
}

#[test]
fn inverted_pen_uses_profile_maxima() {
    let mut p = PenFrameProcessor::new();
    let f = run_frame(&mut p, &[abs(ABS_X, 100), abs(ABS_Y, 200)], Orientation::LandscapeLeft);
    // RM2 pen range is 0..=20967 by 0..=15725.
    assert_eq!(f.events, vec![abs(ABS_X, 20867), abs(ABS_Y, 15525), syn()]);
}

#[test]
fn lone_axis_sample_is_dropped_at_frame_end() {
    let mut p = PenFrameProcessor::new();
    let f = run_frame(&mut p, &[abs(ABS_X, 100)], Orientation::LandscapeRight);
    assert_eq!(f.events, vec![syn()]);
    let f = run_frame(&mut p, &[abs(ABS_Y, 5)], Orientation::LandscapeRight);
    assert_eq!(f.events, vec![syn()]);
}

#[test]
fn last_pressure_sample_decides_touching() {
    let mut p = PenFrameProcessor::new();
    let f = run_frame(&mut p, &[abs(ABS_PRESSURE, 50), abs(ABS_PRESSURE, 0)], Orientation::LandscapeRight);
    assert_eq!(f.touch_transition, None);
    let f = run_frame(&mut p, &[abs(ABS_PRESSURE, 0), abs(ABS_PRESSURE, 9)], Orientation::LandscapeRight);
    assert_eq!(f.touch_transition, Some(true));
    // A frame without a pressure sample counts as not touching.
    let f = run_frame(&mut p, &[abs(ABS_DISTANCE, 3)], Orientation::LandscapeRight);
    assert_eq!(f.touch_transition, Some(false));
    assert!(!p.touch_down);
}

#[test]
fn out_of_range_samples_do_not_overflow() {
    let mut p = PenFrameProcessor::new();
    let f = run_frame(
        &mut p,
        &[abs(ABS_X, i32::MIN), abs(ABS_Y, 10), abs(ABS_TILT_X, i32::MIN), abs(ABS_TILT_Y, 1)],
        Orientation::LandscapeLeft,
    );
    assert_eq!(
        f.events,
        vec![abs(ABS_TILT_X, 6400), abs(ABS_TILT_Y, -1), abs(ABS_X, 20967), abs(ABS_Y, 15715), syn()]
    );
}
