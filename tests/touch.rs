use rm_pad::device::DeviceProfile;
use rm_pad::event::{
    RawEvent, ABS_MT_POSITION_X, ABS_MT_POSITION_Y, ABS_MT_SLOT, ABS_MT_TRACKING_ID,
    BTN_TOOL_DOUBLETAP, BTN_TOOL_FINGER, BTN_TOOL_QUADTAP, BTN_TOOL_TRIPLETAP, BTN_TOUCH, EV_ABS,
    EV_KEY, EV_SYN, SYN_REPORT,
};
use rm_pad::orientation::Orientation;
use rm_pad::touch::{build_tool_key_events, release_all_tool_keys, SlotReport, TouchFrame, TouchReassembler};

fn abs(code: u16, value: i32) -> RawEvent {
    RawEvent { event_type: EV_ABS, code, value }
}

fn syn() -> RawEvent {
    RawEvent { event_type: EV_SYN, code: SYN_REPORT, value: 0 }
}

fn feed(r: &mut TouchReassembler, evs: &[RawEvent]) -> bool {
    let mut complete = false;
    for ev in evs {
        complete = r.handle_event(*ev);
    }
    complete
}

fn frame(r: &mut TouchReassembler, evs: &[RawEvent], suppress: bool) -> TouchFrame {
    let mut all = evs.to_vec();
    all.push(syn());
    assert!(feed(r, &all));
    let device = DeviceProfile::current();
    r.finish_frame(suppress, &device, Orientation::LandscapeRight)
}

fn key_values(f: &TouchFrame) -> Vec<(u16, i32)> {
    f.keys.iter().map(|e| (e.code, e.value)).collect()
}

fn two_fingers() -> Vec<RawEvent> {
    vec![
        abs(ABS_MT_SLOT, 0),
        abs(ABS_MT_TRACKING_ID, 5),
        abs(ABS_MT_POSITION_X, 100),
        abs(ABS_MT_POSITION_Y, 200),
        abs(ABS_MT_SLOT, 1),
        abs(ABS_MT_TRACKING_ID, 6),
        abs(ABS_MT_POSITION_X, 300),
        abs(ABS_MT_POSITION_Y, 400),
    ]
}

#[test]
fn two_finger_touch_down() {
    let mut r = TouchReassembler::new();
    let f = frame(&mut r, &two_fingers(), false);
    assert_eq!(f.contact_count, 2);
    assert_eq!(
        f.slots,
        vec![
            SlotReport::Start { slot: 0, tracking_id: 1, x: 200, y: 100 },
            SlotReport::Start { slot: 1, tracking_id: 2, x: 400, y: 300 },
        ]
    );
    assert_eq!(f.pointer, Some((200, 100)));
    assert_eq!(
        key_values(&f),
        vec![
            (BTN_TOUCH, 1),
            (BTN_TOOL_FINGER, 0),
            (BTN_TOOL_DOUBLETAP, 1),
            (BTN_TOOL_TRIPLETAP, 0),
            (BTN_TOOL_QUADTAP, 0)
        ]
    );
    assert!(f.keys.iter().all(|e| e.event_type == EV_KEY));
}

#[test]
fn contact_count_follows_tracking_ids() {
    let mut r = TouchReassembler::new();
    let f = frame(&mut r, &two_fingers(), false);
    assert_eq!(f.contact_count, 2);
    let f = frame(&mut r, &[abs(ABS_MT_SLOT, 0), abs(ABS_MT_TRACKING_ID, -1)], false);
    assert_eq!(f.contact_count, 1);
    assert_eq!(f.slots, vec![SlotReport::Release { slot: 0 }, SlotReport::Move { slot: 1, x: 400, y: 300 }]);
    assert_eq!(r.frame.contact_count, 1);
    let f = frame(&mut r, &[abs(ABS_MT_SLOT, 1), abs(ABS_MT_TRACKING_ID, -1)], false);
    assert_eq!(f.contact_count, 0);
    assert_eq!(f.slots, vec![SlotReport::Release { slot: 1 }]);
    assert_eq!(f.pointer, None);
    assert_eq!(key_values(&f)[0], (BTN_TOUCH, 0));
}

#[test]
fn batched_ids_then_positions_are_reassigned_in_slot_order() {
    let mut r = TouchReassembler::new();
    // Both ids first, then both positions without a slot change: the
    // positions land on slot 1 as they arrive, then get reassigned.
    let evs = [
        abs(ABS_MT_SLOT, 0),
        abs(ABS_MT_TRACKING_ID, 5),
        abs(ABS_MT_SLOT, 1),
        abs(ABS_MT_TRACKING_ID, 6),
        abs(ABS_MT_POSITION_X, 100),
        abs(ABS_MT_POSITION_Y, 200),
        abs(ABS_MT_POSITION_X, 300),
        abs(ABS_MT_POSITION_Y, 400),
    ];
    let f = frame(&mut r, &evs, false);
    assert_eq!(r.slots.x[0], Some(100));
    assert_eq!(r.slots.y[0], Some(200));
    assert_eq!(r.slots.x[1], Some(300));
    assert_eq!(r.slots.y[1], Some(400));
    assert_eq!(f.contact_count, 2);
}

#[test]
fn mismatched_counts_keep_incremental_positions() {
    let mut r = TouchReassembler::new();
    let evs = [
        abs(ABS_MT_SLOT, 0),
        abs(ABS_MT_TRACKING_ID, 5),
        abs(ABS_MT_SLOT, 1),
        abs(ABS_MT_TRACKING_ID, 6),
        abs(ABS_MT_POSITION_X, 300),
        abs(ABS_MT_POSITION_Y, 400),
    ];
    let f = frame(&mut r, &evs, false);
    assert_eq!(r.slots.x[0], None);
    assert_eq!(r.slots.x[1], Some(300));
    assert_eq!(r.slots.y[1], Some(400));
    // Slot 0 has no position yet: it gets no report and no tracking id.
    assert_eq!(f.slots, vec![SlotReport::Start { slot: 1, tracking_id: 1, x: 400, y: 300 }]);
    assert_eq!(r.slots.tracking_id[0], None);
    assert_eq!(f.pointer, None);
}

#[test]
fn identical_frames_keep_ids_and_positions() {
    let mut r = TouchReassembler::new();
    let first = frame(&mut r, &two_fingers(), false);
    let ids = r.slots.tracking_id;
    let second = frame(&mut r, &[], false);
    assert_eq!(r.slots.tracking_id, ids);
    assert_eq!(
        second.slots,
        vec![SlotReport::Move { slot: 0, x: 200, y: 100 }, SlotReport::Move { slot: 1, x: 400, y: 300 }]
    );
    assert_eq!(first.pointer, second.pointer);
    assert_eq!(r.next_tracking_id, 2);
}

#[test]
fn pen_down_suppresses_and_releases_once() {
    let mut r = TouchReassembler::new();
    frame(&mut r, &two_fingers(), false);
    let f = frame(&mut r, &[], true);
    assert_eq!(f.contact_count, 0);
    assert_eq!(f.slots, vec![SlotReport::Release { slot: 0 }, SlotReport::Release { slot: 1 }]);
    assert_eq!(f.pointer, None);
    assert!(f.keys.iter().all(|e| e.value == 0));
    let f = frame(&mut r, &[], true);
    assert_eq!(f.contact_count, 0);
    assert!(f.slots.is_empty());
    // After suppression ends, the contacts restart with new ids.
    let f = frame(&mut r, &[], false);
    assert_eq!(
        f.slots,
        vec![
            SlotReport::Start { slot: 0, tracking_id: 3, x: 200, y: 100 },
            SlotReport::Start { slot: 1, tracking_id: 4, x: 400, y: 300 },
        ]
    );
}

#[test]
fn slot_ids_are_clamped() {
    let mut r = TouchReassembler::new();
    let f = frame(
        &mut r,
        &[abs(ABS_MT_SLOT, 99), abs(ABS_MT_TRACKING_ID, 1), abs(ABS_MT_POSITION_X, 5), abs(ABS_MT_POSITION_Y, 6)],
        false,
    );
    assert_eq!(r.frame.current_slot, 15);
    assert_eq!(f.slots, vec![SlotReport::Start { slot: 15, tracking_id: 1, x: 6, y: 5 }]);
    frame(&mut r, &[abs(ABS_MT_SLOT, -3)], false);
    assert_eq!(r.frame.current_slot, 0);
}

#[test]
fn position_without_tracking_id_activates_slot() {
    let mut r = TouchReassembler::new();
    let f = frame(&mut r, &[abs(ABS_MT_POSITION_X, 7), abs(ABS_MT_POSITION_Y, 8)], false);
    assert_eq!(f.contact_count, 1);
    assert!(r.slots.active[0]);
}

#[test]
fn positions_are_clamped_to_device_range() {
    let mut r = TouchReassembler::new();
    let f = frame(
        &mut r,
        &[abs(ABS_MT_TRACKING_ID, 1), abs(ABS_MT_POSITION_X, -50), abs(ABS_MT_POSITION_Y, 99999)],
        false,
    );
    // RM2 touch range is 0..=1403 by 0..=1871; landscape-right swaps axes.
    assert_eq!(f.slots, vec![SlotReport::Start { slot: 0, tracking_id: 1, x: 1871, y: 0 }]);
}

#[test]
fn key_events_are_not_slot_events() {
    let mut r = TouchReassembler::new();
    assert!(!r.handle_event(RawEvent { event_type: EV_KEY, code: BTN_TOUCH, value: 1 }));
    assert_eq!(r.frame.contact_count, 0);
}

#[test]
fn tool_keys_by_contact_count() {
    let pressed = |n: i32| -> Vec<u16> {
        build_tool_key_events(n).iter().skip(1).filter(|e| e.value == 1).map(|e| e.code).collect()
    };
    assert_eq!(pressed(0), Vec::<u16>::new());
    assert_eq!(pressed(1), vec![BTN_TOOL_FINGER]);
    assert_eq!(pressed(2), vec![BTN_TOOL_DOUBLETAP]);
    assert_eq!(pressed(3), vec![BTN_TOOL_TRIPLETAP]);
    assert_eq!(pressed(4), vec![BTN_TOOL_QUADTAP]);
    assert_eq!(pressed(7), vec![BTN_TOOL_QUADTAP]);
    assert_eq!(build_tool_key_events(3)[0].value, 1);
    assert_eq!(release_all_tool_keys(), build_tool_key_events(0));
    assert!(release_all_tool_keys().iter().all(|e| e.value == 0));
}
