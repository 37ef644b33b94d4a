//! Multi-touch frame reassembly: per-slot state fed by raw absolute-axis
//! events, and on each frame marker the decided frame for the sink.

use vstd::prelude::*;

use crate::device::DeviceProfile;
use crate::event::{
    key_event, RawEvent, ABS_MT_POSITION_X, ABS_MT_POSITION_Y, ABS_MT_SLOT, ABS_MT_TRACKING_ID,
    BTN_TOOL_DOUBLETAP, BTN_TOOL_FINGER, BTN_TOOL_QUADTAP, BTN_TOOL_TRIPLETAP, BTN_TOUCH, EV_ABS,
    EV_SYN, SYN_REPORT,
};
use crate::orientation::{touch_map, touch_dims, lemma_transforms_stay_in_bounds, Orientation};

verus! {

/// Number of hardware slots tracked; higher slot ids are clamped to the last.
pub const MT_SLOTS: usize = 16;

/// Per-slot contact state, indexed by hardware slot id.
pub struct SlotState {
    /// Most recent X sample of the contact in the slot.
    pub x: [Option<i32>; MT_SLOTS],
    /// Most recent Y sample of the contact in the slot.
    pub y: [Option<i32>; MT_SLOTS],
    /// Position last reported for the slot.
    pub last_x: [Option<i32>; MT_SLOTS],
    pub last_y: [Option<i32>; MT_SLOTS],
    /// A contact occupies the slot.
    pub active: [bool; MT_SLOTS],
    /// Output tracking id; `Some` exactly while the sink knows the contact as live.
    pub tracking_id: [Option<i32>; MT_SLOTS],
}

/// The slot arrays as sequences.
pub struct SlotsModel {
    pub x: Seq<Option<i32>>,
    pub y: Seq<Option<i32>>,
    pub last_x: Seq<Option<i32>>,
    pub last_y: Seq<Option<i32>>,
    pub active: Seq<bool>,
    pub tracking_id: Seq<Option<i32>>,
}

impl View for SlotState {
    type V = SlotsModel;

    open spec fn view(&self) -> SlotsModel {
        SlotsModel {
            x: self.x@,
            y: self.y@,
            last_x: self.last_x@,
            last_y: self.last_y@,
            active: self.active@,
            tracking_id: self.tracking_id@,
        }
    }
}

/// State rebuilt while one frame's events arrive.
pub struct FrameState {
    /// Slot that the next per-slot event applies to.
    pub current_slot: usize,
    /// Number of active slots, kept as events arrive.
    pub contact_count: i32,
    /// `(x, y)` pairs in the order their Y sample arrived this frame.
    pub pending_positions: Vec<(i32, i32)>,
}

/// The frame state with plain integers.
pub struct FrameModel {
    pub current_slot: int,
    pub contact_count: int,
    pub pending: Seq<(i32, i32)>,
}

impl View for FrameState {
    type V = FrameModel;

    open spec fn view(&self) -> FrameModel {
        FrameModel {
            current_slot: self.current_slot as int,
            contact_count: self.contact_count as int,
            pending: self.pending_positions@,
        }
    }
}

/// Number of `true` entries among the first `n` of `a`.
pub open spec fn count_upto(a: Seq<bool>, n: int) -> nat
    decreases n,
{
    if n <= 0 {
        0
    } else {
        count_upto(a, n - 1) + if a[n - 1] {
            1nat
        } else {
            0nat
        }
    }
}

/// Number of active slots.
pub open spec fn count_active(m: SlotsModel) -> nat {
    count_upto(m.active, MT_SLOTS as int)
}

pub open spec fn slots_wf(m: SlotsModel) -> bool {
    &&& m.x.len() == MT_SLOTS
    &&& m.y.len() == MT_SLOTS
    &&& m.last_x.len() == MT_SLOTS
    &&& m.last_y.len() == MT_SLOTS
    &&& m.active.len() == MT_SLOTS
    &&& m.tracking_id.len() == MT_SLOTS
}

/// The cursor is a valid slot and the running contact count is the number
/// of active slots.
pub open spec fn frame_wf(m: SlotsModel, f: FrameModel) -> bool {
    &&& slots_wf(m)
    &&& 0 <= f.current_slot < MT_SLOTS
    &&& f.contact_count == count_active(m)
}

pub open spec fn clamp(v: int, lo: int, hi: int) -> int {
    if v < lo {
        lo
    } else if v > hi {
        hi
    } else {
        v
    }
}

/// Marks slot `c` active, counting it if it was not.
pub open spec fn activate(m: SlotsModel, f: FrameModel, c: int) -> (SlotsModel, FrameModel) {
    if m.active[c] {
        (m, f)
    } else {
        (
            SlotsModel { active: m.active.update(c, true), ..m },
            FrameModel { contact_count: f.contact_count + 1, ..f },
        )
    }
}

/// The slot's positions, current and last, all cleared.
pub open spec fn cleared(m: SlotsModel, c: int) -> SlotsModel {
    SlotsModel {
        x: m.x.update(c, None),
        y: m.y.update(c, None),
        last_x: m.last_x.update(c, None),
        last_y: m.last_y.update(c, None),
        ..m
    }
}

/// Effect of one absolute-axis event with the given code and value.
pub open spec fn abs_step(m: SlotsModel, f: FrameModel, code: u16, value: i32) -> (
    SlotsModel,
    FrameModel,
) {
    let c = f.current_slot;
    if code == ABS_MT_SLOT {
        (m, FrameModel { current_slot: clamp(value as int, 0, MT_SLOTS - 1), ..f })
    } else if code == ABS_MT_TRACKING_ID {
        if value >= 0 {
            if m.active[c] {
                (m, f)
            } else {
                (
                    SlotsModel {
                        active: m.active.update(c, true),
                        last_x: m.last_x.update(c, None),
                        last_y: m.last_y.update(c, None),
                        ..m
                    },
                    FrameModel { contact_count: f.contact_count + 1, ..f },
                )
            }
        } else {
            let m1 = cleared(SlotsModel { active: m.active.update(c, false), ..m }, c);
            if m.active[c] {
                (m1, FrameModel { contact_count: f.contact_count - 1, ..f })
            } else {
                (m1, f)
            }
        }
    } else if code == ABS_MT_POSITION_X {
        activate(SlotsModel { x: m.x.update(c, Some(value)), ..m }, f, c)
    } else if code == ABS_MT_POSITION_Y {
        let (m1, f1) = activate(SlotsModel { y: m.y.update(c, Some(value)), ..m }, f, c);
        match m.x[c] {
            Some(x) => (m1, FrameModel { pending: f1.pending.push((x, value)), ..f1 }),
            None => (m1, f1),
        }
    } else {
        (m, f)
    }
}

/// Effect of a sequence of absolute-axis events `(code, value)`.
pub open spec fn abs_steps(m: SlotsModel, f: FrameModel, evs: Seq<(u16, i32)>) -> (
    SlotsModel,
    FrameModel,
)
    decreases evs.len(),
{
    if evs.len() == 0 {
        (m, f)
    } else {
        let (m1, f1) = abs_steps(m, f, evs.drop_last());
        abs_step(m1, f1, evs.last().0, evs.last().1)
    }
}

pub proof fn lemma_count_bounds(a: Seq<bool>, n: int)
    ensures
        count_upto(a, n) <= if n < 0 {
            0
        } else {
            n
        },
    decreases n,
{
    if n > 0 {
        lemma_count_bounds(a, n - 1);
    }
}

pub proof fn lemma_count_mono(a: Seq<bool>, m: int, n: int)
    requires
        m <= n,
    ensures
        count_upto(a, m) <= count_upto(a, n),
    decreases n - m,
{
    if m < n {
        lemma_count_mono(a, m, n - 1);
    }
}

/// Changing entry `i` changes the count of every prefix that holds it by
/// the change of that entry alone.
pub proof fn lemma_count_update(a: Seq<bool>, i: int, v: bool, n: int)
    requires
        0 <= i < a.len(),
        n <= a.len(),
    ensures
        count_upto(a.update(i, v), n) + (if i < n && a[i] {
            1int
        } else {
            0int
        }) == count_upto(a, n) + (if i < n && v {
            1int
        } else {
            0int
        }),
    decreases n,
{
    if n > 0 {
        lemma_count_update(a, i, v, n - 1);
    }
}

/// An active slot is preceded by fewer active slots than there are in all.
pub proof fn lemma_rank_below_count(a: Seq<bool>, s: int, n: int)
    requires
        0 <= s < n,
        a[s],
    ensures
        count_upto(a, s) < count_upto(a, n),
{
    lemma_count_mono(a, s + 1, n);
}

/// One event keeps the running contact count equal to the number of
/// active slots, and the cursor within range.
pub proof fn lemma_abs_step_wf(m: SlotsModel, f: FrameModel, code: u16, value: i32)
    requires
        frame_wf(m, f),
    ensures
        frame_wf(abs_step(m, f, code, value).0, abs_step(m, f, code, value).1),
{
    let c = f.current_slot;
    lemma_count_update(m.active, c, true, MT_SLOTS as int);
    lemma_count_update(m.active, c, false, MT_SLOTS as int);
}

/// For every sequence of slot, tracking-id and position events, the running
/// contact count stays the number of active slots.
pub proof fn lemma_contact_count_is_active_slots(m: SlotsModel, f: FrameModel, evs: Seq<(u16, i32)>)
    requires
        frame_wf(m, f),
    ensures
        frame_wf(abs_steps(m, f, evs).0, abs_steps(m, f, evs).1),
        abs_steps(m, f, evs).1.contact_count == count_active(abs_steps(m, f, evs).0),
    decreases evs.len(),
{
    if evs.len() > 0 {
        lemma_contact_count_is_active_slots(m, f, evs.drop_last());
        let (m1, f1) = abs_steps(m, f, evs.drop_last());
        lemma_abs_step_wf(m1, f1, evs.last().0, evs.last().1);
    }
}

/// A tracking-id event leaves its slot active exactly when the id is
/// non-negative.
pub proof fn lemma_tracking_id_sets_active(m: SlotsModel, f: FrameModel, value: i32)
    requires
        frame_wf(m, f),
    ensures
        abs_step(m, f, ABS_MT_TRACKING_ID, value).0.active[f.current_slot] == (value >= 0),
{
}

/// No slot holds a position, a contact or a tracking id.
pub open spec fn empty_slots(m: SlotsModel) -> bool {
    &&& slots_wf(m)
    &&& forall|s: int|
        0 <= s < MT_SLOTS ==> {
            &&& m.x[s] is None
            &&& m.y[s] is None
            &&& m.last_x[s] is None
            &&& m.last_y[s] is None
            &&& !m.active[s]
            &&& m.tracking_id[s] is None
        }
}

impl SlotState {
    /// All slots empty and inactive.
    pub fn new() -> (r: SlotState)
        ensures
            slots_wf(r@),
            empty_slots(r@),
    {
        SlotState {
            x: [None; MT_SLOTS],
            y: [None; MT_SLOTS],
            last_x: [None; MT_SLOTS],
            last_y: [None; MT_SLOTS],
            active: [false; MT_SLOTS],
            tracking_id: [None; MT_SLOTS],
        }
    }

    /// Forgets the slot's current and last positions.
    pub fn clear_slot(&mut self, slot: usize)
        requires
            slot < MT_SLOTS,
        ensures
            final(self)@ == cleared(old(self)@, slot as int),
    {
        self.x[slot] = None;
        self.y[slot] = None;
        self.last_x[slot] = None;
        self.last_y[slot] = None;
    }

    /// Number of active slots.
    pub fn active_count(&self) -> (r: i32)
        ensures
            r as int == count_active(self@),
    {
        let mut n: i32 = 0;
        let mut s: usize = 0;
        while s < MT_SLOTS
            invariant
                s <= MT_SLOTS,
                n as int == count_upto(self.active@, s as int),
                n <= s,
            decreases MT_SLOTS - s,
        {
            if self.active[s] {
                n = n + 1;
            }
            s = s + 1;
        }
        n
    }
}

impl FrameState {
    /// Cursor on slot 0, no contacts, no pending positions.
    pub fn new() -> (r: FrameState)
        ensures
            r@.current_slot == 0,
            r@.contact_count == 0,
            r@.pending.len() == 0,
    {
        FrameState { current_slot: 0, contact_count: 0, pending_positions: Vec::with_capacity(MT_SLOTS) }
    }
}

/// Marks the slot active if it was not, counting the new contact.
pub fn activate_slot_if_needed(slots: &mut SlotState, frame: &mut FrameState, slot: usize)
    requires
        slot < MT_SLOTS,
        slots_wf(old(slots)@),
        old(frame)@.contact_count <= count_active(old(slots)@),
    ensures
        (final(slots)@, final(frame)@) == activate(old(slots)@, old(frame)@, slot as int),
{
    if slots.active[slot] {
        return;
    }
    proof {
        lemma_count_bounds(old(slots)@.active, MT_SLOTS as int);
    }
    slots.active[slot] = true;
    frame.contact_count = frame.contact_count + 1;
    proof {
        assert(slots@.active =~= old(slots)@.active.update(slot as int, true));
        assert(slots@ =~= (SlotsModel { active: old(slots)@.active.update(slot as int, true), ..old(slots)@ }));
    }
}

/// Applies one absolute-axis event to the slots and the frame.
pub fn process_abs_event(slots: &mut SlotState, frame: &mut FrameState, code: u16, value: i32)
    requires
        frame_wf(old(slots)@, old(frame)@),
    ensures
        (final(slots)@, final(frame)@) == abs_step(old(slots)@, old(frame)@, code, value),
        frame_wf(final(slots)@, final(frame)@),
{
    proof {
        lemma_abs_step_wf(slots@, frame@, code, value);
        lemma_count_bounds(slots@.active, MT_SLOTS as int);
    }
    if code == ABS_MT_SLOT {
        frame.current_slot = if value < 0 {
            0
        } else if value as usize > MT_SLOTS - 1 {
            MT_SLOTS - 1
        } else {
            value as usize
        };
    } else if code == ABS_MT_TRACKING_ID {
        let slot = frame.current_slot;
        if value >= 0 {
            if !slots.active[slot] {
                frame.contact_count = frame.contact_count + 1;
                slots.active[slot] = true;
                slots.last_x[slot] = None;
                slots.last_y[slot] = None;
            }
        } else {
            if slots.active[slot] {
                frame.contact_count = frame.contact_count - 1;
            }
            slots.active[slot] = false;
            slots.clear_slot(slot);
        }
    } else if code == ABS_MT_POSITION_X {
        let slot = frame.current_slot;
        slots.x[slot] = Some(value);
        activate_slot_if_needed(slots, frame, slot);
    } else if code == ABS_MT_POSITION_Y {
        let slot = frame.current_slot;
        slots.y[slot] = Some(value);
        activate_slot_if_needed(slots, frame, slot);
        if let Some(x) = slots.x[slot] {
            frame.pending_positions.push((x, value));
        }
    }
    proof {
        let (m2, f2) = abs_step(old(slots)@, old(frame)@, code, value);
        assert(slots@.x =~= m2.x);
        assert(slots@.y =~= m2.y);
        assert(slots@.last_x =~= m2.last_x);
        assert(slots@.last_y =~= m2.last_y);
        assert(slots@.active =~= m2.active);
        assert(slots@.tracking_id =~= m2.tracking_id);
        assert(frame@.pending =~= f2.pending);
    }
}

/// Reassignment applies: there are active slots, and exactly as many
/// ordered positions arrived this frame as there are active slots (the list
/// of active slots always has that many entries).
pub open spec fn reassigns(m: SlotsModel, f: FrameModel) -> bool {
    count_active(m) > 0 && f.pending.len() == count_active(m)
}

/// The slots after the reassignment pass: when it applies, the k-th active
/// slot in ascending order takes the k-th pending position.
pub open spec fn resolved(m: SlotsModel, f: FrameModel) -> SlotsModel {
    if reassigns(m, f) {
        SlotsModel {
            x: Seq::new(
                MT_SLOTS as nat,
                |s: int|
                    if m.active[s] {
                        Some(f.pending[count_upto(m.active, s) as int].0)
                    } else {
                        m.x[s]
                    },
            ),
            y: Seq::new(
                MT_SLOTS as nat,
                |s: int|
                    if m.active[s] {
                        Some(f.pending[count_upto(m.active, s) as int].1)
                    } else {
                        m.y[s]
                    },
            ),
            ..m
        }
    } else {
        m
    }
}

/// Reassigns this frame's ordered positions to the active slots in
/// ascending slot order when their numbers agree; otherwise keeps the
/// positions attributed event by event.
pub fn resolve_pending_positions(slots: &mut SlotState, frame: &FrameState)
    requires
        frame_wf(old(slots)@, frame@),
    ensures
        final(slots)@ == resolved(old(slots)@, frame@),
{
    let contact_count = slots.active_count();
    if contact_count == 0 {
        return;
    }
    if frame.pending_positions.len() != contact_count as usize {
        return;
    }
    let ghost m = slots@;
    let mut i: usize = 0;
    let mut s: usize = 0;
    while s < MT_SLOTS
        invariant
            s <= MT_SLOTS,
            slots_wf(m),
            frame_wf(m, frame@),
            reassigns(m, frame@),
            i as int == count_upto(m.active, s as int),
            slots@.last_x == m.last_x,
            slots@.last_y == m.last_y,
            slots@.active == m.active,
            slots@.tracking_id == m.tracking_id,
            slots@.x.len() == MT_SLOTS,
            slots@.y.len() == MT_SLOTS,
            forall|j: int| s <= j < MT_SLOTS ==> slots@.x[j] == m.x[j] && slots@.y[j] == m.y[j],
            forall|j: int|
                0 <= j < s ==> slots@.x[j] == resolved(m, frame@).x[j] && slots@.y[j] == resolved(
                    m,
                    frame@,
                ).y[j],
        decreases MT_SLOTS - s,
    {
        if slots.active[s] {
            proof {
                lemma_rank_below_count(m.active, s as int, MT_SLOTS as int);
            }
            let (px, py) = frame.pending_positions[i];
            slots.x[s] = Some(px);
            slots.y[s] = Some(py);
            i = i + 1;
        }
        s = s + 1;
    }
    proof {
        assert(slots@.x =~= resolved(m, frame@).x);
        assert(slots@.y =~= resolved(m, frame@).y);
    }
}

/// Where the slot's contact is: its current sample when both axes have
/// one, else the position last reported.
pub open spec fn position_of(m: SlotsModel, s: int) -> Option<(i32, i32)> {
    match (m.x[s], m.y[s]) {
        (Some(x), Some(y)) => Some((x, y)),
        _ => match (m.last_x[s], m.last_y[s]) {
            (Some(x), Some(y)) => Some((x, y)),
            _ => None,
        },
    }
}

/// Output coordinates of a device position: clamped to the device range,
/// then mapped by the orientation.
pub open spec fn out_pos(o: Orientation, x_max: i32, y_max: i32, p: (i32, i32)) -> (int, int) {
    touch_map(
        o,
        clamp(p.0 as int, 0, x_max as int),
        clamp(p.1 as int, 0, y_max as int),
        x_max as int,
        y_max as int,
    )
}

/// The first active slot among the first `n`.
pub open spec fn first_active(m: SlotsModel, n: int) -> Option<int>
    decreases n,
{
    if n <= 0 {
        None
    } else {
        match first_active(m, n - 1) {
            Some(s) => Some(s),
            None => if m.active[n - 1] {
                Some(n - 1)
            } else {
                None
            },
        }
    }
}

/// Legacy single-pointer position: the current sample of the first active
/// slot, if it has both axes.
pub open spec fn primary_pos(m: SlotsModel, o: Orientation, x_max: i32, y_max: i32) -> Option<(i32, i32)> {
    match first_active(m, MT_SLOTS as int) {
        Some(s) => match (m.x[s], m.y[s]) {
            (Some(x), Some(y)) => {
                let q = out_pos(o, x_max, y_max, (x, y));
                Some((q.0 as i32, q.1 as i32))
            },
            _ => None,
        },
        None => None,
    }
}

fn clamp_i32(v: i32, lo: i32, hi: i32) -> (r: i32)
    requires
        lo <= hi,
    ensures
        r as int == clamp(v as int, lo as int, hi as int),
{
    if v < lo {
        lo
    } else if v > hi {
        hi
    } else {
        v
    }
}

/// Maps a device position to output space.
fn output_position(o: Orientation, x_max: i32, y_max: i32, p: (i32, i32)) -> (r: (i32, i32))
    requires
        x_max >= 0,
        y_max >= 0,
    ensures
        (r.0 as int, r.1 as int) == out_pos(o, x_max, y_max, p),
        0 <= r.0 <= touch_dims(o, x_max as int, y_max as int).0,
        0 <= r.1 <= touch_dims(o, x_max as int, y_max as int).1,
{
    let cx = clamp_i32(p.0, 0, x_max);
    let cy = clamp_i32(p.1, 0, y_max);
    proof {
        lemma_transforms_stay_in_bounds(o, cx as int, cy as int, x_max as int, y_max as int);
    }
    o.transform_touch(cx, cy, x_max, y_max)
}

impl SlotState {
    /// The slot's current position, else its last reported one.
    pub fn get_position(&self, slot: usize) -> (r: Option<(i32, i32)>)
        requires
            slot < MT_SLOTS,
        ensures
            r == position_of(self@, slot as int),
    {
        match (self.x[slot], self.y[slot]) {
            (Some(x), Some(y)) => Some((x, y)),
            _ => match (self.last_x[slot], self.last_y[slot]) {
                (Some(x), Some(y)) => Some((x, y)),
                _ => None,
            },
        }
    }

    /// Output position for the legacy single-pointer axes.
    pub fn get_primary_position(&self, device: &DeviceProfile, orientation: Orientation) -> (r:
        Option<(i32, i32)>)
        requires
            device.touch_x_max >= 0,
            device.touch_y_max >= 0,
        ensures
            r == primary_pos(self@, orientation, device.touch_x_max, device.touch_y_max),
    {
        let mut s: usize = 0;
        while s < MT_SLOTS
            invariant
                s <= MT_SLOTS,
                device.touch_x_max >= 0,
                device.touch_y_max >= 0,
                first_active(self@, s as int) is None,
            decreases MT_SLOTS - s,
        {
            if self.active[s] {
                proof {
                    lemma_first_active_stays(self@, s as int + 1, MT_SLOTS as int);
                }
                return match (self.x[s], self.y[s]) {
                    (Some(x), Some(y)) => Some(
                        output_position(orientation, device.touch_x_max, device.touch_y_max, (x, y)),
                    ),
                    _ => None,
                };
            }
            s = s + 1;
        }
        None
    }
}

/// Once found, the first active slot stays the first in longer prefixes.
pub proof fn lemma_first_active_stays(m: SlotsModel, k: int, n: int)
    requires
        k <= n,
        first_active(m, k) is Some,
    ensures
        first_active(m, n) == first_active(m, k),
    decreases n - k,
{
    if k < n {
        lemma_first_active_stays(m, k, n - 1);
    }
}

/// What the sink is told about one slot in a frame.
#[derive(Clone, Copy, Debug, PartialEq, Eq, Structural)]
pub enum SlotReport {
    /// A contact goes live: its new tracking id, then its position.
    Start { slot: usize, tracking_id: i32, x: i32, y: i32 },
    /// A live contact's position.
    Move { slot: usize, x: i32, y: i32 },
    /// The slot's contact ends (tracking id -1).
    Release { slot: usize },
}

/// One decided touch frame, in the order the sink takes it: the per-slot
/// reports, the legacy single-pointer axes, then the key states.
pub struct TouchFrame {
    /// Contacts reported in this frame.
    pub contact_count: i32,
    pub slots: Vec<SlotReport>,
    /// Legacy single-pointer position, if any.
    pub pointer: Option<(i32, i32)>,
    /// `BTN_TOUCH`, then the four finger-count tool keys.
    pub keys: Vec<RawEvent>,
}

pub open spec fn key_state(pressed: bool) -> i32 {
    if pressed {
        1
    } else {
        0
    }
}

pub open spec fn key_ev(code: u16, pressed: bool) -> RawEvent {
    RawEvent { event_type: crate::event::EV_KEY, code, value: key_state(pressed) }
}

/// Touch key for "any contact", then exactly one finger-count tool key
/// pressed: one, two, three, or four and more contacts (none for zero).
pub open spec fn tool_keys(count: int) -> Seq<RawEvent> {
    seq![
        key_ev(BTN_TOUCH, count > 0),
        key_ev(BTN_TOOL_FINGER, count == 1),
        key_ev(BTN_TOOL_DOUBLETAP, count == 2),
        key_ev(BTN_TOOL_TRIPLETAP, count == 3),
        key_ev(BTN_TOOL_QUADTAP, count != 0 && count != 1 && count != 2 && count != 3),
    ]
}

fn pressed_if(b: bool) -> (r: i32)
    ensures
        r == key_state(b),
{
    if b {
        1
    } else {
        0
    }
}

/// Key states for a frame with `contact_count` contacts.
pub fn build_tool_key_events(contact_count: i32) -> (r: Vec<RawEvent>)
    ensures
        r@ == tool_keys(contact_count as int),
{
    let c = contact_count;
    let mut events: Vec<RawEvent> = Vec::new();
    events.push(key_event(BTN_TOUCH, pressed_if(c > 0)));
    events.push(key_event(BTN_TOOL_FINGER, pressed_if(c == 1)));
    events.push(key_event(BTN_TOOL_DOUBLETAP, pressed_if(c == 2)));
    events.push(key_event(BTN_TOOL_TRIPLETAP, pressed_if(c == 3)));
    events.push(key_event(BTN_TOOL_QUADTAP, pressed_if(c != 0 && c != 1 && c != 2 && c != 3)));
    assert(events@ =~= tool_keys(contact_count as int));
    events
}

/// Every touch and tool key released.
pub fn release_all_tool_keys() -> (r: Vec<RawEvent>)
    ensures
        r@ == tool_keys(0),
{
    build_tool_key_events(0)
}

/// The slot's contact goes live in this frame.
pub open spec fn starts(m: SlotsModel, s: int) -> bool {
    m.active[s] && m.tracking_id[s] is None && position_of(m, s) is Some
}

/// Number of slots among the first `n` whose contact goes live.
pub open spec fn starts_before(m: SlotsModel, n: int) -> nat
    decreases n,
{
    if n <= 0 {
        0
    } else {
        starts_before(m, n - 1) + if starts(m, n - 1) {
            1nat
        } else {
            0nat
        }
    }
}

/// The tracking-id counter after `k` assignments, wrapping on overflow.
pub open spec fn id_after(next: i32, k: nat) -> i32
    decreases k,
{
    if k == 0 {
        next
    } else {
        id_after(next, (k - 1) as nat).wrapping_add(1)
    }
}

/// What the frame reports for slot `s`.
pub open spec fn report_for(m: SlotsModel, next: i32, o: Orientation, x_max: i32, y_max: i32, s: int) -> Option<SlotReport> {
    if m.active[s] {
        match position_of(m, s) {
            Some(p) => {
                let q = out_pos(o, x_max, y_max, p);
                if m.tracking_id[s] is None {
                    Some(
                        SlotReport::Start {
                            slot: s as usize,
                            tracking_id: id_after(next, starts_before(m, s) + 1),
                            x: q.0 as i32,
                            y: q.1 as i32,
                        },
                    )
                } else {
                    Some(SlotReport::Move { slot: s as usize, x: q.0 as i32, y: q.1 as i32 })
                }
            },
            None => None,
        }
    } else if m.tracking_id[s] is Some {
        Some(SlotReport::Release { slot: s as usize })
    } else {
        None
    }
}

pub open spec fn opt_seq(r: Option<SlotReport>) -> Seq<SlotReport> {
    match r {
        Some(x) => seq![x],
        None => seq![],
    }
}

/// The reports of the first `n` slots, in ascending slot order.
pub open spec fn reports_upto(m: SlotsModel, next: i32, o: Orientation, x_max: i32, y_max: i32, n: int) -> Seq<SlotReport>
    decreases n,
{
    if n <= 0 {
        seq![]
    } else {
        reports_upto(m, next, o, x_max, y_max, n - 1) + opt_seq(report_for(m, next, o, x_max, y_max, n - 1))
    }
}

/// The slots after a frame is emitted: each active slot with a position
/// remembers it as last reported and holds a tracking id (a new one if it
/// had none); each inactive slot holds none.
pub open spec fn emitted(m: SlotsModel, next: i32) -> SlotsModel {
    SlotsModel {
        last_x: Seq::new(
            MT_SLOTS as nat,
            |s: int|
                if m.active[s] && position_of(m, s) is Some {
                    Some(position_of(m, s).unwrap().0)
                } else {
                    m.last_x[s]
                },
        ),
        last_y: Seq::new(
            MT_SLOTS as nat,
            |s: int|
                if m.active[s] && position_of(m, s) is Some {
                    Some(position_of(m, s).unwrap().1)
                } else {
                    m.last_y[s]
                },
        ),
        tracking_id: Seq::new(
            MT_SLOTS as nat,
            |s: int|
                if !m.active[s] {
                    None
                } else if starts(m, s) {
                    Some(id_after(next, starts_before(m, s) + 1))
                } else {
                    m.tracking_id[s]
                },
        ),
        ..m
    }
}

/// The tracking-id counter after a frame is emitted.
pub open spec fn next_after(m: SlotsModel, next: i32) -> i32 {
    id_after(next, starts_before(m, MT_SLOTS as int))
}

/// Emits a frame: assigns tracking ids to contacts that go live, reports
/// each live contact's position (current, else last reported), releases
/// ended contacts, then the legacy pointer and the key states.
pub fn emit_touch_frame(
    slots: &mut SlotState,
    next_tracking_id: &mut i32,
    device: &DeviceProfile,
    orientation: Orientation,
) -> (r: TouchFrame)
    requires
        slots_wf(old(slots)@),
        device.touch_x_max >= 0,
        device.touch_y_max >= 0,
    ensures
        final(slots)@ == emitted(old(slots)@, *old(next_tracking_id)),
        *final(next_tracking_id) == next_after(old(slots)@, *old(next_tracking_id)),
        r.contact_count == count_active(old(slots)@),
        r.slots@ == reports_upto(
            old(slots)@,
            *old(next_tracking_id),
            orientation,
            device.touch_x_max,
            device.touch_y_max,
            MT_SLOTS as int,
        ),
        r.pointer == primary_pos(old(slots)@, orientation, device.touch_x_max, device.touch_y_max),
        r.keys@ == tool_keys(count_active(old(slots)@) as int),
{
    let ghost m = slots@;
    let ghost n0 = *next_tracking_id;
    let contact_count = slots.active_count();
    let pointer = slots.get_primary_position(device, orientation);
    let xm = device.touch_x_max;
    let ym = device.touch_y_max;
    let mut reports: Vec<SlotReport> = Vec::new();
    let mut s: usize = 0;
    while s < MT_SLOTS
        invariant
            s <= MT_SLOTS,
            slots_wf(m),
            slots_wf(slots@),
            xm >= 0,
            ym >= 0,
            slots@.x == m.x,
            slots@.y == m.y,
            slots@.active == m.active,
            forall|j: int|
                s <= j < MT_SLOTS ==> {
                    &&& slots@.last_x[j] == m.last_x[j]
                    &&& slots@.last_y[j] == m.last_y[j]
                    &&& slots@.tracking_id[j] == m.tracking_id[j]
                },
            forall|j: int|
                0 <= j < s ==> {
                    &&& slots@.last_x[j] == emitted(m, n0).last_x[j]
                    &&& slots@.last_y[j] == emitted(m, n0).last_y[j]
                    &&& slots@.tracking_id[j] == emitted(m, n0).tracking_id[j]
                },
            *next_tracking_id == id_after(n0, starts_before(m, s as int)),
            reports@ == reports_upto(m, n0, orientation, xm, ym, s as int),
        decreases MT_SLOTS - s,
    {
        let ghost before = reports@;
        if slots.active[s] {
            match slots.get_position(s) {
                Some(p) => {
                    let q = output_position(orientation, xm, ym, p);
                    slots.last_x[s] = Some(p.0);
                    slots.last_y[s] = Some(p.1);
                    if slots.tracking_id[s].is_none() {
                        *next_tracking_id = next_tracking_id.wrapping_add(1);
                        slots.tracking_id[s] = Some(*next_tracking_id);
                        reports.push(
                            SlotReport::Start { slot: s, tracking_id: *next_tracking_id, x: q.0, y: q.1 },
                        );
                    } else {
                        reports.push(SlotReport::Move { slot: s, x: q.0, y: q.1 });
                    }
                },
                None => {},
            }
        } else if slots.tracking_id[s].is_some() {
            reports.push(SlotReport::Release { slot: s });
            slots.tracking_id[s] = None;
        }
        proof {
            assert(reports@ =~= reports_upto(m, n0, orientation, xm, ym, s as int + 1));
        }
        s = s + 1;
    }
    proof {
        assert(slots@.last_x =~= emitted(m, n0).last_x);
        assert(slots@.last_y =~= emitted(m, n0).last_y);
        assert(slots@.tracking_id =~= emitted(m, n0).tracking_id);
    }
    let keys = build_tool_key_events(contact_count);
    TouchFrame { contact_count, slots: reports, pointer, keys }
}

/// Releases of every slot among the first `n` that holds a tracking id.
pub open spec fn releases_upto(m: SlotsModel, n: int) -> Seq<SlotReport>
    decreases n,
{
    if n <= 0 {
        seq![]
    } else {
        releases_upto(m, n - 1) + if m.tracking_id[n - 1] is Some {
            seq![SlotReport::Release { slot: (n - 1) as usize }]
        } else {
            seq![]
        }
    }
}

/// The slots with every tracking id invalidated.
pub open spec fn all_released(m: SlotsModel) -> SlotsModel {
    SlotsModel { tracking_id: Seq::new(MT_SLOTS as nat, |s: int| None::<i32>), ..m }
}

/// The "contacts cleared" frame of palm suppression: every live tracking id
/// is released, no pointer, every key released, zero contacts.
pub fn emit_palm_suppression(slots: &mut SlotState) -> (r: TouchFrame)
    requires
        slots_wf(old(slots)@),
    ensures
        final(slots)@ == all_released(old(slots)@),
        r.contact_count == 0,
        r.slots@ == releases_upto(old(slots)@, MT_SLOTS as int),
        r.pointer is None,
        r.keys@ == tool_keys(0),
{
    let ghost m = slots@;
    let mut reports: Vec<SlotReport> = Vec::new();
    let mut s: usize = 0;
    while s < MT_SLOTS
        invariant
            s <= MT_SLOTS,
            slots_wf(m),
            slots_wf(slots@),
            slots@.x == m.x,
            slots@.y == m.y,
            slots@.last_x == m.last_x,
            slots@.last_y == m.last_y,
            slots@.active == m.active,
            forall|j: int| s <= j < MT_SLOTS ==> slots@.tracking_id[j] == m.tracking_id[j],
            forall|j: int| 0 <= j < s ==> slots@.tracking_id[j] is None,
            reports@ == releases_upto(m, s as int),
        decreases MT_SLOTS - s,
    {
        if slots.tracking_id[s].is_some() {
            reports.push(SlotReport::Release { slot: s });
            slots.tracking_id[s] = None;
        }
        proof {
            assert(reports@ =~= releases_upto(m, s as int + 1));
        }
        s = s + 1;
    }
    proof {
        assert(slots@.tracking_id =~= all_released(m).tracking_id);
    }
    let keys = release_all_tool_keys();
    TouchFrame { contact_count: 0, slots: reports, pointer: None, keys }
}

/// The touch pipeline's reassembly state for one connection.
pub struct TouchReassembler {
    pub slots: SlotState,
    pub frame: FrameState,
    /// Last tracking id handed out.
    pub next_tracking_id: i32,
}

impl TouchReassembler {
    pub open spec fn wf(&self) -> bool {
        frame_wf(self.slots@, self.frame@)
    }

    /// Fresh state: no contacts, cursor on slot 0, counter at 0.
    pub fn new() -> (r: TouchReassembler)
        ensures
            r.wf(),
            r.next_tracking_id == 0,
            r.frame@.current_slot == 0,
            r.frame@.pending.len() == 0,
            empty_slots(r.slots@),
    {
        let slots = SlotState::new();
        let frame = FrameState::new();
        proof {
            lemma_count_none(slots@.active, MT_SLOTS as int);
        }
        TouchReassembler { slots, frame, next_tracking_id: 0 }
    }

    /// Feeds one event: absolute-axis events update the slots, key events
    /// and others are ignored. True when the event is the frame marker.
    pub fn handle_event(&mut self, ev: RawEvent) -> (complete: bool)
        requires
            old(self).wf(),
        ensures
            final(self).wf(),
            ev.event_type == EV_ABS ==> (final(self).slots@, final(self).frame@) == abs_step(
                old(self).slots@,
                old(self).frame@,
                ev.code,
                ev.value,
            ),
            ev.event_type != EV_ABS ==> final(self).slots@ == old(self).slots@ && final(self).frame@
                == old(self).frame@,
            final(self).next_tracking_id == old(self).next_tracking_id,
            complete == (ev.event_type == EV_SYN && ev.code == SYN_REPORT),
    {
        if ev.event_type == EV_ABS {
            process_abs_event(&mut self.slots, &mut self.frame, ev.code, ev.value);
        }
        ev.event_type == EV_SYN && ev.code == SYN_REPORT
    }

    /// Completes a frame on its marker: reassigns positions, clears the
    /// pending list, then emits the "contacts cleared" frame when touch is
    /// suppressed and the regular frame otherwise.
    pub fn finish_frame(&mut self, suppress: bool, device: &DeviceProfile, orientation: Orientation) -> (r:
        TouchFrame)
        requires
            old(self).wf(),
            device.touch_x_max >= 0,
            device.touch_y_max >= 0,
        ensures
            final(self).wf(),
            final(self).frame@.pending.len() == 0,
            final(self).frame@.current_slot == old(self).frame@.current_slot,
            ({
                let m1 = resolved(old(self).slots@, old(self).frame@);
                if suppress {
                    &&& final(self).slots@ == all_released(m1)
                    &&& final(self).next_tracking_id == old(self).next_tracking_id
                    &&& r.contact_count == 0
                    &&& r.slots@ == releases_upto(m1, MT_SLOTS as int)
                    &&& r.pointer is None
                    &&& r.keys@ == tool_keys(0)
                } else {
                    &&& final(self).slots@ == emitted(m1, old(self).next_tracking_id)
                    &&& final(self).next_tracking_id == next_after(m1, old(self).next_tracking_id)
                    &&& r.contact_count == count_active(old(self).slots@)
                    &&& r.slots@ == reports_upto(
                        m1,
                        old(self).next_tracking_id,
                        orientation,
                        device.touch_x_max,
                        device.touch_y_max,
                        MT_SLOTS as int,
                    )
                    &&& r.pointer == primary_pos(m1, orientation, device.touch_x_max, device.touch_y_max)
                    &&& r.keys@ == tool_keys(count_active(old(self).slots@) as int)
                }
            }),
    {
        resolve_pending_positions(&mut self.slots, &self.frame);
        self.frame.pending_positions.clear();
        if suppress {
            emit_palm_suppression(&mut self.slots)
        } else {
            emit_touch_frame(&mut self.slots, &mut self.next_tracking_id, device, orientation)
        }
    }
}

/// With no active entry, the count is zero.
pub proof fn lemma_count_none(a: Seq<bool>, n: int)
    requires
        n <= a.len(),
        forall|i: int| 0 <= i < n ==> !a[i],
    ensures
        count_upto(a, n) == 0,
    decreases n,
{
    if n > 0 {
        lemma_count_none(a, n - 1);
    }
}

/// Position carried by a report, if it carries one.
pub open spec fn report_position(r: Option<SlotReport>) -> Option<(i32, i32)> {
    match r {
        Some(SlotReport::Start { x, y, .. }) => Some((x, y)),
        Some(SlotReport::Move { x, y, .. }) => Some((x, y)),
        _ => None,
    }
}

proof fn lemma_no_starts(m: SlotsModel, n: int)
    requires
        forall|s: int| 0 <= s < n ==> !starts(m, s),
    ensures
        starts_before(m, n) == 0,
    decreases n,
{
    if n > 0 {
        lemma_no_starts(m, n - 1);
    }
}

/// Two consecutive frames from the same input state: the second assigns no
/// new tracking id, keeps every id of the first, and reports every slot at
/// the position the first reported it at, as a plain move.
pub proof fn lemma_frames_idempotent(m: SlotsModel, next: i32, o: Orientation, x_max: i32, y_max: i32)
    requires
        slots_wf(m),
    ensures
        ({
            let m1 = emitted(m, next);
            let n1 = next_after(m, next);
            &&& emitted(m1, n1) == m1
            &&& next_after(m1, n1) == n1
            &&& forall|s: int|
                0 <= s < MT_SLOTS ==> report_position(report_for(m1, n1, o, x_max, y_max, s))
                    == report_position(report_for(m, next, o, x_max, y_max, s))
            &&& forall|s: int|
                0 <= s < MT_SLOTS ==> (report_for(m1, n1, o, x_max, y_max, s) is None || report_for(
                    m1,
                    n1,
                    o,
                    x_max,
                    y_max,
                    s,
                ) is Some && report_for(m1, n1, o, x_max, y_max, s).unwrap() is Move)
        }),
{
    let m1 = emitted(m, next);
    let n1 = next_after(m, next);
    assert forall|s: int| 0 <= s < MT_SLOTS implies !starts(m1, s)
        && position_of(m1, s) == (if m.active[s] { position_of(m, s) } else { position_of(m1, s) }) by {
    }
    lemma_no_starts(m1, MT_SLOTS as int);
    assert(emitted(m1, n1).last_x =~= m1.last_x);
    assert(emitted(m1, n1).last_y =~= m1.last_y);
    assert(emitted(m1, n1).tracking_id =~= m1.tracking_id);
}

/// Occurrences of a release of slot `s` among the first `n` releases.
pub proof fn lemma_releases_upto(m: SlotsModel, n: int)
    requires
        slots_wf(m),
        0 <= n <= MT_SLOTS,
    ensures
        forall|i: int, j: int|
            0 <= i < j < releases_upto(m, n).len() ==> releases_upto(m, n)[i] is Release
                && releases_upto(m, n)[j] is Release && releases_upto(m, n)[i]->Release_slot
                < releases_upto(m, n)[j]->Release_slot,
        forall|i: int|
            0 <= i < releases_upto(m, n).len() ==> releases_upto(m, n)[i] is Release
                && releases_upto(m, n)[i]->Release_slot < n,
        forall|s: int|
            0 <= s < n ==> (m.tracking_id[s] is Some <==> releases_upto(m, n).contains(
                SlotReport::Release { slot: s as usize },
            )),
    decreases n,
{
    if n > 0 {
        lemma_releases_upto(m, n - 1);
        let prev = releases_upto(m, n - 1);
        let cur = releases_upto(m, n);
        assert forall|s: int| 0 <= s < n implies (m.tracking_id[s] is Some <==> cur.contains(
            SlotReport::Release { slot: s as usize },
        )) by {
            if m.tracking_id[n - 1] is Some {
                assert(cur[prev.len() as int] == SlotReport::Release { slot: (n - 1) as usize });
            }
            if cur.contains(SlotReport::Release { slot: s as usize }) {
                let k = choose|k: int| 0 <= k < cur.len() && cur[k] == SlotReport::Release { slot: s as usize };
                if k < prev.len() {
                    assert(prev[k] == cur[k]);
                }
            }
            if s < n - 1 && prev.contains(SlotReport::Release { slot: s as usize }) {
                let k = choose|k: int| 0 <= k < prev.len() && prev[k] == SlotReport::Release { slot: s as usize };
                assert(cur[k] == prev[k]);
            }
        }
    }
}

/// Under suppression each live tracking id is released exactly once: the
/// frame releases each slot that held an id, at most once each, and a
/// further suppressed frame releases nothing.
pub proof fn lemma_suppression_releases_once(m: SlotsModel)
    requires
        slots_wf(m),
    ensures
        forall|s: int|
            0 <= s < MT_SLOTS ==> (m.tracking_id[s] is Some <==> releases_upto(m, MT_SLOTS as int).contains(
                SlotReport::Release { slot: s as usize },
            )),
        forall|i: int, j: int|
            0 <= i < j < releases_upto(m, MT_SLOTS as int).len() ==> releases_upto(m, MT_SLOTS as int)[i]
                != releases_upto(m, MT_SLOTS as int)[j],
        releases_upto(all_released(m), MT_SLOTS as int).len() == 0,
{
    lemma_releases_upto(m, MT_SLOTS as int);
    lemma_no_releases(all_released(m), MT_SLOTS as int);
}

proof fn lemma_no_releases(m: SlotsModel, n: int)
    requires
        n <= m.tracking_id.len(),
        forall|s: int| 0 <= s < n ==> m.tracking_id[s] is None,
    ensures
        releases_upto(m, n).len() == 0,
    decreases n,
{
    if n > 0 {
        lemma_no_releases(m, n - 1);
    }
}

/// Reassignment runs exactly when there are active slots and as many
/// ordered positions as active slots; then the k-th active slot in
/// ascending order holds the k-th position. Otherwise every slot keeps the
/// position attributed to it event by event.
pub proof fn lemma_reassignment_rule(m: SlotsModel, f: FrameModel)
    requires
        frame_wf(m, f),
    ensures
        !reassigns(m, f) ==> resolved(m, f) == m,
        reassigns(m, f) ==> forall|s: int|
            0 <= s < MT_SLOTS && m.active[s] ==> {
                let k = count_upto(m.active, s);
                &&& 0 <= k < f.pending.len()
                &&& resolved(m, f).x[s] == Some(f.pending[k as int].0)
                &&& resolved(m, f).y[s] == Some(f.pending[k as int].1)
            },
        reassigns(m, f) ==> forall|s: int|
            0 <= s < MT_SLOTS && !m.active[s] ==> resolved(m, f).x[s] == m.x[s] && resolved(m, f).y[s]
                == m.y[s],
        resolved(m, f).active == m.active,
        resolved(m, f).tracking_id == m.tracking_id,
{
    assert forall|s: int| 0 <= s < MT_SLOTS && m.active[s] implies count_upto(m.active, s) < count_active(m) by {
        lemma_rank_below_count(m.active, s, MT_SLOTS as int);
    }
}

/// Tracking ids change only together with what the sink is told: a slot
/// gains an id only in a report that starts its contact with that id, and
/// loses it only in a report that releases it.
pub proof fn lemma_tracking_ids_follow_reports(m: SlotsModel, next: i32, o: Orientation, x_max: i32, y_max: i32)
    requires
        slots_wf(m),
    ensures
        forall|s: int|
            0 <= s < MT_SLOTS && m.tracking_id[s] is None && emitted(m, next).tracking_id[s] is Some
                ==> (report_for(m, next, o, x_max, y_max, s) matches Some(SlotReport::Start { tracking_id, .. })
                && emitted(m, next).tracking_id[s] == Some(tracking_id)),
        forall|s: int|
            0 <= s < MT_SLOTS && m.tracking_id[s] is Some && emitted(m, next).tracking_id[s] is None
                ==> report_for(m, next, o, x_max, y_max, s) == Some(SlotReport::Release { slot: s as usize }),
        forall|s: int|
            0 <= s < MT_SLOTS && m.tracking_id[s] is Some && emitted(m, next).tracking_id[s] is Some
                ==> emitted(m, next).tracking_id[s] == m.tracking_id[s],
        forall|s: int|
            0 <= s < MT_SLOTS ==> (emitted(m, next).tracking_id[s] is Some <==> m.active[s] && (
            m.tracking_id[s] is Some || position_of(m, s) is Some)),
{
}

/// Replays only the cursor and the tracking ids of an event sequence: the
/// cursor, and per slot whether the latest tracking-id event addressed to it
/// was non-negative (false for a slot no such event addressed).
pub open spec fn id_replay(c0: int, evs: Seq<(u16, i32)>) -> (int, Seq<bool>)
    decreases evs.len(),
{
    if evs.len() == 0 {
        (c0, Seq::new(MT_SLOTS as nat, |s: int| false))
    } else {
        let (c, ids) = id_replay(c0, evs.drop_last());
        let (code, v) = evs.last();
        if code == ABS_MT_SLOT {
            (clamp(v as int, 0, MT_SLOTS - 1), ids)
        } else if code == ABS_MT_TRACKING_ID {
            (c, ids.update(c, v >= 0))
        } else {
            (c, ids)
        }
    }
}

/// Every position event is addressed to a slot whose latest tracking id is
/// non-negative.
pub open spec fn positions_follow_ids(c0: int, evs: Seq<(u16, i32)>) -> bool
    decreases evs.len(),
{
    if evs.len() == 0 {
        true
    } else {
        let (c, ids) = id_replay(c0, evs.drop_last());
        &&& positions_follow_ids(c0, evs.drop_last())
        &&& (evs.last().0 == ABS_MT_POSITION_X || evs.last().0 == ABS_MT_POSITION_Y) ==> ids[c]
    }
}

/// From empty slots, for every sequence of slot, tracking-id and position
/// events in which positions go to slots with a live tracking id, the
/// active slots are exactly those whose latest tracking id is non-negative,
/// and the contact count is their number.
pub proof fn lemma_contact_count_counts_live_ids(m: SlotsModel, f: FrameModel, evs: Seq<(u16, i32)>)
    requires
        frame_wf(m, f),
        empty_slots(m),
        positions_follow_ids(f.current_slot, evs),
    ensures
        abs_steps(m, f, evs).0.active == id_replay(f.current_slot, evs).1,
        abs_steps(m, f, evs).1.current_slot == id_replay(f.current_slot, evs).0,
        abs_steps(m, f, evs).1.contact_count == count_upto(id_replay(f.current_slot, evs).1, MT_SLOTS as int),
        count_active(abs_steps(m, f, evs).0) == count_upto(id_replay(f.current_slot, evs).1, MT_SLOTS as int),
    decreases evs.len(),
{
    lemma_contact_count_is_active_slots(m, f, evs);
    if evs.len() == 0 {
        assert(m.active =~= id_replay(f.current_slot, evs).1);
    } else {
        let prev = evs.drop_last();
        lemma_contact_count_is_active_slots(m, f, prev);
        lemma_contact_count_counts_live_ids(m, f, prev);
        let (m1, f1) = abs_steps(m, f, prev);
        let (c, ids) = id_replay(f.current_slot, prev);
        let (code, v) = evs.last();
        let (m2, f2) = abs_step(m1, f1, code, v);
        assert(abs_steps(m, f, evs) == (m2, f2));
        if code == ABS_MT_SLOT {
        } else if code == ABS_MT_TRACKING_ID {
            assert(m2.active =~= ids.update(c, v >= 0));
        } else if code == ABS_MT_POSITION_X || code == ABS_MT_POSITION_Y {
            assert(m1.active[c]);
            assert(m2.active =~= ids);
        } else {
        }
    }
}

} // verus!
