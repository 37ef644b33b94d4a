//! Pen frame processing: per-frame buffering of position and tilt samples,
//! orientation transform, and the touching state derived from pressure.

use vstd::prelude::*;

use crate::device::DeviceProfile;
use crate::event::{
    key_event, RawEvent, ABS_PRESSURE, ABS_TILT_X, ABS_TILT_Y, ABS_X, ABS_Y, BTN_TOUCH, EV_ABS,
    EV_KEY, EV_SYN, SYN_REPORT,
};
use crate::orientation::{pair_fits_i32, pen_map, tilt_map, Orientation};
use crate::touch::clamp;

verus! {

/// Pen position in output space. A sample whose map would leave the `i32`
/// range is first clamped to the digitizer's range.
pub open spec fn pen_out(o: Orientation, x: i32, y: i32, x_max: i32, y_max: i32) -> (int, int) {
    if pair_fits_i32(pen_map(o, x as int, y as int, x_max as int, y_max as int)) {
        pen_map(o, x as int, y as int, x_max as int, y_max as int)
    } else {
        pen_map(o, clamp(x as int, 0, x_max as int), clamp(y as int, 0, y_max as int), x_max as int, y_max as int)
    }
}

/// Tilt in output space. A sample whose map would leave the `i32` range is
/// first clamped to the tilt range.
pub open spec fn tilt_out(o: Orientation, tx: i32, ty: i32, range: i32) -> (int, int) {
    if pair_fits_i32(tilt_map(o, tx as int, ty as int)) {
        tilt_map(o, tx as int, ty as int)
    } else {
        tilt_map(o, clamp(tx as int, -range, range as int), clamp(ty as int, -range, range as int))
    }
}

pub open spec fn abs_ev(code: u16, value: int) -> RawEvent {
    RawEvent { event_type: EV_ABS, code, value: value as i32 }
}

/// Value of the last pressure sample in the batch, 0 when there is none.
pub open spec fn last_pressure(b: Seq<RawEvent>) -> int
    decreases b.len(),
{
    if b.len() == 0 {
        0
    } else if b.last().event_type == EV_ABS && b.last().code == ABS_PRESSURE {
        b.last().value as int
    } else {
        last_pressure(b.drop_last())
    }
}

/// The events a frame emits: the touch-key transition when the touching
/// state changed, the transformed tilt pair, the transformed position pair,
/// then the rest of the batch in arrival order.
pub open spec fn pen_frame_events(
    batch: Seq<RawEvent>,
    pos: Option<(i32, i32)>,
    tilt: Option<(i32, i32)>,
    transition: Option<bool>,
    o: Orientation,
    d: DeviceProfile,
) -> Seq<RawEvent> {
    let key = match transition {
        Some(t) => seq![RawEvent { event_type: EV_KEY, code: BTN_TOUCH, value: if t { 1i32 } else { 0i32 } }],
        None => seq![],
    };
    let tilt_evs = match tilt {
        Some((tx, ty)) => {
            let q = tilt_out(o, tx, ty, d.pen_tilt_range);
            seq![abs_ev(ABS_TILT_X, q.0), abs_ev(ABS_TILT_Y, q.1)]
        },
        None => seq![],
    };
    let pos_evs = match pos {
        Some((x, y)) => {
            let q = pen_out(o, x, y, d.pen_x_max, d.pen_y_max);
            seq![abs_ev(ABS_X, q.0), abs_ev(ABS_Y, q.1)]
        },
        None => seq![],
    };
    key + tilt_evs + pos_evs + batch
}

pub open spec fn both(a: Option<i32>, b: Option<i32>) -> Option<(i32, i32)> {
    match (a, b) {
        (Some(x), Some(y)) => Some((x, y)),
        _ => None,
    }
}

/// The pen pipeline's per-connection state.
pub struct PenFrameProcessor {
    /// Events of the current frame that are passed through.
    pub batch: Vec<RawEvent>,
    /// Touching state of the previous frame.
    pub touch_down: bool,
    pub pending_x: Option<i32>,
    pub pending_y: Option<i32>,
    pub pending_tilt_x: Option<i32>,
    pub pending_tilt_y: Option<i32>,
}

/// One completed pen frame.
pub struct PenFrame {
    /// Events to write to the sink, in order.
    pub events: Vec<RawEvent>,
    /// The new touching state when it changed in this frame; the palm state
    /// is updated with it before the events are written.
    pub touch_transition: Option<bool>,
}

fn pen_position(o: Orientation, x: i32, y: i32, d: &DeviceProfile) -> (r: (i32, i32))
    requires
        d.wf(),
    ensures
        (r.0 as int, r.1 as int) == pen_out(o, x, y, d.pen_x_max, d.pen_y_max),
{
    let fits = match o {
        Orientation::LandscapeRight | Orientation::Portrait => true,
        Orientation::LandscapeLeft | Orientation::Inverted => {
            let dx = d.pen_x_max as i64 - x as i64;
            let dy = d.pen_y_max as i64 - y as i64;
            i32::MIN as i64 <= dx && dx <= i32::MAX as i64 && i32::MIN as i64 <= dy && dy
                <= i32::MAX as i64
        },
    };
    if fits {
        o.transform_pen(x, y, d.pen_x_max, d.pen_y_max)
    } else {
        let cx = if x < 0 {
            0
        } else if x > d.pen_x_max {
            d.pen_x_max
        } else {
            x
        };
        let cy = if y < 0 {
            0
        } else if y > d.pen_y_max {
            d.pen_y_max
        } else {
            y
        };
        o.transform_pen(cx, cy, d.pen_x_max, d.pen_y_max)
    }
}

fn pen_tilt(o: Orientation, tx: i32, ty: i32, d: &DeviceProfile) -> (r: (i32, i32))
    requires
        d.wf(),
    ensures
        (r.0 as int, r.1 as int) == tilt_out(o, tx, ty, d.pen_tilt_range),
{
    let fits = match o {
        Orientation::LandscapeRight | Orientation::Portrait => true,
        Orientation::LandscapeLeft | Orientation::Inverted => tx != i32::MIN && ty != i32::MIN,
    };
    if fits {
        o.transform_tilt(tx, ty)
    } else {
        let r = d.pen_tilt_range;
        let cx = if tx < -r {
            -r
        } else if tx > r {
            r
        } else {
            tx
        };
        let cy = if ty < -r {
            -r
        } else if ty > r {
            r
        } else {
            ty
        };
        o.transform_tilt(cx, cy)
    }
}

fn find_last_pressure(batch: &Vec<RawEvent>) -> (r: i32)
    ensures
        r as int == last_pressure(batch@),
{
    let mut i: usize = batch.len();
    assert(batch@.subrange(0, i as int) =~= batch@);
    while i > 0
        invariant
            i <= batch@.len(),
            last_pressure(batch@) == last_pressure(batch@.subrange(0, i as int)),
        decreases i,
    {
        let e = batch[i - 1];
        proof {
            assert(batch@.subrange(0, i as int).drop_last() =~= batch@.subrange(0, i - 1));
        }
        if e.event_type == EV_ABS && e.code == ABS_PRESSURE {
            return e.value;
        }
        i = i - 1;
    }
    0
}

impl PenFrameProcessor {
    /// Empty batch, nothing pending, pen not touching.
    pub fn new() -> (r: PenFrameProcessor)
        ensures
            r.batch@.len() == 0,
            !r.touch_down,
            r.pending_x is None,
            r.pending_y is None,
            r.pending_tilt_x is None,
            r.pending_tilt_y is None,
    {
        PenFrameProcessor {
            batch: Vec::new(),
            touch_down: false,
            pending_x: None,
            pending_y: None,
            pending_tilt_x: None,
            pending_tilt_y: None,
        }
    }

    /// Feeds one event. Position and tilt samples are held back; other
    /// events join the batch. On the frame marker the frame is returned and
    /// the state starts the next frame.
    pub fn handle_event(&mut self, ev: RawEvent, device: &DeviceProfile, orientation: Orientation) -> (r:
        Option<PenFrame>)
        requires
            device.wf(),
        ensures
            ({
                let deferred = ev.event_type == EV_ABS && (ev.code == ABS_X || ev.code == ABS_Y
                    || ev.code == ABS_TILT_X || ev.code == ABS_TILT_Y);
                let batch = old(self).batch@.push(ev);
                let touching = last_pressure(batch) > 0;
                let transition = if touching != old(self).touch_down {
                    Some(touching)
                } else {
                    None
                };
                if deferred {
                    &&& r is None
                    &&& final(self).batch@ == old(self).batch@
                    &&& final(self).touch_down == old(self).touch_down
                    &&& final(self).pending_x == (if ev.code == ABS_X {
                        Some(ev.value)
                    } else {
                        old(self).pending_x
                    })
                    &&& final(self).pending_y == (if ev.code == ABS_Y {
                        Some(ev.value)
                    } else {
                        old(self).pending_y
                    })
                    &&& final(self).pending_tilt_x == (if ev.code == ABS_TILT_X {
                        Some(ev.value)
                    } else {
                        old(self).pending_tilt_x
                    })
                    &&& final(self).pending_tilt_y == (if ev.code == ABS_TILT_Y {
                        Some(ev.value)
                    } else {
                        old(self).pending_tilt_y
                    })
                } else if !(ev.event_type == EV_SYN && ev.code == SYN_REPORT) {
                    &&& r is None
                    &&& final(self).batch@ == batch
                    &&& final(self).touch_down == old(self).touch_down
                    &&& final(self).pending_x == old(self).pending_x
                    &&& final(self).pending_y == old(self).pending_y
                    &&& final(self).pending_tilt_x == old(self).pending_tilt_x
                    &&& final(self).pending_tilt_y == old(self).pending_tilt_y
                } else {
                    &&& r matches Some(f) && f.touch_transition == transition && f.events@ == pen_frame_events(
                        batch,
                        both(old(self).pending_x, old(self).pending_y),
                        both(old(self).pending_tilt_x, old(self).pending_tilt_y),
                        transition,
                        orientation,
                        *device,
                    )
                    &&& final(self).batch@.len() == 0
                    &&& final(self).touch_down == touching
                    &&& final(self).pending_x is None
                    &&& final(self).pending_y is None
                    &&& final(self).pending_tilt_x is None
                    &&& final(self).pending_tilt_y is None
                }
            }),
    {
        if ev.event_type == EV_ABS {
            if ev.code == ABS_X {
                self.pending_x = Some(ev.value);
                return None;
            } else if ev.code == ABS_Y {
                self.pending_y = Some(ev.value);
                return None;
            } else if ev.code == ABS_TILT_X {
                self.pending_tilt_x = Some(ev.value);
                return None;
            } else if ev.code == ABS_TILT_Y {
                self.pending_tilt_y = Some(ev.value);
                return None;
            }
        }
        self.batch.push(ev);
        if !(ev.event_type == EV_SYN && ev.code == SYN_REPORT) {
            return None;
        }
        let pressure = find_last_pressure(&self.batch);
        let now_touching = pressure > 0;
        let transition = if now_touching != self.touch_down {
            Some(now_touching)
        } else {
            None
        };
        let mut events: Vec<RawEvent> = Vec::new();
        if let Some(t) = transition {
            events.push(key_event(BTN_TOUCH, if t { 1 } else { 0 }));
        }
        let tilt = match (self.pending_tilt_x, self.pending_tilt_y) {
            (Some(tx), Some(ty)) => Some((tx, ty)),
            _ => None,
        };
        if let Some((tx, ty)) = tilt {
            let (ox, oy) = pen_tilt(orientation, tx, ty, device);
            events.push(RawEvent { event_type: EV_ABS, code: ABS_TILT_X, value: ox });
            events.push(RawEvent { event_type: EV_ABS, code: ABS_TILT_Y, value: oy });
        }
        let pos = match (self.pending_x, self.pending_y) {
            (Some(x), Some(y)) => Some((x, y)),
            _ => None,
        };
        if let Some((x, y)) = pos {
            let (ox, oy) = pen_position(orientation, x, y, device);
            events.push(RawEvent { event_type: EV_ABS, code: ABS_X, value: ox });
            events.push(RawEvent { event_type: EV_ABS, code: ABS_Y, value: oy });
        }
        let ghost prefix = events@;
        events.append(&mut self.batch);
        proof {
            let b = old(self).batch@.push(ev);
            assert(events@ =~= pen_frame_events(
                b,
                both(old(self).pending_x, old(self).pending_y),
                both(old(self).pending_tilt_x, old(self).pending_tilt_y),
                transition,
                orientation,
                *device,
            ));
        }
        self.pending_x = None;
        self.pending_y = None;
        self.pending_tilt_x = None;
        self.pending_tilt_y = None;
        self.touch_down = now_touching;
        Some(PenFrame { events, touch_transition: transition })
    }
}

/// The pen touches in a frame whose last pressure sample is positive.
pub open spec fn frame_touching(b: Seq<RawEvent>) -> bool {
    last_pressure(b) > 0
}

/// Touching state and touch-key transitions over a sequence of frame
/// batches, as `PenFrameProcessor::handle_event` decides them frame by frame
/// from the touching state `down` of the frame before.
pub open spec fn pen_run(down: bool, frames: Seq<Seq<RawEvent>>) -> (bool, Seq<Option<bool>>)
    decreases frames.len(),
{
    if frames.len() == 0 {
        (down, seq![])
    } else {
        let (d, ts) = pen_run(down, frames.drop_last());
        let t = frame_touching(frames.last());
        (t, ts.push(if t != d { Some(t) } else { None }))
    }
}

/// One frame holding a single pressure sample.
pub open spec fn pressure_frame(p: i32) -> Seq<RawEvent> {
    seq![
        RawEvent { event_type: EV_ABS, code: ABS_PRESSURE, value: p },
        RawEvent { event_type: EV_SYN, code: SYN_REPORT, value: 0 },
    ]
}

pub open spec fn pressure_frames(ps: Seq<i32>) -> Seq<Seq<RawEvent>> {
    Seq::new(ps.len(), |k: int| pressure_frame(ps[k]))
}

proof fn lemma_pressure_frame(p: i32)
    ensures
        frame_touching(pressure_frame(p)) == (p > 0),
{
    let f = pressure_frame(p);
    let g = f.drop_last();
    assert(f.last().event_type == EV_SYN);
    assert(g =~= seq![RawEvent { event_type: EV_ABS, code: ABS_PRESSURE, value: p }]);
    assert(g.last().event_type == EV_ABS && g.last().code == ABS_PRESSURE);
    assert(last_pressure(g) == p as int);
    assert(last_pressure(f) == last_pressure(g));
}

/// Over frames of pressure samples, starting with the pen up, the touch key
/// changes exactly where the pressure crosses between zero and positive:
/// pressed at a rise from 0, released at a fall to 0, and nowhere else.
pub proof fn lemma_touch_key_at_pressure_boundaries(ps: Seq<i32>)
    ensures
        pen_run(false, pressure_frames(ps)).1.len() == ps.len(),
        forall|k: int|
            0 <= k < ps.len() ==> #[trigger] pen_run(false, pressure_frames(ps)).1[k] == {
                let now = ps[k] > 0;
                let before = k > 0 && ps[k - 1] > 0;
                if now != before {
                    Some(now)
                } else {
                    None
                }
            },
    decreases ps.len(),
{
    if ps.len() > 0 {
        let prev = ps.drop_last();
        let n = ps.len() - 1;
        lemma_touch_key_at_pressure_boundaries(prev);
        assert(pressure_frames(ps).drop_last() =~= pressure_frames(prev));
        lemma_pressure_frame(ps[n]);
        assert(pressure_frames(ps).last() == pressure_frame(ps[n]));
        if n > 0 {
            lemma_pressure_frame(ps[n - 1]);
            assert(pressure_frames(prev).last() == pressure_frame(ps[n - 1]));
            assert(pen_run(false, pressure_frames(prev)).0 == (ps[n - 1] > 0));
        }
        assert forall|k: int| 0 <= k < n implies #[trigger] pen_run(false, pressure_frames(ps)).1[k]
            == pen_run(false, pressure_frames(prev)).1[k] by {}
    }
}

} // verus!
