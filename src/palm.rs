//! Palm rejection: the pen pipeline records when the pen touches and lifts,
//! the touch pipeline asks whether touch is to be suppressed.

use vstd::prelude::*;

use std::time::Instant;

use crate::config::Config;

verus! {

/// `std::time::Instant`, carried through unread.
#[verifier::external_type_specification]
#[verifier::external_body]
pub struct ExInstant(std::time::Instant);

/// State shared by the pen pipeline (the only writer) and the touch
/// pipeline (the only reader).
pub struct PalmState {
    /// The pen is touching the screen.
    pub pen_down: bool,
    /// When the pen last left the screen; `None` if it has not this session.
    pub last_pen_up: Option<Instant>,
}

/// Relies on `Instant::elapsed`: the whole milliseconds since `t`, a value
/// of the clock that nothing here can predict.
#[verifier::external_body]
fn elapsed_ms(t: &Instant) -> (r: u128) {
    t.elapsed().as_millis()
}

impl PalmState {
    /// No pen contact yet, and no lift.
    pub fn new() -> (r: PalmState)
        ensures
            !r.pen_down,
            r.last_pen_up is None,
    {
        PalmState { pen_down: false, last_pen_up: None }
    }
}

/// The lift time after the pen reports `now_touching` at `now`: stamped
/// when the pen was down and has left the screen, kept otherwise.
pub open spec fn lift_after(pen_down: bool, last: Option<Instant>, now_touching: bool, now: Instant) -> Option<Instant> {
    if pen_down && !now_touching {
        Some(now)
    } else {
        last
    }
}

/// Records the pen's touching state `now_touching` seen at `now`; the lift
/// time is stamped only on a change from touching to not touching.
pub fn update_palm_state(state: &mut PalmState, now_touching: bool, now: Instant)
    ensures
        final(state).pen_down == now_touching,
        final(state).last_pen_up == lift_after(old(state).pen_down, old(state).last_pen_up, now_touching, now),
{
    if state.pen_down && !now_touching {
        state.last_pen_up = Some(now);
    }
    state.pen_down = now_touching;
}

/// Palm state after a sequence of `(touching, time)` reports, starting
/// from `(pen_down, last_pen_up)`.
pub open spec fn palm_after(pen_down: bool, last: Option<Instant>, reports: Seq<(bool, Instant)>) -> (
    bool,
    Option<Instant>,
)
    decreases reports.len(),
{
    if reports.len() == 0 {
        (pen_down, last)
    } else {
        let (d, l) = palm_after(pen_down, last, reports.drop_last());
        (reports.last().0, lift_after(d, l, reports.last().0, reports.last().1))
    }
}

/// Report `k` lifts the pen: the report before it (or the initial state,
/// the pen up) was touching and this one is not.
pub open spec fn lifts_at(reports: Seq<(bool, Instant)>, k: int) -> bool {
    &&& 0 < k < reports.len()
    &&& reports[k - 1].0
    &&& !reports[k].0
}

/// From a fresh state, the lift time is set only by a report that changes
/// the pen from touching to not touching: it is absent when no report does,
/// and it is the time of the last report that does.
pub proof fn lemma_lift_time_only_on_lift(reports: Seq<(bool, Instant)>)
    ensures
        reports.len() > 0 ==> palm_after(false, None, reports).0 == reports.last().0,
        (forall|k: int| !#[trigger] lifts_at(reports, k)) ==> palm_after(false, None, reports).1 is None,
        forall|k: int|
            #[trigger] lifts_at(reports, k) && (forall|j: int| k < j ==> !#[trigger] lifts_at(reports, j))
                ==> palm_after(false, None, reports).1 == Some(reports[k].1),
    decreases reports.len(),
{
    if reports.len() > 0 {
        let prev = reports.drop_last();
        let n = reports.len() - 1;
        lemma_lift_time_only_on_lift(prev);
        let d = palm_after(false, None, prev).0;
        let l = palm_after(false, None, prev).1;
        assert(n > 0 ==> prev.last() == reports[n - 1]);
        assert(n == 0 ==> d == false && l is None);
        assert(lifts_at(reports, n) <==> (d && !reports[n].0));
        assert forall|k: int| k != n implies #[trigger] lifts_at(reports, k) == lifts_at(prev, k) by {
            if 0 < k < n {
                assert(prev[k] == reports[k]);
                assert(prev[k - 1] == reports[k - 1]);
            }
        }
        if lifts_at(reports, n) {
            assert(palm_after(false, None, reports).1 == Some(reports[n].1));
        } else {
            assert(palm_after(false, None, reports).1 == l);
            assert forall|k: int|
                #[trigger] lifts_at(reports, k) && (forall|j: int| k < j ==> !#[trigger] lifts_at(reports, j))
                    implies palm_after(false, None, reports).1 == Some(reports[k].1) by {
                assert(k != n);
                assert(lifts_at(prev, k));
                assert(prev[k] == reports[k]);
                assert forall|j: int| k < j implies !#[trigger] lifts_at(prev, j) by {
                    if j != n {
                        assert(lifts_at(reports, j) == lifts_at(prev, j));
                    }
                }
            }
            if forall|k: int| !#[trigger] lifts_at(reports, k) {
                assert forall|k: int| !#[trigger] lifts_at(prev, k) by {
                    if k != n {
                        assert(lifts_at(reports, k) == lifts_at(prev, k));
                    }
                }
            }
        }
    }
}

/// Touch is suppressed while the pen is down, or while fewer than
/// `grace_ms` milliseconds have passed since it was lifted.
pub open spec fn suppresses(pen_down: bool, elapsed: Option<u128>, grace_ms: u64) -> bool {
    pen_down || (elapsed matches Some(e) && e < grace_ms as u128)
}

/// With the pen up, touch stays suppressed one millisecond before the grace
/// period ends and is no longer suppressed one millisecond after it.
pub proof fn lemma_grace_window(grace_ms: u64)
    requires
        grace_ms >= 1,
    ensures
        suppresses(true, None, grace_ms),
        suppresses(false, Some((grace_ms - 1) as u128), grace_ms),
        !suppresses(false, Some((grace_ms + 1) as u128), grace_ms),
        !suppresses(false, None, grace_ms),
{
}

/// The suppression rule, given the milliseconds since the last lift.
pub fn palm_suppression(pen_down: bool, elapsed: Option<u128>, grace_ms: u64) -> (r: bool)
    ensures
        r == suppresses(pen_down, elapsed, grace_ms),
{
    if pen_down {
        return true;
    }
    match elapsed {
        Some(e) => e < grace_ms as u128,
        None => false,
    }
}

/// Whether the touch pipeline must suppress this frame, reading the clock
/// when the pen was lifted before.
pub fn should_suppress_palm(state: &PalmState, grace_ms: u64) -> (r: bool)
    ensures
        state.pen_down ==> r,
        !state.pen_down && state.last_pen_up is None ==> !r,
        exists|e: Option<u128>|
            (e is Some <==> state.last_pen_up is Some) && r == suppresses(state.pen_down, e, grace_ms),
{
    let elapsed = match &state.last_pen_up {
        Some(t) => Some(elapsed_ms(t)),
        None => None,
    };
    palm_suppression(state.pen_down, elapsed, grace_ms)
}

/// Palm rejection runs when it is not turned off and both the pen and the
/// touch pipelines run; otherwise there is no shared state and touch is
/// never suppressed.
pub fn create_palm_state(config: &Config) -> (r: Option<PalmState>)
    ensures
        r is Some <==> (!config.no_palm_rejection && !config.touch_only && !config.pen_only),
        r matches Some(p) ==> !p.pen_down && p.last_pen_up is None,
{
    if config.no_palm_rejection {
        return None;
    }
    if !config.run_pen() || !config.run_touch() {
        return None;
    }
    Some(PalmState::new())
}

} // verus!
