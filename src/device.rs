//! Per-model device profiles: digitizer ranges, record width, device paths.

use vstd::prelude::*;
use vstd::string::*;

verus! {

/// What `str::trim` returns for a text.
pub uninterp spec fn trim_of(s: Seq<char>) -> Seq<char>;

/// Relies on `str::trim`: leading and trailing white space removed; the
/// result depends on the characters alone.
#[verifier::external_body]
pub(crate) fn trim(s: &str) -> (r: &str)
    ensures
        r@ == trim_of(s@),
{
    s.trim()
}

/// `p` occurs in `s` as a run of consecutive characters.
pub open spec fn occurs_in(s: Seq<char>, p: Seq<char>) -> bool {
    exists|i: int| 0 <= i && i + p.len() <= s.len() && #[trigger] s.subrange(i, i + p.len()) == p
}

/// Relies on `str::contains` with a `&str` pattern: true when the pattern
/// matches a sub-slice of the text.
#[verifier::external_body]
pub(crate) fn contains(s: &str, p: &str) -> (r: bool)
    ensures
        r == occurs_in(s@, p@),
{
    s.contains(p)
}

/// Device-specific parameters for input handling.
#[derive(Debug, Clone, Copy)]
pub struct DeviceProfile {
    pub name: &'static str,
    /// Width in bytes of one raw input-event record on the device.
    pub input_event_size: usize,
    pub pen_x_max: i32,
    pub pen_y_max: i32,
    pub pen_pressure_max: i32,
    pub pen_distance_max: i32,
    pub pen_tilt_range: i32,
    pub touch_x_max: i32,
    pub touch_y_max: i32,
    pub touch_resolution: i32,
    pub pen_device: &'static str,
    pub touch_device: &'static str,
}

/// The reMarkable 2 profile.
pub open spec fn rm2_profile() -> DeviceProfile {
    DeviceProfile {
        name: "reMarkable 2",
        input_event_size: 16,
        pen_x_max: 20967,
        pen_y_max: 15725,
        pen_pressure_max: 4095,
        pen_distance_max: 255,
        pen_tilt_range: 6400,
        touch_x_max: 1403,
        touch_y_max: 1871,
        touch_resolution: 9,
        pen_device: "/dev/input/event1",
        touch_device: "/dev/input/event2",
    }
}

/// The reMarkable Paper Pro profile.
pub open spec fn rmpp_profile() -> DeviceProfile {
    DeviceProfile {
        name: "reMarkable Paper Pro",
        input_event_size: 24,
        pen_x_max: 24192,
        pen_y_max: 18144,
        pen_pressure_max: 4095,
        pen_distance_max: 255,
        pen_tilt_range: 5900,
        touch_x_max: 1619,
        touch_y_max: 2159,
        touch_resolution: 9,
        pen_device: "/dev/input/event1",
        touch_device: "/dev/input/event2",
    }
}

/// The reMarkable 2 profile.
pub fn rm2() -> (r: DeviceProfile)
    ensures
        r == rm2_profile(),
        r.wf(),
{
    DeviceProfile {
        name: "reMarkable 2",
        input_event_size: 16,
        pen_x_max: 20967,
        pen_y_max: 15725,
        pen_pressure_max: 4095,
        pen_distance_max: 255,
        pen_tilt_range: 6400,
        touch_x_max: 1403,
        touch_y_max: 1871,
        touch_resolution: 9,
        pen_device: "/dev/input/event1",
        touch_device: "/dev/input/event2",
    }
}

/// The reMarkable Paper Pro profile.
pub fn rmpp() -> (r: DeviceProfile)
    ensures
        r == rmpp_profile(),
        r.wf(),
{
    DeviceProfile {
        name: "reMarkable Paper Pro",
        input_event_size: 24,
        pen_x_max: 24192,
        pen_y_max: 18144,
        pen_pressure_max: 4095,
        pen_distance_max: 255,
        pen_tilt_range: 5900,
        touch_x_max: 1619,
        touch_y_max: 2159,
        touch_resolution: 9,
        pen_device: "/dev/input/event1",
        touch_device: "/dev/input/event2",
    }
}

/// Why a model could not be matched to a profile.
#[derive(Debug, Clone, PartialEq, Eq)]
pub enum DetectError {
    /// Reading the model exited with this status.
    Status(i32),
    /// The model text was empty.
    EmptyModel,
    /// No profile is known for this model.
    Unsupported(String),
}

impl DeviceProfile {
    /// Ranges the transforms and clamps rely on.
    pub open spec fn wf(&self) -> bool {
        &&& self.pen_x_max >= 0
        &&& self.pen_y_max >= 0
        &&& self.pen_pressure_max >= 0
        &&& self.pen_distance_max >= 0
        &&& self.pen_tilt_range >= 0
        &&& self.touch_x_max >= 0
        &&& self.touch_y_max >= 0
        &&& self.input_event_size == 16 || self.input_event_size == 24
    }

    /// Whether the profile's ranges are usable: every maximum non-negative
    /// and a known record width.
    pub fn is_valid(&self) -> (r: bool)
        ensures
            r == self.wf(),
    {
        self.pen_x_max >= 0 && self.pen_y_max >= 0 && self.pen_pressure_max >= 0
            && self.pen_distance_max >= 0 && self.pen_tilt_range >= 0 && self.touch_x_max >= 0
            && self.touch_y_max >= 0 && (self.input_event_size == 16 || self.input_event_size == 24)
    }

    /// The profile used before the model is known.
    pub fn current() -> (r: DeviceProfile)
        ensures
            r == rm2_profile(),
            r.wf(),
    {
        rm2()
    }

    /// Picks the profile from the output of reading the device-tree model:
    /// a Paper Pro ("reMarkable Ferrari") first, then a reMarkable 2.
    pub fn from_model(status: i32, output: &str) -> (r: Result<DeviceProfile, DetectError>)
        ensures
            status != 0 ==> r == Err::<DeviceProfile, DetectError>(DetectError::Status(status)),
            status == 0 && trim_of(output@).len() == 0 ==> r == Err::<DeviceProfile, DetectError>(DetectError::EmptyModel),
            status == 0 && trim_of(output@).len() > 0 ==> {
                if occurs_in(trim_of(output@), "reMarkable Ferrari"@) {
                    r == Ok::<DeviceProfile, DetectError>(rmpp_profile())
                } else if occurs_in(trim_of(output@), "reMarkable 2.0"@) {
                    r == Ok::<DeviceProfile, DetectError>(rm2_profile())
                } else {
                    r matches Err(DetectError::Unsupported(m)) && m@ == trim_of(output@)
                }
            },
            r matches Ok(p) ==> p.wf(),
    {
        if status != 0 {
            return Err(DetectError::Status(status));
        }
        let model = trim(output);
        if model.unicode_len() == 0 {
            return Err(DetectError::EmptyModel);
        }
        if contains(model, "reMarkable Ferrari") {
            return Ok(rmpp());
        }
        if contains(model, "reMarkable 2.0") {
            return Ok(rm2());
        }
        Err(DetectError::Unsupported(model.to_owned()))
    }
}

} // verus!
