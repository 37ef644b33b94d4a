//! The four screen orientations and the coordinate maps they induce on
//! touch positions, pen positions, pen tilt and the reported axis ranges.

use vstd::prelude::*;
use vstd::string::*;

use crate::text::same_text;

verus! {

/// Screen orientation relative to portrait (buttons at the top).
#[derive(Clone, Copy, Debug, PartialEq, Eq, Structural)]
pub enum Orientation {
    /// Portrait, no rotation.
    Portrait,
    /// Landscape with the buttons on the right: the pen digitizer's native frame.
    LandscapeRight,
    /// Landscape with the buttons on the left.
    LandscapeLeft,
    /// Portrait turned by 180 degrees.
    Inverted,
}

/// Touch map: the touch digitizer is natively portrait.
pub open spec fn touch_map(o: Orientation, x: int, y: int, x_max: int, y_max: int) -> (int, int) {
    match o {
        Orientation::Portrait => (x, y),
        Orientation::LandscapeRight => (y, x),
        Orientation::LandscapeLeft => (y_max - y, x_max - x),
        Orientation::Inverted => (x_max - x, y_max - y),
    }
}

/// Pen map: the pen digitizer is natively landscape-right.
pub open spec fn pen_map(o: Orientation, x: int, y: int, x_max: int, y_max: int) -> (int, int) {
    match o {
        Orientation::LandscapeRight => (x, y),
        Orientation::Portrait => (y, x),
        Orientation::LandscapeLeft => (x_max - x, y_max - y),
        Orientation::Inverted => (y_max - y, x_max - x),
    }
}

/// Tilt map: follows the pen, without translation.
pub open spec fn tilt_map(o: Orientation, tx: int, ty: int) -> (int, int) {
    match o {
        Orientation::LandscapeRight => (tx, ty),
        Orientation::Portrait => (ty, tx),
        Orientation::LandscapeLeft => (-tx, -ty),
        Orientation::Inverted => (-ty, -tx),
    }
}

/// Output axis maxima of the touch device.
pub open spec fn touch_dims(o: Orientation, x_max: int, y_max: int) -> (int, int) {
    match o {
        Orientation::Portrait | Orientation::Inverted => (x_max, y_max),
        Orientation::LandscapeRight | Orientation::LandscapeLeft => (y_max, x_max),
    }
}

/// Output axis maxima of the pen device.
pub open spec fn pen_dims(o: Orientation, x_max: int, y_max: int) -> (int, int) {
    match o {
        Orientation::LandscapeRight | Orientation::LandscapeLeft => (x_max, y_max),
        Orientation::Portrait | Orientation::Inverted => (y_max, x_max),
    }
}

pub open spec fn fits_i32(v: int) -> bool {
    i32::MIN <= v <= i32::MAX
}

pub open spec fn pair_fits_i32(p: (int, int)) -> bool {
    fits_i32(p.0) && fits_i32(p.1)
}

/// The name an orientation is written with.
pub open spec fn orientation_name(o: Orientation) -> Seq<char> {
    match o {
        Orientation::Portrait => "portrait"@,
        Orientation::LandscapeRight => "landscape-right"@,
        Orientation::LandscapeLeft => "landscape-left"@,
        Orientation::Inverted => "inverted"@,
    }
}

/// The orientation a lower-case name stands for, if any.
pub open spec fn orientation_named(t: Seq<char>) -> Option<Orientation> {
    if t == "portrait"@ {
        Some(Orientation::Portrait)
    } else if t == "landscape-right"@ || t == "landscaperight"@ || t == "landscape_right"@ {
        Some(Orientation::LandscapeRight)
    } else if t == "landscape-left"@ || t == "landscapeleft"@ || t == "landscape_left"@ {
        Some(Orientation::LandscapeLeft)
    } else if t == "inverted"@ {
        Some(Orientation::Inverted)
    } else {
        None
    }
}

/// What `str::to_lowercase` returns for a text.
pub uninterp spec fn lower_of(s: Seq<char>) -> Seq<char>;

/// Relies on `str::to_lowercase`: the result depends on the characters alone.
#[verifier::external_body]
fn lowercase(s: &str) -> (r: String)
    ensures
        r@ == lower_of(s@),
{
    s.to_lowercase()
}

impl Orientation {
    /// Maps a touch position from device space to output space.
    pub fn transform_touch(&self, x: i32, y: i32, x_max: i32, y_max: i32) -> (r: (i32, i32))
        requires
            pair_fits_i32(touch_map(*self, x as int, y as int, x_max as int, y_max as int)),
        ensures
            (r.0 as int, r.1 as int) == touch_map(*self, x as int, y as int, x_max as int, y_max as int),
    {
        match self {
            Orientation::Portrait => (x, y),
            Orientation::LandscapeRight => (y, x),
            Orientation::LandscapeLeft => (y_max - y, x_max - x),
            Orientation::Inverted => (x_max - x, y_max - y),
        }
    }

    /// Maps a pen position from device space to output space.
    pub fn transform_pen(&self, x: i32, y: i32, x_max: i32, y_max: i32) -> (r: (i32, i32))
        requires
            pair_fits_i32(pen_map(*self, x as int, y as int, x_max as int, y_max as int)),
        ensures
            (r.0 as int, r.1 as int) == pen_map(*self, x as int, y as int, x_max as int, y_max as int),
    {
        match self {
            Orientation::LandscapeRight => (x, y),
            Orientation::Portrait => (y, x),
            Orientation::LandscapeLeft => (x_max - x, y_max - y),
            Orientation::Inverted => (y_max - y, x_max - x),
        }
    }

    /// Maps a pen tilt pair to output space.
    pub fn transform_tilt(&self, tilt_x: i32, tilt_y: i32) -> (r: (i32, i32))
        requires
            pair_fits_i32(tilt_map(*self, tilt_x as int, tilt_y as int)),
        ensures
            (r.0 as int, r.1 as int) == tilt_map(*self, tilt_x as int, tilt_y as int),
    {
        match self {
            Orientation::LandscapeRight => (tilt_x, tilt_y),
            Orientation::Portrait => (tilt_y, tilt_x),
            Orientation::LandscapeLeft => (-tilt_x, -tilt_y),
            Orientation::Inverted => (-tilt_y, -tilt_x),
        }
    }

    /// Output axis maxima of the touch device.
    pub fn touch_output_dimensions(&self, x_max: i32, y_max: i32) -> (r: (i32, i32))
        ensures
            (r.0 as int, r.1 as int) == touch_dims(*self, x_max as int, y_max as int),
    {
        match self {
            Orientation::Portrait | Orientation::Inverted => (x_max, y_max),
            Orientation::LandscapeRight | Orientation::LandscapeLeft => (y_max, x_max),
        }
    }

    /// Output axis maxima of the pen device.
    pub fn pen_output_dimensions(&self, x_max: i32, y_max: i32) -> (r: (i32, i32))
        ensures
            (r.0 as int, r.1 as int) == pen_dims(*self, x_max as int, y_max as int),
    {
        match self {
            Orientation::LandscapeRight | Orientation::LandscapeLeft => (x_max, y_max),
            Orientation::Portrait | Orientation::Inverted => (y_max, x_max),
        }
    }

    /// The name the orientation is written with.
    pub fn name(&self) -> (r: String)
        ensures
            r@ == orientation_name(*self),
    {
        match self {
            Orientation::Portrait => String::from_str("portrait"),
            Orientation::LandscapeRight => String::from_str("landscape-right"),
            Orientation::LandscapeLeft => String::from_str("landscape-left"),
            Orientation::Inverted => String::from_str("inverted"),
        }
    }

    /// Reads an already lower-cased name.
    pub fn from_lowercase(t: &str) -> (r: Result<Orientation, String>)
        ensures
            r is Ok <==> orientation_named(t@) is Some,
            r matches Ok(o) ==> orientation_named(t@) == Some(o),
    {
        if same_text(t, "portrait") {
            Ok(Orientation::Portrait)
        } else if same_text(t, "landscape-right") || same_text(t, "landscaperight") || same_text(
            t,
            "landscape_right",
        ) {
            Ok(Orientation::LandscapeRight)
        } else if same_text(t, "landscape-left") || same_text(t, "landscapeleft") || same_text(
            t,
            "landscape_left",
        ) {
            Ok(Orientation::LandscapeLeft)
        } else if same_text(t, "inverted") {
            Ok(Orientation::Inverted)
        } else {
            let msg = String::from_str("Invalid orientation '").concat(t).concat(
                "'. Valid values: portrait, landscape-right, landscape-left, inverted",
            );
            Err(msg)
        }
    }

    /// Reads a name in any letter case.
    pub fn parse(s: &str) -> (r: Result<Orientation, String>)
        ensures
            r is Ok <==> orientation_named(lower_of(s@)) is Some,
            r matches Ok(o) ==> orientation_named(lower_of(s@)) == Some(o),
    {
        let lower = lowercase(s);
        Orientation::from_lowercase(lower.as_str())
    }
}

impl Default for Orientation {
    fn default() -> (r: Orientation)
        ensures
            r == Orientation::LandscapeRight,
    {
        Orientation::LandscapeRight
    }
}

impl std::str::FromStr for Orientation {
    type Err = String;

    fn from_str(s: &str) -> Result<Orientation, String> {
        Orientation::parse(s)
    }
}

/// Each orientation's touch and pen maps keep a point of the device
/// rectangle inside the output rectangle that the orientation reports.
pub proof fn lemma_transforms_stay_in_bounds(o: Orientation, x: int, y: int, x_max: int, y_max: int)
    requires
        0 <= x <= x_max,
        0 <= y <= y_max,
    ensures
        0 <= touch_map(o, x, y, x_max, y_max).0 <= touch_dims(o, x_max, y_max).0,
        0 <= touch_map(o, x, y, x_max, y_max).1 <= touch_dims(o, x_max, y_max).1,
        0 <= pen_map(o, x, y, x_max, y_max).0 <= pen_dims(o, x_max, y_max).0,
        0 <= pen_map(o, x, y, x_max, y_max).1 <= pen_dims(o, x_max, y_max).1,
{
}

/// The device's far corner lands on a corner of the reported output
/// rectangle: its far corner where the map only permutes axes, the origin
/// where it also inverts them.
pub proof fn lemma_far_corner(o: Orientation, x_max: int, y_max: int)
    ensures
        touch_map(o, x_max, y_max, x_max, y_max) == (match o {
            Orientation::Portrait | Orientation::LandscapeRight => touch_dims(o, x_max, y_max),
            Orientation::LandscapeLeft | Orientation::Inverted => (0int, 0int),
        }),
        pen_map(o, x_max, y_max, x_max, y_max) == (match o {
            Orientation::Portrait | Orientation::LandscapeRight => pen_dims(o, x_max, y_max),
            Orientation::LandscapeLeft | Orientation::Inverted => (0int, 0int),
        }),
{
}

/// The touch digitizer is the pen digitizer with its axes exchanged, and
/// tilt turns as pen positions do, without translation.
pub proof fn lemma_maps_agree(o: Orientation, x: int, y: int, x_max: int, y_max: int)
    ensures
        touch_map(o, x, y, x_max, y_max) == pen_map(o, y, x, y_max, x_max),
        touch_dims(o, x_max, y_max) == pen_dims(o, y_max, x_max),
        tilt_map(o, x, y) == pen_map(o, x, y, 0, 0),
{
}

} // verus!
