//! How the panels are mounted.

use vstd::prelude::*;

use crate::models::status::Orientation;

verus! {

/// The orientation of the device that a transform of the main panel stands for. The panel is
/// mounted upside down: half a turn is its upright position.
pub open spec fn main_panel_orientation(transform: u32) -> Orientation {
    if transform == 180 {
        Orientation::Normal
    } else if transform == 90 {
        Orientation::Left
    } else if transform == 270 {
        Orientation::Right
    } else {
        Orientation::Inverted
    }
}

/// The orientation of the device that a transform of the lower panel stands for.
pub open spec fn lower_panel_orientation(transform: u32) -> Orientation {
    if transform == 90 {
        Orientation::Right
    } else if transform == 180 {
        Orientation::Inverted
    } else if transform == 270 {
        Orientation::Left
    } else {
        Orientation::Normal
    }
}

/// The orientation of the device that a transform of the main panel stands for.
pub fn zenbook_duo_primary_orientation(transform: u32) -> (r: Orientation)
    ensures
        r == main_panel_orientation(transform),
{
    match transform {
        180 => Orientation::Normal,
        90 => Orientation::Left,
        270 => Orientation::Right,
        _ => Orientation::Inverted,
    }
}

/// The two panels agree on the orientation exactly when they are half a turn apart.
pub proof fn law_panels_are_mounted_half_a_turn_apart(main: u32, lower: u32)
    requires
        main == 0 || main == 90 || main == 180 || main == 270,
        lower == 0 || lower == 90 || lower == 180 || lower == 270,
    ensures
        main_panel_orientation(main) == lower_panel_orientation(lower) <==> main == (lower + 180)
            % 360,
{
}

/// The main panel is upright after half a turn, and turned left, right or over at the quarters and
/// at the start; the lower panel is upright at the start, and its quarters go the other way.
pub proof fn law_transforms_are_read_by_panel(transform: u32, r: Orientation)
    requires
        call_ensures(zenbook_duo_primary_orientation, (transform,), r),
    ensures
        r == Orientation::Normal <==> transform == 180,
        r == Orientation::Left <==> transform == 90,
        r == Orientation::Right <==> transform == 270,
        r == main_panel_orientation(transform),
        lower_panel_orientation(transform) == Orientation::Right <==> transform == 90,
        lower_panel_orientation(transform) == Orientation::Inverted <==> transform == 180,
        lower_panel_orientation(transform) == Orientation::Left <==> transform == 270,
{
}

}
