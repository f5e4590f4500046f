//! Shape renderers as data: each renderer turns the current pixel width and
//! height of a drawing surface into the exact sequence of vector-drawing
//! commands to issue against a drawing context.
//!
//! Coordinates, radii, scale factors and colour components are centi-units
//! (hundredths; see `geom`); angles are degrees. A host interprets each
//! command against the toolkit's drawing context.

use vstd::prelude::*;
use crate::geom::{min_spec, min_u64, round_div, round_div_spec};

verus! {

/// One primitive operation on a drawing context.
#[derive(Clone, Copy, Debug, PartialEq, Eq, Structural)]
pub enum DrawCmd {
    /// Set the outline thickness, in centi-pixels.
    SetLineWidth { width: u64 },
    /// Save the paint state, to be restored by the matching `Restore`.
    Save,
    /// Restore the paint state saved by the matching `Save`.
    Restore,
    /// Append a circular arc: centre in centi-pixels, radius in centi-units
    /// of the current transform, start and end angles in degrees.
    Arc { cx: u64, cy: u64, radius: u64, start_deg: i32, end_deg: i32 },
    /// Close the current path back to its start point.
    ClosePath,
    /// Set an opaque paint colour; components are centi-units in 0..=100.
    SetSourceRgb { red: u64, green: u64, blue: u64 },
    /// Set a translucent paint colour; components are centi-units in 0..=100.
    SetSourceRgba { red: u64, green: u64, blue: u64, alpha: u64 },
    /// Fill the current path, keeping the path for a following stroke.
    FillPreserve,
    /// Fill the current path and clear it.
    Fill,
    /// Stroke the current path and clear it.
    Stroke,
    /// Move the origin of the transform, in centi-pixels.
    Translate { x: u64, y: u64 },
    /// Scale the transform; factors are centi-units per unit.
    Scale { x: u64, y: u64 },
}

/// The multi-shape renderer's command sequence for a surface of
/// `w` by `h` pixels: an arc closed and filled green, a translucent blue
/// circle, and a translucent red ellipse, each stroked in the paint state
/// saved before its fill colour was set. Only the line width, set once
/// before any save, persists across the three shapes.
pub open spec fn multi_shape_seq(w: int, h: int) -> Seq<DrawCmd> {
    let lesser = min_spec(w, h);
    seq![
        DrawCmd::SetLineWidth { width: (2 * lesser) as u64 },
        // an open arc, explicitly closed, filled green, then stroked
        DrawCmd::Save,
        DrawCmd::Arc {
            cx: round_div_spec(100 * w, 3) as u64,
            cy: round_div_spec(100 * h, 4) as u64,
            radius: round_div_spec(100 * lesser, 4) as u64,
            start_deg: -36i32,
            end_deg: 180i32,
        },
        DrawCmd::ClosePath,
        DrawCmd::SetSourceRgb { red: 0u64, green: 80u64, blue: 0u64 },
        DrawCmd::FillPreserve,
        DrawCmd::Restore,
        DrawCmd::Stroke,
        // a full circle, filled translucent blue, then stroked
        DrawCmd::Save,
        DrawCmd::Arc {
            cx: round_div_spec(100 * w, 2) as u64,
            cy: round_div_spec(100 * h, 2) as u64,
            radius: round_div_spec(100 * lesser, 4) as u64,
            start_deg: 0i32,
            end_deg: 360i32,
        },
        DrawCmd::SetSourceRgba { red: 0u64, green: 0u64, blue: 80u64, alpha: 60u64 },
        DrawCmd::FillPreserve,
        DrawCmd::Restore,
        DrawCmd::Stroke,
        // an ellipse: a unit circle under a translated, non-uniformly
        // scaled transform, filled translucent red, then stroked
        DrawCmd::Save,
        DrawCmd::Translate {
            x: round_div_spec(100 * w, 2) as u64,
            y: round_div_spec(300 * h, 4) as u64,
        },
        DrawCmd::Scale {
            x: round_div_spec(300 * w, 8) as u64,
            y: round_div_spec(100 * h, 6) as u64,
        },
        DrawCmd::Arc { cx: 0u64, cy: 0u64, radius: 100u64, start_deg: 0i32, end_deg: 360i32 },
        DrawCmd::SetSourceRgba { red: 80u64, green: 0u64, blue: 0u64, alpha: 70u64 },
        DrawCmd::FillPreserve,
        DrawCmd::Restore,
        DrawCmd::Stroke,
    ]
}

/// The single-shape renderer's command sequence for a surface of
/// `w` by `h` pixels: one translucent olive circle, filled and not stroked.
pub open spec fn single_circle_seq(w: int, h: int) -> Seq<DrawCmd> {
    let lesser = min_spec(w, h);
    seq![
        DrawCmd::Arc {
            cx: round_div_spec(100 * w, 2) as u64,
            cy: round_div_spec(100 * h, 2) as u64,
            radius: round_div_spec(100 * lesser, 2) as u64,
            start_deg: 0i32,
            end_deg: 360i32,
        },
        DrawCmd::SetSourceRgba { red: 30u64, green: 50u64, blue: 10u64, alpha: 70u64 },
        DrawCmd::Fill,
    ]
}

/// Build the multi-shape renderer's commands for a `w` by `h` surface.
pub fn multi_shape_commands(w: u32, h: u32) -> (cmds: Vec<DrawCmd>)
    ensures
        cmds@ == multi_shape_seq(w as int, h as int),
{
    let w100: u64 = 100 * (w as u64);
    let h100: u64 = 100 * (h as u64);
    let lesser: u64 = min_u64(w as u64, h as u64);
    let mut cmds: Vec<DrawCmd> = Vec::new();
    cmds.push(DrawCmd::SetLineWidth { width: 2 * lesser });
    cmds.push(DrawCmd::Save);
    cmds.push(DrawCmd::Arc {
        cx: round_div(w100, 3),
        cy: round_div(h100, 4),
        radius: round_div(100 * lesser, 4),
        start_deg: -36,
        end_deg: 180,
    });
    cmds.push(DrawCmd::ClosePath);
    cmds.push(DrawCmd::SetSourceRgb { red: 0, green: 80, blue: 0 });
    cmds.push(DrawCmd::FillPreserve);
    cmds.push(DrawCmd::Restore);
    cmds.push(DrawCmd::Stroke);
    cmds.push(DrawCmd::Save);
    cmds.push(DrawCmd::Arc {
        cx: round_div(w100, 2),
        cy: round_div(h100, 2),
        radius: round_div(100 * lesser, 4),
        start_deg: 0,
        end_deg: 360,
    });
    cmds.push(DrawCmd::SetSourceRgba { red: 0, green: 0, blue: 80, alpha: 60 });
    cmds.push(DrawCmd::FillPreserve);
    cmds.push(DrawCmd::Restore);
    cmds.push(DrawCmd::Stroke);
    cmds.push(DrawCmd::Save);
    cmds.push(DrawCmd::Translate { x: round_div(w100, 2), y: round_div(3 * h100, 4) });
    cmds.push(DrawCmd::Scale { x: round_div(3 * w100, 8), y: round_div(h100, 6) });
    cmds.push(DrawCmd::Arc { cx: 0, cy: 0, radius: 100, start_deg: 0, end_deg: 360 });
    cmds.push(DrawCmd::SetSourceRgba { red: 80, green: 0, blue: 0, alpha: 70 });
    cmds.push(DrawCmd::FillPreserve);
    cmds.push(DrawCmd::Restore);
    cmds.push(DrawCmd::Stroke);
    proof {
        assert(cmds@ =~= multi_shape_seq(w as int, h as int));
    }
    cmds
}

/// Build the single-shape renderer's commands for a `w` by `h` surface.
pub fn single_circle_commands(w: u32, h: u32) -> (cmds: Vec<DrawCmd>)
    ensures
        cmds@ == single_circle_seq(w as int, h as int),
{
    let w100: u64 = 100 * (w as u64);
    let h100: u64 = 100 * (h as u64);
    let lesser: u64 = min_u64(w as u64, h as u64);
    let mut cmds: Vec<DrawCmd> = Vec::new();
    cmds.push(DrawCmd::Arc {
        cx: round_div(w100, 2),
        cy: round_div(h100, 2),
        radius: round_div(100 * lesser, 2),
        start_deg: 0,
        end_deg: 360,
    });
    cmds.push(DrawCmd::SetSourceRgba { red: 30, green: 50, blue: 10, alpha: 70 });
    cmds.push(DrawCmd::Fill);
    proof {
        assert(cmds@ =~= single_circle_seq(w as int, h as int));
    }
    cmds
}

} // verus!
