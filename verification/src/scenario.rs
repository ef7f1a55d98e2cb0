//! How a `WOW_CAPTURE=<name>` run is set up before the first frame: which lane the name takes,
//! which subject the effect viewer spawns, which motion the water viewer drives, and when the UI
//! fixture a scenario asks for is seeded.
//!
//! The scenario tables themselves are the client's; it looks the name up in them and hands the
//! answers in.
use crate::text::{chars_of, same_text, string_of};
use vstd::prelude::*;

verus! {

/// The lane a capture run takes.
#[derive(Clone, Copy, Debug, PartialEq, Eq, Structural)]
pub enum CaptureLane {
    /// A glue screen: only the shutter, no world.
    Glue,
    /// The effect viewer: one effect, missile, unit or game object, from the `WOW_FX_*` knobs.
    FxView,
    /// The water-foam viewer.
    WaterFx,
    /// The arbitrary-viewpoint instrument (`WOW_VISTA_*`).
    Vista,
    /// A scenario from the blessed or the on-demand table.
    Named,
    /// Not a known scenario: the run refuses to start.
    Unknown,
}

pub open spec fn fxview_word() -> Seq<char> {
    seq!['f', 'x', 'v', 'i', 'e', 'w']
}

pub open spec fn waterfx_word() -> Seq<char> {
    seq!['w', 'a', 't', 'e', 'r', 'f', 'x']
}

pub open spec fn vista_word() -> Seq<char> {
    seq!['v', 'i', 's', 't', 'a']
}

/// The lane of `name`: a glue screen first (`glue`: the name is in the glue table), then the three
/// instruments by name, then the scenario tables (`named`: the name is in one of them).
pub open spec fn lane_of(name: Seq<char>, glue: bool, named: bool) -> CaptureLane {
    if glue {
        CaptureLane::Glue
    } else if name == fxview_word() {
        CaptureLane::FxView
    } else if name == waterfx_word() {
        CaptureLane::WaterFx
    } else if name == vista_word() {
        CaptureLane::Vista
    } else if named {
        CaptureLane::Named
    } else {
        CaptureLane::Unknown
    }
}

/// Which lane a `WOW_CAPTURE` name takes.
pub fn capture_lane(name: &str, glue: bool, named: bool) -> (r: CaptureLane)
    ensures
        r == lane_of(name@, glue, named),
{
    if glue {
        return CaptureLane::Glue;
    }
    let v = chars_of(name);
    let fx = vec!['f', 'x', 'v', 'i', 'e', 'w'];
    let water = vec!['w', 'a', 't', 'e', 'r', 'f', 'x'];
    let vista = vec!['v', 'i', 's', 't', 'a'];
    assert(fx@ =~= fxview_word());
    assert(water@ =~= waterfx_word());
    assert(vista@ =~= vista_word());
    if same_text(&v, &fx) {
        CaptureLane::FxView
    } else if same_text(&v, &water) {
        CaptureLane::WaterFx
    } else if same_text(&v, &vista) {
        CaptureLane::Vista
    } else if named {
        CaptureLane::Named
    } else {
        CaptureLane::Unknown
    }
}

/// The effect viewer's model path: `WOW_FX_MODEL` when set; empty when a display id
/// (`WOW_FX_DISPLAY` or `WOW_FX_GO`) names the model instead; `None` when the run names no
/// subject at all and must refuse to start.
pub fn fx_model_path(model: Option<&str>, display: Option<u32>, go: Option<u32>) -> (r: Option<
    String,
>)
    ensures
        model matches Some(p) ==> (r matches Some(q) && q@ == p@),
        model is None && (display is Some || go is Some) ==> (r matches Some(q) && q@.len() == 0),
        model is None && display is None && go is None ==> r is None,
{
    match model {
        Some(p) => Some(p.to_owned()),
        None => {
            if display.is_some() || go.is_some() {
                Some(string_of(&Vec::new()))
            } else {
                None
            }
        },
    }
}

/// The water viewer's motion.
#[derive(Clone, Copy, Debug, PartialEq, Eq, Structural)]
pub enum WaterMode {
    Ring,
    Wake,
    Turn,
}

/// `WOW_WFX_MODE`: `wake` or `turn`, anything else a ring.
pub fn water_mode(value: Option<&str>) -> (r: WaterMode)
    ensures
        r == (if value matches Some(s) && s@ == seq!['w', 'a', 'k', 'e'] {
            WaterMode::Wake
        } else if value matches Some(s) && s@ == seq!['t', 'u', 'r', 'n'] {
            WaterMode::Turn
        } else {
            WaterMode::Ring
        }),
{
    match value {
        Some(s) => {
            let v = chars_of(s);
            let wake = vec!['w', 'a', 'k', 'e'];
            let turn = vec!['t', 'u', 'r', 'n'];
            assert(wake@ =~= seq!['w', 'a', 'k', 'e']);
            assert(turn@ =~= seq!['t', 'u', 'r', 'n']);
            if same_text(&v, &wake) {
                WaterMode::Wake
            } else if same_text(&v, &turn) {
                WaterMode::Turn
            } else {
                WaterMode::Ring
            }
        },
        None => WaterMode::Ring,
    }
}

/// Whether this frame seeds the UI fixture: the scenario asks for one (`asked`), it has not been
/// seeded yet, and the world has finished loading — every one of a non-empty set of tiles ready.
/// Seeded once: the caller sets its latch the frame this answers `true`.
pub fn ui_fixture_due(asked: bool, seeded: bool, ready: usize, total: usize) -> (r: bool)
    ensures
        r == (asked && !seeded && total > 0 && ready == total),
{
    asked && !seeded && total > 0 && ready == total
}

} // verus!
