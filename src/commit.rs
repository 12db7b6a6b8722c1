use vstd::prelude::*;
use crate::draft::{empty_draft, PendingChanges};
use crate::topology::{all_rates, max_of, max_refresh_rate, Monitor};
use crate::window::{
    MonitorSelection, Resolution, SurfaceState, VideoMode, VideoModeSelection, WindowMode, WindowPosition,
};

verus! {

/// The bit depth given to a video mode built from a staged resolution.
pub const SYNTHESIZED_BIT_DEPTH: u16 = 32;

/// The mode after absorption, and the staged position and resolution that it
/// left for the generic steps (`None` where consumed or never staged).
#[derive(Clone, Copy, Debug, PartialEq, Eq, Structural)]
pub struct Absorbed {
    pub mode: WindowMode,
    pub position: Option<WindowPosition>,
    pub resolution: Option<Resolution>,
}

/// A staged position that names a monitor index outside the topology is stale
/// and is dropped; any other staged position is kept.
pub open spec fn live_position(p: Option<WindowPosition>, monitor_count: nat) -> Option<WindowPosition> {
    match p {
        Some(WindowPosition::Centered(MonitorSelection::Index(i))) => if i < monitor_count {
            p
        } else {
            None
        },
        _ => p,
    }
}

/// Folds a staged "centred on monitor M" position, and for exclusive
/// fullscreen a staged resolution, into the tentative mode.
///
/// Borderless fullscreen takes M as its monitor. Exclusive fullscreen takes M
/// as its monitor and, given a resolution and a topology-wide top refresh rate
/// `top`, a video mode of that size, 32 bits deep, at `top`; with no rate to
/// take it keeps its video mode, and the resolution is dropped either way.
/// Other modes absorb nothing.
pub open spec fn absorption(
    mode: WindowMode,
    position: Option<WindowPosition>,
    resolution: Option<Resolution>,
    top: Option<u32>,
) -> Absorbed {
    match mode {
        WindowMode::BorderlessFullscreen(_) => match position {
            Some(WindowPosition::Centered(m)) => Absorbed {
                mode: WindowMode::BorderlessFullscreen(m),
                position: None,
                resolution,
            },
            _ => Absorbed { mode, position, resolution },
        },
        WindowMode::Fullscreen(monitor, video_mode) => {
            let (m, left) = match position {
                Some(WindowPosition::Centered(m)) => (m, None),
                _ => (monitor, position),
            };
            let v = match (resolution, top) {
                (Some(r), Some(rate)) => VideoModeSelection::Specific(
                    VideoMode {
                        width: r.width,
                        height: r.height,
                        bit_depth: SYNTHESIZED_BIT_DEPTH,
                        refresh_rate_millihertz: rate,
                    },
                ),
                _ => video_mode,
            };
            Absorbed { mode: WindowMode::Fullscreen(m, v), position: left, resolution: None }
        },
        _ => Absorbed { mode, position, resolution },
    }
}

/// The live state after committing draft `p` onto `s` with monitors `monitors`.
pub open spec fn committed(p: PendingChanges, s: SurfaceState, monitors: Seq<Monitor>) -> SurfaceState {
    let mode = match p.window_mode {
        Some(m) => m,
        None => s.mode,
    };
    let a = absorption(
        mode,
        live_position(p.position, monitors.len()),
        p.resolution,
        max_of(all_rates(monitors)),
    );
    SurfaceState {
        mode: a.mode,
        present_mode: match p.present_mode {
            Some(m) => m,
            None => s.present_mode,
        },
        physical_width: match a.resolution {
            Some(r) => r.width,
            None => s.physical_width,
        },
        physical_height: match a.resolution {
            Some(r) => r.height,
            None => s.physical_height,
        },
        scale_factor_override: match p.scale_factor {
            Some(f) => f,
            None => s.scale_factor_override,
        },
        position: match a.position {
            Some(q) => q,
            None => s.position,
        },
    }
}

/// The staged position, unless it names a monitor index that is no longer there.
pub fn drop_stale_position(p: Option<WindowPosition>, monitor_count: usize) -> (r: Option<
    WindowPosition,
>)
    ensures
        r == live_position(p, monitor_count as nat),
{
    match p {
        Some(WindowPosition::Centered(MonitorSelection::Index(i))) => if i < monitor_count {
            p
        } else {
            None
        },
        _ => p,
    }
}

/// Applies the absorption rules to the tentative `mode`.
pub fn absorb(
    mode: WindowMode,
    position: Option<WindowPosition>,
    resolution: Option<Resolution>,
    monitors: &Vec<Monitor>,
) -> (a: Absorbed)
    ensures
        a == absorption(mode, position, resolution, max_of(all_rates(monitors@))),
{
    match mode {
        WindowMode::BorderlessFullscreen(_) => match position {
            Some(WindowPosition::Centered(m)) => Absorbed {
                mode: WindowMode::BorderlessFullscreen(m),
                position: None,
                resolution,
            },
            _ => Absorbed { mode, position, resolution },
        },
        WindowMode::Fullscreen(monitor, video_mode) => {
            let (m, left) = match position {
                Some(WindowPosition::Centered(m)) => (m, None),
                _ => (monitor, position),
            };
            let v = match resolution {
                Some(r) => match max_refresh_rate(monitors) {
                    Some(rate) => VideoModeSelection::Specific(
                        VideoMode {
                            width: r.width,
                            height: r.height,
                            bit_depth: SYNTHESIZED_BIT_DEPTH,
                            refresh_rate_millihertz: rate,
                        },
                    ),
                    None => video_mode,
                },
                None => video_mode,
            };
            Absorbed { mode: WindowMode::Fullscreen(m, v), position: left, resolution: None }
        },
        _ => Absorbed { mode, position, resolution },
    }
}

impl PendingChanges {
    /// Applies every staged field to `surface`, absorbing the staged monitor
    /// and resolution into fullscreen modes first, then empties the draft.
    pub fn commit(&mut self, surface: &mut SurfaceState, monitors: &Vec<Monitor>)
        ensures
            *final(surface) == committed(*old(self), *old(surface), monitors@),
            *final(self) == empty_draft(),
            final(self).spec_is_empty(),
    {
        if let Some(mode) = self.window_mode {
            surface.mode = mode;
        }
        let position = drop_stale_position(self.position, monitors.len());
        let a = absorb(surface.mode, position, self.resolution, monitors);
        surface.mode = a.mode;
        if let Some(mode) = self.present_mode {
            surface.present_mode = mode;
        }
        if let Some(r) = a.resolution {
            surface.physical_width = r.width;
            surface.physical_height = r.height;
        }
        if let Some(f) = self.scale_factor {
            surface.scale_factor_override = f;
        }
        if let Some(p) = a.position {
            surface.position = p;
        }
        self.clear();
    }
}

} // verus!
