use vstd::prelude::*;
use crate::commit::committed;
use crate::draft::{empty_draft, Edit, PendingChanges};
use crate::topology::{all_rates, max_of, Monitor};
use crate::window::{MonitorSelection, SurfaceState, VideoModeSelection, WindowMode};

verus! {

/// The two edits stage the same field.
pub open spec fn same_field(a: Edit, b: Edit) -> bool {
    match (a, b) {
        (Edit::WindowMode(_), Edit::WindowMode(_)) => true,
        (Edit::PresentMode(_), Edit::PresentMode(_)) => true,
        (Edit::Resolution(_), Edit::Resolution(_)) => true,
        (Edit::ScaleFactor(_), Edit::ScaleFactor(_)) => true,
        (Edit::Position(_), Edit::Position(_)) => true,
        _ => false,
    }
}

/// Staging a field twice leaves exactly the second value: the first edit
/// leaves no trace.
pub proof fn lemma_last_edit_wins(d: PendingChanges, first: Edit, second: Edit)
    requires
        same_field(first, second),
    ensures
        d.with_edit(first).with_edit(second) == d.with_edit(second),
        d.with_edit(first).with_edit(second).holds(second),
{
}

/// Committing an empty draft leaves the live state exactly as it was.
pub proof fn lemma_empty_commit_keeps_state(s: SurfaceState, monitors: Seq<Monitor>)
    ensures
        committed(empty_draft(), s, monitors) == s,
{
}

/// With no monitor attached, committing exclusive fullscreen together with a
/// resolution keeps the staged video mode and drops the resolution: the
/// window's physical size is left alone.
pub proof fn lemma_no_monitors_keeps_video_mode(
    p: PendingChanges,
    s: SurfaceState,
    monitors: Seq<Monitor>,
    monitor: MonitorSelection,
    video_mode: VideoModeSelection,
)
    requires
        p.window_mode == Some(WindowMode::Fullscreen(monitor, video_mode)),
        p.resolution is Some,
        monitors.len() == 0,
    ensures
        (committed(p, s, monitors).mode matches WindowMode::Fullscreen(_, v) && v == video_mode),
        committed(p, s, monitors).physical_width == s.physical_width,
        committed(p, s, monitors).physical_height == s.physical_height,
{
    assert(max_of(all_rates(monitors)) is None);
}

/// A staged value is reported active right after it is staged, and no value
/// is active in the empty draft that both cancelling and committing leave.
pub proof fn lemma_active_until_cleared(d: PendingChanges, e: Edit)
    ensures
        d.with_edit(e).holds(e),
        !empty_draft().holds(e),
{
}

} // verus!
