use vstd::prelude::*;

verus! {

/// Which monitor a fullscreen mode or a centred position refers to.
#[derive(Clone, Copy, Debug, PartialEq, Eq, Structural)]
pub enum MonitorSelection {
    /// The monitor that currently hosts the window.
    Current,
    /// The monitor the operating system reports as primary.
    Primary,
    /// The monitor at this position in the topology's list.
    Index(usize),
    /// The monitor with this entity identifier in the backend's world.
    Entity(u64),
}

/// A size in physical pixels.
#[derive(Clone, Copy, Debug, PartialEq, Eq, Structural)]
pub struct Resolution {
    pub width: u32,
    pub height: u32,
}

/// A monitor capability: physical size, bit depth and refresh rate.
#[derive(Clone, Copy, Debug, PartialEq, Eq, Structural)]
pub struct VideoMode {
    pub width: u32,
    pub height: u32,
    pub bit_depth: u16,
    pub refresh_rate_millihertz: u32,
}

/// The video mode used by exclusive fullscreen.
#[derive(Clone, Copy, Debug, PartialEq, Eq, Structural)]
pub enum VideoModeSelection {
    /// Keep the video mode the monitor is using.
    Current,
    /// Switch to this video mode.
    Specific(VideoMode),
}

/// How the window occupies the screen.
#[derive(Clone, Copy, Debug, PartialEq, Eq, Structural)]
pub enum WindowMode {
    Windowed,
    BorderlessFullscreen(MonitorSelection),
    Fullscreen(MonitorSelection, VideoModeSelection),
}

/// How rendered frames are handed to the display.
#[derive(Clone, Copy, Debug, PartialEq, Eq, Structural)]
pub enum PresentMode {
    AutoVsync,
    AutoNoVsync,
    Fifo,
    FifoRelaxed,
    Immediate,
    Mailbox,
}

/// Where the window is placed.
#[derive(Clone, Copy, Debug, PartialEq, Eq, Structural)]
pub enum WindowPosition {
    /// Left to the windowing system.
    Automatic,
    /// Centred on the selected monitor.
    Centered(MonitorSelection),
    /// At these physical coordinates.
    At(i32, i32),
}

/// The scale factor of the window's contents.
///
/// An override holds the IEEE-754 bit pattern of the `f32` factor, so that
/// the value is carried exactly and compared by identity.
#[derive(Clone, Copy, Debug, PartialEq, Eq, Structural)]
pub enum ScaleFactor {
    /// Use the factor the operating system reports for the monitor.
    Automatic,
    /// Use this factor instead.
    Override(u32),
}

/// The live properties of the one managed window.
#[derive(Clone, Copy, Debug, PartialEq, Eq, Structural)]
pub struct SurfaceState {
    pub mode: WindowMode,
    pub present_mode: PresentMode,
    pub physical_width: u32,
    pub physical_height: u32,
    pub scale_factor_override: ScaleFactor,
    pub position: WindowPosition,
}

} // verus!
