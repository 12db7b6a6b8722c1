use vstd::prelude::*;
use crate::window::{PresentMode, Resolution, ScaleFactor, WindowMode, WindowPosition};

verus! {

/// A proposed new value for one configurable field.
#[derive(Clone, Copy, Debug, PartialEq, Eq, Structural)]
pub enum Edit {
    WindowMode(WindowMode),
    PresentMode(PresentMode),
    Resolution(Resolution),
    ScaleFactor(ScaleFactor),
    Position(WindowPosition),
}

/// The draft: at most one staged value per configurable field.
#[derive(Clone, Copy, Debug, PartialEq, Eq, Structural)]
pub struct PendingChanges {
    pub window_mode: Option<WindowMode>,
    pub present_mode: Option<PresentMode>,
    pub resolution: Option<Resolution>,
    pub scale_factor: Option<ScaleFactor>,
    pub position: Option<WindowPosition>,
}

/// The draft with nothing staged.
pub open spec fn empty_draft() -> PendingChanges {
    PendingChanges {
        window_mode: None,
        present_mode: None,
        resolution: None,
        scale_factor: None,
        position: None,
    }
}

impl PendingChanges {
    /// Every field is absent.
    pub open spec fn spec_is_empty(self) -> bool {
        &&& self.window_mode is None
        &&& self.present_mode is None
        &&& self.resolution is None
        &&& self.scale_factor is None
        &&& self.position is None
    }

    /// The draft with `e`'s field replaced by `e`'s value, the others kept.
    pub open spec fn with_edit(self, e: Edit) -> PendingChanges {
        match e {
            Edit::WindowMode(m) => PendingChanges { window_mode: Some(m), ..self },
            Edit::PresentMode(m) => PendingChanges { present_mode: Some(m), ..self },
            Edit::Resolution(r) => PendingChanges { resolution: Some(r), ..self },
            Edit::ScaleFactor(f) => PendingChanges { scale_factor: Some(f), ..self },
            Edit::Position(p) => PendingChanges { position: Some(p), ..self },
        }
    }

    /// `e`'s field holds exactly `e`'s value.
    pub open spec fn holds(self, e: Edit) -> bool {
        match e {
            Edit::WindowMode(m) => self.window_mode == Some(m),
            Edit::PresentMode(m) => self.present_mode == Some(m),
            Edit::Resolution(r) => self.resolution == Some(r),
            Edit::ScaleFactor(f) => self.scale_factor == Some(f),
            Edit::Position(p) => self.position == Some(p),
        }
    }

    /// An empty draft.
    pub fn new() -> (d: PendingChanges)
        ensures
            d == empty_draft(),
    {
        PendingChanges {
            window_mode: None,
            present_mode: None,
            resolution: None,
            scale_factor: None,
            position: None,
        }
    }

    /// Whether no field is staged.
    pub fn is_empty(&self) -> (r: bool)
        ensures
            r == self.spec_is_empty(),
    {
        self.window_mode.is_none() && self.present_mode.is_none() && self.resolution.is_none()
            && self.scale_factor.is_none() && self.position.is_none()
    }

    /// Discards every staged field. Clearing an empty draft changes nothing.
    pub fn clear(&mut self)
        ensures
            *final(self) == empty_draft(),
            final(self).spec_is_empty(),
    {
        *self = PendingChanges::new();
    }

    /// Stages `e`, replacing whatever its field held.
    pub fn edit(&mut self, e: Edit)
        ensures
            *final(self) == old(self).with_edit(e),
    {
        match e {
            Edit::WindowMode(m) => self.window_mode = Some(m),
            Edit::PresentMode(m) => self.present_mode = Some(m),
            Edit::Resolution(r) => self.resolution = Some(r),
            Edit::ScaleFactor(f) => self.scale_factor = Some(f),
            Edit::Position(p) => self.position = Some(p),
        }
    }

    /// Whether `e` is what its field currently has staged.
    pub fn is_active(&self, e: &Edit) -> (r: bool)
        ensures
            r == self.holds(*e),
    {
        match *e {
            Edit::WindowMode(m) => match self.window_mode {
                Some(s) => s == m,
                None => false,
            },
            Edit::PresentMode(m) => match self.present_mode {
                Some(s) => s == m,
                None => false,
            },
            Edit::Resolution(r) => match self.resolution {
                Some(s) => s == r,
                None => false,
            },
            Edit::ScaleFactor(f) => match self.scale_factor {
                Some(s) => s == f,
                None => false,
            },
            Edit::Position(p) => match self.position {
                Some(s) => s == p,
                None => false,
            },
        }
    }
}

impl Default for PendingChanges {
    fn default() -> (d: PendingChanges)
        ensures
            d == empty_draft(),
    {
        PendingChanges::new()
    }
}

} // verus!
