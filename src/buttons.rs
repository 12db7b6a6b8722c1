use vstd::prelude::*;
use crate::commit::committed;
use crate::draft::{empty_draft, Edit, PendingChanges};
use crate::topology::Monitor;
use crate::window::SurfaceState;

verus! {

/// What a control of the settings panel does when pressed.
#[derive(Clone, Copy, Debug, PartialEq, Eq, Structural)]
pub enum ButtonType {
    /// Commit the draft.
    Apply,
    /// Discard the draft.
    Cancel,
    /// Stage one field.
    Stage(Edit),
}

/// How a control is to be drawn.
#[derive(Clone, Copy, Debug, PartialEq, Eq, Structural)]
pub enum ButtonShade {
    /// Its value is the one staged.
    Active,
    /// Apply or Cancel while there is nothing to apply or cancel.
    Dimmed,
    /// Under the pointer.
    Hovered,
    Normal,
}

impl ButtonType {
    /// The control stages a value, and that value is the one staged.
    pub open spec fn active_in(self, pending: PendingChanges) -> bool {
        match self {
            ButtonType::Stage(e) => pending.holds(e),
            _ => false,
        }
    }

    pub open spec fn shade_in(self, pending: PendingChanges, hovering: bool) -> ButtonShade {
        if self.active_in(pending) {
            ButtonShade::Active
        } else if !(self is Stage) && pending.spec_is_empty() {
            ButtonShade::Dimmed
        } else if hovering {
            ButtonShade::Hovered
        } else {
            ButtonShade::Normal
        }
    }

    /// Whether the value this control stages is the one staged.
    pub fn is_active(&self, pending: &PendingChanges) -> (r: bool)
        ensures
            r == self.active_in(*pending),
    {
        match self {
            ButtonType::Stage(e) => pending.is_active(e),
            _ => false,
        }
    }

    /// The shade of this control: active first, then dimmed, then hovered.
    pub fn shade(&self, pending: &PendingChanges, hovering: bool) -> (r: ButtonShade)
        ensures
            r == self.shade_in(*pending, hovering),
    {
        if self.is_active(pending) {
            ButtonShade::Active
        } else if !matches!(self, ButtonType::Stage(_)) && pending.is_empty() {
            ButtonShade::Dimmed
        } else if hovering {
            ButtonShade::Hovered
        } else {
            ButtonShade::Normal
        }
    }

    /// Carries out a press: Apply commits the draft onto `surface`, Cancel
    /// empties it, and a staging control stages its value.
    pub fn press(&self, pending: &mut PendingChanges, surface: &mut SurfaceState, monitors: &Vec<Monitor>)
        ensures
            match *self {
                ButtonType::Apply => *final(pending) == empty_draft()
                    && *final(surface) == committed(*old(pending), *old(surface), monitors@),
                ButtonType::Cancel => *final(pending) == empty_draft()
                    && *final(surface) == *old(surface),
                ButtonType::Stage(e) => *final(pending) == old(pending).with_edit(e)
                    && *final(surface) == *old(surface),
            },
    {
        match *self {
            ButtonType::Apply => pending.commit(surface, monitors),
            ButtonType::Cancel => pending.clear(),
            ButtonType::Stage(e) => pending.edit(e),
        }
    }
}

} // verus!
