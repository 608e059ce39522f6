//! The two projection modes and the toggle between them.

use vstd::prelude::*;

verus! {

/// How a pixel is turned into a ray.
#[derive(Clone, Copy, Debug, PartialEq, Eq, Structural)]
pub enum ProjectionMode {
    /// Parallel projection.
    Ortho,
    /// Pinhole projection with two independent field-of-view angles.
    Perspective,
}

impl ProjectionMode {
    /// The other mode.
    pub open spec fn flipped(self) -> ProjectionMode {
        match self {
            ProjectionMode::Ortho => ProjectionMode::Perspective,
            ProjectionMode::Perspective => ProjectionMode::Ortho,
        }
    }

    /// The mode a renderer starts in.
    pub fn initial() -> (mode: ProjectionMode)
        ensures
            mode == ProjectionMode::Perspective,
    {
        ProjectionMode::Perspective
    }

    /// Switches to the other mode.
    pub fn toggle(self) -> (mode: ProjectionMode)
        ensures
            mode == self.flipped(),
            mode != self,
    {
        match self {
            ProjectionMode::Ortho => ProjectionMode::Perspective,
            ProjectionMode::Perspective => ProjectionMode::Ortho,
        }
    }
}

/// Toggling twice gives the mode back, and toggling once never does.
pub proof fn lemma_toggle_is_involution(mode: ProjectionMode)
    ensures
        mode.flipped().flipped() == mode,
        mode.flipped() != mode,
{
}

} // verus!
