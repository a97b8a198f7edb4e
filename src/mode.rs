use vstd::prelude::*;

verus! {

/// How the fragment stage renders the sprite.
#[derive(Clone, Copy, Debug, PartialEq, Eq, Structural)]
pub enum RenderMode {
    /// The sprite as it is.
    Plain,
    /// The sprite through scanlines and a vignette.
    Crt,
}

impl RenderMode {
    /// The mode that follows `self` in the cycle Plain, Crt, Plain, ...
    pub open spec fn successor(self) -> RenderMode {
        match self {
            RenderMode::Plain => RenderMode::Crt,
            RenderMode::Crt => RenderMode::Plain,
        }
    }

    /// The integer that the fragment shader receives for this mode.
    pub open spec fn spec_tag(self) -> i32 {
        match self {
            RenderMode::Plain => 0,
            RenderMode::Crt => 1,
        }
    }

    pub fn next(self) -> (r: RenderMode)
        ensures
            r == self.successor(),
    {
        match self {
            RenderMode::Plain => RenderMode::Crt,
            RenderMode::Crt => RenderMode::Plain,
        }
    }

    pub fn tag(self) -> (r: i32)
        ensures
            r == self.spec_tag(),
    {
        match self {
            RenderMode::Plain => 0,
            RenderMode::Crt => 1,
        }
    }
}

impl Default for RenderMode {
    fn default() -> (r: RenderMode)
        ensures
            r == RenderMode::Plain,
    {
        RenderMode::Plain
    }
}

/// Toggling twice gives back the mode one started from.
pub proof fn successor_is_involution(m: RenderMode)
    ensures
        m.successor().successor() == m,
{
}

} // verus!
