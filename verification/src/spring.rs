//! The cut/recall switch of the spring that suspends the ball.

use vstd::prelude::*;

verus! {

/// What toggling the spring does.
#[derive(Debug, Clone, Copy, PartialEq, Eq, Structural)]
pub enum SpringToggle {
    /// Cut the spring and let the ball fly free.
    Cut,
    /// Reattach the spring and recall the ball to its hanging rest position.
    Recall,
}

/// Toggle the spring: a visible ball on an attached spring has its spring
/// cut; a detached ball, or a ball lost in the pit below the desktop, is
/// recalled onto a fresh spring.
pub fn spring_toggle(ball_visible: bool, attached: bool) -> (t: SpringToggle)
    ensures
        t == (if ball_visible && attached { SpringToggle::Cut } else { SpringToggle::Recall }),
{
    if !ball_visible {
        SpringToggle::Recall
    } else if attached {
        SpringToggle::Cut
    } else {
        SpringToggle::Recall
    }
}

} // verus!
