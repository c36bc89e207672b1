//! Plain-value types for the host interface: the shared game state the
//! scene mutates, the transition signal it hands back, and the directional
//! intents the host reads from the keyboard for one frame.

use vstd::prelude::*;

verus! {

/// Shared game state owned by the host: a point counter and the screen
/// height (the latter is only read for text placement when rendering).
pub struct GameData {
    pub points: u64,
    pub screen_height: i32,
}

impl GameData {
    /// Add one point.
    pub fn score(&mut self)
        requires
            old(self).points < u64::MAX,
        ensures
            final(self).points == old(self).points + 1,
            final(self).screen_height == old(self).screen_height,
    {
        self.points = self.points + 1;
    }
}

/// What the scene asks of the host's scene stack after a frame step:
/// either stay as is, or push the win scene on top.
#[derive(Clone, Copy, PartialEq, Eq, Structural, Debug)]
pub enum SceneSwitch {
    Stay,
    PushWin,
}

/// The four directional intents read from the host for one frame; each is
/// true when the matching key was pressed this frame.
#[derive(Clone, Copy, PartialEq, Eq, Structural, Debug)]
pub struct InputState {
    pub right: bool,
    pub left: bool,
    pub down: bool,
    pub up: bool,
}

} // verus!
