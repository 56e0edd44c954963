use vstd::prelude::*;

use crate::input::InputState;

verus! {

/// The shared context handed to every scene: the recorded input state.
pub struct World {
    pub input: InputState,
}

impl World {
    /// A world whose inputs are all at rest.
    pub fn new() -> (r: World)
        ensures
            r.wf(),
            !r.input.menu && !r.input.confirm && !r.input.delete,
            r.input.vert == 0 && r.input.horz == 0,
    {
        World { input: InputState::new() }
    }

    pub open spec fn wf(&self) -> bool {
        self.input.wf()
    }
}

} // verus!
