use vstd::prelude::*;

verus! {

/// State of the running session that every screen may read.
#[derive(Clone, Copy, Debug)]
pub struct EngineData {
    /// Cleared to end the main loop.
    pub running: bool,
    /// Width and height of the play area, in pixels.
    pub window_size: (u32, u32),
}

impl EngineData {
    /// A running session in a 1024 by 768 window.
    pub fn new() -> (r: EngineData)
        ensures
            r.running,
            r.window_size == (1024u32, 768u32),
    {
        EngineData { running: true, window_size: (1024, 768) }
    }
}

} // verus!
