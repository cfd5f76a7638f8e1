use vstd::prelude::*;

verus! {

/// The message to display and the running state of a session.
#[derive(Debug)]
pub struct Model {
    pub running: bool,
    pub window_size: (u32, u32),
    pub message: String,
}

impl Model {
    /// A running session in a 1024 by 768 window that says "Hello world".
    pub fn new() -> (r: Model)
        ensures
            r.running,
            r.window_size == (1024u32, 768u32),
            r.message@ == "Hello world"@,
    {
        Model { running: true, window_size: (1024, 768), message: "Hello world".to_owned() }
    }
}

} // verus!
