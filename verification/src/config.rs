//! The persisted user configuration: a window scale and a sound switch. The
//! host reads and writes the file; this type holds the values.

use vstd::prelude::*;

verus! {

/// The two persisted settings.
#[derive(Clone, Copy, PartialEq, Eq, Structural, Debug)]
pub struct GameboyConfig {
    pub window_size: u8,
    pub use_sound: bool,
}

impl GameboyConfig {
    /// The defaults written on first run: a four-times window with sound on.
    pub fn new() -> (r: GameboyConfig)
        ensures
            r.window_size == 4,
            r.use_sound,
    {
        GameboyConfig { window_size: 4, use_sound: true }
    }
}

} // verus!
