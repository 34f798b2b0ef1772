//! Window configuration.

use vstd::prelude::*;

verus! {

/// Window configuration.
#[derive(Clone, Copy, Debug, PartialEq, Eq, Structural)]
pub struct Config {
    pub width: u32,
    pub height: u32,
    pub window_x: u32,
    pub window_y: u32,
}

impl Default for Config {
    fn default() -> (r: Self)
        ensures
            r == (Config { width: 768, height: 512, window_x: 0, window_y: 0 }),
    {
        Config { width: 768, height: 512, window_x: 0, window_y: 0 }
    }
}

} // verus!
