//! What the application remembers between runs.
use vstd::prelude::*;

verus! {

/// The chosen city and its coordinates. The coordinates are longitude and
/// latitude, each held as the bit pattern of its 64-bit float.
pub struct Config {
    pub current_city: String,
    pub coordinates: (u64, u64),
}

impl Default for Config {
    fn default() -> (config: Config)
        ensures
            config.current_city@ == Seq::<char>::empty(),
            config.coordinates == (0u64, 0u64),
    {
        Config { current_city: String::new(), coordinates: (0, 0) }
    }
}

} // verus!
