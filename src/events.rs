use vstd::prelude::*;

verus! {

/// An event of the terminal: a key, or a tick of the redraw clock.
pub enum Event<I> {
    Input(I),
    Tick,
}

/// How often the redraw clock ticks.
#[derive(Debug, Clone, Copy)]
pub struct Config {
    pub tick_rate_ms: u64,
}

impl Default for Config {
    fn default() -> (r: Config)
        ensures
            r.tick_rate_ms == 250,
    {
        Config { tick_rate_ms: 250 }
    }
}

} // verus!
