//! Latency: the delay, in samples, that the plugin introduces.
use vstd::prelude::*;

verus! {

/// The latency a plugin reports.
pub trait Latency<P> {
    /// The plugin latency in samples.
    fn get(plugin: &P) -> u32;
}

/// No latency.
impl<P> Latency<P> for () {
    fn get(_plugin: &P) -> (r: u32)
        ensures
            r == 0,
    {
        0
    }
}

} // verus!
