//! Tail: how long the plugin keeps sounding after its input went silent.
use vstd::prelude::*;

verus! {

/// The tail a plugin reports.
pub trait Tail<P> {
    /// The tail length in samples. Any value greater or equal to `i32::MAX`
    /// implies infinite tail.
    fn get(plugin: &P) -> u32;
}

/// No tail.
impl<P> Tail<P> for () {
    fn get(_plugin: &P) -> (r: u32)
        ensures
            r == 0,
    {
        0
    }
}

} // verus!
