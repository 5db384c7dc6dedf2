use vstd::prelude::*;
use crate::Window;

verus! {

/// A program context that gives the window of the packet being processed.
pub trait HasFrame: Sized {
    fn frame(&self) -> Window;
}

/// A program context that gives the window of the metadata that precedes the packet.
pub trait HasMetadata: Sized {
    fn meta(&self) -> Window;
}

} // verus!
