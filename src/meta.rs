use vstd::prelude::*;
use crate::{NextHeader, Ptr, Window};

verus! {

/// A cursor at the start of the metadata window `meta`, if a `T` fits in it.
pub fn from_range<T: NextHeader>(meta: Window) -> (r: Option<Ptr<T>>)
    ensures
        r is Some <==> Ptr::<T>::fits(meta.start as int, meta),
        r matches Some(p) ==> p.addr() == meta.start,
{
    match Ptr::<T>::construct(meta.start, meta) {
        Ok(p) => Some(p),
        Err(()) => None,
    }
}

} // verus!
