use vstd::prelude::*;

verus! {

/// An opaque platform window handle, held as its raw value.
#[derive(Copy, Clone, PartialEq, Eq, Structural, Debug)]
pub struct Handle {
    val: usize,
}

impl Handle {
    pub closed spec fn raw_spec(self) -> usize {
        self.val
    }

    /// The raw value the handle was made from.
    pub fn raw(self) -> (r: usize)
        ensures
            r == self.raw_spec(),
    {
        self.val
    }
}

impl From<usize> for Handle {
    fn from(val: usize) -> (r: Handle)
        ensures
            r.raw_spec() == val,
    {
        Handle { val }
    }
}

impl vstd::std_specs::convert::FromSpecImpl<usize> for Handle {
    open spec fn obeys_from_spec() -> bool {
        true
    }

    closed spec fn from_spec(val: usize) -> Handle {
        Handle { val }
    }
}

impl From<Handle> for usize {
    fn from(h: Handle) -> (r: usize)
        ensures
            r == h.raw_spec(),
    {
        h.val
    }
}

impl vstd::std_specs::convert::FromSpecImpl<Handle> for usize {
    open spec fn obeys_from_spec() -> bool {
        true
    }

    closed spec fn from_spec(h: Handle) -> usize {
        h.raw_spec()
    }
}

} // verus!
