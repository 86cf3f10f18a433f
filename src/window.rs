use vstd::prelude::*;

pub mod handle;
pub mod platform;

use crate::window::handle::Handle;

verus! {

/// A top-level window: its title, the platform handle and the size of its
/// client area, fixed when it was created.
pub struct Window {
    pub name: String,
    pub handle: Handle,
    pub width: u32,
    pub height: u32,
}

} // verus!
