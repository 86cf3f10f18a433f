//! The decisions behind a Direct3D 11 "hello triangle" program: window
//! sizing, adapter choice, the fixed pipeline descriptions, and the state
//! machine that runs start-up and the frame loop. The native calls that these
//! decisions ask for are made by the program around the library.

use vstd::prelude::*;

pub mod adapter;
pub mod frame;
pub mod pipeline;
pub mod window;

verus! {

} // verus!
