use vstd::prelude::*;

use crate::window::handle::Handle;
use crate::window::Window;

verus! {

/// The platform's window-destroy notification.
pub const WM_DESTROY: u32 = 0x0002;

/// The platform's quit message, posted once a quit has been requested.
pub const WM_QUIT: u32 = 0x0012;

/// What is asked of a new window: its title and client-area size.
pub struct CreateWindowParams {
    pub name: String,
    pub width: u32,
    pub height: u32,
}

/// A rectangle in the platform's signed pixel coordinates.
#[derive(Copy, Clone, PartialEq, Eq, Structural, Debug)]
pub struct Rect {
    pub left: i32,
    pub top: i32,
    pub right: i32,
    pub bottom: i32,
}

pub open spec fn client_rect_spec(width: u32, height: u32) -> Rect {
    Rect { left: 0, top: 0, right: width as i32, bottom: height as i32 }
}

/// The edges that the platform's "adjust window rect" call makes of `r`: grown
/// outwards on each side by the non-client frame (borders, caption) of the
/// window style, `fl`, `ft`, `fr` and `fb` thick.
pub open spec fn adjusted(r: Rect, fl: int, ft: int, fr: int, fb: int) -> (int, int, int, int) {
    (r.left - fl, r.top - ft, r.right + fr, r.bottom + fb)
}

/// Width and height of a rectangle given by its four edges.
pub open spec fn extent(e: (int, int, int, int)) -> (int, int) {
    (e.2 - e.0, e.3 - e.1)
}

pub open spec fn fits_i32(x: int) -> bool {
    i32::MIN <= x <= i32::MAX
}

/// The client rectangle handed to the frame adjustment: origin at zero, the
/// requested size as its far corner.
pub fn client_rect(width: u32, height: u32) -> (r: Rect)
    requires
        width <= i32::MAX,
        height <= i32::MAX,
    ensures
        r == client_rect_spec(width, height),
        r.right == width,
        r.bottom == height,
{
    Rect { left: 0, top: 0, right: width as i32, bottom: height as i32 }
}

/// Outer width and height of the window whose frame-adjusted rectangle is `r`.
pub fn outer_size(r: Rect) -> (s: (i32, i32))
    requires
        fits_i32(r.right - r.left),
        fits_i32(r.bottom - r.top),
    ensures
        s.0 == r.right - r.left,
        s.1 == r.bottom - r.top,
{
    (r.right - r.left, r.bottom - r.top)
}

/// Records a window the platform has created for `params` under `handle`.
/// The size stored is the client-area size asked for; it is not updated later.
pub fn create_window(params: CreateWindowParams, handle: Handle) -> (w: Window)
    ensures
        w.name@ == params.name@,
        w.handle == handle,
        w.width == params.width,
        w.height == params.height,
{
    Window { name: params.name, handle, width: params.width, height: params.height }
}

/// What the window procedure does with a message.
#[derive(Copy, Clone, PartialEq, Eq, Structural, Debug)]
pub enum WindowProcAction {
    /// Post a quit request to the message queue and report the message handled.
    PostQuit,
    /// Hand the message to the platform's default processing.
    Default,
}

/// The window procedure's decision: a destroy notification becomes a quit
/// request; every other message goes to default processing.
pub fn window_procedure(message: u32) -> (a: WindowProcAction)
    ensures
        a == (if message == WM_DESTROY {
            WindowProcAction::PostQuit
        } else {
            WindowProcAction::Default
        }),
{
    if message == WM_DESTROY {
        WindowProcAction::PostQuit
    } else {
        WindowProcAction::Default
    }
}

/// Whether a message taken from the queue is the quit message.
pub fn is_quit_message(message: u32) -> (r: bool)
    ensures
        r == (message == WM_QUIT),
{
    message == WM_QUIT
}

/// Sizing a window by its frame-adjusted rectangle keeps the client area:
/// whatever frame the platform adds around a client rectangle of
/// `width` x `height`, the outer size less that frame is `width` x `height`.
pub proof fn lemma_client_area_kept(width: u32, height: u32, fl: int, ft: int, fr: int, fb: int)
    requires
        width <= i32::MAX,
        height <= i32::MAX,
    ensures
        ({
            let (w, h) = extent(adjusted(client_rect_spec(width, height), fl, ft, fr, fb));
            w - fl - fr == width && h - ft - fb == height
        }),
{
}

} // verus!
