//! Screen-recording permission on systems that need none: capturing is always
//! allowed and there is nothing to request.
use vstd::prelude::*;

verus! {

/// Whether the application may record the screen: always, here.
pub fn has_screen_recording_permission() -> (r: bool)
    ensures
        r,
{
    true
}

/// Asks for screen-recording permission: nothing to ask for, so nothing is granted anew.
pub fn request_screen_recording_permission() -> (r: bool)
    ensures
        !r,
{
    false
}

} // verus!
