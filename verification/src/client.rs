//! The player's record of a discovered screen: the info the daemon serves,
//! and the frame buffer sized from it. Fetching the info and speaking the
//! socket protocol are the edge's part.

use vstd::prelude::*;
use crate::screen::dims_wf;

verus! {

/// One screen's info as the player reads it back: dimensions, format, the
/// data-plane port, and whatever provenance the info carried.
pub struct SocketInfoFile {
    /// The screen's id.
    pub name: String,
    /// Width and height in pixels.
    pub screen_size: (u32, u32),
    /// Bits per pixel.
    pub bits_per_pixel: u32,
    /// The data-plane port to connect the REQ socket to.
    pub frame_buffer_port: u16,
    /// When the info was written, if recorded.
    pub created_at: Option<String>,
    /// The device path, if recorded.
    pub device_path: Option<String>,
}

impl SocketInfoFile {
    /// The info's dimensions stay within the frame arithmetic.
    pub open spec fn wf(&self) -> bool {
        dims_wf(self.screen_size.0, self.screen_size.1, self.bits_per_pixel)
    }
}

/// A zero-filled frame buffer of the exact byte count the screen expects:
/// `width * height * bits_per_pixel / 8`.
pub fn create_frame_buffer(socket_info: &SocketInfoFile) -> (r: Vec<u8>)
    requires
        socket_info.wf(),
    ensures
        r@.len() == socket_info.screen_size.0 as int * socket_info.screen_size.1 as int
            * socket_info.bits_per_pixel as int / 8,
        forall|i: int| 0 <= i < r@.len() ==> r@[i] == 0,
{
    crate::cover::create_frame_buffer(
        socket_info.screen_size.0,
        socket_info.screen_size.1,
        socket_info.bits_per_pixel,
    )
}

} // verus!
