use vstd::prelude::*;
use crate::base::DeftError;

verus! {

/// How a window fills a screen: in a video mode of its own, or as a
/// borderless window the size of the screen.
#[derive(Clone, Copy, Debug, PartialEq, Eq, Structural)]
pub enum Fullscreen {
    Exclusive,
    Borderless,
}

/// The bytes a frame of `width` by `height` pixels takes, four a pixel.
pub open spec fn frame_len(width: u32, height: u32) -> int {
    width * height * 4
}

/// A drawing surface kept in memory: its size in pixels and the pixel
/// buffer of the last frame.
pub struct MemorySurfacePresenter {
    pub width: u32,
    pub height: u32,
    pub buffer: Vec<u8>,
}

impl MemorySurfacePresenter {
    /// A surface of the window's inner size, with no buffer yet.
    pub fn new(width: u32, height: u32) -> (r: Self)
        ensures
            r.width == width,
            r.height == height,
            r.buffer@.len() == 0,
    {
        MemorySurfacePresenter { width, height, buffer: Vec::new() }
    }

    pub fn resize(&mut self, width: u32, height: u32)
        ensures
            final(self).width == width,
            final(self).height == height,
            final(self).buffer == old(self).buffer,
    {
        self.width = width;
        self.height = height;
    }

    pub fn size(&self) -> (r: (u32, u32))
        ensures
            r == (self.width, self.height),
    {
        (self.width, self.height)
    }

    /// Makes the buffer hold exactly one frame before drawing: a buffer of
    /// another length is cut, or grown with zero bytes. Returns the length
    /// of a row in bytes.
    pub fn prepare_buffer(&mut self) -> (row_bytes: u64)
        requires
            frame_len(old(self).width, old(self).height) <= u32::MAX,
        ensures
            row_bytes == old(self).width * 4,
            final(self).width == old(self).width,
            final(self).height == old(self).height,
            final(self).buffer@.len() == frame_len(old(self).width, old(self).height),
            forall|i: int|
                0 <= i < final(self).buffer@.len() ==> #[trigger] final(self).buffer@[i] == if i
                    < old(self).buffer@.len() {
                    old(self).buffer@[i]
                } else {
                    0u8
                },
    {
        let width = self.width;
        let height = self.height;
        proof {
            assert(width * height <= width * height * 4) by (nonlinear_arith);
            assert(width * 4 <= width * height * 4 || height == 0) by (nonlinear_arith);
        }
        let len = (width * height * 4) as usize;
        let row_bytes = width as u64 * 4;
        if self.buffer.len() != len {
            self.buffer.resize(len, 0);
        }
        row_bytes
    }
}

/// A window with no system window behind it, for headless runs: it draws
/// into a memory surface and answers with defaults.
pub struct DumpWindow {
    pub surface: MemorySurfacePresenter,
}

impl DumpWindow {
    pub fn new(width: u32, height: u32) -> (r: Self)
        ensures
            r.surface.width == width,
            r.surface.height == height,
            r.surface.buffer@.len() == 0,
    {
        DumpWindow { surface: MemorySurfacePresenter::new(width, height) }
    }

    pub fn resize_surface(&mut self, width: u32, height: u32)
        ensures
            final(self).surface.width == width,
            final(self).surface.height == height,
            final(self).surface.buffer == old(self).surface.buffer,
    {
        self.surface.resize(width, height);
    }

    pub fn inner_position(&self) -> (r: (i32, i32))
        ensures
            r == (0i32, 0i32),
    {
        (0, 0)
    }

    pub fn inner_size(&self) -> (r: (u32, u32))
        ensures
            r == (0u32, 0u32),
    {
        (0, 0)
    }

    pub fn is_visible(&self) -> (r: Option<bool>)
        ensures
            r is None,
    {
        None
    }

    pub fn is_maximized(&self) -> (r: bool)
        ensures
            !r,
    {
        false
    }

    pub fn outer_position(&self) -> (r: (i32, i32))
        ensures
            r == (0i32, 0i32),
    {
        (0, 0)
    }

    pub fn outer_size(&self) -> (r: (u32, u32))
        ensures
            r == (0u32, 0u32),
    {
        (0, 0)
    }

    /// A request for another inner size, which this window does not grant.
    pub fn request_inner_size(&self, width: u32, height: u32) -> (r: Option<(u32, u32)>)
        ensures
            r is None,
    {
        None
    }

    pub fn is_minimized(&self) -> (r: Option<bool>)
        ensures
            r is None,
    {
        None
    }

    pub fn is_decorated(&self) -> (r: bool)
        ensures
            !r,
    {
        false
    }

    pub fn pointer_position(&self) -> (r: Option<(i32, i32)>)
        ensures
            r is None,
    {
        None
    }

    /// Dragging a window that is not on screen always succeeds.
    pub fn drag_window(&self) -> (r: Result<(), DeftError>)
        ensures
            r is Ok,
    {
        Ok(())
    }

    /// The setters change nothing: there is no system window to change.
    pub fn set_outer_position(&self, x: i32, y: i32) {
    }

    pub fn set_title(&self, title: &str) {
    }

    pub fn set_visible(&self, visible: bool) {
    }

    pub fn set_minimized(&self, minimized: bool) {
    }

    pub fn set_maximized(&self, maximized: bool) {
    }

    pub fn set_fullscreen(&self, fullscreen: Option<Fullscreen>) {
    }

    /// The dump window is never fullscreen.
    pub fn fullscreen(&self) -> (r: Option<Fullscreen>)
        ensures
            r is None,
    {
        None
    }

    pub fn set_ime_allowed(&self, allowed: bool) {
    }

    pub fn commit_ime(&self) {
    }

    pub fn focus_window(&self) {
    }

    pub fn set_cursor_visible(&self, visible: bool) {
    }

    pub fn set_enable(&self, enabled: bool) {
    }

    pub fn title(&self) -> (r: String)
        ensures
            r@.len() == 0,
    {
        String::new()
    }
}

} // verus!
