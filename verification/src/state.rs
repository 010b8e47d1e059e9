//! Window-size state handed to a rendering backend.

use vstd::prelude::*;

verus! {

/// A rendering backend: something that can draw a frame for a given window
/// state. The application implements this outside the library.
pub trait Renderer {
    /// Draw one frame for `state`.
    fn render(&self, state: &State);
}

/// The window state a renderer draws against.
pub struct State {
    window_size: (u32, u32),
}

impl State {
    /// The current window size.
    pub closed spec fn spec_window_size(&self) -> (u32, u32) {
        self.window_size
    }

    /// State for a window of the given size.
    pub fn new(window_size: (u32, u32)) -> (s: Self)
        ensures
            s.spec_window_size() == window_size,
    {
        Self { window_size }
    }

    /// Track a window resize.
    pub fn resize(&mut self, new_size: (u32, u32))
        ensures
            final(self).spec_window_size() == new_size,
    {
        self.window_size = new_size;
    }

    /// Current window size.
    pub fn window_size(&self) -> (r: (u32, u32))
        ensures
            r == self.spec_window_size(),
    {
        self.window_size
    }

    /// Have `renderer` draw one frame for this state.
    pub fn render<R: Renderer>(&self, renderer: &R) {
        renderer.render(self);
    }
}

} // verus!
