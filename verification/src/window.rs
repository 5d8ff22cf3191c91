//! What the surface manager is asked for.

use vstd::prelude::*;
use crate::renderer::constants::{WINDOW_HEIGHT, WINDOW_TITLE, WINDOW_WIDTH};

verus! {

/// The window to create: used once, when the surface is made.
#[derive(Debug)]
pub struct WindowDescriptor {
    pub title: String,
    pub width: u32,
    pub height: u32,
}

/// What a [`WindowDescriptor`] says.
pub struct WindowDescriptorView {
    pub title: Seq<char>,
    pub width: u32,
    pub height: u32,
}

impl View for WindowDescriptor {
    type V = WindowDescriptorView;

    open spec fn view(&self) -> WindowDescriptorView {
        WindowDescriptorView { title: self.title@, width: self.width, height: self.height }
    }
}

impl WindowDescriptorView {
    /// Both dimensions are positive.
    pub open spec fn wf(self) -> bool {
        self.width > 0 && self.height > 0
    }
}

/// The engine's own window: 896 by 504, titled with the engine's name.
pub open spec fn default_window() -> WindowDescriptorView {
    WindowDescriptorView { title: WINDOW_TITLE@, width: WINDOW_WIDTH, height: WINDOW_HEIGHT }
}

impl WindowDescriptor {
    /// A window of the given title and size.
    pub fn new(title: &str, width: u32, height: u32) -> (descriptor: WindowDescriptor)
        requires
            width > 0,
            height > 0,
        ensures
            descriptor@ == (WindowDescriptorView { title: title@, width, height }),
            descriptor@.wf(),
    {
        WindowDescriptor { title: title.to_owned(), width, height }
    }

    /// The engine's own window.
    pub fn engine_default() -> (descriptor: WindowDescriptor)
        ensures
            descriptor@ == default_window(),
            descriptor@.wf(),
            descriptor.width == 896,
            descriptor.height == 504,
    {
        WindowDescriptor::new(WINDOW_TITLE, WINDOW_WIDTH, WINDOW_HEIGHT)
    }
}

} // verus!
