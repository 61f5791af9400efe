//! Window configuration.
//!
//! The window itself, the event loop and everything the windowing system
//! does live outside the library; only the configuration they are created
//! from is modelled here.

use vstd::prelude::*;
use crate::camera::PixelSize;

verus! {

/// The initial window dimensions, in logical pixels.
pub struct WindowConfig {
    width: u32,
    height: u32,
}

impl WindowConfig {
    /// The configured dimensions.
    pub closed spec fn size_spec(self) -> PixelSize {
        PixelSize { width: self.width, height: self.height }
    }

    pub fn new(width: u32, height: u32) -> (r: WindowConfig)
        ensures
            r.size_spec() == (PixelSize { width, height }),
    {
        WindowConfig { width, height }
    }

    pub fn width(&self) -> (r: u32)
        ensures
            r == self.size_spec().width,
    {
        self.width
    }

    pub fn height(&self) -> (r: u32)
        ensures
            r == self.size_spec().height,
    {
        self.height
    }
}

impl Default for WindowConfig {
    /// The stock 800×600 window.
    fn default() -> (r: WindowConfig)
        ensures
            r.size_spec() == (PixelSize { width: 800, height: 600 }),
    {
        WindowConfig { width: 800, height: 600 }
    }
}

} // verus!
