//! The presentation side of the graphics front end: the options a graphics
//! context is created with, and a stand-in model of a window surface's swap
//! chain. The GPU backend that acquires and presents images is not part of
//! this library; the model below only records which image the front end
//! hands out, under the assumption of a fixed chain of images handed out in
//! turn. It does not claim anything about a particular backend.
use vstd::prelude::*;

verus! {

/// Which GPU to prefer when several are present.
#[derive(Clone, Copy, Debug, PartialEq, Eq, Hash, Structural)]
pub enum PowerPreference {
    DontCare,
    LowPower,
    HiPower,
}

/// Options for configuring the graphics context on initialization. Once set,
/// these options cannot be changed without recreating the graphics context.
#[derive(Clone, Copy, Debug, PartialEq, Eq, Hash, Structural)]
pub struct GraphicsConfig {
    pub debug_mode: bool,
    pub power_preference: PowerPreference,
}

impl Default for GraphicsConfig {
    fn default() -> (r: GraphicsConfig)
        ensures
            r == (GraphicsConfig { debug_mode: false, power_preference: PowerPreference::DontCare }),
    {
        GraphicsConfig { debug_mode: false, power_preference: PowerPreference::DontCare }
    }
}

/// Number of images in the stand-in swap chain.
pub const SWAPCHAIN_IMAGES: u32 = 2;

pub struct GraphicsContext {
    config: GraphicsConfig,
}

impl View for GraphicsContext {
    type V = GraphicsConfig;

    closed spec fn view(&self) -> GraphicsConfig {
        self.config
    }
}

impl GraphicsContext {
    pub fn new(config: &GraphicsConfig) -> (r: GraphicsContext)
        ensures
            r@ == *config,
    {
        GraphicsContext { config: *config }
    }

    /// The options the context was created with.
    pub fn config(&self) -> (r: GraphicsConfig)
        ensures
            r == self@,
    {
        self.config
    }

    /// A surface whose swap chain hands out its first image next.
    pub fn create_surface(&self) -> (r: Surface)
        ensures
            r.wf(),
            r@ == 0,
    {
        Surface { next_image: 0 }
    }
}

/// A window surface in the stand-in model; its view is the position of the
/// image handed out next.
pub struct Surface {
    next_image: u32,
}

impl View for Surface {
    type V = nat;

    closed spec fn view(&self) -> nat {
        self.next_image as nat
    }
}

impl Surface {
    pub open spec fn wf(&self) -> bool {
        self@ < SWAPCHAIN_IMAGES
    }

    /// Retrieves the next image; in the stand-in model the images are handed
    /// out in turn.
    pub fn get_next_image(&mut self) -> (r: SurfaceImage)
        requires
            old(self).wf(),
        ensures
            final(self).wf(),
            r.image().index == old(self)@,
            final(self)@ == (old(self)@ + 1) % (SWAPCHAIN_IMAGES as nat),
    {
        let index = self.next_image;
        self.next_image = if index + 1 < SWAPCHAIN_IMAGES {
            index + 1
        } else {
            0
        };
        SurfaceImage { image: Image { index } }
    }

    /// Recreates the swap chain; in the stand-in model the first image is
    /// handed out next.
    pub fn resize(&mut self)
        ensures
            final(self).wf(),
            final(self)@ == 0,
    {
        self.next_image = 0;
    }
}

/// A swap chain image, by its position in the chain.
#[derive(Clone, Copy, Debug, PartialEq, Eq, Hash, Structural)]
pub struct Image {
    pub index: u32,
}

/// A swap chain image that has been acquired and not yet presented.
pub struct SurfaceImage {
    image: Image,
}

impl SurfaceImage {
    pub closed spec fn image(&self) -> Image {
        self.image
    }

    /// The acquired image.
    pub fn get_image(&self) -> (r: Image)
        ensures
            r == self.image(),
    {
        self.image
    }

    /// Presents the swap chain image to the surface and gives it back.
    pub fn present(self) -> (r: Image)
        ensures
            r == self.image(),
    {
        self.image
    }
}

} // verus!
