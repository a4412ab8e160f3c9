//! Swapchain parameters chosen from what a surface reports: a fixed,
//! deterministic policy, with no scoring.

use vstd::prelude::*;

use crate::error::BootstrapError;

verus! {

/// Width and height of an image, in pixels.
#[derive(Clone, Copy, Debug, PartialEq, Eq, Structural)]
pub struct Extent {
    pub width: u32,
    pub height: u32,
}

/// How a presented image is blended with what lies behind the window.
#[derive(Clone, Copy, Debug, PartialEq, Eq, Structural)]
pub enum CompositeAlpha {
    Opaque,
    PreMultiplied,
    PostMultiplied,
    Inherit,
}

/// The transform applied to images before presentation.
#[derive(Clone, Copy, Debug, PartialEq, Eq, Structural)]
pub enum SurfaceTransform {
    Identity,
    Rotate90,
    Rotate180,
    Rotate270,
    HorizontalMirror,
    HorizontalMirrorRotate90,
    HorizontalMirrorRotate180,
    HorizontalMirrorRotate270,
    Inherit,
}

/// How presentation requests are queued.
#[derive(Clone, Copy, Debug, PartialEq, Eq, Structural)]
pub enum PresentMode {
    Immediate,
    Mailbox,
    Fifo,
    Relaxed,
}

/// What a surface reports for one physical device.
#[derive(Debug)]
pub struct SurfaceCapabilities {
    pub min_image_count: u32,
    /// `None` when there is no maximum.
    pub max_image_count: Option<u32>,
    /// `None` when the swapchain decides the surface's size.
    pub current_extent: Option<Extent>,
    /// The supported formats, as codes, in the order reported.
    pub formats: Vec<u32>,
    /// The supported composite-alpha modes, in the order reported.
    pub composite_alpha: Vec<CompositeAlpha>,
}

impl SurfaceCapabilities {
    /// A reported maximum is at least the minimum.
    pub open spec fn wf(&self) -> bool {
        self.max_image_count matches Some(m) ==> self.min_image_count <= m
    }
}

/// The parameters a swapchain is created with.
#[derive(Clone, Copy, Debug, PartialEq, Eq, Structural)]
pub struct SwapchainDescriptor {
    pub image_count: u32,
    /// Index of the chosen format in the surface's list.
    pub format_index: usize,
    /// Code of the chosen format.
    pub format: u32,
    pub extent: Extent,
    pub transform: SurfaceTransform,
    pub alpha: CompositeAlpha,
    pub present_mode: PresentMode,
    pub clipped: bool,
}

/// The minimum image count, lowered to the maximum when one is reported.
pub open spec fn image_count_for(caps: SurfaceCapabilities) -> u32 {
    match caps.max_image_count {
        Some(m) => if caps.min_image_count <= m { caps.min_image_count } else { m },
        None => caps.min_image_count,
    }
}

/// The surface's current extent, or `fallback` when it has none.
pub open spec fn extent_for(caps: SurfaceCapabilities, fallback: Extent) -> Extent {
    match caps.current_extent {
        Some(e) => e,
        None => fallback,
    }
}

/// The descriptor the policy gives for `caps`: the image count and extent
/// above, the first format and composite-alpha mode, the identity
/// transform, vsynced presentation, clipped.
pub open spec fn chosen(caps: SurfaceCapabilities, fallback: Extent) -> SwapchainDescriptor {
    SwapchainDescriptor {
        image_count: image_count_for(caps),
        format_index: 0,
        format: caps.formats@[0],
        extent: extent_for(caps, fallback),
        transform: SurfaceTransform::Identity,
        alpha: caps.composite_alpha@[0],
        present_mode: PresentMode::Fifo,
        clipped: true,
    }
}

/// `d` lies within what `caps` reports.
pub open spec fn within(d: SwapchainDescriptor, caps: SurfaceCapabilities) -> bool {
    &&& caps.min_image_count <= d.image_count
    &&& (caps.max_image_count matches Some(m) ==> d.image_count <= m)
    &&& d.format_index < caps.formats@.len()
    &&& d.format == caps.formats@[d.format_index as int]
    &&& caps.composite_alpha@.contains(d.alpha)
}

/// Chooses the swapchain parameters for `caps`. Fails when the surface
/// reports no format or no composite-alpha mode.
pub fn init_swapchain(caps: &SurfaceCapabilities, fallback: Extent) -> (r: Result<SwapchainDescriptor, BootstrapError>)
    ensures
        r is Ok <==> caps.formats@.len() > 0 && caps.composite_alpha@.len() > 0,
        r matches Ok(d) ==> d == chosen(*caps, fallback),
        r matches Ok(d) ==> (caps.wf() ==> within(d, *caps)),
        r matches Err(e) ==> e == BootstrapError::SwapchainCreation,
{
    if caps.formats.len() == 0 || caps.composite_alpha.len() == 0 {
        return Err(BootstrapError::SwapchainCreation);
    }
    let image_count = match caps.max_image_count {
        Some(m) => if caps.min_image_count <= m { caps.min_image_count } else { m },
        None => caps.min_image_count,
    };
    let extent = match caps.current_extent {
        Some(e) => e,
        None => fallback,
    };
    let d = SwapchainDescriptor {
        image_count,
        format_index: 0,
        format: caps.formats[0],
        extent,
        transform: SurfaceTransform::Identity,
        alpha: caps.composite_alpha[0],
        present_mode: PresentMode::Fifo,
        clipped: true,
    };
    assert(caps.composite_alpha@[0] == d.alpha);
    Ok(d)
}

/// Takes the outcome of rebuilding the swapchain: a new descriptor replaces
/// `active`; on failure `active` stays in use and the error is returned.
pub fn rebuild_swapchain(
    active: &mut SwapchainDescriptor,
    outcome: Result<SwapchainDescriptor, BootstrapError>,
) -> (r: Result<(), BootstrapError>)
    ensures
        outcome matches Ok(d) ==> *final(active) == d && r is Ok,
        outcome matches Err(e) ==> *final(active) == *old(active) && r == Err::<(), BootstrapError>(e),
{
    match outcome {
        Ok(d) => {
            *active = d;
            Ok(())
        },
        Err(e) => Err(e),
    }
}

} // verus!
