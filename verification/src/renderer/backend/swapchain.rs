//! The presentation surface: how a swapchain is configured, and what the
//! outcome of acquiring and presenting an image means.

use vstd::prelude::*;

use super::device::SwapChainSupportDetails;
use super::vk;

verus! {

/// The surface format that is asked for where the surface offers it.
pub open spec fn preferred_surface_format() -> vk::SurfaceFormatKHR {
    vk::SurfaceFormatKHR {
        format: vk::FORMAT_B8G8R8A8_SRGB,
        color_space: vk::COLOR_SPACE_SRGB_NONLINEAR,
    }
}

/// The preferred surface format where `formats` offers it, else the first
/// format offered.
pub fn select_surface_format(formats: &Vec<vk::SurfaceFormatKHR>) -> (selected:
    vk::SurfaceFormatKHR)
    requires
        formats@.len() > 0,
    ensures
        selected == if formats@.contains(preferred_surface_format()) {
            preferred_surface_format()
        } else {
            formats@[0]
        },
{
    let mut i: usize = 0;
    while i < formats.len()
        invariant
            i <= formats@.len(),
            forall|j: int| 0 <= j < i ==> formats@[j] != preferred_surface_format(),
        decreases formats@.len() - i,
    {
        let f = formats[i];
        if f.format == vk::FORMAT_B8G8R8A8_SRGB && f.color_space == vk::COLOR_SPACE_SRGB_NONLINEAR {
            assert(formats@[i as int] == preferred_surface_format());
            return f;
        }
        i += 1;
    }
    formats[0]
}

/// One image more than the surface needs at least, held to the surface's
/// upper limit where it sets one.
pub open spec fn image_count_for(capabilities: vk::SurfaceCapabilitiesKHR) -> int {
    let desired = capabilities.min_image_count + 1;
    if capabilities.max_image_count > 0 && desired > capabilities.max_image_count {
        capabilities.max_image_count as int
    } else {
        desired
    }
}

/// The number of images to ask for.
pub fn select_image_count(capabilities: vk::SurfaceCapabilitiesKHR) -> (count: u32)
    requires
        capabilities.max_image_count > 0 || capabilities.min_image_count < u32::MAX,
    ensures
        count == image_count_for(capabilities),
{
    if capabilities.max_image_count > 0 && capabilities.min_image_count
        >= capabilities.max_image_count {
        capabilities.max_image_count
    } else {
        capabilities.min_image_count + 1
    }
}

/// Whether a set of surface transforms holds the identity.
pub open spec fn has_identity_transform(transforms: u32) -> bool {
    transforms & vk::SURFACE_TRANSFORM_IDENTITY == vk::SURFACE_TRANSFORM_IDENTITY
}

/// The identity transform where the surface supports it, else the
/// transform the surface has now.
pub fn select_pre_transform(capabilities: vk::SurfaceCapabilitiesKHR) -> (transform: u32)
    ensures
        transform == if has_identity_transform(capabilities.supported_transforms) {
            vk::SURFACE_TRANSFORM_IDENTITY
        } else {
            capabilities.current_transform
        },
{
    if capabilities.supported_transforms & vk::SURFACE_TRANSFORM_IDENTITY
        == vk::SURFACE_TRANSFORM_IDENTITY {
        vk::SURFACE_TRANSFORM_IDENTITY
    } else {
        capabilities.current_transform
    }
}

/// `value` held between `low` and `high`; `low` where the two cross.
pub open spec fn clamped(value: u32, low: u32, high: u32) -> u32 {
    let capped = if high < value {
        high
    } else {
        value
    };
    if low > capped {
        low
    } else {
        capped
    }
}

/// The surface's own extent where it has one, else the window's size held
/// between the surface's smallest and largest extent.
pub open spec fn extent_for(
    capabilities: vk::SurfaceCapabilitiesKHR,
    window_extent: vk::Extent2D,
) -> vk::Extent2D {
    if capabilities.current_extent.width != u32::MAX {
        capabilities.current_extent
    } else {
        vk::Extent2D {
            width: clamped(
                window_extent.width,
                capabilities.min_image_extent.width,
                capabilities.max_image_extent.width,
            ),
            height: clamped(
                window_extent.height,
                capabilities.min_image_extent.height,
                capabilities.max_image_extent.height,
            ),
        }
    }
}

fn clamp(value: u32, low: u32, high: u32) -> (r: u32)
    ensures
        r == clamped(value, low, high),
{
    let capped = if high < value {
        high
    } else {
        value
    };
    if low > capped {
        low
    } else {
        capped
    }
}

/// The extent of the swapchain's images.
pub fn select_extent(
    capabilities: vk::SurfaceCapabilitiesKHR,
    window_extent: vk::Extent2D,
) -> (extent: vk::Extent2D)
    ensures
        extent == extent_for(capabilities, window_extent),
{
    if capabilities.current_extent.width != u32::MAX {
        return capabilities.current_extent;
    }
    vk::Extent2D {
        width: clamp(
            window_extent.width,
            capabilities.min_image_extent.width,
            capabilities.max_image_extent.width,
        ),
        height: clamp(
            window_extent.height,
            capabilities.min_image_extent.height,
            capabilities.max_image_extent.height,
        ),
    }
}

/// Mailbox where the surface offers it, else FIFO.
pub fn select_present_mode(present_modes: &Vec<i32>) -> (mode: i32)
    ensures
        mode == if present_modes@.contains(vk::PRESENT_MODE_MAILBOX) {
            vk::PRESENT_MODE_MAILBOX
        } else {
            vk::PRESENT_MODE_FIFO
        },
{
    let mut i: usize = 0;
    while i < present_modes.len()
        invariant
            i <= present_modes@.len(),
            forall|j: int| 0 <= j < i ==> present_modes@[j] != vk::PRESENT_MODE_MAILBOX,
        decreases present_modes@.len() - i,
    {
        if present_modes[i] == vk::PRESENT_MODE_MAILBOX {
            return vk::PRESENT_MODE_MAILBOX;
        }
        i += 1;
    }
    vk::PRESENT_MODE_FIFO
}

/// What a swapchain is created with, as far as the surface decides it.
#[derive(Clone, Copy, Debug, PartialEq, Eq, Structural)]
pub struct SwapchainConfig {
    pub surface_format: vk::SurfaceFormatKHR,
    pub image_count: u32,
    pub pre_transform: u32,
    pub extent: vk::Extent2D,
    pub present_mode: i32,
}

/// The configuration of a swapchain for a surface with the given support
/// and a window of the given size.
pub fn select_swapchain_config(
    support: &SwapChainSupportDetails,
    window_extent: vk::Extent2D,
) -> (config: SwapchainConfig)
    requires
        support.formats@.len() > 0,
        support.capabilities.max_image_count > 0 || support.capabilities.min_image_count
            < u32::MAX,
    ensures
        config.surface_format == if support.formats@.contains(preferred_surface_format()) {
            preferred_surface_format()
        } else {
            support.formats@[0]
        },
        config.image_count == image_count_for(support.capabilities),
        config.pre_transform == if has_identity_transform(
            support.capabilities.supported_transforms,
        ) {
            vk::SURFACE_TRANSFORM_IDENTITY
        } else {
            support.capabilities.current_transform
        },
        config.extent == extent_for(support.capabilities, window_extent),
        config.present_mode == if support.present_modes@.contains(vk::PRESENT_MODE_MAILBOX) {
            vk::PRESENT_MODE_MAILBOX
        } else {
            vk::PRESENT_MODE_FIFO
        },
{
    SwapchainConfig {
        surface_format: select_surface_format(&support.formats),
        image_count: select_image_count(support.capabilities),
        pre_transform: select_pre_transform(support.capabilities),
        extent: select_extent(support.capabilities, window_extent),
        present_mode: select_present_mode(&support.present_modes),
    }
}

/// A call on the swapchain that failed, with the result code it gave.
#[derive(Clone, Copy, Debug, PartialEq, Eq, Structural)]
pub enum SwapchainError {
    /// Acquiring the next image failed.
    AcquireImage(i32),
    /// Queueing an image for presentation failed.
    QueuePresent(i32),
}

/// The state of a swapchain: its format, the number of its images, and the
/// image that was acquired last.
#[derive(Clone, Copy, Debug, PartialEq, Eq, Structural)]
pub struct Swapchain {
    pub image_format: i32,
    pub image_count: usize,
    pub current_image_index: usize,
}

impl Swapchain {
    /// A swapchain of `image_count` images, none acquired yet.
    pub fn new(image_format: i32, image_count: usize) -> (swapchain: Self)
        ensures
            swapchain == (Swapchain { image_format, image_count, current_image_index: 0 }),
    {
        Swapchain { image_format, image_count, current_image_index: 0 }
    }

    /// The index of the image that was acquired last.
    pub fn current_index(&self) -> (index: usize)
        ensures
            index == self.current_image_index,
    {
        self.current_image_index
    }

    /// The format of the images.
    pub fn image_format(&self) -> (format: i32)
        ensures
            format == self.image_format,
    {
        self.image_format
    }

    /// Takes in what acquiring the next image gave: the image's index and
    /// whether the swapchain is suboptimal, or the result code of the
    /// failure. Says whether the swapchain has to be rebuilt: where it is
    /// suboptimal, or out of date. Any other failure is an error.
    pub fn acquire_next_image(&mut self, acquired: Result<(u32, bool), i32>) -> (suboptimal: Result<
        bool,
        SwapchainError,
    >)
        ensures
            final(self).image_format == old(self).image_format,
            final(self).image_count == old(self).image_count,
            match acquired {
                Ok((index, flag)) => {
                    &&& suboptimal == Ok::<bool, SwapchainError>(flag)
                    &&& final(self).current_image_index == index
                },
                Err(code) => {
                    &&& final(self).current_image_index == old(self).current_image_index
                    &&& suboptimal == if code == vk::ERROR_OUT_OF_DATE {
                        Ok::<bool, SwapchainError>(true)
                    } else {
                        Err::<bool, SwapchainError>(SwapchainError::AcquireImage(code))
                    }
                },
            },
    {
        match acquired {
            Ok((index, flag)) => {
                self.current_image_index = index as usize;
                Ok(flag)
            },
            Err(code) => {
                if code != vk::ERROR_OUT_OF_DATE {
                    return Err(SwapchainError::AcquireImage(code));
                }
                Ok(true)
            },
        }
    }

    /// Takes in what queueing the current image for presentation gave:
    /// whether the swapchain is suboptimal, or the result code of the
    /// failure. Says whether the swapchain has to be rebuilt: where it is
    /// suboptimal, or out of date. Any other failure is an error.
    pub fn queue_present(&self, presented: Result<bool, i32>) -> (suboptimal: Result<
        bool,
        SwapchainError,
    >)
        ensures
            suboptimal == match presented {
                Ok(flag) => Ok::<bool, SwapchainError>(flag),
                Err(code) => if code == vk::ERROR_OUT_OF_DATE {
                    Ok::<bool, SwapchainError>(true)
                } else {
                    Err::<bool, SwapchainError>(SwapchainError::QueuePresent(code))
                },
            },
    {
        match presented {
            Ok(flag) => Ok(flag),
            Err(code) => {
                if code == vk::ERROR_OUT_OF_DATE {
                    Ok(true)
                } else {
                    Err(SwapchainError::QueuePresent(code))
                }
            },
        }
    }
}

} // verus!
