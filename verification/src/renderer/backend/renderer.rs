//! The frame lifecycle: begin a frame, record it, end it, and rebuild the
//! swapchain where the surface asks for it. The decisions are taken here;
//! the caller makes the calls into the graphics API that they name and
//! hands back what came of them.

use vstd::prelude::*;

use super::swapchain::{Swapchain, SwapchainError};
use super::vk;

verus! {

/// The number of frame slots. Each slot has a fence, two semaphores and a
/// command buffer of its own, so that one frame can be recorded while the
/// frame before it is still being executed.
pub const MAX_FRAMES_IN_FLIGHT: u32 = 2;

/// Where the renderer stands in the life of a frame.
#[derive(Clone, Copy, Debug, PartialEq, Eq, Structural)]
pub enum FramePhase {
    /// No frame is open.
    Idle,
    /// An image was acquired: the frame can be drawn and ended.
    FrameBegun,
    /// The frame was ended, but not presented: the swapchain had to be
    /// rebuilt. The next frame begins as from `Idle`.
    FrameEnded,
}

/// What `begin_frame` asks of the caller.
#[derive(Clone, Copy, Debug, PartialEq, Eq, Structural)]
pub enum BeginFrame {
    /// The window has no area: there is no frame in this tick, and nothing
    /// to wait for.
    Skipped,
    /// Wait for the fence of this slot, reset it, acquire the next image
    /// with the slot's acquire semaphore, and report to `image_acquired`.
    Acquire { slot: u32 },
}

/// What became of a frame that was begun.
#[derive(Clone, Copy, Debug, PartialEq, Eq, Structural)]
pub enum FrameStatus {
    /// The frame is ready to be drawn.
    Ready,
    /// There is no frame in this tick: wait for the device to be idle,
    /// rebuild the swapchain and what depends on its size, and report to
    /// `recreate_swapchain`.
    Rebuild,
}

/// What became of a frame that was ended.
#[derive(Clone, Copy, Debug, PartialEq, Eq, Structural)]
pub enum PresentStatus {
    /// The frame was presented.
    Presented,
    /// The frame was not presented: wait for the device to be idle, rebuild
    /// the swapchain and what depends on its size, and report to
    /// `recreate_swapchain`.
    Rebuild,
}

/// What `draw` records into: the command buffer of a slot, the framebuffer
/// of an image, and the area of the viewport and of the scissor.
#[derive(Clone, Copy, Debug, PartialEq, Eq, Structural)]
pub struct DrawPass {
    pub slot: u32,
    pub framebuffer: usize,
    pub extent: vk::Extent2D,
}

/// What `end_frame` submits and presents: the command buffer of a slot,
/// which waits for the slot's acquire semaphore and signals its
/// render-complete semaphore and its fence, and the image to present once
/// the render-complete semaphore is signalled.
#[derive(Clone, Copy, Debug, PartialEq, Eq, Structural)]
pub struct Submission {
    pub slot: u32,
    pub image_index: usize,
}

/// The state of the frame lifecycle.
#[derive(Clone, Copy, Debug, PartialEq, Eq, Structural)]
pub struct VulkanRenderer {
    /// The swapchain that holds the images to draw onto.
    pub swapchain: Swapchain,
    /// The slot of the current frame: the number of frames presented so
    /// far, modulo the number of slots.
    pub frame_index: u32,
    /// The size of the window's surface, as last reported.
    pub window_extent: vk::Extent2D,
    /// Whether the surface was resized since the swapchain was last checked
    /// at the beginning of a frame.
    pub framebuffer_resized: bool,
    /// Where the renderer stands in the life of a frame.
    pub phase: FramePhase,
}

impl VulkanRenderer {
    /// The slot is one of the ring.
    pub open spec fn wf(&self) -> bool {
        self.frame_index < MAX_FRAMES_IN_FLIGHT
    }

    /// Whether the window has no area.
    pub open spec fn minimized(&self) -> bool {
        self.window_extent.width == 0 || self.window_extent.height == 0
    }

    /// The renderer for a window of the given size, once its swapchain has
    /// been created: idle, at the first slot, no resize pending.
    pub fn new(window_extent: vk::Extent2D, swapchain: Swapchain) -> (renderer: Self)
        ensures
            renderer.wf(),
            renderer == (VulkanRenderer {
                swapchain,
                frame_index: 0,
                window_extent,
                framebuffer_resized: false,
                phase: FramePhase::Idle,
            }),
    {
        VulkanRenderer {
            swapchain,
            frame_index: 0,
            window_extent,
            framebuffer_resized: false,
            phase: FramePhase::Idle,
        }
    }

    /// Notes the new size of the window. Nothing is rebuilt now: the
    /// swapchain is rebuilt when the next frame begins.
    pub fn resize(&mut self, width: u32, height: u32)
        ensures
            *final(self) == (VulkanRenderer {
                window_extent: vk::Extent2D { width, height },
                framebuffer_resized: true,
                ..*old(self)
            }),
    {
        self.window_extent = vk::Extent2D { width, height };
        self.framebuffer_resized = true;
    }

    /// Resizing twice to the same size is resizing once.
    pub proof fn law_resize_idempotent(
        before: VulkanRenderer,
        once: VulkanRenderer,
        twice: VulkanRenderer,
        width: u32,
        height: u32,
    )
        requires
            once == (VulkanRenderer {
                window_extent: vk::Extent2D { width, height },
                framebuffer_resized: true,
                ..before
            }),
            twice == (VulkanRenderer {
                window_extent: vk::Extent2D { width, height },
                framebuffer_resized: true,
                ..once
            }),
        ensures
            twice == once,
    {
    }

    /// Begins a frame. Where the window has no area there is no frame, and
    /// no synchronization object is touched; else the caller is asked to
    /// wait for the current slot and to acquire an image.
    pub fn begin_frame(&self) -> (step: BeginFrame)
        requires
            self.wf(),
        ensures
            step == if self.minimized() {
                BeginFrame::Skipped
            } else {
                BeginFrame::Acquire { slot: self.frame_index }
            },
    {
        if self.window_extent.width == 0 || self.window_extent.height == 0 {
            return BeginFrame::Skipped;
        }
        BeginFrame::Acquire { slot: self.current_frame() }
    }

    /// Takes in what acquiring the next image gave (see
    /// `Swapchain::acquire_next_image`). Where the swapchain is suboptimal
    /// or out of date, or a resize is pending, the swapchain has to be
    /// rebuilt and there is no frame in this tick; the pending resize is
    /// then taken care of. Else the frame is begun.
    pub fn image_acquired(&mut self, acquired: Result<(u32, bool), i32>) -> (status: Result<
        FrameStatus,
        SwapchainError,
    >)
        requires
            old(self).wf(),
        ensures
            final(self).wf(),
            final(self).frame_index == old(self).frame_index,
            final(self).window_extent == old(self).window_extent,
            final(self).swapchain.image_format == old(self).swapchain.image_format,
            final(self).swapchain.image_count == old(self).swapchain.image_count,
            final(self).swapchain.current_image_index == match acquired {
                Ok((index, _)) => index as usize,
                Err(_) => old(self).swapchain.current_image_index,
            },
            match acquired {
                Err(code) if code != vk::ERROR_OUT_OF_DATE => {
                    &&& status == Err::<FrameStatus, SwapchainError>(
                        SwapchainError::AcquireImage(code),
                    )
                    &&& final(self).phase == old(self).phase
                    &&& final(self).framebuffer_resized == old(self).framebuffer_resized
                },
                Ok((_, false)) if !old(self).framebuffer_resized => {
                    &&& status == Ok::<FrameStatus, SwapchainError>(FrameStatus::Ready)
                    &&& final(self).phase == FramePhase::FrameBegun
                    &&& !final(self).framebuffer_resized
                },
                _ => {
                    &&& status == Ok::<FrameStatus, SwapchainError>(FrameStatus::Rebuild)
                    &&& final(self).phase == old(self).phase
                    &&& !final(self).framebuffer_resized
                },
            },
    {
        let suboptimal = match self.swapchain.acquire_next_image(acquired) {
            Ok(flag) => flag,
            Err(e) => {
                return Err(e);
            },
        };
        if suboptimal || self.framebuffer_resized {
            self.framebuffer_resized = false;
            return Ok(FrameStatus::Rebuild);
        }
        self.phase = FramePhase::FrameBegun;
        Ok(FrameStatus::Ready)
    }

    /// Notes the swapchain that was built in place of the old one. The
    /// phase, the slot and the window size stay as they are.
    pub fn recreate_swapchain(&mut self, swapchain: Swapchain)
        ensures
            *final(self) == (VulkanRenderer { swapchain, ..*old(self) }),
    {
        self.swapchain = swapchain;
    }

    /// What the frame is recorded into.
    pub fn draw(&self) -> (pass: DrawPass)
        requires
            self.wf(),
            self.phase == FramePhase::FrameBegun,
            self.swapchain.current_image_index < self.swapchain.image_count,
        ensures
            pass == (DrawPass {
                slot: self.frame_index,
                framebuffer: self.swapchain.current_image_index,
                extent: self.window_extent,
            }),
    {
        DrawPass {
            slot: self.current_frame(),
            framebuffer: self.current_framebuffer(),
            extent: self.window_extent,
        }
    }

    /// What is submitted and presented to end the frame. The caller reports
    /// what came of it to `frame_presented`.
    pub fn end_frame(&self) -> (submission: Submission)
        requires
            self.wf(),
            self.phase == FramePhase::FrameBegun,
        ensures
            submission == (Submission {
                slot: self.frame_index,
                image_index: self.swapchain.current_image_index,
            }),
    {
        Submission { slot: self.current_frame(), image_index: self.swapchain.current_index() }
    }

    /// Takes in what queueing the image for presentation gave (see
    /// `Swapchain::queue_present`). Where the swapchain is suboptimal or
    /// out of date, it has to be rebuilt and the frame was not presented.
    /// Else the frame is over, and the next one takes the next slot.
    pub fn frame_presented(&mut self, presented: Result<bool, i32>) -> (status: Result<
        PresentStatus,
        SwapchainError,
    >)
        requires
            old(self).wf(),
            old(self).phase == FramePhase::FrameBegun,
        ensures
            final(self).wf(),
            final(self).swapchain == old(self).swapchain,
            final(self).window_extent == old(self).window_extent,
            final(self).framebuffer_resized == old(self).framebuffer_resized,
            match presented {
                Err(code) if code != vk::ERROR_OUT_OF_DATE => {
                    &&& status == Err::<PresentStatus, SwapchainError>(
                        SwapchainError::QueuePresent(code),
                    )
                    &&& final(self).phase == FramePhase::FrameBegun
                    &&& final(self).frame_index == old(self).frame_index
                },
                Ok(false) => {
                    &&& status == Ok::<PresentStatus, SwapchainError>(PresentStatus::Presented)
                    &&& final(self).phase == FramePhase::Idle
                    &&& final(self).frame_index == (old(self).frame_index + 1)
                        % (MAX_FRAMES_IN_FLIGHT as int)
                },
                _ => {
                    &&& status == Ok::<PresentStatus, SwapchainError>(PresentStatus::Rebuild)
                    &&& final(self).phase == FramePhase::FrameEnded
                    &&& final(self).frame_index == old(self).frame_index
                },
            },
    {
        let suboptimal = match self.swapchain.queue_present(presented) {
            Ok(flag) => flag,
            Err(e) => {
                return Err(e);
            },
        };
        if suboptimal {
            self.phase = FramePhase::FrameEnded;
            return Ok(PresentStatus::Rebuild);
        }
        self.phase = FramePhase::Idle;
        self.bump_frame();
        Ok(PresentStatus::Presented)
    }

    /// The framebuffer of the image that was acquired last.
    pub fn current_framebuffer(&self) -> (index: usize)
        requires
            self.swapchain.current_image_index < self.swapchain.image_count,
        ensures
            index == self.swapchain.current_image_index,
    {
        self.swapchain.current_index()
    }

    /// The slot of the current frame.
    pub fn current_frame(&self) -> (slot: u32)
        requires
            self.wf(),
        ensures
            slot == self.frame_index,
            slot < MAX_FRAMES_IN_FLIGHT,
    {
        self.frame_index % MAX_FRAMES_IN_FLIGHT
    }

    fn bump_frame(&mut self)
        requires
            old(self).wf(),
        ensures
            *final(self) == (VulkanRenderer {
                frame_index: ((old(self).frame_index + 1) % (MAX_FRAMES_IN_FLIGHT as int)) as u32,
                ..*old(self)
            }),
    {
        self.frame_index = (self.frame_index + 1) % MAX_FRAMES_IN_FLIGHT;
    }
}

/// The access masks and pipeline stages of an image layout transition.
#[derive(Clone, Copy, Debug, PartialEq, Eq, Structural)]
pub struct LayoutTransition {
    pub src_access_mask: u32,
    pub dst_access_mask: u32,
    pub source_stage: u32,
    pub destination_stage: u32,
}

/// Why an image operation was refused.
#[derive(Clone, Copy, Debug, PartialEq, Eq, Structural)]
pub enum ImageError {
    /// There is no transition between these two layouts.
    UnsupportedLayoutTransition { old_layout: i32, new_layout: i32 },
}

/// What the barrier of a layout transition waits for and blocks. Two
/// transitions are supported: from undefined to transfer destination, and
/// from transfer destination to shader read-only.
pub fn transition_image_layout(old_layout: i32, new_layout: i32) -> (transition: Result<
    LayoutTransition,
    ImageError,
>)
    ensures
        transition == if old_layout == vk::IMAGE_LAYOUT_UNDEFINED && new_layout
            == vk::IMAGE_LAYOUT_TRANSFER_DST_OPTIMAL {
            Ok::<LayoutTransition, ImageError>(
                LayoutTransition {
                    src_access_mask: 0,
                    dst_access_mask: vk::ACCESS_TRANSFER_WRITE,
                    source_stage: vk::PIPELINE_STAGE_TOP_OF_PIPE,
                    destination_stage: vk::PIPELINE_STAGE_TRANSFER,
                },
            )
        } else if old_layout == vk::IMAGE_LAYOUT_TRANSFER_DST_OPTIMAL && new_layout
            == vk::IMAGE_LAYOUT_SHADER_READ_ONLY_OPTIMAL {
            Ok::<LayoutTransition, ImageError>(
                LayoutTransition {
                    src_access_mask: vk::ACCESS_TRANSFER_WRITE,
                    dst_access_mask: vk::ACCESS_SHADER_READ,
                    source_stage: vk::PIPELINE_STAGE_TRANSFER,
                    destination_stage: vk::PIPELINE_STAGE_FRAGMENT_SHADER,
                },
            )
        } else {
            Err::<LayoutTransition, ImageError>(
                ImageError::UnsupportedLayoutTransition { old_layout, new_layout },
            )
        },
{
    if old_layout == vk::IMAGE_LAYOUT_UNDEFINED && new_layout
        == vk::IMAGE_LAYOUT_TRANSFER_DST_OPTIMAL {
        Ok(
            LayoutTransition {
                src_access_mask: 0,
                dst_access_mask: vk::ACCESS_TRANSFER_WRITE,
                source_stage: vk::PIPELINE_STAGE_TOP_OF_PIPE,
                destination_stage: vk::PIPELINE_STAGE_TRANSFER,
            },
        )
    } else if old_layout == vk::IMAGE_LAYOUT_TRANSFER_DST_OPTIMAL && new_layout
        == vk::IMAGE_LAYOUT_SHADER_READ_ONLY_OPTIMAL {
        Ok(
            LayoutTransition {
                src_access_mask: vk::ACCESS_TRANSFER_WRITE,
                dst_access_mask: vk::ACCESS_SHADER_READ,
                source_stage: vk::PIPELINE_STAGE_TRANSFER,
                destination_stage: vk::PIPELINE_STAGE_FRAGMENT_SHADER,
            },
        )
    } else {
        Err(ImageError::UnsupportedLayoutTransition { old_layout, new_layout })
    }
}

} // verus!
