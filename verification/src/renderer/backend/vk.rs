//! The values of the graphics API that the back end decides on, as plain
//! data: raw codes for enumerations, raw bits for flag sets.

use vstd::prelude::*;

verus! {

/// Format code: four 8-bit channels, blue first, sRGB encoded.
pub const FORMAT_B8G8R8A8_SRGB: i32 = 50;

/// Format code: four 32-bit float channels.
pub const FORMAT_R32G32B32A32_SFLOAT: i32 = 109;

/// Color space code: sRGB, non-linear.
pub const COLOR_SPACE_SRGB_NONLINEAR: i32 = 0;

/// Present mode code: newest image wins, no tearing.
pub const PRESENT_MODE_MAILBOX: i32 = 1;

/// Present mode code: strict queue, always available.
pub const PRESENT_MODE_FIFO: i32 = 2;

/// Surface transform bit: the image is presented as it is.
pub const SURFACE_TRANSFORM_IDENTITY: u32 = 0x1;

/// Queue capability bit: graphics operations.
pub const QUEUE_GRAPHICS: u32 = 0x1;

/// Result code: the surface no longer matches the swapchain.
pub const ERROR_OUT_OF_DATE: i32 = -1_000_001_004;

/// Image layout code: contents undefined.
pub const IMAGE_LAYOUT_UNDEFINED: i32 = 0;

/// Image layout code: read by shaders.
pub const IMAGE_LAYOUT_SHADER_READ_ONLY_OPTIMAL: i32 = 5;

/// Image layout code: destination of a transfer.
pub const IMAGE_LAYOUT_TRANSFER_DST_OPTIMAL: i32 = 7;

/// Access bit: read by a shader.
pub const ACCESS_SHADER_READ: u32 = 0x20;

/// Access bit: written by a transfer.
pub const ACCESS_TRANSFER_WRITE: u32 = 0x1000;

/// Pipeline stage bit: before any command.
pub const PIPELINE_STAGE_TOP_OF_PIPE: u32 = 0x1;

/// Pipeline stage bit: fragment shading.
pub const PIPELINE_STAGE_FRAGMENT_SHADER: u32 = 0x80;

/// Pipeline stage bit: transfers.
pub const PIPELINE_STAGE_TRANSFER: u32 = 0x1000;

/// Vertex input rate code: one step per vertex.
pub const VERTEX_INPUT_RATE_VERTEX: i32 = 0;

/// The number of memory types a device can report.
pub const MAX_MEMORY_TYPES: usize = 32;

/// A width and a height in pixels.
#[derive(Clone, Copy, Debug, PartialEq, Eq, Structural)]
pub struct Extent2D {
    pub width: u32,
    pub height: u32,
}

/// A pixel format together with the color space it is shown in.
#[derive(Clone, Copy, Debug, PartialEq, Eq, Structural)]
pub struct SurfaceFormatKHR {
    pub format: i32,
    pub color_space: i32,
}

/// What a surface can do, as far as the swapchain policy reads it.
#[derive(Clone, Copy, Debug, PartialEq, Eq, Structural)]
pub struct SurfaceCapabilitiesKHR {
    pub min_image_count: u32,
    /// Zero where the surface sets no upper limit.
    pub max_image_count: u32,
    /// A width of `u32::MAX` where the surface takes its size from the
    /// swapchain.
    pub current_extent: Extent2D,
    pub min_image_extent: Extent2D,
    pub max_image_extent: Extent2D,
    pub supported_transforms: u32,
    pub current_transform: u32,
}

/// What a resource asks of the memory bound to it.
#[derive(Clone, Copy, Debug, PartialEq, Eq, Structural)]
pub struct MemoryRequirements {
    pub size: u64,
    pub alignment: u64,
    /// Bit `i` is set where memory type `i` will do.
    pub memory_type_bits: u32,
}

/// One kind of memory of a device.
#[derive(Clone, Copy, Debug, PartialEq, Eq, Structural)]
pub struct MemoryType {
    pub property_flags: u32,
    pub heap_index: u32,
}

/// The kinds of memory of a device, in the device's order.
#[derive(Debug)]
pub struct PhysicalDeviceMemoryProperties {
    pub memory_types: Vec<MemoryType>,
}

/// What one queue family of a device can do.
#[derive(Clone, Copy, Debug, PartialEq, Eq, Structural)]
pub struct QueueFamilyProperties {
    pub queue_flags: u32,
    /// Whether queues of this family can present to the window's surface.
    pub surface_support: bool,
}

/// How the vertices of one binding are laid out in a vertex buffer.
#[derive(Clone, Copy, Debug, PartialEq, Eq, Structural)]
pub struct VertexInputBindingDescription {
    pub binding: u32,
    /// The bytes from one vertex to the next.
    pub stride: u32,
    pub input_rate: i32,
}

/// Where one attribute of a vertex is found.
#[derive(Clone, Copy, Debug, PartialEq, Eq, Structural)]
pub struct VertexInputAttributeDescription {
    pub location: u32,
    pub binding: u32,
    pub format: i32,
    /// The bytes from the start of the vertex to the attribute.
    pub offset: u32,
}

} // verus!
