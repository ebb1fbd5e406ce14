use ash::vk as ashvk;
use toy_engine::renderer::backend::device::SwapChainSupportDetails;
use toy_engine::renderer::backend::swapchain::{
    select_extent, select_image_count, select_pre_transform, select_present_mode,
    select_surface_format, select_swapchain_config, Swapchain, SwapchainError,
};
use toy_engine::renderer::backend::vk;

fn extent(width: u32, height: u32) -> vk::Extent2D {
    vk::Extent2D { width, height }
}

fn capabilities() -> vk::SurfaceCapabilitiesKHR {
    vk::SurfaceCapabilitiesKHR {
        min_image_count: 2,
        max_image_count: 8,
        current_extent: extent(800, 600),
        min_image_extent: extent(1, 1),
        max_image_extent: extent(4096, 4096),
        supported_transforms: 0x1 | 0x2,
        current_transform: 0x2,
    }
}

fn format(format: i32, color_space: i32) -> vk::SurfaceFormatKHR {
    vk::SurfaceFormatKHR { format, color_space }
}

#[test]
fn codes_are_those_of_the_graphics_api() {
    assert_eq!(vk::FORMAT_B8G8R8A8_SRGB, ashvk::Format::B8G8R8A8_SRGB.as_raw());
    assert_eq!(
        vk::FORMAT_R32G32B32A32_SFLOAT,
        ashvk::Format::R32G32B32A32_SFLOAT.as_raw()
    );
    assert_eq!(
        vk::COLOR_SPACE_SRGB_NONLINEAR,
        ashvk::ColorSpaceKHR::SRGB_NONLINEAR.as_raw()
    );
    assert_eq!(vk::PRESENT_MODE_MAILBOX, ashvk::PresentModeKHR::MAILBOX.as_raw());
    assert_eq!(vk::PRESENT_MODE_FIFO, ashvk::PresentModeKHR::FIFO.as_raw());
    assert_eq!(
        vk::SURFACE_TRANSFORM_IDENTITY,
        ashvk::SurfaceTransformFlagsKHR::IDENTITY.as_raw()
    );
    assert_eq!(vk::QUEUE_GRAPHICS, ashvk::QueueFlags::GRAPHICS.as_raw());
    assert_eq!(vk::ERROR_OUT_OF_DATE, ashvk::Result::ERROR_OUT_OF_DATE_KHR.as_raw());
    assert_eq!(vk::IMAGE_LAYOUT_UNDEFINED, ashvk::ImageLayout::UNDEFINED.as_raw());
    assert_eq!(
        vk::IMAGE_LAYOUT_SHADER_READ_ONLY_OPTIMAL,
        ashvk::ImageLayout::SHADER_READ_ONLY_OPTIMAL.as_raw()
    );
    assert_eq!(
        vk::IMAGE_LAYOUT_TRANSFER_DST_OPTIMAL,
        ashvk::ImageLayout::TRANSFER_DST_OPTIMAL.as_raw()
    );
    assert_eq!(vk::ACCESS_SHADER_READ, ashvk::AccessFlags::SHADER_READ.as_raw());
    assert_eq!(vk::ACCESS_TRANSFER_WRITE, ashvk::AccessFlags::TRANSFER_WRITE.as_raw());
    assert_eq!(
        vk::PIPELINE_STAGE_TOP_OF_PIPE,
        ashvk::PipelineStageFlags::TOP_OF_PIPE.as_raw()
    );
    assert_eq!(
        vk::PIPELINE_STAGE_FRAGMENT_SHADER,
        ashvk::PipelineStageFlags::FRAGMENT_SHADER.as_raw()
    );
    assert_eq!(
        vk::PIPELINE_STAGE_TRANSFER,
        ashvk::PipelineStageFlags::TRANSFER.as_raw()
    );
    assert_eq!(
        vk::VERTEX_INPUT_RATE_VERTEX,
        ashvk::VertexInputRate::VERTEX.as_raw()
    );
    assert_eq!(vk::MAX_MEMORY_TYPES, ashvk::MAX_MEMORY_TYPES);
}

#[test]
fn preferred_format_is_taken_where_offered() {
    let formats = vec![
        format(44, 0),
        format(vk::FORMAT_B8G8R8A8_SRGB, vk::COLOR_SPACE_SRGB_NONLINEAR),
        format(37, 0),
    ];
    assert_eq!(
        select_surface_format(&formats),
        format(vk::FORMAT_B8G8R8A8_SRGB, vk::COLOR_SPACE_SRGB_NONLINEAR)
    );
}

#[test]
fn first_format_is_taken_where_the_preferred_is_missing() {
    let formats = vec![format(44, 0), format(vk::FORMAT_B8G8R8A8_SRGB, 7), format(37, 0)];
    assert_eq!(select_surface_format(&formats), format(44, 0));
    let formats = vec![format(50, 1_000_104_001)];
    assert_eq!(select_surface_format(&formats), format(50, 1_000_104_001));
}

#[test]
fn image_count_is_one_above_the_minimum() {
    let mut caps = capabilities();
    assert_eq!(select_image_count(caps), 3);
    caps.max_image_count = 0;
    assert_eq!(select_image_count(caps), 3);
    caps.min_image_count = 40;
    assert_eq!(select_image_count(caps), 41);
}

#[test]
fn image_count_is_held_to_the_maximum() {
    let mut caps = capabilities();
    caps.min_image_count = 3;
    caps.max_image_count = 3;
    assert_eq!(select_image_count(caps), 3);
    caps.max_image_count = 4;
    assert_eq!(select_image_count(caps), 4);
    caps.min_image_count = u32::MAX;
    caps.max_image_count = 5;
    assert_eq!(select_image_count(caps), 5);
}

#[test]
fn identity_transform_is_taken_where_supported() {
    let mut caps = capabilities();
    assert_eq!(select_pre_transform(caps), vk::SURFACE_TRANSFORM_IDENTITY);
    caps.supported_transforms = 0x2 | 0x4;
    caps.current_transform = 0x4;
    assert_eq!(select_pre_transform(caps), 0x4);
}

#[test]
fn extent_of_the_surface_is_taken_where_defined() {
    let caps = capabilities();
    assert_eq!(select_extent(caps, extent(1024, 768)), extent(800, 600));
}

#[test]
fn window_size_is_clamped_where_the_surface_has_no_extent() {
    let mut caps = capabilities();
    caps.current_extent = extent(u32::MAX, u32::MAX);
    caps.min_image_extent = extent(100, 200);
    caps.max_image_extent = extent(1000, 900);
    assert_eq!(select_extent(caps, extent(640, 480)), extent(640, 480));
    assert_eq!(select_extent(caps, extent(5000, 10)), extent(1000, 200));
    assert_eq!(select_extent(caps, extent(0, 2000)), extent(100, 900));
    caps.current_extent = extent(u32::MAX, 17);
    assert_eq!(select_extent(caps, extent(640, 480)), extent(640, 480));
    caps.current_extent = extent(17, u32::MAX);
    assert_eq!(select_extent(caps, extent(640, 480)), extent(17, u32::MAX));
}

#[test]
fn mailbox_is_taken_where_offered_else_fifo() {
    assert_eq!(
        select_present_mode(&vec![0, vk::PRESENT_MODE_FIFO, vk::PRESENT_MODE_MAILBOX]),
        vk::PRESENT_MODE_MAILBOX
    );
    assert_eq!(select_present_mode(&vec![0, 3]), vk::PRESENT_MODE_FIFO);
    assert_eq!(select_present_mode(&vec![]), vk::PRESENT_MODE_FIFO);
}

#[test]
fn configuration_gathers_the_selections() {
    let mut caps = capabilities();
    caps.current_extent = extent(u32::MAX, u32::MAX);
    let support = SwapChainSupportDetails::new(
        vec![format(44, 0), format(50, 0)],
        caps,
        vec![vk::PRESENT_MODE_FIFO],
    );
    let config = select_swapchain_config(&support, extent(5000, 300));
    assert_eq!(config.surface_format, format(50, 0));
    assert_eq!(config.image_count, 3);
    assert_eq!(config.pre_transform, vk::SURFACE_TRANSFORM_IDENTITY);
    assert_eq!(config.extent, extent(4096, 300));
    assert_eq!(config.present_mode, vk::PRESENT_MODE_FIFO);
}

#[test]
fn acquired_image_becomes_the_current_one() {
    let mut swapchain = Swapchain::new(50, 3);
    assert_eq!(swapchain.current_index(), 0);
    assert_eq!(swapchain.image_format(), 50);
    assert_eq!(swapchain.acquire_next_image(Ok((2, false))), Ok(false));
    assert_eq!(swapchain.current_index(), 2);
    assert_eq!(swapchain.acquire_next_image(Ok((1, true))), Ok(true));
    assert_eq!(swapchain.current_index(), 1);
    assert_eq!(swapchain.image_count, 3);
}

#[test]
fn out_of_date_asks_for_a_rebuild_and_other_codes_fail() {
    let mut swapchain = Swapchain::new(50, 3);
    swapchain.acquire_next_image(Ok((2, false))).unwrap();
    assert_eq!(
        swapchain.acquire_next_image(Err(vk::ERROR_OUT_OF_DATE)),
        Ok(true)
    );
    assert_eq!(swapchain.current_index(), 2);
    assert_eq!(
        swapchain.acquire_next_image(Err(-4)),
        Err(SwapchainError::AcquireImage(-4))
    );
    assert_eq!(swapchain.current_index(), 2);
    assert_eq!(swapchain.queue_present(Ok(false)), Ok(false));
    assert_eq!(swapchain.queue_present(Ok(true)), Ok(true));
    assert_eq!(swapchain.queue_present(Err(vk::ERROR_OUT_OF_DATE)), Ok(true));
    assert_eq!(
        swapchain.queue_present(Err(-1_000_000_000)),
        Err(SwapchainError::QueuePresent(-1_000_000_000))
    );
}
