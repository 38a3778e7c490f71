//! The library's numbers are those of the Vulkan bindings.
use ash::vk;
use vk_rs::define as d;

#[test]
fn descriptor_and_shader_numbers() {
    assert_eq!(d::VK_DESCRIPTOR_TYPE_COMBINED_IMAGE_SAMPLER, vk::DescriptorType::COMBINED_IMAGE_SAMPLER.as_raw());
    assert_eq!(d::VK_DESCRIPTOR_TYPE_UNIFORM_BUFFER, vk::DescriptorType::UNIFORM_BUFFER.as_raw());
    assert_eq!(d::VK_SHADER_STAGE_VERTEX_BIT, vk::ShaderStageFlags::VERTEX.as_raw());
    assert_eq!(d::VK_SHADER_STAGE_FRAGMENT_BIT, vk::ShaderStageFlags::FRAGMENT.as_raw());
}

#[test]
fn render_pass_numbers() {
    assert_eq!(d::VK_SUBPASS_EXTERNAL, vk::SUBPASS_EXTERNAL);
    assert_eq!(d::VK_IMAGE_LAYOUT_UNDEFINED, vk::ImageLayout::UNDEFINED.as_raw());
    assert_eq!(d::VK_IMAGE_LAYOUT_COLOR_ATTACHMENT_OPTIMAL, vk::ImageLayout::COLOR_ATTACHMENT_OPTIMAL.as_raw());
    assert_eq!(d::VK_IMAGE_LAYOUT_SHADER_READ_ONLY_OPTIMAL, vk::ImageLayout::SHADER_READ_ONLY_OPTIMAL.as_raw());
    assert_eq!(d::VK_IMAGE_LAYOUT_TRANSFER_DST_OPTIMAL, vk::ImageLayout::TRANSFER_DST_OPTIMAL.as_raw());
    assert_eq!(d::VK_IMAGE_LAYOUT_PRESENT_SRC_KHR, vk::ImageLayout::PRESENT_SRC_KHR.as_raw());
    assert_eq!(d::VK_SAMPLE_COUNT_1_BIT, vk::SampleCountFlags::TYPE_1.as_raw());
    assert_eq!(d::VK_ATTACHMENT_LOAD_OP_CLEAR, vk::AttachmentLoadOp::CLEAR.as_raw());
    assert_eq!(d::VK_ATTACHMENT_LOAD_OP_DONT_CARE, vk::AttachmentLoadOp::DONT_CARE.as_raw());
    assert_eq!(d::VK_ATTACHMENT_STORE_OP_STORE, vk::AttachmentStoreOp::STORE.as_raw());
    assert_eq!(d::VK_ATTACHMENT_STORE_OP_DONT_CARE, vk::AttachmentStoreOp::DONT_CARE.as_raw());
    assert_eq!(d::VK_PIPELINE_BIND_POINT_GRAPHICS, vk::PipelineBindPoint::GRAPHICS.as_raw());
    assert_eq!(d::VK_PIPELINE_STAGE_COLOR_ATTACHMENT_OUTPUT_BIT, vk::PipelineStageFlags::COLOR_ATTACHMENT_OUTPUT.as_raw());
    assert_eq!(d::VK_ACCESS_COLOR_ATTACHMENT_WRITE_BIT, vk::AccessFlags::COLOR_ATTACHMENT_WRITE.as_raw());
}

#[test]
fn pipeline_numbers() {
    assert_eq!(d::VK_PRIMITIVE_TOPOLOGY_TRIANGLE_LIST, vk::PrimitiveTopology::TRIANGLE_LIST.as_raw());
    assert_eq!(d::VK_DYNAMIC_STATE_VIEWPORT, vk::DynamicState::VIEWPORT.as_raw());
    assert_eq!(d::VK_DYNAMIC_STATE_SCISSOR, vk::DynamicState::SCISSOR.as_raw());
    assert_eq!(d::VK_POLYGON_MODE_FILL, vk::PolygonMode::FILL.as_raw());
    assert_eq!(d::VK_CULL_MODE_NONE, vk::CullModeFlags::NONE.as_raw());
    assert_eq!(d::VK_FRONT_FACE_COUNTER_CLOCKWISE, vk::FrontFace::COUNTER_CLOCKWISE.as_raw());
    assert_eq!(d::VK_BLEND_OP_ADD, vk::BlendOp::ADD.as_raw());
    assert_eq!(d::VK_BLEND_FACTOR_ZERO, vk::BlendFactor::ZERO.as_raw());
    assert_eq!(d::VK_BLEND_FACTOR_ONE, vk::BlendFactor::ONE.as_raw());
    assert_eq!(d::VK_LOGIC_OP_COPY, vk::LogicOp::COPY.as_raw());
    assert_eq!(d::VK_COLOR_COMPONENT_RGBA, vk::ColorComponentFlags::RGBA.as_raw());
    assert_eq!(d::VK_SUBPASS_CONTENTS_INLINE, vk::SubpassContents::INLINE.as_raw());
    assert_eq!(d::VK_INDEX_TYPE_UINT32, vk::IndexType::UINT32.as_raw());
    assert_eq!(d::VK_FENCE_CREATE_SIGNALED_BIT, vk::FenceCreateFlags::SIGNALED.as_raw());
}

#[test]
fn memory_and_texture_numbers() {
    assert_eq!(d::VK_BUFFER_USAGE_TRANSFER_SRC_BIT, vk::BufferUsageFlags::TRANSFER_SRC.as_raw());
    assert_eq!(d::VK_BUFFER_USAGE_TRANSFER_DST_BIT, vk::BufferUsageFlags::TRANSFER_DST.as_raw());
    assert_eq!(d::VK_BUFFER_USAGE_UNIFORM_BUFFER_BIT, vk::BufferUsageFlags::UNIFORM_BUFFER.as_raw());
    assert_eq!(d::VK_BUFFER_USAGE_INDEX_BUFFER_BIT, vk::BufferUsageFlags::INDEX_BUFFER.as_raw());
    assert_eq!(d::VK_BUFFER_USAGE_VERTEX_BUFFER_BIT, vk::BufferUsageFlags::VERTEX_BUFFER.as_raw());
    assert_eq!(d::VK_MEMORY_PROPERTY_DEVICE_LOCAL_BIT, vk::MemoryPropertyFlags::DEVICE_LOCAL.as_raw());
    assert_eq!(d::VK_MEMORY_PROPERTY_HOST_VISIBLE_BIT, vk::MemoryPropertyFlags::HOST_VISIBLE.as_raw());
    assert_eq!(d::VK_MEMORY_PROPERTY_HOST_COHERENT_BIT, vk::MemoryPropertyFlags::HOST_COHERENT.as_raw());
    assert_eq!(d::VK_FORMAT_R8G8B8A8_SRGB, vk::Format::R8G8B8A8_SRGB.as_raw());
    assert_eq!(d::VK_IMAGE_TILING_OPTIMAL, vk::ImageTiling::OPTIMAL.as_raw());
    assert_eq!(d::VK_IMAGE_USAGE_TRANSFER_DST_BIT, vk::ImageUsageFlags::TRANSFER_DST.as_raw());
    assert_eq!(d::VK_IMAGE_USAGE_SAMPLED_BIT, vk::ImageUsageFlags::SAMPLED.as_raw());
    assert_eq!(d::VK_IMAGE_ASPECT_COLOR_BIT, vk::ImageAspectFlags::COLOR.as_raw());
    assert_eq!(d::VK_FILTER_LINEAR, vk::Filter::LINEAR.as_raw());
    assert_eq!(d::VK_SAMPLER_MIPMAP_MODE_LINEAR, vk::SamplerMipmapMode::LINEAR.as_raw());
    assert_eq!(d::VK_SAMPLER_ADDRESS_MODE_CLAMP_TO_BORDER, vk::SamplerAddressMode::CLAMP_TO_BORDER.as_raw());
    assert_eq!(d::VK_BORDER_COLOR_INT_OPAQUE_BLACK, vk::BorderColor::INT_OPAQUE_BLACK.as_raw());
    assert_eq!(d::VK_COMPARE_OP_ALWAYS, vk::CompareOp::ALWAYS.as_raw());
}

#[test]
fn png_numbers() {
    assert_eq!(d::PNG_COLOR_RGB, png::ColorType::Rgb as u8);
    assert_eq!(d::PNG_COLOR_RGBA, png::ColorType::Rgba as u8);
    assert_eq!(d::PNG_COLOR_GRAYSCALE_ALPHA, png::ColorType::GrayscaleAlpha as u8);
    assert_eq!(d::PNG_DEPTH_EIGHT, png::BitDepth::Eight as u8);
}
