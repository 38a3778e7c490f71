use vk_rs::command::{indices, record_command_buffer, ClearColor, Command, Extent2D, FrameTarget, Rect2D, Viewport};
use vk_rs::define::FRAMES_IN_FLIGHT;
use vk_rs::descriptor::{
    descriptor_pool_create_info, descriptor_set_allocate_info, descriptor_set_layout_bindings,
    descriptor_set_writes, DescriptorInfo, VKBuffer,
};
use vk_rs::handle::{
    Buffer, CommandPool, DescriptorPool, DescriptorSet, DescriptorSetLayout, DeviceMemory, Fence,
    Framebuffer, Image, ImageView, Pipeline, PipelineLayout, RenderPass, Sampler, Semaphore,
    ShaderModule,
};
use vk_rs::pipeline::{
    graphics_pipeline_create_info, pipeline_layout_create_info, render_pass_create_info,
    VertexInputAttribute, VertexInputBinding,
};
use vk_rs::setup::{
    fence_create_info, sampler_create_info, setup_steps, BufferTarget, Extent3D, SetupStep,
    StagingSource,
};
use vk_rs::shader::shader_stage_create_info;
use vk_rs::teardown::{teardown_steps, Destroy, Owned};
use vk_rs::texture::{OutputInfo, Texture};

fn vk_buffer(buffer: u64, memory: u64) -> VKBuffer {
    VKBuffer { buffer: Buffer { raw: buffer }, memory: DeviceMemory { raw: memory } }
}

#[test]
fn sets_hold_the_camera_and_the_texture() {
    let bindings = descriptor_set_layout_bindings();
    assert_eq!(bindings.len(), 2);
    assert_eq!((bindings[0].binding, bindings[0].descriptor_type, bindings[0].stage_flags), (0, 6, 1));
    assert_eq!((bindings[1].binding, bindings[1].descriptor_type, bindings[1].stage_flags), (1, 1, 16));
    assert!(bindings.iter().all(|b| b.descriptor_count == 1));
}

#[test]
fn the_pool_serves_every_frame() {
    let pool = descriptor_pool_create_info();
    assert_eq!(pool.max_sets, 2);
    for binding in descriptor_set_layout_bindings() {
        let size = pool.pool_sizes.iter().find(|s| s.descriptor_type == binding.descriptor_type).unwrap();
        assert_eq!(size.descriptor_count, FRAMES_IN_FLIGHT as u32 * binding.descriptor_count);
    }
    let info = descriptor_set_allocate_info(DescriptorPool { raw: 1 }, DescriptorSetLayout { raw: 2 });
    assert_eq!(info.descriptor_pool, DescriptorPool { raw: 1 });
    assert_eq!(info.set_layouts, vec![DescriptorSetLayout { raw: 2 }; 2]);
}

#[test]
fn writes_pair_sets_with_buffers() {
    let sets = [DescriptorSet { raw: 1 }, DescriptorSet { raw: 2 }, DescriptorSet { raw: 3 }];
    let buffers = [vk_buffer(10, 20), vk_buffer(11, 21)];
    let writes = descriptor_set_writes(&sets, &buffers, ImageView { raw: 5 }, Sampler { raw: 6 });
    assert_eq!(writes.len(), 2);
    assert_eq!(writes[1].camera.dst_set, DescriptorSet { raw: 2 });
    assert_eq!(writes[1].camera.dst_binding, 0);
    let camera = DescriptorInfo::Buffer {
        buffer: Buffer { raw: 11 },
        offset: 0,
        range: std::mem::size_of::<glam::Mat4>() as u64,
    };
    assert_eq!(writes[1].camera.info, camera);
    assert_eq!(writes[1].texture.dst_binding, 1);
    let texture = DescriptorInfo::Image {
        sampler: Sampler { raw: 6 },
        image_view: ImageView { raw: 5 },
        image_layout: 5,
    };
    assert_eq!(writes[1].texture.info, texture);
    assert!(descriptor_set_writes(&sets, &[], ImageView { raw: 5 }, Sampler { raw: 6 }).is_empty());
}

#[test]
fn the_camera_matrix_has_sixty_four_bytes() {
    let writes = descriptor_set_writes(
        &[DescriptorSet { raw: 1 }],
        &[vk_buffer(10, 20)],
        ImageView { raw: 5 },
        Sampler { raw: 6 },
    );
    assert!(matches!(writes[0].camera.info, DescriptorInfo::Buffer { range: 64, .. }));
}

#[test]
fn the_render_pass_clears_and_presents() {
    let info = render_pass_create_info(44);
    assert_eq!(info.attachments.len(), 1);
    let attachment = info.attachments[0];
    assert_eq!((attachment.format, attachment.samples), (44, 1));
    assert_eq!((attachment.load_op, attachment.store_op), (1, 0));
    assert_eq!((attachment.stencil_load_op, attachment.stencil_store_op), (2, 1));
    assert_eq!((attachment.initial_layout, attachment.final_layout), (0, 1_000_001_002));
    assert_eq!(info.subpasses.len(), 1);
    assert_eq!(info.subpasses[0].color_attachments.len(), 1);
    assert_eq!(info.subpasses[0].color_attachments[0].attachment, 0);
    assert_eq!(info.subpasses[0].color_attachments[0].layout, 2);
    assert_eq!(info.dependencies.len(), 1);
    assert_eq!((info.dependencies[0].src_subpass, info.dependencies[0].dst_subpass), (u32::MAX, 0));
    assert_eq!((info.dependencies[0].src_stage_mask, info.dependencies[0].dst_stage_mask), (0x400, 0x400));
    assert_eq!((info.dependencies[0].src_access_mask, info.dependencies[0].dst_access_mask), (0, 0x100));
}

#[test]
fn the_pipeline_draws_filled_triangles() {
    let layouts = [DescriptorSetLayout { raw: 3 }];
    assert_eq!(pipeline_layout_create_info(&layouts).set_layouts, layouts.to_vec());
    let stages = [
        shader_stage_create_info(16, ShaderModule { raw: 1 }),
        shader_stage_create_info(1, ShaderModule { raw: 2 }),
    ];
    let bindings = [VertexInputBinding { binding: 0, stride: 40, input_rate: 0 }];
    let attributes = [
        VertexInputAttribute { location: 0, binding: 0, format: 109, offset: 0 },
        VertexInputAttribute { location: 1, binding: 0, format: 109, offset: 16 },
    ];
    let info = graphics_pipeline_create_info(
        RenderPass { raw: 4 },
        PipelineLayout { raw: 5 },
        &stages,
        &bindings,
        &attributes,
    );
    assert_eq!(info.stages.len(), 2);
    assert_eq!((info.stages[0].stage, info.stages[0].module), (16, ShaderModule { raw: 1 }));
    assert_eq!((info.stages[1].stage, info.stages[1].module), (1, ShaderModule { raw: 2 }));
    assert_eq!(info.vertex_bindings, bindings.to_vec());
    assert_eq!(info.vertex_attributes, attributes.to_vec());
    assert_eq!(info.input_assembly.topology, 3);
    assert_eq!((info.viewport.viewport_count, info.viewport.scissor_count), (1, 1));
    assert_eq!((info.rasterization.line_width, info.rasterization.cull_mode), (1, 0));
    assert_eq!(info.dynamic_states, vec![0, 1]);
    assert_eq!(info.color_blend_attachments.len(), 1);
    assert!(!info.color_blend_attachments[0].blend_enable);
    assert_eq!(info.color_blend_attachments[0].color_write_mask, 15);
    assert_eq!(info.color_blend_attachments[0].src_color_blend_factor, 1);
    assert_eq!(info.color_blend_attachments[0].dst_color_blend_factor, 0);
    assert_eq!((info.layout, info.render_pass), (PipelineLayout { raw: 5 }, RenderPass { raw: 4 }));
    assert_eq!((info.subpass, info.base_pipeline_index, info.logic_op), (0, -1, 3));
}

#[test]
fn a_frame_is_recorded() {
    let target = FrameTarget {
        extent: Extent2D { width: 640, height: 480 },
        render_pass: RenderPass { raw: 1 },
        framebuffer: Framebuffer { raw: 2 },
        index_buffer: Buffer { raw: 3 },
        vertex_buffer: Buffer { raw: 4 },
        descriptor_set: DescriptorSet { raw: 5 },
        pipeline_layout: PipelineLayout { raw: 6 },
        graphic_pipeline: Pipeline { raw: 7 },
    };
    let area = Rect2D { x: 0, y: 0, extent: Extent2D { width: 640, height: 480 } };
    let expected = vec![
        Command::BeginCommandBuffer { flags: 0 },
        Command::BeginRenderPass {
            render_pass: RenderPass { raw: 1 },
            framebuffer: Framebuffer { raw: 2 },
            render_area: area,
            clear_value: ClearColor { red: 0, green: 0, blue: 0, alpha: 0 },
            contents: 0,
        },
        Command::BindPipeline { bind_point: 0, pipeline: Pipeline { raw: 7 } },
        Command::SetViewport {
            first_viewport: 0,
            viewport: Viewport { x: 0, y: 0, width: 640, height: 480, min_depth: 0, max_depth: 1 },
        },
        Command::SetScissor { first_scissor: 0, scissor: area },
        Command::BindVertexBuffer { first_binding: 0, buffer: Buffer { raw: 4 }, offset: 0 },
        Command::BindIndexBuffer { buffer: Buffer { raw: 3 }, offset: 0, index_type: 1 },
        Command::BindDescriptorSet {
            bind_point: 0,
            layout: PipelineLayout { raw: 6 },
            first_set: 0,
            descriptor_set: DescriptorSet { raw: 5 },
        },
        Command::DrawIndexed {
            index_count: 6,
            instance_count: 1,
            first_index: 0,
            vertex_offset: 0,
            first_instance: 0,
        },
        Command::EndRenderPass,
        Command::EndCommandBuffer,
    ];
    assert_eq!(record_command_buffer(&target), expected);
    assert_eq!(indices(), vec![0, 1, 2, 3, 2, 0]);
}

fn texture(width: u32, height: u32) -> Texture {
    Texture {
        pixels: vec![0; (4 * width * height) as usize],
        info: OutputInfo { width, height, color_type: 6, bit_depth: 8, line_size: 3 * width as usize },
    }
}

#[test]
fn the_setup_has_its_order() {
    let steps = setup_steps(&texture(16, 8), 160, 0x4180_0000);
    assert_eq!(steps.len(), 16);
    assert!(matches!(
        steps[0],
        SetupStep::CreateBuffer { target: BufferTarget::Staging, info }
            if info.size == 512 && info.usage == 1 && info.memory == 6
    ));
    assert_eq!(steps[1], SetupStep::Stage { source: StagingSource::Vertices, size: 160 });
    assert!(matches!(
        steps[2],
        SetupStep::CreateBuffer { target: BufferTarget::Vertex, info }
            if info.size == 160 && info.usage == 0x82 && info.memory == 1
    ));
    assert_eq!(steps[3], SetupStep::CopyStaged { target: BufferTarget::Vertex, size: 160 });
    assert_eq!(steps[4], SetupStep::Stage { source: StagingSource::Indices, size: 24 });
    assert!(matches!(
        steps[5],
        SetupStep::CreateBuffer { target: BufferTarget::Index, info }
            if info.size == 160 && info.usage == 0x42 && info.memory == 1
    ));
    assert_eq!(steps[6], SetupStep::CopyStaged { target: BufferTarget::Index, size: 24 });
    for slot in 0..2 {
        assert!(matches!(
            steps[7 + slot],
            SetupStep::CreateUniformBuffer { slot: s, info }
                if s == slot && info.size == 64 && info.usage == 0x10 && info.memory == 6
        ));
    }
    assert_eq!(steps[9], SetupStep::Stage { source: StagingSource::Pixels, size: 512 });
    assert!(matches!(
        steps[10],
        SetupStep::CreateImage { image }
            if image.extent == Extent3D { width: 16, height: 8, depth: 1 }
                && image.format == 43 && image.usage == 6 && image.tiling == 0 && image.memory == 1
    ));
    assert_eq!(steps[11], SetupStep::SetImageLayout { old_layout: 0, new_layout: 7 });
    assert!(matches!(
        steps[12],
        SetupStep::CopyToImage { region, layout: 7 }
            if region.buffer_offset == 0 && region.layer_count == 1 && region.aspect_mask == 1
                && region.image_extent == Extent3D { width: 16, height: 8, depth: 1 }
    ));
    assert_eq!(steps[13], SetupStep::SetImageLayout { old_layout: 7, new_layout: 5 });
    assert_eq!(steps[14], SetupStep::CreateImageView { format: 43 });
    assert_eq!(steps[15], SetupStep::CreateSampler { sampler: sampler_create_info(0x4180_0000) });
}

#[test]
fn uploads_stay_within_their_buffers() {
    let image = texture(10, 10);
    let steps = setup_steps(&image, 160, 0);
    let mut staging = 0;
    let mut target_size = 0;
    for step in steps {
        match step {
            SetupStep::CreateBuffer { target: BufferTarget::Staging, info } => staging = info.size,
            SetupStep::CreateBuffer { info, .. } => target_size = info.size,
            SetupStep::Stage { size, .. } => assert!(size <= staging),
            SetupStep::CopyStaged { size, .. } => assert!(size <= target_size),
            _ => {}
        }
    }
    assert_eq!(staging, 400);
}

#[test]
fn the_sampler_keeps_its_anisotropy() {
    let info = sampler_create_info(16f32.to_bits());
    assert_eq!(f32::from_bits(info.max_anisotropy_bits), 16.0);
    assert!(info.anisotropy_enable);
    assert_eq!((info.mag_filter, info.min_filter, info.mipmap_mode), (1, 1, 1));
    assert_eq!((info.address_mode_u, info.address_mode_v, info.address_mode_w), (3, 3, 3));
    assert_eq!((info.border_color, info.compare_op), (3, 7));
    assert!(!info.compare_enable && !info.unnormalized_coordinates);
    assert_eq!((info.mip_lod_bias, info.min_lod, info.max_lod), (0, 0, 0));
}

fn owned() -> Owned {
    Owned {
        draw_end_fences: vec![Fence { raw: 1 }, Fence { raw: 2 }],
        graphic_pipelines: vec![Pipeline { raw: 3 }],
        shader_modules: vec![ShaderModule { raw: 4 }, ShaderModule { raw: 5 }],
        draw_end_semaphores: vec![Semaphore { raw: 6 }, Semaphore { raw: 7 }],
        image_available_semaphores: vec![Semaphore { raw: 8 }, Semaphore { raw: 9 }],
        pipeline_layout: PipelineLayout { raw: 10 },
        descriptor_pool: DescriptorPool { raw: 11 },
        descriptor_set_layout: DescriptorSetLayout { raw: 12 },
        render_pass: RenderPass { raw: 13 },
        command_pool: CommandPool { raw: 14 },
        staging: vk_buffer(15, 16),
        index: vk_buffer(17, 18),
        vertex: vk_buffer(19, 20),
        texture_sampler: Sampler { raw: 21 },
        texture_image_view: ImageView { raw: 22 },
        texture_image: Image { raw: 23 },
        texture_memory: DeviceMemory { raw: 24 },
        uniform_buffers: vec![vk_buffer(25, 26), vk_buffer(27, 28)],
    }
}

#[test]
fn everything_is_destroyed_in_order() {
    let expected = vec![
        Destroy::Fence(Fence { raw: 1 }),
        Destroy::Fence(Fence { raw: 2 }),
        Destroy::Pipeline(Pipeline { raw: 3 }),
        Destroy::ShaderModule(ShaderModule { raw: 4 }),
        Destroy::ShaderModule(ShaderModule { raw: 5 }),
        Destroy::Semaphore(Semaphore { raw: 6 }),
        Destroy::Semaphore(Semaphore { raw: 7 }),
        Destroy::Semaphore(Semaphore { raw: 8 }),
        Destroy::Semaphore(Semaphore { raw: 9 }),
        Destroy::PipelineLayout(PipelineLayout { raw: 10 }),
        Destroy::DescriptorPool(DescriptorPool { raw: 11 }),
        Destroy::DescriptorSetLayout(DescriptorSetLayout { raw: 12 }),
        Destroy::RenderPass(RenderPass { raw: 13 }),
        Destroy::CommandPool(CommandPool { raw: 14 }),
        Destroy::Buffer(Buffer { raw: 15 }),
        Destroy::Memory(DeviceMemory { raw: 16 }),
        Destroy::Buffer(Buffer { raw: 17 }),
        Destroy::Memory(DeviceMemory { raw: 18 }),
        Destroy::Buffer(Buffer { raw: 19 }),
        Destroy::Memory(DeviceMemory { raw: 20 }),
        Destroy::Sampler(Sampler { raw: 21 }),
        Destroy::ImageView(ImageView { raw: 22 }),
        Destroy::Image(Image { raw: 23 }),
        Destroy::Memory(DeviceMemory { raw: 24 }),
        Destroy::Unmap(DeviceMemory { raw: 26 }),
        Destroy::Buffer(Buffer { raw: 25 }),
        Destroy::Memory(DeviceMemory { raw: 26 }),
        Destroy::Unmap(DeviceMemory { raw: 28 }),
        Destroy::Buffer(Buffer { raw: 27 }),
        Destroy::Memory(DeviceMemory { raw: 28 }),
    ];
    assert_eq!(teardown_steps(&owned()), expected);
}

#[test]
fn nothing_is_destroyed_twice() {
    let steps = teardown_steps(&owned());
    for i in 0..steps.len() {
        for j in 0..i {
            assert_ne!(steps[i], steps[j]);
        }
    }
}

#[test]
fn fences_are_created_signaled() {
    assert_eq!(fence_create_info(), ash::vk::FenceCreateFlags::SIGNALED.as_raw());
}
