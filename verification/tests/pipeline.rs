//! Pipeline builders: defaults, entry points, vertex layouts and
//! compute constant overrides.

use hollow::wgpu::controller::{ShaderModuleDescriptor, WGPUController};
use hollow::wgpu::pipeline::{
    vertex_attr_array, BlendState, MultisampleState, PipelineCompilationOptions,
    PrimitiveTopology, VertexFormat, VertexStepMode,
};
use hollow::wgpu::texture::TextureFormat;

fn context() -> WGPUController {
    WGPUController::new_configured(800, 600, TextureFormat::Bgra8UnormSrgb)
}

fn shader_source() -> ShaderModuleDescriptor {
    ShaderModuleDescriptor { label: None, source: String::from("// wgsl") }
}

#[test]
fn vertex_attr_array_packs_offsets_and_locations() {
    let attrs = vertex_attr_array(0, &[VertexFormat::Float32x2]);
    assert_eq!(attrs.len(), 1);
    assert_eq!(attrs[0].shader_location, 0);
    assert_eq!(attrs[0].offset, 0);
    assert_eq!(attrs[0].format, VertexFormat::Float32x2);
    let attrs = vertex_attr_array(
        1,
        &[VertexFormat::Float32, VertexFormat::Float32x3, VertexFormat::Uint32x2],
    );
    assert_eq!(attrs.len(), 3);
    assert_eq!(attrs[0].shader_location, 1);
    assert_eq!(attrs[0].offset, 0);
    assert_eq!(attrs[1].shader_location, 2);
    assert_eq!(attrs[1].offset, 4);
    assert_eq!(attrs[2].shader_location, 3);
    assert_eq!(attrs[2].offset, 16);
}

#[test]
fn render_pipeline_defaults_and_surface_format() {
    let mut ctx = context();
    let corner_buffer = ctx.array_buffer(&[[0.0f32, 0.0]; 4]);
    let layout = ctx.build_bind_group_layout().with_uniform_entry().build(&mut ctx);
    let shader = ctx.shader(shader_source());
    let pipeline = ctx
        .build_render_pipeline()
        .add_bind_group_layout(&layout)
        .add_vertex_buffer_layout(
            corner_buffer.vertex_layout(vertex_attr_array(0, &[VertexFormat::Float32x2])),
        )
        .build_with_shader(&mut ctx, &shader);
    assert_eq!(pipeline.layouts, vec![layout.id]);
    assert_eq!(pipeline.vertex.module, shader.id);
    assert_eq!(pipeline.vertex.entry_point.as_deref(), Some("vertex"));
    assert_eq!(pipeline.vertex.buffers.len(), 1);
    assert_eq!(pipeline.vertex.buffers[0].array_stride, 8);
    assert_eq!(pipeline.vertex.buffers[0].step_mode, VertexStepMode::Vertex);
    let fragment = pipeline.fragment.as_ref().expect("fragment stage present");
    assert_eq!(fragment.entry_point.as_deref(), Some("fragment"));
    assert_eq!(fragment.targets.len(), 1);
    assert_eq!(fragment.targets[0].format, TextureFormat::Bgra8UnormSrgb);
    assert_eq!(fragment.targets[0].blend, None);
    assert!(fragment.targets[0].write_mask.r && fragment.targets[0].write_mask.a);
    assert_eq!(pipeline.primitive.topology, PrimitiveTopology::TriangleList);
    assert_eq!(pipeline.primitive.cull_mode, None);
    assert_eq!(pipeline.multisample, MultisampleState::default_state());
    assert_eq!(pipeline.depth_stencil, None);
    assert_eq!(pipeline.multiview, None);
}

#[test]
fn render_pipeline_overrides_format_and_blend() {
    let mut ctx = context();
    let shader = ctx.shader(shader_source());
    let pipeline = ctx
        .build_render_pipeline()
        .with_texture_format(TextureFormat::Rgba16Float)
        .with_blend_state(BlendState::replace())
        .build_with_shader_entry_points(&mut ctx, &shader, Some("main_vs"), Some(None));
    assert_eq!(pipeline.vertex.entry_point.as_deref(), Some("main_vs"));
    let fragment = pipeline.fragment.as_ref().expect("fragment stage present");
    assert_eq!(fragment.entry_point, None);
    assert_eq!(fragment.targets[0].format, TextureFormat::Rgba16Float);
    assert_eq!(fragment.targets[0].blend, Some(BlendState::replace()));
}

#[test]
fn vertex_only_pipeline_has_no_fragment_stage() {
    let mut ctx = context();
    let shader = ctx.shader(shader_source());
    let pipeline = ctx
        .build_render_pipeline()
        .build_with_shader_entry_points(&mut ctx, &shader, Some("vertex"), None);
    assert!(pipeline.fragment.is_none());
}

#[test]
fn instance_layout_steps_per_instance() {
    let mut ctx = context();
    let instances = ctx.array_buffer(&[[0.0f32; 3]; 8]);
    let layout = instances.instance_layout(vertex_attr_array(
        1,
        &[VertexFormat::Float32, VertexFormat::Float32, VertexFormat::Float32],
    ));
    assert_eq!(layout.step_mode, VertexStepMode::Instance);
    assert_eq!(layout.array_stride, 12);
    assert_eq!(layout.attributes.len(), 3);
}

#[test]
fn compute_pipeline_records_constant_overrides() {
    let mut ctx = context();
    let layout = ctx.build_bind_group_layout().with_compute_writable_storage_entry().build(&mut ctx);
    let shader = ctx.shader(shader_source());
    let options = PipelineCompilationOptions {
        constants: vec![
            (String::from("A"), (-1.4f64).to_bits()),
            (String::from("B"), 1.6f64.to_bits()),
        ],
        zero_initialize_workgroup_memory: true,
    };
    let pipeline = ctx
        .build_compute_pipeline()
        .add_bind_group_layout(&layout)
        .with_compilation_options(options)
        .build_with_shader(&mut ctx, &shader);
    assert_eq!(pipeline.layouts, vec![layout.id]);
    assert_eq!(pipeline.module, shader.id);
    // The conventional compute entry point applies by default.
    assert_eq!(pipeline.entry_point.as_deref(), Some("compute"));
    assert_eq!(pipeline.constants.len(), 2);
    assert_eq!(pipeline.constants[0].0, "A");
    assert_eq!(f64::from_bits(pipeline.constants[0].1), -1.4);
    assert_eq!(f64::from_bits(pipeline.constants[1].1), 1.6);
}

#[test]
fn override_constants_reach_both_render_stages() {
    let mut ctx = context();
    let shader = ctx.shader(shader_source());
    let params = vec![
        (String::from("A"), (-1.4f64).to_bits()),
        (String::from("B"), 1.6f64.to_bits()),
        (String::from("C"), 1.0f64.to_bits()),
        (String::from("D"), 0.7f64.to_bits()),
    ];
    let builder = ctx.build_render_pipeline().with_override_constants(params.clone());
    let fragment_options = builder.fragment_compilation_options.as_ref().unwrap();
    let vertex_options = builder.vertex_compilation_options.as_ref().unwrap();
    assert_eq!(fragment_options.constants, params);
    assert_eq!(vertex_options.constants, params);
    let pipeline = builder.build_with_shader(&mut ctx, &shader);
    let vertex_options = pipeline.vertex_compilation_options.as_ref().unwrap();
    let fragment_options = pipeline.fragment_compilation_options.as_ref().unwrap();
    assert_eq!(vertex_options.constants, params);
    assert_eq!(fragment_options.constants, params);
    let compute = ctx
        .build_compute_pipeline()
        .with_override_constants(params.clone())
        .build_with_shader(&mut ctx, &shader);
    assert_eq!(compute.constants, params);
    assert_eq!(f64::from_bits(compute.constants[3].1), 0.7);
}

#[test]
fn compute_pipeline_explicit_entry_point() {
    let mut ctx = context();
    let shader = ctx.shader(shader_source());
    let pipeline = ctx
        .build_compute_pipeline()
        .build_with_shader_entry_point(&mut ctx, &shader, Some("simulate"));
    assert_eq!(pipeline.entry_point.as_deref(), Some("simulate"));
    assert!(pipeline.constants.is_empty());
    assert!(pipeline.zero_initialize_workgroup_memory);
}

#[test]
fn shader_module_keeps_its_source() {
    let mut ctx = context();
    let shader = ctx.shader(ShaderModuleDescriptor {
        label: Some(String::from("background")),
        source: String::from("fn fragment() {}"),
    });
    assert_eq!(shader.source, "fn fragment() {}");
}
