//! Bind group layouts and groups: index assignment and lock-step building.

use hollow::wgpu::bind::{
    BindGroupLayoutEntryBuilder, BindingResource, BindingType, BufferBindingType, ShaderStages,
};
use hollow::wgpu::controller::WGPUController;
use hollow::wgpu::texture::TextureFormat;

fn context() -> WGPUController {
    WGPUController::new_configured(800, 600, TextureFormat::Bgra8UnormSrgb)
}

#[test]
fn fluent_builder_assigns_binding_indices_in_call_order() {
    let mut ctx = context();
    let layout = ctx
        .build_bind_group_layout()
        .with_uniform_entry()
        .with_read_only_storage_entry()
        .with_compute_writable_storage_entry()
        .with_entry(BindGroupLayoutEntryBuilder::new())
        .build(&mut ctx);
    assert_eq!(layout.entries.len(), 4);
    for (i, entry) in layout.entries.iter().enumerate() {
        assert_eq!(entry.binding, i as u32);
    }
}

#[test]
fn explicit_binding_index_is_kept() {
    let mut ctx = context();
    let layout = ctx
        .build_bind_group_layout()
        .with_entry(BindGroupLayoutEntryBuilder::new().with_binding(7))
        .build(&mut ctx);
    assert_eq!(layout.entries[0].binding, 7);
}

#[test]
fn entry_builder_defaults() {
    let entry = BindGroupLayoutEntryBuilder::new().build();
    assert_eq!(entry.binding, 0);
    assert_eq!(entry.visibility, ShaderStages::all());
    assert_eq!(entry.ty, BindingType::uniform_buffer());
    assert_eq!(entry.count, None);
}

#[test]
fn entry_builder_overrides() {
    let entry = BindGroupLayoutEntryBuilder::new()
        .with_binding(3)
        .with_visibility(ShaderStages::compute())
        .with_ty(BindingType::writable_storage_buffer())
        .with_count(4)
        .build();
    assert_eq!(entry.binding, 3);
    assert_eq!(entry.visibility, ShaderStages::compute());
    assert_eq!(
        entry.ty,
        BindingType::Buffer {
            ty: BufferBindingType::Storage { read_only: false },
            has_dynamic_offset: false,
            min_binding_size: None,
        }
    );
    assert_eq!(entry.count, Some(4));
}

#[test]
fn group_builder_binds_resources_in_call_order() {
    let mut ctx = context();
    let uniforms = ctx.buffer(0.0f32);
    let storage = ctx.array_buffer(&[0u32; 8]);
    let layout = ctx
        .build_bind_group_layout()
        .with_uniform_entry()
        .with_read_only_storage_entry()
        .build(&mut ctx);
    let group = layout
        .build_group()
        .with_buffer_entry(&uniforms)
        .with_buffer_entry(&storage)
        .build(&mut ctx);
    assert_eq!(group.layout, layout.id);
    assert_eq!(group.entries.len(), 2);
    assert_eq!(group.entries[0].binding, 0);
    assert_eq!(group.entries[0].resource, BindingResource::Buffer { buffer: uniforms.id });
    assert_eq!(group.entries[1].binding, 1);
    assert_eq!(group.entries[1].resource, BindingResource::Buffer { buffer: storage.id });
}

#[test]
fn combined_builder_keeps_layout_and_group_in_step() {
    let mut ctx = context();
    let dimensions = ctx.buffer([0.0f32, 0.0]);
    let time = ctx.buffer(0.0f32);
    let points = ctx.array_buffer(&[0.0f32; 16]);
    let texture = ctx.build_texture_2d(64, 64).build(&mut ctx);
    let view = texture.create_view(&mut ctx);
    let bundle = ctx
        .build_bind_group_with_layout()
        .with_uniform_buffer_entry(&dimensions)
        .with_uniform_buffer_entry(&time)
        .with_read_only_storage_buffer_entry(&points)
        .with_compute_writable_storage_buffer_entry(&points)
        .with_texture_entry(&view)
        .build(&mut ctx);
    assert_eq!(bundle.layout.entries.len(), 5);
    assert_eq!(bundle.group.entries.len(), 5);
    for i in 0..5 {
        assert_eq!(bundle.layout.entries[i].binding, i as u32);
        assert_eq!(bundle.group.entries[i].binding, i as u32);
    }
    assert_eq!(bundle.group.layout, bundle.layout.id);
    assert_eq!(
        bundle.layout.entries[2].ty,
        BindingType::Buffer {
            ty: BufferBindingType::Storage { read_only: true },
            has_dynamic_offset: false,
            min_binding_size: None,
        }
    );
    assert_eq!(bundle.layout.entries[3].visibility, ShaderStages::compute());
    assert_eq!(bundle.layout.entries[4].visibility, ShaderStages::fragment());
    assert_eq!(
        bundle.group.entries[4].resource,
        BindingResource::TextureView { view: view.id }
    );
}

#[test]
fn combined_builder_labels_both_sides() {
    let mut ctx = context();
    let uniforms = ctx.buffer(0.0f32);
    let builder = ctx
        .build_bind_group_with_layout()
        .with_label(String::from("primary"))
        .with_uniform_buffer_entry(&uniforms);
    assert_eq!(builder.layout_builder.label.as_deref(), Some("primary"));
    assert_eq!(builder.group_builder.label.as_deref(), Some("primary"));
}

#[test]
fn stage_set_constructors() {
    assert!(ShaderStages::vertex_fragment().vertex);
    assert!(ShaderStages::vertex_fragment().fragment);
    assert!(!ShaderStages::vertex_fragment().compute);
    assert!(!ShaderStages::none().vertex);
    assert!(ShaderStages::all().compute);
}
