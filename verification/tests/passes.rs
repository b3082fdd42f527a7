//! Pass recording and command submission order.

use hollow::wgpu::compute_pass::ComputeCommand;
use hollow::wgpu::controller::{ShaderModuleDescriptor, WGPUController};
use hollow::wgpu::encoder::Command;
use hollow::wgpu::render_pass::{Color, LoadOp, RenderCommand, StoreOp};
use hollow::wgpu::texture::TextureFormat;

fn context() -> WGPUController {
    WGPUController::new_configured(800, 600, TextureFormat::Bgra8UnormSrgb)
}

fn shader_source() -> ShaderModuleDescriptor {
    ShaderModuleDescriptor { label: None, source: String::from("// wgsl") }
}

#[test]
fn render_pass_records_commands_in_issue_order() {
    let mut ctx = context();
    let texture = ctx.build_texture_2d(800, 600).build(&mut ctx);
    let view = texture.create_view(&mut ctx);
    let uniforms = ctx.buffer(0.0f32);
    let corner_vertices = ctx.array_buffer(&[[0.0f32, 0.0]; 4]);
    let corner_indices = ctx.array_buffer(&[2u16, 0, 1, 0, 2, 3]);
    let bundle = ctx.build_bind_group_with_layout().with_uniform_buffer_entry(&uniforms).build(&mut ctx);
    let shader = ctx.shader(shader_source());
    let pipeline = ctx
        .build_render_pipeline()
        .add_bind_group_layout(&bundle.layout)
        .build_with_shader(&mut ctx, &shader);

    let encoder = ctx.create_encoder();
    let pass = encoder
        .simple_render_pass(&view)
        .with_bind_groups([&bundle.group])
        .with_vertex_buffer(0, &corner_vertices)
        .with_pipeline(&pipeline)
        .draw_indexed_u16(&corner_indices, 0..6, 0, 0..1);
    let mut encoder = encoder;
    encoder.end_render_pass(pass);
    ctx.finish_encoder(encoder);

    assert_eq!(ctx.queue.submitted.len(), 1);
    let commands = &ctx.queue.submitted[0].commands;
    assert_eq!(commands.len(), 1);
    let record = match &commands[0] {
        Command::RenderPass(record) => record,
        other => panic!("expected a render pass, got {:?}", std::mem::discriminant(other)),
    };
    assert_eq!(record.color_attachments.len(), 1);
    let attachment = record.color_attachments[0].as_ref().expect("attachment present");
    assert_eq!(attachment.view, view.id);
    assert_eq!(attachment.load, LoadOp::Load);
    assert_eq!(attachment.store, StoreOp::Store);
    assert_eq!(record.commands.len(), 5);
    match &record.commands[0] {
        RenderCommand::SetBindGroup { index, group, offsets } => {
            assert_eq!(*index, 0);
            assert_eq!(*group, bundle.group.id);
            assert!(offsets.is_empty());
        }
        other => panic!("unexpected command {:?}", other),
    }
    match &record.commands[1] {
        RenderCommand::SetVertexBuffer { slot, buffer } => {
            assert_eq!(*slot, 0);
            assert_eq!(*buffer, corner_vertices.id);
        }
        other => panic!("unexpected command {:?}", other),
    }
    match &record.commands[2] {
        RenderCommand::SetPipeline { pipeline: p } => assert_eq!(*p, pipeline.id),
        other => panic!("unexpected command {:?}", other),
    }
    match &record.commands[3] {
        RenderCommand::SetIndexBuffer { buffer, .. } => assert_eq!(*buffer, corner_indices.id),
        other => panic!("unexpected command {:?}", other),
    }
    match &record.commands[4] {
        RenderCommand::DrawIndexed { first_index, index_count, base_vertex, first_instance, instance_count } => {
            assert_eq!((*first_index, *index_count), (0, 6));
            assert_eq!(*base_vertex, 0);
            assert_eq!((*first_instance, *instance_count), (0, 1));
        }
        other => panic!("unexpected command {:?}", other),
    }
}

#[test]
fn clearing_attachment_carries_the_color() {
    let mut ctx = context();
    let texture = ctx.build_texture_2d(32, 32).build(&mut ctx);
    let view = texture.create_view(&mut ctx);
    let encoder = ctx.create_encoder();
    let pass = encoder.clearing_render_pass(&view, Color { r: 10, g: 20, b: 30, a: 255 });
    let attachment = pass.record.color_attachments[0].as_ref().unwrap();
    assert_eq!(attachment.load, LoadOp::Clear(Color { r: 10, g: 20, b: 30, a: 255 }));
}

#[test]
fn compute_then_render_execute_in_issue_order() {
    let mut ctx = context();
    let texture = ctx.build_texture_2d(64, 64).build(&mut ctx);
    let view = texture.create_view(&mut ctx);
    let points = ctx.array_buffer(&[[0.0f32, 0.0]; 256]);
    let bundle = ctx
        .build_bind_group_with_layout()
        .with_compute_writable_storage_buffer_entry(&points)
        .build(&mut ctx);
    let shader = ctx.shader(shader_source());
    let compute = ctx
        .build_compute_pipeline()
        .add_bind_group_layout(&bundle.layout)
        .build_with_shader(&mut ctx, &shader);

    let mut encoder = ctx.create_encoder();
    let pass = encoder
        .compute_pass()
        .with_pipeline(&compute)
        .with_bind_groups([&bundle.group])
        .dispatch(1000, 1, 1);
    encoder.end_compute_pass(pass);
    let render = encoder.simple_render_pass(&view).draw(0..6, 0..256);
    encoder.end_render_pass(render);
    ctx.finish_encoder(encoder);

    let commands = &ctx.queue.submitted[0].commands;
    assert_eq!(commands.len(), 2);
    let compute_record = match &commands[0] {
        Command::ComputePass(record) => record,
        _ => panic!("expected the compute pass first"),
    };
    assert_eq!(compute_record.commands.len(), 3);
    match &compute_record.commands[2] {
        ComputeCommand::Dispatch { x, y, z } => assert_eq!((*x, *y, *z), (1000, 1, 1)),
        other => panic!("unexpected command {:?}", other),
    }
    match &commands[1] {
        Command::RenderPass(record) => {
            assert_eq!(record.commands.len(), 1);
            match &record.commands[0] {
                RenderCommand::Draw { first_vertex, vertex_count, first_instance, instance_count } => {
                    assert_eq!((*first_vertex, *vertex_count), (0, 6));
                    assert_eq!((*first_instance, *instance_count), (0, 256));
                }
                other => panic!("unexpected command {:?}", other),
            }
        }
        _ => panic!("expected the render pass second"),
    }
}

#[test]
fn with_encoder_submits_one_command_buffer() {
    let mut ctx = context();
    ctx.with_encoder(|mut encoder| {
        let pass = encoder.compute_pass().dispatch(8, 8, 1);
        encoder.end_compute_pass(pass);
        encoder
    });
    assert_eq!(ctx.queue.submitted.len(), 1);
    assert_eq!(ctx.queue.submitted[0].commands.len(), 1);
}

#[test]
fn submissions_accumulate_in_order() {
    let mut ctx = context();
    let encoder = ctx.create_encoder();
    ctx.finish_encoder(encoder);
    let mut second = ctx.create_encoder();
    let pass = second.compute_pass().dispatch(1, 1, 1);
    second.end_compute_pass(pass);
    ctx.finish_encoder(second);
    assert_eq!(ctx.queue.submitted.len(), 2);
    assert!(ctx.queue.submitted[0].commands.is_empty());
    assert_eq!(ctx.queue.submitted[1].commands.len(), 1);
}

#[test]
fn bind_groups_bind_at_consecutive_indices() {
    let mut ctx = context();
    let a = ctx.buffer(0.0f32);
    let b = ctx.buffer(0.0f32);
    let first = ctx.build_bind_group_with_layout().with_uniform_buffer_entry(&a).build(&mut ctx);
    let second = ctx.build_bind_group_with_layout().with_uniform_buffer_entry(&b).build(&mut ctx);
    let encoder = ctx.create_encoder();
    let pass = encoder.compute_pass().with_bind_groups([&first.group, &second.group]);
    match &pass.record.commands[0] {
        ComputeCommand::SetBindGroup { index, group, .. } => {
            assert_eq!(*index, 0);
            assert_eq!(*group, first.group.id);
        }
        other => panic!("unexpected command {:?}", other),
    }
    match &pass.record.commands[1] {
        ComputeCommand::SetBindGroup { index, group, .. } => {
            assert_eq!(*index, 1);
            assert_eq!(*group, second.group.id);
        }
        other => panic!("unexpected command {:?}", other),
    }
}
