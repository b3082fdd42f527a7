//! Typed buffers: allocation, writes, growth policy and copies.

use hollow::wgpu::buffer::{ArrayBufferBuilder, BufferBuilder, BufferUsages, VectorBufferBuilder};
use hollow::wgpu::controller::WGPUController;
use hollow::wgpu::texture::TextureFormat;

fn context() -> WGPUController {
    WGPUController::new_configured(800, 600, TextureFormat::Bgra8UnormSrgb)
}

#[test]
fn buffer_write_and_read_back_through_the_context() {
    // An 800x600 context, a Buffer<f32> starting at 0.0, 42.0 written in,
    // then read back from the device-held contents.
    let mut ctx = context();
    let mut buffer = ctx.buffer(0.0f32);
    assert_eq!(buffer.contents, vec![0.0f32]);
    ctx.write_buffer(&mut buffer, 42.0f32);
    assert_eq!(buffer.contents, vec![42.0f32]);
}

#[test]
fn buffer_defaults_to_the_permissive_usage_set() {
    let mut ctx = context();
    let buffer = ctx.buffer(7u32);
    assert_eq!(buffer.usage, BufferUsages::all());
    assert!(buffer.usage.uniform && buffer.usage.vertex && buffer.usage.query_resolve);
}

#[test]
fn buffer_builder_applies_label_and_usage() {
    let mut ctx = context();
    let mut usage = BufferUsages::none();
    usage.uniform = true;
    usage.copy_dst = true;
    let buffer = BufferBuilder::new(vec![1.0f32, 2.0])
        .with_label(String::from("dimensions"))
        .with_usage(usage)
        .build(&mut ctx);
    assert_eq!(buffer.usage, usage);
    assert_eq!(buffer.contents, vec![1.0f32, 2.0]);
}

#[test]
fn distinct_allocations_get_distinct_identities() {
    let mut ctx = context();
    let a = ctx.buffer(1u32);
    let b = ctx.buffer(1u32);
    assert_ne!(a.id, b.id);
}

#[test]
fn array_buffer_write_replaces_a_range() {
    let mut ctx = context();
    let mut buffer = ctx.array_buffer(&[0u32, 1, 2, 3, 4, 5]);
    assert_eq!(buffer.len(), 6);
    buffer.write(2, &[9u32, 8]);
    assert_eq!(buffer.contents, vec![0, 1, 9, 8, 4, 5]);
    ctx.write_array_buffer(&mut buffer, &[7u32, 6]);
    assert_eq!(buffer.contents, vec![7, 6, 9, 8, 4, 5]);
}

#[test]
fn array_buffer_copy_from_copies_and_submits_one_command() {
    let mut ctx = context();
    let source = ctx.array_buffer(&[10u16, 20, 30, 40]);
    let mut dest = ctx.array_buffer(&[0u16; 6]);
    let submissions_before = ctx.queue.submitted.len();
    dest.copy_from(&mut ctx, &source, 1, 3, 2);
    assert_eq!(dest.contents, vec![0, 0, 0, 20, 30, 0]);
    assert_eq!(ctx.queue.submitted.len(), submissions_before + 1);
    assert_eq!(ctx.queue.submitted.last().unwrap().commands.len(), 1);
}

#[test]
fn empty_array_buffer_is_filled_with_the_zero_value() {
    let mut ctx = context();
    let buffer = ctx.zeroed_array_buffer(0.0f32, 5);
    assert_eq!(buffer.contents, vec![0.0f32; 5]);
    let built = ArrayBufferBuilder::empty(0u8, 3).build(&mut ctx);
    assert_eq!(built.contents, vec![0u8, 0, 0]);
}

#[test]
fn vector_buffer_grows_by_reallocating() {
    let mut ctx = context();
    let mut vb = ctx.vector_buffer::<u32>();
    assert_eq!(vb.len(), 0);
    let empty_id = vb.id;
    // Longer than the current allocation: a fresh backing buffer.
    vb.write(&mut ctx, &[1u32, 2, 3]);
    assert_ne!(vb.id, empty_id);
    assert_eq!(vb.len(), 3);
    assert_eq!(vb.contents, vec![1, 2, 3]);
    let grown_id = vb.id;
    // Shorter-or-equal data fits: the backing identity stays.
    vb.write(&mut ctx, &[9u32, 8]);
    assert_eq!(vb.id, grown_id);
    assert_eq!(vb.len(), 2);
    assert_eq!(vb.contents, vec![9, 8]);
    vb.write(&mut ctx, &[4u32, 5, 6]);
    assert_eq!(vb.id, grown_id);
    assert_eq!(vb.len(), 3);
    // Past the allocation again: a fresh identity again.
    vb.write(&mut ctx, &[1u32, 2, 3, 4]);
    assert_ne!(vb.id, grown_id);
    assert_eq!(vb.len(), 4);
}

#[test]
fn vector_buffer_builder_applies_usage() {
    let mut ctx = context();
    let mut usage = BufferUsages::none();
    usage.vertex = true;
    usage.copy_dst = true;
    let vb = VectorBufferBuilder::<f32>::new().with_usage(usage).build(&mut ctx);
    assert_eq!(vb.usage, usage);
    assert_eq!(vb.capacity, 0);
}

#[test]
fn slices_carry_the_buffer_identity() {
    let mut ctx = context();
    let buffer = ctx.buffer([1.0f32, 2.0]);
    assert_eq!(buffer.slice().buffer, buffer.id);
    let array = ctx.array_buffer(&[1u16, 2, 3]);
    assert_eq!(array.slice().buffer, array.id);
}
