//! The command encoder: accumulates finished passes and copies, in the
//! order they were issued, until the whole batch is submitted.

use vstd::prelude::*;

use crate::wgpu::compute_pass::{ComputePass, ComputePassRecord};
use crate::wgpu::render_pass::{
    Color, LoadOp, RenderPass, RenderPassBuilder, RenderPassColorAttachment, RenderPassRecord,
    StoreOp, TimestampWrites,
};
use crate::wgpu::texture::TextureView;

verus! {

/// One top-level command of a command buffer.
pub enum Command {
    RenderPass(RenderPassRecord),
    ComputePass(ComputePassRecord),
    /// A buffer-to-buffer copy; offsets and size count elements of the
    /// buffers' element type.
    CopyBufferToBuffer {
        source: u64,
        source_offset: u64,
        destination: u64,
        destination_offset: u64,
        size: u64,
    },
}

/// A submitted batch of commands; the device executes batches in submission
/// order and, within a batch, in issue order.
pub struct CommandBuffer {
    pub commands: Vec<Command>,
}

/// Records commands until handed to the queue.
pub struct CommandEncoder {
    pub commands: Vec<Command>,
}

impl CommandEncoder {
    /// An encoder with nothing recorded yet.
    pub fn new() -> (encoder: CommandEncoder)
        ensures
            encoder.commands@ =~= Seq::<Command>::empty(),
    {
        CommandEncoder { commands: Vec::new() }
    }

    /// Start building a render pass with no attachments yet.
    pub fn build_render_pass(&self) -> (r: RenderPassBuilder)
        ensures
            r.label is None,
            r.color_attachments@ =~= Seq::<Option<RenderPassColorAttachment>>::empty(),
            r.depth_stencil_attachment is None,
            r.occlusion_query_set is None,
            r.timestamp_writes is None,
    {
        let _ = self;
        RenderPassBuilder::new()
    }

    /// An open render pass with one color attachment that keeps the
    /// view's prior contents.
    pub fn simple_render_pass(&self, view: &TextureView) -> (r: RenderPass)
        ensures
            r.record.label is None,
            r.record.color_attachments@ =~= seq![
                Some(
                    RenderPassColorAttachment {
                        view: view.id,
                        resolve_target: None,
                        load: LoadOp::Load,
                        store: StoreOp::Store,
                    },
                ),
            ],
            r.record.depth_stencil_attachment is None,
            r.record.occlusion_query_set is None,
            r.record.timestamp_writes is None,
            r.record.commands@ =~= Seq::<crate::wgpu::render_pass::RenderCommand>::empty(),
    {
        self.build_render_pass().add_simple_color_attachment(view).build()
    }

    /// An open render pass with one color attachment cleared to `color`.
    pub fn clearing_render_pass(&self, view: &TextureView, color: Color) -> (r: RenderPass)
        ensures
            r.record.label is None,
            r.record.color_attachments@ =~= seq![
                Some(
                    RenderPassColorAttachment {
                        view: view.id,
                        resolve_target: None,
                        load: LoadOp::Clear(color),
                        store: StoreOp::Store,
                    },
                ),
            ],
            r.record.depth_stencil_attachment is None,
            r.record.occlusion_query_set is None,
            r.record.timestamp_writes is None,
            r.record.commands@ =~= Seq::<crate::wgpu::render_pass::RenderCommand>::empty(),
    {
        self.build_render_pass().add_clearing_color_attachment(view, color).build()
    }

    /// An open compute pass with nothing recorded yet.
    pub fn compute_pass(&self) -> (r: ComputePass)
        ensures
            r.record.label is None,
            r.record.timestamp_writes is None,
            r.record.commands@ =~= Seq::<crate::wgpu::compute_pass::ComputeCommand>::empty(),
    {
        let _ = self;
        ComputePass::new(None, None)
    }

    /// An open compute pass that writes its begin and end timestamps.
    pub fn compute_pass_with_timestamp_writes(&self, timestamp_writes: TimestampWrites) -> (r:
        ComputePass)
        ensures
            r.record.label is None,
            r.record.timestamp_writes == Some(timestamp_writes),
            r.record.commands@ =~= Seq::<crate::wgpu::compute_pass::ComputeCommand>::empty(),
    {
        let _ = self;
        ComputePass::new(None, Some(timestamp_writes))
    }

    /// End a render pass: its record joins the encoder's command stream,
    /// after everything recorded before.
    pub fn end_render_pass(&mut self, pass: RenderPass)
        ensures
            final(self).commands@ == old(self).commands@.push(Command::RenderPass(pass.record)),
    {
        self.commands.push(Command::RenderPass(pass.record));
    }

    /// End a compute pass: its record joins the encoder's command stream,
    /// after everything recorded before.
    pub fn end_compute_pass(&mut self, pass: ComputePass)
        ensures
            final(self).commands@ == old(self).commands@.push(Command::ComputePass(pass.record)),
    {
        self.commands.push(Command::ComputePass(pass.record));
    }
}

} // verus!
