//! Render passes: a builder that accumulates attachments, and an active
//! pass that records pipeline, binding and draw commands in issue order.
//!
//! A pass lives through three states: building (attachments accumulate),
//! active (commands accumulate), and ended, when the pass value is handed
//! back to the encoder and its record joins the command stream.

use vstd::prelude::*;
use vstd::slice::slice_to_vec;

use crate::wgpu::bind::BindGroup;
use crate::wgpu::buffer::{ArrayBuffer, Buffer, BufferSlice, IntoVertexBufferData};
use crate::wgpu::pipeline::RenderPipeline;
use crate::wgpu::texture::TextureView;

verus! {

/// A clear color, with 8-bit channels.
#[derive(Clone, Copy, PartialEq, Eq, Structural, Debug)]
pub struct Color {
    pub r: u8,
    pub g: u8,
    pub b: u8,
    pub a: u8,
}

impl Color {
    pub fn black() -> (c: Color)
        ensures
            c == (Color { r: 0, g: 0, b: 0, a: 255 }),
    {
        Color { r: 0, g: 0, b: 0, a: 255 }
    }
}

/// What happens to an attachment's previous contents when the pass begins.
#[derive(Clone, Copy, PartialEq, Eq, Structural, Debug)]
pub enum LoadOp {
    /// Keep what is already there.
    Load,
    /// Clear to the given color.
    Clear(Color),
}

#[derive(Clone, Copy, PartialEq, Eq, Structural, Debug)]
pub enum StoreOp {
    Store,
    Discard,
}

/// A color target of a render pass, by texture-view identity.
#[derive(Clone, Copy, PartialEq, Eq, Structural, Debug)]
pub struct RenderPassColorAttachment {
    pub view: u64,
    pub resolve_target: Option<u64>,
    pub load: LoadOp,
    pub store: StoreOp,
}

/// The optional depth/stencil target of a render pass.
#[derive(Clone, Copy, PartialEq, Eq, Structural, Debug)]
pub struct RenderPassDepthStencilAttachment {
    pub view: u64,
    pub depth_load: LoadOp,
    pub depth_store: StoreOp,
}

/// Where a pass writes its begin/end timestamps.
#[derive(Clone, Copy, PartialEq, Eq, Structural, Debug)]
pub struct TimestampWrites {
    pub query_set: u64,
    pub beginning_of_pass_write_index: Option<u32>,
    pub end_of_pass_write_index: Option<u32>,
}

/// A query set, by identity.
#[derive(Clone, Copy, PartialEq, Eq, Structural, Debug)]
pub struct QuerySet {
    pub id: u64,
}

/// Whether indices are 16- or 32-bit.
#[derive(Clone, Copy, PartialEq, Eq, Structural, Debug)]
pub enum IndexFormat {
    Uint16,
    Uint32,
}

/// One recorded operation of an active render pass.
#[derive(Debug)]
pub enum RenderCommand {
    SetPipeline { pipeline: u64 },
    SetBindGroup { index: u32, group: u64, offsets: Vec<u32> },
    SetVertexBuffer { slot: u32, buffer: u64 },
    SetIndexBuffer { buffer: u64, format: IndexFormat },
    SetStencilReference { reference: u32 },
    Draw { first_vertex: u32, vertex_count: u32, first_instance: u32, instance_count: u32 },
    DrawIndexed {
        first_index: u32,
        index_count: u32,
        base_vertex: i32,
        first_instance: u32,
        instance_count: u32,
    },
}

/// A finished render pass as it sits in a command buffer: its attachments
/// and the commands it recorded, in issue order.
pub struct RenderPassRecord {
    pub label: Option<String>,
    pub color_attachments: Vec<Option<RenderPassColorAttachment>>,
    pub depth_stencil_attachment: Option<RenderPassDepthStencilAttachment>,
    pub occlusion_query_set: Option<u64>,
    pub timestamp_writes: Option<TimestampWrites>,
    pub commands: Vec<RenderCommand>,
}

/// Conversion into a whole-buffer slice of 16-bit indices.
pub trait IntoIndexBufferDataU16 {
    /// The identity of the buffer the slice covers.
    spec fn spec_into_index_buffer_data_u16(self) -> BufferSlice;

    fn into_index_buffer_data_u16(self) -> (r: BufferSlice)
        ensures
            r == self.spec_into_index_buffer_data_u16(),
    ;
}

impl IntoIndexBufferDataU16 for BufferSlice {
    open spec fn spec_into_index_buffer_data_u16(self) -> BufferSlice {
        self
    }

    fn into_index_buffer_data_u16(self) -> BufferSlice {
        self
    }
}

impl IntoIndexBufferDataU16 for &Buffer<u16> {
    open spec fn spec_into_index_buffer_data_u16(self) -> BufferSlice {
        BufferSlice { buffer: self.id }
    }

    fn into_index_buffer_data_u16(self) -> BufferSlice {
        BufferSlice { buffer: self.id }
    }
}

impl IntoIndexBufferDataU16 for &ArrayBuffer<u16> {
    open spec fn spec_into_index_buffer_data_u16(self) -> BufferSlice {
        BufferSlice { buffer: self.id }
    }

    fn into_index_buffer_data_u16(self) -> BufferSlice {
        BufferSlice { buffer: self.id }
    }
}

/// Conversion into a whole-buffer slice of 32-bit indices.
pub trait IntoIndexBufferDataU32 {
    /// The identity of the buffer the slice covers.
    spec fn spec_into_index_buffer_data_u32(self) -> BufferSlice;

    fn into_index_buffer_data_u32(self) -> (r: BufferSlice)
        ensures
            r == self.spec_into_index_buffer_data_u32(),
    ;
}

impl IntoIndexBufferDataU32 for BufferSlice {
    open spec fn spec_into_index_buffer_data_u32(self) -> BufferSlice {
        self
    }

    fn into_index_buffer_data_u32(self) -> BufferSlice {
        self
    }
}

impl IntoIndexBufferDataU32 for &Buffer<u32> {
    open spec fn spec_into_index_buffer_data_u32(self) -> BufferSlice {
        BufferSlice { buffer: self.id }
    }

    fn into_index_buffer_data_u32(self) -> BufferSlice {
        BufferSlice { buffer: self.id }
    }
}

impl IntoIndexBufferDataU32 for &ArrayBuffer<u32> {
    open spec fn spec_into_index_buffer_data_u32(self) -> BufferSlice {
        BufferSlice { buffer: self.id }
    }

    fn into_index_buffer_data_u32(self) -> BufferSlice {
        BufferSlice { buffer: self.id }
    }
}

/// Accumulates the attachments and auxiliary targets of a render pass.
pub struct RenderPassBuilder {
    pub label: Option<String>,
    pub color_attachments: Vec<Option<RenderPassColorAttachment>>,
    pub depth_stencil_attachment: Option<RenderPassDepthStencilAttachment>,
    pub occlusion_query_set: Option<u64>,
    pub timestamp_writes: Option<TimestampWrites>,
}

impl RenderPassBuilder {
    pub fn new() -> (r: RenderPassBuilder)
        ensures
            r.label is None,
            r.color_attachments@ =~= Seq::<Option<RenderPassColorAttachment>>::empty(),
            r.depth_stencil_attachment is None,
            r.occlusion_query_set is None,
            r.timestamp_writes is None,
    {
        RenderPassBuilder {
            label: None,
            color_attachments: Vec::new(),
            depth_stencil_attachment: None,
            occlusion_query_set: None,
            timestamp_writes: None,
        }
    }

    pub fn with_label(self, label: String) -> (r: RenderPassBuilder)
        ensures
            r.label == Some(label),
            r.color_attachments@ == self.color_attachments@,
            r.depth_stencil_attachment == self.depth_stencil_attachment,
            r.occlusion_query_set == self.occlusion_query_set,
            r.timestamp_writes == self.timestamp_writes,
    {
        RenderPassBuilder { label: Some(label), ..self }
    }

    /// Append a color attachment slot, possibly empty.
    pub fn add_color_attachment(self, attachment: Option<RenderPassColorAttachment>) -> (r:
        RenderPassBuilder)
        ensures
            r.color_attachments@ == self.color_attachments@.push(attachment),
            r.label == self.label,
            r.depth_stencil_attachment == self.depth_stencil_attachment,
            r.occlusion_query_set == self.occlusion_query_set,
            r.timestamp_writes == self.timestamp_writes,
    {
        let mut color_attachments = self.color_attachments;
        color_attachments.push(attachment);
        RenderPassBuilder { color_attachments, ..self }
    }

    /// Append a color attachment that keeps the view's prior contents.
    pub fn add_simple_color_attachment(self, view: &TextureView) -> (r: RenderPassBuilder)
        ensures
            r.color_attachments@ == self.color_attachments@.push(
                Some(
                    RenderPassColorAttachment {
                        view: view.id,
                        resolve_target: None,
                        load: LoadOp::Load,
                        store: StoreOp::Store,
                    },
                ),
            ),
            r.label == self.label,
            r.depth_stencil_attachment == self.depth_stencil_attachment,
            r.occlusion_query_set == self.occlusion_query_set,
            r.timestamp_writes == self.timestamp_writes,
    {
        self.add_color_attachment(
            Some(
                RenderPassColorAttachment {
                    view: view.id,
                    resolve_target: None,
                    load: LoadOp::Load,
                    store: StoreOp::Store,
                },
            ),
        )
    }

    /// Append a color attachment cleared to a fixed color first.
    pub fn add_clearing_color_attachment(self, view: &TextureView, color: Color) -> (r:
        RenderPassBuilder)
        ensures
            r.color_attachments@ == self.color_attachments@.push(
                Some(
                    RenderPassColorAttachment {
                        view: view.id,
                        resolve_target: None,
                        load: LoadOp::Clear(color),
                        store: StoreOp::Store,
                    },
                ),
            ),
            r.label == self.label,
            r.depth_stencil_attachment == self.depth_stencil_attachment,
            r.occlusion_query_set == self.occlusion_query_set,
            r.timestamp_writes == self.timestamp_writes,
    {
        self.add_color_attachment(
            Some(
                RenderPassColorAttachment {
                    view: view.id,
                    resolve_target: None,
                    load: LoadOp::Clear(color),
                    store: StoreOp::Store,
                },
            ),
        )
    }

    pub fn with_depth_stencil_attachment(self, attachment: RenderPassDepthStencilAttachment) -> (r:
        RenderPassBuilder)
        ensures
            r.depth_stencil_attachment == Some(attachment),
            r.label == self.label,
            r.color_attachments@ == self.color_attachments@,
            r.occlusion_query_set == self.occlusion_query_set,
            r.timestamp_writes == self.timestamp_writes,
    {
        RenderPassBuilder { depth_stencil_attachment: Some(attachment), ..self }
    }

    pub fn with_optional_depth_stencil_attachment(
        self,
        attachment: Option<RenderPassDepthStencilAttachment>,
    ) -> (r: RenderPassBuilder)
        ensures
            r.depth_stencil_attachment == attachment,
            r.label == self.label,
            r.color_attachments@ == self.color_attachments@,
            r.occlusion_query_set == self.occlusion_query_set,
            r.timestamp_writes == self.timestamp_writes,
    {
        RenderPassBuilder { depth_stencil_attachment: attachment, ..self }
    }

    pub fn with_occlusion_query_set(self, set: &QuerySet) -> (r: RenderPassBuilder)
        ensures
            r.occlusion_query_set == Some(set.id),
            r.label == self.label,
            r.color_attachments@ == self.color_attachments@,
            r.depth_stencil_attachment == self.depth_stencil_attachment,
            r.timestamp_writes == self.timestamp_writes,
    {
        RenderPassBuilder { occlusion_query_set: Some(set.id), ..self }
    }

    pub fn with_timestamp_writes(self, writes: TimestampWrites) -> (r: RenderPassBuilder)
        ensures
            r.timestamp_writes == Some(writes),
            r.label == self.label,
            r.color_attachments@ == self.color_attachments@,
            r.depth_stencil_attachment == self.depth_stencil_attachment,
            r.occlusion_query_set == self.occlusion_query_set,
    {
        RenderPassBuilder { timestamp_writes: Some(writes), ..self }
    }

    /// Open the pass: the accumulated attachments are fixed, and command
    /// recording begins with nothing recorded.
    pub fn build(self) -> (r: RenderPass)
        ensures
            r.record.label == self.label,
            r.record.color_attachments@ == self.color_attachments@,
            r.record.depth_stencil_attachment == self.depth_stencil_attachment,
            r.record.occlusion_query_set == self.occlusion_query_set,
            r.record.timestamp_writes == self.timestamp_writes,
            r.record.commands@ =~= Seq::<RenderCommand>::empty(),
    {
        RenderPass {
            record: RenderPassRecord {
                label: self.label,
                color_attachments: self.color_attachments,
                depth_stencil_attachment: self.depth_stencil_attachment,
                occlusion_query_set: self.occlusion_query_set,
                timestamp_writes: self.timestamp_writes,
                commands: Vec::new(),
            },
        }
    }
}

/// An active render pass: every fluent call appends one command to its
/// record, in issue order. The attachments never change once open.
pub struct RenderPass {
    pub record: RenderPassRecord,
}

/// The parts of a pass record that command recording leaves untouched.
pub open spec fn same_render_attachments(a: RenderPassRecord, b: RenderPassRecord) -> bool {
    &&& a.label == b.label
    &&& a.color_attachments@ == b.color_attachments@
    &&& a.depth_stencil_attachment == b.depth_stencil_attachment
    &&& a.occlusion_query_set == b.occlusion_query_set
    &&& a.timestamp_writes == b.timestamp_writes
}

impl RenderPass {
    /// Resume an open pass from its record.
    pub fn new(record: RenderPassRecord) -> (r: RenderPass)
        ensures
            r.record.label == record.label,
            r.record.color_attachments@ == record.color_attachments@,
            r.record.depth_stencil_attachment == record.depth_stencil_attachment,
            r.record.occlusion_query_set == record.occlusion_query_set,
            r.record.timestamp_writes == record.timestamp_writes,
            r.record.commands@ == record.commands@,
    {
        RenderPass { record }
    }

    /// Record binding an index buffer of 16-bit indices.
    pub fn set_index_buffer_u16<D: IntoIndexBufferDataU16>(&mut self, data: D)
        ensures
            same_render_attachments(final(self).record, old(self).record),
            final(self).record.commands@ == old(self).record.commands@.push(
                (RenderCommand::SetIndexBuffer {
                    buffer: data.spec_into_index_buffer_data_u16().buffer,
                    format: IndexFormat::Uint16,
                }),
            ),
    {
        let slice = data.into_index_buffer_data_u16();
        self.record.commands.push(
            RenderCommand::SetIndexBuffer { buffer: slice.buffer, format: IndexFormat::Uint16 },
        );
    }

    /// Record binding an index buffer of 16-bit indices, fluently.
    pub fn with_index_buffer_u16<D: IntoIndexBufferDataU16>(self, data: D) -> (r: RenderPass)
        ensures
            same_render_attachments(r.record, self.record),
            r.record.commands@ == self.record.commands@.push(
                (RenderCommand::SetIndexBuffer {
                    buffer: data.spec_into_index_buffer_data_u16().buffer,
                    format: IndexFormat::Uint16,
                }),
            ),
    {
        let mut pass = self;
        pass.set_index_buffer_u16(data);
        pass
    }

    /// Record binding an index buffer of 32-bit indices.
    pub fn set_index_buffer_u32<D: IntoIndexBufferDataU32>(&mut self, data: D)
        ensures
            same_render_attachments(final(self).record, old(self).record),
            final(self).record.commands@ == old(self).record.commands@.push(
                (RenderCommand::SetIndexBuffer {
                    buffer: data.spec_into_index_buffer_data_u32().buffer,
                    format: IndexFormat::Uint32,
                }),
            ),
    {
        let slice = data.into_index_buffer_data_u32();
        self.record.commands.push(
            RenderCommand::SetIndexBuffer { buffer: slice.buffer, format: IndexFormat::Uint32 },
        );
    }

    /// Record binding an index buffer of 32-bit indices, fluently.
    pub fn with_index_buffer_u32<D: IntoIndexBufferDataU32>(self, data: D) -> (r: RenderPass)
        ensures
            same_render_attachments(r.record, self.record),
            r.record.commands@ == self.record.commands@.push(
                (RenderCommand::SetIndexBuffer {
                    buffer: data.spec_into_index_buffer_data_u32().buffer,
                    format: IndexFormat::Uint32,
                }),
            ),
    {
        let mut pass = self;
        pass.set_index_buffer_u32(data);
        pass
    }

    /// Record setting the stencil reference value.
    pub fn with_stencil_reference(self, reference: u32) -> (r: RenderPass)
        ensures
            same_render_attachments(r.record, self.record),
            r.record.commands@ == self.record.commands@.push(
                (RenderCommand::SetStencilReference { reference }),
            ),
    {
        let mut pass = self;
        pass.record.commands.push(RenderCommand::SetStencilReference { reference });
        pass
    }

    /// Record binding a group at an explicit index, with dynamic offsets.
    pub fn with_offset_bind_group(self, index: u32, bind_group: &BindGroup, offsets: &[u32]) -> (r:
        RenderPass)
        ensures
            same_render_attachments(r.record, self.record),
            r.record.commands@.len() == self.record.commands@.len() + 1,
            r.record.commands@.take(self.record.commands@.len() as int) == self.record.commands@,
            r.record.commands@.last() matches RenderCommand::SetBindGroup {
                index: i,
                group: g,
                offsets: o,
            } && i == index && g == bind_group.id && o@ == offsets@,
    {
        let mut pass = self;
        pass.record.commands.push(
            RenderCommand::SetBindGroup {
                index,
                group: bind_group.id,
                offsets: slice_to_vec(offsets),
            },
        );
        pass
    }

    /// Record binding a group at an explicit index.
    pub fn with_bind_group(self, index: u32, bind_group: &BindGroup) -> (r: RenderPass)
        ensures
            same_render_attachments(r.record, self.record),
            r.record.commands@.len() == self.record.commands@.len() + 1,
            r.record.commands@.take(self.record.commands@.len() as int) == self.record.commands@,
            r.record.commands@.last() matches RenderCommand::SetBindGroup {
                index: i,
                group: g,
                offsets: o,
            } && i == index && g == bind_group.id && o@ =~= Seq::<u32>::empty(),
    {
        let empty: Vec<u32> = Vec::new();
        self.with_offset_bind_group(index, bind_group, empty.as_slice())
    }

    /// Record binding a fixed array of groups at indices 0 .. N-1, in
    /// array order.
    pub fn with_bind_groups<const N: usize>(self, bind_groups: [&BindGroup; N]) -> (r: RenderPass)
        requires
            N <= u32::MAX,
        ensures
            same_render_attachments(r.record, self.record),
            r.record.commands@.len() == self.record.commands@.len() + N,
            r.record.commands@.take(self.record.commands@.len() as int) == self.record.commands@,
            forall|j: int|
                0 <= j < N ==> ((#[trigger] r.record.commands@[self.record.commands@.len() + j])
                    matches RenderCommand::SetBindGroup { index, group, offsets } && index == j
                    && group == bind_groups@[j].id && offsets@.len() == 0),
    {
        let ghost base = self.record.commands@.len() as int;
        let ghost orig = self.record;
        let mut pass = self;
        let mut k: usize = 0;
        while k < N
            invariant
                N <= u32::MAX,
                k <= N,
                0 <= base,
                same_render_attachments(pass.record, orig),
                pass.record.commands@.len() == base + k,
                pass.record.commands@.take(base) == orig.commands@,
                forall|j: int|
                    0 <= j < k ==> ((#[trigger] pass.record.commands@[base + j])
                        matches RenderCommand::SetBindGroup { index, group, offsets } && index == j
                        && group == bind_groups@[j].id && offsets@.len() == 0),
            decreases N - k,
        {
            let ghost prev = pass.record.commands@;
            let pass2 = pass.with_bind_group(k as u32, bind_groups[k]);
            pass = pass2;
            proof {
                let newc = pass.record.commands@;
                assert(newc.take(prev.len() as int) == prev);
                assert forall|i: int| 0 <= i < base implies newc[i] == orig.commands@[i] by {
                    assert(newc.take(prev.len() as int)[i] == prev[i]);
                    assert(prev.take(base)[i] == orig.commands@[i]);
                }
                assert(newc.take(base) =~= orig.commands@);
                assert forall|j: int|
                    0 <= j < k + 1 implies ((#[trigger] newc[base + j])
                    matches RenderCommand::SetBindGroup { index, group, offsets } && index == j
                    && group == bind_groups@[j].id && offsets@.len() == 0) by {
                    if j < k {
                        assert(newc.take(prev.len() as int)[base + j] == prev[base + j]);
                        assert(newc[base + j] == prev[base + j]);
                    } else {
                        assert(newc[base + j] == newc.last());
                    }
                }
            }
            k = k + 1;
        }
        pass
    }

    /// Record binding a vertex buffer at the given slot.
    pub fn with_vertex_buffer<D: IntoVertexBufferData>(self, slot: u32, buffer_slice: D) -> (r:
        RenderPass)
        ensures
            same_render_attachments(r.record, self.record),
            r.record.commands@ == self.record.commands@.push(
                (RenderCommand::SetVertexBuffer {
                    slot,
                    buffer: buffer_slice.spec_into_vertex_buffer_data().buffer,
                }),
            ),
    {
        let slice = buffer_slice.into_vertex_buffer_data();
        let mut pass = self;
        pass.record.commands.push(RenderCommand::SetVertexBuffer { slot, buffer: slice.buffer });
        pass
    }

    /// Record binding the pipeline that subsequent draws use.
    pub fn with_pipeline(self, pipeline: &RenderPipeline) -> (r: RenderPass)
        ensures
            same_render_attachments(r.record, self.record),
            r.record.commands@ == self.record.commands@.push(
                (RenderCommand::SetPipeline { pipeline: pipeline.id }),
            ),
    {
        let mut pass = self;
        pass.record.commands.push(RenderCommand::SetPipeline { pipeline: pipeline.id });
        pass
    }

    /// Record binding a 16-bit index buffer and issuing one indexed draw
    /// over the given index and instance ranges.
    pub fn draw_indexed_u16<D: IntoIndexBufferDataU16>(
        self,
        index_data: D,
        indices: core::ops::Range<u32>,
        base_vertex: i32,
        instances: core::ops::Range<u32>,
    ) -> (r: RenderPass)
        requires
            indices.start <= indices.end,
            instances.start <= instances.end,
        ensures
            same_render_attachments(r.record, self.record),
            r.record.commands@ == self.record.commands@.push(
                (RenderCommand::SetIndexBuffer {
                    buffer: index_data.spec_into_index_buffer_data_u16().buffer,
                    format: IndexFormat::Uint16,
                }),
            ).push(
                (RenderCommand::DrawIndexed {
                    first_index: indices.start,
                    index_count: (indices.end - indices.start) as u32,
                    base_vertex,
                    first_instance: instances.start,
                    instance_count: (instances.end - instances.start) as u32,
                }),
            ),
    {
        let mut pass = self;
        pass.set_index_buffer_u16(index_data);
        pass.record.commands.push(
            RenderCommand::DrawIndexed {
                first_index: indices.start,
                index_count: indices.end - indices.start,
                base_vertex,
                first_instance: instances.start,
                instance_count: instances.end - instances.start,
            },
        );
        pass
    }

    /// Record one draw over the given vertex and instance ranges.
    pub fn draw(self, vertices: core::ops::Range<u32>, instances: core::ops::Range<u32>) -> (r:
        RenderPass)
        requires
            vertices.start <= vertices.end,
            instances.start <= instances.end,
        ensures
            same_render_attachments(r.record, self.record),
            r.record.commands@ == self.record.commands@.push(
                (RenderCommand::Draw {
                    first_vertex: vertices.start,
                    vertex_count: (vertices.end - vertices.start) as u32,
                    first_instance: instances.start,
                    instance_count: (instances.end - instances.start) as u32,
                }),
            ),
    {
        let mut pass = self;
        pass.record.commands.push(
            RenderCommand::Draw {
                first_vertex: vertices.start,
                vertex_count: vertices.end - vertices.start,
                first_instance: instances.start,
                instance_count: instances.end - instances.start,
            },
        );
        pass
    }
}

} // verus!
