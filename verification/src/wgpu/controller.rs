//! The controller bundles the modelled device, queue, presentation surface
//! and the surface's current configuration.

use vstd::prelude::*;
use vstd::slice::slice_to_vec;

use crate::wgpu::bind::{BindGroupLayoutBuilder, BindGroupWithLayoutBuilder};
use crate::wgpu::buffer::{
    ArrayBuffer, ArrayBufferBuilder, Buffer, BufferBuilder, IntoBufferData, VectorBuffer,
    VectorBufferBuilder, spec_all_usages,
};
use crate::wgpu::encoder::{CommandBuffer, CommandEncoder};
use crate::wgpu::pipeline::{ComputePipelineBuilder, RenderPipelineBuilder};
use crate::wgpu::texture::{TextureFormat, TextureUsages};
use crate::wgpu::texture::TextureBuilder;

verus! {

/// The logical device. Creating a resource draws a fresh identity from it,
/// so two distinct allocations never share an id.
#[derive(Clone, Copy, PartialEq, Eq, Structural, Debug)]
pub struct Device {
    pub next_id: u64,
}

impl Device {
    /// How many fresh identities the device can still hand out.
    pub open spec fn ids_left(self) -> int {
        u64::MAX - self.next_id
    }

    /// Draw a fresh resource identity.
    pub fn fresh_id(&mut self) -> (id: u64)
        requires
            old(self).ids_left() >= 1,
        ensures
            id == old(self).next_id,
            final(self).next_id == old(self).next_id + 1,
    {
        let id = self.next_id;
        self.next_id = self.next_id + 1;
        id
    }
}

/// The command queue: everything submitted so far, in submission order.
/// Submitted buffers execute on the device in exactly this order.
pub struct Queue {
    pub submitted: Vec<CommandBuffer>,
}

/// How presentation of finished frames is paced.
#[derive(Clone, Copy, PartialEq, Eq, Structural, Debug)]
pub enum PresentMode {
    AutoVsync,
    AutoNoVsync,
    Fifo,
    FifoRelaxed,
    Immediate,
    Mailbox,
}

#[derive(Clone, Copy, PartialEq, Eq, Structural, Debug)]
pub enum CompositeAlphaMode {
    Auto,
    Opaque,
    PreMultiplied,
    PostMultiplied,
    Inherit,
}

/// Everything the surface is configured with.
#[derive(Clone, Copy, PartialEq, Eq, Structural, Debug)]
pub struct SurfaceConfiguration {
    pub usage: TextureUsages,
    pub format: TextureFormat,
    pub width: u32,
    pub height: u32,
    pub present_mode: PresentMode,
    pub alpha_mode: CompositeAlphaMode,
    pub desired_maximum_frame_latency: u32,
}

/// The presentation surface. `configured` is the configuration last applied
/// to it; `configure_count` counts how many configure calls were issued, so
/// a contract can state that none was.
pub struct Surface {
    pub configured: Option<SurfaceConfiguration>,
    pub configure_count: Ghost<int>,
}

impl Surface {
    /// Apply a configuration to the surface.
    pub fn configure(&mut self, device: &Device, config: &SurfaceConfiguration)
        ensures
            final(self).configured == Some(*config),
            final(self).configure_count@ == old(self).configure_count@ + 1,
    {
        let _ = device;
        self.configured = Some(*config);
        self.configure_count = Ghost(self.configure_count@ + 1);
    }
}

/// An optional feature set requested from the device, kept as an opaque
/// bit set.
#[derive(Clone, Copy, PartialEq, Eq, Structural, Debug)]
pub struct Features {
    pub bits: u64,
}

impl Features {
    /// No optional features.
    pub fn empty() -> (r: Features)
        ensures
            r.bits == 0,
    {
        Features { bits: 0 }
    }
}

/// Shader source handed to the device: opaque text plus an optional label.
pub struct ShaderModuleDescriptor {
    pub label: Option<String>,
    pub source: String,
}

/// A compiled shader module: an identity plus the source it was built from.
pub struct ShaderModule {
    pub id: u64,
    pub source: String,
}

/// The root object: device, queue, surface and the surface's configuration.
pub struct WGPUController {
    pub surface: Surface,
    pub device: Device,
    pub queue: Queue,
    pub config: SurfaceConfiguration,
}

impl WGPUController {
    /// A controller whose surface is configured at the given pixel size and
    /// format, with a 2-frame desired latency, ready to create resources.
    pub fn new_configured(width: u32, height: u32, format: TextureFormat) -> (r: WGPUController)
        ensures
            r.config == (SurfaceConfiguration {
                usage: TextureUsages {
                    copy_src: false,
                    copy_dst: false,
                    texture_binding: false,
                    storage_binding: false,
                    render_attachment: true,
                },
                format,
                width,
                height,
                present_mode: PresentMode::Fifo,
                alpha_mode: CompositeAlphaMode::Auto,
                desired_maximum_frame_latency: 2,
            }),
            r.surface.configured == Some(r.config),
            r.device.next_id == 0,
            r.queue.submitted@ =~= Seq::<CommandBuffer>::empty(),
    {
        let config = SurfaceConfiguration {
            usage: TextureUsages {
                copy_src: false,
                copy_dst: false,
                texture_binding: false,
                storage_binding: false,
                render_attachment: true,
            },
            format,
            width,
            height,
            present_mode: PresentMode::Fifo,
            alpha_mode: CompositeAlphaMode::Auto,
            desired_maximum_frame_latency: 2,
        };
        let device = Device { next_id: 0 };
        let mut surface = Surface { configured: None, configure_count: Ghost(0) };
        surface.configure(&device, &config);
        WGPUController { surface, device, queue: Queue { submitted: Vec::new() }, config }
    }

    /// An empty command encoder to record passes and copies into.
    pub fn create_encoder(&self) -> (encoder: CommandEncoder)
        ensures
            encoder.commands@ =~= Seq::<crate::wgpu::encoder::Command>::empty(),
    {
        CommandEncoder { commands: Vec::new() }
    }

    /// Submit a finished encoder: its commands are appended to the queue as
    /// one command buffer, after everything submitted before.
    pub fn finish_encoder(&mut self, encoder: CommandEncoder)
        ensures
            final(self).queue.submitted@ == old(self).queue.submitted@.push(
                (CommandBuffer { commands: encoder.commands }),
            ),
            final(self).surface == old(self).surface,
            final(self).device == old(self).device,
            final(self).config == old(self).config,
    {
        self.queue.submitted.push(CommandBuffer { commands: encoder.commands });
    }

    /// Compile a shader module from its descriptor.
    pub fn shader(&mut self, source: ShaderModuleDescriptor) -> (module: ShaderModule)
        requires
            old(self).device.ids_left() >= 1,
        ensures
            module.id == old(self).device.next_id,
            module.source@ == source.source@,
            final(self).device.next_id == old(self).device.next_id + 1,
            final(self).surface == old(self).surface,
            final(self).queue == old(self).queue,
            final(self).config == old(self).config,
    {
        let id = self.device.fresh_id();
        ShaderModule { id, source: source.source }
    }

    /// Start building a 2D texture of the given size.
    pub fn build_texture_2d(&self, width: u32, height: u32) -> (r: TextureBuilder)
        ensures
            r.is_default_2d(width, height),
    {
        let _ = self;
        TextureBuilder::new_2d(width, height)
    }

    /// A buffer holding one value, with the permissive default usage.
    pub fn buffer<T>(&mut self, contents: T) -> (r: Buffer<T>)
        requires
            old(self).device.ids_left() >= 1,
        ensures
            r.id == old(self).device.next_id,
            r.contents@ =~= seq![contents],
            r.usage == spec_all_usages(),
            final(self).device.next_id == old(self).device.next_id + 1,
            final(self).surface == old(self).surface,
            final(self).queue == old(self).queue,
            final(self).config == old(self).config,
    {
        let mut initial: Vec<T> = Vec::new();
        initial.push(contents);
        BufferBuilder::new(initial).build(self)
    }

    /// Start building a fixed buffer over the given contents.
    pub fn build_buffer<T: Copy>(&self, contents: &[T]) -> (r: BufferBuilder<T>)
        ensures
            r.initial_contents@ == contents@,
            r.label is None,
            r.usage is None,
    {
        let _ = self;
        BufferBuilder::new(slice_to_vec(contents))
    }

    /// An array buffer over the given contents, with the permissive
    /// default usage.
    pub fn array_buffer<T: Copy>(&mut self, contents: &[T]) -> (r: ArrayBuffer<T>)
        requires
            old(self).device.ids_left() >= 1,
        ensures
            r.id == old(self).device.next_id,
            r.contents@ == contents@,
            r.usage == spec_all_usages(),
            final(self).device.next_id == old(self).device.next_id + 1,
            final(self).surface == old(self).surface,
            final(self).queue == old(self).queue,
            final(self).config == old(self).config,
    {
        ArrayBufferBuilder::from_contents(contents).build(self)
    }

    /// Start building an array buffer over the given contents.
    pub fn build_array_buffer<T: Copy>(&self, contents: &[T]) -> (r: ArrayBufferBuilder<T>)
        ensures
            r.initial_contents@ == contents@,
            r.label is None,
            r.usage is None,
    {
        let _ = self;
        ArrayBufferBuilder::from_contents(contents)
    }

    /// Start building an array buffer that takes its contents by
    /// ownership.
    pub fn build_array_buffer_owned<T>(&self, contents: Vec<T>) -> (r: ArrayBufferBuilder<T>)
        ensures
            r.initial_contents@ == contents@,
            r.label is None,
            r.usage is None,
    {
        let _ = self;
        ArrayBufferBuilder::from_owned_contents(contents)
    }

    /// An array buffer of `length` copies of the zero value (the device
    /// zeroes fresh allocations; the caller supplies what zero is for
    /// its element type).
    pub fn zeroed_array_buffer<T: Copy>(&mut self, zero: T, length: usize) -> (r: ArrayBuffer<T>)
        requires
            old(self).device.ids_left() >= 1,
        ensures
            r.id == old(self).device.next_id,
            r.contents@ == Seq::new(length as nat, |i: int| zero),
            r.usage == spec_all_usages(),
            final(self).device.next_id == old(self).device.next_id + 1,
            final(self).surface == old(self).surface,
            final(self).queue == old(self).queue,
            final(self).config == old(self).config,
    {
        ArrayBufferBuilder::empty(zero, length).build(self)
    }

    /// Start building an array buffer of `size` copies of the zero value.
    pub fn build_empty_array_buffer<T: Copy>(&self, zero: T, size: usize) -> (r: ArrayBufferBuilder<
        T,
    >)
        ensures
            r.initial_contents@ == Seq::new(size as nat, |i: int| zero),
            r.label is None,
            r.usage is None,
    {
        let _ = self;
        ArrayBufferBuilder::empty(zero, size)
    }

    /// An array buffer of `size` copies of the zero value, with the
    /// permissive default usage.
    pub fn empty_array_buffer<T: Copy>(&mut self, zero: T, size: usize) -> (r: ArrayBuffer<T>)
        requires
            old(self).device.ids_left() >= 1,
        ensures
            r.id == old(self).device.next_id,
            r.contents@ == Seq::new(size as nat, |i: int| zero),
            r.usage == spec_all_usages(),
            final(self).device.next_id == old(self).device.next_id + 1,
            final(self).surface == old(self).surface,
            final(self).queue == old(self).queue,
            final(self).config == old(self).config,
    {
        self.build_empty_array_buffer(zero, size).build(self)
    }

    /// An empty vector buffer with the permissive default usage.
    pub fn vector_buffer<T>(&mut self) -> (r: VectorBuffer<T>)
        requires
            old(self).device.ids_left() >= 1,
        ensures
            r.wf(),
            r.id == old(self).device.next_id,
            r.contents@ =~= Seq::<T>::empty(),
            r.capacity == 0,
            r.usage == spec_all_usages(),
            final(self).device.next_id == old(self).device.next_id + 1,
            final(self).surface == old(self).surface,
            final(self).queue == old(self).queue,
            final(self).config == old(self).config,
    {
        VectorBufferBuilder::new().build(self)
    }

    /// Write one value into the front of a fixed buffer, through the
    /// queue's fire-and-forget upload path.
    pub fn write_buffer<T, D: IntoBufferData<T>>(&self, buffer: &mut Buffer<T>, data: D) -> (r:
        &WGPUController)
        requires
            old(buffer).contents@.len() >= 1,
        ensures
            final(buffer).id == old(buffer).id,
            final(buffer).usage == old(buffer).usage,
            final(buffer).contents@ == old(buffer).contents@.update(
                0,
                data.spec_into_buffer_data(),
            ),
            r == self,
    {
        buffer.contents[0] = data.into_buffer_data();
        self
    }

    /// Write elements into the front of an array buffer, through the
    /// queue's fire-and-forget upload path. Writing more than the fixed
    /// allocation holds is a caller contract.
    pub fn write_array_buffer<T: Copy>(&self, buffer: &mut ArrayBuffer<T>, data: &[T]) -> (r:
        &WGPUController)
        requires
            data@.len() <= old(buffer).contents@.len(),
        ensures
            final(buffer).id == old(buffer).id,
            final(buffer).usage == old(buffer).usage,
            final(buffer).contents@.len() == old(buffer).contents@.len(),
            forall|i: int|
                0 <= i < old(buffer).contents@.len() ==> final(buffer).contents@[i] == if i
                    < data@.len() {
                    data@[i]
                } else {
                    old(buffer).contents@[i]
                },
            r == self,
    {
        buffer.write(0, data);
        self
    }

    /// Start building a render pipeline.
    pub fn build_render_pipeline(&self) -> (r: RenderPipelineBuilder)
        ensures
            r.is_fresh(),
    {
        let _ = self;
        RenderPipelineBuilder::new()
    }

    /// Start building a compute pipeline.
    pub fn build_compute_pipeline(&self) -> (r: ComputePipelineBuilder)
        ensures
            r.is_fresh(),
    {
        let _ = self;
        ComputePipelineBuilder::new()
    }

    /// Start building a bind group layout.
    pub fn build_bind_group_layout(&self) -> (r: BindGroupLayoutBuilder)
        ensures
            r.entries@ =~= Seq::<crate::wgpu::bind::BindGroupLayoutEntry>::empty(),
            r.label is None,
    {
        let _ = self;
        BindGroupLayoutBuilder::new()
    }

    /// Start building a bind group together with its layout.
    pub fn build_bind_group_with_layout(&self) -> (r: BindGroupWithLayoutBuilder)
        ensures
            r.in_step(),
            r.layout_builder.entries@ =~= Seq::<crate::wgpu::bind::BindGroupLayoutEntry>::empty(),
            r.group_builder.entries@ =~= Seq::<crate::wgpu::bind::BindGroupEntry>::empty(),
    {
        let _ = self;
        BindGroupWithLayoutBuilder::new()
    }

    /// Run one recording session: hand `record` an empty encoder and
    /// submit whatever encoder it hands back as one command buffer.
    pub fn with_encoder<F: FnOnce(CommandEncoder) -> CommandEncoder>(&mut self, record: F)
        requires
            forall|e: CommandEncoder|
                e.commands@ =~= Seq::<crate::wgpu::encoder::Command>::empty() ==> #[trigger] record.requires((e,)),
        ensures
            final(self).surface == old(self).surface,
            final(self).device == old(self).device,
            final(self).config == old(self).config,
            final(self).queue.submitted@.len() == old(self).queue.submitted@.len() + 1,
            final(self).queue.submitted@.subrange(0, old(self).queue.submitted@.len() as int)
                == old(self).queue.submitted@,
            exists|e0: CommandEncoder, e1: CommandEncoder|
                {
                    &&& e0.commands@ =~= Seq::<crate::wgpu::encoder::Command>::empty()
                    &&& #[trigger] record.ensures((e0,), e1)
                    &&& final(self).queue.submitted@.last().commands@ == e1.commands@
                },
    {
        let encoder = self.create_encoder();
        let ghost e0 = encoder;
        let encoder = record(encoder);
        let ghost e1 = encoder;
        self.finish_encoder(encoder);
        proof {
            assert(self.queue.submitted@.subrange(0, old(self).queue.submitted@.len() as int)
                =~= old(self).queue.submitted@);
            assert(e0.commands@ =~= Seq::<crate::wgpu::encoder::Command>::empty());
            assert(record.ensures((e0,), e1));
        }
    }
}

} // verus!
