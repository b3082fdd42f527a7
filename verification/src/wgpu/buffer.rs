//! Typed buffers: fixed single-value buffers, fixed-length arrays and
//! growable vectors, with their builders.
//!
//! A buffer owns a device allocation identity, its usage flags and the
//! element contents the device currently holds. Fixed-size buffers never
//! accept writes past their allocation; only `VectorBuffer` may grow, by
//! reallocating.

use vstd::prelude::*;
use vstd::slice::slice_to_vec;

use crate::wgpu::controller::WGPUController;
use crate::wgpu::encoder::Command;
use crate::wgpu::pipeline::{VertexAttribute, VertexBufferLayout, VertexStepMode};

verus! {

/// Anything that can stand in a bind group slot as a buffer: it exposes
/// the identity of its backing device buffer.
pub trait BufferResource {
    /// The identity of the backing device buffer.
    spec fn spec_resource_id(&self) -> u64;

    /// Hand out the backing buffer's identity.
    fn resource_id(&self) -> (id: u64)
        ensures
            id == self.spec_resource_id(),
    ;
}

/// Which device operations may touch a buffer.
#[derive(Clone, Copy, PartialEq, Eq, Structural, Debug)]
pub struct BufferUsages {
    pub copy_src: bool,
    pub copy_dst: bool,
    pub index: bool,
    pub vertex: bool,
    pub uniform: bool,
    pub storage: bool,
    pub indirect: bool,
    pub query_resolve: bool,
}

/// The permissive default usage set: every operation allowed. Ergonomic,
/// at a small allocation-compatibility cost.
pub open spec fn spec_all_usages() -> BufferUsages {
    BufferUsages {
        copy_src: true,
        copy_dst: true,
        index: true,
        vertex: true,
        uniform: true,
        storage: true,
        indirect: true,
        query_resolve: true,
    }
}

impl BufferUsages {
    pub fn none() -> (r: BufferUsages)
        ensures
            r == (BufferUsages {
                copy_src: false,
                copy_dst: false,
                index: false,
                vertex: false,
                uniform: false,
                storage: false,
                indirect: false,
                query_resolve: false,
            }),
    {
        BufferUsages {
            copy_src: false,
            copy_dst: false,
            index: false,
            vertex: false,
            uniform: false,
            storage: false,
            indirect: false,
            query_resolve: false,
        }
    }

    pub fn all() -> (r: BufferUsages)
        ensures
            r == spec_all_usages(),
    {
        BufferUsages {
            copy_src: true,
            copy_dst: true,
            index: true,
            vertex: true,
            uniform: true,
            storage: true,
            indirect: true,
            query_resolve: true,
        }
    }
}

/// Conversion into the element type a buffer write expects.
pub trait IntoBufferData<T> {
    /// The value the conversion produces.
    spec fn spec_into_buffer_data(self) -> T;

    fn into_buffer_data(self) -> (r: T)
        ensures
            r == self.spec_into_buffer_data(),
    ;
}

impl<T> IntoBufferData<T> for T {
    open spec fn spec_into_buffer_data(self) -> T {
        self
    }

    fn into_buffer_data(self) -> T {
        self
    }
}

/// A range of a buffer handed to a pass, by buffer identity; the layer
/// always slices buffers whole.
#[derive(Clone, Copy, PartialEq, Eq, Structural, Debug)]
pub struct BufferSlice {
    pub buffer: u64,
}

/// Conversion into a whole-buffer slice for vertex data.
pub trait IntoVertexBufferData {
    /// The identity of the buffer the slice covers.
    spec fn spec_into_vertex_buffer_data(self) -> BufferSlice;

    fn into_vertex_buffer_data(self) -> (r: BufferSlice)
        ensures
            r == self.spec_into_vertex_buffer_data(),
    ;
}

impl IntoVertexBufferData for BufferSlice {
    open spec fn spec_into_vertex_buffer_data(self) -> BufferSlice {
        self
    }

    fn into_vertex_buffer_data(self) -> BufferSlice {
        self
    }
}

/// A buffer of a fixed element count, usually holding one value of `T`.
pub struct Buffer<T> {
    pub id: u64,
    pub usage: BufferUsages,
    pub contents: Vec<T>,
}

impl<T> Buffer<T> {
    /// The whole buffer as a slice.
    pub fn slice(&self) -> (r: BufferSlice)
        ensures
            r.buffer == self.id,
    {
        BufferSlice { buffer: self.id }
    }

    /// A per-vertex layout over this buffer's element type.
    pub fn vertex_layout(&self, attributes: Vec<VertexAttribute>) -> (r: VertexBufferLayout)
        ensures
            r.array_stride as nat == vstd::layout::size_of::<T>(),
            r.step_mode == VertexStepMode::Vertex,
            r.attributes@ == attributes@,
    {
        VertexBufferLayout {
            array_stride: core::mem::size_of::<T>() as u64,
            step_mode: VertexStepMode::Vertex,
            attributes,
        }
    }

    /// A per-instance layout over this buffer's element type.
    pub fn instance_layout(&self, attributes: Vec<VertexAttribute>) -> (r: VertexBufferLayout)
        ensures
            r.array_stride as nat == vstd::layout::size_of::<T>(),
            r.step_mode == VertexStepMode::Instance,
            r.attributes@ == attributes@,
    {
        VertexBufferLayout {
            array_stride: core::mem::size_of::<T>() as u64,
            step_mode: VertexStepMode::Instance,
            attributes,
        }
    }

    /// A per-instance layout over this buffer's element type.
    pub fn instance_stepped_vertex_layout(&self, attributes: Vec<VertexAttribute>) -> (r:
        VertexBufferLayout)
        ensures
            r.array_stride as nat == vstd::layout::size_of::<T>(),
            r.step_mode == VertexStepMode::Instance,
            r.attributes@ == attributes@,
    {
        self.instance_layout(attributes)
    }
}

impl<T> BufferResource for Buffer<T> {
    open spec fn spec_resource_id(&self) -> u64 {
        self.id
    }

    fn resource_id(&self) -> u64 {
        self.id
    }
}

impl<T> IntoVertexBufferData for &Buffer<T> {
    open spec fn spec_into_vertex_buffer_data(self) -> BufferSlice {
        BufferSlice { buffer: self.id }
    }

    fn into_vertex_buffer_data(self) -> BufferSlice {
        BufferSlice { buffer: self.id }
    }
}

/// Accumulates the configuration of a fixed buffer.
pub struct BufferBuilder<T> {
    pub initial_contents: Vec<T>,
    pub label: Option<String>,
    pub usage: Option<BufferUsages>,
}

impl<T> BufferBuilder<T> {
    pub fn new(initial_contents: Vec<T>) -> (r: BufferBuilder<T>)
        ensures
            r.initial_contents@ == initial_contents@,
            r.label is None,
            r.usage is None,
    {
        BufferBuilder { initial_contents, label: None, usage: None }
    }

    pub fn with_label(self, label: String) -> (r: BufferBuilder<T>)
        ensures
            r.initial_contents@ == self.initial_contents@,
            r.label == Some(label),
            r.usage == self.usage,
    {
        BufferBuilder { label: Some(label), initial_contents: self.initial_contents, usage: self.usage }
    }

    pub fn with_usage(self, usage: BufferUsages) -> (r: BufferBuilder<T>)
        ensures
            r.initial_contents@ == self.initial_contents@,
            r.label == self.label,
            r.usage == Some(usage),
    {
        BufferBuilder { usage: Some(usage), initial_contents: self.initial_contents, label: self.label }
    }

    /// Allocate the buffer, sized to the initial contents, with the
    /// configured usage or the permissive default.
    pub fn build(self, wgpu: &mut WGPUController) -> (r: Buffer<T>)
        requires
            old(wgpu).device.ids_left() >= 1,
        ensures
            r.id == old(wgpu).device.next_id,
            r.contents@ == self.initial_contents@,
            r.usage == match self.usage {
                Some(u) => u,
                None => spec_all_usages(),
            },
            final(wgpu).device.next_id == old(wgpu).device.next_id + 1,
            final(wgpu).surface == old(wgpu).surface,
            final(wgpu).queue == old(wgpu).queue,
            final(wgpu).config == old(wgpu).config,
    {
        let id = wgpu.device.fresh_id();
        let usage = match self.usage {
            Some(u) => u,
            None => BufferUsages::all(),
        };
        Buffer { id, usage, contents: self.initial_contents }
    }
}

/// A buffer holding a fixed-length homogeneous array of `T`.
pub struct ArrayBuffer<T> {
    pub id: u64,
    pub usage: BufferUsages,
    pub contents: Vec<T>,
}

impl<T> ArrayBuffer<T> {
    /// The fixed element count.
    pub fn len(&self) -> (r: usize)
        ensures
            r == self.contents@.len(),
    {
        self.contents.len()
    }

    /// The whole buffer as a slice.
    pub fn slice(&self) -> (r: BufferSlice)
        ensures
            r.buffer == self.id,
    {
        BufferSlice { buffer: self.id }
    }

    /// A per-vertex layout over this buffer's element type.
    pub fn vertex_layout(&self, attributes: Vec<VertexAttribute>) -> (r: VertexBufferLayout)
        ensures
            r.array_stride as nat == vstd::layout::size_of::<T>(),
            r.step_mode == VertexStepMode::Vertex,
            r.attributes@ == attributes@,
    {
        VertexBufferLayout {
            array_stride: core::mem::size_of::<T>() as u64,
            step_mode: VertexStepMode::Vertex,
            attributes,
        }
    }

    /// A per-instance layout over this buffer's element type.
    pub fn instance_layout(&self, attributes: Vec<VertexAttribute>) -> (r: VertexBufferLayout)
        ensures
            r.array_stride as nat == vstd::layout::size_of::<T>(),
            r.step_mode == VertexStepMode::Instance,
            r.attributes@ == attributes@,
    {
        VertexBufferLayout {
            array_stride: core::mem::size_of::<T>() as u64,
            step_mode: VertexStepMode::Instance,
            attributes,
        }
    }

    /// A per-instance layout over this buffer's element type.
    pub fn instance_stepped_vertex_layout(&self, attributes: Vec<VertexAttribute>) -> (r:
        VertexBufferLayout)
        ensures
            r.array_stride as nat == vstd::layout::size_of::<T>(),
            r.step_mode == VertexStepMode::Instance,
            r.attributes@ == attributes@,
    {
        self.instance_layout(attributes)
    }
}

impl<T: Copy> ArrayBuffer<T> {
    /// Overwrite `data.len()` elements starting at `position`. Writing past
    /// the fixed allocation is a caller contract, not a runtime check.
    pub fn write(&mut self, position: usize, data: &[T])
        requires
            position + data@.len() <= old(self).contents@.len(),
        ensures
            final(self).id == old(self).id,
            final(self).usage == old(self).usage,
            final(self).contents@.len() == old(self).contents@.len(),
            forall|i: int|
                0 <= i < old(self).contents@.len() ==> final(self).contents@[i] == if position <= i
                    < position + data@.len() {
                    data@[i - position]
                } else {
                    old(self).contents@[i]
                },
    {
        let total = self.contents.len();
        let mut k: usize = 0;
        while k < data.len()
            invariant
                position + data@.len() <= self.contents@.len(),
                self.contents@.len() == total,
                k <= data@.len(),
                self.id == old(self).id,
                self.usage == old(self).usage,
                self.contents@.len() == old(self).contents@.len(),
                forall|i: int|
                    0 <= i < self.contents@.len() ==> self.contents@[i] == if position <= i
                        < position + k {
                        data@[i - position]
                    } else {
                        old(self).contents@[i]
                    },
            decreases data@.len() - k,
        {
            self.contents[position + k] = data[k];
            k = k + 1;
        }
    }

    /// Copy `length` elements out of `source`, through a one-command
    /// encoder submitted to the queue, as the device would.
    pub fn copy_from(
        &mut self,
        wgpu: &mut WGPUController,
        source: &ArrayBuffer<T>,
        source_offset: usize,
        destination_offset: usize,
        length: usize,
    )
        requires
            source_offset + length <= source.contents@.len(),
            destination_offset + length <= old(self).contents@.len(),
        ensures
            final(self).id == old(self).id,
            final(self).usage == old(self).usage,
            final(self).contents@.len() == old(self).contents@.len(),
            forall|i: int|
                0 <= i < old(self).contents@.len() ==> final(self).contents@[i]
                    == if destination_offset <= i < destination_offset + length {
                    source.contents@[i - destination_offset + source_offset]
                } else {
                    old(self).contents@[i]
                },
            final(wgpu).queue.submitted@.len() == old(wgpu).queue.submitted@.len() + 1,
            final(wgpu).queue.submitted@.subrange(0, old(wgpu).queue.submitted@.len() as int)
                == old(wgpu).queue.submitted@,
            final(wgpu).queue.submitted@.last().commands@ =~= seq![
                (Command::CopyBufferToBuffer {
                    source: source.id,
                    source_offset: source_offset as u64,
                    destination: old(self).id,
                    destination_offset: destination_offset as u64,
                    size: length as u64,
                }),
            ],
            final(wgpu).surface == old(wgpu).surface,
            final(wgpu).device == old(wgpu).device,
            final(wgpu).config == old(wgpu).config,
    {
        let mut encoder = wgpu.create_encoder();
        encoder.commands.push(
            Command::CopyBufferToBuffer {
                source: source.id,
                source_offset: source_offset as u64,
                destination: self.id,
                destination_offset: destination_offset as u64,
                size: length as u64,
            },
        );
        wgpu.finish_encoder(encoder);
        let total = self.contents.len();
        let source_total = source.contents.len();
        let mut k: usize = 0;
        while k < length
            invariant
                source_offset + length <= source.contents@.len(),
                destination_offset + length <= self.contents@.len(),
                self.contents@.len() == total,
                source.contents@.len() == source_total,
                k <= length,
                self.id == old(self).id,
                self.usage == old(self).usage,
                self.contents@.len() == old(self).contents@.len(),
                forall|i: int|
                    0 <= i < self.contents@.len() ==> self.contents@[i] == if destination_offset
                        <= i < destination_offset + k {
                        source.contents@[i - destination_offset + source_offset]
                    } else {
                        old(self).contents@[i]
                    },
            decreases length - k,
        {
            self.contents[destination_offset + k] = source.contents[source_offset + k];
            k = k + 1;
        }
    }
}

impl<T> BufferResource for ArrayBuffer<T> {
    open spec fn spec_resource_id(&self) -> u64 {
        self.id
    }

    fn resource_id(&self) -> u64 {
        self.id
    }
}

impl<T> IntoVertexBufferData for &ArrayBuffer<T> {
    open spec fn spec_into_vertex_buffer_data(self) -> BufferSlice {
        BufferSlice { buffer: self.id }
    }

    fn into_vertex_buffer_data(self) -> BufferSlice {
        BufferSlice { buffer: self.id }
    }
}

/// Accumulates the configuration of a fixed-length array buffer.
pub struct ArrayBufferBuilder<T> {
    pub initial_contents: Vec<T>,
    pub label: Option<String>,
    pub usage: Option<BufferUsages>,
}

impl<T> ArrayBufferBuilder<T> {
    pub fn new(initial_contents: Vec<T>) -> (r: ArrayBufferBuilder<T>)
        ensures
            r.initial_contents@ == initial_contents@,
            r.label is None,
            r.usage is None,
    {
        ArrayBufferBuilder { initial_contents, label: None, usage: None }
    }

    /// Take the initial contents by ownership.
    pub fn from_owned_contents(initial_contents: Vec<T>) -> (r: ArrayBufferBuilder<T>)
        ensures
            r.initial_contents@ == initial_contents@,
            r.label is None,
            r.usage is None,
    {
        ArrayBufferBuilder { initial_contents, label: None, usage: None }
    }

    pub fn with_label(self, label: String) -> (r: ArrayBufferBuilder<T>)
        ensures
            r.initial_contents@ == self.initial_contents@,
            r.label == Some(label),
            r.usage == self.usage,
    {
        ArrayBufferBuilder {
            label: Some(label),
            initial_contents: self.initial_contents,
            usage: self.usage,
        }
    }

    pub fn with_usage(self, usage: BufferUsages) -> (r: ArrayBufferBuilder<T>)
        ensures
            r.initial_contents@ == self.initial_contents@,
            r.label == self.label,
            r.usage == Some(usage),
    {
        ArrayBufferBuilder {
            usage: Some(usage),
            initial_contents: self.initial_contents,
            label: self.label,
        }
    }

    /// Allocate the array buffer, sized to the initial contents, with the
    /// configured usage or the permissive default.
    pub fn build(self, wgpu: &mut WGPUController) -> (r: ArrayBuffer<T>)
        requires
            old(wgpu).device.ids_left() >= 1,
        ensures
            r.id == old(wgpu).device.next_id,
            r.contents@ == self.initial_contents@,
            r.usage == match self.usage {
                Some(u) => u,
                None => spec_all_usages(),
            },
            final(wgpu).device.next_id == old(wgpu).device.next_id + 1,
            final(wgpu).surface == old(wgpu).surface,
            final(wgpu).queue == old(wgpu).queue,
            final(wgpu).config == old(wgpu).config,
    {
        let id = wgpu.device.fresh_id();
        let usage = match self.usage {
            Some(u) => u,
            None => BufferUsages::all(),
        };
        ArrayBuffer { id, usage, contents: self.initial_contents }
    }
}

impl<T: Copy> ArrayBufferBuilder<T> {
    /// Borrow the initial contents.
    pub fn from_contents(initial_contents: &[T]) -> (r: ArrayBufferBuilder<T>)
        ensures
            r.initial_contents@ == initial_contents@,
            r.label is None,
            r.usage is None,
    {
        ArrayBufferBuilder { initial_contents: slice_to_vec(initial_contents), label: None, usage: None }
    }

    /// `size` elements, all the given fill value (the device zeroes fresh
    /// allocations; the fill value stands in for that zero).
    pub fn empty(zero: T, size: usize) -> (r: ArrayBufferBuilder<T>)
        ensures
            r.initial_contents@ == Seq::new(size as nat, |i: int| zero),
            r.label is None,
            r.usage is None,
    {
        let mut initial_contents: Vec<T> = Vec::new();
        let mut k: usize = 0;
        while k < size
            invariant
                k <= size,
                initial_contents@ =~= Seq::new(k as nat, |i: int| zero),
            decreases size - k,
        {
            initial_contents.push(zero);
            k = k + 1;
        }
        proof {
            assert(initial_contents@ =~= Seq::new(size as nat, |i: int| zero));
        }
        ArrayBufferBuilder { initial_contents, label: None, usage: None }
    }
}

/// A growable buffer: the only buffer kind with dynamic resizing. Its
/// capacity is the size of the current device allocation, in elements.
pub struct VectorBuffer<T> {
    pub id: u64,
    pub usage: BufferUsages,
    pub contents: Vec<T>,
    pub capacity: usize,
}

impl<T> VectorBuffer<T> {
    /// The allocation always covers the contents.
    pub open spec fn wf(self) -> bool {
        self.contents@.len() <= self.capacity
    }

    /// How many elements the buffer currently holds.
    pub fn len(&self) -> (r: usize)
        ensures
            r == self.contents@.len(),
    {
        self.contents.len()
    }

    /// The whole buffer as a slice.
    pub fn slice(&self) -> (r: BufferSlice)
        ensures
            r.buffer == self.id,
    {
        BufferSlice { buffer: self.id }
    }

    /// A per-vertex layout over this buffer's element type.
    pub fn vertex_layout(&self, attributes: Vec<VertexAttribute>) -> (r: VertexBufferLayout)
        ensures
            r.array_stride as nat == vstd::layout::size_of::<T>(),
            r.step_mode == VertexStepMode::Vertex,
            r.attributes@ == attributes@,
    {
        VertexBufferLayout {
            array_stride: core::mem::size_of::<T>() as u64,
            step_mode: VertexStepMode::Vertex,
            attributes,
        }
    }

    /// A per-instance layout over this buffer's element type.
    pub fn instance_layout(&self, attributes: Vec<VertexAttribute>) -> (r: VertexBufferLayout)
        ensures
            r.array_stride as nat == vstd::layout::size_of::<T>(),
            r.step_mode == VertexStepMode::Instance,
            r.attributes@ == attributes@,
    {
        VertexBufferLayout {
            array_stride: core::mem::size_of::<T>() as u64,
            step_mode: VertexStepMode::Instance,
            attributes,
        }
    }

    /// A per-instance layout over this buffer's element type.
    pub fn instance_stepped_vertex_layout(&self, attributes: Vec<VertexAttribute>) -> (r:
        VertexBufferLayout)
        ensures
            r.array_stride as nat == vstd::layout::size_of::<T>(),
            r.step_mode == VertexStepMode::Instance,
            r.attributes@ == attributes@,
    {
        self.instance_layout(attributes)
    }
}

impl<T: Copy> VectorBuffer<T> {
    /// Replace the contents with `data`. Data longer than the current
    /// allocation reallocates a fresh backing buffer of exactly the new
    /// length; data that fits is written in place, keeping the backing
    /// identity and the allocation.
    pub fn write(&mut self, wgpu: &mut WGPUController, data: &[T])
        requires
            old(self).wf(),
            old(wgpu).device.ids_left() >= 1,
        ensures
            final(self).wf(),
            final(self).contents@ == data@,
            final(self).usage == old(self).usage,
            data@.len() > old(self).capacity ==> {
                &&& final(self).id == old(wgpu).device.next_id
                &&& final(self).capacity == data@.len()
                &&& final(wgpu).device.next_id == old(wgpu).device.next_id + 1
            },
            data@.len() <= old(self).capacity ==> {
                &&& final(self).id == old(self).id
                &&& final(self).capacity == old(self).capacity
                &&& final(wgpu).device == old(wgpu).device
            },
            final(wgpu).surface == old(wgpu).surface,
            final(wgpu).queue == old(wgpu).queue,
            final(wgpu).config == old(wgpu).config,
    {
        if data.len() > self.capacity {
            let id = wgpu.device.fresh_id();
            self.id = id;
            self.capacity = data.len();
        }
        self.contents = slice_to_vec(data);
    }
}

impl<T> BufferResource for VectorBuffer<T> {
    open spec fn spec_resource_id(&self) -> u64 {
        self.id
    }

    fn resource_id(&self) -> u64 {
        self.id
    }
}

impl<T> IntoVertexBufferData for &VectorBuffer<T> {
    open spec fn spec_into_vertex_buffer_data(self) -> BufferSlice {
        BufferSlice { buffer: self.id }
    }

    fn into_vertex_buffer_data(self) -> BufferSlice {
        BufferSlice { buffer: self.id }
    }
}

/// Accumulates the configuration of a vector buffer, which always starts
/// empty.
pub struct VectorBufferBuilder<T> {
    pub label: Option<String>,
    pub usage: Option<BufferUsages>,
    pub element: core::marker::PhantomData<T>,
}

impl<T> VectorBufferBuilder<T> {
    pub fn new() -> (r: VectorBufferBuilder<T>)
        ensures
            r.label is None,
            r.usage is None,
    {
        VectorBufferBuilder { label: None, usage: None, element: core::marker::PhantomData }
    }

    pub fn with_label(self, label: String) -> (r: VectorBufferBuilder<T>)
        ensures
            r.label == Some(label),
            r.usage == self.usage,
    {
        VectorBufferBuilder { label: Some(label), usage: self.usage, element: core::marker::PhantomData }
    }

    pub fn with_usage(self, usage: BufferUsages) -> (r: VectorBufferBuilder<T>)
        ensures
            r.label == self.label,
            r.usage == Some(usage),
    {
        VectorBufferBuilder { usage: Some(usage), label: self.label, element: core::marker::PhantomData }
    }

    /// Allocate an empty vector buffer with the configured usage or the
    /// permissive default.
    pub fn build(self, wgpu: &mut WGPUController) -> (r: VectorBuffer<T>)
        requires
            old(wgpu).device.ids_left() >= 1,
        ensures
            r.wf(),
            r.id == old(wgpu).device.next_id,
            r.contents@ =~= Seq::<T>::empty(),
            r.capacity == 0,
            r.usage == match self.usage {
                Some(u) => u,
                None => spec_all_usages(),
            },
            final(wgpu).device.next_id == old(wgpu).device.next_id + 1,
            final(wgpu).surface == old(wgpu).surface,
            final(wgpu).queue == old(wgpu).queue,
            final(wgpu).config == old(wgpu).config,
    {
        let id = wgpu.device.fresh_id();
        let usage = match self.usage {
            Some(u) => u,
            None => BufferUsages::all(),
        };
        VectorBuffer { id, usage, contents: Vec::new(), capacity: 0 }
    }
}

} // verus!
