//! Bind group layouts and bind groups, with fluent builders.
//!
//! A layout is an ordered list of slot descriptors; a group binds concrete
//! resources to those slots. When no binding index is given, the builders
//! assign indices in call order, so the n-th entry gets binding n.

use vstd::prelude::*;
use vstd::slice::slice_to_vec;

use crate::wgpu::buffer::BufferResource;
use crate::wgpu::controller::WGPUController;
use crate::wgpu::texture::TextureView;

verus! {

/// Which shader stages may access a binding.
#[derive(Clone, Copy, PartialEq, Eq, Structural, Debug)]
pub struct ShaderStages {
    pub vertex: bool,
    pub fragment: bool,
    pub compute: bool,
}

impl ShaderStages {
    pub fn none() -> (r: ShaderStages)
        ensures
            r == (ShaderStages { vertex: false, fragment: false, compute: false }),
    {
        ShaderStages { vertex: false, fragment: false, compute: false }
    }

    pub fn vertex() -> (r: ShaderStages)
        ensures
            r == (ShaderStages { vertex: true, fragment: false, compute: false }),
    {
        ShaderStages { vertex: true, fragment: false, compute: false }
    }

    pub fn fragment() -> (r: ShaderStages)
        ensures
            r == (ShaderStages { vertex: false, fragment: true, compute: false }),
    {
        ShaderStages { vertex: false, fragment: true, compute: false }
    }

    pub fn compute() -> (r: ShaderStages)
        ensures
            r == (ShaderStages { vertex: false, fragment: false, compute: true }),
    {
        ShaderStages { vertex: false, fragment: false, compute: true }
    }

    pub fn vertex_fragment() -> (r: ShaderStages)
        ensures
            r == (ShaderStages { vertex: true, fragment: true, compute: false }),
    {
        ShaderStages { vertex: true, fragment: true, compute: false }
    }

    pub fn all() -> (r: ShaderStages)
        ensures
            r == (ShaderStages { vertex: true, fragment: true, compute: true }),
    {
        ShaderStages { vertex: true, fragment: true, compute: true }
    }
}

#[derive(Clone, Copy, PartialEq, Eq, Structural, Debug)]
pub enum BufferBindingType {
    Uniform,
    Storage { read_only: bool },
}

#[derive(Clone, Copy, PartialEq, Eq, Structural, Debug)]
pub enum TextureSampleType {
    Float { filterable: bool },
    Depth,
    Sint,
    Uint,
}

#[derive(Clone, Copy, PartialEq, Eq, Structural, Debug)]
pub enum TextureViewDimension {
    D1,
    D2,
    D2Array,
    Cube,
    CubeArray,
    D3,
}

#[derive(Clone, Copy, PartialEq, Eq, Structural, Debug)]
pub enum SamplerBindingType {
    Filtering,
    NonFiltering,
    Comparison,
}

/// What kind of resource a layout slot accepts.
#[derive(Clone, Copy, PartialEq, Eq, Structural, Debug)]
pub enum BindingType {
    Buffer { ty: BufferBindingType, has_dynamic_offset: bool, min_binding_size: Option<u64> },
    Sampler(SamplerBindingType),
    Texture {
        sample_type: TextureSampleType,
        view_dimension: TextureViewDimension,
        multisampled: bool,
    },
}

/// The default binding type: a plain uniform buffer.
pub open spec fn spec_uniform_buffer_type() -> BindingType {
    BindingType::Buffer {
        ty: BufferBindingType::Uniform,
        has_dynamic_offset: false,
        min_binding_size: None,
    }
}

/// A storage-buffer binding type, readable only or also writable.
pub open spec fn spec_storage_buffer_type(read_only: bool) -> BindingType {
    BindingType::Buffer {
        ty: BufferBindingType::Storage { read_only },
        has_dynamic_offset: false,
        min_binding_size: None,
    }
}

/// The texture binding type the combined builder uses: non-filterable
/// float sampling of a 2D view.
pub open spec fn spec_plain_texture_type() -> BindingType {
    BindingType::Texture {
        sample_type: TextureSampleType::Float { filterable: false },
        view_dimension: TextureViewDimension::D2,
        multisampled: false,
    }
}

impl BindingType {
    /// A plain uniform-buffer slot, the default binding type.
    pub fn uniform_buffer() -> (r: BindingType)
        ensures
            r == spec_uniform_buffer_type(),
    {
        BindingType::Buffer {
            ty: BufferBindingType::Uniform,
            has_dynamic_offset: false,
            min_binding_size: None,
        }
    }

    /// A storage-buffer slot that shaders may only read.
    pub fn read_only_storage_buffer() -> (r: BindingType)
        ensures
            r == spec_storage_buffer_type(true),
    {
        BindingType::Buffer {
            ty: BufferBindingType::Storage { read_only: true },
            has_dynamic_offset: false,
            min_binding_size: None,
        }
    }

    /// A storage-buffer slot that shaders may write.
    pub fn writable_storage_buffer() -> (r: BindingType)
        ensures
            r == spec_storage_buffer_type(false),
    {
        BindingType::Buffer {
            ty: BufferBindingType::Storage { read_only: false },
            has_dynamic_offset: false,
            min_binding_size: None,
        }
    }
}

/// One slot of a bind group layout.
#[derive(Clone, Copy, PartialEq, Eq, Structural, Debug)]
pub struct BindGroupLayoutEntry {
    pub binding: u32,
    pub visibility: ShaderStages,
    pub ty: BindingType,
    pub count: Option<u32>,
}

/// The uniform-buffer slot the fluent shorthands append, visible to every
/// stage.
pub open spec fn spec_uniform_entry(binding: u32) -> BindGroupLayoutEntry {
    BindGroupLayoutEntry {
        binding,
        visibility: ShaderStages { vertex: true, fragment: true, compute: true },
        ty: spec_uniform_buffer_type(),
        count: None,
    }
}

/// The read-only storage slot shorthand, visible to every stage.
pub open spec fn spec_read_only_storage_entry(binding: u32) -> BindGroupLayoutEntry {
    BindGroupLayoutEntry {
        binding,
        visibility: ShaderStages { vertex: true, fragment: true, compute: true },
        ty: spec_storage_buffer_type(true),
        count: None,
    }
}

/// The writable storage slot shorthand, visible to compute only.
pub open spec fn spec_compute_writable_storage_entry(binding: u32) -> BindGroupLayoutEntry {
    BindGroupLayoutEntry {
        binding,
        visibility: ShaderStages { vertex: false, fragment: false, compute: true },
        ty: spec_storage_buffer_type(false),
        count: None,
    }
}

/// The texture slot shorthand, visible to the fragment stage only.
pub open spec fn spec_texture_entry(binding: u32) -> BindGroupLayoutEntry {
    BindGroupLayoutEntry {
        binding,
        visibility: ShaderStages { vertex: false, fragment: true, compute: false },
        ty: spec_plain_texture_type(),
        count: None,
    }
}

/// Accumulates the optional parts of one layout slot; anything not set
/// falls back to a default when the entry is built.
#[derive(Clone, Copy, PartialEq, Eq, Structural, Debug)]
pub struct BindGroupLayoutEntryBuilder {
    pub binding: Option<u32>,
    pub count: Option<u32>,
    pub ty: Option<BindingType>,
    pub visibility: Option<ShaderStages>,
}

impl BindGroupLayoutEntryBuilder {
    /// The entry `build` produces when an unset binding index falls back
    /// to `auto_binding`: the type defaults to a uniform buffer and the
    /// visibility to all three stages.
    pub open spec fn spec_built(self, auto_binding: u32) -> BindGroupLayoutEntry {
        BindGroupLayoutEntry {
            binding: match self.binding {
                Some(b) => b,
                None => auto_binding,
            },
            visibility: match self.visibility {
                Some(v) => v,
                None => ShaderStages { vertex: true, fragment: true, compute: true },
            },
            ty: match self.ty {
                Some(t) => t,
                None => spec_uniform_buffer_type(),
            },
            count: self.count,
        }
    }

    pub fn new() -> (r: BindGroupLayoutEntryBuilder)
        ensures
            r == (BindGroupLayoutEntryBuilder {
                binding: None,
                count: None,
                ty: None,
                visibility: None,
            }),
    {
        BindGroupLayoutEntryBuilder { binding: None, count: None, ty: None, visibility: None }
    }

    pub fn with_binding(self, binding: u32) -> (r: BindGroupLayoutEntryBuilder)
        ensures
            r == (BindGroupLayoutEntryBuilder { binding: Some(binding), ..self }),
    {
        BindGroupLayoutEntryBuilder { binding: Some(binding), ..self }
    }

    fn with_binding_if_none(self, binding: u32) -> (r: BindGroupLayoutEntryBuilder)
        ensures
            self.binding is None ==> r == (BindGroupLayoutEntryBuilder {
                binding: Some(binding),
                ..self
            }),
            self.binding is Some ==> r == self,
    {
        if self.binding.is_none() {
            BindGroupLayoutEntryBuilder { binding: Some(binding), ..self }
        } else {
            self
        }
    }

    /// Declare an array of resources; a count of zero is not meaningful.
    pub fn with_count(self, count: u32) -> (r: BindGroupLayoutEntryBuilder)
        requires
            count >= 1,
        ensures
            r == (BindGroupLayoutEntryBuilder { count: Some(count), ..self }),
    {
        BindGroupLayoutEntryBuilder { count: Some(count), ..self }
    }

    pub fn with_ty(self, ty: BindingType) -> (r: BindGroupLayoutEntryBuilder)
        ensures
            r == (BindGroupLayoutEntryBuilder { ty: Some(ty), ..self }),
    {
        BindGroupLayoutEntryBuilder { ty: Some(ty), ..self }
    }

    pub fn with_visibility(self, visibility: ShaderStages) -> (r: BindGroupLayoutEntryBuilder)
        ensures
            r == (BindGroupLayoutEntryBuilder { visibility: Some(visibility), ..self }),
    {
        BindGroupLayoutEntryBuilder { visibility: Some(visibility), ..self }
    }

    /// Finish the slot; an unset binding index defaults to 0.
    pub fn build(self) -> (r: BindGroupLayoutEntry)
        ensures
            r == self.spec_built(0),
    {
        BindGroupLayoutEntry {
            binding: match self.binding {
                Some(b) => b,
                None => 0,
            },
            count: self.count,
            ty: match self.ty {
                Some(t) => t,
                None => BindingType::uniform_buffer(),
            },
            visibility: match self.visibility {
                Some(v) => v,
                None => ShaderStages::all(),
            },
        }
    }
}

/// Entry i of the sequence carries binding index i: the shape the fluent
/// builders produce when no explicit binding index is ever given.
pub open spec fn sequentially_indexed(entries: Seq<BindGroupLayoutEntry>) -> bool {
    forall|i: int| 0 <= i < entries.len() ==> (#[trigger] entries[i].binding) == i
}

/// A layout built by appending n slots without explicit binding indices
/// carries binding indices 0 .. n-1, in call order: the builder gives an
/// appended slot the index `prefix.len()`, and that keeps the sequence
/// sequentially indexed.
pub proof fn lemma_entry_indices_sequential(
    prefix: Seq<BindGroupLayoutEntry>,
    e: BindGroupLayoutEntry,
)
    requires
        sequentially_indexed(prefix),
        e.binding == prefix.len(),
    ensures
        sequentially_indexed(prefix.push(e)),
{
    assert forall|i: int|
        0 <= i < prefix.push(e).len() implies (#[trigger] prefix.push(e)[i].binding) == i by {
        if i < prefix.len() {
            assert(prefix.push(e)[i] == prefix[i]);
        } else {
            assert(prefix.push(e)[i] == e);
        }
    }
}

/// The slots a fresh layout builder accumulates over a sequence of
/// `with_entry` calls: each call appends the built entry, with the count
/// of slots already present as the fallback binding index.
pub open spec fn accumulated_entries(builders: Seq<BindGroupLayoutEntryBuilder>) -> Seq<
    BindGroupLayoutEntry,
>
    decreases builders.len(),
{
    if builders.len() == 0 {
        Seq::empty()
    } else {
        accumulated_entries(builders.drop_last()).push(
            builders.last().spec_built((builders.len() - 1) as u32),
        )
    }
}

/// A layout built from a fresh builder by n `with_entry` calls, none of
/// which gives an explicit binding index, assigns binding indices
/// 0 .. n-1 in call order.
pub proof fn lemma_auto_entries_sequentially_indexed(builders: Seq<BindGroupLayoutEntryBuilder>)
    requires
        builders.len() <= u32::MAX,
        forall|i: int| 0 <= i < builders.len() ==> (#[trigger] builders[i]).binding is None,
    ensures
        accumulated_entries(builders).len() == builders.len(),
        sequentially_indexed(accumulated_entries(builders)),
    decreases builders.len(),
{
    if builders.len() > 0 {
        let prefix = builders.drop_last();
        assert forall|i: int| 0 <= i < prefix.len() implies (#[trigger] prefix[i]).binding
            is None by {
            assert(prefix[i] == builders[i]);
        }
        lemma_auto_entries_sequentially_indexed(prefix);
        let last = builders.last().spec_built((builders.len() - 1) as u32);
        assert(last.binding == builders.len() - 1);
        lemma_entry_indices_sequential(accumulated_entries(prefix), last);
    }
}

/// A created bind group layout: its identity and its slots, in order.
pub struct BindGroupLayout {
    pub id: u64,
    pub entries: Vec<BindGroupLayoutEntry>,
}

impl BindGroupLayout {
    /// Wrap an already-created layout.
    pub fn new(id: u64, entries: Vec<BindGroupLayoutEntry>) -> (r: BindGroupLayout)
        ensures
            r.id == id,
            r.entries@ == entries@,
    {
        BindGroupLayout { id, entries }
    }
}

/// Accumulates layout slots in call order.
pub struct BindGroupLayoutBuilder {
    pub entries: Vec<BindGroupLayoutEntry>,
    pub label: Option<String>,
}

impl BindGroupLayoutBuilder {
    pub fn new() -> (r: BindGroupLayoutBuilder)
        ensures
            r.entries@ =~= Seq::<BindGroupLayoutEntry>::empty(),
            r.label is None,
    {
        BindGroupLayoutBuilder { entries: Vec::new(), label: None }
    }

    pub fn with_label(self, label: String) -> (r: BindGroupLayoutBuilder)
        ensures
            r.entries@ == self.entries@,
            r.label == Some(label),
    {
        BindGroupLayoutBuilder { label: Some(label), ..self }
    }

    /// Append a slot; if it carries no explicit binding index it gets the
    /// next unused one, the number of slots already present.
    pub fn with_entry(self, entry: BindGroupLayoutEntryBuilder) -> (r: BindGroupLayoutBuilder)
        requires
            self.entries@.len() < u32::MAX,
        ensures
            r.entries@ == self.entries@.push(entry.spec_built(self.entries@.len() as u32)),
            r.label == self.label,
    {
        let auto_binding = self.entries.len() as u32;
        let mut entries = self.entries;
        entries.push(entry.with_binding_if_none(auto_binding).build());
        BindGroupLayoutBuilder { entries, label: self.label }
    }

    /// Append an already-built slot exactly as given.
    pub fn with_raw_entry(self, entry: BindGroupLayoutEntry) -> (r: BindGroupLayoutBuilder)
        ensures
            r.entries@ == self.entries@.push(entry),
            r.label == self.label,
    {
        let mut entries = self.entries;
        entries.push(entry);
        BindGroupLayoutBuilder { entries, label: self.label }
    }

    /// Append a defaulted slot: a uniform buffer visible to every stage.
    pub fn with_uniform_entry(self) -> (r: BindGroupLayoutBuilder)
        requires
            self.entries@.len() < u32::MAX,
        ensures
            r.entries@ == self.entries@.push(spec_uniform_entry(self.entries@.len() as u32)),
            r.label == self.label,
    {
        self.with_entry(BindGroupLayoutEntryBuilder::new())
    }

    /// Append a read-only storage-buffer slot visible to every stage.
    pub fn with_read_only_storage_entry(self) -> (r: BindGroupLayoutBuilder)
        requires
            self.entries@.len() < u32::MAX,
        ensures
            r.entries@ == self.entries@.push(
                spec_read_only_storage_entry(self.entries@.len() as u32),
            ),
            r.label == self.label,
    {
        self.with_entry(
            BindGroupLayoutEntryBuilder::new().with_ty(BindingType::read_only_storage_buffer()),
        )
    }

    /// Append a writable storage-buffer slot visible to compute only.
    pub fn with_compute_writable_storage_entry(self) -> (r: BindGroupLayoutBuilder)
        requires
            self.entries@.len() < u32::MAX,
        ensures
            r.entries@ == self.entries@.push(
                spec_compute_writable_storage_entry(self.entries@.len() as u32),
            ),
            r.label == self.label,
    {
        self.with_entry(
            BindGroupLayoutEntryBuilder::new().with_visibility(ShaderStages::compute()).with_ty(
                BindingType::writable_storage_buffer(),
            ),
        )
    }

    /// Create the layout on the device with the accumulated slots.
    pub fn build(self, wgpu: &mut WGPUController) -> (r: BindGroupLayout)
        requires
            old(wgpu).device.ids_left() >= 1,
        ensures
            r.id == old(wgpu).device.next_id,
            r.entries@ == self.entries@,
            final(wgpu).device.next_id == old(wgpu).device.next_id + 1,
            final(wgpu).surface == old(wgpu).surface,
            final(wgpu).queue == old(wgpu).queue,
            final(wgpu).config == old(wgpu).config,
    {
        let id = wgpu.device.fresh_id();
        BindGroupLayout { id, entries: self.entries }
    }
}

impl BindGroupLayout {
    /// Start building a group bound to this layout.
    pub fn build_group(&self) -> (r: BindGroupBuilder)
        ensures
            r.layout is Some,
            r.layout.unwrap().id == self.id,
            r.layout.unwrap().entries@ == self.entries@,
            r.entries@ =~= Seq::<BindGroupEntry>::empty(),
            r.label is None,
    {
        BindGroupBuilder::new().with_layout(self)
    }
}

/// The concrete resource bound into one group slot, by identity.
#[derive(Clone, Copy, PartialEq, Eq, Structural, Debug)]
pub enum BindingResource {
    Buffer { buffer: u64 },
    TextureView { view: u64 },
    Sampler { sampler: u64 },
}

/// One slot of a bind group: a binding index and the bound resource.
#[derive(Clone, Copy, PartialEq, Eq, Structural, Debug)]
pub struct BindGroupEntry {
    pub binding: u32,
    pub resource: BindingResource,
}

/// Does a resource fit a layout slot of this type?
pub open spec fn binding_kind_matches(ty: BindingType, resource: BindingResource) -> bool {
    match ty {
        BindingType::Buffer { .. } => resource is Buffer,
        BindingType::Texture { .. } => resource is TextureView,
        BindingType::Sampler(_) => resource is Sampler,
    }
}

/// A group's entries match a layout slot for slot: same count, the same
/// binding indices in the same order, and a fitting resource kind in each.
pub open spec fn resources_match_layout(
    layout: Seq<BindGroupLayoutEntry>,
    entries: Seq<BindGroupEntry>,
) -> bool {
    &&& layout.len() == entries.len()
    &&& forall|i: int|
        0 <= i < layout.len() ==> (#[trigger] entries[i].binding) == layout[i].binding
    &&& forall|i: int|
        0 <= i < layout.len() ==> binding_kind_matches(
            (#[trigger] layout[i]).ty,
            entries[i].resource,
        )
}

/// A created bind group: its identity, its layout's identity, and what is
/// bound at each slot.
pub struct BindGroup {
    pub id: u64,
    pub layout: u64,
    pub entries: Vec<BindGroupEntry>,
}

/// Accumulates concrete resources for the slots of a layout, assigning
/// binding indices in call order.
pub struct BindGroupBuilder {
    pub layout: Option<BindGroupLayout>,
    pub label: Option<String>,
    pub entries: Vec<BindGroupEntry>,
}

impl BindGroupBuilder {
    pub fn new() -> (r: BindGroupBuilder)
        ensures
            r.layout is None,
            r.label is None,
            r.entries@ =~= Seq::<BindGroupEntry>::empty(),
    {
        BindGroupBuilder { layout: None, label: None, entries: Vec::new() }
    }

    pub fn with_layout(self, layout: &BindGroupLayout) -> (r: BindGroupBuilder)
        ensures
            r.layout is Some,
            r.layout.unwrap().id == layout.id,
            r.layout.unwrap().entries@ == layout.entries@,
            r.label == self.label,
            r.entries@ == self.entries@,
    {
        BindGroupBuilder {
            layout: Some(
                BindGroupLayout { id: layout.id, entries: slice_to_vec(layout.entries.as_slice()) },
            ),
            label: self.label,
            entries: self.entries,
        }
    }

    pub fn with_label(self, label: String) -> (r: BindGroupBuilder)
        ensures
            r.label == Some(label),
            r.layout == self.layout,
            r.entries@ == self.entries@,
    {
        BindGroupBuilder { label: Some(label), layout: self.layout, entries: self.entries }
    }

    /// Bind a buffer at the next unused binding index.
    pub fn with_buffer_entry<B: BufferResource>(self, buffer: &B) -> (r: BindGroupBuilder)
        requires
            self.entries@.len() < u32::MAX,
        ensures
            r.entries@ == self.entries@.push(
                (BindGroupEntry {
                    binding: self.entries@.len() as u32,
                    resource: BindingResource::Buffer { buffer: buffer.spec_resource_id() },
                }),
            ),
            r.layout == self.layout,
            r.label == self.label,
    {
        let binding = self.entries.len() as u32;
        let mut entries = self.entries;
        entries.push(
            BindGroupEntry {
                binding,
                resource: BindingResource::Buffer { buffer: buffer.resource_id() },
            },
        );
        BindGroupBuilder { layout: self.layout, label: self.label, entries }
    }

    /// Bind a texture view at the next unused binding index.
    pub fn with_texture_entry(self, texture_view: &TextureView) -> (r: BindGroupBuilder)
        requires
            self.entries@.len() < u32::MAX,
        ensures
            r.entries@ == self.entries@.push(
                (BindGroupEntry {
                    binding: self.entries@.len() as u32,
                    resource: BindingResource::TextureView { view: texture_view.id },
                }),
            ),
            r.layout == self.layout,
            r.label == self.label,
    {
        let binding = self.entries.len() as u32;
        let mut entries = self.entries;
        entries.push(
            BindGroupEntry {
                binding,
                resource: BindingResource::TextureView { view: texture_view.id },
            },
        );
        BindGroupBuilder { layout: self.layout, label: self.label, entries }
    }

    /// Append a slot exactly as given.
    pub fn with_raw_entry(self, entry: BindGroupEntry) -> (r: BindGroupBuilder)
        ensures
            r.entries@ == self.entries@.push(entry),
            r.layout == self.layout,
            r.label == self.label,
    {
        let mut entries = self.entries;
        entries.push(entry);
        BindGroupBuilder { layout: self.layout, label: self.label, entries }
    }

    /// Create the group. A layout must have been supplied, and the bound
    /// resources must match it slot for slot; anything else is a
    /// programmer error the device would reject.
    pub fn build(self, wgpu: &mut WGPUController) -> (r: BindGroup)
        requires
            self.layout is Some,
            resources_match_layout(self.layout.unwrap().entries@, self.entries@),
            old(wgpu).device.ids_left() >= 1,
        ensures
            r.id == old(wgpu).device.next_id,
            r.layout == self.layout.unwrap().id,
            r.entries@ == self.entries@,
            final(wgpu).device.next_id == old(wgpu).device.next_id + 1,
            final(wgpu).surface == old(wgpu).surface,
            final(wgpu).queue == old(wgpu).queue,
            final(wgpu).config == old(wgpu).config,
    {
        let id = wgpu.device.fresh_id();
        let layout = match self.layout {
            Some(l) => l,
            None => unreached(),
        };
        BindGroup { id, layout: layout.id, entries: self.entries }
    }
}

/// A layout and a group created against it, kept together.
pub struct BindGroupWithLayout {
    pub layout: BindGroupLayout,
    pub group: BindGroup,
}

impl BindGroupWithLayout {
    pub fn new(layout: BindGroupLayout, group: BindGroup) -> (r: BindGroupWithLayout)
        ensures
            r.layout.id == layout.id,
            r.layout.entries@ == layout.entries@,
            r.group.id == group.id,
            r.group.layout == group.layout,
            r.group.entries@ == group.entries@,
    {
        BindGroupWithLayout { layout, group }
    }
}

/// Builds a layout and its group in lock-step, so slot index assignment
/// never desynchronizes between the two.
pub struct BindGroupWithLayoutBuilder {
    pub layout_builder: BindGroupLayoutBuilder,
    pub group_builder: BindGroupBuilder,
}

impl BindGroupWithLayoutBuilder {
    /// The lock-step invariant: no layout chosen yet on the group side, and
    /// the accumulated group entries match the accumulated layout slots.
    pub open spec fn in_step(self) -> bool {
        &&& self.group_builder.layout is None
        &&& resources_match_layout(self.layout_builder.entries@, self.group_builder.entries@)
    }

    pub fn new() -> (r: BindGroupWithLayoutBuilder)
        ensures
            r.in_step(),
            r.layout_builder.entries@ =~= Seq::<BindGroupLayoutEntry>::empty(),
            r.layout_builder.label is None,
            r.group_builder.entries@ =~= Seq::<BindGroupEntry>::empty(),
            r.group_builder.label is None,
    {
        BindGroupWithLayoutBuilder {
            layout_builder: BindGroupLayoutBuilder::new(),
            group_builder: BindGroupBuilder::new(),
        }
    }

    /// Give both sides the same label.
    pub fn with_label(self, label: String) -> (r: BindGroupWithLayoutBuilder)
        ensures
            r.layout_builder.entries@ == self.layout_builder.entries@,
            r.layout_builder.label == Some(label),
            r.group_builder.entries@ == self.group_builder.entries@,
            r.group_builder.label == Some(label),
            r.group_builder.layout == self.group_builder.layout,
            self.in_step() ==> r.in_step(),
    {
        let group_label = label.clone();
        BindGroupWithLayoutBuilder {
            layout_builder: self.layout_builder.with_label(label),
            group_builder: self.group_builder.with_label(group_label),
        }
    }

    /// Add a buffer slot described by `entry` and bind `buffer` to it. An
    /// explicit binding index on `entry` must equal the next one in line,
    /// or the two sides would desynchronize.
    pub fn with_buffer_entry<B: BufferResource>(
        self,
        entry: BindGroupLayoutEntryBuilder,
        buffer: &B,
    ) -> (r: BindGroupWithLayoutBuilder)
        requires
            self.in_step(),
            self.layout_builder.entries@.len() < u32::MAX,
            entry.binding is Some ==> entry.binding == Some(
                self.layout_builder.entries@.len() as u32,
            ),
            entry.ty is Some ==> entry.ty.unwrap() is Buffer,
        ensures
            r.in_step(),
            r.layout_builder.entries@ == self.layout_builder.entries@.push(
                entry.spec_built(self.layout_builder.entries@.len() as u32),
            ),
            r.layout_builder.label == self.layout_builder.label,
            r.group_builder.entries@ == self.group_builder.entries@.push(
                (BindGroupEntry {
                    binding: self.group_builder.entries@.len() as u32,
                    resource: BindingResource::Buffer { buffer: buffer.spec_resource_id() },
                }),
            ),
            r.group_builder.label == self.group_builder.label,
    {
        BindGroupWithLayoutBuilder {
            layout_builder: self.layout_builder.with_entry(entry),
            group_builder: self.group_builder.with_buffer_entry(buffer),
        }
    }

    /// Add a slot and its resource exactly as given; they must fit each
    /// other and carry the same binding index.
    pub fn with_raw_entry(
        self,
        layout_entry: BindGroupLayoutEntry,
        entry: BindGroupEntry,
    ) -> (r: BindGroupWithLayoutBuilder)
        requires
            self.in_step(),
            entry.binding == layout_entry.binding,
            binding_kind_matches(layout_entry.ty, entry.resource),
        ensures
            r.in_step(),
            r.layout_builder.entries@ == self.layout_builder.entries@.push(layout_entry),
            r.layout_builder.label == self.layout_builder.label,
            r.group_builder.entries@ == self.group_builder.entries@.push(entry),
            r.group_builder.label == self.group_builder.label,
    {
        BindGroupWithLayoutBuilder {
            layout_builder: self.layout_builder.with_raw_entry(layout_entry),
            group_builder: self.group_builder.with_raw_entry(entry),
        }
    }

    /// Add a fragment-visible, non-filterable 2D texture slot and bind the
    /// view to it.
    pub fn with_texture_entry(self, texture_view: &TextureView) -> (r: BindGroupWithLayoutBuilder)
        requires
            self.in_step(),
            self.layout_builder.entries@.len() < u32::MAX,
        ensures
            r.in_step(),
            r.layout_builder.entries@ == self.layout_builder.entries@.push(
                spec_texture_entry(self.layout_builder.entries@.len() as u32),
            ),
            r.layout_builder.label == self.layout_builder.label,
            r.group_builder.entries@ == self.group_builder.entries@.push(
                (BindGroupEntry {
                    binding: self.group_builder.entries@.len() as u32,
                    resource: BindingResource::TextureView { view: texture_view.id },
                }),
            ),
            r.group_builder.label == self.group_builder.label,
    {
        BindGroupWithLayoutBuilder {
            layout_builder: self.layout_builder.with_entry(
                BindGroupLayoutEntryBuilder::new().with_visibility(ShaderStages::fragment())
                    .with_ty(
                    BindingType::Texture {
                        sample_type: TextureSampleType::Float { filterable: false },
                        view_dimension: TextureViewDimension::D2,
                        multisampled: false,
                    },
                ),
            ),
            group_builder: self.group_builder.with_texture_entry(texture_view),
        }
    }

    /// Add a defaulted uniform-buffer slot and bind the buffer to it.
    pub fn with_uniform_buffer_entry<B: BufferResource>(self, buffer: &B) -> (r:
        BindGroupWithLayoutBuilder)
        requires
            self.in_step(),
            self.layout_builder.entries@.len() < u32::MAX,
        ensures
            r.in_step(),
            r.layout_builder.entries@ == self.layout_builder.entries@.push(
                spec_uniform_entry(self.layout_builder.entries@.len() as u32),
            ),
            r.layout_builder.label == self.layout_builder.label,
            r.group_builder.entries@ == self.group_builder.entries@.push(
                (BindGroupEntry {
                    binding: self.group_builder.entries@.len() as u32,
                    resource: BindingResource::Buffer { buffer: buffer.spec_resource_id() },
                }),
            ),
            r.group_builder.label == self.group_builder.label,
    {
        BindGroupWithLayoutBuilder {
            layout_builder: self.layout_builder.with_uniform_entry(),
            group_builder: self.group_builder.with_buffer_entry(buffer),
        }
    }

    /// Add a read-only storage slot and bind the buffer to it.
    pub fn with_read_only_storage_buffer_entry<B: BufferResource>(self, buffer: &B) -> (r:
        BindGroupWithLayoutBuilder)
        requires
            self.in_step(),
            self.layout_builder.entries@.len() < u32::MAX,
        ensures
            r.in_step(),
            r.layout_builder.entries@ == self.layout_builder.entries@.push(
                spec_read_only_storage_entry(self.layout_builder.entries@.len() as u32),
            ),
            r.layout_builder.label == self.layout_builder.label,
            r.group_builder.entries@ == self.group_builder.entries@.push(
                (BindGroupEntry {
                    binding: self.group_builder.entries@.len() as u32,
                    resource: BindingResource::Buffer { buffer: buffer.spec_resource_id() },
                }),
            ),
            r.group_builder.label == self.group_builder.label,
    {
        BindGroupWithLayoutBuilder {
            layout_builder: self.layout_builder.with_read_only_storage_entry(),
            group_builder: self.group_builder.with_buffer_entry(buffer),
        }
    }

    /// Add a compute-writable storage slot and bind the buffer to it.
    pub fn with_compute_writable_storage_buffer_entry<B: BufferResource>(self, buffer: &B) -> (r:
        BindGroupWithLayoutBuilder)
        requires
            self.in_step(),
            self.layout_builder.entries@.len() < u32::MAX,
        ensures
            r.in_step(),
            r.layout_builder.entries@ == self.layout_builder.entries@.push(
                spec_compute_writable_storage_entry(self.layout_builder.entries@.len() as u32),
            ),
            r.layout_builder.label == self.layout_builder.label,
            r.group_builder.entries@ == self.group_builder.entries@.push(
                (BindGroupEntry {
                    binding: self.group_builder.entries@.len() as u32,
                    resource: BindingResource::Buffer { buffer: buffer.spec_resource_id() },
                }),
            ),
            r.group_builder.label == self.group_builder.label,
    {
        BindGroupWithLayoutBuilder {
            layout_builder: self.layout_builder.with_compute_writable_storage_entry(),
            group_builder: self.group_builder.with_buffer_entry(buffer),
        }
    }

    /// Create the layout, then the group against it. The lock-step
    /// invariant discharges the group's layout-match obligation.
    pub fn build(self, wgpu: &mut WGPUController) -> (r: BindGroupWithLayout)
        requires
            self.in_step(),
            old(wgpu).device.ids_left() >= 2,
        ensures
            r.layout.id == old(wgpu).device.next_id,
            r.layout.entries@ == self.layout_builder.entries@,
            r.group.id == old(wgpu).device.next_id + 1,
            r.group.layout == r.layout.id,
            r.group.entries@ == self.group_builder.entries@,
            final(wgpu).device.next_id == old(wgpu).device.next_id + 2,
            final(wgpu).surface == old(wgpu).surface,
            final(wgpu).queue == old(wgpu).queue,
            final(wgpu).config == old(wgpu).config,
    {
        let layout = self.layout_builder.build(wgpu);
        let group = self.group_builder.with_layout(&layout).build(wgpu);
        BindGroupWithLayout::new(layout, group)
    }
}

} // verus!
