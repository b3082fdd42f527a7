//! Render and compute pipelines: immutable descriptor records built once
//! from bind-group layouts, vertex layouts and shader entry points.

use vstd::prelude::*;

use crate::wgpu::bind::BindGroupLayout;
use crate::wgpu::controller::{ShaderModule, WGPUController};
use crate::wgpu::render_pass::IndexFormat;
use crate::wgpu::texture::TextureFormat;

verus! {

/// The shape of one vertex attribute as shaders see it.
#[derive(Clone, Copy, PartialEq, Eq, Structural, Debug)]
pub enum VertexFormat {
    Float32,
    Float32x2,
    Float32x3,
    Float32x4,
    Uint32,
    Uint32x2,
    Uint32x3,
    Uint32x4,
    Sint32,
    Sint32x2,
    Sint32x3,
    Sint32x4,
}

/// The byte size of one attribute of this format.
pub open spec fn spec_vertex_format_size(f: VertexFormat) -> nat {
    match f {
        VertexFormat::Float32 => 4,
        VertexFormat::Float32x2 => 8,
        VertexFormat::Float32x3 => 12,
        VertexFormat::Float32x4 => 16,
        VertexFormat::Uint32 => 4,
        VertexFormat::Uint32x2 => 8,
        VertexFormat::Uint32x3 => 12,
        VertexFormat::Uint32x4 => 16,
        VertexFormat::Sint32 => 4,
        VertexFormat::Sint32x2 => 8,
        VertexFormat::Sint32x3 => 12,
        VertexFormat::Sint32x4 => 16,
    }
}

/// The byte offset of attribute `i` when attributes of the given formats
/// are packed back to back from offset 0.
pub open spec fn spec_packed_offset(formats: Seq<VertexFormat>, i: int) -> int
    decreases i,
{
    if i <= 0 {
        0
    } else {
        spec_packed_offset(formats, i - 1) + spec_vertex_format_size(formats[i - 1])
    }
}

impl VertexFormat {
    /// The byte size of one attribute of this format.
    pub fn size(&self) -> (r: u64)
        ensures
            r as nat == spec_vertex_format_size(*self),
    {
        match self {
            VertexFormat::Float32 => 4,
            VertexFormat::Float32x2 => 8,
            VertexFormat::Float32x3 => 12,
            VertexFormat::Float32x4 => 16,
            VertexFormat::Uint32 => 4,
            VertexFormat::Uint32x2 => 8,
            VertexFormat::Uint32x3 => 12,
            VertexFormat::Uint32x4 => 16,
            VertexFormat::Sint32 => 4,
            VertexFormat::Sint32x2 => 8,
            VertexFormat::Sint32x3 => 12,
            VertexFormat::Sint32x4 => 16,
        }
    }
}

/// One attribute of a vertex buffer layout.
#[derive(Clone, Copy, PartialEq, Eq, Structural, Debug)]
pub struct VertexAttribute {
    pub format: VertexFormat,
    pub offset: u64,
    pub shader_location: u32,
}

/// Whether a vertex buffer advances per vertex or per instance.
#[derive(Clone, Copy, PartialEq, Eq, Structural, Debug)]
pub enum VertexStepMode {
    Vertex,
    Instance,
}

/// How one bound vertex buffer is laid out.
pub struct VertexBufferLayout {
    pub array_stride: u64,
    pub step_mode: VertexStepMode,
    pub attributes: Vec<VertexAttribute>,
}

/// Attributes packed back to back from offset 0, with consecutive shader
/// locations starting at `first_shader_location`.
pub fn vertex_attr_array(first_shader_location: u32, formats: &[VertexFormat]) -> (r: Vec<
    VertexAttribute,
>)
    requires
        first_shader_location + formats@.len() <= u32::MAX,
        16 * formats@.len() <= u64::MAX,
    ensures
        r@.len() == formats@.len(),
        forall|i: int|
            0 <= i < formats@.len() ==> {
                &&& (#[trigger] r@[i]).format == formats@[i]
                &&& r@[i].shader_location == first_shader_location + i
                &&& r@[i].offset as int == spec_packed_offset(formats@, i)
            },
{
    let mut r: Vec<VertexAttribute> = Vec::new();
    let mut offset: u64 = 0;
    let mut k: usize = 0;
    proof {
        assert(spec_packed_offset(formats@, 0) == 0);
    }
    while k < formats.len()
        invariant
            first_shader_location + formats@.len() <= u32::MAX,
            16 * formats@.len() <= u64::MAX,
            k <= formats@.len(),
            r@.len() == k,
            offset as int == spec_packed_offset(formats@, k as int),
            offset <= 16 * k,
            forall|i: int|
                0 <= i < k ==> {
                    &&& (#[trigger] r@[i]).format == formats@[i]
                    &&& r@[i].shader_location == first_shader_location + i
                    &&& r@[i].offset as int == spec_packed_offset(formats@, i)
                },
        decreases formats@.len() - k,
    {
        let format = formats[k];
        r.push(
            VertexAttribute {
                format,
                offset,
                shader_location: first_shader_location + k as u32,
            },
        );
        offset = offset + format.size();
        k = k + 1;
    }
    r
}

#[derive(Clone, Copy, PartialEq, Eq, Structural, Debug)]
pub enum PrimitiveTopology {
    PointList,
    LineList,
    LineStrip,
    TriangleList,
    TriangleStrip,
}

#[derive(Clone, Copy, PartialEq, Eq, Structural, Debug)]
pub enum FrontFace {
    Ccw,
    Cw,
}

#[derive(Clone, Copy, PartialEq, Eq, Structural, Debug)]
pub enum Face {
    Front,
    Back,
}

#[derive(Clone, Copy, PartialEq, Eq, Structural, Debug)]
pub enum PolygonMode {
    Fill,
    Line,
    Point,
}

/// Fixed-function primitive assembly state.
#[derive(Clone, Copy, PartialEq, Eq, Structural, Debug)]
pub struct PrimitiveState {
    pub topology: PrimitiveTopology,
    pub strip_index_format: Option<IndexFormat>,
    pub front_face: FrontFace,
    pub cull_mode: Option<Face>,
    pub polygon_mode: PolygonMode,
    pub unclipped_depth: bool,
    pub conservative: bool,
}

/// The default primitive state: an uncull'd triangle list.
pub open spec fn spec_default_primitive_state() -> PrimitiveState {
    PrimitiveState {
        topology: PrimitiveTopology::TriangleList,
        strip_index_format: None,
        front_face: FrontFace::Ccw,
        cull_mode: None,
        polygon_mode: PolygonMode::Fill,
        unclipped_depth: false,
        conservative: false,
    }
}

#[derive(Clone, Copy, PartialEq, Eq, Structural, Debug)]
pub enum BlendFactor {
    Zero,
    One,
    Src,
    OneMinusSrc,
    SrcAlpha,
    OneMinusSrcAlpha,
    Dst,
    OneMinusDst,
    DstAlpha,
    OneMinusDstAlpha,
}

#[derive(Clone, Copy, PartialEq, Eq, Structural, Debug)]
pub enum BlendOperation {
    Add,
    Subtract,
    ReverseSubtract,
    Min,
    Max,
}

#[derive(Clone, Copy, PartialEq, Eq, Structural, Debug)]
pub struct BlendComponent {
    pub src_factor: BlendFactor,
    pub dst_factor: BlendFactor,
    pub operation: BlendOperation,
}

/// How a fragment's color combines with the target's current color.
#[derive(Clone, Copy, PartialEq, Eq, Structural, Debug)]
pub struct BlendState {
    pub color: BlendComponent,
    pub alpha: BlendComponent,
}

/// The component that overwrites the destination outright.
pub open spec fn spec_replace_component() -> BlendComponent {
    BlendComponent {
        src_factor: BlendFactor::One,
        dst_factor: BlendFactor::Zero,
        operation: BlendOperation::Add,
    }
}

impl BlendState {
    /// Overwrite the destination with the source color and alpha.
    pub fn replace() -> (r: BlendState)
        ensures
            r == (BlendState { color: spec_replace_component(), alpha: spec_replace_component() }),
    {
        let component = BlendComponent {
            src_factor: BlendFactor::One,
            dst_factor: BlendFactor::Zero,
            operation: BlendOperation::Add,
        };
        BlendState { color: component, alpha: component }
    }
}

/// Which color channels a pipeline may write.
#[derive(Clone, Copy, PartialEq, Eq, Structural, Debug)]
pub struct ColorWrites {
    pub r: bool,
    pub g: bool,
    pub b: bool,
    pub a: bool,
}

impl ColorWrites {
    pub fn all() -> (r: ColorWrites)
        ensures
            r == (ColorWrites { r: true, g: true, b: true, a: true }),
    {
        ColorWrites { r: true, g: true, b: true, a: true }
    }
}

/// One color target of a render pipeline's fragment stage.
#[derive(Clone, Copy, PartialEq, Eq, Structural, Debug)]
pub struct ColorTargetState {
    pub format: TextureFormat,
    pub blend: Option<BlendState>,
    pub write_mask: ColorWrites,
}

#[derive(Clone, Copy, PartialEq, Eq, Structural, Debug)]
pub enum CompareFunction {
    Never,
    Less,
    Equal,
    LessEqual,
    Greater,
    NotEqual,
    GreaterEqual,
    Always,
}

/// Depth testing state; the stencil side is left at the device default.
#[derive(Clone, Copy, PartialEq, Eq, Structural, Debug)]
pub struct DepthStencilState {
    pub format: TextureFormat,
    pub depth_write_enabled: bool,
    pub depth_compare: CompareFunction,
}

#[derive(Clone, Copy, PartialEq, Eq, Structural, Debug)]
pub struct MultisampleState {
    pub count: u32,
    pub mask: u64,
    pub alpha_to_coverage_enabled: bool,
}

/// The default multisample state: one sample, every bit of the mask set.
pub open spec fn spec_default_multisample_state() -> MultisampleState {
    MultisampleState { count: 1, mask: u64::MAX, alpha_to_coverage_enabled: false }
}

impl MultisampleState {
    pub fn default_state() -> (r: MultisampleState)
        ensures
            r == spec_default_multisample_state(),
    {
        MultisampleState { count: 1, mask: u64::MAX, alpha_to_coverage_enabled: false }
    }
}

/// Options threaded into pipeline compilation. Each constant override
/// pairs a shader constant's name with the IEEE-754 bit pattern of its
/// 64-bit floating-point value.
pub struct PipelineCompilationOptions {
    pub constants: Vec<(String, u64)>,
    pub zero_initialize_workgroup_memory: bool,
}

impl PipelineCompilationOptions {
    /// Whether two option values say the same thing.
    pub open spec fn equivalent(self, other: PipelineCompilationOptions) -> bool {
        &&& self.constants@ == other.constants@
        &&& self.zero_initialize_workgroup_memory == other.zero_initialize_workgroup_memory
    }

    /// An equal copy.
    pub fn duplicate(&self) -> (r: PipelineCompilationOptions)
        ensures
            r.equivalent(*self),
    {
        let mut constants: Vec<(String, u64)> = Vec::new();
        let mut k: usize = 0;
        while k < self.constants.len()
            invariant
                k <= self.constants@.len(),
                constants@ =~= self.constants@.subrange(0, k as int),
            decreases self.constants@.len() - k,
        {
            let pair = &self.constants[k];
            constants.push((pair.0.clone(), pair.1));
            proof {
                assert(constants@ =~= self.constants@.subrange(0, k + 1 as int));
            }
            k = k + 1;
        }
        proof {
            assert(self.constants@.subrange(0, self.constants@.len() as int) =~= self.constants@);
        }
        PipelineCompilationOptions {
            constants,
            zero_initialize_workgroup_memory: self.zero_initialize_workgroup_memory,
        }
    }
}

/// The vertex stage of a render pipeline: a shader module identity, an
/// entry point, and the layouts of the bound vertex buffers.
pub struct VertexState {
    pub module: u64,
    pub entry_point: Option<String>,
    pub buffers: Vec<VertexBufferLayout>,
}

/// The fragment stage: a module identity, an entry point and the color
/// targets written.
pub struct FragmentState {
    pub module: u64,
    pub entry_point: Option<String>,
    pub targets: Vec<ColorTargetState>,
}

/// An immutable render pipeline. To change any of this, build a new one.
pub struct RenderPipeline {
    pub id: u64,
    pub layouts: Vec<u64>,
    pub vertex: VertexState,
    pub fragment: Option<FragmentState>,
    pub primitive: PrimitiveState,
    pub depth_stencil: Option<DepthStencilState>,
    pub multisample: MultisampleState,
    pub multiview: Option<u32>,
    /// The compilation options each stage was built with, as configured.
    pub vertex_compilation_options: Option<PipelineCompilationOptions>,
    pub fragment_compilation_options: Option<PipelineCompilationOptions>,
}

/// Accumulates everything a render pipeline needs. The order in which
/// bind-group layouts are added defines their group indices; the order of
/// vertex buffer layouts defines the vertex-buffer slots.
pub struct RenderPipelineBuilder {
    pub label: Option<String>,
    pub bind_group_layouts: Vec<u64>,
    pub vertex_buffer_layouts: Vec<VertexBufferLayout>,
    pub vertex: Option<VertexState>,
    pub fragment: Option<FragmentState>,
    pub primitive: Option<PrimitiveState>,
    pub depth_stencil: Option<DepthStencilState>,
    pub multisample: Option<MultisampleState>,
    pub blend_state: Option<BlendState>,
    pub multiview: Option<u32>,
    pub texture_format: Option<TextureFormat>,
    pub fragment_compilation_options: Option<PipelineCompilationOptions>,
    pub vertex_compilation_options: Option<PipelineCompilationOptions>,
}

/// The sequence of vertex-buffer-layout views of a builder's accumulated
/// layouts, for stating that they carry over unchanged.
pub open spec fn spec_layout_views(layouts: Seq<VertexBufferLayout>) -> Seq<
    (u64, VertexStepMode, Seq<VertexAttribute>),
> {
    layouts.map(|i: int, l: VertexBufferLayout| (l.array_stride, l.step_mode, l.attributes@))
}

impl RenderPipelineBuilder {
    /// The state a fresh builder starts in: nothing configured.
    pub open spec fn is_fresh(self) -> bool {
        &&& self.label is None
        &&& self.bind_group_layouts@ =~= Seq::<u64>::empty()
        &&& self.vertex_buffer_layouts@.len() == 0
        &&& self.vertex is None
        &&& self.fragment is None
        &&& self.primitive is None
        &&& self.depth_stencil is None
        &&& self.multisample is None
        &&& self.blend_state is None
        &&& self.multiview is None
        &&& self.texture_format is None
        &&& self.fragment_compilation_options is None
        &&& self.vertex_compilation_options is None
    }

    pub fn new() -> (r: RenderPipelineBuilder)
        ensures
            r.is_fresh(),
    {
        RenderPipelineBuilder {
            label: None,
            bind_group_layouts: Vec::new(),
            vertex_buffer_layouts: Vec::new(),
            vertex: None,
            fragment: None,
            primitive: None,
            depth_stencil: None,
            multisample: None,
            blend_state: None,
            multiview: None,
            texture_format: None,
            fragment_compilation_options: None,
            vertex_compilation_options: None,
        }
    }

    pub fn with_label(self, label: String) -> (r: RenderPipelineBuilder)
        ensures
            r == (RenderPipelineBuilder { label: Some(label), ..self }),
    {
        RenderPipelineBuilder { label: Some(label), ..self }
    }

    /// Append a bind-group layout; its position is the group index shaders
    /// use for it.
    pub fn add_bind_group_layout(self, layout: &BindGroupLayout) -> (r: RenderPipelineBuilder)
        ensures
            r.bind_group_layouts@ == self.bind_group_layouts@.push(layout.id),
            r.label == self.label,
            r.vertex_buffer_layouts == self.vertex_buffer_layouts,
            r.vertex == self.vertex,
            r.fragment == self.fragment,
            r.primitive == self.primitive,
            r.depth_stencil == self.depth_stencil,
            r.multisample == self.multisample,
            r.blend_state == self.blend_state,
            r.multiview == self.multiview,
            r.texture_format == self.texture_format,
            r.fragment_compilation_options == self.fragment_compilation_options,
            r.vertex_compilation_options == self.vertex_compilation_options,
    {
        let mut bind_group_layouts = self.bind_group_layouts;
        bind_group_layouts.push(layout.id);
        RenderPipelineBuilder { bind_group_layouts, ..self }
    }

    /// Append a vertex buffer layout; its position is the slot it binds.
    pub fn add_vertex_buffer_layout(self, layout: VertexBufferLayout) -> (r: RenderPipelineBuilder)
        ensures
            r.vertex_buffer_layouts@ == self.vertex_buffer_layouts@.push(layout),
            r.label == self.label,
            r.bind_group_layouts == self.bind_group_layouts,
            r.vertex == self.vertex,
            r.fragment == self.fragment,
            r.primitive == self.primitive,
            r.depth_stencil == self.depth_stencil,
            r.multisample == self.multisample,
            r.blend_state == self.blend_state,
            r.multiview == self.multiview,
            r.texture_format == self.texture_format,
            r.fragment_compilation_options == self.fragment_compilation_options,
            r.vertex_compilation_options == self.vertex_compilation_options,
    {
        let mut vertex_buffer_layouts = self.vertex_buffer_layouts;
        vertex_buffer_layouts.push(layout);
        RenderPipelineBuilder { vertex_buffer_layouts, ..self }
    }

    pub fn with_vertex(self, vertex: VertexState) -> (r: RenderPipelineBuilder)
        ensures
            r == (RenderPipelineBuilder { vertex: Some(vertex), ..self }),
    {
        RenderPipelineBuilder { vertex: Some(vertex), ..self }
    }

    pub fn with_fragment(self, fragment: FragmentState) -> (r: RenderPipelineBuilder)
        ensures
            r == (RenderPipelineBuilder { fragment: Some(fragment), ..self }),
    {
        RenderPipelineBuilder { fragment: Some(fragment), ..self }
    }

    pub fn with_primitive(self, primitive: PrimitiveState) -> (r: RenderPipelineBuilder)
        ensures
            r == (RenderPipelineBuilder { primitive: Some(primitive), ..self }),
    {
        RenderPipelineBuilder { primitive: Some(primitive), ..self }
    }

    pub fn with_depth_stencil(self, depth_stencil: DepthStencilState) -> (r: RenderPipelineBuilder)
        ensures
            r == (RenderPipelineBuilder { depth_stencil: Some(depth_stencil), ..self }),
    {
        RenderPipelineBuilder { depth_stencil: Some(depth_stencil), ..self }
    }

    pub fn with_multisample(self, multisample: MultisampleState) -> (r: RenderPipelineBuilder)
        ensures
            r == (RenderPipelineBuilder { multisample: Some(multisample), ..self }),
    {
        RenderPipelineBuilder { multisample: Some(multisample), ..self }
    }

    /// Render to this many array layers; zero is not meaningful.
    pub fn with_multiview(self, multiview: u32) -> (r: RenderPipelineBuilder)
        requires
            multiview >= 1,
        ensures
            r == (RenderPipelineBuilder { multiview: Some(multiview), ..self }),
    {
        RenderPipelineBuilder { multiview: Some(multiview), ..self }
    }

    pub fn with_blend_state(self, blend_state: BlendState) -> (r: RenderPipelineBuilder)
        ensures
            r == (RenderPipelineBuilder { blend_state: Some(blend_state), ..self }),
    {
        RenderPipelineBuilder { blend_state: Some(blend_state), ..self }
    }

    /// Override the color target's format; the default is the surface's.
    pub fn with_texture_format(self, texture_format: TextureFormat) -> (r: RenderPipelineBuilder)
        ensures
            r == (RenderPipelineBuilder { texture_format: Some(texture_format), ..self }),
    {
        RenderPipelineBuilder { texture_format: Some(texture_format), ..self }
    }

    pub fn with_fragment_compilation_options(self, options: PipelineCompilationOptions) -> (r:
        RenderPipelineBuilder)
        ensures
            r == (RenderPipelineBuilder { fragment_compilation_options: Some(options), ..self }),
    {
        RenderPipelineBuilder { fragment_compilation_options: Some(options), ..self }
    }

    pub fn with_vertex_compilation_options(self, options: PipelineCompilationOptions) -> (r:
        RenderPipelineBuilder)
        ensures
            r == (RenderPipelineBuilder { vertex_compilation_options: Some(options), ..self }),
    {
        RenderPipelineBuilder { vertex_compilation_options: Some(options), ..self }
    }

    /// Use the same compilation options for both stages.
    pub fn with_compilation_options(self, options: PipelineCompilationOptions) -> (r:
        RenderPipelineBuilder)
        ensures
            r.fragment_compilation_options is Some,
            r.fragment_compilation_options.unwrap().equivalent(options),
            r.vertex_compilation_options == Some(options),
            r.label == self.label,
            r.bind_group_layouts == self.bind_group_layouts,
            r.vertex_buffer_layouts == self.vertex_buffer_layouts,
            r.vertex == self.vertex,
            r.fragment == self.fragment,
            r.primitive == self.primitive,
            r.depth_stencil == self.depth_stencil,
            r.multisample == self.multisample,
            r.blend_state == self.blend_state,
            r.multiview == self.multiview,
            r.texture_format == self.texture_format,
    {
        let copy = options.duplicate();
        self.with_fragment_compilation_options(copy).with_vertex_compilation_options(options)
    }

    /// Compile with the given shader-constant overrides, each a name and
    /// the IEEE-754 bit pattern of its 64-bit value, in both stages.
    pub fn with_override_constants(self, constants: Vec<(String, u64)>) -> (r:
        RenderPipelineBuilder)
        ensures
            r.fragment_compilation_options is Some,
            r.fragment_compilation_options.unwrap().constants@ == constants@,
            r.fragment_compilation_options.unwrap().zero_initialize_workgroup_memory,
            r.vertex_compilation_options is Some,
            r.vertex_compilation_options.unwrap().constants@ == constants@,
            r.vertex_compilation_options.unwrap().zero_initialize_workgroup_memory,
            r.label == self.label,
            r.bind_group_layouts == self.bind_group_layouts,
            r.vertex_buffer_layouts == self.vertex_buffer_layouts,
            r.vertex == self.vertex,
            r.fragment == self.fragment,
            r.primitive == self.primitive,
            r.depth_stencil == self.depth_stencil,
            r.multisample == self.multisample,
            r.blend_state == self.blend_state,
            r.multiview == self.multiview,
            r.texture_format == self.texture_format,
    {
        self.with_compilation_options(
            PipelineCompilationOptions { constants, zero_initialize_workgroup_memory: true },
        )
    }

    /// Build with one shader module and explicit entry points. The
    /// fragment stage is optional; when present it writes exactly one
    /// color target, in the configured format or the surface's, with the
    /// configured blending and a full write mask.
    pub fn build_with_shader_entry_points(
        self,
        wgpu: &mut WGPUController,
        shader: &ShaderModule,
        vertex_entry_point: Option<&str>,
        fragment_entry_point: Option<Option<&str>>,
    ) -> (r: RenderPipeline)
        requires
            old(wgpu).device.ids_left() >= 1,
        ensures
            r.id == old(wgpu).device.next_id,
            r.layouts@ == self.bind_group_layouts@,
            r.vertex.module == shader.id,
            match vertex_entry_point {
                Some(s) => r.vertex.entry_point is Some && r.vertex.entry_point.unwrap()@ == s@,
                None => r.vertex.entry_point is None,
            },
            spec_layout_views(r.vertex.buffers@) == spec_layout_views(self.vertex_buffer_layouts@),
            match fragment_entry_point {
                Some(entry) => {
                    &&& r.fragment is Some
                    &&& r.fragment.unwrap().module == shader.id
                    &&& match entry {
                        Some(s) => r.fragment.unwrap().entry_point is Some && r.fragment.unwrap().entry_point.unwrap()@ == s@,
                        None => r.fragment.unwrap().entry_point is None,
                    }
                    &&& r.fragment.unwrap().targets@ =~= seq![
                        (ColorTargetState {
                            format: match self.texture_format {
                                Some(f) => f,
                                None => old(wgpu).config.format,
                            },
                            blend: self.blend_state,
                            write_mask: ColorWrites { r: true, g: true, b: true, a: true },
                        }),
                    ]
                },
                None => r.fragment is None,
            },
            r.primitive == match self.primitive {
                Some(p) => p,
                None => spec_default_primitive_state(),
            },
            r.depth_stencil == self.depth_stencil,
            r.multisample == match self.multisample {
                Some(m) => m,
                None => spec_default_multisample_state(),
            },
            r.multiview == self.multiview,
            r.vertex_compilation_options == self.vertex_compilation_options,
            r.fragment_compilation_options == self.fragment_compilation_options,
            final(wgpu).device.next_id == old(wgpu).device.next_id + 1,
            final(wgpu).surface == old(wgpu).surface,
            final(wgpu).queue == old(wgpu).queue,
            final(wgpu).config == old(wgpu).config,
    {
        let id = wgpu.device.fresh_id();
        let format = match self.texture_format {
            Some(f) => f,
            None => wgpu.config.format,
        };
        let vertex_entry = match vertex_entry_point {
            Some(s) => Some(s.to_owned()),
            None => None,
        };
        let fragment = match fragment_entry_point {
            Some(entry) => {
                let entry_point = match entry {
                    Some(s) => Some(s.to_owned()),
                    None => None,
                };
                let mut targets: Vec<ColorTargetState> = Vec::new();
                targets.push(
                    ColorTargetState {
                        format,
                        blend: self.blend_state,
                        write_mask: ColorWrites::all(),
                    },
                );
                Some(FragmentState { module: shader.id, entry_point, targets })
            },
            None => None,
        };
        RenderPipeline {
            id,
            layouts: self.bind_group_layouts,
            vertex: VertexState {
                module: shader.id,
                entry_point: vertex_entry,
                buffers: self.vertex_buffer_layouts,
            },
            fragment,
            primitive: match self.primitive {
                Some(p) => p,
                None => PrimitiveState {
                    topology: PrimitiveTopology::TriangleList,
                    strip_index_format: None,
                    front_face: FrontFace::Ccw,
                    cull_mode: None,
                    polygon_mode: PolygonMode::Fill,
                    unclipped_depth: false,
                    conservative: false,
                },
            },
            depth_stencil: self.depth_stencil,
            multisample: match self.multisample {
                Some(m) => m,
                None => MultisampleState::default_state(),
            },
            multiview: self.multiview,
            vertex_compilation_options: self.vertex_compilation_options,
            fragment_compilation_options: self.fragment_compilation_options,
        }
    }

    /// Build with one shader module and the conventional entry point
    /// names, "vertex" and "fragment".
    pub fn build_with_shader(self, wgpu: &mut WGPUController, shader: &ShaderModule) -> (r:
        RenderPipeline)
        requires
            old(wgpu).device.ids_left() >= 1,
        ensures
            r.id == old(wgpu).device.next_id,
            r.layouts@ == self.bind_group_layouts@,
            r.vertex.module == shader.id,
            r.vertex.entry_point is Some && r.vertex.entry_point.unwrap()@ == "vertex"@,
            spec_layout_views(r.vertex.buffers@) == spec_layout_views(self.vertex_buffer_layouts@),
            r.fragment is Some,
            r.fragment.unwrap().module == shader.id,
            r.fragment.unwrap().entry_point is Some,
            r.fragment.unwrap().entry_point.unwrap()@ == "fragment"@,
            r.fragment.unwrap().targets@ =~= seq![
                (ColorTargetState {
                    format: match self.texture_format {
                        Some(f) => f,
                        None => old(wgpu).config.format,
                    },
                    blend: self.blend_state,
                    write_mask: ColorWrites { r: true, g: true, b: true, a: true },
                }),
            ],
            r.primitive == match self.primitive {
                Some(p) => p,
                None => spec_default_primitive_state(),
            },
            r.depth_stencil == self.depth_stencil,
            r.multisample == match self.multisample {
                Some(m) => m,
                None => spec_default_multisample_state(),
            },
            r.multiview == self.multiview,
            r.vertex_compilation_options == self.vertex_compilation_options,
            r.fragment_compilation_options == self.fragment_compilation_options,
            final(wgpu).device.next_id == old(wgpu).device.next_id + 1,
            final(wgpu).surface == old(wgpu).surface,
            final(wgpu).queue == old(wgpu).queue,
            final(wgpu).config == old(wgpu).config,
    {
        self.build_with_shader_entry_points(wgpu, shader, Some("vertex"), Some(Some("fragment")))
    }

    /// Build from the explicitly supplied stages. Finalizing with no
    /// vertex stage is a programmer error, so a vertex stage is required.
    pub fn build(self, wgpu: &mut WGPUController) -> (r: RenderPipeline)
        requires
            self.vertex is Some,
            old(wgpu).device.ids_left() >= 1,
        ensures
            r.id == old(wgpu).device.next_id,
            r.layouts@ == self.bind_group_layouts@,
            r.vertex == self.vertex.unwrap(),
            r.fragment == self.fragment,
            r.primitive == match self.primitive {
                Some(p) => p,
                None => spec_default_primitive_state(),
            },
            r.depth_stencil == self.depth_stencil,
            r.multisample == match self.multisample {
                Some(m) => m,
                None => spec_default_multisample_state(),
            },
            r.multiview == self.multiview,
            r.vertex_compilation_options == self.vertex_compilation_options,
            r.fragment_compilation_options == self.fragment_compilation_options,
            final(wgpu).device.next_id == old(wgpu).device.next_id + 1,
            final(wgpu).surface == old(wgpu).surface,
            final(wgpu).queue == old(wgpu).queue,
            final(wgpu).config == old(wgpu).config,
    {
        let id = wgpu.device.fresh_id();
        let vertex = match self.vertex {
            Some(v) => v,
            None => unreached(),
        };
        RenderPipeline {
            id,
            layouts: self.bind_group_layouts,
            vertex,
            fragment: self.fragment,
            primitive: match self.primitive {
                Some(p) => p,
                None => PrimitiveState {
                    topology: PrimitiveTopology::TriangleList,
                    strip_index_format: None,
                    front_face: FrontFace::Ccw,
                    cull_mode: None,
                    polygon_mode: PolygonMode::Fill,
                    unclipped_depth: false,
                    conservative: false,
                },
            },
            depth_stencil: self.depth_stencil,
            multisample: match self.multisample {
                Some(m) => m,
                None => MultisampleState::default_state(),
            },
            multiview: self.multiview,
            vertex_compilation_options: self.vertex_compilation_options,
            fragment_compilation_options: self.fragment_compilation_options,
        }
    }
}

/// An immutable compute pipeline.
pub struct ComputePipeline {
    pub id: u64,
    pub layouts: Vec<u64>,
    pub module: u64,
    pub entry_point: Option<String>,
    pub zero_initialize_workgroup_memory: bool,
    /// The shader-constant overrides compiled in: name and IEEE-754 bit
    /// pattern of the 64-bit value.
    pub constants: Vec<(String, u64)>,
}

/// Accumulates everything a compute pipeline needs.
pub struct ComputePipelineBuilder {
    pub label: Option<String>,
    pub bind_group_layouts: Vec<u64>,
    pub compilation_options: Option<PipelineCompilationOptions>,
}

impl ComputePipelineBuilder {
    /// The state a fresh builder starts in: nothing configured.
    pub open spec fn is_fresh(self) -> bool {
        &&& self.label is None
        &&& self.bind_group_layouts@ =~= Seq::<u64>::empty()
        &&& self.compilation_options is None
    }

    pub fn new() -> (r: ComputePipelineBuilder)
        ensures
            r.is_fresh(),
    {
        ComputePipelineBuilder { label: None, bind_group_layouts: Vec::new(), compilation_options: None }
    }

    pub fn with_label(self, label: String) -> (r: ComputePipelineBuilder)
        ensures
            r == (ComputePipelineBuilder { label: Some(label), ..self }),
    {
        ComputePipelineBuilder { label: Some(label), ..self }
    }

    /// Append a bind-group layout; its position is the group index shaders
    /// use for it.
    pub fn add_bind_group_layout(self, layout: &BindGroupLayout) -> (r: ComputePipelineBuilder)
        ensures
            r.bind_group_layouts@ == self.bind_group_layouts@.push(layout.id),
            r.label == self.label,
            r.compilation_options == self.compilation_options,
    {
        let mut bind_group_layouts = self.bind_group_layouts;
        bind_group_layouts.push(layout.id);
        ComputePipelineBuilder { bind_group_layouts, ..self }
    }

    pub fn with_compilation_options(self, options: PipelineCompilationOptions) -> (r:
        ComputePipelineBuilder)
        ensures
            r == (ComputePipelineBuilder { compilation_options: Some(options), ..self }),
    {
        ComputePipelineBuilder { compilation_options: Some(options), ..self }
    }

    /// Compile with the given shader-constant overrides, each a name and
    /// the IEEE-754 bit pattern of its 64-bit value.
    pub fn with_override_constants(self, constants: Vec<(String, u64)>) -> (r:
        ComputePipelineBuilder)
        ensures
            r.compilation_options is Some,
            r.compilation_options.unwrap().constants@ == constants@,
            r.compilation_options.unwrap().zero_initialize_workgroup_memory,
            r.label == self.label,
            r.bind_group_layouts == self.bind_group_layouts,
    {
        self.with_compilation_options(
            PipelineCompilationOptions { constants, zero_initialize_workgroup_memory: true },
        )
    }

    /// Build with an explicit entry point, or the module's sole one.
    pub fn build_with_shader_entry_point(
        self,
        wgpu: &mut WGPUController,
        shader: &ShaderModule,
        entry_point: Option<&str>,
    ) -> (r: ComputePipeline)
        requires
            old(wgpu).device.ids_left() >= 1,
        ensures
            r.id == old(wgpu).device.next_id,
            r.layouts@ == self.bind_group_layouts@,
            r.module == shader.id,
            match entry_point {
                Some(s) => r.entry_point is Some && r.entry_point.unwrap()@ == s@,
                None => r.entry_point is None,
            },
            r.constants@ == match self.compilation_options {
                Some(o) => o.constants@,
                None => Seq::<(String, u64)>::empty(),
            },
            r.zero_initialize_workgroup_memory == match self.compilation_options {
                Some(o) => o.zero_initialize_workgroup_memory,
                None => true,
            },
            final(wgpu).device.next_id == old(wgpu).device.next_id + 1,
            final(wgpu).surface == old(wgpu).surface,
            final(wgpu).queue == old(wgpu).queue,
            final(wgpu).config == old(wgpu).config,
    {
        let id = wgpu.device.fresh_id();
        let entry = match entry_point {
            Some(s) => Some(s.to_owned()),
            None => None,
        };
        let (constants, zero_initialize_workgroup_memory) = match self.compilation_options {
            Some(o) => (o.constants, o.zero_initialize_workgroup_memory),
            None => (Vec::new(), true),
        };
        ComputePipeline {
            id,
            layouts: self.bind_group_layouts,
            module: shader.id,
            entry_point: entry,
            zero_initialize_workgroup_memory,
            constants,
        }
    }

    /// Build with the conventional compute entry-point name, "compute".
    pub fn build_with_shader(self, wgpu: &mut WGPUController, shader: &ShaderModule) -> (r:
        ComputePipeline)
        requires
            old(wgpu).device.ids_left() >= 1,
        ensures
            r.id == old(wgpu).device.next_id,
            r.layouts@ == self.bind_group_layouts@,
            r.module == shader.id,
            r.entry_point is Some,
            r.entry_point.unwrap()@ == "compute"@,
            r.constants@ == match self.compilation_options {
                Some(o) => o.constants@,
                None => Seq::<(String, u64)>::empty(),
            },
            r.zero_initialize_workgroup_memory == match self.compilation_options {
                Some(o) => o.zero_initialize_workgroup_memory,
                None => true,
            },
            final(wgpu).device.next_id == old(wgpu).device.next_id + 1,
            final(wgpu).surface == old(wgpu).surface,
            final(wgpu).queue == old(wgpu).queue,
            final(wgpu).config == old(wgpu).config,
    {
        self.build_with_shader_entry_point(wgpu, shader, Some("compute"))
    }
}

} // verus!
