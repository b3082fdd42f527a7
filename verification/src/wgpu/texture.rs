//! Textures and texture views, and the fluent builder for 2D textures.

use vstd::prelude::*;

use crate::wgpu::controller::WGPUController;

verus! {

/// The pixel formats the layer knows about.
#[derive(Clone, Copy, PartialEq, Eq, Structural, Debug)]
pub enum TextureFormat {
    Bgra8Unorm,
    Bgra8UnormSrgb,
    Rgba8Unorm,
    Rgba8UnormSrgb,
    Rgba16Float,
    Rgba32Float,
    R32Float,
    Depth24Plus,
    Depth32Float,
}

/// Whether a format stores color in the sRGB transfer encoding.
pub open spec fn spec_is_srgb(f: TextureFormat) -> bool {
    match f {
        TextureFormat::Bgra8UnormSrgb => true,
        TextureFormat::Rgba8UnormSrgb => true,
        _ => false,
    }
}

/// The first sRGB-encoded format at or after position `i`, if any.
pub open spec fn spec_first_srgb(formats: Seq<TextureFormat>, i: int) -> Option<TextureFormat>
    decreases formats.len() - i,
{
    if i < 0 || i >= formats.len() {
        None
    } else if spec_is_srgb(formats[i]) {
        Some(formats[i])
    } else {
        spec_first_srgb(formats, i + 1)
    }
}

impl TextureFormat {
    /// Whether this format stores color in the sRGB transfer encoding.
    pub fn is_srgb(&self) -> (r: bool)
        ensures
            r == spec_is_srgb(*self),
    {
        match self {
            TextureFormat::Bgra8UnormSrgb => true,
            TextureFormat::Rgba8UnormSrgb => true,
            _ => false,
        }
    }
}

/// The surface format the layer prefers among what a surface offers: the
/// first sRGB-encoded format, or the first offered format when none is.
pub fn preferred_surface_format(formats: &[TextureFormat]) -> (r: TextureFormat)
    requires
        formats@.len() >= 1,
    ensures
        r == match spec_first_srgb(formats@, 0) {
            Some(f) => f,
            None => formats@[0],
        },
{
    let mut k: usize = 0;
    while k < formats.len()
        invariant
            k <= formats@.len(),
            spec_first_srgb(formats@, 0) == spec_first_srgb(formats@, k as int),
        decreases formats@.len() - k,
    {
        if formats[k].is_srgb() {
            proof {
                assert(spec_first_srgb(formats@, k as int) == Some(formats@[k as int]));
            }
            return formats[k];
        }
        k = k + 1;
    }
    formats[0]
}

/// Which device operations may touch a texture.
#[derive(Clone, Copy, PartialEq, Eq, Structural, Debug)]
pub struct TextureUsages {
    pub copy_src: bool,
    pub copy_dst: bool,
    pub texture_binding: bool,
    pub storage_binding: bool,
    pub render_attachment: bool,
}

impl TextureUsages {
    /// No usage at all.
    pub fn none() -> (r: TextureUsages)
        ensures
            r == (TextureUsages {
                copy_src: false,
                copy_dst: false,
                texture_binding: false,
                storage_binding: false,
                render_attachment: false,
            }),
    {
        TextureUsages {
            copy_src: false,
            copy_dst: false,
            texture_binding: false,
            storage_binding: false,
            render_attachment: false,
        }
    }

    /// The builder's default: sampled in shaders and rendered to.
    pub fn texture_binding_and_render_attachment() -> (r: TextureUsages)
        ensures
            r == (TextureUsages {
                copy_src: false,
                copy_dst: false,
                texture_binding: true,
                storage_binding: false,
                render_attachment: true,
            }),
    {
        TextureUsages {
            copy_src: false,
            copy_dst: false,
            texture_binding: true,
            storage_binding: false,
            render_attachment: true,
        }
    }
}

#[derive(Clone, Copy, PartialEq, Eq, Structural, Debug)]
pub enum TextureDimension {
    D1,
    D2,
    D3,
}

#[derive(Clone, Copy, PartialEq, Eq, Structural, Debug)]
pub struct Extent3d {
    pub width: u32,
    pub height: u32,
    pub depth_or_array_layers: u32,
}

/// A device texture: an identity plus the descriptor it was created with.
pub struct Texture {
    pub id: u64,
    pub size: Extent3d,
    pub mip_level_count: u32,
    pub sample_count: u32,
    pub dimension: TextureDimension,
    pub format: TextureFormat,
    pub usage: TextureUsages,
    pub view_formats: Vec<TextureFormat>,
}

/// A view onto a texture, as handed to render passes and bind groups.
#[derive(Clone, Copy, PartialEq, Eq, Structural, Debug)]
pub struct TextureView {
    pub id: u64,
    pub texture: u64,
    pub format: TextureFormat,
}

impl Texture {
    /// A whole-texture view in the texture's own format.
    pub fn create_view(&self, wgpu: &mut WGPUController) -> (view: TextureView)
        requires
            old(wgpu).device.ids_left() >= 1,
        ensures
            view.texture == self.id,
            view.format == self.format,
            view.id == old(wgpu).device.next_id,
            final(wgpu).device.next_id == old(wgpu).device.next_id + 1,
            final(wgpu).surface == old(wgpu).surface,
            final(wgpu).queue == old(wgpu).queue,
            final(wgpu).config == old(wgpu).config,
    {
        let id = wgpu.device.fresh_id();
        TextureView { id, texture: self.id, format: self.format }
    }
}

/// Fluent construction of a texture; every field past the size has a default.
pub struct TextureBuilder {
    pub label: Option<String>,
    pub size: Extent3d,
    pub mip_level_count: u32,
    pub sample_count: u32,
    pub dimension: TextureDimension,
    pub format: TextureFormat,
    pub usage: TextureUsages,
    pub view_formats: Vec<TextureFormat>,
}

impl TextureBuilder {
    /// The state `new_2d` leaves the builder in: the given size and every
    /// other field at its default.
    pub open spec fn is_default_2d(self, width: u32, height: u32) -> bool {
        &&& self.label is None
        &&& self.size == (Extent3d { width, height, depth_or_array_layers: 1 })
        &&& self.mip_level_count == 1
        &&& self.sample_count == 1
        &&& self.dimension == TextureDimension::D2
        &&& self.format == TextureFormat::Bgra8UnormSrgb
        &&& self.usage == (TextureUsages {
            copy_src: false,
            copy_dst: false,
            texture_binding: true,
            storage_binding: false,
            render_attachment: true,
        })
        &&& self.view_formats@ =~= Seq::<TextureFormat>::empty()
    }

    /// A 2D texture of the given pixel size, with defaults: one mip level,
    /// one sample, sRGB BGRA8, usable as binding and render attachment.
    pub fn new_2d(width: u32, height: u32) -> (r: TextureBuilder)
        ensures
            r.is_default_2d(width, height),
    {
        TextureBuilder {
            label: None,
            size: Extent3d { width, height, depth_or_array_layers: 1 },
            mip_level_count: 1,
            sample_count: 1,
            dimension: TextureDimension::D2,
            format: TextureFormat::Bgra8UnormSrgb,
            usage: TextureUsages::texture_binding_and_render_attachment(),
            view_formats: Vec::new(),
        }
    }

    pub fn with_label(self, label: String) -> (r: TextureBuilder)
        ensures
            r == (TextureBuilder { label: Some(label), ..self }),
    {
        TextureBuilder { label: Some(label), ..self }
    }

    pub fn with_mip_level_count(self, mip_level_count: u32) -> (r: TextureBuilder)
        ensures
            r == (TextureBuilder { mip_level_count, ..self }),
    {
        TextureBuilder { mip_level_count, ..self }
    }

    pub fn with_sample_count(self, sample_count: u32) -> (r: TextureBuilder)
        ensures
            r == (TextureBuilder { sample_count, ..self }),
    {
        TextureBuilder { sample_count, ..self }
    }

    pub fn with_format(self, format: TextureFormat) -> (r: TextureBuilder)
        ensures
            r == (TextureBuilder { format, ..self }),
    {
        TextureBuilder { format, ..self }
    }

    pub fn with_usage(self, usage: TextureUsages) -> (r: TextureBuilder)
        ensures
            r == (TextureBuilder { usage, ..self }),
    {
        TextureBuilder { usage, ..self }
    }

    pub fn with_view_formats(self, view_formats: Vec<TextureFormat>) -> (r: TextureBuilder)
        ensures
            r == (TextureBuilder { view_formats, ..self }),
    {
        TextureBuilder { view_formats, ..self }
    }

    pub fn add_view_format(self, view_format: TextureFormat) -> (r: TextureBuilder)
        ensures
            r.view_formats@ == self.view_formats@.push(view_format),
            r.label == self.label,
            r.size == self.size,
            r.mip_level_count == self.mip_level_count,
            r.sample_count == self.sample_count,
            r.dimension == self.dimension,
            r.format == self.format,
            r.usage == self.usage,
    {
        let mut view_formats = self.view_formats;
        view_formats.push(view_format);
        TextureBuilder { view_formats, ..self }
    }

    /// Create the texture on the device exactly as configured.
    pub fn build(self, wgpu: &mut WGPUController) -> (t: Texture)
        requires
            old(wgpu).device.ids_left() >= 1,
        ensures
            t.id == old(wgpu).device.next_id,
            t.size == self.size,
            t.mip_level_count == self.mip_level_count,
            t.sample_count == self.sample_count,
            t.dimension == self.dimension,
            t.format == self.format,
            t.usage == self.usage,
            t.view_formats@ == self.view_formats@,
            final(wgpu).device.next_id == old(wgpu).device.next_id + 1,
            final(wgpu).surface == old(wgpu).surface,
            final(wgpu).queue == old(wgpu).queue,
            final(wgpu).config == old(wgpu).config,
    {
        let id = wgpu.device.fresh_id();
        Texture {
            id,
            size: self.size,
            mip_level_count: self.mip_level_count,
            sample_count: self.sample_count,
            dimension: self.dimension,
            format: self.format,
            usage: self.usage,
            view_formats: self.view_formats,
        }
    }
}

} // verus!
