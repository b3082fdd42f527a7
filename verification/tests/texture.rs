//! The 2D texture builder: defaults, overrides and views.

use hollow::wgpu::controller::WGPUController;
use hollow::wgpu::texture::{
    preferred_surface_format, TextureBuilder, TextureDimension, TextureFormat, TextureUsages,
};

fn context() -> WGPUController {
    WGPUController::new_configured(800, 600, TextureFormat::Bgra8UnormSrgb)
}

#[test]
fn texture_2d_defaults() {
    let mut ctx = context();
    let texture = ctx.build_texture_2d(640, 480).build(&mut ctx);
    assert_eq!(texture.size.width, 640);
    assert_eq!(texture.size.height, 480);
    assert_eq!(texture.size.depth_or_array_layers, 1);
    assert_eq!(texture.mip_level_count, 1);
    assert_eq!(texture.sample_count, 1);
    assert_eq!(texture.dimension, TextureDimension::D2);
    assert_eq!(texture.format, TextureFormat::Bgra8UnormSrgb);
    assert_eq!(texture.usage, TextureUsages::texture_binding_and_render_attachment());
    assert!(texture.view_formats.is_empty());
}

#[test]
fn texture_builder_overrides() {
    let mut ctx = context();
    let mut usage = TextureUsages::none();
    usage.copy_dst = true;
    usage.texture_binding = true;
    let texture = TextureBuilder::new_2d(16, 16)
        .with_label(String::from("lut"))
        .with_mip_level_count(5)
        .with_sample_count(4)
        .with_format(TextureFormat::Rgba16Float)
        .with_usage(usage)
        .add_view_format(TextureFormat::Rgba8Unorm)
        .build(&mut ctx);
    assert_eq!(texture.mip_level_count, 5);
    assert_eq!(texture.sample_count, 4);
    assert_eq!(texture.format, TextureFormat::Rgba16Float);
    assert_eq!(texture.usage, usage);
    assert_eq!(texture.view_formats, vec![TextureFormat::Rgba8Unorm]);
}

#[test]
fn surface_format_prefers_the_first_srgb_offering() {
    let offered = [
        TextureFormat::Rgba8Unorm,
        TextureFormat::Bgra8UnormSrgb,
        TextureFormat::Rgba8UnormSrgb,
    ];
    assert_eq!(preferred_surface_format(&offered), TextureFormat::Bgra8UnormSrgb);
    let no_srgb = [TextureFormat::Rgba16Float, TextureFormat::Bgra8Unorm];
    assert_eq!(preferred_surface_format(&no_srgb), TextureFormat::Rgba16Float);
    assert!(TextureFormat::Rgba8UnormSrgb.is_srgb());
    assert!(!TextureFormat::R32Float.is_srgb());
}

#[test]
fn view_carries_texture_identity_and_format() {
    let mut ctx = context();
    let texture = ctx.build_texture_2d(8, 8).with_format(TextureFormat::R32Float).build(&mut ctx);
    let view = texture.create_view(&mut ctx);
    assert_eq!(view.texture, texture.id);
    assert_eq!(view.format, TextureFormat::R32Float);
    let other = texture.create_view(&mut ctx);
    assert_ne!(view.id, other.id);
}
