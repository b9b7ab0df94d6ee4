use gpu_image::error::{GameError, LoadError};
use gpu_image::image::{Image, ImageFormat};
use gpu_image::render::{BlendMode, Color, FilterMode, RenderContext, WrapMode};

#[test]
fn test_invalid_image_size() {
    let ctx = &mut RenderContext::new(0);
    let _i = assert!(Image::from_rgba8(ctx, 0, 0, &[]).is_err());
    let _i = assert!(Image::from_rgba8(ctx, 3432, 432, &[]).is_err());
    let _i = Image::from_rgba8(ctx, 2, 2, &[99; 16]).unwrap();
}

#[test]
fn from_rgba8_scenario() {
    let ctx = &mut RenderContext::new(0);
    assert!(Image::from_rgba8(ctx, 0, 0, &[]).is_err());
    let mismatch = Image::from_rgba8(ctx, 3432, 432, &[]);
    assert_eq!(
        mismatch,
        Err(GameError::ResourceLoadError(LoadError::LengthMismatch {
            expected: 3432 * 432 * 4,
            actual: 0,
        }))
    );
    let img = Image::from_rgba8(ctx, 2, 2, &[99; 16]).unwrap();
    assert_eq!(img.width(), 2);
    assert_eq!(img.height(), 2);
}

#[test]
fn zero_dimension_is_reported() {
    let ctx = &mut RenderContext::new(0);
    let r = Image::from_rgba8(ctx, 0, 5, &[1, 2, 3, 4]);
    assert_eq!(
        r,
        Err(GameError::ResourceLoadError(LoadError::ZeroDimension {
            width: 0,
            height: 5,
        }))
    );
    let r = Image::from_rgba8(ctx, 5, 0, &[]);
    assert_eq!(
        r,
        Err(GameError::ResourceLoadError(LoadError::ZeroDimension {
            width: 5,
            height: 0,
        }))
    );
}

#[test]
fn raw_pixel_round_trip() {
    let ctx = &mut RenderContext::new(0);
    let data: Vec<u8> = (0..3 * 2 * 4).map(|i| (i * 7 + 3) as u8).collect();
    let img = Image::from_rgba8(ctx, 3, 2, &data).unwrap();
    let back = img.to_rgba8(ctx).unwrap();
    assert_eq!(back, data);
}

#[test]
fn solid_readback_repeats_color() {
    let ctx = &mut RenderContext::new(0);
    let color = Color { r: 10, g: 20, b: 30, a: 40 };
    let img = Image::solid(ctx, 3, color).unwrap();
    assert_eq!(img.width(), 3);
    assert_eq!(img.height(), 3);
    let bytes = img.to_rgba8(ctx).unwrap();
    assert_eq!(bytes.len(), 3 * 3 * 4);
    for group in bytes.chunks(4) {
        assert_eq!(group, &[10, 20, 30, 40]);
    }
}

#[test]
fn solid_zero_size_is_rejected() {
    let ctx = &mut RenderContext::new(0);
    let color = Color { r: 1, g: 2, b: 3, a: 4 };
    let r = Image::solid(ctx, 0, color);
    assert_eq!(
        r,
        Err(GameError::ResourceLoadError(LoadError::ZeroDimension {
            width: 0,
            height: 0,
        }))
    );
}

#[test]
fn draw_without_override_switches_no_blend_state() {
    let ctx = &mut RenderContext::new(0);
    let img = Image::from_rgba8(ctx, 1, 1, &[1, 2, 3, 4]).unwrap();
    img.draw(ctx).unwrap();
    assert_eq!(ctx.blend_switches, 0);
    img.draw(ctx).unwrap();
    assert_eq!(ctx.blend_switches, 0);
    assert_eq!(ctx.draw_calls, 2);
    assert_eq!(ctx.current_blend, BlendMode::Alpha);
}

#[test]
fn draw_with_override_switches_and_restores() {
    let ctx = &mut RenderContext::new(0);
    let mut img = Image::from_rgba8(ctx, 1, 1, &[1, 2, 3, 4]).unwrap();
    img.set_blend_mode(Some(BlendMode::Add));
    img.draw(ctx).unwrap();
    // One switch into the override and one restoring the prior mode.
    assert_eq!(ctx.blend_switches, 2);
    assert_eq!(ctx.current_blend, BlendMode::Alpha);
    // A matching override needs no transition at all.
    img.set_blend_mode(Some(BlendMode::Alpha));
    img.draw(ctx).unwrap();
    assert_eq!(ctx.blend_switches, 2);
}

#[test]
fn sampler_cache_reuses_identical_configs() {
    let ctx = &mut RenderContext::new(0);
    let a = Image::from_rgba8(ctx, 1, 1, &[1, 2, 3, 4]).unwrap();
    let b = Image::from_rgba8(ctx, 2, 2, &[7; 16]).unwrap();
    a.draw(ctx).unwrap();
    let first = ctx.bound_sampler;
    b.draw(ctx).unwrap();
    assert_eq!(ctx.bound_sampler, first);
    assert_eq!(ctx.samplers.len(), 1);
    // A different configuration creates a second sampler.
    let mut c = Image::from_rgba8(ctx, 1, 1, &[9; 4]).unwrap();
    c.set_filter(FilterMode::Nearest);
    c.draw(ctx).unwrap();
    assert_ne!(ctx.bound_sampler, first);
    assert_eq!(ctx.samplers.len(), 2);
}

#[test]
fn download_buffer_reallocates_only_on_size_change() {
    let ctx = &mut RenderContext::new(0);
    let small = Image::from_rgba8(ctx, 1, 1, &[1, 2, 3, 4]).unwrap();
    let large = Image::from_rgba8(ctx, 2, 1, &[5; 8]).unwrap();
    small.to_rgba8(ctx).unwrap();
    assert_eq!(ctx.download_reallocs, 1);
    small.to_rgba8(ctx).unwrap();
    assert_eq!(ctx.download_reallocs, 1);
    large.to_rgba8(ctx).unwrap();
    assert_eq!(ctx.download_reallocs, 2);
    assert_eq!(ctx.flushes, 3);
}

#[test]
fn accessors_and_mutators_touch_only_their_field() {
    let ctx = &mut RenderContext::new(7);
    let mut img = Image::from_rgba8(ctx, 2, 2, &[0; 16]).unwrap();
    assert_eq!(img.filter(), FilterMode::Linear);
    img.set_filter(FilterMode::Nearest);
    assert_eq!(img.filter(), FilterMode::Nearest);
    assert_eq!(img.wrap(), (WrapMode::Clamp, WrapMode::Clamp));
    img.set_wrap(WrapMode::Tile, WrapMode::Mirror);
    assert_eq!(img.wrap(), (WrapMode::Tile, WrapMode::Mirror));
    assert_eq!(img.blend_mode(), None);
    img.set_blend_mode(Some(BlendMode::Multiply));
    assert_eq!(img.blend_mode(), Some(BlendMode::Multiply));
    assert_eq!(img.width(), 2);
    assert_eq!(img.height(), 2);
    // The mutators never touched the allocation.
    assert_eq!(img.to_rgba8(ctx).unwrap(), vec![0; 16]);
}

#[test]
fn clone_aliases_the_same_allocation() {
    let ctx = &mut RenderContext::new(0);
    let img = Image::from_rgba8(ctx, 1, 1, &[8, 6, 4, 2]).unwrap();
    let copy = img;
    assert_eq!(copy.get_raw_texture_handle(), img.get_raw_texture_handle());
    assert_eq!(copy.get_raw_texture_view(), img.get_raw_texture_view());
    assert_eq!(copy.to_rgba8(ctx).unwrap(), vec![8, 6, 4, 2]);
}

#[test]
fn png_encode_decode_round_trip() {
    let ctx = &mut RenderContext::new(0);
    let data: Vec<u8> = (0..2 * 2 * 4).map(|i| (i * 11 + 1) as u8).collect();
    let img = Image::from_rgba8(ctx, 2, 2, &data).unwrap();
    let png = img.encode(ctx, ImageFormat::Png).unwrap();
    // The stream is an encoding, not the pixels handed back.
    assert_ne!(png, data);
    assert_eq!(&png[1..4], b"PNG");
    let reloaded = Image::from_bytes(ctx, &png).unwrap();
    assert_eq!(reloaded.width(), 2);
    assert_eq!(reloaded.height(), 2);
    assert_eq!(reloaded.to_rgba8(ctx).unwrap(), data);
}

#[test]
fn errors_describe_their_values() {
    let ctx = &mut RenderContext::new(0);
    let e = Image::from_rgba8(ctx, 3432, 432, &[]).unwrap_err();
    assert_eq!(e.describe(), "expected 5930496 bytes of pixel data, got 0");
    let e = Image::from_rgba8(ctx, 0, 5, &[1, 2, 3, 4]).unwrap_err();
    assert_eq!(
        e.describe(),
        "tried to create a texture of size 0x5, each dimension must be greater than zero"
    );
    let e = Image::from_bytes(ctx, &[1, 2, 3]).unwrap_err();
    assert_eq!(
        e.describe(),
        "the bytes could not be decoded as a supported image format"
    );
    assert_eq!(
        LoadError::WidthOutOfRange { width: 65536 }.describe(),
        "decoded image width 65536 exceeds the 16-bit range"
    );
    assert_eq!(
        LoadError::HeightOutOfRange { height: 70000 }.describe(),
        "decoded image height 70000 exceeds the 16-bit range"
    );
    assert_eq!(
        LoadError::SizeOverflow { width: 65535, height: 65535 }.describe(),
        "integer overflow computing the byte size of a 65535x65535 texture"
    );
}

#[test]
fn from_bytes_rejects_undecodable_data() {
    let ctx = &mut RenderContext::new(0);
    let r = Image::from_bytes(ctx, &[1, 2, 3, 4, 5]);
    assert_eq!(
        r,
        Err(GameError::ResourceLoadError(LoadError::DecodeFailed))
    );
    assert_eq!(ctx.textures.len(), 0);
}

#[test]
fn from_bytes_rejects_dimensions_beyond_u16() {
    // A 65536 x 1 PNG decodes fine but cannot become a texture resource.
    let wide_pixels = vec![0u8; 65536 * 4];
    let mut wide_png: Vec<u8> = Vec::new();
    image::png::PngEncoder::new(&mut wide_png)
        .encode(&wide_pixels, 65536, 1, image::ColorType::Rgba8)
        .unwrap();
    let ctx = &mut RenderContext::new(0);
    let r = Image::from_bytes(ctx, &wide_png);
    assert_eq!(
        r,
        Err(GameError::ResourceLoadError(LoadError::WidthOutOfRange {
            width: 65536,
        }))
    );

    let tall_pixels = vec![0u8; 65536 * 4];
    let mut tall_png: Vec<u8> = Vec::new();
    image::png::PngEncoder::new(&mut tall_png)
        .encode(&tall_pixels, 1, 65536, image::ColorType::Rgba8)
        .unwrap();
    let r = Image::from_bytes(ctx, &tall_png);
    assert_eq!(
        r,
        Err(GameError::ResourceLoadError(LoadError::HeightOutOfRange {
            height: 65536,
        }))
    );
}
