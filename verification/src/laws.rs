use vstd::prelude::*;

use crate::error::LoadError;
use crate::image::{
    channel, draw_effect, expected_byte_len, lemma_solid_bytes_pixels, load_accepted, load_effect,
    load_failure, loaded_image, readback_effect, readback_value, solid_bytes, Image,
};
use crate::render::{lemma_resolve_stable, sampler_index, Color, CtxModel, SamplerConfig};

verus! {

/// Pixel data with a zero dimension is always rejected, whatever the
/// buffer holds: the validator reports the zero dimension.
pub proof fn lemma_zero_dimension_rejected(width: u16, height: u16, len: int)
    requires
        width == 0 || height == 0,
    ensures
        !load_accepted(width, height, len),
        load_failure(width, height, len) == (LoadError::ZeroDimension { width, height }),
{
}

/// For nonzero dimensions, a buffer whose length differs from
/// `width * height * 4` is always rejected; when the byte count is
/// addressable, the validator reports the expected and actual lengths.
pub proof fn lemma_length_mismatch_rejected(width: u16, height: u16, len: int)
    requires
        width > 0,
        height > 0,
        len != expected_byte_len(width, height),
    ensures
        !load_accepted(width, height, len),
        expected_byte_len(width, height) <= usize::MAX ==> load_failure(width, height, len)
            == (LoadError::LengthMismatch {
            expected: expected_byte_len(width, height) as usize,
            actual: len as usize,
        }),
{
}

/// Dimensions whose byte count cannot be represented in the platform's
/// address-width integer are rejected as an error value, whatever the
/// buffer holds.
pub proof fn lemma_overflow_rejected(width: u16, height: u16, len: int)
    requires
        width > 0,
        height > 0,
        expected_byte_len(width, height) > usize::MAX,
    ensures
        !load_accepted(width, height, len),
        load_failure(width, height, len) == (LoadError::SizeOverflow { width, height }),
{
}

/// Round trip: reading back the resource created from accepted raw pixel
/// data yields exactly that data, and the resource is backed by the
/// context the creation leaves behind.
pub proof fn lemma_pixel_round_trip(
    m: CtxModel,
    sampler: SamplerConfig,
    width: u16,
    height: u16,
    data: Seq<u8>,
    debug_id: u64,
)
    requires
        m.addressable(),
        load_accepted(width, height, data.len() as int),
    ensures
        ({
            let loaded = load_effect(m, m.color_format, data);
            let img = loaded_image(m, sampler, width, height, debug_id);
            &&& img.wf(loaded)
            &&& readback_value(loaded, img) == data
        }),
{
}

/// A solid square of a given size and color reads back as a buffer of
/// `size * size * 4` bytes in which every 4-byte group is the color's
/// RGBA bytes.
pub proof fn lemma_solid_readback(
    m: CtxModel,
    sampler: SamplerConfig,
    size: u16,
    color: Color,
    debug_id: u64,
)
    requires
        m.addressable(),
        size > 0,
        expected_byte_len(size, size) <= usize::MAX,
    ensures
        ({
            let data = solid_bytes((size as int) * (size as int), color);
            let loaded = load_effect(m, m.color_format, data);
            let img = loaded_image(m, sampler, size, size, debug_id);
            &&& data.len() == expected_byte_len(size, size)
            &&& readback_value(loaded, img) == data
            &&& forall|i: int| 0 <= i < data.len() ==> data[i] == channel(color, i % 4)
        }),
{
    let n = (size as int) * (size as int);
    assert((size as int) * (size as int) >= 0) by (nonlinear_arith);
    lemma_solid_bytes_pixels(n, color);
    lemma_pixel_round_trip(m, sampler, size, size, solid_bytes(n, color), debug_id);
}

/// Drawing a resource that carries no blend-mode override performs no
/// blend-mode switch, on a first draw and on a repeated one alike, and
/// leaves the active blend mode untouched.
pub proof fn lemma_draw_twice_no_switch(m: CtxModel, img: Image)
    requires
        img.blend_mode is None,
    ensures
        ({
            let once = draw_effect(m, img);
            let twice = draw_effect(once, img);
            &&& once.blend_switches == m.blend_switches
            &&& twice.blend_switches == once.blend_switches
            &&& twice.current_blend == m.current_blend
        }),
{
}

/// A draw always restores the active blend mode, whether or not the
/// resource overrides it: no draw leaves a blend-state change behind.
pub proof fn lemma_draw_restores_blend(m: CtxModel, img: Image)
    ensures
        draw_effect(m, img).current_blend == m.current_blend,
{
}

/// Neither a draw nor a readback leaves the context inconsistent for any
/// resource: every resource backed by the context before the operation is
/// still backed by it afterwards, with the same allocation contents.
pub proof fn lemma_operations_preserve_backing(m: CtxModel, img: Image, other: Image)
    requires
        other.wf(m),
    ensures
        other.wf(draw_effect(m, img)),
        other.wf(readback_effect(m, img)),
        readback_value(draw_effect(m, img), other) == readback_value(m, other),
        readback_value(readback_effect(m, img), other) == readback_value(m, other),
{
}

/// Two resources with identical sampler configuration resolve to the same
/// underlying sampler: consecutive draws of them bind the same sampler id,
/// and the second draw creates no sampler.
pub proof fn lemma_sampler_cache_reuse(m: CtxModel, a: Image, b: Image)
    requires
        a.sampler_info == b.sampler_info,
    ensures
        ({
            let first = draw_effect(m, a);
            let second = draw_effect(first, b);
            &&& first.bound_sampler == Some(sampler_index(m.samplers, a.sampler_info))
            &&& second.bound_sampler == first.bound_sampler
            &&& second.samplers == first.samplers
        }),
{
    lemma_resolve_stable(m.samplers, a.sampler_info);
}

} // verus!
