use vstd::prelude::*;
use vstd::slice::slice_to_vec;

use crate::codec::{decode_rgba, decoded_rgba, encode_png, png_encoding};
use crate::error::{GameError, LoadError};
use crate::render::{
    bump, sampler_index, samplers_after, BlendMode, Color, ColorFormat, CtxModel, FilterMode,
    RenderContext, SamplerConfig, TexModel, TextureData, WrapMode,
};

verus! {

/// In-GPU-memory image data available to be drawn on the screen.
///
/// A value holds stable ids of a texture allocation and of the
/// shader-resource view built over it in the owning rendering context, plus
/// the sampler configuration, the optional blend-mode override, and the
/// fixed dimensions. Cloning is cheap and aliases the same GPU allocation.
#[derive(Debug, Clone, Copy, PartialEq, Eq)]
pub struct Image {
    pub texture: usize,
    pub texture_handle: usize,
    pub sampler_info: SamplerConfig,
    pub blend_mode: Option<BlendMode>,
    pub width: u16,
    pub height: u16,
    pub debug_id: u64,
}

/// The byte count that RGBA8 pixel data of these dimensions must have.
pub open spec fn expected_byte_len(width: u16, height: u16) -> int {
    (width as int) * (height as int) * 4
}

/// Whether the validator accepts pixel data of this length for these
/// dimensions: both dimensions nonzero, the byte count representable in the
/// platform's address-width integer, and the length exactly matching.
pub open spec fn load_accepted(width: u16, height: u16, len: int) -> bool {
    &&& width > 0
    &&& height > 0
    &&& expected_byte_len(width, height) <= usize::MAX
    &&& len == expected_byte_len(width, height)
}

/// The error the validator reports for rejected pixel data: a zero
/// dimension first, then an unrepresentable byte count, then a length
/// mismatch.
pub open spec fn load_failure(width: u16, height: u16, len: int) -> LoadError {
    if width == 0 || height == 0 {
        LoadError::ZeroDimension { width, height }
    } else if expected_byte_len(width, height) > usize::MAX {
        LoadError::SizeOverflow { width, height }
    } else {
        LoadError::LengthMismatch {
            expected: expected_byte_len(width, height) as usize,
            actual: len as usize,
        }
    }
}

/// The rendering context after a texture allocation: one texture holding
/// the uploaded bytes is appended to the arena, and one shader-resource
/// view reading that texture is built over it. Nothing else changes.
pub open spec fn load_effect(m: CtxModel, format: ColorFormat, data: Seq<u8>) -> CtxModel {
    CtxModel {
        textures: m.textures.push(TexModel { format, bytes: data }),
        views: m.views.push(m.textures.len() as int),
        ..m
    }
}

/// The resource a texture allocation returns: it names the newly created
/// texture and view, carries the given sampler configuration and debug
/// identity, has no blend-mode override, and is fixed to the given
/// dimensions.
pub open spec fn loaded_image(
    m: CtxModel,
    sampler: SamplerConfig,
    width: u16,
    height: u16,
    debug_id: u64,
) -> Image {
    Image {
        texture: m.views.len() as usize,
        texture_handle: m.textures.len() as usize,
        sampler_info: sampler,
        blend_mode: None,
        width,
        height,
        debug_id,
    }
}

/// The full outcome of one texture-creation attempt: on success the context
/// grows by exactly one texture and view and the returned resource is the
/// one built over them; on failure the context is untouched and the error
/// names why the data was rejected.
pub open spec fn load_outcome(
    pre: CtxModel,
    post: CtxModel,
    r: Result<Image, GameError>,
    sampler: SamplerConfig,
    width: u16,
    height: u16,
    data: Seq<u8>,
    format: ColorFormat,
    debug_id: u64,
) -> bool {
    match r {
        Ok(img) => {
            &&& load_accepted(width, height, data.len() as int)
            &&& post == load_effect(pre, format, data)
            &&& img == loaded_image(pre, sampler, width, height, debug_id)
        },
        Err(e) => {
            &&& !load_accepted(width, height, data.len() as int)
            &&& post == pre
            &&& e == GameError::ResourceLoadError(load_failure(width, height, data.len() as int))
        },
    }
}

/// The byte sequence a readback of this resource returns: the contents of
/// its texture allocation.
pub open spec fn readback_value(m: CtxModel, img: Image) -> Seq<u8> {
    m.textures[img.texture_handle as int].bytes
}

/// The rendering context after a readback: the download buffer holds the
/// copied texture contents (reallocated only when its size differed from
/// the request), and the command stream was flushed once. The texture
/// arena, the sampler cache and the blend state are untouched.
pub open spec fn readback_effect(m: CtxModel, img: Image) -> CtxModel {
    CtxModel {
        download: readback_value(m, img),
        download_reallocs: if m.download.len() == readback_value(m, img).len() {
            m.download_reallocs
        } else {
            bump(m.download_reallocs, 1)
        },
        flushes: bump(m.flushes, 1),
        ..m
    }
}

/// The supported formats for saving an image. The enumeration is closed:
/// every variant must be handled where a format is chosen.
#[derive(Debug, Copy, Clone, PartialEq, Eq, Structural)]
pub enum ImageFormat {
    /// PNG, with an 8-bit RGBA color layout.
    Png,
}

/// How many blend-mode switches one draw performs: two when the resource's
/// override differs from the active mode (the switch and its restoration),
/// none when there is no override or it already matches.
pub open spec fn switch_count(current: BlendMode, blend_override: Option<BlendMode>) -> u64 {
    match blend_override {
        Some(m) => if m == current {
            0u64
        } else {
            2u64
        },
        None => 0u64,
    }
}

/// The rendering context after one draw of a resource: the sampler cache
/// has resolved the resource's configuration, the shared quad vertex
/// buffer is bound, the resource's view is paired with the resolved
/// sampler as the active texture binding, one draw call was issued, and
/// the active blend mode is what it was before the draw — a differing
/// override is switched to and then restored, which counts two
/// transitions.
pub open spec fn draw_effect(m: CtxModel, img: Image) -> CtxModel {
    CtxModel {
        samplers: samplers_after(m.samplers, img.sampler_info),
        quad_bound: true,
        bound_view: Some(img.texture as int),
        bound_sampler: Some(sampler_index(m.samplers, img.sampler_info)),
        blend_switches: bump(m.blend_switches, switch_count(m.current_blend, img.blend_mode)),
        draw_calls: bump(m.draw_calls, 1),
        ..m
    }
}

/// Bind a resource and issue one draw call through the shared context:
/// resolve the sampler from the cache, bind the quad vertex buffer and the
/// texture, minimize blend-state transitions, and always restore the prior
/// blend mode.
pub(crate) fn draw_image_raw(image: &Image, ctx: &mut RenderContext) -> (r: Result<(), GameError>)
    requires
        image.wf(old(ctx)@),
    ensures
        r is Ok,
        final(ctx)@ == draw_effect(old(ctx)@, *image),
{
    // Resolve, or create and cache, the sampler object matching the
    // resource's configuration.
    let sampler = ctx.get_or_insert_sampler(image.sampler_info);
    // Bind the shared quad vertex buffer and pair the resource's view
    // with the resolved sampler as the active texture binding.
    ctx.quad_bound = true;
    ctx.bound_view = Some(image.texture);
    ctx.bound_sampler = Some(sampler);
    // Switch the blend mode only when the override differs from the
    // active mode, remembering the prior mode.
    let previous_mode: Option<BlendMode> = match image.blend_mode {
        Some(mode) => {
            let current_mode = ctx.blend_mode();
            if current_mode != mode {
                ctx.set_blend_mode(mode);
                Some(current_mode)
            } else {
                None
            }
        },
        None => None,
    };
    // One indexed draw call through the shared context.
    ctx.draw_calls = if ctx.draw_calls < u64::MAX {
        ctx.draw_calls + 1
    } else {
        u64::MAX
    };
    // Restore the prior blend mode if it was changed; this runs on every
    // exit path of the draw.
    if let Some(mode) = previous_mode {
        ctx.set_blend_mode(mode);
    }
    proof {
        assert(final(ctx)@ =~= draw_effect(old(ctx)@, *image));
    }
    Ok(())
}

/// The byte of an RGBA color that a given channel position holds.
pub open spec fn channel(c: Color, j: int) -> u8 {
    if j == 0 {
        c.r
    } else if j == 1 {
        c.g
    } else if j == 2 {
        c.b
    } else {
        c.a
    }
}

/// The pixel buffer of a solid square: one RGBA pixel repeated `n` times.
pub open spec fn solid_bytes(n: int, c: Color) -> Seq<u8>
    decreases n,
{
    if n <= 0 {
        Seq::empty()
    } else {
        solid_bytes(n - 1, c) + seq![c.r, c.g, c.b, c.a]
    }
}

/// A solid pixel buffer holds `4 * n` bytes, and every byte is the channel
/// of the repeated color that its position selects.
pub proof fn lemma_solid_bytes_pixels(n: int, c: Color)
    requires
        n >= 0,
    ensures
        solid_bytes(n, c).len() == 4 * n,
        forall|i: int|
            0 <= i < solid_bytes(n, c).len() ==> solid_bytes(n, c)[i] == channel(c, i % 4),
    decreases n,
{
    if n > 0 {
        lemma_solid_bytes_pixels(n - 1, c);
        let prefix = solid_bytes(n - 1, c);
        let whole = solid_bytes(n, c);
        assert forall|i: int| 0 <= i < whole.len() implies whole[i] == channel(c, i % 4) by {
            if i < prefix.len() {
                assert(whole[i] == prefix[i]);
            } else {
                let j = i - 4 * (n - 1);
                assert(whole[i] == seq![c.r, c.g, c.b, c.a][j]);
                assert(i % 4 == j) by (nonlinear_arith)
                    requires
                        0 <= j < 4,
                        i == 4 * (n - 1) + j,
                ;
            }
        }
    }
}

impl Image {
    /// Whether this resource is backed by the given context state: its
    /// texture and view ids are live, the view reads that texture, and the
    /// allocation holds exactly `width * height * 4` bytes for its nonzero
    /// dimensions.
    pub open spec fn wf(self, m: CtxModel) -> bool {
        &&& self.width > 0
        &&& self.height > 0
        &&& (self.texture_handle as int) < m.textures.len()
        &&& (self.texture as int) < m.views.len()
        &&& m.views[self.texture as int] == self.texture_handle as int
        &&& m.textures[self.texture_handle as int].bytes.len() == expected_byte_len(
            self.width,
            self.height,
        )
    }

    /// Whether this resource carries the debug identity of the given
    /// context, i.e. was created by it.
    pub open spec fn owned_by(self, m: CtxModel) -> bool {
        self.debug_id == m.context_id
    }

    /// Validate pixel data and allocate a texture with a shader-resource
    /// view over it, without requiring the full default configuration of
    /// the context.
    pub(crate) fn make_raw(
        ctx: &mut RenderContext,
        sampler_info: &SamplerConfig,
        width: u16,
        height: u16,
        rgba: &[u8],
        color_format: ColorFormat,
        debug_id: u64,
    ) -> (r: Result<Image, GameError>)
        ensures
            load_outcome(
                old(ctx)@,
                final(ctx)@,
                r,
                *sampler_info,
                width,
                height,
                rgba@,
                color_format,
                debug_id,
            ),
            r is Ok ==> r->Ok_0.wf(final(ctx)@) && r->Ok_0.debug_id == debug_id,
    {
        if width == 0 || height == 0 {
            return Err(GameError::ResourceLoadError(LoadError::ZeroDimension { width, height }));
        }
        // The byte count fits in 64 bits outright; whether it fits the
        // platform's address width is what is checked.
        proof {
            assert((width as int) * (height as int) * 4 <= 0xFFFF * 0xFFFF * 4)
                by (nonlinear_arith)
                requires
                    width <= 0xFFFF,
                    height <= 0xFFFF,
            ;
        }
        let expected64: u64 = (width as u64) * (height as u64) * 4;
        if expected64 > usize::MAX as u64 {
            return Err(GameError::ResourceLoadError(LoadError::SizeOverflow { width, height }));
        }
        let expected_bytes: usize = expected64 as usize;
        if expected_bytes != rgba.len() {
            return Err(GameError::ResourceLoadError(LoadError::LengthMismatch {
                expected: expected_bytes,
                actual: rgba.len(),
            }));
        }
        let bytes = slice_to_vec(rgba);
        let handle = ctx.textures.len();
        let view = ctx.views.len();
        ctx.textures.push(TextureData { format: color_format, bytes });
        ctx.views.push(handle);
        let img = Image {
            texture: view,
            texture_handle: handle,
            sampler_info: *sampler_info,
            blend_mode: None,
            width,
            height,
            debug_id,
        };
        proof {
            assert(final(ctx)@ =~= load_effect(old(ctx)@, color_format, rgba@));
            assert(final(ctx)@.textures[img.texture_handle as int].bytes.len()
                == expected_byte_len(width, height));
        }
        Ok(img)
    }

    /// Create a resource from a buffer of row-major RGBA8 values, using the
    /// context's color format, default sampler configuration and debug
    /// identity.
    pub fn from_rgba8(ctx: &mut RenderContext, width: u16, height: u16, rgba: &[u8]) -> (r: Result<
        Image,
        GameError,
    >)
        ensures
            load_outcome(
                old(ctx)@,
                final(ctx)@,
                r,
                old(ctx)@.default_sampler,
                width,
                height,
                rgba@,
                old(ctx)@.color_format,
                old(ctx)@.context_id,
            ),
            r is Ok ==> r->Ok_0.wf(final(ctx)@) && r->Ok_0.owned_by(final(ctx)@),
    {
        let debug_id = ctx.context_id;
        let color_format = ctx.color_format;
        let sampler = ctx.default_sampler;
        Self::make_raw(ctx, &sampler, width, height, rgba, color_format, debug_id)
    }

    /// Create a resource from a buffer holding an image encoded in a
    /// supported file format: the codec bridge decodes it into RGBA8
    /// pixels, dimensions beyond the 16-bit range are rejected, and the
    /// pixels are uploaded as with raw pixel data.
    pub fn from_bytes(ctx: &mut RenderContext, bytes: &[u8]) -> (r: Result<Image, GameError>)
        ensures
            match decoded_rgba(bytes@) {
                None => {
                    &&& r == Err::<Image, GameError>(
                        GameError::ResourceLoadError(LoadError::DecodeFailed),
                    )
                    &&& final(ctx)@ == old(ctx)@
                },
                Some((w, h, px)) => {
                    if w > u16::MAX {
                        &&& r == Err::<Image, GameError>(
                            GameError::ResourceLoadError(
                                LoadError::WidthOutOfRange { width: w as u32 },
                            ),
                        )
                        &&& final(ctx)@ == old(ctx)@
                    } else if h > u16::MAX {
                        &&& r == Err::<Image, GameError>(
                            GameError::ResourceLoadError(
                                LoadError::HeightOutOfRange { height: h as u32 },
                            ),
                        )
                        &&& final(ctx)@ == old(ctx)@
                    } else {
                        &&& load_outcome(
                            old(ctx)@,
                            final(ctx)@,
                            r,
                            old(ctx)@.default_sampler,
                            w as u16,
                            h as u16,
                            px,
                            old(ctx)@.color_format,
                            old(ctx)@.context_id,
                        )
                        &&& r is Ok ==> r->Ok_0.wf(final(ctx)@) && r->Ok_0.owned_by(final(ctx)@)
                    }
                },
            },
    {
        let decoded = decode_rgba(bytes);
        match decoded {
            Err(()) => Err(GameError::ResourceLoadError(LoadError::DecodeFailed)),
            Ok((w, h, px)) => {
                if w > u16::MAX as u32 {
                    return Err(GameError::ResourceLoadError(LoadError::WidthOutOfRange {
                        width: w,
                    }));
                }
                if h > u16::MAX as u32 {
                    return Err(GameError::ResourceLoadError(LoadError::HeightOutOfRange {
                        height: h,
                    }));
                }
                let better_width = w as u16;
                let better_height = h as u16;
                Self::from_rgba8(ctx, better_width, better_height, px.as_slice())
            },
        }
    }

    /// Encode the resource to the given file format: its pixels are read
    /// back through the download path and handed to the codec bridge. The
    /// returned bytes are the encoded file contents; for a live resource
    /// this always succeeds, since the readback yields exactly the pixel
    /// data the encoder asks for.
    pub fn encode(&self, ctx: &mut RenderContext, format: ImageFormat) -> (r: Result<
        Vec<u8>,
        GameError,
    >)
        requires
            self.wf(old(ctx)@),
        ensures
            r is Ok,
            r matches Ok(out) ==> out@ == png_encoding(
                readback_value(old(ctx)@, *self),
                self.width,
                self.height,
            ),
            final(ctx)@ == readback_effect(old(ctx)@, *self),
    {
        // The modelled readback cannot fail for a live resource.
        let data = self.to_rgba8(ctx).unwrap();
        match format {
            ImageFormat::Png => {
                // The readback hands the encoder nonzero dimensions and a
                // buffer of exactly the matching length, on which encoding
                // cannot fail.
                let out = encode_png(data.as_slice(), self.width, self.height).unwrap();
                Ok(out)
            },
        }
    }

    /// Dump the resource's pixel data to an owned buffer of RGBA8 values.
    ///
    /// The context's cached download buffer is reallocated only when its
    /// size differs from the request; the copy covers the full extent, the
    /// command stream is flushed to force completion, and the mapped
    /// contents are returned as an owned copy. This blocks on previously
    /// queued GPU work.
    pub fn to_rgba8(&self, ctx: &mut RenderContext) -> (r: Result<Vec<u8>, GameError>)
        requires
            self.wf(old(ctx)@),
        ensures
            r is Ok,
            r matches Ok(v) ==> v@ == readback_value(old(ctx)@, *self),
            final(ctx)@ == readback_effect(old(ctx)@, *self),
    {
        // The download buffer must hold the allocation's full extent.
        let needed = ctx.textures[self.texture_handle].bytes.len();
        if ctx.download.len() != needed {
            // The cache is size-exact: a request of any other size
            // reallocates it.
            ctx.download_reallocs = if ctx.download_reallocs < u64::MAX {
                ctx.download_reallocs + 1
            } else {
                u64::MAX
            };
        }
        // Copy the texture into the download buffer, covering the full
        // width and height at mip level zero, then flush so the copy has
        // completed before the buffer is mapped.
        let copied = slice_to_vec(ctx.textures[self.texture_handle].bytes.as_slice());
        ctx.download = copied;
        ctx.flushes = if ctx.flushes < u64::MAX {
            ctx.flushes + 1
        } else {
            u64::MAX
        };
        // Map the buffer for CPU read and hand back an owned copy.
        let out = slice_to_vec(ctx.download.as_slice());
        proof {
            assert(final(ctx)@ =~= readback_effect(old(ctx)@, *self));
        }
        Ok(out)
    }

    /// Create a resource that is a solid square of the given size and
    /// color: one pixel repeated `size * size` times.
    pub fn solid(ctx: &mut RenderContext, size: u16, color: Color) -> (r: Result<Image, GameError>)
        ensures
            load_outcome(
                old(ctx)@,
                final(ctx)@,
                r,
                old(ctx)@.default_sampler,
                size,
                size,
                solid_bytes((size as int) * (size as int), color),
                old(ctx)@.color_format,
                old(ctx)@.context_id,
            ),
            r is Ok ==> r->Ok_0.wf(final(ctx)@) && r->Ok_0.owned_by(final(ctx)@),
    {
        proof {
            lemma_solid_bytes_pixels((size as int) * (size as int), color);
            assert((size as int) * (size as int) >= 0) by (nonlinear_arith);
        }
        if size == 0 {
            return Err(GameError::ResourceLoadError(LoadError::ZeroDimension {
                width: size,
                height: size,
            }));
        }
        // Reject an unrepresentable buffer before building it, so the
        // failure is an error value rather than a failed allocation.
        proof {
            assert((size as int) * (size as int) * 4 <= 0xFFFF * 0xFFFF * 4) by (nonlinear_arith)
                requires
                    size <= 0xFFFF,
            ;
        }
        let expected64: u64 = (size as u64) * (size as u64) * 4;
        if expected64 > usize::MAX as u64 {
            return Err(GameError::ResourceLoadError(LoadError::SizeOverflow {
                width: size,
                height: size,
            }));
        }
        let size_squared: usize = (size as usize) * (size as usize);
        let mut buffer: Vec<u8> = Vec::new();
        let mut i: usize = 0;
        while i < size_squared
            invariant
                i <= size_squared,
                buffer@ == solid_bytes(i as int, color),
            decreases size_squared - i,
        {
            buffer.push(color.r);
            buffer.push(color.g);
            buffer.push(color.b);
            buffer.push(color.a);
            i = i + 1;
            proof {
                assert(buffer@ =~= solid_bytes(i as int, color));
            }
        }
        Self::from_rgba8(ctx, size, size, buffer.as_slice())
    }

    /// The width of the image, fixed at creation.
    pub fn width(&self) -> (w: u16)
        ensures
            w == self.width,
    {
        self.width
    }

    /// The height of the image, fixed at creation.
    pub fn height(&self) -> (h: u16)
        ensures
            h == self.height,
    {
        self.height
    }

    /// The filter mode the image is sampled with.
    pub fn filter(&self) -> (f: FilterMode)
        ensures
            f == self.sampler_info.filter,
    {
        self.sampler_info.filter
    }

    /// Set the filter mode the image is sampled with. Only the sampler
    /// configuration changes; the GPU allocation is untouched.
    pub fn set_filter(&mut self, mode: FilterMode)
        ensures
            *final(self) == (Image {
                sampler_info: SamplerConfig { filter: mode, ..old(self).sampler_info },
                ..*old(self)
            }),
    {
        self.sampler_info.filter = mode;
    }

    /// The wrap mode along the X and Y axes.
    pub fn wrap(&self) -> (w: (WrapMode, WrapMode))
        ensures
            w.0 == self.sampler_info.wrap_x,
            w.1 == self.sampler_info.wrap_y,
    {
        (self.sampler_info.wrap_x, self.sampler_info.wrap_y)
    }

    /// Set the wrap mode along the X and Y axes. Only the sampler
    /// configuration changes; the GPU allocation is untouched.
    pub fn set_wrap(&mut self, wrap_x: WrapMode, wrap_y: WrapMode)
        ensures
            *final(self) == (Image {
                sampler_info: SamplerConfig { filter: old(self).sampler_info.filter, wrap_x, wrap_y },
                ..*old(self)
            }),
    {
        self.sampler_info.wrap_x = wrap_x;
        self.sampler_info.wrap_y = wrap_y;
    }

    /// The blend-mode override, if any. When absent, a draw uses the
    /// active global blend mode unchanged.
    pub fn blend_mode(&self) -> (m: Option<BlendMode>)
        ensures
            m == self.blend_mode,
    {
        self.blend_mode
    }

    /// Set or clear the blend-mode override. Only the override changes;
    /// the GPU allocation is untouched.
    pub fn set_blend_mode(&mut self, mode: Option<BlendMode>)
        ensures
            *final(self) == (Image { blend_mode: mode, ..*old(self) }),
    {
        self.blend_mode = mode;
    }

    /// The stable id of the underlying texture allocation. Copies of it
    /// alias the same GPU object.
    pub fn get_raw_texture_handle(&self) -> (h: usize)
        ensures
            h == self.texture_handle,
    {
        self.texture_handle
    }

    /// The stable id of the shader-resource view over the texture.
    pub fn get_raw_texture_view(&self) -> (v: usize)
        ensures
            v == self.texture,
    {
        self.texture
    }

    /// Draw the resource through the shared context's pipeline.
    ///
    /// The caller must hold a resource created by this very context — the
    /// cross-context identity check is a programming-error guard, so it is
    /// a precondition here, not a runtime failure. Transform handling in
    /// unit-square space is the concern of the caller that prepares the
    /// draw parameters; binding, sampler resolution and blend-state
    /// minimization happen here.
    pub fn draw(&self, ctx: &mut RenderContext) -> (r: Result<(), GameError>)
        requires
            self.wf(old(ctx)@),
            self.owned_by(old(ctx)@),
        ensures
            r is Ok,
            final(ctx)@ == draw_effect(old(ctx)@, *self),
    {
        draw_image_raw(self, ctx)
    }
}

} // verus!
