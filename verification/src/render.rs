use vstd::prelude::*;

verus! {

/// Texture filtering mode used when a texture is sampled.
#[derive(Debug, Clone, Copy, PartialEq, Eq, Structural)]
pub enum FilterMode {
    /// Nearest-neighbour sampling.
    Nearest,
    /// Bilinear interpolation.
    Linear,
}

/// Edge-wrapping behaviour when a texture is sampled outside its extent.
#[derive(Debug, Clone, Copy, PartialEq, Eq, Structural)]
pub enum WrapMode {
    Tile,
    Mirror,
    Clamp,
    Border,
}

/// Pipeline state controlling how drawn pixels combine with the frame buffer.
#[derive(Debug, Clone, Copy, PartialEq, Eq, Structural)]
pub enum BlendMode {
    Add,
    Subtract,
    Alpha,
    Invert,
    Multiply,
    Replace,
    Lighten,
    Darken,
}

/// Color layout of a texture allocation.
#[derive(Debug, Clone, Copy, PartialEq, Eq, Structural)]
pub enum ColorFormat {
    Rgba8Unorm,
    Rgba8Srgb,
}

/// Value type describing how a texture is sampled: filter mode plus the
/// wrap mode along the X and Y axes. Sampler objects are cached by this
/// configuration.
#[derive(Debug, Clone, Copy, PartialEq, Eq, Structural)]
pub struct SamplerConfig {
    pub filter: FilterMode,
    pub wrap_x: WrapMode,
    pub wrap_y: WrapMode,
}

/// One RGBA color, 8 bits per channel.
#[derive(Debug, Clone, Copy, PartialEq, Eq, Structural)]
pub struct Color {
    pub r: u8,
    pub g: u8,
    pub b: u8,
    pub a: u8,
}

/// One texture allocation in the rendering context's arena: its color
/// format and the RGBA bytes it was uploaded with.
#[derive(Debug)]
pub struct TextureData {
    pub format: ColorFormat,
    pub bytes: Vec<u8>,
}

/// Mathematical model of one texture allocation.
#[verifier::ext_equal]
pub ghost struct TexModel {
    pub format: ColorFormat,
    pub bytes: Seq<u8>,
}

impl View for TextureData {
    type V = TexModel;

    open spec fn view(&self) -> TexModel {
        TexModel { format: self.format, bytes: self.bytes@ }
    }
}

/// Mathematical model of a rendering context: the state that the library's
/// contracts speak of.
#[verifier::ext_equal]
pub ghost struct CtxModel {
    /// Debug identity of the context; resources remember it at creation.
    pub context_id: u64,
    /// Color format used for new texture allocations.
    pub color_format: ColorFormat,
    /// Sampler configuration given to newly created resources.
    pub default_sampler: SamplerConfig,
    /// Arena of texture allocations, indexed by handle id.
    pub textures: Seq<TexModel>,
    /// Arena of shader-resource views; each entry is the handle id of the
    /// texture the view reads.
    pub views: Seq<int>,
    /// Sampler cache: the configuration of each created sampler object,
    /// indexed by sampler id.
    pub samplers: Seq<SamplerConfig>,
    /// Contents of the reusable CPU-mappable download buffer.
    pub download: Seq<u8>,
    /// How many times the download buffer was reallocated.
    pub download_reallocs: u64,
    /// How many times the command stream was flushed.
    pub flushes: u64,
    /// The active global blend mode.
    pub current_blend: BlendMode,
    /// How many times the blend mode was switched.
    pub blend_switches: u64,
    /// Whether the shared quad vertex buffer is bound.
    pub quad_bound: bool,
    /// The view id of the active texture binding, if any.
    pub bound_view: Option<int>,
    /// The sampler id of the active texture binding, if any.
    pub bound_sampler: Option<int>,
    /// How many draw calls were issued.
    pub draw_calls: u64,
}

impl CtxModel {
    /// A state a real context can take: its arenas live in addressable
    /// memory, so their ids fit the platform's address-width integer.
    pub open spec fn addressable(self) -> bool {
        &&& self.textures.len() <= usize::MAX
        &&& self.views.len() <= usize::MAX
    }
}

/// Shared rendering context: the modelled GPU state that every draw, upload
/// and readback goes through. Exclusive access is required for any such
/// operation; there is no internal locking.
pub struct RenderContext {
    pub context_id: u64,
    pub color_format: ColorFormat,
    pub default_sampler: SamplerConfig,
    pub textures: Vec<TextureData>,
    pub views: Vec<usize>,
    pub samplers: Vec<SamplerConfig>,
    pub download: Vec<u8>,
    pub download_reallocs: u64,
    pub flushes: u64,
    pub current_blend: BlendMode,
    pub blend_switches: u64,
    pub quad_bound: bool,
    pub bound_view: Option<usize>,
    pub bound_sampler: Option<usize>,
    pub draw_calls: u64,
}

impl View for RenderContext {
    type V = CtxModel;

    open spec fn view(&self) -> CtxModel {
        CtxModel {
            context_id: self.context_id,
            color_format: self.color_format,
            default_sampler: self.default_sampler,
            textures: self.textures@.map_values(|t: TextureData| t@),
            views: self.views@.map_values(|v: usize| v as int),
            samplers: self.samplers@,
            download: self.download@,
            download_reallocs: self.download_reallocs,
            flushes: self.flushes,
            current_blend: self.current_blend,
            blend_switches: self.blend_switches,
            quad_bound: self.quad_bound,
            bound_view: match self.bound_view {
                Some(v) => Some(v as int),
                None => None,
            },
            bound_sampler: match self.bound_sampler {
                Some(s) => Some(s as int),
                None => None,
            },
            draw_calls: self.draw_calls,
        }
    }
}

/// A counter advanced by `by`, saturating at the integer's upper bound.
pub open spec fn bump(c: u64, by: u64) -> u64 {
    if c + by <= u64::MAX {
        (c + by) as u64
    } else {
        u64::MAX
    }
}

/// Whether the sampler cache already holds a sampler of this configuration.
pub open spec fn sampler_cached(samplers: Seq<SamplerConfig>, cfg: SamplerConfig) -> bool {
    exists|i: int| 0 <= i < samplers.len() && samplers[i] == cfg
}

/// The sampler id that resolving `cfg` against the cache yields: the first
/// cached sampler of that configuration, or the id the new sampler gets.
pub open spec fn sampler_index(samplers: Seq<SamplerConfig>, cfg: SamplerConfig) -> int
    decreases samplers.len(),
{
    if samplers.len() == 0 {
        0
    } else if samplers[0] == cfg {
        0
    } else {
        1 + sampler_index(samplers.drop_first(), cfg)
    }
}

/// The sampler cache after resolving `cfg`: unchanged when a sampler of
/// that configuration is cached, extended by one otherwise.
pub open spec fn samplers_after(samplers: Seq<SamplerConfig>, cfg: SamplerConfig) -> Seq<
    SamplerConfig,
> {
    if sampler_cached(samplers, cfg) {
        samplers
    } else {
        samplers.push(cfg)
    }
}

/// `sampler_index` names the first cached occurrence of `cfg`.
proof fn lemma_sampler_index_found(samplers: Seq<SamplerConfig>, cfg: SamplerConfig, i: int)
    requires
        0 <= i < samplers.len(),
        samplers[i] == cfg,
        forall|j: int| 0 <= j < i ==> samplers[j] != cfg,
    ensures
        sampler_index(samplers, cfg) == i,
    decreases i,
{
    if i > 0 {
        lemma_sampler_index_found(samplers.drop_first(), cfg, i - 1);
    }
}

/// When no sampler of this configuration is cached, `sampler_index` is the
/// id the next created sampler gets.
proof fn lemma_sampler_index_absent(samplers: Seq<SamplerConfig>, cfg: SamplerConfig)
    requires
        forall|j: int| 0 <= j < samplers.len() ==> samplers[j] != cfg,
    ensures
        sampler_index(samplers, cfg) == samplers.len(),
    decreases samplers.len(),
{
    if samplers.len() > 0 {
        assert(forall|j: int|
            0 <= j < samplers.drop_first().len() ==> samplers.drop_first()[j] == samplers[j + 1]);
        lemma_sampler_index_absent(samplers.drop_first(), cfg);
    }
}

/// Resolving a configuration is stable: once a cache has resolved `cfg`,
/// resolving it again finds the very same sampler id and creates nothing.
pub proof fn lemma_resolve_stable(samplers: Seq<SamplerConfig>, cfg: SamplerConfig)
    ensures
        sampler_cached(samplers_after(samplers, cfg), cfg),
        sampler_index(samplers_after(samplers, cfg), cfg) == sampler_index(samplers, cfg),
        samplers_after(samplers_after(samplers, cfg), cfg) == samplers_after(samplers, cfg),
        0 <= sampler_index(samplers, cfg) < samplers_after(samplers, cfg).len(),
        samplers_after(samplers, cfg)[sampler_index(samplers, cfg)] == cfg,
{
    lemma_sampler_index_in_cache(samplers, cfg);
    if sampler_cached(samplers, cfg) {
    } else {
        let pushed = samplers.push(cfg);
        assert(pushed[samplers.len() as int] == cfg);
        assert(sampler_cached(pushed, cfg));
        assert(forall|j: int| 0 <= j < samplers.len() ==> pushed[j] == samplers[j]);
        lemma_sampler_index_absent(samplers, cfg);
        lemma_sampler_index_found(pushed, cfg, samplers.len() as int);
    }
}

/// The resolved sampler id lies in the cache that resolution leaves behind,
/// and names a sampler of the resolved configuration.
pub proof fn lemma_sampler_index_in_cache(samplers: Seq<SamplerConfig>, cfg: SamplerConfig)
    ensures
        0 <= sampler_index(samplers, cfg) < samplers_after(samplers, cfg).len(),
        samplers_after(samplers, cfg)[sampler_index(samplers, cfg)] == cfg,
        sampler_cached(samplers, cfg) ==> sampler_index(samplers, cfg) < samplers.len(),
        !sampler_cached(samplers, cfg) ==> sampler_index(samplers, cfg) == samplers.len(),
    decreases samplers.len(),
{
    if samplers.len() == 0 {
        assert(samplers_after(samplers, cfg) == samplers.push(cfg));
        assert(samplers.push(cfg)[0] == cfg);
    } else if samplers[0] == cfg {
        assert(sampler_cached(samplers, cfg));
    } else {
        let rest = samplers.drop_first();
        lemma_sampler_index_in_cache(rest, cfg);
        assert(forall|j: int| 0 <= j < rest.len() ==> rest[j] == samplers[j + 1]);
        if sampler_cached(rest, cfg) {
            let i = choose|i: int| 0 <= i < rest.len() && rest[i] == cfg;
            assert(samplers[i + 1] == cfg);
            assert(sampler_cached(samplers, cfg));
            assert(samplers_after(samplers, cfg)[sampler_index(samplers, cfg)] == cfg);
        } else {
            assert(forall|j: int| 0 <= j < samplers.len() ==> samplers[j] != cfg) by {
                assert(forall|j: int| 1 <= j < samplers.len() ==> samplers[j] == rest[j - 1]);
            }
            assert(!sampler_cached(samplers, cfg));
            assert(samplers.push(cfg)[sampler_index(samplers, cfg)] == cfg);
        }
    }
}

impl RenderContext {
    /// A fresh rendering context carrying the given debug identity: empty
    /// arenas, an empty sampler cache and download buffer, alpha blending
    /// active, and a linear/clamp default sampler.
    pub fn new(context_id: u64) -> (ctx: RenderContext)
        ensures
            ctx@ == initial_ctx(context_id),
    {
        let ctx = RenderContext {
            context_id,
            color_format: ColorFormat::Rgba8Srgb,
            default_sampler: SamplerConfig {
                filter: FilterMode::Linear,
                wrap_x: WrapMode::Clamp,
                wrap_y: WrapMode::Clamp,
            },
            textures: Vec::new(),
            views: Vec::new(),
            samplers: Vec::new(),
            download: Vec::new(),
            download_reallocs: 0,
            flushes: 0,
            current_blend: BlendMode::Alpha,
            blend_switches: 0,
            quad_bound: false,
            bound_view: None,
            bound_sampler: None,
            draw_calls: 0,
        };
        proof {
            assert(ctx@ =~= initial_ctx(context_id));
        }
        ctx
    }

    /// The active global blend mode.
    pub fn blend_mode(&self) -> (m: BlendMode)
        ensures
            m == self@.current_blend,
    {
        self.current_blend
    }

    /// Switch the active global blend mode, counting the transition.
    pub fn set_blend_mode(&mut self, mode: BlendMode)
        ensures
            final(self)@ == (CtxModel {
                current_blend: mode,
                blend_switches: bump(old(self)@.blend_switches, 1),
                ..old(self)@
            }),
    {
        self.current_blend = mode;
        self.blend_switches = if self.blend_switches < u64::MAX {
            self.blend_switches + 1
        } else {
            u64::MAX
        };
        proof {
            assert(self@ =~= CtxModel {
                current_blend: mode,
                blend_switches: bump(old(self)@.blend_switches, 1),
                ..old(self)@
            });
        }
    }

    /// Resolve a sampler object for this configuration: the first cached
    /// sampler with the same configuration, or a newly created one.
    pub fn get_or_insert_sampler(&mut self, cfg: SamplerConfig) -> (idx: usize)
        ensures
            final(self)@ == (CtxModel {
                samplers: samplers_after(old(self)@.samplers, cfg),
                ..old(self)@
            }),
            idx as int == sampler_index(old(self)@.samplers, cfg),
            final(self)@.samplers[idx as int] == cfg,
            idx < final(self)@.samplers.len(),
    {
        proof {
            lemma_sampler_index_in_cache(self@.samplers, cfg);
        }
        let n = self.samplers.len();
        let mut i: usize = 0;
        while i < n
            invariant
                n == self.samplers.len(),
                0 <= i <= n,
                forall|j: int| 0 <= j < i ==> self.samplers@[j] != cfg,
            decreases n - i,
        {
            if self.samplers[i] == cfg {
                proof {
                    lemma_sampler_index_found(self@.samplers, cfg, i as int);
                    assert(self@ =~= CtxModel {
                        samplers: samplers_after(self@.samplers, cfg),
                        ..self@
                    });
                }
                return i;
            }
            i = i + 1;
        }
        proof {
            lemma_sampler_index_absent(self@.samplers, cfg);
        }
        self.samplers.push(cfg);
        proof {
            assert(self@ =~= CtxModel {
                samplers: samplers_after(old(self)@.samplers, cfg),
                ..old(self)@
            });
        }
        n
    }
}

/// The model of a freshly created rendering context.
pub open spec fn initial_ctx(context_id: u64) -> CtxModel {
    CtxModel {
        context_id,
        color_format: ColorFormat::Rgba8Srgb,
        default_sampler: SamplerConfig {
            filter: FilterMode::Linear,
            wrap_x: WrapMode::Clamp,
            wrap_y: WrapMode::Clamp,
        },
        textures: Seq::empty(),
        views: Seq::empty(),
        samplers: Seq::empty(),
        download: Seq::empty(),
        download_reallocs: 0,
        flushes: 0,
        current_blend: BlendMode::Alpha,
        blend_switches: 0,
        quad_bound: false,
        bound_view: None,
        bound_sampler: None,
        draw_calls: 0,
    }
}

} // verus!
