//! The description of the one sampler that every material binds.

use vstd::prelude::*;

verus! {

/// How texture coordinates outside the unit range are treated.
#[derive(Clone, Copy, Debug, PartialEq, Eq, Structural)]
pub enum AddressMode {
    ClampToEdge,
    Repeat,
    MirrorRepeat,
}

/// How texels are combined when a texture is sampled.
#[derive(Clone, Copy, Debug, PartialEq, Eq, Structural)]
pub enum FilterMode {
    Nearest,
    Linear,
}

/// The comparison of a depth-comparison sampler; `Undefined` for a sampler
/// that does not compare.
#[derive(Clone, Copy, Debug, PartialEq, Eq, Structural)]
pub enum CompareFunction {
    Undefined,
    Never,
    Less,
    Equal,
    LessEqual,
    Greater,
    NotEqual,
    GreaterEqual,
    Always,
}

/// What a sampler does. The level-of-detail clamps are whole numbers.
#[derive(Clone, Copy, Debug, PartialEq, Eq, Structural)]
pub struct SamplerDescriptor {
    pub address_mode_u: AddressMode,
    pub address_mode_v: AddressMode,
    pub address_mode_w: AddressMode,
    pub mag_filter: FilterMode,
    pub min_filter: FilterMode,
    pub mipmap_filter: FilterMode,
    pub lod_min_clamp: i32,
    pub lod_max_clamp: i32,
    pub compare: CompareFunction,
}

/// The lowest level of detail that the default sampler selects.
pub const LOD_MIN_CLAMP: i32 = -100;

/// The highest level of detail that the default sampler selects.
pub const LOD_MAX_CLAMP: i32 = 100;

/// The sampler of every material: repeat on all three axes, nearest
/// magnification, linear minification, nearest mip selection, level of detail
/// clamped to -100..100, no comparison.
pub open spec fn default_sampler() -> SamplerDescriptor {
    SamplerDescriptor {
        address_mode_u: AddressMode::Repeat,
        address_mode_v: AddressMode::Repeat,
        address_mode_w: AddressMode::Repeat,
        mag_filter: FilterMode::Nearest,
        min_filter: FilterMode::Linear,
        mipmap_filter: FilterMode::Nearest,
        lod_min_clamp: LOD_MIN_CLAMP,
        lod_max_clamp: LOD_MAX_CLAMP,
        compare: CompareFunction::Undefined,
    }
}

impl SamplerDescriptor {
    /// Describes the default sampler.
    pub fn new() -> (sampler: SamplerDescriptor)
        ensures
            sampler == default_sampler(),
    {
        SamplerDescriptor {
            address_mode_u: AddressMode::Repeat,
            address_mode_v: AddressMode::Repeat,
            address_mode_w: AddressMode::Repeat,
            mag_filter: FilterMode::Nearest,
            min_filter: FilterMode::Linear,
            mipmap_filter: FilterMode::Nearest,
            lod_min_clamp: LOD_MIN_CLAMP,
            lod_max_clamp: LOD_MAX_CLAMP,
            compare: CompareFunction::Undefined,
        }
    }
}

} // verus!
