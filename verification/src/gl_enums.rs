use vstd::prelude::*;

verus! {

// Blend factors.
pub const ZERO: u32 = 0;

pub const ONE: u32 = 1;

pub const SRC_COLOR: u32 = 0x0300;

pub const ONE_MINUS_SRC_COLOR: u32 = 0x0301;

pub const SRC_ALPHA: u32 = 0x0302;

pub const ONE_MINUS_SRC_ALPHA: u32 = 0x0303;

pub const DST_ALPHA: u32 = 0x0304;

pub const ONE_MINUS_DST_ALPHA: u32 = 0x0305;

pub const DST_COLOR: u32 = 0x0306;

pub const ONE_MINUS_DST_COLOR: u32 = 0x0307;

pub const SRC_ALPHA_SATURATE: u32 = 0x0308;

pub const CONSTANT_COLOR: u32 = 0x8001;

pub const ONE_MINUS_CONSTANT_COLOR: u32 = 0x8002;

pub const CONSTANT_ALPHA: u32 = 0x8003;

pub const ONE_MINUS_CONSTANT_ALPHA: u32 = 0x8004;

// Comparison functions of the depth test.
pub const NEVER: u32 = 0x0200;

pub const LESS: u32 = 0x0201;

pub const EQUAL: u32 = 0x0202;

pub const LEQUAL: u32 = 0x0203;

pub const GREATER: u32 = 0x0204;

pub const NOTEQUAL: u32 = 0x0205;

pub const GEQUAL: u32 = 0x0206;

pub const ALWAYS: u32 = 0x0207;

// Polygon rasterisation modes.
pub const POINT: u32 = 0x1B00;

pub const LINE: u32 = 0x1B01;

pub const FILL: u32 = 0x1B02;

// Texture filters.
pub const NEAREST: u32 = 0x2600;

pub const LINEAR: u32 = 0x2601;

pub const NEAREST_MIPMAP_NEAREST: u32 = 0x2700;

pub const LINEAR_MIPMAP_NEAREST: u32 = 0x2701;

pub const NEAREST_MIPMAP_LINEAR: u32 = 0x2702;

pub const LINEAR_MIPMAP_LINEAR: u32 = 0x2703;

// Component types of vertex attributes.
pub const UNSIGNED_BYTE: u32 = 0x1401;

pub const UNSIGNED_INT: u32 = 0x1405;

pub const FLOAT: u32 = 0x1406;

// Framebuffer status.
pub const FRAMEBUFFER_COMPLETE: u32 = 0x8CD5;

} // verus!
