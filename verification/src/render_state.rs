use crate::gl_enums;
use vstd::prelude::*;
use vstd::std_specs::convert::FromSpecImpl;

verus! {

/// How the faces of a mesh are rasterised.
#[derive(Debug, Clone, Copy, PartialEq, Eq, Structural)]
pub enum RenderingType {
    Solid,
    Wireframe,
    Points,
}

impl RenderingType {
    /// The polygon mode that the graphics API knows this rendering type by.
    pub open spec fn polygon_mode_spec(self) -> u32 {
        match self {
            RenderingType::Solid => gl_enums::FILL,
            RenderingType::Wireframe => gl_enums::LINE,
            RenderingType::Points => gl_enums::POINT,
        }
    }

    /// The polygon mode to set, for front and back faces alike, before a
    /// mesh is drawn.
    pub fn polygon_mode(self) -> (mode: u32)
        ensures
            mode == self.polygon_mode_spec(),
    {
        match self {
            RenderingType::Solid => gl_enums::FILL,
            RenderingType::Wireframe => gl_enums::LINE,
            RenderingType::Points => gl_enums::POINT,
        }
    }
}

/// A comparison for the depth test; `Disabled` switches the test off.
#[derive(Debug, Clone, Copy, PartialEq, Eq, Structural)]
pub enum DepthType {
    Disabled,
    Never,
    Less,
    Equal,
    LessOrEqual,
    Greater,
    NotEqual,
    GreaterOrEqual,
    Always,
}

impl DepthType {
    /// The comparison function of the graphics API, where the depth test is
    /// on.
    pub open spec fn depth_func(self) -> Option<u32> {
        match self {
            DepthType::Disabled => None,
            DepthType::Never => Some(gl_enums::NEVER),
            DepthType::Less => Some(gl_enums::LESS),
            DepthType::Equal => Some(gl_enums::EQUAL),
            DepthType::LessOrEqual => Some(gl_enums::LEQUAL),
            DepthType::Greater => Some(gl_enums::GREATER),
            DepthType::NotEqual => Some(gl_enums::NOTEQUAL),
            DepthType::GreaterOrEqual => Some(gl_enums::GEQUAL),
            DepthType::Always => Some(gl_enums::ALWAYS),
        }
    }
}

impl From<DepthType> for Option<u32> {
    /// `Some` comparison function to enable the depth test with, or `None`
    /// to disable the test.
    fn from(func: DepthType) -> (depth_func: Option<u32>) {
        match func {
            DepthType::Disabled => None,
            DepthType::Never => Some(gl_enums::NEVER),
            DepthType::Less => Some(gl_enums::LESS),
            DepthType::Equal => Some(gl_enums::EQUAL),
            DepthType::LessOrEqual => Some(gl_enums::LEQUAL),
            DepthType::Greater => Some(gl_enums::GREATER),
            DepthType::NotEqual => Some(gl_enums::NOTEQUAL),
            DepthType::GreaterOrEqual => Some(gl_enums::GEQUAL),
            DepthType::Always => Some(gl_enums::ALWAYS),
        }
    }
}

impl FromSpecImpl<DepthType> for Option<u32> {
    open spec fn obeys_from_spec() -> bool {
        true
    }

    open spec fn from_spec(func: DepthType) -> Option<u32> {
        func.depth_func()
    }
}

/// A factor by which a colour enters the blend equation.
#[derive(Debug, Clone, Copy, PartialEq, Eq, Structural)]
pub enum BlendFactor {
    Zero,
    One,
    SrcColor,
    OneMinusSrcColor,
    DstColor,
    OneMinusDstColor,
    SrcAlpha,
    OneMinusSrcAlpha,
    DstAlpha,
    OneMinusDstAlpha,
    ConstantColor,
    OneMinusConstantColor,
    ConstantAlpha,
    OneMinusConstantAlpha,
    SrcAlphaSaturate,
}

impl BlendFactor {
    /// The value that the graphics API knows this factor by.
    pub open spec fn gl_enum(self) -> u32 {
        match self {
            BlendFactor::Zero => gl_enums::ZERO,
            BlendFactor::One => gl_enums::ONE,
            BlendFactor::SrcColor => gl_enums::SRC_COLOR,
            BlendFactor::OneMinusSrcColor => gl_enums::ONE_MINUS_SRC_COLOR,
            BlendFactor::DstColor => gl_enums::DST_COLOR,
            BlendFactor::OneMinusDstColor => gl_enums::ONE_MINUS_DST_COLOR,
            BlendFactor::SrcAlpha => gl_enums::SRC_ALPHA,
            BlendFactor::OneMinusSrcAlpha => gl_enums::ONE_MINUS_SRC_ALPHA,
            BlendFactor::DstAlpha => gl_enums::DST_ALPHA,
            BlendFactor::OneMinusDstAlpha => gl_enums::ONE_MINUS_DST_ALPHA,
            BlendFactor::ConstantColor => gl_enums::CONSTANT_COLOR,
            BlendFactor::OneMinusConstantColor => gl_enums::ONE_MINUS_CONSTANT_COLOR,
            BlendFactor::ConstantAlpha => gl_enums::CONSTANT_ALPHA,
            BlendFactor::OneMinusConstantAlpha => gl_enums::ONE_MINUS_CONSTANT_ALPHA,
            BlendFactor::SrcAlphaSaturate => gl_enums::SRC_ALPHA_SATURATE,
        }
    }
}

impl From<BlendFactor> for u32 {
    /// The value that the graphics API knows `factor` by.
    fn from(factor: BlendFactor) -> (value: u32) {
        match factor {
            BlendFactor::Zero => gl_enums::ZERO,
            BlendFactor::One => gl_enums::ONE,
            BlendFactor::SrcColor => gl_enums::SRC_COLOR,
            BlendFactor::OneMinusSrcColor => gl_enums::ONE_MINUS_SRC_COLOR,
            BlendFactor::DstColor => gl_enums::DST_COLOR,
            BlendFactor::OneMinusDstColor => gl_enums::ONE_MINUS_DST_COLOR,
            BlendFactor::SrcAlpha => gl_enums::SRC_ALPHA,
            BlendFactor::OneMinusSrcAlpha => gl_enums::ONE_MINUS_SRC_ALPHA,
            BlendFactor::DstAlpha => gl_enums::DST_ALPHA,
            BlendFactor::OneMinusDstAlpha => gl_enums::ONE_MINUS_DST_ALPHA,
            BlendFactor::ConstantColor => gl_enums::CONSTANT_COLOR,
            BlendFactor::OneMinusConstantColor => gl_enums::ONE_MINUS_CONSTANT_COLOR,
            BlendFactor::ConstantAlpha => gl_enums::CONSTANT_ALPHA,
            BlendFactor::OneMinusConstantAlpha => gl_enums::ONE_MINUS_CONSTANT_ALPHA,
            BlendFactor::SrcAlphaSaturate => gl_enums::SRC_ALPHA_SATURATE,
        }
    }
}

impl FromSpecImpl<BlendFactor> for u32 {
    open spec fn obeys_from_spec() -> bool {
        true
    }

    open spec fn from_spec(factor: BlendFactor) -> u32 {
        factor.gl_enum()
    }
}

/// How a drawn colour is combined with the colour already in the buffer.
#[derive(Debug, Clone, Copy, PartialEq, Eq, Structural)]
pub enum BlendMode {
    Disabled,
    Alpha,
    Additive,
    Multiplicative,
    Custom {
        src_rgb: BlendFactor,
        dst_rgb: BlendFactor,
        src_alpha: BlendFactor,
        dst_alpha: BlendFactor,
    },
}

/// The blend state to put the graphics API into.
#[derive(Debug, Clone, Copy, PartialEq, Eq, Structural)]
pub enum BlendSetup {
    /// Blending is switched off.
    Disabled,
    /// Blending is on, with one pair of factors for colour and alpha alike.
    Uniform { src: u32, dst: u32 },
    /// Blending is on, with factors for colour and for alpha.
    Separate { src_rgb: u32, dst_rgb: u32, src_alpha: u32, dst_alpha: u32 },
}

impl BlendMode {
    /// The blend state that stands for this mode.
    pub open spec fn setup_spec(self) -> BlendSetup {
        match self {
            BlendMode::Disabled => BlendSetup::Disabled,
            BlendMode::Alpha => BlendSetup::Uniform {
                src: gl_enums::SRC_ALPHA,
                dst: gl_enums::ONE_MINUS_SRC_ALPHA,
            },
            BlendMode::Additive => BlendSetup::Uniform {
                src: gl_enums::SRC_ALPHA,
                dst: gl_enums::ONE,
            },
            BlendMode::Multiplicative => BlendSetup::Uniform {
                src: gl_enums::DST_COLOR,
                dst: gl_enums::ZERO,
            },
            BlendMode::Custom { src_rgb, dst_rgb, src_alpha, dst_alpha } => BlendSetup::Separate {
                src_rgb: src_rgb.gl_enum(),
                dst_rgb: dst_rgb.gl_enum(),
                src_alpha: src_alpha.gl_enum(),
                dst_alpha: dst_alpha.gl_enum(),
            },
        }
    }

    /// The blend state to set for this mode.
    pub fn setup(self) -> (setup: BlendSetup)
        ensures
            setup == self.setup_spec(),
    {
        match self {
            BlendMode::Disabled => BlendSetup::Disabled,
            BlendMode::Alpha => BlendSetup::Uniform {
                src: gl_enums::SRC_ALPHA,
                dst: gl_enums::ONE_MINUS_SRC_ALPHA,
            },
            BlendMode::Additive => BlendSetup::Uniform {
                src: gl_enums::SRC_ALPHA,
                dst: gl_enums::ONE,
            },
            BlendMode::Multiplicative => BlendSetup::Uniform {
                src: gl_enums::DST_COLOR,
                dst: gl_enums::ZERO,
            },
            BlendMode::Custom { src_rgb, dst_rgb, src_alpha, dst_alpha } => BlendSetup::Separate {
                src_rgb: u32::from(src_rgb),
                dst_rgb: u32::from(dst_rgb),
                src_alpha: u32::from(src_alpha),
                dst_alpha: u32::from(dst_alpha),
            },
        }
    }
}

} // verus!
