//! Draw parameters: blending, point and line width, depth handling.
//!
//! `Screen::blend_mode` maps each named Processing blend mode to the
//! blending functions and factors the GPU collaborator is to use; the
//! mapping is stated in full in `spec_blend_of_mode`.

use vstd::prelude::*;

use crate::constants::BlendMode;
use crate::Screen;

verus! {

/// A multiplicative factor of a blending equation.
#[derive(Clone, Copy, Debug, PartialEq, Eq, Structural)]
pub enum LinearBlendingFactor {
    Zero,
    One,
    SourceAlpha,
    OneMinusSourceAlpha,
    SourceColor,
    OneMinusSourceColor,
    OneMinusDestinationColor,
}

/// How a source fragment is combined with the destination.
#[derive(Clone, Copy, Debug, PartialEq, Eq, Structural)]
pub enum BlendingFunction {
    AlwaysReplace,
    Min,
    Max,
    Addition { source: LinearBlendingFactor, destination: LinearBlendingFactor },
    ReverseSubtraction { source: LinearBlendingFactor, destination: LinearBlendingFactor },
}

/// A constant blend color, Q16.16 per channel.
#[derive(Clone, Copy, Debug, PartialEq, Eq, Structural)]
pub struct BlendConstant {
    pub r: i32,
    pub g: i32,
    pub b: i32,
    pub a: i32,
}

/// The constant color every blend mode uses: opaque white.
pub open spec fn spec_blend_ones() -> BlendConstant {
    BlendConstant { r: 65536, g: 65536, b: 65536, a: 65536 }
}

/// The full blend state: one function for color, one for alpha, and a
/// constant color.
#[derive(Clone, Copy, Debug, PartialEq, Eq, Structural)]
pub struct Blend {
    pub color: BlendingFunction,
    pub alpha: BlendingFunction,
    pub constant_value: BlendConstant,
}

/// How depth values are compared when a fragment lands.
#[derive(Clone, Copy, Debug, PartialEq, Eq, Structural)]
pub enum DepthTest {
    Overwrite,
    IfLess,
}

/// The render parameters carried into every draw call.
#[derive(Clone, Copy, Debug, PartialEq, Eq, Structural)]
pub struct DrawParams {
    /// Point diameter, Q16.16.
    pub point_size: i32,
    /// Line width, Q16.16.
    pub line_width: i32,
    pub depth_write: bool,
    pub depth_test: DepthTest,
    pub multisampling: bool,
    pub smooth: bool,
    pub blend: Blend,
}

/// Additive blending of straight-alpha colors with a plain alpha sum: the
/// alpha half shared by every mode but `Replace`.
pub open spec fn spec_alpha_one_one() -> BlendingFunction {
    BlendingFunction::Addition {
        source: LinearBlendingFactor::One,
        destination: LinearBlendingFactor::One,
    }
}

/// The blend state each named mode stands for.
pub open spec fn spec_blend_of_mode(mode: BlendMode) -> Blend {
    match mode {
        BlendMode::Replace => Blend {
            color: BlendingFunction::AlwaysReplace,
            alpha: BlendingFunction::AlwaysReplace,
            constant_value: spec_blend_ones(),
        },
        BlendMode::Blend => Blend {
            color: BlendingFunction::Addition {
                source: LinearBlendingFactor::SourceAlpha,
                destination: LinearBlendingFactor::OneMinusSourceAlpha,
            },
            alpha: spec_alpha_one_one(),
            constant_value: spec_blend_ones(),
        },
        BlendMode::Add => Blend {
            color: BlendingFunction::Addition {
                source: LinearBlendingFactor::SourceAlpha,
                destination: LinearBlendingFactor::One,
            },
            alpha: spec_alpha_one_one(),
            constant_value: spec_blend_ones(),
        },
        BlendMode::Subtract => Blend {
            color: BlendingFunction::ReverseSubtraction {
                source: LinearBlendingFactor::SourceAlpha,
                destination: LinearBlendingFactor::One,
            },
            alpha: spec_alpha_one_one(),
            constant_value: spec_blend_ones(),
        },
        BlendMode::Lightest => Blend {
            color: BlendingFunction::Max,
            alpha: spec_alpha_one_one(),
            constant_value: spec_blend_ones(),
        },
        BlendMode::Darkest => Blend {
            color: BlendingFunction::Min,
            alpha: spec_alpha_one_one(),
            constant_value: spec_blend_ones(),
        },
        BlendMode::Exclusion => Blend {
            color: BlendingFunction::Addition {
                source: LinearBlendingFactor::OneMinusDestinationColor,
                destination: LinearBlendingFactor::OneMinusSourceAlpha,
            },
            alpha: spec_alpha_one_one(),
            constant_value: spec_blend_ones(),
        },
        BlendMode::Multiply => Blend {
            color: BlendingFunction::Addition {
                source: LinearBlendingFactor::Zero,
                destination: LinearBlendingFactor::SourceColor,
            },
            alpha: spec_alpha_one_one(),
            constant_value: spec_blend_ones(),
        },
        BlendMode::Screen => Blend {
            color: BlendingFunction::Addition {
                source: LinearBlendingFactor::OneMinusDestinationColor,
                destination: LinearBlendingFactor::One,
            },
            alpha: spec_alpha_one_one(),
            constant_value: spec_blend_ones(),
        },
    }
}

/// The draw parameters a fresh screen starts with: width-2 points and
/// lines, depth writes with an overwrite test, ordinary alpha blending,
/// no multisampling and no smoothing.
pub open spec fn spec_initial_draw_params() -> DrawParams {
    DrawParams {
        point_size: 131072,
        line_width: 131072,
        depth_write: true,
        depth_test: DepthTest::Overwrite,
        multisampling: false,
        smooth: false,
        blend: spec_blend_of_mode(BlendMode::Blend),
    }
}

/// The exec mirror of `spec_initial_draw_params`.
pub(crate) fn initial_draw_params() -> (r: DrawParams)
    ensures
        r == spec_initial_draw_params(),
{
    DrawParams {
        point_size: 131072,
        line_width: 131072,
        depth_write: true,
        depth_test: DepthTest::Overwrite,
        multisampling: false,
        smooth: false,
        blend: blend_of_mode(BlendMode::Blend),
    }
}

/// The exec mirror of `spec_blend_of_mode`.
pub(crate) fn blend_of_mode(mode: BlendMode) -> (r: Blend)
    ensures
        r == spec_blend_of_mode(mode),
{
    let alpha_sum = BlendingFunction::Addition {
        source: LinearBlendingFactor::One,
        destination: LinearBlendingFactor::One,
    };
    let ones = BlendConstant { r: 65536, g: 65536, b: 65536, a: 65536 };
    match mode {
        BlendMode::Replace => Blend {
            color: BlendingFunction::AlwaysReplace,
            alpha: BlendingFunction::AlwaysReplace,
            constant_value: ones,
        },
        BlendMode::Blend => Blend {
            color: BlendingFunction::Addition {
                source: LinearBlendingFactor::SourceAlpha,
                destination: LinearBlendingFactor::OneMinusSourceAlpha,
            },
            alpha: alpha_sum,
            constant_value: ones,
        },
        BlendMode::Add => Blend {
            color: BlendingFunction::Addition {
                source: LinearBlendingFactor::SourceAlpha,
                destination: LinearBlendingFactor::One,
            },
            alpha: alpha_sum,
            constant_value: ones,
        },
        BlendMode::Subtract => Blend {
            color: BlendingFunction::ReverseSubtraction {
                source: LinearBlendingFactor::SourceAlpha,
                destination: LinearBlendingFactor::One,
            },
            alpha: alpha_sum,
            constant_value: ones,
        },
        BlendMode::Lightest => Blend {
            color: BlendingFunction::Max,
            alpha: alpha_sum,
            constant_value: ones,
        },
        BlendMode::Darkest => Blend {
            color: BlendingFunction::Min,
            alpha: alpha_sum,
            constant_value: ones,
        },
        BlendMode::Exclusion => Blend {
            color: BlendingFunction::Addition {
                source: LinearBlendingFactor::OneMinusDestinationColor,
                destination: LinearBlendingFactor::OneMinusSourceAlpha,
            },
            alpha: alpha_sum,
            constant_value: ones,
        },
        BlendMode::Multiply => Blend {
            color: BlendingFunction::Addition {
                source: LinearBlendingFactor::Zero,
                destination: LinearBlendingFactor::SourceColor,
            },
            alpha: alpha_sum,
            constant_value: ones,
        },
        BlendMode::Screen => Blend {
            color: BlendingFunction::Addition {
                source: LinearBlendingFactor::OneMinusDestinationColor,
                destination: LinearBlendingFactor::One,
            },
            alpha: alpha_sum,
            constant_value: ones,
        },
    }
}

impl Screen {
    /// Select the blending rule used by subsequent draw calls; every other
    /// part of the screen state is untouched.
    pub fn blend_mode(&mut self, mode: BlendMode)
        ensures
            *final(self) == (Screen {
                draw_params: (DrawParams { blend: spec_blend_of_mode(mode), ..old(self).draw_params }),
                ..*old(self)
            }),
    {
        let b = blend_of_mode(mode);
        self.draw_params.blend = b;
    }
}

} // verus!
