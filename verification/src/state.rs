//! Plain descriptions of device state that commands carry.
//!
//! Real-valued quantities (colour channels, uniform values) are carried as the
//! bit patterns of single-precision numbers.

use vstd::prelude::*;

verus! {

/// How texels are sampled between texel centres or mip levels.
#[derive(Clone, Copy, Debug, PartialEq, Eq)]
pub enum Interpolation {
    Nearest,
    Linear,
}

/// What sampling does outside the unit square.
#[derive(Clone, Copy, Debug, PartialEq, Eq)]
pub enum Wrapping {
    Repeat,
    MirroredRepeat,
    ClampToEdge,
}

/// The channel layout of a texture.
#[derive(Clone, Copy, Debug, PartialEq, Eq)]
pub enum Format {
    R,
    RG,
    RGB,
    RGBA,
    SRGB,
    SRGBA,
}

/// An 8-bit colour with alpha.
#[derive(Clone, Copy, Debug, PartialEq, Eq)]
pub struct Color {
    pub r: u8,
    pub g: u8,
    pub b: u8,
    pub a: u8,
}

/// Which attachments a pass clears before it draws, and to which values.
/// A channel that is `None` keeps its content.
#[derive(Clone, Copy, Debug, PartialEq, Eq)]
pub struct ClearState {
    pub red: Option<u32>,
    pub green: Option<u32>,
    pub blue: Option<u32>,
    pub alpha: Option<u32>,
    pub depth: Option<u32>,
}

impl ClearState {
    /// Clears nothing.
    pub fn none() -> (state: ClearState)
        ensures
            state == (ClearState { red: None, green: None, blue: None, alpha: None, depth: None }),
    {
        ClearState { red: None, green: None, blue: None, alpha: None, depth: None }
    }

    /// Clears the depth attachment only.
    pub fn depth(depth: u32) -> (state: ClearState)
        ensures
            state == (ClearState {
                red: None,
                green: None,
                blue: None,
                alpha: None,
                depth: Some(depth),
            }),
    {
        ClearState { red: None, green: None, blue: None, alpha: None, depth: Some(depth) }
    }

    /// Clears the colour attachments only.
    pub fn color(red: u32, green: u32, blue: u32, alpha: u32) -> (state: ClearState)
        ensures
            state == (ClearState {
                red: Some(red),
                green: Some(green),
                blue: Some(blue),
                alpha: Some(alpha),
                depth: None,
            }),
    {
        ClearState {
            red: Some(red),
            green: Some(green),
            blue: Some(blue),
            alpha: Some(alpha),
            depth: None,
        }
    }

    /// Clears colour and depth.
    pub fn color_and_depth(red: u32, green: u32, blue: u32, alpha: u32, depth: u32) -> (state:
        ClearState)
        ensures
            state == (ClearState {
                red: Some(red),
                green: Some(green),
                blue: Some(blue),
                alpha: Some(alpha),
                depth: Some(depth),
            }),
    {
        ClearState {
            red: Some(red),
            green: Some(green),
            blue: Some(blue),
            alpha: Some(alpha),
            depth: Some(depth),
        }
    }

    /// The same clear without its depth part: what a pass without a depth
    /// attachment clears.
    pub open spec fn spec_color_only(self) -> ClearState {
        ClearState { depth: None, ..self }
    }

    /// Whether any colour channel is cleared.
    pub open spec fn spec_clears_color(self) -> bool {
        self.red is Some || self.green is Some || self.blue is Some || self.alpha is Some
    }

    /// The same clear without its depth part.
    pub fn color_only(&self) -> (state: ClearState)
        ensures
            state == self.spec_color_only(),
    {
        ClearState {
            red: self.red,
            green: self.green,
            blue: self.blue,
            alpha: self.alpha,
            depth: None,
        }
    }

    /// Whether any colour channel is cleared.
    pub fn clears_color(&self) -> (any: bool)
        ensures
            any == self.spec_clears_color(),
    {
        self.red.is_some() || self.green.is_some() || self.blue.is_some() || self.alpha.is_some()
    }
}

/// Which channels a draw writes.
#[derive(Clone, Copy, Debug, PartialEq, Eq)]
pub enum WriteMask {
    ColorAndDepth,
    Color,
    Depth,
    Nothing,
}

/// How a draw combines its output with what the target holds.
#[derive(Clone, Copy, Debug, PartialEq, Eq)]
pub enum Blend {
    Disabled,
    Transparency,
    Add,
}

/// Which faces a draw leaves out.
#[derive(Clone, Copy, Debug, PartialEq, Eq)]
pub enum Cull {
    Off,
    Back,
    Front,
    FrontAndBack,
}

/// Which fragments pass the depth test.
#[derive(Clone, Copy, Debug, PartialEq, Eq)]
pub enum DepthTest {
    Never,
    Less,
    Equal,
    LessOrEqual,
    Greater,
    NotEqual,
    GreaterOrEqual,
    Always,
}

/// The whole render state of one draw.
#[derive(Clone, Copy, Debug, PartialEq, Eq)]
pub struct RenderStates {
    pub write_mask: WriteMask,
    pub blend: Blend,
    pub cull: Cull,
    pub depth_test: DepthTest,
}

impl Default for RenderStates {
    /// Opaque drawing of all faces into colour and depth, nearer fragments
    /// winning.
    fn default() -> (states: RenderStates)
        ensures
            states == (RenderStates {
                write_mask: WriteMask::ColorAndDepth,
                blend: Blend::Disabled,
                cull: Cull::Off,
                depth_test: DepthTest::Less,
            }),
    {
        RenderStates {
            write_mask: WriteMask::ColorAndDepth,
            blend: Blend::Disabled,
            cull: Cull::Off,
            depth_test: DepthTest::Less,
        }
    }
}

/// The rectangle of the target that a draw covers.
#[derive(Clone, Copy, Debug, PartialEq, Eq)]
pub struct Viewport {
    pub x: i32,
    pub y: i32,
    pub width: u32,
    pub height: u32,
}

/// The value of a shader uniform.
#[derive(Clone, Copy, Debug, PartialEq, Eq)]
pub enum UniformValue {
    Float(u32),
    Color(Color),
    Vec3([u32; 3]),
    Vec4([u32; 4]),
    Mat4([u32; 16]),
}

/// A texture as a sampler sees it: its device name and its kind.
#[derive(Clone, Copy, Debug, PartialEq, Eq)]
pub struct TextureBinding {
    pub texture: u32,
    pub target: u32,
}

/// What an effect binds to a name of its shader.
#[derive(Clone, Copy, Debug, PartialEq, Eq)]
pub enum BindingValue {
    Uniform(UniformValue),
    Texture(TextureBinding),
}

} // verus!
