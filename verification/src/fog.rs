//! Fog: the image gets hazy where what it shows is far away.

use vstd::prelude::*;
use crate::context::{Context, ContextView};
use crate::effect::{applied, EffectView, ImageEffect};
use crate::error::Error;
use crate::state::{
    BindingValue, Blend, Color, Cull, DepthTest, RenderStates, TextureBinding, UniformValue,
    Viewport, WriteMask,
};

verus! {

/// The render state of the fog draw: colour only, blended over what is
/// there, back faces left out.
pub open spec fn fog_render_states() -> RenderStates {
    RenderStates {
        write_mask: WriteMask::Color,
        blend: Blend::Transparency,
        cull: Cull::Back,
        depth_test: DepthTest::Less,
    }
}

/// The bindings of one fog draw, on top of what was bound before.
pub open spec fn fog_bindings(
    base: Map<Seq<char>, BindingValue>,
    color: Color,
    density: u32,
    animation: u32,
    view_projection_inverse: [u32; 16],
    eye_position: [u32; 3],
    depth_texture: TextureBinding,
    time: u32,
) -> Map<Seq<char>, BindingValue> {
    base.insert("depthMap"@, BindingValue::Texture(depth_texture)).insert(
        "viewProjectionInverse"@,
        BindingValue::Uniform(UniformValue::Mat4(view_projection_inverse)),
    ).insert("fogColor"@, BindingValue::Uniform(UniformValue::Color(color))).insert(
        "fogDensity"@,
        BindingValue::Uniform(UniformValue::Float(density)),
    ).insert("animation"@, BindingValue::Uniform(UniformValue::Float(animation))).insert(
        "time"@,
        BindingValue::Uniform(UniformValue::Float(time)),
    ).insert("eyePosition"@, BindingValue::Uniform(UniformValue::Vec3(eye_position)))
}

/// An effect that simulates fog.
pub struct FogEffect {
    /// The color of the fog.
    pub color: Color,
    /// The density of the fog.
    pub density: u32,
    /// How much the density varies with time.
    pub animation: u32,
    image_effect: ImageEffect,
}

/// The mathematical content of a [`FogEffect`].
pub struct FogView {
    pub color: Color,
    pub density: u32,
    pub animation: u32,
    /// The effect that draws the fog.
    pub image_effect: EffectView,
}

impl View for FogEffect {
    type V = FogView;

    closed spec fn view(&self) -> FogView {
        FogView {
            color: self.color,
            density: self.density,
            animation: self.animation,
            image_effect: self.image_effect@,
        }
    }
}

impl FogEffect {
    /// Constructs a fog effect from the fog shader as the device compiled it.
    /// Fails as [`ImageEffect::new`] does.
    pub fn new(
        context: &mut Context,
        source: String,
        uniforms: Option<Vec<String>>,
        color: Color,
        density: u32,
        animation: u32,
    ) -> (effect: Result<FogEffect, Error>)
        ensures
            uniforms is Some && old(context)@.next_name < u32::MAX ==> {
                &&& effect matches Ok(e)
                &&& e@ == (FogView {
                    color,
                    density,
                    animation,
                    image_effect: EffectView {
                        program: old(context)@.next_name as u32,
                        names: uniforms->0@,
                        bindings: Map::empty(),
                    },
                })
                &&& final(context)@ == (ContextView {
                    commands: old(context)@.commands.push(
                        crate::context::Command::CreateProgram {
                            program: old(context)@.next_name as u32,
                            source,
                        },
                    ),
                    next_name: old(context)@.next_name + 1,
                    target: old(context)@.target,
                })
            },
            uniforms is None || old(context)@.next_name >= u32::MAX ==> {
                &&& effect matches Err(Error::DeviceResourceError)
                &&& final(context)@ == old(context)@
            },
    {
        match ImageEffect::new(context, source, uniforms) {
            Ok(image_effect) => Ok(FogEffect { color, density, animation, image_effect }),
            Err(e) => Err(Error::DeviceResourceError),
        }
    }

    /// Draws the fog over the active render target, from the depth map of
    /// the scene.
    ///
    /// `view_projection_inverse` and `eye_position` are those of the camera,
    /// and `time` is the time in seconds. The draw binds a value to each name
    /// of the fog shader and is then an ordinary draw of the effect.
    pub fn apply(
        &mut self,
        context: &mut Context,
        view_projection_inverse: [u32; 16],
        eye_position: [u32; 3],
        viewport: Viewport,
        depth_texture: TextureBinding,
        time: u32,
    ) -> (result: Result<(), Error>)
        ensures
            applied(
                EffectView {
                    bindings: fog_bindings(
                        old(self)@.image_effect.bindings,
                        old(self)@.color,
                        old(self)@.density,
                        old(self)@.animation,
                        view_projection_inverse,
                        eye_position,
                        depth_texture,
                        time,
                    ),
                    ..old(self)@.image_effect
                },
                old(context)@,
                fog_render_states(),
                viewport,
                result,
                final(context)@,
            ),
            final(self)@ == (FogView {
                image_effect: EffectView { bindings: Map::empty(), ..old(self)@.image_effect },
                ..old(self)@
            }),
    {
        let render_states = RenderStates {
            write_mask: WriteMask::Color,
            blend: Blend::Transparency,
            cull: Cull::Back,
            depth_test: DepthTest::Less,
        };
        self.image_effect.use_texture("depthMap", depth_texture);
        self.image_effect.use_uniform(
            "viewProjectionInverse",
            UniformValue::Mat4(view_projection_inverse),
        );
        self.image_effect.use_uniform("fogColor", UniformValue::Color(self.color));
        self.image_effect.use_uniform("fogDensity", UniformValue::Float(self.density));
        self.image_effect.use_uniform("animation", UniformValue::Float(self.animation));
        self.image_effect.use_uniform("time", UniformValue::Float(time));
        self.image_effect.use_uniform("eyePosition", UniformValue::Vec3(eye_position));
        self.image_effect.apply(context, render_states, viewport)
    }
}

} // verus!
