//! Array textures: their shape, their mip chain and the passes that write
//! their layers.

use vstd::prelude::*;
use crate::consts;
use crate::context::{Command, Context, ContextView};
use crate::error::Error;
use crate::mip::{calculate_number_of_mip_maps, mip_levels};
use crate::render_target::{self, RenderTargetArray};
use crate::state::{ClearState, Format, Interpolation, TextureBinding, Wrapping};

verus! {

/// The type of one channel of a texel. It decides which device format a
/// channel layout is stored in, and whether the device can filter it, which
/// building a mip chain needs.
pub trait TextureDataType: Sized {
    /// The device format for `format`, if there is one for this type.
    spec fn spec_internal_format(format: Format) -> Option<u32>;

    /// Whether textures of this type can be filtered.
    spec fn spec_filterable() -> bool;

    /// The device format for `format`.
    fn internal_format(format: Format) -> (code: Result<u32, Error>)
        ensures
            match Self::spec_internal_format(format) {
                Some(c) => code == Ok::<u32, Error>(c),
                None => code == Err::<u32, Error>(Error::DeviceResourceError),
            },
    ;

    /// Whether textures of this type can be filtered.
    fn filterable() -> (yes: bool)
        ensures
            yes == Self::spec_filterable(),
    ;

    /// The value of the type that a texture is marked with: the zero of a
    /// number type, the one value of a marker type.
    fn marker() -> Self;
}

impl TextureDataType for u8 {
    open spec fn spec_internal_format(format: Format) -> Option<u32> {
        Some(
            match format {
                Format::R => consts::R8,
                Format::RG => consts::RG8,
                Format::RGB => consts::RGB8,
                Format::RGBA => consts::RGBA8,
                Format::SRGB => consts::SRGB8,
                Format::SRGBA => consts::SRGB8_ALPHA8,
            },
        )
    }

    open spec fn spec_filterable() -> bool {
        true
    }

    fn internal_format(format: Format) -> (code: Result<u32, Error>) {
        Ok(
            match format {
                Format::R => consts::R8,
                Format::RG => consts::RG8,
                Format::RGB => consts::RGB8,
                Format::RGBA => consts::RGBA8,
                Format::SRGB => consts::SRGB8,
                Format::SRGBA => consts::SRGB8_ALPHA8,
            },
        )
    }

    fn filterable() -> (yes: bool) {
        true
    }

    fn marker() -> (mark: u8)
        ensures
            mark == 0,
    {
        0
    }
}

/// Marks a texture whose channels are 32-bit reals. Such a texture has no
/// sRGB layouts and cannot be filtered.
#[derive(Clone, Copy, Debug, PartialEq, Eq)]
pub struct Float32;

impl TextureDataType for Float32 {
    open spec fn spec_internal_format(format: Format) -> Option<u32> {
        match format {
            Format::R => Some(consts::R32F),
            Format::RG => Some(consts::RG32F),
            Format::RGB => Some(consts::RGB32F),
            Format::RGBA => Some(consts::RGBA32F),
            Format::SRGB => None,
            Format::SRGBA => None,
        }
    }

    open spec fn spec_filterable() -> bool {
        false
    }

    fn internal_format(format: Format) -> (code: Result<u32, Error>) {
        match format {
            Format::R => Ok(consts::R32F),
            Format::RG => Ok(consts::RG32F),
            Format::RGB => Ok(consts::RGB32F),
            Format::RGBA => Ok(consts::RGBA32F),
            Format::SRGB => Err(Error::DeviceResourceError),
            Format::SRGBA => Err(Error::DeviceResourceError),
        }
    }

    fn filterable() -> (yes: bool) {
        false
    }

    fn marker() -> Float32 {
        Float32
    }
}

/// The mathematical content of a [`Texture2DArray`].
pub struct TextureView {
    /// The device name of the image.
    pub id: u32,
    pub width: u32,
    pub height: u32,
    /// The number of layers.
    pub depth: u32,
    pub number_of_mip_maps: u32,
    pub format: Format,
    /// Whether the levels above the base level were built from what the base
    /// level holds now. Always so where there is one level only.
    pub mips_current: bool,
}

/// An array of 2D colour textures that can be rendered into.
///
/// Depth testing is off in a pass that writes such a texture alone, since the
/// pass has no depth attachment.
pub struct Texture2DArray<T: TextureDataType> {
    id: u32,
    width: u32,
    height: u32,
    depth: u32,
    number_of_mip_maps: u32,
    format: Format,
    mips_current: bool,
    _dummy: T,
}

impl<T: TextureDataType> View for Texture2DArray<T> {
    type V = TextureView;

    closed spec fn view(&self) -> TextureView {
        TextureView {
            id: self.id,
            width: self.width,
            height: self.height,
            depth: self.depth,
            number_of_mip_maps: self.number_of_mip_maps,
            format: self.format,
            mips_current: self.mips_current,
        }
    }
}

/// The former name of [`Texture2DArray`].
pub type ColorTargetTexture2DArray<T> = Texture2DArray<T>;

/// Whether the device can store a texture of the given data type, layout and
/// number of levels: the type has a format for the layout, and a mip chain is
/// only asked of a type that can be filtered.
pub open spec fn storable<T: TextureDataType>(format: Format, levels: nat) -> bool {
    T::spec_internal_format(format) is Some && (levels > 1 ==> T::spec_filterable())
}

/// The commands that create the storage of a new array texture.
pub open spec fn creation_commands(
    id: u32,
    levels: u32,
    internal_format: u32,
    width: u32,
    height: u32,
    depth: u32,
    min_filter: Interpolation,
    mag_filter: Interpolation,
    mip_map_filter: Option<Interpolation>,
    wrap_s: Wrapping,
    wrap_t: Wrapping,
) -> Seq<Command> {
    seq![
        Command::CreateTexture { texture: id },
        Command::TextureParameters {
            target: consts::TEXTURE_2D_ARRAY,
            texture: id,
            min_filter,
            mag_filter,
            mip_map_filter: if levels == 1 {
                None
            } else {
                mip_map_filter
            },
            wrap_s,
            wrap_t,
        },
        Command::BindTexture { target: consts::TEXTURE_2D_ARRAY, texture: id },
        Command::TexStorage3D {
            target: consts::TEXTURE_2D_ARRAY,
            levels,
            internal_format,
            width,
            height,
            depth,
        },
    ]
}

/// The commands that rebuild the mip chain of a texture.
pub open spec fn mip_commands(texture: TextureView) -> Seq<Command> {
    if texture.number_of_mip_maps > 1 {
        seq![
            Command::BindTexture { target: consts::TEXTURE_2D_ARRAY, texture: texture.id },
            Command::GenerateMipmap { target: consts::TEXTURE_2D_ARRAY },
        ]
    } else {
        Seq::empty()
    }
}

/// A texture after its mip chain was rebuilt from its base level.
pub open spec fn with_mips_rebuilt(texture: TextureView) -> TextureView {
    TextureView { mips_current: true, ..texture }
}

/// A texture after a pass has written its base level.
pub open spec fn with_base_written(texture: TextureView) -> TextureView {
    TextureView { mips_current: texture.number_of_mip_maps == 1, ..texture }
}

/// Rebuilding the mip chain twice in a row leaves the texture as rebuilding
/// it once does, and asks the device for the same work each time.
pub proof fn lemma_rebuilding_mips_is_idempotent(texture: TextureView)
    ensures
        with_mips_rebuilt(with_mips_rebuilt(texture)) == with_mips_rebuilt(texture),
        mip_commands(with_mips_rebuilt(texture)) == mip_commands(texture),
{
}

impl<T: TextureDataType> Texture2DArray<T> {
    /// Creates an array of `depth` empty 2D textures of `width` by `height`.
    ///
    /// The texture gets one mip level without a mip filter, and with one a
    /// level per halving of its larger side. Creation fails where the data
    /// type has no format for the layout, where a mip chain is asked of a type
    /// that cannot be filtered, and where the device has no name left; it then
    /// records nothing.
    pub fn new_empty(
        context: &mut Context,
        width: u32,
        height: u32,
        depth: u32,
        min_filter: Interpolation,
        mag_filter: Interpolation,
        mip_map_filter: Option<Interpolation>,
        wrap_s: Wrapping,
        wrap_t: Wrapping,
        format: Format,
    ) -> (texture: Result<Self, Error>)
        ensures
            ({
                let levels = mip_levels(mip_map_filter is Some, width as nat, height as nat);
                let before = old(context)@;
                if storable::<T>(format, levels) && before.next_name < u32::MAX {
                    &&& texture matches Ok(t)
                    &&& t@ == (TextureView {
                        id: before.next_name as u32,
                        width,
                        height,
                        depth,
                        number_of_mip_maps: levels as u32,
                        format,
                        mips_current: true,
                    })
                    &&& final(context)@ == (ContextView {
                        commands: before.commands + creation_commands(
                            before.next_name as u32,
                            levels as u32,
                            T::spec_internal_format(format)->0,
                            width,
                            height,
                            depth,
                            min_filter,
                            mag_filter,
                            mip_map_filter,
                            wrap_s,
                            wrap_t,
                        ),
                        next_name: before.next_name + 1,
                        target: before.target,
                    })
                } else {
                    &&& texture matches Err(Error::DeviceResourceError)
                    &&& final(context)@ == before
                }
            }),
    {
        let number_of_mip_maps: u32 = calculate_number_of_mip_maps(mip_map_filter, width, height);
        let internal_format: u32 = match T::internal_format(format) {
            Ok(code) => code,
            Err(e) => {
                return Err(Error::DeviceResourceError);
            },
        };
        if number_of_mip_maps > 1 && !T::filterable() {
            return Err(Error::DeviceResourceError);
        }
        let id: u32 = match context.allocate() {
            Ok(name) => name,
            Err(e) => {
                return Err(Error::DeviceResourceError);
            },
        };
        context.record(Command::CreateTexture { texture: id });
        context.record(
            Command::TextureParameters {
                target: consts::TEXTURE_2D_ARRAY,
                texture: id,
                min_filter,
                mag_filter,
                mip_map_filter: if number_of_mip_maps == 1 {
                    None
                } else {
                    mip_map_filter
                },
                wrap_s,
                wrap_t,
            },
        );
        context.record(Command::BindTexture { target: consts::TEXTURE_2D_ARRAY, texture: id });
        context.record(
            Command::TexStorage3D {
                target: consts::TEXTURE_2D_ARRAY,
                levels: number_of_mip_maps,
                internal_format,
                width,
                height,
                depth,
            },
        );
        proof {
            assert(final(context)@.commands =~= old(context)@.commands + creation_commands(
                id,
                number_of_mip_maps,
                internal_format,
                width,
                height,
                depth,
                min_filter,
                mag_filter,
                mip_map_filter,
                wrap_s,
                wrap_t,
            ));
        }
        Ok(
            Self {
                id,
                width,
                height,
                depth,
                number_of_mip_maps,
                format,
                mips_current: true,
                _dummy: T::marker(),
            },
        )
    }

    /// Renders what `render` draws into the layers `color_layers` of the
    /// texture: output `i` of the pass goes to layer `color_layers[i]`, after
    /// the colour part of `clear_state` was cleared in those layers.
    ///
    /// The pass runs in a framebuffer of its own, which is released when the
    /// pass ends. The render target that was active before the call is active
    /// again after it, however the call ends. The mip chain is not rebuilt.
    pub fn write<F: FnOnce(Context) -> (Context, Result<(), Error>)>(
        &mut self,
        context: &mut Context,
        color_layers: &[u32],
        clear_state: ClearState,
        render: F,
    ) -> (result: Result<(), Error>)
        requires
            old(context)@.next_name < u32::MAX && render_target::layers_accepted(
                color_layers@,
                old(self)@.depth,
            ) ==> forall|inner: Context|
                inner@ == render_target::entered(
                    render_target::framebuffer_created(old(context)@),
                    old(context)@.next_name as u32,
                    old(self)@.id,
                    color_layers@,
                    clear_state,
                ) ==> call_requires(render, (inner,)),
        ensures
            final(context)@.target == old(context)@.target,
            old(context)@.next_name >= u32::MAX ==> {
                &&& result == Err::<(), Error>(Error::DeviceResourceError)
                &&& final(context)@ == old(context)@
                &&& final(self)@ == old(self)@
            },
            old(context)@.next_name < u32::MAX && !render_target::layers_accepted(
                color_layers@,
                old(self)@.depth,
            ) ==> {
                &&& result == Err::<(), Error>(Error::UnsupportedConfiguration)
                &&& final(context)@ == render_target::framebuffer_released(
                    render_target::framebuffer_created(old(context)@),
                    old(context)@.next_name as u32,
                )
                &&& final(self)@ == old(self)@
            },
            old(context)@.next_name < u32::MAX && render_target::layers_accepted(
                color_layers@,
                old(self)@.depth,
            ) ==> {
                &&& final(self)@ == with_base_written(old(self)@)
                &&& exists|inner: Context, after: Context|
                    {
                        &&& inner@ == render_target::entered(
                            render_target::framebuffer_created(old(context)@),
                            old(context)@.next_name as u32,
                            old(self)@.id,
                            color_layers@,
                            clear_state,
                        )
                        &&& #[trigger] call_ensures(render, (inner,), (after, result))
                        &&& final(context)@ == render_target::framebuffer_released(
                            render_target::left(after@, old(context)@.target),
                            old(context)@.next_name as u32,
                        )
                    }
            },
    {
        let accepted: bool = render_target::accepts_layers(color_layers, self.depth);
        let result = match RenderTargetArray::new_color(context, &*self) {
            Ok(target) => {
                let result = target.write(context, color_layers, clear_state, render);
                target.release(context);
                result
            },
            Err(e) => {
                return Err(Error::DeviceResourceError);
            },
        };
        if accepted {
            self.mips_current = self.number_of_mip_maps == 1;
        }
        result
    }

    /// The width of this texture.
    pub fn width(&self) -> (width: u32)
        ensures
            width == self@.width,
    {
        self.width
    }

    /// The height of this texture.
    pub fn height(&self) -> (height: u32)
        ensures
            height == self@.height,
    {
        self.height
    }

    /// The number of layers.
    pub fn depth(&self) -> (depth: u32)
        ensures
            depth == self@.depth,
    {
        self.depth
    }

    /// The format of this texture.
    pub fn format(&self) -> (format: Format)
        ensures
            format == self@.format,
    {
        self.format
    }

    /// The number of mip levels, fixed when the texture was created.
    pub fn number_of_mip_maps(&self) -> (levels: u32)
        ensures
            levels == self@.number_of_mip_maps,
    {
        self.number_of_mip_maps
    }

    /// Whether the levels above the base level reflect the base level.
    pub fn mips_current(&self) -> (current: bool)
        ensures
            current == self@.mips_current,
    {
        self.mips_current
    }

    /// The texture as an effect's sampler reads it.
    pub fn binding(&self) -> (binding: TextureBinding)
        ensures
            binding == (TextureBinding { texture: self@.id, target: consts::TEXTURE_2D_ARRAY }),
    {
        TextureBinding { texture: self.id, target: consts::TEXTURE_2D_ARRAY }
    }

    /// Rebuilds every mip level from the base level. Does nothing for a
    /// texture with one level. No pass does this by itself.
    pub fn generate_mip_maps(&mut self, context: &mut Context)
        ensures
            final(self)@ == with_mips_rebuilt(old(self)@),
            final(context)@ == (ContextView {
                commands: old(context)@.commands + mip_commands(old(self)@),
                ..old(context)@
            }),
    {
        if self.number_of_mip_maps > 1 {
            context.record(
                Command::BindTexture { target: consts::TEXTURE_2D_ARRAY, texture: self.id },
            );
            context.record(Command::GenerateMipmap { target: consts::TEXTURE_2D_ARRAY });
        }
        self.mips_current = true;
        proof {
            assert(final(context)@.commands =~= old(context)@.commands + mip_commands(
                old(self)@,
            ));
        }
    }

    /// Attaches `layer` of the base level as colour output `channel` of the
    /// bound framebuffer.
    pub fn bind_as_color_target(&self, context: &mut Context, layer: u32, channel: u32)
        requires
            channel < render_target::MAX_COLOR_ATTACHMENTS,
        ensures
            final(context)@ == (ContextView {
                commands: old(context)@.commands.push(
                    render_target::attachment(self@.id, layer, channel as int),
                ),
                ..old(context)@
            }),
    {
        context.record(
            Command::FramebufferTextureLayer {
                target: consts::DRAW_FRAMEBUFFER,
                attachment: consts::COLOR_ATTACHMENT0 + channel,
                texture: self.id,
                level: 0,
                layer,
            },
        );
    }

    /// Makes the texture the one that texture unit `location` samples.
    pub fn bind(&self, context: &mut Context, location: u32)
        requires
            consts::TEXTURE0 + location <= u32::MAX,
        ensures
            final(context)@ == (ContextView {
                commands: old(context)@.commands + seq![
                    Command::ActiveTexture { unit: (consts::TEXTURE0 + location) as u32 },
                    Command::BindTexture { target: consts::TEXTURE_2D_ARRAY, texture: self@.id },
                ],
                ..old(context)@
            }),
    {
        context.record(Command::ActiveTexture { unit: consts::TEXTURE0 + location });
        context.record(Command::BindTexture { target: consts::TEXTURE_2D_ARRAY, texture: self.id });
        proof {
            assert(final(context)@.commands =~= old(context)@.commands + seq![
                Command::ActiveTexture { unit: (consts::TEXTURE0 + location) as u32 },
                Command::BindTexture { target: consts::TEXTURE_2D_ARRAY, texture: self@.id },
            ]);
        }
    }

    /// Releases the device image. The texture is gone afterwards, so it
    /// cannot be released twice.
    pub fn release(self, context: &mut Context)
        ensures
            final(context)@ == (ContextView {
                commands: old(context)@.commands.push(Command::DeleteTexture { texture: self@.id }),
                ..old(context)@
            }),
    {
        context.record(Command::DeleteTexture { texture: self.id });
    }
}

} // verus!
