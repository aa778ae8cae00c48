//! Render passes into the layers of an array texture.

use vstd::prelude::*;
use crate::consts;
use crate::context::{Command, Context, ContextView, Target};
use crate::error::Error;
use crate::state::ClearState;
use crate::texture::{Texture2DArray, TextureDataType};

verus! {

/// The number of colour outputs that the graphics API has names for.
pub const MAX_COLOR_ATTACHMENTS: u32 = 32;

/// The command that attaches `layer` of `texture` as colour output `slot`.
pub open spec fn attachment(texture: u32, layer: u32, slot: int) -> Command {
    Command::FramebufferTextureLayer {
        target: consts::DRAW_FRAMEBUFFER,
        attachment: (consts::COLOR_ATTACHMENT0 + slot) as u32,
        texture,
        level: 0,
        layer,
    }
}

/// Whether a pass can write the given layers of a texture with `depth`
/// layers: each is a layer of the texture, and there is an output for each.
pub open spec fn layers_accepted(color_layers: Seq<u32>, depth: u32) -> bool {
    &&& color_layers.len() <= MAX_COLOR_ATTACHMENTS
    &&& forall|i: int| 0 <= i < color_layers.len() ==> color_layers[i] < depth
}

/// Whether a pass can write the given layers of a texture with `depth` layers.
pub fn accepts_layers(color_layers: &[u32], depth: u32) -> (accepted: bool)
    ensures
        accepted == layers_accepted(color_layers@, depth),
{
    let count: usize = color_layers.len();
    if count > MAX_COLOR_ATTACHMENTS as usize {
        return false;
    }
    let mut i: usize = 0;
    while i < count
        invariant
            i <= count,
            count == color_layers@.len(),
            forall|j: int| 0 <= j < i ==> color_layers@[j] < depth,
        decreases count - i,
    {
        if color_layers[i] >= depth {
            assert(!(color_layers@[i as int] < depth));
            return false;
        }
        i = i + 1;
    }
    true
}

/// The attachments of a pass: output `i` goes to layer `color_layers[i]`.
pub open spec fn attach_commands(texture: u32, color_layers: Seq<u32>) -> Seq<Command> {
    Seq::new(color_layers.len(), |i: int| attachment(texture, color_layers[i], i))
}

/// The clear at the start of a pass that has colour attachments only: the
/// colour part of `clear_state`, and nothing if it has none.
pub open spec fn clear_commands(clear_state: ClearState) -> Seq<Command> {
    if clear_state.spec_clears_color() {
        seq![Command::Clear { state: clear_state.spec_color_only() }]
    } else {
        Seq::empty()
    }
}

/// The commands that open a pass.
pub open spec fn enter_commands(
    framebuffer: u32,
    texture: u32,
    color_layers: Seq<u32>,
    clear_state: ClearState,
) -> Seq<Command> {
    seq![
        Command::BindFramebuffer { target: consts::DRAW_FRAMEBUFFER, framebuffer },
        Command::DrawBuffers { count: color_layers.len() as u32 },
    ] + attach_commands(texture, color_layers) + clear_commands(clear_state)
}

/// A pass attaches layers of its own texture only, and only the layers it
/// was given: a layer that is not among them is not written.
pub proof fn lemma_pass_attaches_only_its_layers(
    framebuffer: u32,
    texture: u32,
    color_layers: Seq<u32>,
    clear_state: ClearState,
    i: int,
)
    requires
        0 <= i < enter_commands(framebuffer, texture, color_layers, clear_state).len(),
    ensures
        enter_commands(framebuffer, texture, color_layers, clear_state)[i] matches Command::FramebufferTextureLayer {
            texture: t,
            layer: l,
            ..
        } ==> t == texture && color_layers.contains(l),
{
    if 2 <= i < 2 + color_layers.len() {
        assert(enter_commands(framebuffer, texture, color_layers, clear_state)[i] == attachment(
            texture,
            color_layers[i - 2],
            i - 2,
        ));
        assert(color_layers.contains(color_layers[i - 2]));
    }
}

/// The context as the drawing code of a pass finds it.
pub open spec fn entered(
    before: ContextView,
    framebuffer: u32,
    texture: u32,
    color_layers: Seq<u32>,
    clear_state: ClearState,
) -> ContextView {
    ContextView {
        commands: before.commands + enter_commands(
            framebuffer,
            texture,
            color_layers,
            clear_state,
        ),
        target: Target { framebuffer, texture, has_depth: false },
        next_name: before.next_name,
    }
}

/// The context after a pass has ended: whatever the drawing code left, with
/// the target that was active before the pass bound again.
pub open spec fn left(after: ContextView, saved: Target) -> ContextView {
    ContextView {
        commands: after.commands.push(
            Command::BindFramebuffer {
                target: consts::DRAW_FRAMEBUFFER,
                framebuffer: saved.framebuffer,
            },
        ),
        target: saved,
        next_name: after.next_name,
    }
}

/// The context after a framebuffer was created in it: the framebuffer takes
/// the next free name.
pub open spec fn framebuffer_created(before: ContextView) -> ContextView {
    ContextView {
        commands: before.commands.push(
            Command::CreateFramebuffer { framebuffer: before.next_name as u32 },
        ),
        next_name: before.next_name + 1,
        target: before.target,
    }
}

/// The context after `framebuffer` was released in it.
pub open spec fn framebuffer_released(before: ContextView, framebuffer: u32) -> ContextView {
    ContextView {
        commands: before.commands.push(Command::DeleteFramebuffer { framebuffer }),
        ..before
    }
}

/// A framebuffer that writes layers of one array texture.
pub struct RenderTargetArray<'a, T: TextureDataType> {
    id: u32,
    color_texture: &'a Texture2DArray<T>,
}

impl<'a, T: TextureDataType> RenderTargetArray<'a, T> {
    /// The device name of the framebuffer.
    pub closed spec fn spec_id(&self) -> u32 {
        self.id
    }

    /// The texture that the framebuffer writes.
    pub closed spec fn spec_texture(&self) -> &Texture2DArray<T> {
        self.color_texture
    }

    /// Creates a framebuffer for the layers of `texture`. Fails where the
    /// device has no name left.
    pub fn new_color(context: &mut Context, texture: &'a Texture2DArray<T>) -> (target: Result<
        Self,
        Error,
    >)
        ensures
            ({
                let before = old(context)@;
                if before.next_name < u32::MAX {
                    &&& target matches Ok(t)
                    &&& t.spec_id() == before.next_name
                    &&& t.spec_texture() == texture
                    &&& final(context)@ == framebuffer_created(before)
                } else {
                    &&& target matches Err(Error::DeviceResourceError)
                    &&& final(context)@ == before
                }
            }),
    {
        let id: u32 = match context.allocate() {
            Ok(name) => name,
            Err(e) => {
                return Err(Error::DeviceResourceError);
            },
        };
        context.record(Command::CreateFramebuffer { framebuffer: id });
        Ok(Self { id, color_texture: texture })
    }

    /// Runs `render` as one pass into the given layers: output `i` of the
    /// pass is written to layer `color_layers[i]`.
    ///
    /// The pass binds the framebuffer, attaches the layers, clears the colour
    /// part of `clear_state`, runs `render` on the context, and then binds the
    /// target that was active before again, whether `render` succeeded or
    /// not. Layers that the texture does not have, or more layers than there
    /// are outputs, are refused before anything is recorded.
    pub fn write<F: FnOnce(Context) -> (Context, Result<(), Error>)>(
        &self,
        context: &mut Context,
        color_layers: &[u32],
        clear_state: ClearState,
        render: F,
    ) -> (result: Result<(), Error>)
        requires
            layers_accepted(color_layers@, self.spec_texture()@.depth) ==> forall|inner: Context|
                inner@ == entered(
                    old(context)@,
                    self.spec_id(),
                    self.spec_texture()@.id,
                    color_layers@,
                    clear_state,
                ) ==> call_requires(render, (inner,)),
        ensures
            final(context)@.target == old(context)@.target,
            !layers_accepted(color_layers@, self.spec_texture()@.depth) ==> result == Err::<
                (),
                Error,
            >(Error::UnsupportedConfiguration) && final(context)@ == old(context)@,
            layers_accepted(color_layers@, self.spec_texture()@.depth) ==> exists|
                inner: Context,
                after: Context,
            |
                {
                    &&& inner@ == entered(
                        old(context)@,
                        self.spec_id(),
                        self.spec_texture()@.id,
                        color_layers@,
                        clear_state,
                    )
                    &&& #[trigger] call_ensures(render, (inner,), (after, result))
                    &&& final(context)@ == left(after@, old(context)@.target)
                },
    {
        let count: usize = color_layers.len();
        if !accepts_layers(color_layers, self.color_texture.depth()) {
            return Err(Error::UnsupportedConfiguration);
        }
        let saved: Target = context.target();
        let texture: u32 = self.color_texture.binding().texture;
        context.set_target(Target { framebuffer: self.id, texture, has_depth: false });
        context.record(
            Command::BindFramebuffer { target: consts::DRAW_FRAMEBUFFER, framebuffer: self.id },
        );
        context.record(Command::DrawBuffers { count: count as u32 });
        let ghost opened = context@.commands;
        let mut channel: usize = 0;
        while channel < count
            invariant
                channel <= count,
                count == color_layers@.len(),
                count <= MAX_COLOR_ATTACHMENTS,
                texture == self.color_texture@.id,
                context@.target == (Target { framebuffer: self.id, texture, has_depth: false }),
                context@.next_name == old(context)@.next_name,
                context@.commands == opened + Seq::new(
                    channel as nat,
                    |k: int| attachment(texture, color_layers@[k], k),
                ),
            decreases count - channel,
        {
            self.color_texture.bind_as_color_target(context, color_layers[channel], channel as u32);
            proof {
                assert(context@.commands =~= opened + Seq::new(
                    (channel + 1) as nat,
                    |k: int| attachment(texture, color_layers@[k], k),
                ));
            }
            channel = channel + 1;
        }
        if clear_state.clears_color() {
            context.record(Command::Clear { state: clear_state.color_only() });
        }
        proof {
            assert(context@.commands =~= old(context)@.commands + enter_commands(
                self.id,
                texture,
                color_layers@,
                clear_state,
            ));
        }
        let mut inner: Context = Context::new();
        core::mem::swap(context, &mut inner);
        let (after, result) = render(inner);
        *context = after;
        context.set_target(saved);
        context.record(
            Command::BindFramebuffer {
                target: consts::DRAW_FRAMEBUFFER,
                framebuffer: saved.framebuffer,
            },
        );
        result
    }

    /// Releases the framebuffer.
    pub fn release(self, context: &mut Context)
        ensures
            final(context)@ == framebuffer_released(old(context)@, self.spec_id()),
    {
        context.record(Command::DeleteFramebuffer { framebuffer: self.id });
    }
}

} // verus!
