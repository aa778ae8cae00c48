//! The device context: the commands recorded for the device, the names it
//! has handed out, and the render target that draws currently go to.

use vstd::prelude::*;
use crate::error::Error;
use crate::state::{
    BindingValue, ClearState, Interpolation, RenderStates, Viewport, Wrapping,
};

verus! {

/// One call on the graphics device.
#[derive(Clone, Debug, PartialEq, Eq)]
pub enum Command {
    CreateBuffer { buffer: u32 },
    BindBuffer { target: u32, buffer: u32 },
    /// Allocates storage for `attributes` elements of `components` scalars
    /// each and uploads them.
    BufferData { target: u32, attributes: u32, components: u32, usage: u32 },
    /// Overwrites the start of the existing storage.
    BufferSubData { target: u32, attributes: u32, components: u32 },
    UnbindBuffer { target: u32 },
    DeleteBuffer { buffer: u32 },
    CreateTexture { texture: u32 },
    TextureParameters {
        target: u32,
        texture: u32,
        min_filter: Interpolation,
        mag_filter: Interpolation,
        mip_map_filter: Option<Interpolation>,
        wrap_s: Wrapping,
        wrap_t: Wrapping,
    },
    ActiveTexture { unit: u32 },
    BindTexture { target: u32, texture: u32 },
    TexStorage3D {
        target: u32,
        levels: u32,
        internal_format: u32,
        width: u32,
        height: u32,
        depth: u32,
    },
    GenerateMipmap { target: u32 },
    DeleteTexture { texture: u32 },
    CreateFramebuffer { framebuffer: u32 },
    BindFramebuffer { target: u32, framebuffer: u32 },
    DrawBuffers { count: u32 },
    FramebufferTextureLayer { target: u32, attachment: u32, texture: u32, level: u32, layer: u32 },
    Clear { state: ClearState },
    DeleteFramebuffer { framebuffer: u32 },
    /// Names the program that the device compiled from `source`.
    CreateProgram { program: u32, source: String },
    UseProgram { program: u32 },
    Bind { name: String, value: BindingValue },
    SetRenderStates { states: RenderStates },
    SetViewport { viewport: Viewport },
    DrawFullScreen,
}

/// Where draws go: a framebuffer, and the texture whose layers it writes.
/// Framebuffer 0 is the screen and has texture 0.
#[derive(Clone, Copy, Debug, PartialEq, Eq)]
pub struct Target {
    pub framebuffer: u32,
    pub texture: u32,
    /// Whether the target has a depth attachment. Draws into a target
    /// without one are not depth tested.
    pub has_depth: bool,
}

/// The mathematical content of a [`Context`].
pub struct ContextView {
    pub commands: Seq<Command>,
    pub target: Target,
    pub next_name: nat,
}

/// The device context.
pub struct Context {
    commands: Vec<Command>,
    target: Target,
    next_name: u32,
}

impl View for Context {
    type V = ContextView;

    closed spec fn view(&self) -> ContextView {
        ContextView {
            commands: self.commands@,
            target: self.target,
            next_name: self.next_name as nat,
        }
    }
}

/// The target that is active when nothing else has been bound.
pub open spec fn screen() -> Target {
    Target { framebuffer: 0, texture: 0, has_depth: true }
}

impl Context {
    /// A context with no command recorded, drawing to the screen.
    pub fn new() -> (context: Context)
        ensures
            context@ == (ContextView { commands: Seq::empty(), target: screen(), next_name: 1 }),
    {
        Context {
            commands: Vec::new(),
            target: Target { framebuffer: 0, texture: 0, has_depth: true },
            next_name: 1,
        }
    }

    /// The commands recorded and not yet taken.
    pub fn commands(&self) -> (commands: &Vec<Command>)
        ensures
            commands@ == self@.commands,
    {
        &self.commands
    }

    /// The active render target.
    pub fn target(&self) -> (target: Target)
        ensures
            target == self@.target,
    {
        self.target
    }

    /// Hands the recorded commands to the caller and starts an empty record.
    pub fn take_commands(&mut self) -> (commands: Vec<Command>)
        ensures
            commands@ == old(self)@.commands,
            final(self)@ == (ContextView { commands: Seq::empty(), ..old(self)@ }),
    {
        let mut taken: Vec<Command> = Vec::new();
        core::mem::swap(&mut self.commands, &mut taken);
        taken
    }

    /// Appends one command to the record.
    pub fn record(&mut self, command: Command)
        ensures
            final(self)@ == (ContextView {
                commands: old(self)@.commands.push(command),
                ..old(self)@
            }),
    {
        self.commands.push(command);
    }

    /// Hands out a fresh name for a device resource. The names run out after
    /// `u32::MAX - 1` of them.
    pub fn allocate(&mut self) -> (name: Result<u32, Error>)
        ensures
            old(self)@.next_name < u32::MAX ==> name == Ok::<u32, Error>(
                old(self)@.next_name as u32,
            ) && final(self)@ == (ContextView {
                next_name: old(self)@.next_name + 1,
                ..old(self)@
            }),
            old(self)@.next_name >= u32::MAX ==> name == Err::<u32, Error>(
                Error::DeviceResourceError,
            ) && final(self)@ == old(self)@,
    {
        if self.next_name < u32::MAX {
            let name: u32 = self.next_name;
            self.next_name = name + 1;
            Ok(name)
        } else {
            Err(Error::DeviceResourceError)
        }
    }

    /// Makes `target` the active render target.
    pub(crate) fn set_target(&mut self, target: Target)
        ensures
            final(self)@ == (ContextView { target: target, ..old(self)@ }),
    {
        self.target = target;
    }
}

} // verus!
