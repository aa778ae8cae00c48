//! Screen-space effects: a shader program with the values bound to its
//! names, applied as one draw over the whole viewport.

use vstd::prelude::*;
use crate::context::{Command, Context, ContextView, Target};
use crate::error::Error;
use crate::state::{BindingValue, RenderStates, TextureBinding, UniformValue, Viewport};

verus! {

/// A value bound to a name of the shader.
pub struct Binding {
    pub name: String,
    pub value: BindingValue,
}

/// The bindings as a map: a name has the value that was bound to it last.
pub open spec fn bound(bindings: Seq<Binding>) -> Map<Seq<char>, BindingValue>
    decreases bindings.len(),
{
    if bindings.len() == 0 {
        Map::empty()
    } else {
        bound(bindings.drop_last()).insert(bindings.last().name@, bindings.last().value)
    }
}

/// The mathematical content of an [`ImageEffect`].
pub struct EffectView {
    /// The device name of the program.
    pub program: u32,
    /// The names that the shader reads, in the order the compiler gave them.
    pub names: Seq<String>,
    /// The values bound for the next draw.
    pub bindings: Map<Seq<char>, BindingValue>,
}

/// Whether every name of the shader has a value.
pub open spec fn all_bound(names: Seq<String>, bindings: Map<Seq<char>, BindingValue>) -> bool {
    forall|i: int| 0 <= i < names.len() ==> bindings.contains_key(#[trigger] names[i]@)
}

/// Whether `names[i]` is the first name of the shader that has no value.
pub open spec fn first_missing(
    names: Seq<String>,
    bindings: Map<Seq<char>, BindingValue>,
    i: int,
) -> bool {
    &&& 0 <= i < names.len()
    &&& !bindings.contains_key(names[i]@)
    &&& forall|j: int| 0 <= j < i ==> bindings.contains_key(#[trigger] names[j]@)
}

/// Whether `names[i]` is bound to the texture with the device name `texture`.
pub open spec fn samples(
    names: Seq<String>,
    bindings: Map<Seq<char>, BindingValue>,
    i: int,
    texture: u32,
) -> bool {
    &&& 0 <= i < names.len()
    &&& bindings.contains_key(names[i]@)
    &&& bindings[names[i]@] matches BindingValue::Texture(t)
    &&& t.texture == texture
}

/// Whether the shader would read the texture that the target writes.
pub open spec fn aliases(
    names: Seq<String>,
    bindings: Map<Seq<char>, BindingValue>,
    target: Target,
) -> bool {
    target.texture != 0 && exists|i: int| #[trigger] samples(names, bindings, i, target.texture)
}

/// The commands of one draw of the effect: the program, a value for each
/// name of the shader in order, the whole render state, the viewport, and
/// the draw.
pub open spec fn apply_commands(
    effect: EffectView,
    render_states: RenderStates,
    viewport: Viewport,
) -> Seq<Command> {
    seq![Command::UseProgram { program: effect.program }] + Seq::new(
        effect.names.len(),
        |i: int| Command::Bind { name: effect.names[i], value: effect.bindings[effect.names[i]@] },
    ) + seq![
        Command::SetRenderStates { states: render_states },
        Command::SetViewport { viewport },
        Command::DrawFullScreen,
    ]
}

/// What applying an effect does and returns. A name without a value fails
/// the draw with the first such name; a shader that would read the texture
/// being written fails it too; in both cases nothing is recorded. Otherwise
/// the draw is recorded.
pub open spec fn applied(
    effect: EffectView,
    before: ContextView,
    render_states: RenderStates,
    viewport: Viewport,
    result: Result<(), Error>,
    after: ContextView,
) -> bool {
    match result {
        Ok(_) => {
            &&& all_bound(effect.names, effect.bindings)
            &&& !aliases(effect.names, effect.bindings, before.target)
            &&& after == (ContextView {
                commands: before.commands + apply_commands(effect, render_states, viewport),
                ..before
            })
        },
        Err(Error::MissingBinding(name)) => {
            &&& after == before
            &&& exists|i: int| #[trigger]
                first_missing(effect.names, effect.bindings, i) && name@ == effect.names[i]@
        },
        Err(Error::AliasingViolation) => {
            &&& after == before
            &&& all_bound(effect.names, effect.bindings)
            &&& aliases(effect.names, effect.bindings, before.target)
        },
        Err(_) => false,
    }
}

/// A draw fails fast on a name that has no value: whatever else is bound, it
/// returns a missing binding and records nothing; and where that name is the
/// only one without a value, the error names it.
pub proof fn lemma_unbound_name_fails_the_draw(
    effect: EffectView,
    before: ContextView,
    render_states: RenderStates,
    viewport: Viewport,
    result: Result<(), Error>,
    after: ContextView,
    i: int,
)
    requires
        applied(effect, before, render_states, viewport, result, after),
        0 <= i < effect.names.len(),
        !effect.bindings.contains_key(effect.names[i]@),
    ensures
        result matches Err(Error::MissingBinding(name)) && (first_missing(
            effect.names,
            effect.bindings,
            i,
        ) ==> name@ == effect.names[i]@),
        after == before,
{
    match result {
        Err(Error::MissingBinding(name)) => {
            let k = choose|k: int| #[trigger]
                first_missing(effect.names, effect.bindings, k) && name@ == effect.names[k]@;
            if first_missing(effect.names, effect.bindings, i) {
                if k < i {
                    assert(effect.bindings.contains_key(effect.names[k]@));
                } else if i < k {
                    assert(effect.bindings.contains_key(effect.names[i]@));
                }
            }
        },
        _ => {
            assert(effect.bindings.contains_key(effect.names[i]@));
        },
    }
}

/// A shader program that is drawn over the whole viewport.
pub struct ImageEffect {
    program: u32,
    names: Vec<String>,
    bindings: Vec<Binding>,
}

impl View for ImageEffect {
    type V = EffectView;

    closed spec fn view(&self) -> EffectView {
        EffectView { program: self.program, names: self.names@, bindings: bound(self.bindings@) }
    }
}

/// The value that the bindings give `name`.
fn find(bindings: &Vec<Binding>, name: &String) -> (value: Option<BindingValue>)
    ensures
        value == (if bound(bindings@).contains_key(name@) {
            Some(bound(bindings@)[name@])
        } else {
            None
        }),
{
    let mut i: usize = bindings.len();
    proof {
        assert(bindings@.take(i as int) =~= bindings@);
    }
    while i > 0
        invariant
            i <= bindings@.len(),
            bound(bindings@).contains_key(name@) == bound(bindings@.take(i as int)).contains_key(
                name@,
            ),
            bound(bindings@).contains_key(name@) ==> bound(bindings@)[name@] == bound(
                bindings@.take(i as int),
            )[name@],
        decreases i,
    {
        proof {
            assert(bindings@.take(i as int).drop_last() =~= bindings@.take(i - 1));
            assert(bindings@.take(i as int).last() == bindings@[i - 1]);
        }
        i = i - 1;
        if bindings[i].name == *name {
            return Some(bindings[i].value);
        }
    }
    None
}

impl ImageEffect {
    /// Creates an effect from a shader that the device has compiled.
    ///
    /// `uniforms` is what the compiler reported: the names that the program
    /// reads, or `None` where it did not compile. Creation fails in that
    /// case, and where the device has no name left; it then records nothing.
    pub fn new(context: &mut Context, source: String, uniforms: Option<Vec<String>>) -> (effect:
        Result<ImageEffect, Error>)
        ensures
            uniforms is Some && old(context)@.next_name < u32::MAX ==> {
                &&& effect matches Ok(e)
                &&& e@ == (EffectView {
                    program: old(context)@.next_name as u32,
                    names: uniforms->0@,
                    bindings: Map::empty(),
                })
                &&& final(context)@ == (ContextView {
                    commands: old(context)@.commands.push(
                        Command::CreateProgram { program: old(context)@.next_name as u32, source },
                    ),
                    next_name: old(context)@.next_name + 1,
                    target: old(context)@.target,
                })
            },
            uniforms is None || old(context)@.next_name >= u32::MAX ==> {
                &&& effect matches Err(Error::DeviceResourceError)
                &&& final(context)@ == old(context)@
            },
    {
        let names: Vec<String> = match uniforms {
            Some(names) => names,
            None => {
                return Err(Error::DeviceResourceError);
            },
        };
        let program: u32 = match context.allocate() {
            Ok(name) => name,
            Err(e) => {
                return Err(Error::DeviceResourceError);
            },
        };
        context.record(Command::CreateProgram { program, source });
        Ok(ImageEffect { program, names, bindings: Vec::new() })
    }

    /// Binds `texture` to the sampler `name` for the next draw.
    pub fn use_texture(&mut self, name: &str, texture: TextureBinding)
        ensures
            final(self)@ == (EffectView {
                bindings: old(self)@.bindings.insert(name@, BindingValue::Texture(texture)),
                ..old(self)@
            }),
    {
        let binding = Binding { name: name.to_owned(), value: BindingValue::Texture(texture) };
        proof {
            assert(self.bindings@.push(binding).drop_last() =~= self.bindings@);
        }
        self.bindings.push(binding);
    }

    /// Binds `value` to the uniform `name` for the next draw.
    pub fn use_uniform(&mut self, name: &str, value: UniformValue)
        ensures
            final(self)@ == (EffectView {
                bindings: old(self)@.bindings.insert(name@, BindingValue::Uniform(value)),
                ..old(self)@
            }),
    {
        let binding = Binding { name: name.to_owned(), value: BindingValue::Uniform(value) };
        proof {
            assert(self.bindings@.push(binding).drop_last() =~= self.bindings@);
        }
        self.bindings.push(binding);
    }

    /// Draws the effect over `viewport` into the active render target.
    ///
    /// Every draw sets the whole render state itself, so no state of an
    /// earlier draw leaks into it. The bindings are used up by the call,
    /// whether it succeeds or not.
    pub fn apply(&mut self, context: &mut Context, render_states: RenderStates, viewport: Viewport) -> (result:
        Result<(), Error>)
        ensures
            applied(
                old(self)@,
                old(context)@,
                render_states,
                viewport,
                result,
                final(context)@,
            ),
            final(self)@ == (EffectView { bindings: Map::empty(), ..old(self)@ }),
    {
        let ghost effect = self@;
        let target: Target = context.target();
        let count: usize = self.names.len();
        let mut values: Vec<BindingValue> = Vec::new();
        let mut aliased: bool = false;
        let mut i: usize = 0;
        while i < count
            invariant
                i <= count,
                count == self.names@.len(),
                self@ == effect,
                effect == old(self)@,
                context@ == old(context)@,
                target == context@.target,
                values@.len() == i,
                forall|j: int|
                    0 <= j < i ==> effect.bindings.contains_key(#[trigger] effect.names[j]@),
                forall|j: int| 0 <= j < i ==> values@[j] == effect.bindings[effect.names[j]@],
                aliased == (target.texture != 0 && exists|j: int|
                    0 <= j < i && #[trigger] samples(
                        effect.names,
                        effect.bindings,
                        j,
                        target.texture,
                    )),
            decreases count - i,
        {
            match find(&self.bindings, &self.names[i]) {
                Some(value) => {
                    let ghost seen = aliased;
                    match value {
                        BindingValue::Texture(t) => {
                            if target.texture != 0 && t.texture == target.texture {
                                aliased = true;
                            }
                        },
                        BindingValue::Uniform(_) => {},
                    }
                    values.push(value);
                    proof {
                        if aliased && !seen {
                            assert(samples(
                                effect.names,
                                effect.bindings,
                                i as int,
                                target.texture,
                            ));
                        }
                    }
                },
                None => {
                    let name: String = self.names[i].clone();
                    self.bindings = Vec::new();
                    proof {
                        assert(first_missing(effect.names, effect.bindings, i as int));
                    }
                    return Err(Error::MissingBinding(name));
                },
            }
            i = i + 1;
        }
        self.bindings = Vec::new();
        if aliased {
            return Err(Error::AliasingViolation);
        }
        context.record(Command::UseProgram { program: self.program });
        let ghost opened = context@.commands;
        let mut k: usize = 0;
        while k < count
            invariant
                k <= count,
                count == self.names@.len(),
                count == values@.len(),
                self.names@ == effect.names,
                all_bound(effect.names, effect.bindings),
                forall|j: int| 0 <= j < count ==> values@[j] == effect.bindings[effect.names[j]@],
                context@.target == old(context)@.target,
                context@.next_name == old(context)@.next_name,
                context@.commands == opened + Seq::new(
                    k as nat,
                    |j: int|
                        Command::Bind {
                            name: effect.names[j],
                            value: effect.bindings[effect.names[j]@],
                        },
                ),
            decreases count - k,
        {
            context.record(Command::Bind { name: self.names[k].clone(), value: values[k] });
            proof {
                assert(context@.commands =~= opened + Seq::new(
                    (k + 1) as nat,
                    |j: int|
                        Command::Bind {
                            name: effect.names[j],
                            value: effect.bindings[effect.names[j]@],
                        },
                ));
            }
            k = k + 1;
        }
        context.record(Command::SetRenderStates { states: render_states });
        context.record(Command::SetViewport { viewport });
        context.record(Command::DrawFullScreen);
        proof {
            assert(context@.commands =~= old(context)@.commands + apply_commands(
                effect,
                render_states,
                viewport,
            ));
        }
        Ok(())
    }
}

} // verus!
