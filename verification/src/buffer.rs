//! Buffers of per-vertex data.

use vstd::prelude::*;
use crate::consts;
use crate::context::{Command, Context, ContextView};
use crate::error::Error;
use crate::state::Color;

verus! {

/// A type whose values can be the elements of a buffer: an element is
/// between one and four scalars.
pub trait BufferDataType: Copy {
    /// The number of scalars in one element.
    spec fn components() -> nat;

    /// The number of scalars in one element.
    fn size() -> (n: u32)
        ensures
            n == Self::components(),
            1 <= n <= 4,
    ;

    /// An element is between one and four scalars.
    proof fn lemma_components_in_range()
        ensures
            1 <= Self::components() <= 4,
    ;
}

impl BufferDataType for u8 {
    open spec fn components() -> nat {
        1
    }

    fn size() -> (n: u32) {
        1
    }

    proof fn lemma_components_in_range() {
    }
}

impl BufferDataType for u16 {
    open spec fn components() -> nat {
        1
    }

    fn size() -> (n: u32) {
        1
    }

    proof fn lemma_components_in_range() {
    }
}

impl BufferDataType for u32 {
    open spec fn components() -> nat {
        1
    }

    fn size() -> (n: u32) {
        1
    }

    proof fn lemma_components_in_range() {
    }
}

impl BufferDataType for i8 {
    open spec fn components() -> nat {
        1
    }

    fn size() -> (n: u32) {
        1
    }

    proof fn lemma_components_in_range() {
    }
}

impl BufferDataType for i16 {
    open spec fn components() -> nat {
        1
    }

    fn size() -> (n: u32) {
        1
    }

    proof fn lemma_components_in_range() {
    }
}

impl BufferDataType for i32 {
    open spec fn components() -> nat {
        1
    }

    fn size() -> (n: u32) {
        1
    }

    proof fn lemma_components_in_range() {
    }
}

impl BufferDataType for Color {
    open spec fn components() -> nat {
        4
    }

    fn size() -> (n: u32) {
        4
    }

    proof fn lemma_components_in_range() {
    }
}

/// The mathematical content of a buffer.
pub struct BufferView<T> {
    /// The device name of the buffer.
    pub id: u32,
    /// The elements that the last fill stored.
    pub content: Seq<T>,
    /// The number of elements that the device storage has room for.
    pub capacity: u32,
}

/// The larger of two counts.
pub open spec fn at_least(a: u32, b: nat) -> nat {
    if a >= b {
        a as nat
    } else {
        b
    }
}

/// The buffer after it was filled with `data`: it holds `data`, in storage
/// that has grown if it had to and never shrinks.
pub open spec fn filled<T>(buffer: BufferView<T>, data: Seq<T>) -> BufferView<T> {
    BufferView {
        id: buffer.id,
        content: data,
        capacity: at_least(buffer.capacity, data.len()) as u32,
    }
}

/// The commands of a fill of the buffer `id`, which has room for `capacity`
/// elements, with `len` elements of `components` scalars each. Storage is
/// allocated anew only where the elements do not fit into what the buffer
/// has; the first allocation is marked as rarely changing, later ones as
/// changing often.
pub open spec fn fill_commands(id: u32, capacity: u32, len: u32, components: u32) -> Seq<Command> {
    seq![
        Command::BindBuffer { target: consts::ARRAY_BUFFER, buffer: id },
        if len > capacity {
            Command::BufferData {
                target: consts::ARRAY_BUFFER,
                attributes: len,
                components,
                usage: if capacity == 0 {
                    consts::STATIC_DRAW
                } else {
                    consts::DYNAMIC_DRAW
                },
            }
        } else {
            Command::BufferSubData { target: consts::ARRAY_BUFFER, attributes: len, components }
        },
        Command::UnbindBuffer { target: consts::ARRAY_BUFFER },
    ]
}

/// The context after a buffer was created in it: the buffer takes the next
/// free name.
pub open spec fn buffer_created(before: ContextView) -> ContextView {
    ContextView {
        commands: before.commands.push(Command::CreateBuffer { buffer: before.next_name as u32 }),
        next_name: before.next_name + 1,
        target: before.target,
    }
}

/// The context after a buffer was created in it and filled with `len`
/// elements of `components` scalars each.
pub open spec fn created_with_data(before: ContextView, len: u32, components: u32) -> ContextView {
    ContextView {
        commands: buffer_created(before).commands + fill_commands(
            before.next_name as u32,
            0,
            len,
            components,
        ),
        ..buffer_created(before)
    }
}

/// A region of device memory that holds elements of type `T`. The buffer
/// keeps the elements of its last fill for the upload.
pub struct Buffer<T: BufferDataType> {
    id: u32,
    data: Vec<T>,
    capacity: u32,
}

impl<T: BufferDataType> View for Buffer<T> {
    type V = BufferView<T>;

    closed spec fn view(&self) -> BufferView<T> {
        BufferView { id: self.id, content: self.data@, capacity: self.capacity }
    }
}

/// Whether a buffer's counts are consistent for elements of `components`
/// scalars: what it holds fits into its storage, and the number of scalars
/// fits into 32 bits.
pub open spec fn consistent<T>(buffer: BufferView<T>, components: nat) -> bool {
    &&& buffer.content.len() <= buffer.capacity
    &&& buffer.content.len() * components <= u32::MAX
}

/// A copy of `data`.
pub fn copy_of<T: Copy>(data: &[T]) -> (copy: Vec<T>)
    ensures
        copy@ == data@,
{
    let mut copy: Vec<T> = Vec::new();
    let mut i: usize = 0;
    while i < data.len()
        invariant
            i <= data@.len(),
            copy@ == data@.take(i as int),
        decreases data@.len() - i,
    {
        copy.push(data[i]);
        proof {
            assert(copy@ =~= data@.take(i + 1));
        }
        i = i + 1;
    }
    proof {
        assert(data@.take(data@.len() as int) =~= data@);
    }
    copy
}

impl<T: BufferDataType> Buffer<T> {
    /// Whether the buffer's counts are consistent.
    pub open spec fn wf(&self) -> bool {
        consistent(self@, T::components())
    }

    /// Creates an empty buffer. Fails where the device has no name left, and
    /// then records nothing.
    pub fn new(context: &mut Context) -> (buffer: Result<Self, Error>)
        ensures
            old(context)@.next_name < u32::MAX ==> {
                &&& buffer matches Ok(b)
                &&& b.wf()
                &&& b@ == (BufferView::<T> {
                    id: old(context)@.next_name as u32,
                    content: Seq::empty(),
                    capacity: 0,
                })
                &&& final(context)@ == buffer_created(old(context)@)
            },
            old(context)@.next_name >= u32::MAX ==> {
                &&& buffer matches Err(Error::DeviceResourceError)
                &&& final(context)@ == old(context)@
            },
    {
        let id: u32 = match context.allocate() {
            Ok(name) => name,
            Err(e) => {
                return Err(Error::DeviceResourceError);
            },
        };
        context.record(Command::CreateBuffer { buffer: id });
        Ok(Self { id, data: Vec::new(), capacity: 0 })
    }

    /// Creates a buffer that holds `data`.
    pub fn new_with_data(context: &mut Context, data: &[T]) -> (buffer: Result<Self, Error>)
        requires
            data@.len() * T::components() <= u32::MAX,
        ensures
            old(context)@.next_name < u32::MAX ==> {
                &&& buffer matches Ok(b)
                &&& b.wf()
                &&& b@ == (BufferView::<T> {
                    id: old(context)@.next_name as u32,
                    content: data@,
                    capacity: data@.len() as u32,
                })
                &&& final(context)@ == created_with_data(
                    old(context)@,
                    data@.len() as u32,
                    T::components() as u32,
                )
            },
            old(context)@.next_name >= u32::MAX ==> {
                &&& buffer matches Err(Error::DeviceResourceError)
                &&& final(context)@ == old(context)@
            },
    {
        let mut buffer = match Self::new(context) {
            Ok(b) => b,
            Err(e) => {
                return Err(Error::DeviceResourceError);
            },
        };
        buffer.fill(context, data);
        Ok(buffer)
    }

    /// Replaces what the buffer holds by `data`. The device storage is kept
    /// where `data` fits into it and allocated anew where it does not.
    pub fn fill(&mut self, context: &mut Context, data: &[T])
        requires
            old(self).wf(),
            data@.len() * T::components() <= u32::MAX,
        ensures
            final(self).wf(),
            final(self)@ == filled(old(self)@, data@),
            final(context)@ == (ContextView {
                commands: old(context)@.commands + fill_commands(
                    old(self)@.id,
                    old(self)@.capacity,
                    data@.len() as u32,
                    T::components() as u32,
                ),
                ..old(context)@
            }),
    {
        let components: u32 = T::size();
        proof {
            T::lemma_components_in_range();
            assert(data@.len() <= data@.len() * T::components()) by (nonlinear_arith)
                requires
                    T::components() >= 1,
            ;
        }
        let len: u32 = data.len() as u32;
        context.record(Command::BindBuffer { target: consts::ARRAY_BUFFER, buffer: self.id });
        if len > self.capacity {
            let usage: u32 = if self.capacity == 0 {
                consts::STATIC_DRAW
            } else {
                consts::DYNAMIC_DRAW
            };
            context.record(
                Command::BufferData {
                    target: consts::ARRAY_BUFFER,
                    attributes: len,
                    components,
                    usage,
                },
            );
            self.capacity = len;
        } else {
            context.record(
                Command::BufferSubData { target: consts::ARRAY_BUFFER, attributes: len, components },
            );
        }
        context.record(Command::UnbindBuffer { target: consts::ARRAY_BUFFER });
        self.data = copy_of(data);
        proof {
            assert(final(context)@.commands =~= old(context)@.commands + fill_commands(
                old(self)@.id,
                old(self)@.capacity,
                len,
                components,
            ));
        }
    }

    /// The number of elements that the buffer holds.
    pub fn attribute_count(&self) -> (count: u32)
        requires
            self.wf(),
        ensures
            count == self@.content.len(),
    {
        proof {
            T::lemma_components_in_range();
            assert(self@.content.len() <= self@.content.len() * T::components())
                by (nonlinear_arith)
                requires
                    T::components() >= 1,
            ;
        }
        self.data.len() as u32
    }

    /// The elements that the buffer holds, for the upload.
    pub fn data(&self) -> (data: &Vec<T>)
        ensures
            data@ == self@.content,
    {
        &self.data
    }

    /// Makes the buffer the one that draws read their vertex data from.
    pub fn bind(&self, context: &mut Context)
        ensures
            final(context)@ == (ContextView {
                commands: old(context)@.commands.push(
                    Command::BindBuffer { target: consts::ARRAY_BUFFER, buffer: self@.id },
                ),
                ..old(context)@
            }),
    {
        context.record(Command::BindBuffer { target: consts::ARRAY_BUFFER, buffer: self.id });
    }

    /// Releases the device memory. The buffer is gone afterwards, so it
    /// cannot be released twice.
    pub fn release(self, context: &mut Context)
        ensures
            final(context)@ == (ContextView {
                commands: old(context)@.commands.push(Command::DeleteBuffer { buffer: self@.id }),
                ..old(context)@
            }),
    {
        context.record(Command::DeleteBuffer { buffer: self.id });
    }
}

} // verus!
