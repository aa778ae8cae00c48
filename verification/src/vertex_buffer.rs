//! Buffers of per-vertex data such as positions, normals or colours.

use vstd::prelude::*;
use crate::buffer::{
    created_with_data, buffer_created, fill_commands, filled, Buffer, BufferDataType, BufferView,
};
use crate::consts;
use crate::context::{Command, Context, ContextView};
use crate::error::Error;

verus! {

/// A buffer that holds one element of type `T` per vertex.
pub struct VertexBuffer<T: BufferDataType> {
    buffer: Buffer<T>,
}

impl<T: BufferDataType> View for VertexBuffer<T> {
    type V = BufferView<T>;

    closed spec fn view(&self) -> BufferView<T> {
        self.buffer@
    }
}

impl<T: BufferDataType> VertexBuffer<T> {
    /// Whether the buffer's counts are consistent. Every vertex buffer that
    /// this library hands out is.
    pub closed spec fn wf(&self) -> bool {
        self.buffer.wf()
    }

    /// Creates a new empty vertex buffer. Fails where the device has no name
    /// left, and then records nothing.
    pub fn new(context: &mut Context) -> (buffer: Result<Self, Error>)
        ensures
            old(context)@.next_name < u32::MAX ==> {
                &&& buffer matches Ok(b)
                &&& b.wf()
                &&& b@ == (BufferView::<T> {
                    id: old(context)@.next_name as u32,
                    content: Seq::empty(),
                    capacity: 0,
                })
                &&& final(context)@ == buffer_created(old(context)@)
            },
            old(context)@.next_name >= u32::MAX ==> {
                &&& buffer matches Err(Error::DeviceResourceError)
                &&& final(context)@ == old(context)@
            },
    {
        match Buffer::new(context) {
            Ok(buffer) => Ok(Self { buffer }),
            Err(e) => Err(Error::DeviceResourceError),
        }
    }

    /// Creates a new vertex buffer and fills it with the given data, one
    /// element per vertex, in the format that the shader reads.
    pub fn new_with_data(context: &mut Context, data: &[T]) -> (buffer: Result<Self, Error>)
        requires
            data@.len() * T::components() <= u32::MAX,
        ensures
            old(context)@.next_name < u32::MAX ==> {
                &&& buffer matches Ok(b)
                &&& b.wf()
                &&& b@ == (BufferView::<T> {
                    id: old(context)@.next_name as u32,
                    content: data@,
                    capacity: data@.len() as u32,
                })
                &&& final(context)@ == created_with_data(
                    old(context)@,
                    data@.len() as u32,
                    T::components() as u32,
                )
            },
            old(context)@.next_name >= u32::MAX ==> {
                &&& buffer matches Err(Error::DeviceResourceError)
                &&& final(context)@ == old(context)@
            },
    {
        match Buffer::new_with_data(context, data) {
            Ok(buffer) => Ok(Self { buffer }),
            Err(e) => Err(Error::DeviceResourceError),
        }
    }

    /// Fills the vertex buffer with the given data, in place of what it
    /// held. The device storage is kept where the data fits into it and
    /// allocated anew where it does not.
    pub fn fill(&mut self, context: &mut Context, data: &[T])
        requires
            old(self).wf(),
            data@.len() * T::components() <= u32::MAX,
        ensures
            final(self).wf(),
            final(self)@ == filled(old(self)@, data@),
            final(context)@ == (ContextView {
                commands: old(context)@.commands + fill_commands(
                    old(self)@.id,
                    old(self)@.capacity,
                    data@.len() as u32,
                    T::components() as u32,
                ),
                ..old(context)@
            }),
    {
        self.buffer.fill(context, data);
    }

    /// The number of values in the buffer.
    pub fn count(&self) -> (count: u32)
        requires
            self.wf(),
        ensures
            count == self@.content.len() * T::components(),
    {
        self.buffer.attribute_count() * T::size()
    }

    /// The number of vertex attributes in the buffer.
    pub fn vertex_count(&self) -> (count: u32)
        requires
            self.wf(),
        ensures
            count == self@.content.len(),
    {
        self.buffer.attribute_count()
    }

    /// The vertex attributes in the buffer, for the upload.
    pub fn data(&self) -> (data: &Vec<T>)
        ensures
            data@ == self@.content,
    {
        self.buffer.data()
    }

    /// Makes the buffer the one that draws read their vertex data from.
    pub fn bind(&self, context: &mut Context)
        ensures
            final(context)@ == (ContextView {
                commands: old(context)@.commands.push(
                    Command::BindBuffer { target: consts::ARRAY_BUFFER, buffer: self@.id },
                ),
                ..old(context)@
            }),
    {
        self.buffer.bind(context);
    }

    /// Releases the device memory. The buffer is gone afterwards, so it
    /// cannot be released twice.
    pub fn release(self, context: &mut Context)
        ensures
            final(context)@ == (ContextView {
                commands: old(context)@.commands.push(Command::DeleteBuffer { buffer: self@.id }),
                ..old(context)@
            }),
    {
        self.buffer.release(context);
    }

    /// Creates a new vertex buffer and fills it with the given data. The
    /// same as [`VertexBuffer::new_with_data`]: how often the data changes
    /// shows in the fills.
    pub fn new_with_static(context: &mut Context, data: &[T]) -> (buffer: Result<Self, Error>)
        requires
            data@.len() * T::components() <= u32::MAX,
        ensures
            old(context)@.next_name < u32::MAX ==> {
                &&& buffer matches Ok(b)
                &&& b.wf()
                &&& b@ == (BufferView::<T> {
                    id: old(context)@.next_name as u32,
                    content: data@,
                    capacity: data@.len() as u32,
                })
                &&& final(context)@ == created_with_data(
                    old(context)@,
                    data@.len() as u32,
                    T::components() as u32,
                )
            },
            old(context)@.next_name >= u32::MAX ==> {
                &&& buffer matches Err(Error::DeviceResourceError)
                &&& final(context)@ == old(context)@
            },
    {
        Self::new_with_data(context, data)
    }

    /// Creates a new vertex buffer and fills it with the given data. The
    /// same as [`VertexBuffer::new_with_data`].
    pub fn new_with_dynamic(context: &mut Context, data: &[T]) -> (buffer: Result<Self, Error>)
        requires
            data@.len() * T::components() <= u32::MAX,
        ensures
            old(context)@.next_name < u32::MAX ==> {
                &&& buffer matches Ok(b)
                &&& b.wf()
                &&& b@ == (BufferView::<T> {
                    id: old(context)@.next_name as u32,
                    content: data@,
                    capacity: data@.len() as u32,
                })
                &&& final(context)@ == created_with_data(
                    old(context)@,
                    data@.len() as u32,
                    T::components() as u32,
                )
            },
            old(context)@.next_name >= u32::MAX ==> {
                &&& buffer matches Err(Error::DeviceResourceError)
                &&& final(context)@ == old(context)@
            },
    {
        Self::new_with_data(context, data)
    }

    /// Fills the vertex buffer with the given data. The same as
    /// [`VertexBuffer::fill`].
    pub fn fill_with_static(&mut self, context: &mut Context, data: &[T])
        requires
            old(self).wf(),
            data@.len() * T::components() <= u32::MAX,
        ensures
            final(self).wf(),
            final(self)@ == filled(old(self)@, data@),
            final(context)@ == (ContextView {
                commands: old(context)@.commands + fill_commands(
                    old(self)@.id,
                    old(self)@.capacity,
                    data@.len() as u32,
                    T::components() as u32,
                ),
                ..old(context)@
            }),
    {
        self.fill(context, data)
    }

    /// Fills the vertex buffer with the given data. The same as
    /// [`VertexBuffer::fill`].
    pub fn fill_with_dynamic(&mut self, context: &mut Context, data: &[T])
        requires
            old(self).wf(),
            data@.len() * T::components() <= u32::MAX,
        ensures
            final(self).wf(),
            final(self)@ == filled(old(self)@, data@),
            final(context)@ == (ContextView {
                commands: old(context)@.commands + fill_commands(
                    old(self)@.id,
                    old(self)@.capacity,
                    data@.len() as u32,
                    T::components() as u32,
                ),
                ..old(context)@
            }),
    {
        self.fill(context, data)
    }
}

/// After a fill the buffer holds what was filled in, whatever it held
/// before: its content is the data, its count is the length of the data, and
/// its storage has not shrunk. A second fill with the same data changes
/// nothing.
pub proof fn lemma_fill_round_trip<T>(buffer: BufferView<T>, data: Seq<T>)
    requires
        data.len() <= u32::MAX,
    ensures
        filled(buffer, data).content == data,
        filled(buffer, data).content.len() == data.len(),
        filled(buffer, data).capacity >= buffer.capacity,
        filled(buffer, data).capacity >= data.len(),
        filled(filled(buffer, data), data) == filled(buffer, data),
{
}

} // verus!
