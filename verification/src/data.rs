//! Device buffers: allocation sized to the host data, transfers in both
//! directions, and release.

use crate::driver::{Call, Reply};
use crate::runtime::{kind_of, ClError, Env};
use vstd::layout::size_of;
use vstd::prelude::*;
use vstd::slice::slice_to_vec;

verus! {

/// The number of bytes that `len` elements of `T` take.
pub open spec fn byte_size<T>(len: nat) -> nat {
    len * size_of::<T>()
}

/// A region of device memory and its mirror on the host.
///
/// `buffer` is the device handle, zero once released; `context` is the
/// context that it was allocated under; `size` is the number of bytes that
/// were allocated; `data` is the host mirror.
#[derive(Debug, PartialEq)]
pub struct Buffer<T: Copy> {
    pub buffer: usize,
    pub context: usize,
    pub size: usize,
    pub data: Vec<T>,
}

/// An allocation in progress: the device memory has been asked for and the
/// handle is awaited.
#[derive(Debug, PartialEq)]
pub struct Alloc<T: Copy> {
    pub context: usize,
    pub size: usize,
    pub data: Vec<T>,
}

/// How many bytes `len` elements of `T` take, where that fits the machine.
fn bytes_of<T>(len: usize) -> (r: Option<usize>)
    ensures
        byte_size::<T>(len as nat) <= usize::MAX ==> r == Some(byte_size::<T>(len as nat) as usize),
        byte_size::<T>(len as nat) > usize::MAX ==> r is None,
{
    len.checked_mul(core::mem::size_of::<T>())
}

/// How an allocation for `data` begins: not at all in a session that was
/// torn down, nor where the byte size does not fit the machine.
pub open spec fn alloc_start<T: Copy>(env: Env, data: Seq<T>) -> Result<(usize, usize), ClError> {
    if env.context == 0 {
        Err(ClError::InvalidContext)
    } else if byte_size::<T>(data.len()) > usize::MAX {
        Err(ClError::OutOfMemory)
    } else {
        Ok((env.context, byte_size::<T>(data.len()) as usize))
    }
}

/// Begins the allocation of device memory for a copy of `data`: as many
/// bytes as `data` takes, under the session's context.
fn buffer_write<T: Copy>(env: &Env, data: &[T]) -> (r: Result<Alloc<T>, ClError>)
    ensures
        alloc_start::<T>(*env, data@) matches Err(e) ==> r == Err::<Alloc<T>, ClError>(e),
        alloc_start::<T>(*env, data@) matches Ok(plan) ==> (r matches Ok(a) && a.context == plan.0
            && a.size == plan.1 && a.data@ == data@ && a.wf()),
{
    if env.context == 0 {
        return Err(ClError::InvalidContext);
    }
    match bytes_of::<T>(data.len()) {
        None => Err(ClError::OutOfMemory),
        Some(size) => Ok(Alloc { context: env.context, size, data: slice_to_vec(data) }),
    }
}

impl<T: Copy> Alloc<T> {
    /// The size asked for is the size of the data.
    pub open spec fn wf(&self) -> bool {
        self.context != 0 && self.size == byte_size::<T>(self.data@.len())
    }

    /// The call that the allocation awaits the reply to.
    pub open spec fn pending(&self) -> Call {
        Call::CreateBuffer { context: self.context, bytes: self.size }
    }

    /// The call to perform next: the one that the allocation awaits the reply to.
    pub fn call(&self) -> (call: Call)
        ensures
            call == self.pending(),
    {
        Call::CreateBuffer { context: self.context, bytes: self.size }
    }

    /// The buffer, once the driver has handed out its handle; the kind of
    /// the driver's status where it has not. The device memory is not
    /// filled: that takes an upload.
    pub fn made(self, reply: &Reply) -> (r: Result<Buffer<T>, ClError>)
        ensures
            !reply.made() ==> r == Err::<Buffer<T>, ClError>(kind_of(reply.status as int)),
            reply.made() ==> r == Ok::<Buffer<T>, ClError>(
                Buffer {
                    buffer: reply.value,
                    context: self.context,
                    size: self.size,
                    data: self.data,
                },
            ),
            reply.made() && self.wf() ==> (r matches Ok(b) && b.wf() && !b.released()),
    {
        match reply.handle() {
            Err(error) => Err(error),
            Ok(buffer) => Ok(
                Buffer { buffer, context: self.context, size: self.size, data: self.data },
            ),
        }
    }
}

/// What an upload of `buf` through the session asks of the driver.
///
/// A released buffer is refused first, then a session that was torn down or
/// is not the one that made the buffer, then a mirror that no longer has the
/// size allocated. What is written is the whole mirror.
pub open spec fn upload<T: Copy>(env: Env, buf: Buffer<T>) -> Result<Call, ClError> {
    if buf.buffer == 0 {
        Err(ClError::InvalidBuffer)
    } else if env.context == 0 || env.queue == 0 || buf.context != env.context {
        Err(ClError::InvalidContext)
    } else if byte_size::<T>(buf.data@.len()) != buf.size {
        Err(ClError::InvalidLength)
    } else {
        Ok(Call::WriteBuffer { queue: env.queue, buffer: buf.buffer, bytes: buf.size })
    }
}

/// What a download from `buf` into a destination of `len` elements asks of
/// the driver.
///
/// A released buffer is refused first, then a session that was torn down or
/// is not the one that made the buffer, then a destination whose length is
/// not the buffer's. What is read is the whole buffer.
pub open spec fn download<T: Copy>(env: Env, len: nat, buf: Buffer<T>) -> Result<Call, ClError> {
    if buf.buffer == 0 {
        Err(ClError::InvalidBuffer)
    } else if env.context == 0 || env.queue == 0 || buf.context != env.context {
        Err(ClError::InvalidContext)
    } else if byte_size::<T>(len) != buf.size {
        Err(ClError::InvalidLength)
    } else {
        Ok(Call::ReadBuffer { queue: env.queue, buffer: buf.buffer, bytes: buf.size })
    }
}

/// Plans the blocking write of the host mirror into the device memory.
fn to_gpu<T: Copy>(env: &Env, buffer: &Buffer<T>) -> (r: Result<Call, ClError>)
    ensures
        r == upload(*env, *buffer),
{
    if buffer.buffer == 0 {
        return Err(ClError::InvalidBuffer);
    }
    if env.context == 0 || env.queue == 0 || buffer.context != env.context {
        return Err(ClError::InvalidContext);
    }
    match bytes_of::<T>(buffer.data.len()) {
        Some(size) if size == buffer.size => Ok(
            Call::WriteBuffer { queue: env.queue, buffer: buffer.buffer, bytes: buffer.size },
        ),
        _ => Err(ClError::InvalidLength),
    }
}

/// Plans the blocking read of the device memory into `data`.
fn from_gpu<T: Copy>(env: &Env, data: &[T], buf: &Buffer<T>) -> (r: Result<Call, ClError>)
    ensures
        r == download(*env, data@.len(), *buf),
{
    if buf.buffer == 0 {
        return Err(ClError::InvalidBuffer);
    }
    if env.context == 0 || env.queue == 0 || buf.context != env.context {
        return Err(ClError::InvalidContext);
    }
    match bytes_of::<T>(data.len()) {
        Some(size) if size == buf.size => Ok(
            Call::ReadBuffer { queue: env.queue, buffer: buf.buffer, bytes: buf.size },
        ),
        _ => Err(ClError::InvalidLength),
    }
}

/// The buffer after its release.
pub open spec fn released<T: Copy>(buf: Buffer<T>) -> Buffer<T> {
    Buffer { buffer: 0, ..buf }
}

/// The release that the buffer owes: one, unless it was released before.
pub open spec fn release<T: Copy>(buf: Buffer<T>) -> Option<Call> {
    if buf.buffer != 0 {
        Some(Call::ReleaseBuffer { buffer: buf.buffer })
    } else {
        None
    }
}

/// Releases the buffer: hands out the release owed and forgets the handle,
/// so that a second release hands out nothing.
pub fn cleanvar<T: Copy>(buf: &mut Buffer<T>) -> (call: Option<Call>)
    ensures
        call == release(*old(buf)),
        *final(buf) == released(*old(buf)),
        final(buf).released(),
        old(buf).wf() ==> final(buf).wf(),
{
    if buf.buffer != 0 {
        let call = Call::ReleaseBuffer { buffer: buf.buffer };
        buf.buffer = 0;
        Some(call)
    } else {
        None
    }
}

impl<T: Copy> Buffer<T> {
    /// The size allocated is the size of the mirror, and a buffer that is
    /// held was allocated under a context.
    pub open spec fn wf(&self) -> bool {
        &&& self.size == byte_size::<T>(self.data@.len())
        &&& self.buffer != 0 ==> self.context != 0
    }

    /// The device memory has been given back.
    pub open spec fn released(&self) -> bool {
        self.buffer == 0
    }

    /// Begins the allocation of device memory for a copy of `data`.
    pub fn new(env: &Env, data: &[T]) -> (r: Result<Alloc<T>, ClError>)
        ensures
            alloc_start::<T>(*env, data@) matches Err(e) ==> r == Err::<Alloc<T>, ClError>(e),
            alloc_start::<T>(*env, data@) matches Ok(plan) ==> (r matches Ok(a) && a.context
                == plan.0 && a.size == plan.1 && a.data@ == data@ && a.wf()),
    {
        buffer_write(env, data)
    }

    /// Plans the upload of the host mirror.
    pub fn to(&self, env: &Env) -> (r: Result<Call, ClError>)
        ensures
            r == upload(*env, *self),
    {
        to_gpu(env, self)
    }

    /// Plans the download into `data`, whose length must be the buffer's.
    pub fn from(&self, data: &[T], env: &Env) -> (r: Result<Call, ClError>)
        ensures
            r == download(*env, data@.len(), *self),
    {
        from_gpu(env, data, self)
    }
}

/// Once released, a buffer is refused by upload and download, whatever the
/// session and the destination.
pub proof fn released_buffer_transfers_nothing<T: Copy>(buf: Buffer<T>, env: Env, len: nat)
    ensures
        upload(env, released(buf)) == Err::<Call, ClError>(ClError::InvalidBuffer),
        download(env, len, released(buf)) == Err::<Call, ClError>(ClError::InvalidBuffer),
        release(released(buf)) == None::<Call>,
{
}

/// An upload followed by a download into a destination as long as the
/// mirror moves the same bytes both ways: the same buffer, through the same
/// queue, and as many bytes as the mirror takes, none left out and none
/// added. What comes back is thus what the device holds for every element
/// that went out, for a mirror of any length.
pub proof fn round_trip_moves_the_whole_mirror<T: Copy>(env: Env, buf: Buffer<T>)
    requires
        buf.wf(),
        !buf.released(),
        env.live(),
        buf.context == env.context,
    ensures
        upload(env, buf) == Ok::<Call, ClError>(
            Call::WriteBuffer { queue: env.queue, buffer: buf.buffer, bytes: buf.size },
        ),
        download(env, buf.data@.len(), buf) == Ok::<Call, ClError>(
            Call::ReadBuffer { queue: env.queue, buffer: buf.buffer, bytes: buf.size },
        ),
        buf.size == byte_size::<T>(buf.data@.len()),
{
}

} // verus!
