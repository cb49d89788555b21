//! The vocabulary shared with the native driver: the calls that the library
//! asks for, and the replies that it is handed back.
//!
//! The library never touches the driver itself. Each operation yields a
//! [`Call`]; whoever holds the driver performs it and returns a [`Reply`].

use crate::runtime::{kind_of, ClError};
use vstd::prelude::*;

verus! {

/// The class of devices that a platform is asked to enumerate.
#[derive(Clone, Copy, Debug, PartialEq, Eq, Structural)]
pub enum DeviceClass {
    Gpu,
    All,
}

/// One request to the native driver. Handles are the driver's own opaque
/// identifiers, carried as plain addresses; zero is the null handle.
#[derive(Debug, PartialEq, Eq)]
pub enum Call {
    /// How many platforms are there? The reply's value is the count.
    CountPlatforms,
    /// List `count` platforms; the reply's value is the one at `index`.
    GetPlatform { count: usize, index: usize },
    /// How many devices of `class` does `platform` have?
    CountDevices { platform: usize, class: DeviceClass },
    /// List `count` devices of `class`; the reply's value is the one at `index`.
    GetDevice { platform: usize, class: DeviceClass, count: usize, index: usize },
    /// The name of `device`, as the reply's text.
    DeviceName { device: usize },
    /// Create a context bound to `device`; the reply's value is its handle.
    CreateContext { device: usize },
    /// Create a command queue into `device` under `context`.
    CreateQueue { context: usize, device: usize },
    /// Create a program from `source`, handed over with its length.
    CreateProgram { context: usize, source: String },
    /// Build `program` for `device`.
    BuildProgram { program: usize, device: usize },
    /// The build diagnostics of `program` for `device`, as the reply's text.
    BuildLog { program: usize, device: usize },
    /// Resolve the entry point `name` of `program` into a kernel.
    CreateKernel { program: usize, name: String },
    /// Allocate `bytes` of device memory, readable and writable.
    CreateBuffer { context: usize, bytes: usize },
    /// Blocking write of `bytes` from the host mirror into `buffer`.
    WriteBuffer { queue: usize, buffer: usize, bytes: usize },
    /// Blocking read of `bytes` from `buffer` into the destination.
    ReadBuffer { queue: usize, buffer: usize, bytes: usize },
    /// Bind the handle `buffer` to argument `slot` of `kernel`.
    SetBufferArg { kernel: usize, slot: u32, buffer: usize },
    /// Bind `size` raw bytes of a value to argument `slot` of `kernel`.
    SetScalarArg { kernel: usize, slot: u32, size: usize },
    /// Run `kernel` over the global work size `dims`; the driver picks the
    /// local size.
    Enqueue { queue: usize, kernel: usize, dims: Vec<usize> },
    ReleaseKernel { kernel: usize },
    ReleaseProgram { program: usize },
    ReleaseQueue { queue: usize },
    ReleaseContext { context: usize },
    ReleaseBuffer { buffer: usize },
}

/// What the driver answered: its status code, the handle or count that the
/// call produced (zero where it produces none), and the text that it
/// produced (empty where it produces none).
#[derive(Debug, PartialEq, Eq)]
pub struct Reply {
    pub status: i32,
    pub value: usize,
    pub text: String,
}

impl Reply {
    /// A creating call succeeded: status zero and a handle that is not null.
    pub open spec fn made(&self) -> bool {
        self.status == 0 && self.value != 0
    }

    /// A reply without text.
    pub fn new(status: i32, value: usize) -> (reply: Reply)
        ensures
            reply.status == status,
            reply.value == value,
            reply.text@ == Seq::<char>::empty(),
    {
        Reply { status, value, text: String::new() }
    }

    /// Turns the status of a call that produces nothing into a result:
    /// zero is success, anything else the kind that stands for it.
    pub fn check(&self) -> (r: Result<(), ClError>)
        ensures
            self.status == 0 ==> r == Ok::<(), ClError>(()),
            self.status != 0 ==> r == Err::<(), ClError>(kind_of(self.status as int)),
    {
        if self.status == 0 {
            Ok(())
        } else {
            Err(ClError::from(self.status))
        }
    }

    /// The handle that a creating call produced, or the kind that stands for
    /// its status where it produced none.
    pub fn handle(&self) -> (r: Result<usize, ClError>)
        ensures
            self.made() ==> r == Ok::<usize, ClError>(self.value),
            !self.made() ==> r == Err::<usize, ClError>(kind_of(self.status as int)),
    {
        if self.status == 0 && self.value != 0 {
            Ok(self.value)
        } else {
            Err(ClError::from(self.status))
        }
    }
}

} // verus!
