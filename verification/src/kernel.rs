//! Kernels: making one from the built program, binding its arguments, and
//! running it over a work size.

use crate::data::Buffer;
use crate::driver::{Call, DeviceClass, Reply};
use crate::runtime::{kind_of, ClError, Env, Select, SelectStep, Stage};
use vstd::layout::size_of;
use vstd::prelude::*;
use vstd::slice::slice_to_vec;
use vstd::string::*;

verus! {

/// Whether one of the bytes of `name` is zero. Such a name cannot be handed
/// to the driver, which takes the first zero byte for the end.
fn has_nul(name: &str) -> (found: bool)
    ensures
        found == name.spec_bytes().contains(0u8),
{
    let bytes = name.as_bytes();
    let mut i: usize = 0;
    while i < bytes.len()
        invariant
            i <= bytes@.len(),
            bytes@ == name.spec_bytes(),
            forall|j: int| 0 <= j < i ==> bytes@[j] != 0u8,
        decreases bytes@.len() - i,
    {
        if bytes[i] == 0 {
            return true;
        }
        i = i + 1;
    }
    false
}

/// Plans the making of the kernel `name` from the session's program.
///
/// A session without a built program is refused with `InvalidProgram`, and a
/// name that holds a zero byte with `InvalidKernelName`; nothing is asked of
/// the driver then. Otherwise the call names the session's program and
/// `name` as it was given.
pub fn make_kernel(env: &Env, name: &str) -> (r: Result<Call, ClError>)
    ensures
        env.program == 0 ==> r == Err::<Call, ClError>(ClError::InvalidProgram),
        env.program != 0 && name.spec_bytes().contains(0u8) ==> r == Err::<Call, ClError>(
            ClError::InvalidKernelName,
        ),
        env.program != 0 && !name.spec_bytes().contains(0u8) ==> (r matches Ok(
            Call::CreateKernel { program, name: n },
        ) && program == env.program && n@ == name@),
{
    if env.program == 0 {
        Err(ClError::InvalidProgram)
    } else if has_nul(name) {
        Err(ClError::InvalidKernelName)
    } else {
        Ok(Call::CreateKernel { program: env.program, name: String::from_str(name) })
    }
}

/// The release owed when `new` takes the place of the kernel `prior`: none
/// where there was no kernel, or where the driver handed out the same handle
/// again.
pub open spec fn displaced_kernel(prior: usize, new: usize) -> Option<Call> {
    if prior != 0 && prior != new {
        Some(Call::ReleaseKernel { kernel: prior })
    } else {
        None
    }
}

/// The outcome of making a kernel, the release that it asks for, and the
/// session afterwards.
///
/// A kernel that was made replaces the session's kernel, and the one
/// replaced is given back. Where none was made the session is as it was and
/// the error is the kind of the driver's status. A session that was torn
/// down meanwhile takes no kernel: the new one is given back at once.
pub open spec fn kernel_installed(env: Env, reply: Reply) -> (
    Result<(), ClError>,
    Option<Call>,
    Env,
) {
    if !reply.made() {
        (Err(kind_of(reply.status as int)), None, env)
    } else if env.context == 0 {
        (Err(ClError::InvalidContext), Some(Call::ReleaseKernel { kernel: reply.value }), env)
    } else {
        (Ok(()), displaced_kernel(env.kernel, reply.value), Env { kernel: reply.value, ..env })
    }
}

/// Takes the driver's reply to the making of a kernel.
pub fn kernel_made(env: &mut Env, reply: &Reply) -> (r: (Result<(), ClError>, Option<Call>))
    ensures
        (r.0, r.1, *final(env)) == kernel_installed(*old(env), *reply),
        old(env).wf() ==> final(env).wf(),
        r.0 is Ok ==> final(env).stage() == Stage::Bound,
{
    match reply.handle() {
        Err(error) => (Err(error), None),
        Ok(kernel) => {
            if env.context == 0 {
                (Err(ClError::InvalidContext), Some(Call::ReleaseKernel { kernel }))
            } else {
                let prior = env.kernel;
                env.kernel = kernel;
                let release = if prior != 0 && prior != kernel {
                    Some(Call::ReleaseKernel { kernel: prior })
                } else {
                    None
                };
                (Ok(()), release)
            }
        },
    }
}

/// What binding `buffer` to argument `arg` of the session's kernel asks of
/// the driver.
///
/// A released buffer is refused first, then a session without a kernel, then
/// a buffer of another session, then a slot that the driver cannot be told.
pub open spec fn bind_buffer<T: Copy>(env: Env, buffer: Buffer<T>, arg: usize) -> Result<
    Call,
    ClError,
> {
    if buffer.buffer == 0 {
        Err(ClError::InvalidBuffer)
    } else if env.kernel == 0 {
        Err(ClError::InvalidKernel)
    } else if buffer.context != env.context {
        Err(ClError::InvalidContext)
    } else if arg > u32::MAX {
        Err(ClError::InvalidArgIndex)
    } else {
        Ok(Call::SetBufferArg { kernel: env.kernel, slot: arg as u32, buffer: buffer.buffer })
    }
}

/// Plans the binding of a buffer to argument `arg` of the session's kernel.
/// The binding stays until the slot is bound again.
pub fn setarg<T: Copy>(env: &Env, buffer: &Buffer<T>, arg: usize) -> (r: Result<Call, ClError>)
    ensures
        r == bind_buffer(*env, *buffer, arg),
{
    if buffer.buffer == 0 {
        Err(ClError::InvalidBuffer)
    } else if env.kernel == 0 {
        Err(ClError::InvalidKernel)
    } else if buffer.context != env.context {
        Err(ClError::InvalidContext)
    } else if arg > u32::MAX as usize {
        Err(ClError::InvalidArgIndex)
    } else {
        Ok(Call::SetBufferArg { kernel: env.kernel, slot: arg as u32, buffer: buffer.buffer })
    }
}

/// What binding a value of type `T` to argument `arg` of the session's
/// kernel asks of the driver: as many raw bytes as a `T` takes.
pub open spec fn bind_scalar<T>(env: Env, arg: usize) -> Result<Call, ClError> {
    if env.kernel == 0 {
        Err(ClError::InvalidKernel)
    } else if arg > u32::MAX {
        Err(ClError::InvalidArgIndex)
    } else {
        Ok(Call::SetScalarArg { kernel: env.kernel, slot: arg as u32, size: size_of::<T>() as usize })
    }
}

/// Plans the binding of the raw bytes of `val` to argument `arg` of the
/// session's kernel.
///
/// Nothing is known here of what the kernel declares for that slot. A value
/// of another type or width than the kernel expects is bound all the same,
/// and the kernel then reads garbage: matching the two is left to the
/// caller.
pub fn setarg_scalar<T>(env: &Env, val: &T, arg: usize) -> (r: Result<Call, ClError>)
    ensures
        r == bind_scalar::<T>(*env, arg),
{
    if env.kernel == 0 {
        Err(ClError::InvalidKernel)
    } else if arg > u32::MAX as usize {
        Err(ClError::InvalidArgIndex)
    } else {
        Ok(
            Call::SetScalarArg {
                kernel: env.kernel,
                slot: arg as u32,
                size: core::mem::size_of::<T>(),
            },
        )
    }
}

/// A global work size: one to three extents, each positive.
pub open spec fn work_size(dims: Seq<usize>) -> bool {
    &&& 1 <= dims.len() <= 3
    &&& forall|i: int| 0 <= i < dims.len() ==> dims[i] > 0
}

fn is_work_size(dims: &[usize]) -> (ok: bool)
    ensures
        ok == work_size(dims@),
{
    if dims.len() < 1 || dims.len() > 3 {
        return false;
    }
    let mut i: usize = 0;
    while i < dims.len()
        invariant
            i <= dims@.len(),
            1 <= dims@.len() <= 3,
            forall|j: int| 0 <= j < i ==> dims@[j] > 0,
        decreases dims@.len() - i,
    {
        if dims[i] == 0 {
            return false;
        }
        i = i + 1;
    }
    true
}

/// Plans the run of the session's kernel over the global work size `dims`.
///
/// A session that was torn down is refused with `InvalidContext`, one
/// without a kernel with `InvalidKernel`, and a work size that is not one to
/// three positive extents with `InvalidWorkSize`. Otherwise the call names
/// the session's queue and kernel and `dims` as given; no local size is
/// set. The run is only enqueued: a download that follows waits for it.
pub fn run_kernel(env: &Env, dims: &[usize]) -> (r: Result<Call, ClError>)
    ensures
        env.queue == 0 ==> r == Err::<Call, ClError>(ClError::InvalidContext),
        env.queue != 0 && env.kernel == 0 ==> r == Err::<Call, ClError>(ClError::InvalidKernel),
        env.queue != 0 && env.kernel != 0 && !work_size(dims@) ==> r == Err::<Call, ClError>(
            ClError::InvalidWorkSize,
        ),
        env.queue != 0 && env.kernel != 0 && work_size(dims@) ==> (r matches Ok(
            Call::Enqueue { queue, kernel, dims: d },
        ) && queue == env.queue && kernel == env.kernel && d@ == dims@),
{
    if env.queue == 0 {
        Err(ClError::InvalidContext)
    } else if env.kernel == 0 {
        Err(ClError::InvalidKernel)
    } else if !is_work_size(dims) {
        Err(ClError::InvalidWorkSize)
    } else {
        Ok(Call::Enqueue { queue: env.queue, kernel: env.kernel, dims: slice_to_vec(dims) })
    }
}

/// Once released, a buffer is refused as a kernel argument, whatever the
/// session and the slot.
pub proof fn released_buffer_binds_nothing<T: Copy>(buf: Buffer<T>, env: Env, arg: usize)
    ensures
        bind_buffer(env, crate::data::released(buf), arg) == Err::<Call, ClError>(
            ClError::InvalidBuffer,
        ),
{
}

/// The session after kernels were made one after another, each reply taken
/// in turn, and the releases that were handed out on the way, in order.
pub open spec fn remade(env: Env, replies: Seq<Reply>) -> (Env, Seq<Call>)
    decreases replies.len(),
{
    if replies.len() == 0 {
        (env, Seq::empty())
    } else {
        let before = remade(env, replies.drop_last());
        let step = kernel_installed(before.0, replies.last());
        (
            step.2,
            match step.1 {
                Some(call) => before.1.push(call),
                None => before.1,
            },
        )
    }
}

/// The releases owed while kernels are made one after another from fresh
/// handles: first the kernel that the session held, if it held one, then
/// each kernel made but the newest, in the order in which they were made.
pub open spec fn superseded(env: Env, replies: Seq<Reply>) -> Seq<Call> {
    let first = if env.kernel != 0 && replies.len() > 0 {
        seq![Call::ReleaseKernel { kernel: env.kernel }]
    } else {
        Seq::empty()
    };
    first + Seq::new(
        if replies.len() > 0 {
            (replies.len() - 1) as nat
        } else {
            0
        },
        |i: int| Call::ReleaseKernel { kernel: replies[i].value },
    )
}

/// The kernel handles that have existed: the one that the session held at
/// first, and each that the driver made since.
pub open spec fn kernels_made(env: Env, replies: Seq<Reply>) -> Set<usize> {
    Set::new(
        |h: usize|
            h != 0 && (h == env.kernel || exists|i: int|
                0 <= i < replies.len() && #[trigger] replies[i].value == h),
    )
}

/// The kernel handles that a sequence of calls gives back.
pub open spec fn kernels_released(calls: Seq<Call>) -> Set<usize> {
    Set::new(|h: usize| calls.contains(Call::ReleaseKernel { kernel: h }))
}

/// The driver hands out handles that are new: none is null, none is the one
/// that the session held at first, and no two are the same.
pub open spec fn fresh_kernels(env: Env, replies: Seq<Reply>) -> bool {
    &&& forall|i: int| 0 <= i < replies.len() ==> (#[trigger] replies[i]).made()
    &&& forall|i: int| 0 <= i < replies.len() ==> (#[trigger] replies[i]).value != env.kernel
    &&& forall|i: int, j: int|
        0 <= i < j < replies.len() ==> (#[trigger] replies[i]).value != (#[trigger] replies[j]).value
}

/// In a live session, after kernels were made from fresh handles the session
/// holds the newest, and what was given back is every kernel before it,
/// once each and in order.
pub proof fn remaking_releases_each_prior_kernel(env: Env, replies: Seq<Reply>)
    requires
        env.context != 0,
        fresh_kernels(env, replies),
    ensures
        remade(env, replies).0 == (Env {
            kernel: if replies.len() == 0 {
                env.kernel
            } else {
                replies.last().value
            },
            ..env
        }),
        remade(env, replies).1 == superseded(env, replies),
    decreases replies.len(),
{
    if replies.len() == 0 {
        assert(remade(env, replies).1 =~= superseded(env, replies));
    } else {
        let earlier = replies.drop_last();
        assert forall|i: int| 0 <= i < earlier.len() implies earlier[i] == replies[i] by {}
        assert(fresh_kernels(env, earlier));
        remaking_releases_each_prior_kernel(env, earlier);
        assert(remade(env, replies).1 =~= superseded(env, replies));
    }
}

/// Making a kernel again and again leaks none: after any number of
/// re-creations in a live session, of all the kernel handles that have
/// existed exactly one has not been given back, the newest, and that is the
/// one the session holds.
pub proof fn remaking_keeps_one_kernel(env: Env, replies: Seq<Reply>)
    requires
        env.context != 0,
        replies.len() > 0,
        fresh_kernels(env, replies),
    ensures
        remade(env, replies).0.kernel == replies.last().value,
        kernels_made(env, replies).difference(kernels_released(remade(env, replies).1)) == set![
            replies.last().value,
        ],
        kernels_made(env, replies).difference(kernels_released(remade(env, replies).1)).len() == 1,
{
    remaking_releases_each_prior_kernel(env, replies);
    let newest = replies.last().value;
    let calls = superseded(env, replies);
    let offset: int = if env.kernel != 0 {
        1
    } else {
        0
    };
    let live = kernels_made(env, replies).difference(kernels_released(calls));
    assert forall|h: usize| live.contains(h) <==> h == newest by {
        if h == newest {
            assert(replies[replies.len() - 1].value == h);
            assert(!calls.contains(Call::ReleaseKernel { kernel: h }));
        } else if kernels_made(env, replies).contains(h) {
            if h == env.kernel {
                assert(calls[0] == Call::ReleaseKernel { kernel: h });
            } else {
                let i = choose|i: int| 0 <= i < replies.len() && #[trigger] replies[i].value == h;
                assert(calls[offset + i] == Call::ReleaseKernel { kernel: h });
            }
        }
    }
    assert(live =~= set![newest]);
}

/// The probe for a device's name in progress: the device is selected, then
/// asked for its name.
#[derive(Clone, Copy, Debug, PartialEq, Eq, Structural)]
pub enum Probe {
    /// Still selecting the device.
    Select(Select),
    /// Awaiting the name of `device`.
    Name { device: usize },
}

/// Where the probe stands after a reply.
#[derive(Debug, PartialEq, Eq)]
pub enum ProbeStep {
    Next(Probe),
    /// The line that reports the device.
    Named(String),
    Failed(ClError),
}

impl Probe {
    /// What holds of every state that the probe reaches.
    pub open spec fn wf(self) -> bool {
        match self {
            Probe::Select(s) => s.wf(),
            Probe::Name { .. } => true,
        }
    }

    /// The call that the probe awaits the reply to.
    pub open spec fn pending(self) -> Call {
        match self {
            Probe::Select(s) => s.pending(),
            Probe::Name { device } => Call::DeviceName { device },
        }
    }

    /// The call to perform next: the one that the probe awaits the reply to.
    /// Where a listing is asked for, the index picked lies within it.
    pub fn call(&self) -> (call: Call)
        ensures
            call == self.pending(),
            self.wf() ==> (call matches Call::GetPlatform { count, index } ==> index < count),
            self.wf() ==> (call matches Call::GetDevice { count, index, .. } ==> index < count),
    {
        match self {
            Probe::Select(s) => s.call(),
            Probe::Name { device } => Call::DeviceName { device: *device },
        }
    }

    /// Takes the reply to the pending call. The name is asked for only once
    /// the device is chosen; the line is the driver's text behind a fixed
    /// heading.
    pub fn step(self, reply: Reply) -> (r: ProbeStep)
        ensures
            self matches Probe::Select(s) ==> (match s.next(reply) {
                SelectStep::Next(s2) => r == ProbeStep::Next(Probe::Select(s2)),
                SelectStep::Chosen { device, .. } => r == ProbeStep::Next(Probe::Name { device }),
                SelectStep::Failed(error) => r == ProbeStep::Failed(error),
            }),
            self is Name && reply.status != 0 ==> r == ProbeStep::Failed(
                kind_of(reply.status as int),
            ),
            self is Name && reply.status == 0 ==> (r matches ProbeStep::Named(line) && line@
                == "First OpenCL device: "@ + reply.text@),
            r matches ProbeStep::Next(p) ==> p.wf(),
    {
        match self {
            Probe::Select(s) => match s.step(&reply) {
                SelectStep::Next(s2) => ProbeStep::Next(Probe::Select(s2)),
                SelectStep::Chosen { device, .. } => ProbeStep::Next(Probe::Name { device }),
                SelectStep::Failed(error) => ProbeStep::Failed(error),
            },
            Probe::Name { .. } => {
                if reply.status != 0 {
                    ProbeStep::Failed(ClError::from(reply.status))
                } else {
                    let line = String::from_str("First OpenCL device: ").concat(
                        reply.text.as_str(),
                    );
                    ProbeStep::Named(line)
                }
            },
        }
    }
}

/// Begins the probe that reports the device at index 1 among all the
/// devices of the first platform.
pub fn firstdevice() -> (p: Probe)
    ensures
        p == Probe::Select(Select::Platforms { plat: 0, dev: 1, class: DeviceClass::All }),
        p.wf(),
{
    Probe::Select(Select::start(0, 1, DeviceClass::All))
}

} // verus!
