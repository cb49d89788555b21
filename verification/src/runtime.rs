//! The session: error kinds, device selection, context and queue setup,
//! program build and teardown.

use crate::driver::{Call, DeviceClass, Reply};
use vstd::prelude::*;
use vstd::string::*;

verus! {

/// The kinds of failure that the library reports.
#[derive(Clone, Copy, Debug, PartialEq, Eq, Structural)]
pub enum ClError {
    /// The session has no built program (status -42).
    InvalidProgram,
    /// No kernel of that name (status -46).
    InvalidKernelName,
    /// No such argument slot (status -49).
    InvalidArgIndex,
    /// The device ran out of resources (status -5).
    OutOfResources,
    /// The host ran out of memory (status -6).
    OutOfMemory,
    /// The session is torn down, or the buffer belongs to another (status -34).
    InvalidContext,
    /// The source did not build (status -11).
    BuildProgramFailed,
    /// The platform index is out of range.
    NonexistentPlatform,
    /// The device index is out of range.
    NonexistentDevice,
    /// A build was asked for before any source was loaded.
    NoSourceLoaded,
    /// The session has no kernel.
    InvalidKernel,
    /// The buffer was released.
    InvalidBuffer,
    /// The destination's length is not the buffer's.
    InvalidLength,
    /// The work size is not one to three positive extents.
    InvalidWorkSize,
    /// Any other status, with the code as the driver gave it.
    UnknownError(i32),
}

/// The kind that stands for a native status code. Seven codes are known;
/// every other code is carried along unchanged.
pub open spec fn kind_of(code: int) -> ClError {
    if code == -42 {
        ClError::InvalidProgram
    } else if code == -46 {
        ClError::InvalidKernelName
    } else if code == -5 {
        ClError::OutOfResources
    } else if code == -6 {
        ClError::OutOfMemory
    } else if code == -34 {
        ClError::InvalidContext
    } else if code == -11 {
        ClError::BuildProgramFailed
    } else if code == -49 {
        ClError::InvalidArgIndex
    } else {
        ClError::UnknownError(code as i32)
    }
}

impl From<i32> for ClError {
    fn from(code: i32) -> (kind: ClError) {
        match code {
            -42 => ClError::InvalidProgram,
            -46 => ClError::InvalidKernelName,
            -5 => ClError::OutOfResources,
            -6 => ClError::OutOfMemory,
            -34 => ClError::InvalidContext,
            -11 => ClError::BuildProgramFailed,
            -49 => ClError::InvalidArgIndex,
            _ => ClError::UnknownError(code),
        }
    }
}

impl vstd::std_specs::convert::FromSpecImpl<i32> for ClError {
    open spec fn obeys_from_spec() -> bool {
        true
    }

    open spec fn from_spec(code: i32) -> ClError {
        kind_of(code as int)
    }
}

/// The decimal digit `d`, for `0 <= d < 10`.
pub open spec fn digit(d: int) -> char {
    if d == 0 {
        '0'
    } else if d == 1 {
        '1'
    } else if d == 2 {
        '2'
    } else if d == 3 {
        '3'
    } else if d == 4 {
        '4'
    } else if d == 5 {
        '5'
    } else if d == 6 {
        '6'
    } else if d == 7 {
        '7'
    } else if d == 8 {
        '8'
    } else {
        '9'
    }
}

/// The decimal digits of `n`, most significant first, without padding.
pub open spec fn digits(n: nat) -> Seq<char>
    decreases n,
{
    if n < 10 {
        seq![digit(n as int)]
    } else {
        digits(n / 10).push(digit((n % 10) as int))
    }
}

/// The decimal notation of `n`, with a minus sign where it is negative.
pub open spec fn decimal(n: int) -> Seq<char> {
    if n < 0 {
        seq!['-'] + digits((-n) as nat)
    } else {
        digits(n as nat)
    }
}

fn digit_text(d: u32) -> (s: &'static str)
    requires
        d < 10,
    ensures
        s@ == seq![digit(d as int)],
{
    proof {
        reveal_strlit("0");
        reveal_strlit("1");
        reveal_strlit("2");
        reveal_strlit("3");
        reveal_strlit("4");
        reveal_strlit("5");
        reveal_strlit("6");
        reveal_strlit("7");
        reveal_strlit("8");
        reveal_strlit("9");
    }
    let s = match d {
        0 => "0",
        1 => "1",
        2 => "2",
        3 => "3",
        4 => "4",
        5 => "5",
        6 => "6",
        7 => "7",
        8 => "8",
        _ => "9",
    };
    assert(s@ =~= seq![digit(d as int)]);
    s
}

fn push_digits(out: &mut String, n: u32)
    ensures
        final(out)@ == old(out)@ + digits(n as nat),
    decreases n,
{
    if n >= 10 {
        push_digits(out, n / 10);
    }
    out.append(digit_text(n % 10));
    assert(final(out)@ =~= old(out)@ + digits(n as nat));
}

impl ClError {
    /// The text that describes the kind.
    pub open spec fn text(self) -> Seq<char> {
        match self {
            ClError::InvalidProgram => "Program not found"@,
            ClError::InvalidKernelName => "Kernel name not found"@,
            ClError::InvalidArgIndex => "Invalid arg index"@,
            ClError::OutOfResources => "Out of resources"@,
            ClError::OutOfMemory => "Out of memory"@,
            ClError::InvalidContext => "Invalid context"@,
            ClError::BuildProgramFailed => "Failed to build program."@,
            ClError::NonexistentPlatform => "Platform out of range"@,
            ClError::NonexistentDevice => "Device out of range"@,
            ClError::NoSourceLoaded => "Kernel not loaded! Call use_kernel first."@,
            ClError::InvalidKernel => "Kernel not made"@,
            ClError::InvalidBuffer => "Buffer released"@,
            ClError::InvalidLength => "Length mismatch"@,
            ClError::InvalidWorkSize => "Invalid work size"@,
            ClError::UnknownError(code) => "Unknown error code: "@ + decimal(code as int),
        }
    }

    /// Renders the kind for a reader.
    pub fn message(&self) -> (s: String)
        ensures
            s@ == self.text(),
    {
        match self {
            ClError::InvalidProgram => String::from_str("Program not found"),
            ClError::InvalidKernelName => String::from_str("Kernel name not found"),
            ClError::InvalidArgIndex => String::from_str("Invalid arg index"),
            ClError::OutOfResources => String::from_str("Out of resources"),
            ClError::OutOfMemory => String::from_str("Out of memory"),
            ClError::InvalidContext => String::from_str("Invalid context"),
            ClError::BuildProgramFailed => String::from_str("Failed to build program."),
            ClError::NonexistentPlatform => String::from_str("Platform out of range"),
            ClError::NonexistentDevice => String::from_str("Device out of range"),
            ClError::NoSourceLoaded => String::from_str(
                "Kernel not loaded! Call use_kernel first.",
            ),
            ClError::InvalidKernel => String::from_str("Kernel not made"),
            ClError::InvalidBuffer => String::from_str("Buffer released"),
            ClError::InvalidLength => String::from_str("Length mismatch"),
            ClError::InvalidWorkSize => String::from_str("Invalid work size"),
            ClError::UnknownError(code) => {
                let mut s = String::from_str("Unknown error code: ");
                let wide: i64 = *code as i64;
                if wide < 0 {
                    s.append("-");
                    proof {
                        reveal_strlit("-");
                    }
                    assert(s@ =~= "Unknown error code: "@ + seq!['-']);
                    push_digits(&mut s, (-wide) as u32);
                } else {
                    push_digits(&mut s, wide as u32);
                }
                assert(s@ =~= "Unknown error code: "@ + decimal(*code as int));
                s
            },
        }
    }
}

/// A session on one device: the handles that it owns and the source text
/// that it was last given. A handle of zero is one that the session does
/// not hold. Platform and device are referred to, never owned.
#[derive(Debug, PartialEq, Eq)]
pub struct Env {
    pub platform: usize,
    pub device: usize,
    pub context: usize,
    pub queue: usize,
    pub program: usize,
    pub kernel: usize,
    pub kerncode: Option<String>,
}

/// Where a session stands in its life.
#[derive(Clone, Copy, Debug, PartialEq, Eq, Structural)]
pub enum Stage {
    /// Context and queue exist; nothing is built.
    Configured,
    /// A program is built; no kernel is made.
    Compiled,
    /// A kernel is made and can take arguments.
    Bound,
    /// Everything is released.
    TornDown,
}

impl Env {
    /// The session holds a context and a queue.
    pub open spec fn live(&self) -> bool {
        self.context != 0 && self.queue != 0
    }

    /// Context and queue are held together or not at all, and a session
    /// without them holds nothing else.
    pub open spec fn wf(&self) -> bool {
        &&& (self.context == 0) == (self.queue == 0)
        &&& self.context == 0 ==> self.program == 0 && self.kernel == 0
    }

    /// Where the session stands: torn down without a context, else bound
    /// with a kernel, else compiled with a program, else configured.
    pub open spec fn stage_of(&self) -> Stage {
        if self.context == 0 {
            Stage::TornDown
        } else if self.kernel != 0 {
            Stage::Bound
        } else if self.program != 0 {
            Stage::Compiled
        } else {
            Stage::Configured
        }
    }

    /// Where the session stands in its life.
    #[verifier::when_used_as_spec(stage_of)]
    pub fn stage(&self) -> (stage: Stage)
        ensures
            stage == self.stage_of(),
    {
        if self.context == 0 {
            Stage::TornDown
        } else if self.kernel != 0 {
            Stage::Bound
        } else if self.program != 0 {
            Stage::Compiled
        } else {
            Stage::Configured
        }
    }
}

/// Device selection in progress: which call is awaited, and what is known
/// so far.
#[derive(Clone, Copy, Debug, PartialEq, Eq, Structural)]
pub enum Select {
    /// Awaiting the number of platforms.
    Platforms { plat: usize, dev: usize, class: DeviceClass },
    /// Awaiting the platform at `plat` out of `count`.
    Platform { plat: usize, dev: usize, class: DeviceClass, count: usize },
    /// Awaiting the number of devices of `platform`.
    Devices { dev: usize, class: DeviceClass, platform: usize },
    /// Awaiting the device at `dev` out of `count`.
    Device { dev: usize, class: DeviceClass, platform: usize, count: usize },
}

/// Where device selection stands after a reply.
#[derive(Clone, Copy, Debug, PartialEq, Eq, Structural)]
pub enum SelectStep {
    Next(Select),
    Chosen { platform: usize, device: usize },
    Failed(ClError),
}

impl Select {
    /// An index that is about to be used lies within the count it is
    /// used against.
    pub open spec fn wf(self) -> bool {
        match self {
            Select::Platform { plat, count, .. } => plat < count,
            Select::Device { dev, count, .. } => dev < count,
            _ => true,
        }
    }

    /// The call that the selection awaits the reply to.
    pub open spec fn pending(self) -> Call {
        match self {
            Select::Platforms { .. } => Call::CountPlatforms,
            Select::Platform { plat, count, .. } => Call::GetPlatform { count, index: plat },
            Select::Devices { class, platform, .. } => Call::CountDevices { platform, class },
            Select::Device { dev, class, platform, count } => Call::GetDevice {
                platform,
                class,
                count,
                index: dev,
            },
        }
    }

    /// The selection after `reply`. An index at or beyond the reported count
    /// ends it before anything is listed; so does a failed call.
    pub open spec fn next(self, reply: Reply) -> SelectStep {
        match self {
            Select::Platforms { plat, dev, class } => if plat >= reply.value {
                SelectStep::Failed(ClError::NonexistentPlatform)
            } else if reply.status != 0 {
                SelectStep::Failed(kind_of(reply.status as int))
            } else {
                SelectStep::Next(Select::Platform { plat, dev, class, count: reply.value })
            },
            Select::Platform { dev, class, .. } => if reply.status != 0 {
                SelectStep::Failed(kind_of(reply.status as int))
            } else {
                SelectStep::Next(Select::Devices { dev, class, platform: reply.value })
            },
            Select::Devices { dev, class, platform } => if dev >= reply.value {
                SelectStep::Failed(ClError::NonexistentDevice)
            } else if reply.status != 0 {
                SelectStep::Failed(kind_of(reply.status as int))
            } else {
                SelectStep::Next(Select::Device { dev, class, platform, count: reply.value })
            },
            Select::Device { platform, .. } => if reply.status != 0 {
                SelectStep::Failed(kind_of(reply.status as int))
            } else {
                SelectStep::Chosen { platform, device: reply.value }
            },
        }
    }

    /// Starts the selection of device `dev` of `class` on platform `plat`.
    pub fn start(plat: usize, dev: usize, class: DeviceClass) -> (s: Select)
        ensures
            s == (Select::Platforms { plat, dev, class }),
            s.wf(),
    {
        Select::Platforms { plat, dev, class }
    }

    /// The call to perform next: the one that the selection awaits the reply to.
    /// Where a listing is asked for, the index picked lies within it.
    pub fn call(&self) -> (call: Call)
        ensures
            call == self.pending(),
            self.wf() ==> (call matches Call::GetPlatform { count, index } ==> index < count),
            self.wf() ==> (call matches Call::GetDevice { count, index, .. } ==> index < count),
    {
        match *self {
            Select::Platforms { .. } => Call::CountPlatforms,
            Select::Platform { plat, count, .. } => Call::GetPlatform { count, index: plat },
            Select::Devices { class, platform, .. } => Call::CountDevices { platform, class },
            Select::Device { dev, class, platform, count } => Call::GetDevice {
                platform,
                class,
                count,
                index: dev,
            },
        }
    }

    /// Takes the reply to the pending call and moves the selection on.
    pub fn step(self, reply: &Reply) -> (r: SelectStep)
        ensures
            r == self.next(*reply),
            r matches SelectStep::Next(s) ==> s.wf(),
    {
        match self {
            Select::Platforms { plat, dev, class } => {
                if plat >= reply.value {
                    SelectStep::Failed(ClError::NonexistentPlatform)
                } else if reply.status != 0 {
                    SelectStep::Failed(ClError::from(reply.status))
                } else {
                    SelectStep::Next(Select::Platform { plat, dev, class, count: reply.value })
                }
            },
            Select::Platform { dev, class, .. } => {
                if reply.status != 0 {
                    SelectStep::Failed(ClError::from(reply.status))
                } else {
                    SelectStep::Next(Select::Devices { dev, class, platform: reply.value })
                }
            },
            Select::Devices { dev, class, platform } => {
                if dev >= reply.value {
                    SelectStep::Failed(ClError::NonexistentDevice)
                } else if reply.status != 0 {
                    SelectStep::Failed(ClError::from(reply.status))
                } else {
                    SelectStep::Next(Select::Device { dev, class, platform, count: reply.value })
                }
            },
            Select::Device { platform, .. } => {
                if reply.status != 0 {
                    SelectStep::Failed(ClError::from(reply.status))
                } else {
                    SelectStep::Chosen { platform, device: reply.value }
                }
            },
        }
    }
}

/// Session setup in progress: device selection, then the context, then the
/// queue.
#[derive(Clone, Copy, Debug, PartialEq, Eq, Structural)]
pub enum Setup {
    /// Still selecting the device.
    Select(Select),
    /// Awaiting the context for `device`.
    Context { platform: usize, device: usize },
    /// Awaiting the queue under `context`.
    Queue { platform: usize, device: usize, context: usize },
}

/// Where setup stands after a reply.
#[derive(Debug, PartialEq, Eq)]
pub enum SetupStep {
    Next(Setup),
    /// The session is configured.
    Ready(Env),
    /// Setup is over; `release` is the call that gives back what had been
    /// created by then.
    Failed { error: ClError, release: Option<Call> },
}

impl Setup {
    /// What holds of every state that the setup reaches.
    pub open spec fn wf(self) -> bool {
        match self {
            Setup::Select(s) => s.wf(),
            Setup::Context { .. } => true,
            Setup::Queue { context, .. } => context != 0,
        }
    }

    /// The call that setup awaits the reply to.
    pub open spec fn pending(self) -> Call {
        match self {
            Setup::Select(s) => s.pending(),
            Setup::Context { device, .. } => Call::CreateContext { device },
            Setup::Queue { device, context, .. } => Call::CreateQueue { context, device },
        }
    }

    /// Setup after `reply`. The context is asked for only once a device is
    /// chosen, the queue only once the context exists; a queue that cannot
    /// be made gives the context back.
    pub open spec fn next(self, reply: Reply) -> SetupStep {
        match self {
            Setup::Select(s) => match s.next(reply) {
                SelectStep::Next(s2) => SetupStep::Next(Setup::Select(s2)),
                SelectStep::Chosen { platform, device } => SetupStep::Next(
                    Setup::Context { platform, device },
                ),
                SelectStep::Failed(error) => SetupStep::Failed { error, release: None },
            },
            Setup::Context { platform, device } => if reply.made() {
                SetupStep::Next(Setup::Queue { platform, device, context: reply.value })
            } else {
                SetupStep::Failed { error: kind_of(reply.status as int), release: None }
            },
            Setup::Queue { platform, device, context } => if reply.made() {
                SetupStep::Ready(
                    Env {
                        platform,
                        device,
                        context,
                        queue: reply.value,
                        program: 0,
                        kernel: 0,
                        kerncode: None,
                    },
                )
            } else {
                SetupStep::Failed {
                    error: kind_of(reply.status as int),
                    release: Some(Call::ReleaseContext { context }),
                }
            },
        }
    }

    /// The call to perform next: the one that the setup awaits the reply to.
    /// Where a listing is asked for, the index picked lies within it.
    pub fn call(&self) -> (call: Call)
        ensures
            call == self.pending(),
            self.wf() ==> (call matches Call::GetPlatform { count, index } ==> index < count),
            self.wf() ==> (call matches Call::GetDevice { count, index, .. } ==> index < count),
    {
        match self {
            Setup::Select(s) => s.call(),
            Setup::Context { device, .. } => Call::CreateContext { device: *device },
            Setup::Queue { device, context, .. } => Call::CreateQueue {
                context: *context,
                device: *device,
            },
        }
    }

    /// Takes the reply to the pending call and moves the setup on.
    pub fn step(self, reply: &Reply) -> (r: SetupStep)
        ensures
            r == self.next(*reply),
            r matches SetupStep::Next(s) ==> s.wf(),
            self.wf() ==> (r matches SetupStep::Ready(env) ==> env.wf() && env.live()
                && env.stage() == Stage::Configured),
    {
        match self {
            Setup::Select(s) => match s.step(reply) {
                SelectStep::Next(s2) => SetupStep::Next(Setup::Select(s2)),
                SelectStep::Chosen { platform, device } => SetupStep::Next(
                    Setup::Context { platform, device },
                ),
                SelectStep::Failed(error) => SetupStep::Failed { error, release: None },
            },
            Setup::Context { platform, device } => match reply.handle() {
                Ok(context) => SetupStep::Next(Setup::Queue { platform, device, context }),
                Err(error) => SetupStep::Failed { error, release: None },
            },
            Setup::Queue { platform, device, context } => match reply.handle() {
                Ok(queue) => SetupStep::Ready(
                    Env {
                        platform,
                        device,
                        context,
                        queue,
                        program: 0,
                        kernel: 0,
                        kerncode: None,
                    },
                ),
                Err(error) => SetupStep::Failed {
                    error,
                    release: Some(Call::ReleaseContext { context }),
                },
            },
        }
    }
}

/// The state in which the setup of a session on GPU `dev` of platform `plat`
/// begins.
pub open spec fn setup_start(plat: usize, dev: usize) -> Setup {
    Setup::Select(Select::Platforms { plat, dev, class: DeviceClass::Gpu })
}

/// Begins the setup of a session on GPU `dev` of platform `plat`. Nothing is
/// asked of the driver yet; the first call awaited counts the platforms.
pub fn setup(plat: usize, dev: usize) -> (s: Setup)
    ensures
        s == setup_start(plat, dev),
        s.wf(),
{
    Setup::Select(Select::start(plat, dev, DeviceClass::Gpu))
}

impl Env {
    /// Begins the setup of a session on GPU `dev` of platform `plat`.
    pub fn new(plat: usize, dev: usize) -> (s: Setup)
        ensures
            s == setup_start(plat, dev),
            s.wf(),
    {
        setup(plat, dev)
    }
}

/// The calls that setup asks for, in order, while it is fed `replies` in
/// turn from state `s`: the call pending in each state reached, and the
/// release that a failure asks for. Replies beyond the end of setup are not
/// looked at.
pub open spec fn setup_calls(s: Setup, replies: Seq<Reply>) -> Seq<Call>
    decreases replies.len(),
{
    if replies.len() == 0 {
        seq![s.pending()]
    } else {
        match s.next(replies[0]) {
            SetupStep::Next(s2) => seq![s.pending()] + setup_calls(s2, replies.drop_first()),
            SetupStep::Ready(_) => seq![s.pending()],
            SetupStep::Failed { release: Some(call), .. } => seq![s.pending(), call],
            SetupStep::Failed { release: None, .. } => seq![s.pending()],
        }
    }
}

/// How setup ends when it is fed `replies` in turn from state `s`: with a
/// session, with an error, or not yet (`None`).
pub open spec fn setup_result(s: Setup, replies: Seq<Reply>) -> Option<Result<Env, ClError>>
    decreases replies.len(),
{
    if replies.len() == 0 {
        None
    } else {
        match s.next(replies[0]) {
            SetupStep::Next(s2) => setup_result(s2, replies.drop_first()),
            SetupStep::Ready(env) => Some(Ok(env)),
            SetupStep::Failed { error, .. } => Some(Err(error)),
        }
    }
}

/// The call creates a context or a queue.
pub open spec fn creates_session(call: Call) -> bool {
    call is CreateContext || call is CreateQueue
}

/// A platform index at or beyond the number of platforms that the driver
/// reports ends setup with `NonexistentPlatform`. Whatever the driver
/// replies, then or later, no context and no queue is asked for.
pub proof fn platform_out_of_range_creates_nothing(plat: usize, dev: usize, replies: Seq<Reply>)
    requires
        replies.len() > 0,
        plat >= replies[0].value,
    ensures
        setup_result(setup_start(plat, dev), replies) == Some(
            Err::<Env, ClError>(ClError::NonexistentPlatform),
        ),
        setup_calls(setup_start(plat, dev), replies) == seq![Call::CountPlatforms],
        forall|i: int|
            0 <= i < setup_calls(setup_start(plat, dev), replies).len() ==> !creates_session(
                #[trigger] setup_calls(setup_start(plat, dev), replies)[i],
            ),
{
}

/// A device index at or beyond the number of devices that the driver
/// reports for the chosen platform ends setup with `NonexistentDevice`.
/// Whatever the driver replies, then or later, no context and no queue is
/// asked for.
pub proof fn device_out_of_range_creates_nothing(plat: usize, dev: usize, replies: Seq<Reply>)
    requires
        replies.len() >= 3,
        plat < replies[0].value,
        replies[0].status == 0,
        replies[1].status == 0,
        dev >= replies[2].value,
    ensures
        setup_result(setup_start(plat, dev), replies) == Some(
            Err::<Env, ClError>(ClError::NonexistentDevice),
        ),
        forall|i: int|
            0 <= i < setup_calls(setup_start(plat, dev), replies).len() ==> !creates_session(
                #[trigger] setup_calls(setup_start(plat, dev), replies)[i],
            ),
{
    let r1 = replies.drop_first();
    let r2 = r1.drop_first();
    assert(r1[0] == replies[1]);
    assert(r2[0] == replies[2]);
    reveal_with_fuel(setup_calls, 4);
    reveal_with_fuel(setup_result, 4);
}

/// Setup succeeds exactly along one path: the driver reports more platforms
/// than the platform index and more devices than the device index, every
/// call returns status zero, and context and queue are not null. Six calls
/// are then made, in this order, and the session holds what the last four
/// handed out, with no program, no kernel and no source.
pub proof fn setup_yields_the_session(plat: usize, dev: usize, replies: Seq<Reply>)
    requires
        replies.len() == 6,
        plat < replies[0].value,
        dev < replies[2].value,
        forall|i: int| 0 <= i < 4 ==> (#[trigger] replies[i]).status == 0,
        replies[4].made(),
        replies[5].made(),
    ensures
        setup_result(setup_start(plat, dev), replies) == Some(
            Ok::<Env, ClError>(
                Env {
                    platform: replies[1].value,
                    device: replies[3].value,
                    context: replies[4].value,
                    queue: replies[5].value,
                    program: 0,
                    kernel: 0,
                    kerncode: None,
                },
            ),
        ),
        setup_calls(setup_start(plat, dev), replies) == seq![
            Call::CountPlatforms,
            Call::GetPlatform { count: replies[0].value, index: plat },
            Call::CountDevices { platform: replies[1].value, class: DeviceClass::Gpu },
            Call::GetDevice {
                platform: replies[1].value,
                class: DeviceClass::Gpu,
                count: replies[2].value,
                index: dev,
            },
            Call::CreateContext { device: replies[3].value },
            Call::CreateQueue { context: replies[4].value, device: replies[3].value },
        ],
{
    let r1 = replies.drop_first();
    let r2 = r1.drop_first();
    let r3 = r2.drop_first();
    let r4 = r3.drop_first();
    let r5 = r4.drop_first();
    assert(r1[0] == replies[1]);
    assert(r2[0] == replies[2]);
    assert(r3[0] == replies[3]);
    assert(r4[0] == replies[4]);
    assert(r5[0] == replies[5]);
    assert(replies[0].status == 0 && replies[1].status == 0 && replies[2].status == 0
        && replies[3].status == 0);
    reveal_with_fuel(setup_calls, 7);
    reveal_with_fuel(setup_result, 7);
    assert(setup_calls(setup_start(plat, dev), replies) =~= seq![
        Call::CountPlatforms,
        Call::GetPlatform { count: replies[0].value, index: plat },
        Call::CountDevices { platform: replies[1].value, class: DeviceClass::Gpu },
        Call::GetDevice {
            platform: replies[1].value,
            class: DeviceClass::Gpu,
            count: replies[2].value,
            index: dev,
        },
        Call::CreateContext { device: replies[3].value },
        Call::CreateQueue { context: replies[4].value, device: replies[3].value },
    ]);
}

/// A queue that cannot be made ends setup with the kind of the driver's
/// status, and the context made just before is given back: the last call of
/// the run releases it.
pub proof fn failed_queue_gives_the_context_back(plat: usize, dev: usize, replies: Seq<Reply>)
    requires
        replies.len() == 6,
        plat < replies[0].value,
        dev < replies[2].value,
        forall|i: int| 0 <= i < 4 ==> (#[trigger] replies[i]).status == 0,
        replies[4].made(),
        !replies[5].made(),
    ensures
        setup_result(setup_start(plat, dev), replies) == Some(
            Err::<Env, ClError>(kind_of(replies[5].status as int)),
        ),
        setup_calls(setup_start(plat, dev), replies).len() == 7,
        setup_calls(setup_start(plat, dev), replies)[6] == (Call::ReleaseContext {
            context: replies[4].value,
        }),
{
    let r1 = replies.drop_first();
    let r2 = r1.drop_first();
    let r3 = r2.drop_first();
    let r4 = r3.drop_first();
    let r5 = r4.drop_first();
    assert(r1[0] == replies[1]);
    assert(r2[0] == replies[2]);
    assert(r3[0] == replies[3]);
    assert(r4[0] == replies[4]);
    assert(r5[0] == replies[5]);
    assert(replies[0].status == 0 && replies[1].status == 0 && replies[2].status == 0
        && replies[3].status == 0);
    reveal_with_fuel(setup_calls, 7);
    reveal_with_fuel(setup_result, 7);
}

/// Whatever the driver replies, a context or a queue is asked for only
/// after the driver has reported more platforms than the platform index
/// and more devices than the device index.
pub proof fn creation_follows_selection(plat: usize, dev: usize, replies: Seq<Reply>, i: int)
    requires
        0 <= i < setup_calls(setup_start(plat, dev), replies).len(),
        creates_session(setup_calls(setup_start(plat, dev), replies)[i]),
    ensures
        replies.len() >= 4,
        plat < replies[0].value,
        dev < replies[2].value,
        i >= 4,
{
    let r1 = replies.drop_first();
    let r2 = r1.drop_first();
    if replies.len() >= 3 {
        assert(r1[0] == replies[1]);
        assert(r2[0] == replies[2]);
    }
    reveal_with_fuel(setup_calls, 7);
}

/// A program build in progress: the program is created from the source,
/// then built; if it does not build, its diagnostics are fetched before it
/// is given back.
#[derive(Debug, PartialEq, Eq)]
pub enum Build {
    /// Awaiting the program made from `source`.
    Create { context: usize, device: usize, source: String },
    /// Awaiting the build of `program`.
    Compile { context: usize, device: usize, program: usize },
    /// The build ended with `status`; awaiting the diagnostics.
    Diagnose { device: usize, program: usize, status: i32 },
}

/// Where a build stands after a reply.
#[derive(Debug, PartialEq, Eq)]
pub enum BuildStep {
    Next(Build),
    /// The session holds the new program; `release` gives back the one that
    /// it held before.
    Done { release: Option<Call> },
    /// The session is as it was. `log` is what the driver had to say about
    /// the source, where it said anything; `release` gives back the program
    /// that did not build.
    Failed { error: ClError, log: Option<String>, release: Option<Call> },
}

impl Build {
    /// What holds of every state that the build reaches.
    pub open spec fn wf(self) -> bool {
        match self {
            Build::Create { context, .. } => context != 0,
            Build::Compile { context, program, .. } => context != 0 && program != 0,
            Build::Diagnose { program, status, .. } => program != 0 && status != 0,
        }
    }

    /// The call that the build awaits the reply to.
    pub open spec fn pending(self) -> Call {
        match self {
            Build::Create { context, source, .. } => Call::CreateProgram { context, source },
            Build::Compile { device, program, .. } => Call::BuildProgram { program, device },
            Build::Diagnose { device, program, .. } => Call::BuildLog { program, device },
        }
    }

    /// The build and the session after `reply`.
    ///
    /// A program that builds replaces the session's program, and the one
    /// replaced is given back. A program that does not build is given back
    /// itself, after its diagnostics were asked for, and the error is the
    /// kind of the build's status. A session that was torn down or swapped
    /// meanwhile takes no program.
    pub open spec fn next(self, env: Env, reply: Reply) -> (BuildStep, Env) {
        match self {
            Build::Create { context, device, .. } => if reply.made() {
                (BuildStep::Next(Build::Compile { context, device, program: reply.value }), env)
            } else {
                (
                    BuildStep::Failed {
                        error: kind_of(reply.status as int),
                        log: None,
                        release: None,
                    },
                    env,
                )
            },
            Build::Compile { context, device, program } => if reply.status != 0 {
                (BuildStep::Next(Build::Diagnose { device, program, status: reply.status }), env)
            } else if context == 0 || env.context != context {
                (
                    BuildStep::Failed {
                        error: ClError::InvalidContext,
                        log: None,
                        release: Some(Call::ReleaseProgram { program }),
                    },
                    env,
                )
            } else {
                (
                    BuildStep::Done { release: displaced_program(env.program, program) },
                    Env { program, ..env },
                )
            },
            Build::Diagnose { program, status, .. } => (
                BuildStep::Failed {
                    error: kind_of(status as int),
                    log: if reply.status == 0 {
                        Some(reply.text)
                    } else {
                        None
                    },
                    release: Some(Call::ReleaseProgram { program }),
                },
                env,
            ),
        }
    }

    /// The call to perform next: the one that the build awaits the reply to.
    pub fn call(&self) -> (call: Call)
        ensures
            call == self.pending(),
    {
        match self {
            Build::Create { context, source, .. } => Call::CreateProgram {
                context: *context,
                source: source.clone(),
            },
            Build::Compile { device, program, .. } => Call::BuildProgram {
                program: *program,
                device: *device,
            },
            Build::Diagnose { device, program, .. } => Call::BuildLog {
                program: *program,
                device: *device,
            },
        }
    }

    /// Takes the reply to the pending call and moves the build on.
    pub fn step(self, env: &mut Env, reply: Reply) -> (r: BuildStep)
        ensures
            (r, *final(env)) == self.next(*old(env), reply),
            self.wf() ==> (r matches BuildStep::Next(b) ==> b.wf()),
            old(env).wf() ==> final(env).wf(),
            !(r is Done) ==> *final(env) == *old(env),
            self.wf() && r is Done ==> final(env).stage() == Stage::Compiled || final(env).stage()
                == Stage::Bound,
    {
        match self {
            Build::Create { context, device, .. } => match reply.handle() {
                Ok(program) => BuildStep::Next(Build::Compile { context, device, program }),
                Err(error) => BuildStep::Failed { error, log: None, release: None },
            },
            Build::Compile { context, device, program } => {
                if reply.status != 0 {
                    BuildStep::Next(Build::Diagnose { device, program, status: reply.status })
                } else if context == 0 || env.context != context {
                    BuildStep::Failed {
                        error: ClError::InvalidContext,
                        log: None,
                        release: Some(Call::ReleaseProgram { program }),
                    }
                } else {
                    let prior = env.program;
                    env.program = program;
                    let release = if prior != 0 && prior != program {
                        Some(Call::ReleaseProgram { program: prior })
                    } else {
                        None
                    };
                    BuildStep::Done { release }
                }
            },
            Build::Diagnose { program, status, .. } => {
                let log = if reply.status == 0 {
                    Some(reply.text)
                } else {
                    None
                };
                BuildStep::Failed {
                    error: ClError::from(status),
                    log,
                    release: Some(Call::ReleaseProgram { program }),
                }
            },
        }
    }
}

/// The release owed when `new` takes the place of the program `prior`: none
/// where there was no program, or where the driver handed out the same
/// handle again.
pub open spec fn displaced_program(prior: usize, new: usize) -> Option<Call> {
    if prior != 0 && prior != new {
        Some(Call::ReleaseProgram { program: prior })
    } else {
        None
    }
}

/// How a build of the session's source begins: not at all without a source
/// or without a context.
pub open spec fn build_start(env: Env) -> Result<Build, ClError> {
    match env.kerncode {
        None => Err(ClError::NoSourceLoaded),
        Some(source) => if env.context == 0 {
            Err(ClError::InvalidContext)
        } else {
            Ok(Build::Create { context: env.context, device: env.device, source })
        },
    }
}

/// Begins a build of the source that the session was last given. Nothing is
/// asked of the driver where there is no source.
pub fn make_prog(env: &Env) -> (r: Result<Build, ClError>)
    ensures
        r == build_start(*env),
        r matches Ok(b) ==> b.wf(),
{
    match &env.kerncode {
        None => Err(ClError::NoSourceLoaded),
        Some(source) => {
            if env.context == 0 {
                Err(ClError::InvalidContext)
            } else {
                Ok(Build::Create { context: env.context, device: env.device, source: source.clone() })
            }
        },
    }
}

/// Gives the session the source text to build next, in place of any that
/// it had.
pub fn use_kernel(env: &mut Env, source: String)
    ensures
        *final(env) == (Env { kerncode: Some(source), ..*old(env) }),
{
    env.kerncode = Some(source);
}

/// The releases that tear the session down: kernel, program, queue and
/// context, in that order, each only if the session holds it. Platform and
/// device are not released.
pub open spec fn teardown(env: Env) -> Seq<Call> {
    let kernel = if env.kernel != 0 {
        seq![Call::ReleaseKernel { kernel: env.kernel }]
    } else {
        seq![]
    };
    let program = if env.program != 0 {
        seq![Call::ReleaseProgram { program: env.program }]
    } else {
        seq![]
    };
    let queue = if env.queue != 0 {
        seq![Call::ReleaseQueue { queue: env.queue }]
    } else {
        seq![]
    };
    let context = if env.context != 0 {
        seq![Call::ReleaseContext { context: env.context }]
    } else {
        seq![]
    };
    kernel + program + queue + context
}

/// The session with nothing left to release.
pub open spec fn torn_down(env: Env) -> Env {
    Env { context: 0, queue: 0, program: 0, kernel: 0, ..env }
}

/// Tears the session down: hands out the releases owed, in order, and
/// forgets the handles, so that a second teardown releases nothing.
pub fn cleanup(env: &mut Env) -> (calls: Vec<Call>)
    ensures
        calls@ == teardown(*old(env)),
        *final(env) == torn_down(*old(env)),
        final(env).wf(),
        final(env).stage() == Stage::TornDown,
{
    let mut calls: Vec<Call> = Vec::new();
    if env.kernel != 0 {
        calls.push(Call::ReleaseKernel { kernel: env.kernel });
    }
    if env.program != 0 {
        calls.push(Call::ReleaseProgram { program: env.program });
    }
    if env.queue != 0 {
        calls.push(Call::ReleaseQueue { queue: env.queue });
    }
    if env.context != 0 {
        calls.push(Call::ReleaseContext { context: env.context });
    }
    env.kernel = 0;
    env.program = 0;
    env.queue = 0;
    env.context = 0;
    assert(calls@ =~= teardown(*old(env)));
    calls
}

/// Teardown is idempotent: once torn down, a session owes no release, and
/// tearing it down again changes nothing.
pub proof fn teardown_once(env: Env)
    ensures
        teardown(torn_down(env)) == Seq::<Call>::empty(),
        torn_down(torn_down(env)) == torn_down(env),
{
    assert(teardown(torn_down(env)) =~= Seq::<Call>::empty());
}

/// A whole session is torn down in the reverse of the order in which it
/// was acquired: kernel, program, queue, context.
pub proof fn teardown_reverses_acquisition(env: Env)
    requires
        env.live(),
        env.program != 0,
        env.kernel != 0,
    ensures
        teardown(env) == seq![
            Call::ReleaseKernel { kernel: env.kernel },
            Call::ReleaseProgram { program: env.program },
            Call::ReleaseQueue { queue: env.queue },
            Call::ReleaseContext { context: env.context },
        ],
{
    assert(teardown(env) =~= seq![
        Call::ReleaseKernel { kernel: env.kernel },
        Call::ReleaseProgram { program: env.program },
        Call::ReleaseQueue { queue: env.queue },
        Call::ReleaseContext { context: env.context },
    ]);
}

/// A session that has just been set up has no source: a build asked of it
/// ends with `NoSourceLoaded` before anything is asked of the driver.
pub proof fn build_needs_source(s: Setup, reply: Reply)
    requires
        s.next(reply) is Ready,
    ensures
        build_start(s.next(reply)->Ready_0) == Err::<Build, ClError>(ClError::NoSourceLoaded),
{
}

impl Env {
    /// Begins a build of the source that the session was last given.
    pub fn program(&self) -> (r: Result<Build, ClError>)
        ensures
            r == build_start(*self),
            r matches Ok(b) ==> b.wf(),
    {
        make_prog(self)
    }

    /// Gives the session the source text to build next.
    pub fn use_kernel(&mut self, source: String)
        ensures
            *final(self) == (Env { kerncode: Some(source), ..*old(self) }),
    {
        use_kernel(self, source)
    }

    /// Plans the making of the kernel `name` from the session's program.
    pub fn make_kernel(&self, name: &str) -> (r: Result<Call, ClError>)
        ensures
            self.program == 0 ==> r == Err::<Call, ClError>(ClError::InvalidProgram),
            self.program != 0 && name.spec_bytes().contains(0u8) ==> r == Err::<Call, ClError>(
                ClError::InvalidKernelName,
            ),
            self.program != 0 && !name.spec_bytes().contains(0u8) ==> (r matches Ok(
                Call::CreateKernel { program, name: n },
            ) && program == self.program && n@ == name@),
    {
        crate::kernel::make_kernel(self, name)
    }
}

/// How a build ends when it is fed `replies` in turn from state `b` in
/// session `env`: the last step taken and the session after it, or `None`
/// where the replies do not reach the end.
pub open spec fn build_result(b: Build, env: Env, replies: Seq<Reply>) -> Option<(BuildStep, Env)>
    decreases replies.len(),
{
    if replies.len() == 0 {
        None
    } else {
        match b.next(env, replies[0]) {
            (BuildStep::Next(b2), env2) => build_result(b2, env2, replies.drop_first()),
            end => Some(end),
        }
    }
}

/// A build that goes through takes two replies: the session then holds the
/// program that the driver made, and the program that it held before is
/// given back.
pub proof fn build_replaces_the_program(env: Env, made: Reply, built: Reply)
    requires
        build_start(env) is Ok,
        made.made(),
        built.status == 0,
    ensures
        build_result(build_start(env)->Ok_0, env, seq![made, built]) == Some(
            (
                BuildStep::Done { release: displaced_program(env.program, made.value) },
                Env { program: made.value, ..env },
            ),
        ),
{
    let replies = seq![made, built];
    assert(replies.drop_first()[0] == built);
    reveal_with_fuel(build_result, 3);
}

/// A source that does not build leaves the session as it was. The error is
/// the kind of the build's status, the diagnostics are the driver's text as
/// it came, where the driver had any, and the program that did not build is
/// given back.
pub proof fn failed_build_changes_nothing(env: Env, made: Reply, built: Reply, log: Reply)
    requires
        build_start(env) is Ok,
        made.made(),
        built.status != 0,
    ensures
        build_result(build_start(env)->Ok_0, env, seq![made, built, log]) == Some(
            (
                BuildStep::Failed {
                    error: kind_of(built.status as int),
                    log: if log.status == 0 {
                        Some(log.text)
                    } else {
                        None
                    },
                    release: Some(Call::ReleaseProgram { program: made.value }),
                },
                env,
            ),
        ),
{
    let replies = seq![made, built, log];
    assert(replies.drop_first()[0] == built);
    assert(replies.drop_first().drop_first()[0] == log);
    reveal_with_fuel(build_result, 4);
}

} // verus!
