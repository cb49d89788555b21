use obrah::data::Buffer;
use obrah::driver::{Call, DeviceClass, Reply};
use obrah::kernel::{
    firstdevice, kernel_made, make_kernel, run_kernel, setarg, setarg_scalar, Probe, ProbeStep,
};
use obrah::runtime::{cleanup, ClError, Env};

fn compiled() -> Env {
    Env {
        platform: 0x10,
        device: 0x20,
        context: 0x30,
        queue: 0x40,
        program: 0x50,
        kernel: 0,
        kerncode: Some("source".to_string()),
    }
}

fn bound() -> Env {
    let mut env = compiled();
    env.kernel = 0x60;
    env
}

fn buffer_of(env: &Env, handle: usize, data: &[f32]) -> Buffer<f32> {
    Buffer::new(env, data).unwrap().made(&Reply::new(0, handle)).unwrap()
}

#[test]
fn kernel_needs_a_program() {
    let mut env = compiled();
    env.program = 0;
    assert_eq!(make_kernel(&env, "vec_add"), Err(ClError::InvalidProgram));
    assert_eq!(env.make_kernel("vec_add"), Err(ClError::InvalidProgram));
}

#[test]
fn kernel_name_with_a_zero_byte_is_refused() {
    let env = compiled();
    assert_eq!(make_kernel(&env, "vec\0add"), Err(ClError::InvalidKernelName));
    assert_eq!(make_kernel(&env, "\0"), Err(ClError::InvalidKernelName));
    assert_eq!(make_kernel(&env, "vec_add\0"), Err(ClError::InvalidKernelName));
}

#[test]
fn kernel_call_names_program_and_entry() {
    let env = compiled();
    assert_eq!(
        make_kernel(&env, "vec_add"),
        Ok(Call::CreateKernel { program: 0x50, name: "vec_add".to_string() })
    );
    assert_eq!(
        env.make_kernel("étape"),
        Ok(Call::CreateKernel { program: 0x50, name: "étape".to_string() })
    );
    assert_eq!(
        make_kernel(&env, ""),
        Ok(Call::CreateKernel { program: 0x50, name: String::new() })
    );
}

#[test]
fn kernel_made_is_stored() {
    let mut env = compiled();
    assert_eq!(kernel_made(&mut env, &Reply::new(0, 0x60)), (Ok(()), None));
    assert_eq!(env.kernel, 0x60);
    assert_eq!(env.program, 0x50);
}

#[test]
fn kernel_not_found_leaves_the_session_alone() {
    let mut env = bound();
    assert_eq!(
        kernel_made(&mut env, &Reply::new(-46, 0)),
        (Err(ClError::InvalidKernelName), None)
    );
    assert_eq!(env.kernel, 0x60);
    assert_eq!(
        kernel_made(&mut env, &Reply::new(0, 0)),
        (Err(ClError::UnknownError(0)), None)
    );
    assert_eq!(env.kernel, 0x60);
}

#[test]
fn remaking_a_kernel_gives_each_prior_one_back_once() {
    let mut env = compiled();
    let mut released = Vec::new();
    for n in 1..=20usize {
        let (outcome, release) = kernel_made(&mut env, &Reply::new(0, 0x100 + n));
        assert_eq!(outcome, Ok(()));
        released.extend(release);
        assert_eq!(env.kernel, 0x100 + n);
        assert_eq!(released.len(), n - 1);
    }
    let expected: Vec<Call> =
        (1..20usize).map(|n| Call::ReleaseKernel { kernel: 0x100 + n }).collect();
    assert_eq!(released, expected);
    assert_eq!(cleanup(&mut env)[0], Call::ReleaseKernel { kernel: 0x100 + 20 });
}

#[test]
fn same_handle_again_is_not_released() {
    let mut env = bound();
    assert_eq!(kernel_made(&mut env, &Reply::new(0, 0x60)), (Ok(()), None));
    assert_eq!(env.kernel, 0x60);
}

#[test]
fn kernel_made_for_a_torn_down_session_is_given_back() {
    let mut env = bound();
    cleanup(&mut env);
    assert_eq!(
        kernel_made(&mut env, &Reply::new(0, 0x61)),
        (Err(ClError::InvalidContext), Some(Call::ReleaseKernel { kernel: 0x61 }))
    );
    assert_eq!(env.kernel, 0);
}

#[test]
fn buffer_argument_is_bound_by_slot() {
    let env = bound();
    let buf = buffer_of(&env, 0x70, &[1.0, 2.0]);
    assert_eq!(
        setarg(&env, &buf, 0),
        Ok(Call::SetBufferArg { kernel: 0x60, slot: 0, buffer: 0x70 })
    );
    assert_eq!(
        setarg(&env, &buf, 2),
        Ok(Call::SetBufferArg { kernel: 0x60, slot: 2, buffer: 0x70 })
    );
    assert_eq!(
        setarg(&env, &buf, u32::MAX as usize),
        Ok(Call::SetBufferArg { kernel: 0x60, slot: u32::MAX, buffer: 0x70 })
    );
}

#[test]
fn argument_slot_beyond_the_driver_is_refused() {
    let env = bound();
    let buf = buffer_of(&env, 0x70, &[1.0, 2.0]);
    if usize::BITS > 32 {
        let slot = (u32::MAX as usize).wrapping_add(1);
        assert_eq!(setarg(&env, &buf, slot), Err(ClError::InvalidArgIndex));
        assert_eq!(setarg_scalar(&env, &1.0f32, slot), Err(ClError::InvalidArgIndex));
        assert_eq!(setarg(&env, &buf, usize::MAX), Err(ClError::InvalidArgIndex));
    }
}

#[test]
fn argument_needs_a_kernel() {
    let env = compiled();
    let buf = buffer_of(&env, 0x70, &[1.0, 2.0]);
    assert_eq!(setarg(&env, &buf, 0), Err(ClError::InvalidKernel));
    assert_eq!(setarg_scalar(&env, &3u32, 0), Err(ClError::InvalidKernel));
}

#[test]
fn buffer_of_another_session_is_refused() {
    let env = bound();
    let mut other = bound();
    other.context = 0x31;
    let buf = buffer_of(&other, 0x70, &[1.0, 2.0]);
    assert_eq!(setarg(&env, &buf, 0), Err(ClError::InvalidContext));
}

#[test]
fn scalar_argument_takes_the_width_of_its_type() {
    let env = bound();
    assert_eq!(
        setarg_scalar(&env, &2.5f32, 3),
        Ok(Call::SetScalarArg { kernel: 0x60, slot: 3, size: 4 })
    );
    assert_eq!(
        setarg_scalar(&env, &7u8, 0),
        Ok(Call::SetScalarArg { kernel: 0x60, slot: 0, size: 1 })
    );
    assert_eq!(
        setarg_scalar(&env, &7.0f64, 1),
        Ok(Call::SetScalarArg { kernel: 0x60, slot: 1, size: 8 })
    );
    assert_eq!(
        setarg_scalar(&env, &[0.0f32; 4], 1),
        Ok(Call::SetScalarArg { kernel: 0x60, slot: 1, size: 16 })
    );
}

#[test]
fn run_over_one_to_three_extents() {
    let env = bound();
    assert_eq!(
        run_kernel(&env, &[4]),
        Ok(Call::Enqueue { queue: 0x40, kernel: 0x60, dims: vec![4] })
    );
    assert_eq!(
        run_kernel(&env, &[640, 480]),
        Ok(Call::Enqueue { queue: 0x40, kernel: 0x60, dims: vec![640, 480] })
    );
    assert_eq!(
        run_kernel(&env, &[2, 3, 5]),
        Ok(Call::Enqueue { queue: 0x40, kernel: 0x60, dims: vec![2, 3, 5] })
    );
}

#[test]
fn run_refuses_other_work_sizes() {
    let env = bound();
    assert_eq!(run_kernel(&env, &[]), Err(ClError::InvalidWorkSize));
    assert_eq!(run_kernel(&env, &[1, 1, 1, 1]), Err(ClError::InvalidWorkSize));
    assert_eq!(run_kernel(&env, &[0]), Err(ClError::InvalidWorkSize));
    assert_eq!(run_kernel(&env, &[4, 0]), Err(ClError::InvalidWorkSize));
    assert_eq!(run_kernel(&env, &[4, 4, 0]), Err(ClError::InvalidWorkSize));
    assert_eq!(run_kernel(&env, &[0, 4, 4]), Err(ClError::InvalidWorkSize));
}

#[test]
fn run_needs_a_kernel_and_a_live_session() {
    let env = compiled();
    assert_eq!(run_kernel(&env, &[4]), Err(ClError::InvalidKernel));
    let mut env = bound();
    cleanup(&mut env);
    assert_eq!(run_kernel(&env, &[4]), Err(ClError::InvalidContext));
    assert_eq!(run_kernel(&env, &[]), Err(ClError::InvalidContext));
}

#[test]
fn dispatch_failure_is_reported_by_its_status() {
    assert_eq!(Reply::new(-5, 0).check(), Err(ClError::OutOfResources));
    assert_eq!(Reply::new(-54, 0).check(), Err(ClError::UnknownError(-54)));
}

fn probe_next(p: Probe, reply: Reply) -> Probe {
    match p.step(reply) {
        ProbeStep::Next(p) => p,
        other => panic!("{:?}", other),
    }
}

#[test]
fn probe_reports_the_second_device_of_the_first_platform() {
    let p = firstdevice();
    assert_eq!(p.call(), Call::CountPlatforms);
    let p = probe_next(p, Reply::new(0, 1));
    assert_eq!(p.call(), Call::GetPlatform { count: 1, index: 0 });
    let p = probe_next(p, Reply::new(0, 0x10));
    assert_eq!(p.call(), Call::CountDevices { platform: 0x10, class: DeviceClass::All });
    let p = probe_next(p, Reply::new(0, 2));
    assert_eq!(
        p.call(),
        Call::GetDevice { platform: 0x10, class: DeviceClass::All, count: 2, index: 1 }
    );
    let p = probe_next(p, Reply::new(0, 0x21));
    assert_eq!(p.call(), Call::DeviceName { device: 0x21 });
    let reply = Reply { status: 0, value: 0, text: "Some GPU".to_string() };
    assert_eq!(
        p.step(reply),
        ProbeStep::Named("First OpenCL device: Some GPU".to_string())
    );
}

#[test]
fn probe_with_a_single_device_fails() {
    let p = firstdevice();
    let p = probe_next(p, Reply::new(0, 1));
    let p = probe_next(p, Reply::new(0, 0x10));
    assert_eq!(p.step(Reply::new(0, 1)), ProbeStep::Failed(ClError::NonexistentDevice));
}

#[test]
fn probe_without_platform_or_name_fails() {
    assert_eq!(
        firstdevice().step(Reply::new(0, 0)),
        ProbeStep::Failed(ClError::NonexistentPlatform)
    );
    let p = Probe::Name { device: 0x21 };
    assert_eq!(p.step(Reply::new(-33, 0)), ProbeStep::Failed(ClError::UnknownError(-33)));
}
