use obrah::data::{cleanvar, Alloc, Buffer};
use obrah::driver::{Call, Reply};
use obrah::kernel::{kernel_made, run_kernel, setarg};
use obrah::runtime::{cleanup, ClError, Env};
use std::collections::HashMap;

fn session() -> Env {
    Env {
        platform: 0x10,
        device: 0x20,
        context: 0x30,
        queue: 0x40,
        program: 0x50,
        kernel: 0,
        kerncode: None,
    }
}

/// Device memory as a test sees it: what was written under each handle.
struct Device {
    next: usize,
    memory: HashMap<usize, Vec<f32>>,
}

impl Device {
    fn new() -> Device {
        Device { next: 0x1000, memory: HashMap::new() }
    }

    fn create(&mut self, call: Call) -> Reply {
        match call {
            Call::CreateBuffer { context: 0x30, bytes } => {
                assert_eq!(bytes % 4, 0);
                self.next += 1;
                self.memory.insert(self.next, vec![f32::NAN; bytes / 4]);
                Reply::new(0, self.next)
            }
            other => panic!("unexpected call {:?}", other),
        }
    }

    fn write(&mut self, call: Call, host: &[f32]) -> Reply {
        match call {
            Call::WriteBuffer { queue: 0x40, buffer, bytes } => {
                let cells = self.memory.get_mut(&buffer).unwrap();
                assert_eq!(bytes, cells.len() * 4);
                assert_eq!(bytes, host.len() * 4);
                cells.copy_from_slice(host);
                Reply::new(0, 0)
            }
            other => panic!("unexpected call {:?}", other),
        }
    }

    fn read(&mut self, call: Call, host: &mut [f32]) -> Reply {
        match call {
            Call::ReadBuffer { queue: 0x40, buffer, bytes } => {
                let cells = &self.memory[&buffer];
                assert_eq!(bytes, cells.len() * 4);
                assert_eq!(bytes, host.len() * 4);
                host.copy_from_slice(cells);
                Reply::new(0, 0)
            }
            other => panic!("unexpected call {:?}", other),
        }
    }
}

fn make(device: &mut Device, env: &Env, data: &[f32]) -> Buffer<f32> {
    let alloc = Buffer::new(env, data).unwrap();
    let reply = device.create(alloc.call());
    alloc.made(&reply).unwrap()
}

#[test]
fn allocation_is_sized_in_bytes() {
    let env = session();
    let alloc = Buffer::new(&env, &[1.0f32; 10]).unwrap();
    assert_eq!(alloc.call(), Call::CreateBuffer { context: 0x30, bytes: 40 });
    assert_eq!(alloc, Alloc { context: 0x30, size: 40, data: vec![1.0f32; 10] });
    let alloc = Buffer::new(&env, &[1u8, 2, 3]).unwrap();
    assert_eq!(alloc.call(), Call::CreateBuffer { context: 0x30, bytes: 3 });
    let alloc = Buffer::new(&env, &[[0.0f64; 2]; 5]).unwrap();
    assert_eq!(alloc.call(), Call::CreateBuffer { context: 0x30, bytes: 80 });
    let alloc = Buffer::<f32>::new(&env, &[]).unwrap();
    assert_eq!(alloc.call(), Call::CreateBuffer { context: 0x30, bytes: 0 });
}

#[test]
fn allocation_keeps_a_copy_of_the_data() {
    let env = session();
    let mut data = vec![7.0f32, 8.0, 2.0, 6.0];
    let buf = Buffer::new(&env, &data).unwrap().made(&Reply::new(0, 0x70)).unwrap();
    data[0] = 0.0;
    assert_eq!(
        buf,
        Buffer { buffer: 0x70, context: 0x30, size: 16, data: vec![7.0, 8.0, 2.0, 6.0] }
    );
}

#[test]
fn allocation_in_a_torn_down_session_is_refused() {
    let mut env = session();
    cleanup(&mut env);
    assert_eq!(Buffer::new(&env, &[1.0f32]), Err(ClError::InvalidContext));
}

#[test]
fn allocation_failure_is_reported_by_its_status() {
    let env = session();
    let alloc = Buffer::new(&env, &[1.0f32; 4]).unwrap();
    assert_eq!(alloc.made(&Reply::new(-6, 0)), Err(ClError::OutOfMemory));
    let alloc = Buffer::new(&env, &[1.0f32; 4]).unwrap();
    assert_eq!(alloc.made(&Reply::new(-5, 0)), Err(ClError::OutOfResources));
    let alloc = Buffer::new(&env, &[1.0f32; 4]).unwrap();
    assert_eq!(alloc.made(&Reply::new(-61, 0)), Err(ClError::UnknownError(-61)));
    let alloc = Buffer::new(&env, &[1.0f32; 4]).unwrap();
    assert_eq!(alloc.made(&Reply::new(0, 0)), Err(ClError::UnknownError(0)));
}

#[test]
fn upload_writes_the_whole_mirror() {
    let env = session();
    let buf = Buffer::new(&env, &[1.0f32; 6]).unwrap().made(&Reply::new(0, 0x70)).unwrap();
    assert_eq!(
        buf.to(&env),
        Ok(Call::WriteBuffer { queue: 0x40, buffer: 0x70, bytes: 24 })
    );
}

#[test]
fn upload_of_a_resized_mirror_is_refused() {
    let env = session();
    let mut buf = Buffer::new(&env, &[1.0f32; 6]).unwrap().made(&Reply::new(0, 0x70)).unwrap();
    buf.data.push(2.0);
    assert_eq!(buf.to(&env), Err(ClError::InvalidLength));
    buf.data.truncate(5);
    assert_eq!(buf.to(&env), Err(ClError::InvalidLength));
    buf.data.push(3.0);
    assert_eq!(
        buf.to(&env),
        Ok(Call::WriteBuffer { queue: 0x40, buffer: 0x70, bytes: 24 })
    );
}

#[test]
fn download_reads_the_whole_buffer() {
    let env = session();
    let buf = Buffer::new(&env, &[1.0f32; 6]).unwrap().made(&Reply::new(0, 0x70)).unwrap();
    let out = [0.0f32; 6];
    assert_eq!(
        buf.from(&out, &env),
        Ok(Call::ReadBuffer { queue: 0x40, buffer: 0x70, bytes: 24 })
    );
}

#[test]
fn download_into_another_length_is_refused() {
    let env = session();
    let buf = Buffer::new(&env, &[1.0f32; 6]).unwrap().made(&Reply::new(0, 0x70)).unwrap();
    assert_eq!(buf.from(&[0.0f32; 5], &env), Err(ClError::InvalidLength));
    assert_eq!(buf.from(&[0.0f32; 7], &env), Err(ClError::InvalidLength));
    assert_eq!(buf.from(&[], &env), Err(ClError::InvalidLength));
}

#[test]
fn transfer_through_another_session_is_refused() {
    let env = session();
    let mut other = session();
    other.context = 0x31;
    other.queue = 0x41;
    let buf = Buffer::new(&env, &[1.0f32; 2]).unwrap().made(&Reply::new(0, 0x70)).unwrap();
    assert_eq!(buf.to(&other), Err(ClError::InvalidContext));
    assert_eq!(buf.from(&[0.0f32; 2], &other), Err(ClError::InvalidContext));
}

#[test]
fn transfer_through_a_torn_down_session_is_refused() {
    let mut env = session();
    let buf = Buffer::new(&env, &[1.0f32; 2]).unwrap().made(&Reply::new(0, 0x70)).unwrap();
    cleanup(&mut env);
    assert_eq!(buf.to(&env), Err(ClError::InvalidContext));
    assert_eq!(buf.from(&[0.0f32; 2], &env), Err(ClError::InvalidContext));
}

#[test]
fn transfer_failure_is_reported_by_its_status() {
    assert_eq!(Reply::new(-5, 0).check(), Err(ClError::OutOfResources));
    assert_eq!(Reply::new(-38, 0).check(), Err(ClError::UnknownError(-38)));
    assert_eq!(Reply::new(0, 0).check(), Ok(()));
}

#[test]
fn release_happens_once() {
    let env = session();
    let mut buf = Buffer::new(&env, &[1.0f32; 2]).unwrap().made(&Reply::new(0, 0x70)).unwrap();
    assert_eq!(cleanvar(&mut buf), Some(Call::ReleaseBuffer { buffer: 0x70 }));
    assert_eq!(buf.buffer, 0);
    assert_eq!(cleanvar(&mut buf), None);
    assert_eq!(cleanvar(&mut buf), None);
    assert_eq!(buf.data, vec![1.0f32; 2]);
}

#[test]
fn released_buffer_is_refused_everywhere() {
    let mut env = session();
    kernel_made(&mut env, &Reply::new(0, 0x60));
    let mut buf = Buffer::new(&env, &[1.0f32; 2]).unwrap().made(&Reply::new(0, 0x70)).unwrap();
    assert!(buf.to(&env).is_ok());
    assert!(buf.from(&[0.0f32; 2], &env).is_ok());
    assert!(setarg(&env, &buf, 0).is_ok());
    cleanvar(&mut buf);
    assert_eq!(buf.to(&env), Err(ClError::InvalidBuffer));
    assert_eq!(buf.from(&[0.0f32; 2], &env), Err(ClError::InvalidBuffer));
    assert_eq!(buf.from(&[0.0f32; 3], &env), Err(ClError::InvalidBuffer));
    assert_eq!(setarg(&env, &buf, 0), Err(ClError::InvalidBuffer));
    cleanup(&mut env);
    assert_eq!(buf.to(&env), Err(ClError::InvalidBuffer));
    assert_eq!(setarg(&env, &buf, 0), Err(ClError::InvalidBuffer));
}

#[test]
fn round_trip_returns_the_data() {
    let env = session();
    for n in [0usize, 1, 2, 3, 4, 7, 64, 1000] {
        let data: Vec<f32> = (0..n).map(|i| i as f32 * 0.5 - 3.0).collect();
        let mut device = Device::new();
        let buf = make(&mut device, &env, &data);
        let reply = device.write(buf.to(&env).unwrap(), &buf.data);
        assert_eq!(reply.check(), Ok(()));
        let mut out = vec![-1.0f32; n];
        let call = buf.from(&out, &env).unwrap();
        let reply = device.read(call, &mut out);
        assert_eq!(reply.check(), Ok(()));
        assert_eq!(out, data);
    }
}

#[test]
fn pointwise_add_end_to_end() {
    let mut env = session();
    let mut device = Device::new();
    assert_eq!(kernel_made(&mut env, &Reply::new(0, 0x60)), (Ok(()), None));

    let a = vec![7.0f32, 8.0, 2.0, 6.0];
    let b = vec![134.0f32, 134.11, 34.8, 112.9];
    let mut result = vec![0.0f32; a.len()];

    let buf_a = make(&mut device, &env, &a);
    let buf_b = make(&mut device, &env, &b);
    let buf_result = make(&mut device, &env, &result);

    assert_eq!(device.write(buf_a.to(&env).unwrap(), &buf_a.data).check(), Ok(()));
    assert_eq!(device.write(buf_b.to(&env).unwrap(), &buf_b.data).check(), Ok(()));

    let mut slots = [0usize; 3];
    for (slot, buf) in [&buf_a, &buf_b, &buf_result].into_iter().enumerate() {
        match setarg(&env, buf, slot).unwrap() {
            Call::SetBufferArg { kernel: 0x60, slot, buffer } => slots[slot as usize] = buffer,
            other => panic!("unexpected call {:?}", other),
        }
    }
    assert_eq!(slots, [buf_a.buffer, buf_b.buffer, buf_result.buffer]);

    match run_kernel(&env, &[a.len()]).unwrap() {
        Call::Enqueue { queue: 0x40, kernel: 0x60, dims } => {
            assert_eq!(dims, vec![4]);
            for i in 0..dims[0] {
                let sum = device.memory[&slots[0]][i] + device.memory[&slots[1]][i];
                device.memory.get_mut(&slots[2]).unwrap()[i] = sum;
            }
        }
        other => panic!("unexpected call {:?}", other),
    }

    let call = buf_result.from(&result, &env).unwrap();
    assert_eq!(device.read(call, &mut result).check(), Ok(()));

    let expected = [141.0f32, 142.11, 36.8, 118.9];
    for i in 0..4 {
        assert!((result[i] - expected[i]).abs() < 1e-4, "out[{}] = {}", i, result[i]);
    }
}
