use kernel_core::chrdev::{ChrdevCall, RecordingChrdevEnv, Registration, TeardownStep};
use kernel_core::error::Error;
use kernel_core::ThisModule;

const MODULE: ThisModule = ThisModule(0xabc0);
const NAME: &[u8] = b"rust_chrdev";

fn add(cdev: usize, dev: u32, rc: i32) -> ChrdevCall {
    ChrdevCall::CdevAdd { cdev, dev, count: 1, rc }
}

#[test]
fn register_up_to_capacity_then_einval() {
    let mut env = RecordingChrdevEnv::new();
    let mut reg = Registration::<3>::new(NAME, 5, &MODULE);
    for _ in 0..3 {
        assert_eq!(reg.register(&mut env, 0x77), Ok(()));
    }
    let before = env.log.len();
    assert_eq!(reg.register(&mut env, 0x77), Err(Error(-22)));
    // the failed call made no kernel call
    assert_eq!(env.log.len(), before);
    assert_eq!(env.log[0], ChrdevCall::AllocRegion { baseminor: 5, count: 3, name: NAME, rc: 0, dev: 0x100 });
    let allocs = env.log.iter().filter(|c| matches!(c, ChrdevCall::AllocRegion { .. })).count();
    assert_eq!(allocs, 1);
    let adds: Vec<ChrdevCall> = env.log.iter().filter(|c| matches!(c, ChrdevCall::CdevAdd { .. })).cloned().collect();
    assert_eq!(adds, vec![add(0x1010, 0x100, 0), add(0x1020, 0x101, 0), add(0x1030, 0x102, 0)]);
    // teardown still sees all three devices
    let steps = reg.teardown(&mut env);
    assert_eq!(steps.len(), 4);
}

#[test]
fn register_call_sequence() {
    let mut env = RecordingChrdevEnv::new();
    let mut reg = Registration::<1>::new(NAME, 0, &MODULE);
    assert_eq!(reg.register(&mut env, 0x4242), Ok(()));
    assert_eq!(
        env.log,
        vec![
            ChrdevCall::AllocRegion { baseminor: 0, count: 1, name: NAME, rc: 0, dev: 0x100 },
            ChrdevCall::CdevAlloc { cdev: 0x1010 },
            ChrdevCall::CdevBind { cdev: 0x1010, fops: 0x4242, owner: 0xabc0 },
            add(0x1010, 0x100, 0),
        ]
    );
}

#[test]
fn teardown_removes_devices_before_region() {
    let mut env = RecordingChrdevEnv::new();
    let mut reg = Registration::<4>::new(NAME, 0, &MODULE);
    assert_eq!(reg.register(&mut env, 1), Ok(()));
    assert_eq!(reg.register(&mut env, 1), Ok(()));
    env.log.clear();
    let steps = reg.teardown(&mut env);
    assert_eq!(
        steps,
        vec![
            TeardownStep::DeleteCdev(0x1010),
            TeardownStep::DeleteCdev(0x1020),
            TeardownStep::ReleaseRegion { dev: 0x100, count: 4 },
        ]
    );
    assert_eq!(
        env.log,
        vec![
            ChrdevCall::CdevDel { cdev: 0x1010 },
            ChrdevCall::CdevDel { cdev: 0x1020 },
            ChrdevCall::UnregisterRegion { dev: 0x100, count: 4 },
        ]
    );
}

#[test]
fn teardown_of_unregistered_does_nothing() {
    let mut env = RecordingChrdevEnv::new();
    let reg = Registration::<2>::new(NAME, 0, &MODULE);
    assert_eq!(reg.teardown(&mut env), vec![]);
    assert!(env.log.is_empty());
}

#[test]
fn region_failure_is_passed_through_and_retried() {
    let mut env = RecordingChrdevEnv::new();
    env.region_rc = -16;
    let mut reg = Registration::<2>::new(NAME, 0, &MODULE);
    assert_eq!(reg.register(&mut env, 1), Err(Error(-16)));
    assert_eq!(env.log.len(), 1);
    env.region_rc = 0;
    assert_eq!(reg.register(&mut env, 1), Ok(()));
    let allocs = env.log.iter().filter(|c| matches!(c, ChrdevCall::AllocRegion { .. })).count();
    assert_eq!(allocs, 2);
}

#[test]
fn cdev_alloc_failure_is_enomem_and_keeps_region() {
    let mut env = RecordingChrdevEnv::new();
    let mut reg = Registration::<2>::new(NAME, 0, &MODULE);
    env.fail_alloc = true;
    assert_eq!(reg.register(&mut env, 1), Err(Error(-12)));
    assert_eq!(env.log.last(), Some(&ChrdevCall::CdevAlloc { cdev: 0 }));
    env.fail_alloc = false;
    assert_eq!(reg.register(&mut env, 1), Ok(()));
    let allocs = env.log.iter().filter(|c| matches!(c, ChrdevCall::AllocRegion { .. })).count();
    assert_eq!(allocs, 1);
    let steps = reg.teardown(&mut env);
    assert_eq!(steps, vec![TeardownStep::DeleteCdev(0x1010), TeardownStep::ReleaseRegion { dev: 0x100, count: 2 }]);
}

#[test]
fn cdev_add_failure_releases_the_device() {
    let mut env = RecordingChrdevEnv::new();
    let mut reg = Registration::<2>::new(NAME, 0, &MODULE);
    env.add_rc = -5;
    assert_eq!(reg.register(&mut env, 1), Err(Error(-5)));
    let n = env.log.len();
    assert_eq!(env.log[n - 2], add(0x1010, 0x100, -5));
    assert_eq!(env.log[n - 1], ChrdevCall::CdevDel { cdev: 0x1010 });
    env.add_rc = 0;
    assert_eq!(reg.register(&mut env, 1), Ok(()));
    env.log.clear();
    let steps = reg.teardown(&mut env);
    assert_eq!(steps, vec![TeardownStep::DeleteCdev(0x1020), TeardownStep::ReleaseRegion { dev: 0x100, count: 2 }]);
}

#[test]
fn zero_capacity_accepts_nothing() {
    let mut env = RecordingChrdevEnv::new();
    let mut reg = Registration::<0>::new(NAME, 0, &MODULE);
    assert_eq!(reg.register(&mut env, 1), Err(Error(-22)));
    assert!(!env.log.iter().any(|c| matches!(c, ChrdevCall::CdevAlloc { .. })));
}

#[test]
fn device_number_overflow_is_einval() {
    let mut env = RecordingChrdevEnv::new();
    env.region_dev = u32::MAX;
    let mut reg = Registration::<2>::new(NAME, 0, &MODULE);
    assert_eq!(reg.register(&mut env, 1), Ok(()));
    let before = env.log.len();
    assert_eq!(reg.register(&mut env, 1), Err(Error(-22)));
    assert_eq!(env.log.len(), before);
}
