use kernel_core::bcm2835_rng::{
    rng_probe, rng_regmap_config, RngDevice, UserBuffer, RNG_CTRL, RNG_DATA, RNG_RBGEN, RNG_STATUS,
    RNG_WARMUP_COUNT,
};
use kernel_core::error::Error;
use kernel_core::platform_driver::PlatformDevice;
use kernel_core::regmap::{RawRegmapConfig, RegisterFile, RegmapCall};

const MAP: usize = 0x8000;

/// A probed device whose registers report `status` and `data`, and the
/// length of the call log at that point.
fn probed(status: u32, data: u32) -> (RegisterFile, Box<RngDevice>, usize) {
    let mut env = RegisterFile::new(0x3f10_4000, MAP);
    let mut pdev = PlatformDevice::new(0x100);
    let state = rng_probe(&mut env, &mut pdev).unwrap();
    // What the device would report next.
    state.regmap.write(&mut env, RNG_STATUS, status).unwrap();
    state.regmap.write(&mut env, RNG_DATA, data).unwrap();
    let dev = RngDevice::open(&state).unwrap();
    let mark = env.log.len();
    (env, dev, mark)
}

#[test]
fn probe_configures_and_enables() {
    let mut env = RegisterFile::new(0x3f10_4000, MAP);
    let mut pdev = PlatformDevice::new(0x100);
    assert!(rng_probe(&mut env, &mut pdev).is_ok());
    let config = RawRegmapConfig { reg_bits: 32, val_bits: 32, reg_stride: 4, max_register: 0x8, disable_locking: false };
    assert_eq!(
        env.log,
        vec![
            RegmapCall::Ioremap { pdev: 0x100, index: 0, ret: 0x3f10_4000 },
            RegmapCall::InitMmio { dev: 0x100, regs: 0x3f10_4000, config, ret: MAP },
            RegmapCall::Write { map: MAP, reg: 0x4, val: 0x40000, rc: 0 },
            RegmapCall::Write { map: MAP, reg: 0x0, val: 0x1, rc: 0 },
        ]
    );
    assert_eq!((RNG_STATUS, RNG_WARMUP_COUNT, RNG_CTRL, RNG_RBGEN), (0x4, 0x40000, 0x0, 0x1));
    assert_eq!(rng_regmap_config().build(), config);
}

#[test]
fn probe_stops_at_first_failed_write() {
    let mut env = RegisterFile::new(0x3f10_4000, MAP);
    env.fail_rc = -5;
    let mut pdev = PlatformDevice::new(0x100);
    assert!(matches!(rng_probe(&mut env, &mut pdev), Err(Error(-5))));
    assert_eq!(env.log.len(), 3);
}

#[test]
fn read_right_after_probe_sees_no_words() {
    let mut env = RegisterFile::new(0x3f10_4000, MAP);
    let mut pdev = PlatformDevice::new(0x100);
    let state = rng_probe(&mut env, &mut pdev).unwrap();
    let dev = RngDevice::open(&state).unwrap();
    let mut buf = UserBuffer::new(16);
    // the status register holds the warm-up count, whose top byte is zero
    assert_eq!(dev.read(&mut env, &mut buf, 0), Ok(0));
    assert!(buf.written().is_empty());
}

#[test]
fn read_with_no_words_returns_zero_and_leaves_buffer() {
    let (mut env, dev, mark) = probed(0x00ff_ffff, 0x1234_5678);
    let mut buf = UserBuffer::new(16);
    assert_eq!(dev.read(&mut env, &mut buf, 0), Ok(0));
    assert!(buf.written().is_empty());
    assert_eq!(env.log[mark..].to_vec(), vec![RegmapCall::Read { map: MAP, reg: RNG_STATUS, rc: 0, val: 0x00ff_ffff }]);
}

#[test]
fn read_with_words_copies_four_bytes_of_data() {
    let (mut env, dev, mark) = probed(0x0100_0000, 0x1234_5678);
    let mut buf = UserBuffer::new(16);
    assert_eq!(dev.read(&mut env, &mut buf, 0), Ok(4));
    assert_eq!(buf.written(), &[0x78, 0x56, 0x34, 0x12]);
    assert_eq!(
        env.log[mark..].to_vec(),
        vec![
            RegmapCall::Read { map: MAP, reg: RNG_STATUS, rc: 0, val: 0x0100_0000 },
            RegmapCall::Read { map: MAP, reg: RNG_DATA, rc: 0, val: 0x1234_5678 },
        ]
    );
}

#[test]
fn read_at_offset_or_into_empty_buffer_returns_zero() {
    let (mut env, dev, mark) = probed(0x0100_0000, 1);
    let mut buf = UserBuffer::new(16);
    assert_eq!(dev.read(&mut env, &mut buf, 4), Ok(0));
    let mut empty = UserBuffer::new(0);
    assert!(empty.is_empty());
    assert_eq!(dev.read(&mut env, &mut empty, 0), Ok(0));
    assert_eq!(env.log.len(), mark);
}

#[test]
fn read_into_small_buffer_is_efault() {
    let (mut env, dev, _mark) = probed(0x0100_0000, 1);
    let mut buf = UserBuffer::new(3);
    assert_eq!(dev.read(&mut env, &mut buf, 0), Err(Error(-14)));
    assert!(buf.written().is_empty());
}

#[test]
fn read_error_is_passed_through() {
    let (mut env, dev, _mark) = probed(0x0100_0000, 1);
    env.fail_rc = -110;
    let mut buf = UserBuffer::new(8);
    assert_eq!(dev.read(&mut env, &mut buf, 0), Err(Error(-110)));
    assert!(buf.written().is_empty());
}

#[test]
fn user_buffer_write_u32() {
    let mut buf = UserBuffer::new(5);
    assert_eq!(buf.write_u32(0xa1b2_c3d4), Ok(()));
    assert_eq!(buf.written(), &[0xd4, 0xc3, 0xb2, 0xa1]);
    assert_eq!(buf.write_u32(1), Err(Error(-14)));
    assert_eq!(buf.written().len(), 4);
}
