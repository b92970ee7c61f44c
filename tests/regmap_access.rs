use kernel_core::error::Error;
use kernel_core::platform_driver::PlatformDevice;
use kernel_core::regmap::{RawRegmapConfig, RegisterFile, Regmap, RegmapCall, RegmapConfig};

fn open_map(env: &mut RegisterFile) -> Regmap {
    let mut pdev = PlatformDevice::new(0x2000);
    let cfg = RegmapConfig::new(32, 32);
    Regmap::init_mmio_platform_resource(env, &mut pdev, 0, &cfg).unwrap()
}

#[test]
fn write_then_read_returns_value() {
    let mut env = RegisterFile::new(0x4000, 0x9000);
    let map = open_map(&mut env);
    assert_eq!(map.write(&mut env, 0x10, 0xdead_beef), Ok(()));
    assert_eq!(map.read(&mut env, 0x10), Ok(0xdead_beef));
    assert_eq!(map.read(&mut env, 0x14), Ok(0));
    assert_eq!(
        env.log[2..].to_vec(),
        vec![
            RegmapCall::Write { map: 0x9000, reg: 0x10, val: 0xdead_beef, rc: 0 },
            RegmapCall::Read { map: 0x9000, reg: 0x10, rc: 0, val: 0xdead_beef },
            RegmapCall::Read { map: 0x9000, reg: 0x14, rc: 0, val: 0 },
        ]
    );
}

#[test]
fn nonzero_code_is_the_error() {
    let mut env = RegisterFile::new(0x4000, 0x9000);
    let map = open_map(&mut env);
    assert_eq!(map.write(&mut env, 0x10, 7), Ok(()));
    env.fail_rc = -5;
    assert_eq!(map.write(&mut env, 0x10, 9), Err(Error(-5)));
    assert_eq!(map.read(&mut env, 0x10), Err(Error(-5)));
    env.fail_rc = 0;
    assert_eq!(map.read(&mut env, 0x10), Ok(7));
}

#[test]
fn ioremap_error_address_fails_init() {
    let mut env = RegisterFile::new((-12isize) as usize, 0x9000);
    let mut pdev = PlatformDevice::new(0x2000);
    let r = Regmap::init_mmio_platform_resource(&mut env, &mut pdev, 0, &RegmapConfig::new(32, 32));
    assert!(matches!(r, Err(Error(-12))));
    assert_eq!(env.log.len(), 1);
}

#[test]
fn regmap_init_error_address_fails_init() {
    let mut env = RegisterFile::new(0x4000, (-19isize) as usize);
    let mut pdev = PlatformDevice::new(0x2000);
    let r = Regmap::init_mmio_platform_resource(&mut env, &mut pdev, 0, &RegmapConfig::new(8, 16));
    assert!(matches!(r, Err(Error(-19))));
}

#[test]
fn config_builder_and_build() {
    let raw = RegmapConfig::new(32, 16).reg_stride(4).max_register(0x8).build();
    assert_eq!(
        raw,
        RawRegmapConfig { reg_bits: 32, val_bits: 16, reg_stride: 4, max_register: 8, disable_locking: false }
    );
    let defaults = RegmapConfig::new(8, 8).build();
    assert_eq!(
        defaults,
        RawRegmapConfig { reg_bits: 8, val_bits: 8, reg_stride: 0, max_register: 0, disable_locking: false }
    );
}

#[test]
fn init_passes_locked_config() {
    let mut env = RegisterFile::new(0x4000, 0x9000);
    let mut pdev = PlatformDevice::new(0x2000);
    let cfg = RegmapConfig::new(32, 32).max_register(0x20);
    assert!(Regmap::init_mmio_platform_resource(&mut env, &mut pdev, 1, &cfg).is_ok());
    assert_eq!(env.log[0], RegmapCall::Ioremap { pdev: 0x2000, index: 1, ret: 0x4000 });
    assert_eq!(
        env.log[1],
        RegmapCall::InitMmio {
            dev: 0x2000,
            regs: 0x4000,
            config: RawRegmapConfig { reg_bits: 32, val_bits: 32, reg_stride: 0, max_register: 0x20, disable_locking: false },
            ret: 0x9000,
        }
    );
    assert_eq!(pdev.to_ptr(), 0x2000);
}
