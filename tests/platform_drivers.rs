use kernel_core::error::{Error, KernelResult};
use kernel_core::of::ConstOfMatchTable;
use kernel_core::platdev;
use kernel_core::platform_driver::{
    probe_callback, remove_callback, remove_result, store_probe_result, PlatformCall, PlatformDevice,
    PlatformDriver, RecordingPlatformEnv, Registration,
};
use kernel_core::ThisModule;

const MODULE: ThisModule = ThisModule(0x55);

fn bus(rc: i32) -> RecordingPlatformEnv {
    RecordingPlatformEnv { log: Vec::new(), rc }
}

struct Token(u32);

struct Driver;

impl PlatformDriver for Driver {
    type DrvData = Token;

    fn probe(pdev: &mut PlatformDevice) -> KernelResult<Token> {
        if pdev.to_ptr() == 0 {
            return Err(Error(-19));
        }
        Ok(Token(pdev.to_ptr() as u32))
    }

    fn remove(pdev: &mut PlatformDevice, drv_data: Token) -> KernelResult<()> {
        if drv_data.0 as usize == pdev.to_ptr() {
            Ok(())
        } else {
            Err(Error(-22))
        }
    }
}

#[test]
fn new_pinned_registers_with_one_entry_table() {
    let mut bus = bus(0);
    let reg = Registration::new_pinned::<Driver, _>(&mut bus, b"bcm2835-rng", b"brcm,bcm2835-rng", &MODULE).unwrap();
    assert_eq!(bus.log, vec![PlatformCall::Register { name: b"bcm2835-rng", owner: 0x55, rc: 0 }]);
    assert!(reg.unregister(&mut bus));
    assert_eq!(bus.log[1], PlatformCall::Unregister { name: b"bcm2835-rng", owner: 0x55 });
}

#[test]
fn new_pinned_refused_by_kernel() {
    let mut bus = bus(-16);
    let r = Registration::new_pinned::<Driver, _>(&mut bus, b"x", b"y", &MODULE);
    assert!(matches!(r, Err(Error(-16))));
}

#[test]
fn new_pinned_oversized_compatible() {
    let mut bus = bus(0);
    let long = vec![b'c'; 128];
    let r = Registration::new_pinned::<Driver, _>(&mut bus, b"x", &long, &MODULE);
    assert!(matches!(r, Err(Error(-22))));
    assert!(bus.log.is_empty());
}

#[test]
fn probe_then_remove_hands_data_back_once() {
    let mut pdev = PlatformDevice::new(0x1234);
    let mut slot: Option<Token> = None;
    assert_eq!(probe_callback::<Driver>(&mut pdev, &mut slot), 0);
    assert_eq!(slot.as_ref().map(|t| t.0), Some(0x1234));
    assert_eq!(remove_callback::<Driver>(&mut pdev, &mut slot), 0);
    assert!(slot.is_none());
    assert_eq!(remove_callback::<Driver>(&mut pdev, &mut slot), -22);
}

#[test]
fn failed_probe_leaves_slot_empty() {
    let mut pdev = PlatformDevice::new(0);
    let mut slot: Option<Token> = None;
    assert_eq!(probe_callback::<Driver>(&mut pdev, &mut slot), -19);
    assert!(slot.is_none());
}

struct IdDriver;

impl platdev::PlatformDriver for IdDriver {
    type DrvData = Token;

    fn probe(device_id: i32) -> KernelResult<Token> {
        if device_id < 0 {
            return Err(Error(-12));
        }
        Ok(Token(device_id as u32))
    }

    fn remove(device_id: i32, drv_data: Token) -> KernelResult<()> {
        if drv_data.0 as i32 == device_id {
            Ok(())
        } else {
            Err(Error(-5))
        }
    }
}

#[test]
fn platdev_callbacks_round_trip() {
    let mut slot: Option<Token> = None;
    assert_eq!(platdev::probe_callback::<IdDriver>(3, &mut slot), 0);
    assert_eq!(platdev::remove_callback::<IdDriver>(4, &mut slot), -5);
    assert!(slot.is_none());
    assert_eq!(platdev::remove_callback::<IdDriver>(3, &mut slot), -22);
    assert_eq!(platdev::probe_callback::<IdDriver>(-1, &mut slot), -12);
    assert!(slot.is_none());
}

#[test]
fn platdev_registration_lifecycle() {
    let mut bus = bus(0);
    let table = ConstOfMatchTable::<2>::new_const([b"a,b".as_slice(), b"c,d".as_slice()]).unwrap().into_table();
    let reg = platdev::Registration::new::<IdDriver, _>(&mut bus, b"rust_platdev", Some(table), &MODULE).unwrap();
    let back = reg.teardown(&mut bus).unwrap();
    assert_eq!(back.as_ptr().len(), 3);
    assert_eq!(
        bus.log,
        vec![
            PlatformCall::Register { name: b"rust_platdev", owner: 0x55, rc: 0 },
            PlatformCall::Unregister { name: b"rust_platdev", owner: 0x55 },
        ]
    );
}

#[test]
fn platdev_registration_refused() {
    let mut bus = bus(-12);
    let r = platdev::Registration::new::<IdDriver, _>(&mut bus, b"rust_platdev", None, &MODULE);
    assert!(matches!(r, Err(Error(-12))));
}

#[test]
fn registration_with_positive_code_succeeds() {
    let mut bus = bus(3);
    assert!(platdev::Registration::new::<IdDriver, _>(&mut bus, b"p", None, &MODULE).is_ok());
    assert!(Registration::new_pinned::<Driver, _>(&mut bus, b"q", b"r", &MODULE).is_ok());
}

#[test]
fn callback_helpers() {
    let mut slot: Option<u8> = Some(1);
    assert_eq!(store_probe_result(Err(Error(-7)), &mut slot), -7);
    assert_eq!(slot, Some(1));
    assert_eq!(store_probe_result(Ok(9), &mut slot), 0);
    assert_eq!(slot, Some(9));
    assert_eq!(remove_result(Ok(())), 0);
    assert_eq!(remove_result(Err(Error(-3))), -3);
}
