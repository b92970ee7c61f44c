use kernel_core::error::Error;
use kernel_core::of::{ConstOfMatchTable, OfDeviceId, OF_COMPATIBLE_LEN};

fn compatible_of(e: &OfDeviceId) -> Vec<u8> {
    let end = e.compatible.iter().position(|b| *b == 0).unwrap();
    e.compatible[..end].to_vec()
}

fn is_zeroed(e: &OfDeviceId) -> bool {
    e.name.iter().all(|b| *b == 0)
        && e.type_.iter().all(|b| *b == 0)
        && e.compatible.iter().all(|b| *b == 0)
        && e.data == 0
        && e.name.len() == 32
        && e.type_.len() == 32
        && e.compatible.len() == 128
}

#[test]
fn table_holds_inputs_in_order_then_sentinel() {
    let t = ConstOfMatchTable::<2>::new_const([b"brcm,bcm2835-rng".as_slice(), b"acme,widget".as_slice()]).unwrap();
    let entries = t.table().as_ptr();
    assert_eq!(entries.len(), 3);
    assert_eq!(compatible_of(&entries[0]), b"brcm,bcm2835-rng".to_vec());
    assert_eq!(compatible_of(&entries[1]), b"acme,widget".to_vec());
    assert_eq!(entries[0].compatible.len(), OF_COMPATIBLE_LEN);
    assert!(entries[0].compatible[16..].iter().all(|b| *b == 0));
    assert!(is_zeroed(&entries[2]));
}

#[test]
fn empty_table_is_just_the_sentinel() {
    let t = ConstOfMatchTable::<0>::new_const([]).unwrap();
    let entries = t.table().as_ptr();
    assert_eq!(entries.len(), 1);
    assert!(is_zeroed(&entries[0]));
}

#[test]
fn longest_fitting_string() {
    let s = vec![b'x'; 127];
    let t = ConstOfMatchTable::<1>::new_const([s.as_slice()]).unwrap();
    let table = t.into_table();
    let entries = table.as_ptr();
    assert_eq!(&entries[0].compatible[..127], s.as_slice());
    assert_eq!(entries[0].compatible[127], 0);
}

#[test]
fn oversized_string_fails_with_einval() {
    let long = vec![b'y'; 128];
    let r = ConstOfMatchTable::<2>::new_const([b"ok".as_slice(), long.as_slice()]);
    assert!(matches!(r, Err(Error(-22))));
}

#[test]
fn single_entry_builders() {
    assert!(is_zeroed(&ConstOfMatchTable::<1>::zeroed_of_device_id()));
    let e = ConstOfMatchTable::<1>::new_of_device_id(b"abc").unwrap();
    assert_eq!(&e.compatible[..4], b"abc\0");
    assert!(matches!(ConstOfMatchTable::<1>::new_of_device_id(&[1u8; 200]), Err(Error(-22))));
}
