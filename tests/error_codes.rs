use kernel_core::error::{
    from_kernel_result_helper, ptr_err_check, to_result, Error, KernelResult, EBUSY, EINVAL,
    ENOMEM, MAX_ERRNO,
};

#[test]
fn errno_round_trip() {
    let e = Error::from_kernel_errno(-EBUSY);
    assert_eq!(e.to_kernel_errno(), -16);
    assert_eq!(Error::from_kernel_errno(-ENOMEM), Error(-12));
}

#[test]
fn to_result_maps_codes() {
    assert_eq!(to_result(0), Ok(()));
    assert_eq!(to_result(-5), Err(Error(-5)));
    assert_eq!(to_result(7), Err(Error(7)));
}

#[test]
fn ptr_err_check_valid_address() {
    assert_eq!(ptr_err_check(0x1000), Ok(0x1000));
    assert_eq!(ptr_err_check(usize::MAX - MAX_ERRNO), Ok(usize::MAX - MAX_ERRNO));
}

#[test]
fn ptr_err_check_error_address() {
    // -EINVAL as an address
    let addr = (-(EINVAL as isize)) as usize;
    assert_eq!(ptr_err_check(addr), Err(Error(-22)));
    assert_eq!(ptr_err_check(usize::MAX), Err(Error(-1)));
    assert_eq!(ptr_err_check(usize::MAX - MAX_ERRNO + 1), Err(Error(-4095)));
}

#[test]
fn from_kernel_result_helper_values() {
    let ok: KernelResult<i32> = Ok(0);
    assert_eq!(from_kernel_result_helper(ok), 0);
    let err: KernelResult<i32> = Err(Error(-EINVAL));
    assert_eq!(from_kernel_result_helper(err), -22);
    let big: KernelResult<i64> = Ok(1 << 40);
    assert_eq!(from_kernel_result_helper(big), 1 << 40);
}
