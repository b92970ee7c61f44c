//! Platform drivers whose probe receives the device's identifier.
//!
//! A [`Registration`] registers a driver with an optional match table and
//! owns both until [`Registration::teardown`], which unregisters the
//! driver before it gives the table up.
use vstd::prelude::*;

use crate::error::{from_kernel_result_helper, Error, KernelResult, EINVAL};
use crate::of::OfMatchTable;
use crate::platform_driver::{probe_slot, PlatformCall, PlatformDriverDesc, PlatformEnv};
use crate::ThisModule;

verus! {

/// Trait for implementers of platform drivers.
pub trait PlatformDriver {
    /// Device driver data, kept per device between probe and remove.
    type DrvData;

    /// Called when a new platform device is added or discovered.
    fn probe(device_id: i32) -> KernelResult<Self::DrvData>;

    /// Called when a platform device is removed, with the data that
    /// `probe` returned for it.
    fn remove(device_id: i32, drv_data: Self::DrvData) -> KernelResult<()>;
}

/// The code that a callback returns for a driver result, passed through
/// an `i16`: zero, or the error's code.
pub open spec fn callback_code_i16<T>(res: KernelResult<T>) -> i32 {
    match res {
        Ok(_) => 0,
        Err(e) => (e.0 as i16) as i32,
    }
}

/// Probes device `device_id`: runs the driver's probe and keeps the data
/// it returns in the device's slot. Returns zero, or the error code of the
/// probe as an `i16`, which leaves the slot as it was.
pub fn probe_callback<P: PlatformDriver>(device_id: i32, drvdata: &mut Option<P::DrvData>) -> (r: i32)
    ensures
        exists|res: KernelResult<P::DrvData>|
            *final(drvdata) == probe_slot(res, *old(drvdata)) && r == #[trigger] callback_code_i16(res),
{
    let res = P::probe(device_id);
    let ghost res0 = res;
    let code: KernelResult<i32> = match res {
        Ok(data) => {
            *drvdata = Some(data);
            Ok(0)
        },
        Err(e) => Err(e),
    };
    let r = from_kernel_result_helper(code);
    assert(*drvdata == probe_slot(res0, *old(drvdata)) && r == callback_code_i16(res0));
    r
}

/// Removes device `device_id`: takes the data out of the device's slot and
/// hands it to the driver's remove. Returns zero or the error code of the
/// remove as an `i16`; `-EINVAL` where the slot was empty, without calling
/// the driver.
pub fn remove_callback<P: PlatformDriver>(device_id: i32, drvdata: &mut Option<P::DrvData>) -> (r: i32)
    ensures
        *final(drvdata) is None,
        *old(drvdata) is None ==> r == -EINVAL,
{
    let res: KernelResult<i32> = match drvdata.take() {
        None => Err(Error(-EINVAL)),
        Some(data) => match P::remove(device_id, data) {
            Ok(()) => Ok(0),
            Err(e) => Err(e),
        },
    };
    from_kernel_result_helper(res)
}

/// Whether `r` is what a registration call that returned `rc` gives:
/// success for a non-negative code, the error `rc` otherwise.
pub open spec fn registration_result<T>(rc: i32, r: KernelResult<T>) -> bool {
    if rc >= 0 {
        r is Ok
    } else {
        r is Err && r->Err_0 == Error(rc)
    }
}

/// A registration of a platform driver.
pub struct Registration {
    pdrv: Box<PlatformDriverDesc>,
}

impl Registration {
    /// The driver's name.
    pub closed spec fn spec_name(&self) -> &'static [u8] {
        self.pdrv.name
    }

    /// The address of the module that owns the driver.
    pub closed spec fn spec_owner(&self) -> usize {
        self.pdrv.owner
    }

    /// The driver's match table, if it has one.
    pub closed spec fn spec_of_table(&self) -> Option<OfMatchTable> {
        self.pdrv.of_match_table
    }

    /// Registers driver `P` under `name` with the given match table, owned
    /// by `module`: one registration call, which succeeds exactly where it
    /// returns a non-negative code; a negative code is the error.
    pub fn new<P: PlatformDriver, E: PlatformEnv>(
        env: &mut E,
        name: &'static [u8],
        of_match_table: Option<OfMatchTable>,
        module: &'static ThisModule,
    ) -> (r: KernelResult<Self>)
        ensures
            exists|rc: i32|
                final(env).calls() == old(env).calls().push((PlatformCall::Register { name, owner: module.0, rc }))
                && #[trigger] registration_result(rc, r),
            r is Ok ==> r->Ok_0.spec_name() == name && r->Ok_0.spec_of_table() == of_match_table
                && r->Ok_0.spec_owner() == module.0,
    {
        let pdrv = Box::new(PlatformDriverDesc { name, of_match_table, owner: module.0 });
        let ret = env.platform_driver_register(&pdrv);
        let r = if ret < 0 {
            Err(Error::from_kernel_errno(ret))
        } else {
            Ok(Registration { pdrv })
        };
        assert(registration_result(ret, r));
        r
    }

    /// Unregisters the driver (one unregistration call), and only then
    /// gives up its match table, which the caller receives.
    pub fn teardown<E: PlatformEnv>(self, env: &mut E) -> (r: Option<OfMatchTable>)
        ensures
            r == self.spec_of_table(),
            final(env).calls() == old(env).calls().push(
                (PlatformCall::Unregister { name: self.spec_name(), owner: self.spec_owner() }),
            ),
    {
        env.platform_driver_unregister(&self.pdrv);
        let desc = *self.pdrv;
        desc.of_match_table
    }
}

} // verus!
