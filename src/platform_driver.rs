//! Platform drivers whose probe receives the platform device.
//!
//! A [`Registration`] registers one driver that matches one devicetree
//! compatible string. The kernel then calls [`probe_callback`] for each
//! matching device and [`remove_callback`] when the device goes away; the
//! driver data that probe produced is kept in a slot per device and
//! handed back to remove exactly once.
use vstd::prelude::*;

use crate::error::{error_of, Error, KernelResult, EINVAL};
use crate::of::{fits_compatible, ConstOfMatchTable, OfMatchTable};
use crate::ThisModule;

verus! {

/// A kernel `struct platform_device`, by its address.
pub struct PlatformDevice(usize);

impl PlatformDevice {
    /// The address of the device.
    pub closed spec fn spec_ptr(&self) -> usize {
        self.0
    }

    /// Wraps the device at address `ptr`.
    pub fn new(ptr: usize) -> (r: Self)
        ensures
            r.spec_ptr() == ptr,
    {
        PlatformDevice(ptr)
    }

    /// Returns the address of the device.
    pub fn to_ptr(&self) -> (r: usize)
        ensures
            r == self.spec_ptr(),
    {
        self.0
    }
}

/// What the kernel receives when a platform driver is registered: its
/// name, its match table, and the module that owns it.
pub struct PlatformDriverDesc {
    pub name: &'static [u8],
    pub of_match_table: Option<OfMatchTable>,
    pub owner: usize,
}

/// One call into the kernel by a platform driver registration: the
/// driver's name and owner, and for a registration the return code.
#[derive(Clone, Copy, Debug, PartialEq, Eq)]
pub enum PlatformCall {
    Register { name: &'static [u8], owner: usize, rc: i32 },
    Unregister { name: &'static [u8], owner: usize },
}

/// Kernel services behind a platform driver registration. Every call is
/// recorded in [`Self::calls`].
pub trait PlatformEnv {
    /// The calls made so far, oldest first.
    spec fn calls(&self) -> Seq<PlatformCall>;

    /// Registers a driver; returns zero or a negative error code.
    fn platform_driver_register(&mut self, drv: &PlatformDriverDesc) -> (rc: i32)
        ensures
            final(self).calls() == old(self).calls().push(
                PlatformCall::Register { name: drv.name, owner: drv.owner, rc },
            ),
    ;

    /// Unregisters a driver that was registered.
    fn platform_driver_unregister(&mut self, drv: &PlatformDriverDesc)
        ensures
            final(self).calls() == old(self).calls().push(PlatformCall::Unregister { name: drv.name, owner: drv.owner }),
    ;
}

/// A kernel stand-in that records every call and answers registrations
/// with `rc`.
pub struct RecordingPlatformEnv {
    pub log: Vec<PlatformCall>,
    pub rc: i32,
}

impl PlatformEnv for RecordingPlatformEnv {
    open spec fn calls(&self) -> Seq<PlatformCall> {
        self.log@
    }

    fn platform_driver_register(&mut self, drv: &PlatformDriverDesc) -> (rc: i32) {
        self.log.push(PlatformCall::Register { name: drv.name, owner: drv.owner, rc: self.rc });
        self.rc
    }

    fn platform_driver_unregister(&mut self, drv: &PlatformDriverDesc) {
        self.log.push(PlatformCall::Unregister { name: drv.name, owner: drv.owner });
    }
}

/// Trait for implementers of platform drivers.
pub trait PlatformDriver {
    /// Per-instance driver data (or private driver data).
    type DrvData;

    /// Called when a matching device is found; returns the data that
    /// `remove` will receive.
    fn probe(pdev: &mut PlatformDevice) -> KernelResult<Self::DrvData>;

    /// Called when the device goes away, with the data that `probe`
    /// returned for it.
    fn remove(pdev: &mut PlatformDevice, drv_data: Self::DrvData) -> KernelResult<()> {
        Ok(())
    }
}

/// The slot of a device after a probe that returned `res`: the data on
/// success, the slot as it was on failure.
pub open spec fn probe_slot<D>(res: KernelResult<D>, slot: Option<D>) -> Option<D> {
    match res {
        Ok(d) => Some(d),
        Err(_) => slot,
    }
}

/// The code that a callback returns for a driver result: zero, or the
/// error's code.
pub open spec fn callback_code<T>(res: KernelResult<T>) -> i32 {
    match res {
        Ok(_) => 0,
        Err(e) => e.0,
    }
}

/// Keeps what a probe returned: the data goes into the device's slot and
/// the code is zero; an error leaves the slot as it was and is the code.
pub fn store_probe_result<D>(res: KernelResult<D>, drvdata: &mut Option<D>) -> (r: i32)
    ensures
        *final(drvdata) == probe_slot(res, *old(drvdata)),
        r == callback_code(res),
{
    match res {
        Ok(data) => {
            *drvdata = Some(data);
            0
        },
        Err(e) => e.to_kernel_errno(),
    }
}

/// The code that a callback returns for what remove returned.
pub fn remove_result(res: KernelResult<()>) -> (r: i32)
    ensures
        r == callback_code(res),
{
    match res {
        Err(e) => e.to_kernel_errno(),
        Ok(()) => 0,
    }
}

/// Probes a device: runs the driver's probe and keeps what it returns
/// with [`store_probe_result`].
pub fn probe_callback<P: PlatformDriver>(pdev: &mut PlatformDevice, drvdata: &mut Option<P::DrvData>) -> (r: i32)
    ensures
        exists|res: KernelResult<P::DrvData>|
            *final(drvdata) == probe_slot(res, *old(drvdata)) && r == #[trigger] callback_code(res),
{
    let res = P::probe(pdev);
    store_probe_result(res, drvdata)
}

/// Removes a device: takes the data out of the device's slot, hands it to
/// the driver's remove and returns [`remove_result`] of what that
/// returned; `-EINVAL` where the slot was empty, without calling the
/// driver.
pub fn remove_callback<P: PlatformDriver>(pdev: &mut PlatformDevice, drvdata: &mut Option<P::DrvData>) -> (r: i32)
    ensures
        *final(drvdata) is None,
        *old(drvdata) is None ==> r == -EINVAL,
{
    match drvdata.take() {
        None => -EINVAL,
        Some(data) => {
            let res = P::remove(pdev, data);
            remove_result(res)
        },
    }
}

/// A registration of a platform driver.
pub struct Registration {
    registered: bool,
    pdrv: PlatformDriverDesc,
}

impl Registration {
    /// Whether the driver is registered.
    pub closed spec fn is_registered(&self) -> bool {
        self.registered
    }

    /// The driver's name.
    pub closed spec fn spec_name(&self) -> &'static [u8] {
        self.pdrv.name
    }

    /// The address of the module that owns the driver.
    pub closed spec fn spec_owner(&self) -> usize {
        self.pdrv.owner
    }

    /// The driver's match table, if it has one.
    pub closed spec fn spec_of_table(&self) -> Option<OfMatchTable> {
        self.pdrv.of_match_table
    }

    /// An unregistered driver with no name and no table.
    fn empty() -> (r: Self)
        ensures
            !r.is_registered(),
    {
        Registration {
            registered: false,
            pdrv: PlatformDriverDesc { name: &[], of_match_table: None, owner: 0 },
        }
    }

    fn register<P: PlatformDriver, E: PlatformEnv>(
        &mut self,
        env: &mut E,
        name: &'static [u8],
        of_id: &[u8],
        module: &'static ThisModule,
    ) -> (r: KernelResult<()>)
        ensures
            old(self).is_registered() ==> {
                &&& r == Err::<(), Error>(error_of(EINVAL))
                &&& final(env).calls() == old(env).calls()
                &&& *final(self) == *old(self)
            },
            !old(self).is_registered() && !fits_compatible(of_id@) ==> {
                &&& r == Err::<(), Error>(error_of(EINVAL))
                &&& final(env).calls() == old(env).calls()
                &&& !final(self).is_registered()
            },
            !old(self).is_registered() && fits_compatible(of_id@) ==> exists|rc: i32|
                final(env).calls() == old(env).calls().push((PlatformCall::Register { name, owner: module.0, rc }))
                && #[trigger] register_outcome(rc, r, *final(self), name, of_id@, module.0),
    {
        if self.registered {
            // Already registered.
            return Err(Error(-EINVAL));
        }
        let table = ConstOfMatchTable::<1>::new_const([of_id])?;
        self.pdrv.name = name;
        self.pdrv.of_match_table = Some(table.into_table());
        self.pdrv.owner = module.0;
        let ret = env.platform_driver_register(&self.pdrv);
        if ret < 0 {
            assert(register_outcome(ret, Err(Error(ret)), *self, name, of_id@, module.0));
            return Err(Error::from_kernel_errno(ret));
        }
        self.registered = true;
        assert(register_outcome(ret, Ok(()), *self, name, of_id@, module.0));
        Ok(())
    }

    /// Allocates a registration and registers driver `P` under `name`,
    /// matching devices compatible with `of_id`, owned by `module`. Fails
    /// with `EINVAL`, calling nothing, where `of_id` does not fit in a
    /// match table entry; otherwise makes one registration call and
    /// succeeds exactly where it returns a non-negative code.
    pub fn new_pinned<P: PlatformDriver, E: PlatformEnv>(
        env: &mut E,
        name: &'static [u8],
        of_id: &[u8],
        module: &'static ThisModule,
    ) -> (r: KernelResult<Box<Self>>)
        ensures
            !fits_compatible(of_id@) ==> r == Err::<Box<Self>, Error>(error_of(EINVAL)) && final(env).calls() == old(env).calls(),
            fits_compatible(of_id@) ==> exists|rc: i32|
                final(env).calls() == old(env).calls().push((PlatformCall::Register { name, owner: module.0, rc }))
                && #[trigger] new_outcome(rc, r, name, of_id@, module.0),
    {
        let ghost c0 = env.calls();
        let mut r = Box::new(Self::empty());
        let res = r.register::<P, E>(env, name, of_id, module);
        let ghost rc = env.calls().last()->Register_rc;
        let out = match res {
            Ok(()) => Ok(r),
            Err(e) => Err(e),
        };
        proof {
            if fits_compatible(of_id@) {
                assert(register_outcome(rc, res, *r, name, of_id@, module.0));
                assert(new_outcome(rc, out, name, of_id@, module.0));
            }
        }
        out
    }

    /// Unregisters the driver if it is registered (one unregistration
    /// call); returns whether it was.
    pub fn unregister<E: PlatformEnv>(self, env: &mut E) -> (r: bool)
        ensures
            r == self.is_registered(),
            r ==> final(env).calls() == old(env).calls().push(
                (PlatformCall::Unregister { name: self.spec_name(), owner: self.spec_owner() }),
            ),
            !r ==> final(env).calls() == old(env).calls(),
    {
        if self.registered {
            env.platform_driver_unregister(&self.pdrv);
        }
        self.registered
    }
}

/// A registered driver with name `name`, owned by `owner`, whose table
/// matches exactly the compatible string `of_id`.
pub open spec fn registered_as(reg: Registration, name: &'static [u8], of_id: Seq<u8>, owner: usize) -> bool {
    &&& reg.is_registered()
    &&& reg.spec_name() == name
    &&& reg.spec_owner() == owner
    &&& reg.spec_of_table() is Some
    &&& {
        let entries = reg.spec_of_table()->0.entries();
        &&& entries.len() == 2
        &&& entries[0].matches_compatible(of_id)
        &&& entries[1].is_zeroed()
    }
}

/// The outcome of a registration call that returned `rc`: registered as
/// asked where `rc` is non-negative, the error `rc` and unregistered
/// otherwise.
pub open spec fn register_outcome(
    rc: i32,
    r: KernelResult<()>,
    reg: Registration,
    name: &'static [u8],
    of_id: Seq<u8>,
    owner: usize,
) -> bool {
    if rc >= 0 {
        r is Ok && registered_as(reg, name, of_id, owner)
    } else {
        r == Err::<(), Error>(Error(rc)) && !reg.is_registered()
    }
}

/// The outcome of [`Registration::new_pinned`] whose registration call
/// returned `rc`.
pub open spec fn new_outcome(
    rc: i32,
    r: KernelResult<Box<Registration>>,
    name: &'static [u8],
    of_id: Seq<u8>,
    owner: usize,
) -> bool {
    if rc >= 0 {
        r is Ok && registered_as(*r->Ok_0, name, of_id, owner)
    } else {
        r == Err::<Box<Registration>, Error>(Error(rc))
    }
}

} // verus!
