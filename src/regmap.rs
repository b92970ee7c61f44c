//! Register maps.
//!
//! A [`Regmap`] reads and writes the registers of a device through a
//! kernel `struct regmap`, which serialises the accesses itself: a map is
//! always created with locking enabled.
//!
//! The kernel releases a map when its device is removed; a [`Regmap`] must
//! not be used after that.
use vstd::prelude::*;

use crate::error::{is_err_ptr, ptr_err_check, ptr_errno, rc_result, to_result, Error, KernelResult};
use crate::platform_driver::PlatformDevice;

verus! {

/// One call into the kernel by a register map, with its arguments and
/// what the kernel replied.
#[derive(Clone, Copy, Debug, PartialEq, Eq)]
pub enum RegmapCall {
    /// Mapping of memory resource `index` of device `pdev`; `ret` is the
    /// address or error address returned.
    Ioremap { pdev: usize, index: u32, ret: usize },
    /// Creation of a register map over `regs`; `ret` is the handle or
    /// error address returned.
    InitMmio { dev: usize, regs: usize, config: RawRegmapConfig, ret: usize },
    /// Write of `val` to register `reg`; `rc` is the return code.
    Write { map: usize, reg: u32, val: u32, rc: i32 },
    /// Read of register `reg`; `rc` is the return code, `val` the value
    /// stored.
    Read { map: usize, reg: u32, rc: i32, val: u32 },
}

/// Kernel services behind a register map. Addresses that these calls
/// return may encode an error (see [`crate::error::is_err_ptr`]). Every
/// call is recorded in [`Self::calls`]; [`Self::inv`] is whatever the
/// environment keeps true between calls.
pub trait RegmapEnv {
    /// The calls made so far, oldest first.
    spec fn calls(&self) -> Seq<RegmapCall>;

    /// What the environment keeps true between calls.
    spec fn inv(&self) -> bool;

    /// Maps memory resource `index` of a platform device; returns its
    /// address or an error address.
    fn devm_platform_ioremap_resource(&mut self, pdev: usize, index: u32) -> (ret: usize)
        requires
            old(self).inv(),
        ensures
            final(self).inv(),
            final(self).calls() == old(self).calls().push(RegmapCall::Ioremap { pdev, index, ret }),
    ;

    /// Creates a register map over the mapped registers at `regs`; returns
    /// the map's handle or an error address.
    fn devm_regmap_init_mmio(&mut self, dev: usize, regs: usize, config: &RawRegmapConfig) -> (ret: usize)
        requires
            old(self).inv(),
        ensures
            final(self).inv(),
            final(self).calls() == old(self).calls().push(RegmapCall::InitMmio { dev, regs, config: *config, ret }),
    ;

    /// Writes `val` to register `reg`; returns zero or an error code.
    fn regmap_write(&mut self, map: usize, reg: u32, val: u32) -> (rc: i32)
        requires
            old(self).inv(),
        ensures
            final(self).inv(),
            final(self).calls() == old(self).calls().push(RegmapCall::Write { map, reg, val, rc }),
    ;

    /// Reads register `reg` into `val`; returns zero or an error code.
    fn regmap_read(&mut self, map: usize, reg: u32, val: &mut u32) -> (rc: i32)
        requires
            old(self).inv(),
        ensures
            final(self).inv(),
            final(self).calls() == old(self).calls().push(RegmapCall::Read { map, reg, rc, val: *final(val) }),
    ;
}

/// The value that register `reg` holds after `calls`: what the last
/// successful write to it stored, zero where none did.
pub open spec fn value_at(calls: Seq<RegmapCall>, reg: u32) -> u32
    decreases calls.len(),
{
    if calls.len() == 0 {
        0
    } else {
        match calls.last() {
            RegmapCall::Write { reg: r, val, rc, .. } if r == reg && rc == 0 => val,
            _ => value_at(calls.drop_last(), reg),
        }
    }
}

/// Whether every successful read in `calls` returned what the register
/// held at that point: the behaviour of a plain register file.
pub open spec fn reads_back(calls: Seq<RegmapCall>) -> bool {
    forall|j: int|
        0 <= j < calls.len() ==> match #[trigger] calls[j] {
            RegmapCall::Read { reg, rc, val, .. } => rc == 0 ==> val == value_at(calls.take(j), reg),
            _ => true,
        }
}

/// In a register file (an environment whose calls satisfy
/// [`reads_back`], as [`RegisterFile`]'s always do), a read of `reg`
/// right after a write of `v` to it returns `v` where both succeed.
/// `Regmap::write` then `Regmap::read` leave exactly these two calls.
pub proof fn lemma_write_then_read(
    calls: Seq<RegmapCall>,
    map: usize,
    reg: u32,
    v: u32,
    rc1: i32,
    rc2: i32,
    x: u32,
)
    requires
        reads_back(
            calls + seq![
                RegmapCall::Write { map, reg, val: v, rc: rc1 },
                RegmapCall::Read { map, reg, rc: rc2, val: x },
            ],
        ),
    ensures
        rc1 == 0 && rc2 == 0 ==> read_result(rc2, x) == Ok::<u32, Error>(v),
{
    let all = calls + seq![RegmapCall::Write { map, reg, val: v, rc: rc1 }, RegmapCall::Read { map, reg, rc: rc2, val: x }];
    let j = calls.len() as int + 1;
    assert(all[j] == RegmapCall::Read { map, reg, rc: rc2, val: x });
    assert(all.take(j).drop_last() =~= calls);
    assert(all.take(j).last() == RegmapCall::Write { map, reg, val: v, rc: rc1 });
}

/// A device modelled as a plain register file: every register holds what
/// was last written to it, zero before that. Calls fail with `fail_rc`
/// where it is non-zero; the mapping and the map get the addresses given
/// at creation.
pub struct RegisterFile {
    pub log: Vec<RegmapCall>,
    pub fail_rc: i32,
    pub iomem: usize,
    pub map: usize,
}

impl RegisterFile {
    /// A register file whose resource maps at `iomem` and whose map gets
    /// handle `map`.
    pub fn new(iomem: usize, map: usize) -> (r: Self)
        ensures
            r.calls() == Seq::<RegmapCall>::empty(),
            r.inv(),
    {
        RegisterFile { log: Vec::new(), fail_rc: 0, iomem, map }
    }
}

/// Appending a call other than a read keeps [`reads_back`].
proof fn lemma_reads_back_push(calls: Seq<RegmapCall>, c: RegmapCall)
    requires
        reads_back(calls),
        !(c is Read),
    ensures
        reads_back(calls.push(c)),
{
    let all = calls.push(c);
    assert forall|j: int| 0 <= j < calls.len() implies #[trigger] all.take(j) == calls.take(j) by {
        assert(all.take(j) =~= calls.take(j));
    }
    assert forall|j: int| 0 <= j < all.len() implies match #[trigger] all[j] {
        RegmapCall::Read { reg, rc, val, .. } => rc == 0 ==> val == value_at(all.take(j), reg),
        _ => true,
    } by {
        if j < calls.len() {
            assert(all[j] == calls[j]);
            assert(all.take(j) == calls.take(j));
        }
    }
}

impl RegmapEnv for RegisterFile {
    open spec fn calls(&self) -> Seq<RegmapCall> {
        self.log@
    }

    open spec fn inv(&self) -> bool {
        reads_back(self.log@)
    }

    fn devm_platform_ioremap_resource(&mut self, pdev: usize, index: u32) -> (ret: usize) {
        let ghost old_log = self.log@;
        self.log.push(RegmapCall::Ioremap { pdev, index, ret: self.iomem });
        proof {
            lemma_reads_back_push(old_log, self.log@.last());
        }
        self.iomem
    }

    fn devm_regmap_init_mmio(&mut self, dev: usize, regs: usize, config: &RawRegmapConfig) -> (ret: usize) {
        let ghost old_log = self.log@;
        self.log.push(RegmapCall::InitMmio { dev, regs, config: *config, ret: self.map });
        proof {
            lemma_reads_back_push(old_log, self.log@.last());
        }
        self.map
    }

    fn regmap_write(&mut self, map: usize, reg: u32, val: u32) -> (rc: i32) {
        let ghost old_log = self.log@;
        let rc = self.fail_rc;
        self.log.push(RegmapCall::Write { map, reg, val, rc });
        proof {
            lemma_reads_back_push(old_log, self.log@.last());
        }
        rc
    }

    fn regmap_read(&mut self, map: usize, reg: u32, val: &mut u32) -> (rc: i32) {
        let ghost old_log = self.log@;
        let rc = self.fail_rc;
        let mut v: u32 = 0;
        let mut i: usize = self.log.len();
        let mut found = false;
        assert(old_log.take(i as int) =~= old_log);
        while i > 0 && !found
            invariant
                i <= self.log.len(),
                self.log@ == old_log,
                found ==> v == value_at(old_log, reg),
                !found ==> v == 0,
                !found ==> value_at(old_log, reg) == value_at(old_log.take(i as int), reg),
            decreases i,
        {
            assert(old_log.take(i as int).drop_last() =~= old_log.take(i - 1));
            assert(old_log.take(i as int).last() == old_log[i - 1]);
            match self.log[i - 1] {
                RegmapCall::Write { reg: r, val: w, rc: c, .. } => {
                    if r == reg && c == 0 {
                        v = w;
                        found = true;
                    }
                },
                _ => {},
            }
            i = i - 1;
        }
        if !found {
            assert(old_log.take(0) =~= Seq::<RegmapCall>::empty());
        }
        assert(v == value_at(old_log, reg));
        *val = v;
        self.log.push(RegmapCall::Read { map, reg, rc, val: v });
        assert forall|j: int| 0 <= j < self.log@.len() implies match #[trigger] self.log@[j] {
            RegmapCall::Read { reg, rc, val, .. } => rc == 0 ==> val == value_at(self.log@.take(j), reg),
            _ => true,
        } by {
            if j < old_log.len() {
                assert(self.log@[j] == old_log[j]);
                assert(self.log@.take(j) =~= old_log.take(j));
            } else {
                assert(self.log@.take(j) =~= old_log);
            }
        }
        rc
    }
}

/// The configuration that the kernel receives. Zero in `reg_stride` or
/// `max_register` leaves the kernel's default in place.
#[derive(Clone, Copy, Debug, PartialEq, Eq, Structural)]
pub struct RawRegmapConfig {
    pub reg_bits: i32,
    pub val_bits: i32,
    pub reg_stride: i32,
    pub max_register: u32,
    pub disable_locking: bool,
}

/// Configuration of a register map: register and value widths, and an
/// optional stride and highest register.
pub struct RegmapConfig {
    reg_bits: i32,
    val_bits: i32,
    reg_stride: Option<i32>,
    max_register: Option<u32>,
}

impl RegmapConfig {
    /// Register width in bits.
    pub closed spec fn spec_reg_bits(&self) -> i32 {
        self.reg_bits
    }

    /// Value width in bits.
    pub closed spec fn spec_val_bits(&self) -> i32 {
        self.val_bits
    }

    /// Distance between two registers, if set.
    pub closed spec fn spec_reg_stride(&self) -> Option<i32> {
        self.reg_stride
    }

    /// Highest register, if set.
    pub closed spec fn spec_max_register(&self) -> Option<u32> {
        self.max_register
    }

    /// A configuration with the given widths and no stride or highest
    /// register.
    pub fn new(reg_bits: u32, val_bits: u32) -> (r: RegmapConfig)
        ensures
            r.spec_reg_bits() == reg_bits as i32,
            r.spec_val_bits() == val_bits as i32,
            r.spec_reg_stride() is None,
            r.spec_max_register() is None,
    {
        RegmapConfig {
            reg_bits: reg_bits as i32,
            val_bits: val_bits as i32,
            reg_stride: None,
            max_register: None,
        }
    }

    /// Sets the distance between two registers.
    pub fn reg_stride(self, reg_stride: u8) -> (r: Self)
        ensures
            r.spec_reg_bits() == self.spec_reg_bits(),
            r.spec_val_bits() == self.spec_val_bits(),
            r.spec_reg_stride() == Some(reg_stride as i32),
            r.spec_max_register() == self.spec_max_register(),
    {
        let mut s = self;
        s.reg_stride = Some(reg_stride as i32);
        s
    }

    /// Sets the highest register.
    pub fn max_register(self, max_register: u32) -> (r: Self)
        ensures
            r.spec_reg_bits() == self.spec_reg_bits(),
            r.spec_val_bits() == self.spec_val_bits(),
            r.spec_reg_stride() == self.spec_reg_stride(),
            r.spec_max_register() == Some(max_register),
    {
        let mut s = self;
        s.max_register = Some(max_register);
        s
    }

    /// The configuration that the kernel receives: the fields that are
    /// set, zero for the others, and locking always enabled.
    pub open spec fn spec_build(&self) -> RawRegmapConfig {
        RawRegmapConfig {
            reg_bits: self.spec_reg_bits(),
            val_bits: self.spec_val_bits(),
            reg_stride: match self.spec_reg_stride() {
                Some(s) => s,
                None => 0,
            },
            max_register: match self.spec_max_register() {
                Some(m) => m,
                None => 0,
            },
            disable_locking: false,
        }
    }

    /// Returns [`Self::spec_build`].
    pub fn build(&self) -> (r: RawRegmapConfig)
        ensures
            r == self.spec_build(),
            r.reg_bits == self.spec_reg_bits(),
            r.val_bits == self.spec_val_bits(),
            r.reg_stride == match self.spec_reg_stride() {
                Some(s) => s,
                None => 0,
            },
            r.max_register == match self.spec_max_register() {
                Some(m) => m,
                None => 0,
            },
            !r.disable_locking,
    {
        let mut cfg = RawRegmapConfig {
            reg_bits: self.reg_bits,
            val_bits: self.val_bits,
            reg_stride: 0,
            max_register: 0,
            disable_locking: false,
        };
        if let Some(s) = self.reg_stride {
            cfg.reg_stride = s;
        }
        if let Some(m) = self.max_register {
            cfg.max_register = m;
        }
        cfg
    }
}

/// A kernel `struct regmap`, by its handle.
///
/// # Invariants
///
/// The handle is a valid address, and the map was created with locking
/// enabled.
pub struct Regmap {
    map: usize,
}

/// The result that a read returning `rc` and storing `val` stands for.
pub open spec fn read_result(rc: i32, val: u32) -> KernelResult<u32> {
    if rc == 0 {
        Ok(val)
    } else {
        Err(Error(rc))
    }
}

/// The result that an address returned by the kernel stands for.
pub open spec fn ptr_result(ptr: usize) -> KernelResult<usize> {
    if is_err_ptr(ptr) {
        Err(Error(ptr_errno(ptr) as i32))
    } else {
        Ok(ptr)
    }
}

/// The kernel calls that set up a register map over resource `index` of
/// device `pdev` with configuration `config`, when the mapping returns
/// `iomem` and the creation `map`: no creation where the mapping failed.
pub open spec fn init_calls(pdev: usize, index: u32, config: RawRegmapConfig, iomem: usize, map: usize) -> Seq<RegmapCall> {
    if is_err_ptr(iomem) {
        seq![RegmapCall::Ioremap { pdev, index, ret: iomem }]
    } else {
        seq![RegmapCall::Ioremap { pdev, index, ret: iomem }, RegmapCall::InitMmio { dev: pdev, regs: iomem, config, ret: map }]
    }
}

/// The handle of the map, or the error, for those replies.
pub open spec fn init_result(iomem: usize, map: usize) -> KernelResult<usize> {
    if is_err_ptr(iomem) {
        ptr_result(iomem)
    } else {
        ptr_result(map)
    }
}

/// The handle of a created map, or the error.
pub open spec fn map_handle(r: KernelResult<Regmap>) -> KernelResult<usize> {
    match r {
        Ok(m) => Ok(m.handle()),
        Err(e) => Err(e),
    }
}

impl Regmap {
    /// The handle of the map.
    pub closed spec fn handle(&self) -> usize {
        self.map
    }

    /// Writes `val` to register `reg`: one kernel write of exactly that,
    /// whose return code is the result.
    pub fn write<E: RegmapEnv>(&self, env: &mut E, reg: u32, val: u32) -> (r: KernelResult<()>)
        requires
            old(env).inv(),
        ensures
            final(env).inv(),
            exists|rc: i32|
                final(env).calls() == old(env).calls().push((RegmapCall::Write { map: self.handle(), reg, val, rc }))
                && r == #[trigger] rc_result(rc),
    {
        let res = env.regmap_write(self.map, reg, val);
        let r = to_result(res);
        assert(r == rc_result(res));
        r
    }

    /// Reads register `reg`: one kernel read of it, whose return code and
    /// value are the result.
    pub fn read<E: RegmapEnv>(&self, env: &mut E, reg: u32) -> (r: KernelResult<u32>)
        requires
            old(env).inv(),
        ensures
            final(env).inv(),
            exists|rc: i32, val: u32|
                final(env).calls() == old(env).calls().push((RegmapCall::Read { map: self.handle(), reg, rc, val }))
                && r == #[trigger] read_result(rc, val),
    {
        let mut val: u32 = 0;
        let res = env.regmap_read(self.map, reg, &mut val);
        let r = match to_result(res) {
            Ok(()) => Ok(val),
            Err(e) => Err(e),
        };
        assert(r == read_result(res, val));
        r
    }

    /// Maps memory resource `index` of `pdev` and creates a register map
    /// over it with configuration `cfg`, locking enabled.
    pub fn init_mmio_platform_resource<E: RegmapEnv>(
        env: &mut E,
        pdev: &mut PlatformDevice,
        index: u32,
        cfg: &RegmapConfig,
    ) -> (r: KernelResult<Self>)
        requires
            old(env).inv(),
        ensures
            final(env).inv(),
            *final(pdev) == *old(pdev),
            exists|iomem: usize, map: usize|
                final(env).calls() == old(env).calls() + init_calls(old(pdev).spec_ptr(), index, cfg.spec_build(), iomem, map)
                && #[trigger] init_result(iomem, map) == map_handle(r),
    {
        let ghost c0 = env.calls();
        let iomem = match Self::devm_platform_ioremap_resource(env, pdev, index) {
            Ok(a) => a,
            Err(e) => {
                let ghost ret = env.calls().last()->Ioremap_ret;
                assert(env.calls() =~= c0 + init_calls(pdev.spec_ptr(), index, cfg.spec_build(), ret, 0));
                assert(init_result(ret, 0) == Err::<usize, Error>(e));
                return Err(e);
            },
        };
        let ghost c1 = env.calls();
        let r = Self::devm_regmap_init_mmio(env, pdev, iomem, cfg);
        proof {
            let ret = env.calls().last()->InitMmio_ret;
            assert(env.calls() =~= c0 + init_calls(pdev.spec_ptr(), index, cfg.spec_build(), iomem, ret));
            assert(init_result(iomem, ret) == map_handle(r));
        }
        r
    }

    fn devm_regmap_init_mmio<E: RegmapEnv>(
        env: &mut E,
        dev: &mut PlatformDevice,
        regs: usize,
        cfg: &RegmapConfig,
    ) -> (r: KernelResult<Regmap>)
        requires
            old(env).inv(),
        ensures
            final(env).inv(),
            *final(dev) == *old(dev),
            exists|ret: usize|
                final(env).calls() == old(env).calls().push(
                    (RegmapCall::InitMmio { dev: old(dev).spec_ptr(), regs, config: cfg.spec_build(), ret }),
                ) && #[trigger] ptr_result(ret) == map_handle(r),
    {
        let config = cfg.build();
        let ret = env.devm_regmap_init_mmio(dev.to_ptr(), regs, &config);
        let r = match ptr_err_check(ret) {
            Ok(rm) => Ok(Regmap { map: rm }),
            Err(e) => Err(e),
        };
        assert(ptr_result(ret) == map_handle(r));
        r
    }

    fn devm_platform_ioremap_resource<E: RegmapEnv>(
        env: &mut E,
        pdev: &mut PlatformDevice,
        index: u32,
    ) -> (r: KernelResult<usize>)
        requires
            old(env).inv(),
        ensures
            final(env).inv(),
            *final(pdev) == *old(pdev),
            exists|ret: usize|
                final(env).calls() == old(env).calls().push((RegmapCall::Ioremap { pdev: old(pdev).spec_ptr(), index, ret }))
                && r == #[trigger] ptr_result(ret),
    {
        let ret = env.devm_platform_ioremap_resource(pdev.to_ptr(), index);
        let r = ptr_err_check(ret);
        assert(r == ptr_result(ret));
        r
    }
}

} // verus!
