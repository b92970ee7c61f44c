//! The BCM2835 random number generator.
//!
//! Probe maps the device's registers, sets the warm-up count and enables
//! the generator; a read hands out one 32-bit word of random data while
//! the device reports words available.
use vstd::prelude::*;

use std::sync::Arc;

use crate::error::{error_of, rc_result, Error, KernelResult, EFAULT};
use crate::platform_driver::PlatformDevice;
use crate::regmap::{
    init_calls, init_result, map_handle, read_result, RawRegmapConfig, Regmap, RegmapCall, RegmapConfig, RegmapEnv,
};

verus! {

/// Control register.
pub const RNG_CTRL: u32 = 0x0;

/// Status register: its top byte counts the words available.
pub const RNG_STATUS: u32 = 0x4;

/// Data register.
pub const RNG_DATA: u32 = 0x8;

/// The initial numbers generated are "less random" so will be discarded.
pub const RNG_WARMUP_COUNT: u32 = 0x40000;

/// Enables the generator.
pub const RNG_RBGEN: u32 = 0x1;

/// The four bytes of `v`, least significant first, as the device's CPU
/// stores them.
pub open spec fn le_bytes(v: u32) -> Seq<u8> {
    seq![(v & 0xff) as u8, ((v >> 8) & 0xff) as u8, ((v >> 16) & 0xff) as u8, ((v >> 24) & 0xff) as u8]
}

/// A user buffer that a read fills: the bytes written so far and the room
/// left.
pub struct UserBuffer {
    written: Vec<u8>,
    room: usize,
}

impl UserBuffer {
    /// The bytes written so far.
    pub closed spec fn spec_written(&self) -> Seq<u8> {
        self.written@
    }

    /// The room left, in bytes.
    pub closed spec fn spec_room(&self) -> nat {
        self.room as nat
    }

    /// An empty buffer with room for `room` bytes.
    pub fn new(room: usize) -> (r: Self)
        ensures
            r.spec_written() == Seq::<u8>::empty(),
            r.spec_room() == room,
    {
        UserBuffer { written: Vec::new(), room }
    }

    /// Whether the buffer has no room left.
    pub fn is_empty(&self) -> (r: bool)
        ensures
            r == (self.spec_room() == 0),
    {
        self.room == 0
    }

    /// Returns the bytes written so far.
    pub fn written(&self) -> (r: &[u8])
        ensures
            r@ == self.spec_written(),
    {
        self.written.as_slice()
    }

    /// Appends the four bytes of `v`; fails with `EFAULT`, writing nothing,
    /// where fewer than four bytes of room are left.
    pub fn write_u32(&mut self, v: u32) -> (r: KernelResult<()>)
        ensures
            old(self).spec_room() < 4 ==> r == Err::<(), Error>(error_of(EFAULT)) && *final(self) == *old(self),
            old(self).spec_room() >= 4 ==> r is Ok && final(self).spec_written() == old(self).spec_written() + le_bytes(v)
                && final(self).spec_room() == old(self).spec_room() - 4,
    {
        if self.room < 4 {
            return Err(Error(-EFAULT));
        }
        let ghost before = self.written@;
        self.written.push((v & 0xff) as u8);
        self.written.push(((v >> 8) & 0xff) as u8);
        self.written.push(((v >> 16) & 0xff) as u8);
        self.written.push(((v >> 24) & 0xff) as u8);
        self.room = self.room - 4;
        assert(self.written@ =~= before + le_bytes(v));
        Ok(())
    }
}

/// The outcome of a read at `offset` into a buffer with `room` bytes left,
/// when the status register reads `status` and the data register reads
/// `data` (each read happens only where the one before it allowed): the
/// result and the bytes appended.
pub open spec fn rng_read_spec(room: nat, offset: u64, status: KernelResult<u32>, data: KernelResult<u32>)
    -> (KernelResult<usize>, Seq<u8>)
{
    if room == 0 || offset != 0 {
        (Ok(0), Seq::empty())
    } else {
        match status {
            Err(e) => (Err(e), Seq::empty()),
            Ok(s) => if s >> 24 == 0 {
                (Ok(0), Seq::empty())
            } else {
                match data {
                    Err(e) => (Err(e), Seq::empty()),
                    Ok(v) => if room < 4 {
                        (Err(error_of(EFAULT)), Seq::empty())
                    } else {
                        (Ok(4), le_bytes(v))
                    },
                }
            },
        }
    }
}

/// The device's registers, shared by every open file.
pub struct SharedState {
    pub regmap: Regmap,
}

impl SharedState {
    /// Shares `regmap`.
    pub fn try_new(regmap: Regmap) -> (r: KernelResult<Arc<Self>>)
        ensures
            r is Ok && r->Ok_0.regmap == regmap,
    {
        Ok(Arc::new(SharedState { regmap }))
    }
}

/// One open file of the device.
pub struct RngDevice {
    pub state: Arc<SharedState>,
}

impl RngDevice {
    /// Opens a file on the shared registers.
    pub fn open(state: &Arc<SharedState>) -> (r: KernelResult<Box<RngDevice>>)
        ensures
            r is Ok && r->Ok_0.state == *state,
    {
        Ok(Box::new(RngDevice { state: state.clone() }))
    }

    /// Reads random data into `data` at `offset`: four bytes of the data
    /// register where the device reports a word available, nothing where it
    /// reports none, where `data` has no room or where `offset` is not zero.
    /// The registers read are exactly [`rng_read_calls`], and the outcome
    /// is [`rng_read_spec`] of what they returned.
    pub fn read<E: RegmapEnv>(&self, env: &mut E, data: &mut UserBuffer, offset: u64) -> (r: KernelResult<usize>)
        requires
            old(env).inv(),
        ensures
            final(env).inv(),
            exists|s_rc: i32, s_val: u32, d_rc: i32, d_val: u32|
                final(env).calls() == old(env).calls() + rng_read_calls(
                    self.state.regmap.handle(),
                    old(data).spec_room(),
                    offset,
                    s_rc,
                    s_val,
                    d_rc,
                    d_val,
                ) && ({
                    let out = #[trigger] rng_read_spec(old(data).spec_room(), offset, read_result(s_rc, s_val), read_result(d_rc, d_val));
                    &&& r == out.0
                    &&& final(data).spec_written() == old(data).spec_written() + out.1
                    &&& final(data).spec_room() == old(data).spec_room() - out.1.len()
                }),
    {
        let ghost before = data.spec_written();
        let ghost room = data.spec_room();
        let ghost c0 = env.calls();
        let ghost h = self.state.regmap.handle();
        assert(before + Seq::<u8>::empty() =~= before);
        // Succeed if the caller doesn't provide a buffer or if not at the start.
        if data.is_empty() || offset != 0 {
            assert(rng_read_spec(room, offset, read_result(0, 0), read_result(0, 0)) == (Ok::<usize, Error>(0), Seq::<u8>::empty()));
            assert(env.calls() =~= c0 + rng_read_calls(h, room, offset, 0, 0, 0, 0));
            return Ok(0);
        }
        let regmap = &self.state.regmap;
        let status = regmap.read(env, RNG_STATUS);
        let ghost s_rc = env.calls().last()->Read_rc;
        let ghost s_val = env.calls().last()->Read_val;
        assert(status == read_result(s_rc, s_val));
        let num_words = match status {
            Ok(s) => s >> 24,
            Err(e) => {
                assert(rng_read_spec(room, offset, status, read_result(0, 0)) == (Err::<usize, Error>(e), Seq::<u8>::empty()));
                assert(env.calls() =~= c0 + rng_read_calls(h, room, offset, s_rc, s_val, 0, 0));
                return Err(e);
            },
        };
        if num_words == 0 {
            assert(rng_read_spec(room, offset, status, read_result(0, 0)) == (Ok::<usize, Error>(0), Seq::<u8>::empty()));
            assert(env.calls() =~= c0 + rng_read_calls(h, room, offset, s_rc, s_val, 0, 0));
            return Ok(0);
        }
        let word = regmap.read(env, RNG_DATA);
        let ghost d_rc = env.calls().last()->Read_rc;
        let ghost d_val = env.calls().last()->Read_val;
        assert(word == read_result(d_rc, d_val));
        assert(env.calls() =~= c0 + rng_read_calls(h, room, offset, s_rc, s_val, d_rc, d_val));
        let v = match word {
            Ok(v) => v,
            Err(e) => {
                assert(rng_read_spec(room, offset, status, word) == (Err::<usize, Error>(e), Seq::<u8>::empty()));
                return Err(e);
            },
        };
        match data.write_u32(v) {
            Ok(()) => {
                assert(rng_read_spec(room, offset, status, word) == (Ok::<usize, Error>(4), le_bytes(v)));
                Ok(4)
            },
            Err(e) => {
                assert(rng_read_spec(room, offset, status, word) == (Err::<usize, Error>(e), Seq::<u8>::empty()));
                Err(e)
            },
        }
    }
}

/// The registers that a read at `offset` into a buffer with `room` bytes
/// left reads from map `map`, when the status read returns `s_rc` and
/// `s_val` and the data read `d_rc` and `d_val`: none where there is
/// nothing to read into, the status register, and the data register only
/// where the status read succeeded and reported a word.
pub open spec fn rng_read_calls(map: usize, room: nat, offset: u64, s_rc: i32, s_val: u32, d_rc: i32, d_val: u32) -> Seq<RegmapCall> {
    let status = RegmapCall::Read { map, reg: RNG_STATUS, rc: s_rc, val: s_val };
    if room == 0 || offset != 0 {
        Seq::empty()
    } else if s_rc != 0 || s_val >> 24 == 0 {
        seq![status]
    } else {
        seq![status, RegmapCall::Read { map, reg: RNG_DATA, rc: d_rc, val: d_val }]
    }
}

/// The configuration that the kernel receives for the device.
pub open spec fn rng_raw_config() -> RawRegmapConfig {
    RawRegmapConfig { reg_bits: 32, val_bits: 32, reg_stride: 4, max_register: RNG_DATA, disable_locking: false }
}

/// The register map configuration of the device: 32-bit registers and
/// values, four bytes apart, up to the data register.
pub fn rng_regmap_config() -> (r: RegmapConfig)
    ensures
        r.spec_build() == rng_raw_config(),
{
    RegmapConfig::new(32, 32).reg_stride(4).max_register(RNG_DATA)
}

/// The kernel calls of a probe of device `pdev`, when the mapping returns
/// `iomem`, the creation `map`, and the two writes `w1` and `w2`: set up
/// the map over resource 0, write the warm-up count to the status
/// register, then enable the generator, stopping at the first failure.
pub open spec fn rng_probe_calls(pdev: usize, iomem: usize, map: usize, w1: i32, w2: i32) -> Seq<RegmapCall> {
    let init = init_calls(pdev, 0, rng_raw_config(), iomem, map);
    let warmup = RegmapCall::Write { map, reg: RNG_STATUS, val: RNG_WARMUP_COUNT, rc: w1 };
    let enable = RegmapCall::Write { map, reg: RNG_CTRL, val: RNG_RBGEN, rc: w2 };
    if init_result(iomem, map) is Err {
        init
    } else if w1 != 0 {
        init.push(warmup)
    } else {
        init.push(warmup).push(enable)
    }
}

/// The handle of the map that a probe shares, or its error, for those
/// replies.
pub open spec fn rng_probe_result(iomem: usize, map: usize, w1: i32, w2: i32) -> KernelResult<usize> {
    match init_result(iomem, map) {
        Err(e) => Err(e),
        Ok(m) => if w1 != 0 {
            Err(Error(w1))
        } else if w2 != 0 {
            Err(Error(w2))
        } else {
            Ok(m)
        },
    }
}

/// The handle of the shared map, or the error.
pub open spec fn shared_handle(r: KernelResult<Arc<SharedState>>) -> KernelResult<usize> {
    match r {
        Ok(st) => Ok(st.regmap.handle()),
        Err(e) => Err(e),
    }
}

/// A probe whose every step succeeded mapped resource 0 of the device and
/// created the map with the device's configuration, then wrote the
/// warm-up count to the status register and then the enable bit to the
/// control register, in that order and nothing else; where a step failed
/// its error is the result and no later step was taken.
pub proof fn lemma_rng_probe_order(pdev: usize, iomem: usize, map: usize, w1: i32, w2: i32)
    ensures
        rng_probe_result(iomem, map, w1, w2) is Ok ==> {
            &&& init_result(iomem, map) == Ok::<usize, Error>(map)
            &&& rng_probe_calls(pdev, iomem, map, w1, w2) == seq![
                RegmapCall::Ioremap { pdev, index: 0, ret: iomem },
                RegmapCall::InitMmio { dev: pdev, regs: iomem, config: rng_raw_config(), ret: map },
                RegmapCall::Write { map, reg: RNG_STATUS, val: RNG_WARMUP_COUNT, rc: 0 },
                RegmapCall::Write { map, reg: RNG_CTRL, val: RNG_RBGEN, rc: 0 },
            ]
        },
        init_result(iomem, map) is Err ==> rng_probe_result(iomem, map, w1, w2) == init_result(iomem, map)
            && rng_probe_calls(pdev, iomem, map, w1, w2) == init_calls(pdev, 0, rng_raw_config(), iomem, map),
        init_result(iomem, map) is Ok && w1 != 0 ==> rng_probe_result(iomem, map, w1, w2) == Err::<usize, Error>(Error(w1))
            && rng_probe_calls(pdev, iomem, map, w1, w2).len() == 3,
{
    if rng_probe_result(iomem, map, w1, w2) is Ok {
        assert(rng_probe_calls(pdev, iomem, map, w1, w2) =~= seq![
            RegmapCall::Ioremap { pdev, index: 0, ret: iomem },
            RegmapCall::InitMmio { dev: pdev, regs: iomem, config: rng_raw_config(), ret: map },
            RegmapCall::Write { map, reg: RNG_STATUS, val: RNG_WARMUP_COUNT, rc: 0 },
            RegmapCall::Write { map, reg: RNG_CTRL, val: RNG_RBGEN, rc: 0 },
        ]);
    }
}

/// Probes the device: maps its registers, sets the warm-up count, enables
/// the generator, and returns the registers to share. The kernel calls
/// are exactly [`rng_probe_calls`] and the result [`rng_probe_result`] of
/// their replies.
///
/// Registering the character device through which user space reads the
/// data is left to the caller, which hands it the shared state.
pub fn rng_probe<E: RegmapEnv>(env: &mut E, pdev: &mut PlatformDevice) -> (r: KernelResult<Arc<SharedState>>)
    requires
        old(env).inv(),
    ensures
        final(env).inv(),
        exists|iomem: usize, map: usize, w1: i32, w2: i32|
            final(env).calls() == old(env).calls() + rng_probe_calls(old(pdev).spec_ptr(), iomem, map, w1, w2)
            && #[trigger] rng_probe_result(iomem, map, w1, w2) == shared_handle(r),
{
    let ghost c0 = env.calls();
    let ghost p = pdev.spec_ptr();
    let cfg = rng_regmap_config();
    let init = Regmap::init_mmio_platform_resource(env, pdev, 0, &cfg);
    let ghost (iomem, map) = choose|a: usize, b: usize|
        env.calls() == c0 + init_calls(p, 0, cfg.spec_build(), a, b) && #[trigger] init_result(a, b) == map_handle(init);
    let regmap = match init {
        Ok(m) => m,
        Err(e) => {
            assert(rng_probe_result(iomem, map, 0, 0) == shared_handle(Err(e)));
            assert(env.calls() =~= c0 + rng_probe_calls(p, iomem, map, 0, 0));
            return Err(e);
        },
    };
    let w = regmap.write(env, RNG_STATUS, RNG_WARMUP_COUNT);
    let ghost w1 = env.calls().last()->Write_rc;
    assert(w == rc_result(w1));
    if let Err(e) = w {
        assert(rng_probe_result(iomem, map, w1, 0) == shared_handle(Err(e)));
        assert(env.calls() =~= c0 + rng_probe_calls(p, iomem, map, w1, 0));
        return Err(e);
    }
    let w = regmap.write(env, RNG_CTRL, RNG_RBGEN);
    let ghost w2 = env.calls().last()->Write_rc;
    assert(w == rc_result(w2));
    assert(env.calls() =~= c0 + rng_probe_calls(p, iomem, map, w1, w2));
    if let Err(e) = w {
        assert(rng_probe_result(iomem, map, w1, w2) == shared_handle(Err(e)));
        return Err(e);
    }
    let r = SharedState::try_new(regmap);
    assert(rng_probe_result(iomem, map, w1, w2) == shared_handle(r));
    r
}

} // verus!
