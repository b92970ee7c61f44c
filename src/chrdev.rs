//! Character devices.
//!
//! A [`Registration`] reserves a range of `N` device numbers on its first
//! [`Registration::register`] call and then adds one character device per
//! call, up to `N` of them. [`Registration::teardown`] removes every device
//! before it releases the range.
use vstd::prelude::*;

use crate::error::{error_of, Error, KernelResult, EINVAL, ENOMEM};
use crate::ThisModule;

verus! {

/// One call into the kernel by a character device registration, with
/// its arguments and what the kernel replied.
#[derive(Clone, Copy, Debug, PartialEq, Eq)]
pub enum ChrdevCall {
    /// Reservation of `count` numbers from minor `baseminor`; `dev` is the
    /// first number the kernel stored, `rc` its return code.
    AllocRegion { baseminor: u32, count: u32, name: &'static [u8], rc: i32, dev: u32 },
    /// Release of `count` numbers starting at `dev`.
    UnregisterRegion { dev: u32, count: u32 },
    /// Allocation of a device object; `cdev` is the handle returned.
    CdevAlloc { cdev: usize },
    /// Binding of a dispatch table and an owning module to a device object.
    CdevBind { cdev: usize, fops: usize, owner: usize },
    /// Activation of a device object under `count` numbers from `dev`.
    CdevAdd { cdev: usize, dev: u32, count: u32, rc: i32 },
    /// Removal of a device object.
    CdevDel { cdev: usize },
}

/// Kernel services behind a character device registration.
///
/// Handles are addresses of kernel objects; the kernel returns zero where
/// it could not allocate one. Every call is recorded in [`Self::calls`],
/// with its arguments and the kernel's reply.
pub trait ChrdevEnv {
    /// The calls made so far, oldest first.
    spec fn calls(&self) -> Seq<ChrdevCall>;

    /// Reserves `count` device numbers starting at minor `baseminor` and
    /// stores the first of them in `dev`; returns zero or an error code.
    fn alloc_chrdev_region(&mut self, dev: &mut u32, baseminor: u32, count: u32, name: &'static [u8]) -> (rc: i32)
        ensures
            final(self).calls() == old(self).calls().push(
                ChrdevCall::AllocRegion { baseminor, count, name, rc, dev: *final(dev) },
            ),
    ;

    /// Releases `count` device numbers starting at `dev`.
    fn unregister_chrdev_region(&mut self, dev: u32, count: u32)
        ensures
            final(self).calls() == old(self).calls().push(ChrdevCall::UnregisterRegion { dev, count }),
    ;

    /// Allocates a character device object; zero on failure.
    fn cdev_alloc(&mut self) -> (cdev: usize)
        ensures
            final(self).calls() == old(self).calls().push(ChrdevCall::CdevAlloc { cdev }),
    ;

    /// Sets the dispatch table and the owning module of a device object
    /// that is not yet visible.
    fn cdev_bind(&mut self, cdev: usize, fops: usize, owner: usize)
        ensures
            final(self).calls() == old(self).calls().push(ChrdevCall::CdevBind { cdev, fops, owner }),
    ;

    /// Makes a device object visible under `count` numbers starting at
    /// `dev`; returns zero or an error code.
    fn cdev_add(&mut self, cdev: usize, dev: u32, count: u32) -> (rc: i32)
        ensures
            final(self).calls() == old(self).calls().push(ChrdevCall::CdevAdd { cdev, dev, count, rc }),
    ;

    /// Removes and releases a device object.
    fn cdev_del(&mut self, cdev: usize)
        ensures
            final(self).calls() == old(self).calls().push(ChrdevCall::CdevDel { cdev }),
    ;
}

/// A kernel stand-in that records every call and answers from its
/// fields: the range reservation replies `region_rc` (and `region_dev`
/// on success), allocation fails where `fail_alloc` is set and otherwise
/// hands out `next_cdev`, then the next multiple of 16 above it, and
/// activation replies `add_rc`.
pub struct RecordingChrdevEnv {
    pub log: Vec<ChrdevCall>,
    pub region_rc: i32,
    pub region_dev: u32,
    pub fail_alloc: bool,
    pub next_cdev: usize,
    pub add_rc: i32,
}

impl RecordingChrdevEnv {
    /// A stand-in that grants every call, with the range at `0x100` and
    /// handles from `0x1010` on.
    pub fn new() -> (r: Self)
        ensures
            r.calls() == Seq::<ChrdevCall>::empty(),
            r.region_rc == 0 && r.region_dev == 0x100 && !r.fail_alloc && r.next_cdev == 0x1010 && r.add_rc == 0,
    {
        RecordingChrdevEnv {
            log: Vec::new(),
            region_rc: 0,
            region_dev: 0x100,
            fail_alloc: false,
            next_cdev: 0x1010,
            add_rc: 0,
        }
    }
}

impl ChrdevEnv for RecordingChrdevEnv {
    open spec fn calls(&self) -> Seq<ChrdevCall> {
        self.log@
    }

    fn alloc_chrdev_region(&mut self, dev: &mut u32, baseminor: u32, count: u32, name: &'static [u8]) -> (rc: i32) {
        if self.region_rc == 0 {
            *dev = self.region_dev;
        }
        self.log.push(ChrdevCall::AllocRegion { baseminor, count, name, rc: self.region_rc, dev: *dev });
        self.region_rc
    }

    fn unregister_chrdev_region(&mut self, dev: u32, count: u32) {
        self.log.push(ChrdevCall::UnregisterRegion { dev, count });
    }

    fn cdev_alloc(&mut self) -> (cdev: usize) {
        let cdev = if self.fail_alloc { 0 } else { self.next_cdev };
        if !self.fail_alloc && self.next_cdev < usize::MAX - 16 {
            self.next_cdev = self.next_cdev + 16;
        }
        self.log.push(ChrdevCall::CdevAlloc { cdev });
        cdev
    }

    fn cdev_bind(&mut self, cdev: usize, fops: usize, owner: usize) {
        self.log.push(ChrdevCall::CdevBind { cdev, fops, owner });
    }

    fn cdev_add(&mut self, cdev: usize, dev: u32, count: u32) -> (rc: i32) {
        self.log.push(ChrdevCall::CdevAdd { cdev, dev, count, rc: self.add_rc });
        self.add_rc
    }

    fn cdev_del(&mut self, cdev: usize) {
        self.log.push(ChrdevCall::CdevDel { cdev });
    }
}

/// What the kernel replied to the calls of one [`Registration::register`]:
/// the return code and first number of the range reservation, the handle
/// of the allocated device object, and the return code of its activation.
/// A reply to a call that was not made is ignored.
#[derive(Clone, Copy, Debug, PartialEq, Eq, Structural)]
pub struct RegisterReplies {
    pub region_rc: i32,
    pub region_dev: u32,
    pub cdev: usize,
    pub add_rc: i32,
}

/// One call of a registration's teardown.
#[derive(Clone, Copy, Debug, PartialEq, Eq, Structural)]
pub enum TeardownStep {
    /// Remove the device object with this handle.
    DeleteCdev(usize),
    /// Release `count` device numbers starting at `dev`.
    ReleaseRegion { dev: u32, count: u32 },
}

/// Character device object, by its non-null handle.
struct Cdev(usize);

impl Cdev {
    /// Allocates a device object bound to the dispatch table at `fops` and
    /// owned by `module`; fails with `ENOMEM` where the kernel returns no
    /// object. The second value is the handle that the kernel returned.
    fn allocate<E: ChrdevEnv>(env: &mut E, fops: usize, module: &ThisModule) -> (r: (KernelResult<Cdev>, Ghost<usize>))
        ensures
            r.0 is Ok <==> r.1@ != 0,
            r.0 is Ok ==> r.0->Ok_0.0 == r.1@,
            r.0 is Err ==> r.0->Err_0 == error_of(ENOMEM),
            final(env).calls() == old(env).calls() + alloc_calls(r.1@, fops, module.0),
    {
        let ghost c0 = env.calls();
        let cdev = env.cdev_alloc();
        if cdev == 0 {
            assert(env.calls() =~= c0 + alloc_calls(cdev, fops, module.0));
            return (Err(Error(-ENOMEM)), Ghost(cdev));
        }
        env.cdev_bind(cdev, fops, module.0);
        assert(env.calls() =~= c0 + alloc_calls(cdev, fops, module.0));
        (Ok(Cdev(cdev)), Ghost(cdev))
    }

    /// Makes the device visible under `count` numbers starting at `dev`.
    /// The second value is the kernel's return code.
    fn add<E: ChrdevEnv>(&mut self, env: &mut E, dev: u32, count: u32) -> (r: (KernelResult<()>, Ghost<i32>))
        ensures
            *final(self) == *old(self),
            r.0 is Ok <==> r.1@ == 0,
            r.0 is Err ==> r.0->Err_0 == Error(r.1@),
            final(env).calls() == old(env).calls().push(ChrdevCall::CdevAdd { cdev: old(self).0, dev, count, rc: r.1@ }),
    {
        let rc = env.cdev_add(self.0, dev, count);
        if rc != 0 {
            return (Err(Error::from_kernel_errno(rc)), Ghost(rc));
        }
        (Ok(()), Ghost(rc))
    }

    /// Removes and releases the device object.
    fn delete<E: ChrdevEnv>(self, env: &mut E)
        ensures
            final(env).calls() == old(env).calls().push(ChrdevCall::CdevDel { cdev: self.0 }),
    {
        env.cdev_del(self.0);
    }
}

struct RegistrationInner {
    dev: u32,
    cdevs: Vec<Cdev>,
}

/// Character device registration.
///
/// May contain up to a fixed number (`N`) of devices.
pub struct Registration<const N: usize> {
    name: &'static [u8],
    minors_start: u16,
    this_module: &'static ThisModule,
    inner: Option<RegistrationInner>,
}

/// The outcome of one `register` call on a registration of capacity `cap`
/// whose reserved range starts at `region` (if any) and which holds the
/// device handles `handles`, when the kernel replies `e`: the result, the
/// range afterwards and the handles afterwards.
pub open spec fn register_spec(cap: nat, region: Option<u32>, handles: Seq<usize>, e: RegisterReplies)
    -> (KernelResult<()>, Option<u32>, Seq<usize>)
{
    if region is None && cap > u32::MAX {
        (Err(error_of(EINVAL)), region, handles)
    } else if region is None && e.region_rc != 0 {
        (Err(Error(e.region_rc)), region, handles)
    } else {
        let dev = if region is Some { region->0 } else { e.region_dev };
        if handles.len() >= cap {
            (Err(error_of(EINVAL)), Some(dev), handles)
        } else if dev + handles.len() > u32::MAX {
            (Err(error_of(EINVAL)), Some(dev), handles)
        } else if e.cdev == 0 {
            (Err(error_of(ENOMEM)), Some(dev), handles)
        } else if e.add_rc != 0 {
            (Err(Error(e.add_rc)), Some(dev), handles)
        } else {
            (Ok(()), Some(dev), handles.push(e.cdev))
        }
    }
}

/// The calls that allocate a device object whose handle is `cdev` and
/// bind it to `fops` and `owner`: no binding where allocation failed.
pub open spec fn alloc_calls(cdev: usize, fops: usize, owner: usize) -> Seq<ChrdevCall> {
    if cdev == 0 {
        seq![ChrdevCall::CdevAlloc { cdev }]
    } else {
        seq![ChrdevCall::CdevAlloc { cdev }, ChrdevCall::CdevBind { cdev, fops, owner }]
    }
}

/// The kernel calls of one `register` call, in order, on the state and
/// replies of [`register_spec`]: a registration named `name`, asking for
/// minors from `minors_start`, binding devices to `fops` and `owner`.
/// The range is asked for only where none is reserved, a full
/// registration calls nothing, and a device whose activation fails is
/// removed at once.
pub open spec fn register_calls(
    cap: nat,
    region: Option<u32>,
    handles: Seq<usize>,
    minors_start: u16,
    name: &'static [u8],
    fops: usize,
    owner: usize,
    e: RegisterReplies,
) -> Seq<ChrdevCall> {
    if region is None && cap > u32::MAX {
        Seq::empty()
    } else {
        let reserve = if region is None {
            seq![
                ChrdevCall::AllocRegion {
                    baseminor: minors_start as u32,
                    count: cap as u32,
                    name,
                    rc: e.region_rc,
                    dev: e.region_dev,
                },
            ]
        } else {
            Seq::empty()
        };
        let dev = if region is Some { region->0 } else { e.region_dev };
        if region is None && e.region_rc != 0 {
            reserve
        } else if handles.len() >= cap || dev + handles.len() > u32::MAX {
            reserve
        } else if e.cdev == 0 {
            reserve + alloc_calls(e.cdev, fops, owner)
        } else {
            let add = ChrdevCall::CdevAdd { cdev: e.cdev, dev: (dev + handles.len()) as u32, count: 1, rc: e.add_rc };
            if e.add_rc != 0 {
                reserve + alloc_calls(e.cdev, fops, owner) + seq![add, ChrdevCall::CdevDel { cdev: e.cdev }]
            } else {
                reserve + alloc_calls(e.cdev, fops, owner) + seq![add]
            }
        }
    }
}

/// The kernel call that performs a teardown step.
pub open spec fn step_call(step: TeardownStep) -> ChrdevCall {
    match step {
        TeardownStep::DeleteCdev(h) => ChrdevCall::CdevDel { cdev: h },
        TeardownStep::ReleaseRegion { dev, count } => ChrdevCall::UnregisterRegion { dev, count },
    }
}

/// The calls that tear down a registration with range `region` and
/// device handles `handles`: every device in order of registration, then
/// the range of `cap` numbers.
pub open spec fn teardown_spec(cap: u32, region: Option<u32>, handles: Seq<usize>) -> Seq<TeardownStep> {
    match region {
        None => Seq::empty(),
        Some(dev) => handles.map_values(|h: usize| TeardownStep::DeleteCdev(h)).push(
            TeardownStep::ReleaseRegion { dev, count: cap },
        ),
    }
}

/// Teardown removes exactly the registered devices, each once and in
/// order of registration, and every one of them before the range of
/// device numbers is released, which happens last and once.
pub proof fn lemma_teardown_order(cap: u32, dev: u32, handles: Seq<usize>)
    ensures
        ({
            let steps = teardown_spec(cap, Some(dev), handles);
            &&& steps.len() == handles.len() + 1
            &&& forall|i: int| 0 <= i < handles.len() ==> #[trigger] steps[i] == TeardownStep::DeleteCdev(handles[i])
            &&& steps.last() == (TeardownStep::ReleaseRegion { dev, count: cap })
            &&& forall|i: int| 0 <= i < handles.len() ==> !(#[trigger] steps[i] is ReleaseRegion)
        }),
        teardown_spec(cap, None, handles) == Seq::<TeardownStep>::empty(),
{
}

/// Whether the kernel granted every call in `calls`: every reservation and
/// activation returned zero and every allocation a non-null handle.
pub open spec fn granted(calls: Seq<ChrdevCall>) -> bool {
    forall|i: int|
        0 <= i < calls.len() ==> match #[trigger] calls[i] {
            ChrdevCall::AllocRegion { rc, .. } => rc == 0,
            ChrdevCall::CdevAlloc { cdev } => cdev != 0,
            ChrdevCall::CdevAdd { rc, .. } => rc == 0,
            _ => true,
        }
}

/// A `register` call whose kernel calls were all granted succeeds while
/// the registration holds fewer than `cap` devices (and the numbers fit
/// in a `u32`): it keeps the range and adds the new handle. On a full
/// registration it fails with `EINVAL`, changes nothing and calls
/// nothing, whatever the kernel would have replied.
pub proof fn lemma_register_granted(
    cap: nat,
    region: Option<u32>,
    handles: Seq<usize>,
    minors_start: u16,
    name: &'static [u8],
    fops: usize,
    owner: usize,
    e: RegisterReplies,
)
    requires
        1 <= cap <= u32::MAX,
        region is None ==> handles.len() == 0,
        handles.len() <= cap,
        ({
            let dev = if region is Some { region->0 } else { e.region_dev };
            dev + cap <= u32::MAX + 1
        }),
    ensures
        handles.len() < cap && granted(register_calls(cap, region, handles, minors_start, name, fops, owner, e)) ==> {
            let out = register_spec(cap, region, handles, e);
            &&& out.0 is Ok
            &&& out.1 is Some
            &&& (region is Some ==> out.1 == region)
            &&& out.2 == handles.push(e.cdev)
        },
        region is Some && handles.len() == cap ==> {
            &&& register_spec(cap, region, handles, e) == (Err::<(), Error>(error_of(EINVAL)), region, handles)
            &&& register_calls(cap, region, handles, minors_start, name, fops, owner, e) == Seq::<ChrdevCall>::empty()
        },
{
    let calls = register_calls(cap, region, handles, minors_start, name, fops, owner, e);
    if handles.len() < cap && granted(calls) {
        if region is None {
            assert(calls[0] == ChrdevCall::AllocRegion {
                baseminor: minors_start as u32, count: cap as u32, name, rc: e.region_rc, dev: e.region_dev });
        }
        let k: int = if region is None { 1 } else { 0 };
        assert(calls[k] == ChrdevCall::CdevAlloc { cdev: e.cdev });
        if e.cdev != 0 {
            assert(calls[k + 2] == ChrdevCall::CdevAdd {
                cdev: e.cdev, dev: (if region is Some { region->0 } else { e.region_dev } + handles.len()) as u32,
                count: 1, rc: e.add_rc });
        }
    }
}

/// The results of a run of `register` calls, one per reply in `replies`,
/// with the range and the handles afterwards.
pub open spec fn register_run(cap: nat, region: Option<u32>, handles: Seq<usize>, replies: Seq<RegisterReplies>)
    -> (Seq<KernelResult<()>>, Option<u32>, Seq<usize>)
    decreases replies.len(),
{
    if replies.len() == 0 {
        (Seq::empty(), region, handles)
    } else {
        let step = register_spec(cap, region, handles, replies[0]);
        let rest = register_run(cap, step.1, step.2, replies.drop_first());
        (seq![step.0] + rest.0, rest.1, rest.2)
    }
}

/// Whether the kernel grants every call of a `register` that receives
/// `e`.
pub open spec fn replies_succeed(e: RegisterReplies) -> bool {
    e.region_rc == 0 && e.cdev != 0 && e.add_rc == 0
}

proof fn lemma_register_run_reserved(cap: nat, dev: u32, handles: Seq<usize>, replies: Seq<RegisterReplies>)
    requires
        dev + cap <= u32::MAX + 1,
        handles.len() <= cap,
        handles.len() + replies.len() == cap + 1,
        forall|i: int| 0 <= i < replies.len() ==> replies_succeed(#[trigger] replies[i]),
    ensures
        ({
            let run = register_run(cap, Some(dev), handles, replies);
            &&& run.0.len() == replies.len()
            &&& forall|i: int| 0 <= i < replies.len() - 1 ==> #[trigger] run.0[i] is Ok
            &&& run.0.last() == Err::<(), Error>(error_of(EINVAL))
            &&& run.1 == Some(dev)
            &&& run.2.len() == cap
            &&& run.2.take(handles.len() as int) == handles
        }),
    decreases replies.len(),
{
    let step = register_spec(cap, Some(dev), handles, replies[0]);
    if replies.len() == 1 {
        assert(register_run(cap, step.1, step.2, replies.drop_first()).0 =~= Seq::<KernelResult<()>>::empty());
        assert(step.2.take(handles.len() as int) =~= handles);
    } else {
        assert(replies_succeed(replies[0]));
        let rest = replies.drop_first();
        assert forall|i: int| 0 <= i < rest.len() implies replies_succeed(#[trigger] rest[i]) by {
            assert(rest[i] == replies[i + 1]);
        }
        lemma_register_run_reserved(cap, dev, step.2, rest);
        let tail = register_run(cap, step.1, step.2, rest);
        let run = register_run(cap, Some(dev), handles, replies);
        assert(run.0 == seq![step.0] + tail.0);
        assert forall|i: int| 0 <= i < replies.len() - 1 implies #[trigger] run.0[i] is Ok by {
            if i > 0 {
                assert(run.0[i] == tail.0[i - 1]);
            }
        }
        assert(tail.2.take(step.2.len() as int).take(handles.len() as int) =~= tail.2.take(handles.len() as int));
        assert(step.2.take(handles.len() as int) =~= handles);
    }
}

/// A registration of capacity `N` accepts exactly `N` devices: starting
/// from a new registration, while the kernel grants every call, the first
/// `N` calls of `register` succeed, the next one fails with `EINVAL`, and
/// the failed call leaves the range and the `N` devices as they were.
pub proof fn lemma_register_fills_capacity(cap: nat, replies: Seq<RegisterReplies>)
    requires
        1 <= cap <= u32::MAX,
        replies.len() == cap + 1,
        replies[0].region_dev + cap <= u32::MAX + 1,
        forall|i: int| 0 <= i < replies.len() ==> replies_succeed(#[trigger] replies[i]),
    ensures
        ({
            let run = register_run(cap, None, Seq::empty(), replies);
            let full = register_run(cap, None, Seq::empty(), replies.take(cap as int));
            &&& run.0.len() == cap + 1
            &&& forall|i: int| 0 <= i < cap ==> #[trigger] run.0[i] is Ok
            &&& run.0[cap as int] == Err::<(), Error>(error_of(EINVAL))
            &&& full.2.len() == cap
            &&& run.1 == full.1
            &&& run.2 == full.2
        }),
{
    let dev = replies[0].region_dev;
    let step = register_spec(cap, None, Seq::empty(), replies[0]);
    assert(replies_succeed(replies[0]));
    assert(step.1 == Some(dev));
    let rest = replies.drop_first();
    assert forall|i: int| 0 <= i < rest.len() implies replies_succeed(#[trigger] rest[i]) by {
        assert(rest[i] == replies[i + 1]);
    }
    lemma_register_run_reserved(cap, dev, step.2, rest);
    let run = register_run(cap, None, Seq::empty(), replies);
    let tail = register_run(cap, step.1, step.2, rest);
    assert(run.0 == seq![step.0] + tail.0);
    assert forall|i: int| 0 <= i < cap implies #[trigger] run.0[i] is Ok by {
        if i > 0 {
            assert(run.0[i] == tail.0[i - 1]);
        }
    }
    assert(run.0[cap as int] == tail.0[cap - 1]);
    lemma_register_run_prefix(cap, dev, step.2, rest);
    let short = replies.take(cap as int);
    assert(short.drop_first() =~= rest.take(cap - 1));
    assert(short[0] == replies[0]);
}

proof fn lemma_register_run_prefix(cap: nat, dev: u32, handles: Seq<usize>, replies: Seq<RegisterReplies>)
    requires
        dev + cap <= u32::MAX + 1,
        handles.len() <= cap,
        handles.len() + replies.len() == cap + 1,
        replies.len() >= 1,
        forall|i: int| 0 <= i < replies.len() ==> replies_succeed(#[trigger] replies[i]),
    ensures
        ({
            let run = register_run(cap, Some(dev), handles, replies);
            let short = register_run(cap, Some(dev), handles, replies.take(replies.len() - 1));
            &&& short.1 == run.1
            &&& short.2 == run.2
        }),
    decreases replies.len(),
{
    let step = register_spec(cap, Some(dev), handles, replies[0]);
    if replies.len() == 1 {
        assert(replies_succeed(replies[0]));
        assert(replies.take(0) =~= Seq::<RegisterReplies>::empty());
        assert(replies.drop_first() =~= Seq::<RegisterReplies>::empty());
    } else {
        assert(replies_succeed(replies[0]));
        let rest = replies.drop_first();
        assert forall|i: int| 0 <= i < rest.len() implies replies_succeed(#[trigger] rest[i]) by {
            assert(rest[i] == replies[i + 1]);
        }
        lemma_register_run_prefix(cap, dev, step.2, rest);
        let short = replies.take(replies.len() - 1);
        assert(short.drop_first() =~= rest.take(rest.len() - 1));
        assert(short[0] == replies[0]);
    }
}

/// The handles that the successful calls of a run added, in order: the
/// handle of step `i` where result `i` is `Ok`.
pub open spec fn ok_handles(results: Seq<KernelResult<()>>, replies: Seq<RegisterReplies>) -> Seq<usize>
    decreases replies.len(),
{
    if replies.len() == 0 || results.len() == 0 {
        Seq::empty()
    } else {
        let first = if results[0] is Ok { seq![replies[0].cdev] } else { Seq::empty() };
        first + ok_handles(results.drop_first(), replies.drop_first())
    }
}

/// Within one `register` call, a device object that was allocated either
/// ends up registered (the call succeeded and its handle was added) or
/// was removed again as the last call of the same `register`.
pub proof fn lemma_register_no_leak(
    cap: nat,
    region: Option<u32>,
    handles: Seq<usize>,
    minors_start: u16,
    name: &'static [u8],
    fops: usize,
    owner: usize,
    e: RegisterReplies,
)
    ensures
        ({
            let calls = register_calls(cap, region, handles, minors_start, name, fops, owner, e);
            let out = register_spec(cap, region, handles, e);
            calls.contains(ChrdevCall::CdevAlloc { cdev: e.cdev }) && e.cdev != 0 ==> {
                ||| out.0 is Ok && out.2 == handles.push(e.cdev)
                ||| calls.last() == (ChrdevCall::CdevDel { cdev: e.cdev }) && out.2 == handles
            }
        }),
{
    let calls = register_calls(cap, region, handles, minors_start, name, fops, owner, e);
    if calls.contains(ChrdevCall::CdevAlloc { cdev: e.cdev }) && e.cdev != 0 {
        let i = choose|i: int| 0 <= i < calls.len() && calls[i] == ChrdevCall::CdevAlloc { cdev: e.cdev };
        assert(calls[i] is CdevAlloc);
    }
}

/// Over a run of `register` calls, the devices held afterwards are
/// exactly those that the successful calls added, in order, after the
/// ones held before; a reserved range stays reserved. Teardown then
/// removes exactly those devices and releases the range last (see
/// [`lemma_teardown_order`]).
pub proof fn lemma_register_run_handles(cap: nat, region: Option<u32>, handles: Seq<usize>, replies: Seq<RegisterReplies>)
    ensures
        ({
            let run = register_run(cap, region, handles, replies);
            &&& run.2 == handles + ok_handles(run.0, replies)
            &&& region is Some ==> run.1 == region
        }),
    decreases replies.len(),
{
    let run = register_run(cap, region, handles, replies);
    if replies.len() == 0 {
        assert(handles + Seq::<usize>::empty() =~= handles);
    } else {
        let step = register_spec(cap, region, handles, replies[0]);
        let rest = replies.drop_first();
        lemma_register_run_handles(cap, step.1, step.2, rest);
        let tail = register_run(cap, step.1, step.2, rest);
        assert(run.0 == seq![step.0] + tail.0);
        assert(run.0.drop_first() =~= tail.0);
        assert(run.0[0] == step.0);
        if step.0 is Ok {
            assert(step.2 == handles.push(replies[0].cdev));
            assert(run.2 =~= handles + ok_handles(run.0, replies));
        } else {
            assert(step.2 == handles);
            assert(run.2 =~= handles + ok_handles(run.0, replies));
        }
    }
}

impl<const N: usize> Registration<N> {
    /// The first number of the reserved range, once reserved.
    pub closed spec fn region(&self) -> Option<u32> {
        match self.inner {
            None => None,
            Some(inner) => Some(inner.dev),
        }
    }

    /// The handles of the registered devices, in order of registration.
    pub closed spec fn handles(&self) -> Seq<usize> {
        match self.inner {
            None => Seq::empty(),
            Some(inner) => inner.cdevs@.map_values(|c: Cdev| c.0),
        }
    }

    /// The first minor number that the range asks for.
    pub closed spec fn minors_start(&self) -> u16 {
        self.minors_start
    }

    /// The name that the range is reserved under.
    pub closed spec fn spec_name(&self) -> &'static [u8] {
        self.name
    }

    /// The module that owns the devices.
    pub closed spec fn spec_module(&self) -> ThisModule {
        *self.this_module
    }

    /// Well-formedness: no devices without a range, at most `N` devices,
    /// and every handle non-null.
    pub closed spec fn wf(&self) -> bool {
        match self.inner {
            None => true,
            Some(inner) => {
                &&& N <= u32::MAX
                &&& inner.cdevs.len() <= N
                &&& forall|i: int| 0 <= i < inner.cdevs.len() ==> #[trigger] inner.cdevs@[i].0 != 0
            },
        }
    }

    /// What well-formedness promises callers: no devices without a range,
    /// at most `N` devices, and only non-null handles.
    pub proof fn lemma_wf(&self)
        requires
            self.wf(),
        ensures
            self.region() is None ==> self.handles().len() == 0,
            self.handles().len() <= N,
            forall|i: int| 0 <= i < self.handles().len() ==> #[trigger] self.handles()[i] != 0,
    {
    }

    /// Creates a [`Registration`] object for a character device.
    ///
    /// This does *not* register the device: see [`Self::register()`].
    pub fn new(name: &'static [u8], minors_start: u16, this_module: &'static ThisModule) -> (r: Self)
        ensures
            r.wf(),
            r.region() is None,
            r.handles() == Seq::<usize>::empty(),
            r.minors_start() == minors_start,
            r.spec_name() == name,
            r.spec_module() == *this_module,
    {
        Registration { name, minors_start, this_module, inner: None }
    }

    /// Registers a character device bound to the dispatch table at `fops`.
    ///
    /// The first call reserves the range of `N` device numbers; every call
    /// then adds one device, up to `N` of them. The kernel calls made are
    /// exactly [`register_calls`], and the result, range and devices
    /// afterwards are [`register_spec`], for the replies recorded in them.
    pub fn register<E: ChrdevEnv>(&mut self, env: &mut E, fops: usize) -> (r: KernelResult<()>)
        requires
            old(self).wf(),
        ensures
            final(self).wf(),
            final(self).minors_start() == old(self).minors_start(),
            final(self).spec_name() == old(self).spec_name(),
            final(self).spec_module() == old(self).spec_module(),
            exists|e: RegisterReplies|
                #[trigger] register_spec(N as nat, old(self).region(), old(self).handles(), e)
                    == (r, final(self).region(), final(self).handles())
                && final(env).calls() == old(env).calls() + register_calls(
                    N as nat,
                    old(self).region(),
                    old(self).handles(),
                    old(self).minors_start(),
                    old(self).spec_name(),
                    fops,
                    old(self).spec_module().0,
                    e,
                ),
    {
        let ghost mut e = RegisterReplies { region_rc: 0, region_dev: 0, cdev: 1, add_rc: 0 };
        let ghost r0 = self.region();
        let ghost h0 = self.handles();
        let ghost c0 = env.calls();
        let ghost owner = self.this_module.0;
        if self.inner.is_none() {
            if N > u32::MAX as usize {
                assert(register_spec(N as nat, r0, h0, e) == (Err::<(), Error>(error_of(EINVAL)), r0, h0));
                assert(env.calls() =~= c0 + register_calls(N as nat, r0, h0, self.minors_start, self.name, fops, owner, e));
                return Err(Error(-EINVAL));
            }
            let mut dev: u32 = 0;
            let res = env.alloc_chrdev_region(&mut dev, self.minors_start as u32, N as u32, self.name);
            proof {
                e.region_rc = res;
                e.region_dev = dev;
            }
            if res != 0 {
                assert(register_spec(N as nat, r0, h0, e) == (Err::<(), Error>(Error(res)), r0, h0));
                assert(env.calls() =~= c0 + register_calls(N as nat, r0, h0, self.minors_start, self.name, fops, owner, e));
                return Err(Error::from_kernel_errno(res));
            }
            self.inner = Some(RegistrationInner { dev, cdevs: Vec::new() });
            assert(self.handles() =~= Seq::<usize>::empty());
        }
        let ghost pre = *self;
        let ghost reserve = env.calls().skip(c0.len() as int);
        assert(env.calls() =~= c0 + reserve);
        let inner = self.inner.as_mut().unwrap();
        if inner.cdevs.len() == N {
            assert(register_spec(N as nat, r0, h0, e) == (Err::<(), Error>(error_of(EINVAL)), pre.region(), pre.handles()));
            assert(register_calls(N as nat, r0, h0, pre.minors_start, pre.name, fops, owner, e) =~= reserve);
            return Err(Error(-EINVAL));
        }
        let used = inner.cdevs.len() as u32;
        let devno = match inner.dev.checked_add(used) {
            Some(d) => d,
            None => {
                assert(register_spec(N as nat, r0, h0, e) == (Err::<(), Error>(error_of(EINVAL)), pre.region(), pre.handles()));
                assert(register_calls(N as nat, r0, h0, pre.minors_start, pre.name, fops, owner, e) =~= reserve);
                return Err(Error(-EINVAL));
            },
        };
        let (alloc, Ghost(handle)) = Cdev::allocate(env, fops, self.this_module);
        proof {
            e.cdev = handle;
        }
        let mut cdev = match alloc {
            Ok(c) => c,
            Err(err) => {
                assert(register_spec(N as nat, r0, h0, e) == (Err::<(), Error>(error_of(ENOMEM)), pre.region(), pre.handles()));
                assert(env.calls() =~= c0 + register_calls(N as nat, r0, h0, pre.minors_start, pre.name, fops, owner, e));
                return Err(err);
            },
        };
        let (added, Ghost(rc)) = cdev.add(env, devno, 1);
        proof {
            e.add_rc = rc;
        }
        if let Err(err) = added {
            // Release the device object before reporting the failure.
            cdev.delete(env);
            assert(register_spec(N as nat, r0, h0, e) == (Err::<(), Error>(Error(rc)), pre.region(), pre.handles()));
            assert(env.calls() =~= c0 + register_calls(N as nat, r0, h0, pre.minors_start, pre.name, fops, owner, e));
            return Err(err);
        }
        inner.cdevs.push(cdev);
        proof {
            assert(self.handles() =~= pre.handles().push(handle));
            assert(register_spec(N as nat, r0, h0, e) == (Ok::<(), Error>(()), self.region(), self.handles()));
            assert(env.calls() =~= c0 + register_calls(N as nat, r0, h0, pre.minors_start, pre.name, fops, owner, e));
        }
        Ok(())
    }

    /// Tears the registration down: removes every registered device, in
    /// order of registration, and only then releases the range of device
    /// numbers. Returns the calls it made, in order.
    pub fn teardown<E: ChrdevEnv>(self, env: &mut E) -> (steps: Vec<TeardownStep>)
        requires
            self.wf(),
        ensures
            steps@ == teardown_spec(N as u32, self.region(), self.handles()),
            final(env).calls() == old(env).calls() + steps@.map_values(|s: TeardownStep| step_call(s)),
    {
        let ghost c0 = env.calls();
        let mut steps: Vec<TeardownStep> = Vec::new();
        match self.inner {
            None => {
                assert(steps@ =~= teardown_spec(N as u32, self.region(), self.handles()));
                assert(env.calls() =~= c0 + steps@.map_values(|s: TeardownStep| step_call(s)));
            },
            Some(inner) => {
                let ghost handles = self.handles();
                let mut i: usize = 0;
                while i < inner.cdevs.len()
                    invariant
                        i <= inner.cdevs.len(),
                        env.calls() == c0 + steps@.map_values(|s: TeardownStep| step_call(s)),
                        handles == inner.cdevs@.map_values(|c: Cdev| c.0),
                        steps@ == handles.take(i as int).map_values(|h: usize| TeardownStep::DeleteCdev(h)),
                    decreases inner.cdevs.len() - i,
                {
                    let h = inner.cdevs[i].0;
                    env.cdev_del(h);
                    steps.push(TeardownStep::DeleteCdev(h));
                    i = i + 1;
                    assert(handles.take(i as int) =~= handles.take(i - 1).push(h));
                    assert(steps@ =~= handles.take(i as int).map_values(|h: usize| TeardownStep::DeleteCdev(h)));
                    assert(env.calls() =~= c0 + steps@.map_values(|s: TeardownStep| step_call(s)));
                }
                env.unregister_chrdev_region(inner.dev, N as u32);
                steps.push(TeardownStep::ReleaseRegion { dev: inner.dev, count: N as u32 });
                assert(handles.take(i as int) =~= handles);
                assert(env.calls() =~= c0 + steps@.map_values(|s: TeardownStep| step_call(s)));
            },
        }
        steps
    }
}

} // verus!
