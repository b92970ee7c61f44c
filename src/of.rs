//! Devicetree and Open Firmware match tables.
//!
//! A match table is a sequence of [`OfDeviceId`] entries that ends with one
//! all-zero sentinel entry.
use vstd::prelude::*;

use crate::error::{error_of, Error, KernelResult, EINVAL};

verus! {

/// Size of the `name` buffer of an entry.
pub const OF_NAME_LEN: usize = 32;

/// Size of the `type_` buffer of an entry.
pub const OF_TYPE_LEN: usize = 32;

/// Size of the `compatible` buffer of an entry, terminating nul included.
pub const OF_COMPATIBLE_LEN: usize = 128;

/// `n` zero bytes.
pub open spec fn zeros(n: nat) -> Seq<u8> {
    Seq::new(n, |i: int| 0u8)
}

/// Whether a compatible string fits in an entry with its terminating nul.
pub open spec fn fits_compatible(s: Seq<u8>) -> bool {
    s.len() < OF_COMPATIBLE_LEN
}

/// One entry of a match table: fixed-size, nul-padded buffers and an
/// opaque payload address (zero for none).
pub struct OfDeviceId {
    pub name: Vec<u8>,
    pub type_: Vec<u8>,
    pub compatible: Vec<u8>,
    pub data: usize,
}

impl OfDeviceId {
    /// The all-zero entry that ends a table.
    pub open spec fn is_zeroed(&self) -> bool {
        &&& self.name@ == zeros(OF_NAME_LEN as nat)
        &&& self.type_@ == zeros(OF_TYPE_LEN as nat)
        &&& self.compatible@ == zeros(OF_COMPATIBLE_LEN as nat)
        &&& self.data == 0
    }

    /// The entry that matches the compatible string `s`: `s` followed by
    /// nul bytes, and everything else zero.
    pub open spec fn matches_compatible(&self, s: Seq<u8>) -> bool {
        &&& self.name@ == zeros(OF_NAME_LEN as nat)
        &&& self.type_@ == zeros(OF_TYPE_LEN as nat)
        &&& self.compatible@ == s + zeros((OF_COMPATIBLE_LEN - s.len()) as nat)
        &&& self.data == 0
    }
}

/// A kernel Open Firmware / devicetree match table: its entries, then the
/// all-zero sentinel.
pub struct OfMatchTable {
    entries: Vec<OfDeviceId>,
}

impl OfMatchTable {
    /// The entries, sentinel included.
    pub closed spec fn entries(&self) -> Seq<OfDeviceId> {
        self.entries@
    }

    /// Returns the table as a sentinel-terminated sequence of entries,
    /// suitable for a driver's `of_match_table`.
    pub fn as_ptr(&self) -> (r: &[OfDeviceId])
        ensures
            r@ == self.entries(),
    {
        self.entries.as_slice()
    }
}

/// An Open Firmware match table of `N` compatible strings.
///
/// # Invariants
///
/// The entry after the `N` compatible strings is the all-zero sentinel.
pub struct ConstOfMatchTable<const N: usize> {
    table: OfMatchTable,
}

impl<const N: usize> ConstOfMatchTable<N> {
    /// The table.
    pub closed spec fn spec_table(&self) -> OfMatchTable {
        self.table
    }

    /// Returns the all-zero entry.
    pub fn zeroed_of_device_id() -> (r: OfDeviceId)
        ensures
            r.is_zeroed(),
    {
        let name = vec![0u8; OF_NAME_LEN];
        let type_ = vec![0u8; OF_TYPE_LEN];
        let compatible = vec![0u8; OF_COMPATIBLE_LEN];
        let r = OfDeviceId { name, type_, compatible, data: 0 };
        assert(r.name@ =~= zeros(OF_NAME_LEN as nat));
        assert(r.type_@ =~= zeros(OF_TYPE_LEN as nat));
        assert(r.compatible@ =~= zeros(OF_COMPATIBLE_LEN as nat));
        r
    }

    /// Builds the entry for the compatible string `compatible` (without its
    /// nul). Fails with `EINVAL` where the string and its nul do not fit.
    pub fn new_of_device_id(compatible: &[u8]) -> (r: KernelResult<OfDeviceId>)
        ensures
            fits_compatible(compatible@) <==> r is Ok,
            r is Ok ==> r->Ok_0.matches_compatible(compatible@),
            r is Err ==> r->Err_0 == error_of(EINVAL),
    {
        if compatible.len() >= OF_COMPATIBLE_LEN {
            return Err(Error(-EINVAL));
        }
        let mut id = Self::zeroed_of_device_id();
        let mut i: usize = 0;
        while i < compatible.len()
            invariant
                i <= compatible.len() < OF_COMPATIBLE_LEN,
                id.name@ == zeros(OF_NAME_LEN as nat),
                id.type_@ == zeros(OF_TYPE_LEN as nat),
                id.data == 0,
                id.compatible@.len() == OF_COMPATIBLE_LEN,
                forall|j: int| 0 <= j < i ==> #[trigger] id.compatible@[j] == compatible@[j],
                forall|j: int| i <= j < OF_COMPATIBLE_LEN ==> #[trigger] id.compatible@[j] == 0,
            decreases compatible.len() - i,
        {
            id.compatible.set(i, compatible[i]);
            i = i + 1;
        }
        assert(id.compatible@ =~= compatible@ + zeros((OF_COMPATIBLE_LEN - compatible@.len()) as nat));
        Ok(id)
    }

    /// Creates a new Open Firmware match table from a list of compatible
    /// strings (without their nul). Fails with `EINVAL`, building nothing,
    /// where one of them does not fit in an entry.
    pub fn new_const(compatibles: [&[u8]; N]) -> (r: KernelResult<Self>)
        ensures
            (forall|i: int| 0 <= i < N ==> fits_compatible(#[trigger] compatibles[i]@)) <==> r is Ok,
            r is Ok ==> {
                let entries = r->Ok_0.spec_table().entries();
                &&& entries.len() == N + 1
                &&& forall|i: int| 0 <= i < N ==> #[trigger] entries[i].matches_compatible(compatibles[i]@)
                &&& entries[N as int].is_zeroed()
            },
            r is Err ==> r->Err_0 == error_of(EINVAL),
    {
        let mut entries: Vec<OfDeviceId> = Vec::new();
        let mut i: usize = 0;
        while i < N
            invariant
                i <= N,
                entries.len() == i,
                forall|j: int| 0 <= j < i ==> fits_compatible(#[trigger] compatibles[j]@),
                forall|j: int| 0 <= j < i ==> #[trigger] entries@[j].matches_compatible(compatibles[j]@),
            decreases N - i,
        {
            let id = match Self::new_of_device_id(compatibles[i]) {
                Ok(id) => id,
                Err(e) => {
                    return Err(e);
                },
            };
            entries.push(id);
            i = i + 1;
        }
        entries.push(Self::zeroed_of_device_id());
        Ok(ConstOfMatchTable { table: OfMatchTable { entries } })
    }

    /// Gives up the builder and keeps the table.
    pub fn into_table(self) -> (r: OfMatchTable)
        ensures
            r == self.spec_table(),
    {
        self.table
    }

    /// Returns the table.
    pub fn table(&self) -> (r: &OfMatchTable)
        ensures
            *r == self.spec_table(),
    {
        &self.table
    }
}

} // verus!
