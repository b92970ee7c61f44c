//! Safe registration and lifecycle management for kernel-visible device
//! objects: error codes, devicetree match tables, register maps, character
//! device and platform driver registrations, and the binder context-manager
//! slot.
use vstd::prelude::*;

pub mod bcm2835_rng;
pub mod chrdev;
pub mod context;
pub mod error;
pub mod of;
pub mod platdev;
pub mod platform_driver;
pub mod regmap;

verus! {

/// The module that owns a registration, by the address of its kernel
/// `struct module` (zero for built-in code).
#[derive(Clone, Copy, Debug, PartialEq, Eq, Structural)]
pub struct ThisModule(pub usize);

} // verus!
