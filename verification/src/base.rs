//! The base capability interface every driver implements.

use vstd::prelude::*;

use crate::types::DeviceType;

verus! {

/// Operations common to all device categories.
///
/// Both observables are pure and stable: they depend only on the
/// instance and never change over its lifetime, which the `ensures`
/// clauses state by tying each call to a spec-level view of the
/// instance.
pub trait BaseDriverOps {
    /// The category this instance belongs to, as a spec-level value.
    spec fn spec_device_type(&self) -> DeviceType;

    /// The human-readable driver name, as a spec-level value.
    spec fn spec_device_name(&self) -> Seq<char>;

    /// Returns the category of this device.
    fn device_type(&self) -> (t: DeviceType)
        ensures
            t == self.spec_device_type(),
    ;

    /// Returns the name of this device.
    fn device_name(&self) -> (n: &'static str)
        ensures
            n@ == self.spec_device_name(),
    ;
}

} // verus!
