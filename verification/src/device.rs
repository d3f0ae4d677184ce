//! The immutable snapshot record kept for one discovered power device.

use vstd::prelude::*;

verus! {

/// One discovered power-supply device, as captured at the time of the last
/// enumeration pass. The record is a point-in-time snapshot: it is rebuilt
/// whole on every pass and never mutated in place.
#[derive(Debug)]
pub struct Device {
    /// Display model string, queried once at build time.
    pub name: String,
    /// Charge level at build time, in hundredths of a percent (the bus
    /// reports a 0–100 reading; callers hand it in scaled by 100).
    pub percentage: u64,
    /// Resolved display icon identifier.
    pub icon_name: String,
}

impl Clone for Device {
    /// Cloning a descriptor preserves it exactly.
    fn clone(&self) -> (res: Self)
        ensures
            res == *self,
    {
        Device {
            name: self.name.clone(),
            percentage: self.percentage,
            icon_name: self.icon_name.clone(),
        }
    }
}

impl Device {
    /// The descriptor assembly yields a record exactly when both property
    /// reads succeeded.
    pub open spec fn spec_assemble(
        name: Option<String>,
        percentage: Option<u64>,
        icon_name: String,
    ) -> Option<Device> {
        match (name, percentage) {
            (Some(n), Some(p)) => Some(Device { name: n, percentage: p, icon_name }),
            _ => None,
        }
    }

    /// Assembles a descriptor from one device's property reads (`None`
    /// where the read failed). A failed read of the model name or of the
    /// percentage aborts construction for this device only; icon
    /// resolution never fails, so an icon identifier is always at hand.
    pub fn assemble(name: Option<String>, percentage: Option<u64>, icon_name: String) -> (r: Option<
        Device,
    >)
        ensures
            r == Self::spec_assemble(name, percentage, icon_name),
    {
        match (name, percentage) {
            (Some(n), Some(p)) => Some(Device { name: n, percentage: p, icon_name }),
            _ => None,
        }
    }
}

} // verus!
