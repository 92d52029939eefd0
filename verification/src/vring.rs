//! The rings of a device, as the loops see them.

use vstd::prelude::*;

verus! {

/// A ring of a device.
pub trait VringT: Send + Sync {
    /// The ring answers without a panic when it is asked whether it is enabled.
    ///
    /// A ring that says nothing may panic.
    open spec fn answers(&self) -> bool {
        false
    }

    /// The frontend has enabled the ring.
    fn is_enabled(&self) -> (enabled: bool)
        no_unwind when self.answers()
    ;
}

/// The ring that the number `vring` names among `vrings` has been seen enabled.
pub open spec fn seen_enabled<V: VringT>(vring: u16, vrings: Seq<V>) -> bool {
    exists|index: int|
        {
            &&& 0 <= index < vrings.len()
            &&& index as u16 == vring
            &&& #[trigger] call_ensures(V::is_enabled, (&vrings[index],), true)
        }
}

/// A ring counts as seen enabled only where one of the rings, which the number names, said so.
pub proof fn law_enabled_rings_said_so<V: VringT>(vring: u16, vrings: Seq<V>)
    requires
        seen_enabled(vring, vrings),
    ensures
        exists|index: int|
            {
                &&& 0 <= index < vrings.len()
                &&& index as u16 == vring
                &&& #[trigger] call_ensures(V::is_enabled, (&vrings[index],), true)
            },
{
}

} // verus!
