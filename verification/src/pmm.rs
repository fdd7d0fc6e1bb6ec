//! The power-management capability consumed when unlocking pins.

use vstd::prelude::*;

verus! {

/// Proof that the low-power-mode pin lockout has been released system-wide
/// by the power-management component.  Pin handles start locked and borrow
/// this capability to unlock; the release itself is a single system-wide
/// register write performed once by that component, not per pin.
///
/// Obtaining the capability is an unchecked claim, like stealing a port's
/// register capability: all safety comes from the typestate layer above.
pub struct Pmm {
    _priv: (),
}

impl Pmm {
    /// Unchecked: claims that the low-power lockout has been released.
    pub fn new() -> (pmm: Pmm) {
        Pmm { _priv: () }
    }
}

} // verus!
