//! Clock-signal capability types.
//!
//! A peripheral that is clocked from one of the system clocks takes a
//! borrow of the matching capability as proof that the clock has been
//! configured by the clock component.

use vstd::prelude::*;

verus! {

/// Proof that the sub-main clock (SMCLK) has been configured.
pub struct Smclk {
    _priv: (),
}

impl Smclk {
    /// Unchecked: claims that the sub-main clock is configured.
    pub fn new() -> (clk: Smclk) {
        Smclk { _priv: () }
    }
}

/// Proof that the auxiliary clock (ACLK) has been configured.
pub struct Aclk {
    _priv: (),
}

impl Aclk {
    /// Unchecked: claims that the auxiliary clock is configured.
    pub fn new() -> (clk: Aclk) {
        Aclk { _priv: () }
    }
}

} // verus!
