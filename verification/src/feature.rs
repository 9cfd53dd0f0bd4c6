//! Standard feature selectors
//!
//! See table 9-6 of (USB2)

use vstd::prelude::*;

verus! {

/// ENDPOINT_HALT feature selector
pub const ENDPOINT_HALT: u16 = 0;

/// DEVICE_REMOTE_WAKEUP feature selector
pub const DEVICE_REMOTE_WAKEUP: u16 = 1;

/// TEST_MODE feature selector
pub const TEST_MODE: u16 = 2;

} // verus!
