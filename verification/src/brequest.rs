//! Standard request codes
//!
//! See table 9-4 of (USB2)

use vstd::prelude::*;

verus! {

/// GET_STATUS request code
pub const GET_STATUS: u8 = 0;

/// CLEAR_FEATURE request code
pub const CLEAR_FEATURE: u8 = 1;

/// SET_FEATURE request code
pub const SET_FEATURE: u8 = 3;

/// SET_ADDRESS request code
pub const SET_ADDRESS: u8 = 5;

/// GET_DESCRIPTOR request code
pub const GET_DESCRIPTOR: u8 = 6;

/// SET_DESCRIPTOR request code
pub const SET_DESCRIPTOR: u8 = 7;

/// GET_CONFIGURATION request code
pub const GET_CONFIGURATION: u8 = 8;

/// SET_CONFIGURATION request code
pub const SET_CONFIGURATION: u8 = 9;

/// GET_INTERFACE request code
pub const GET_INTERFACE: u8 = 10;

/// SET_INTERFACE request code
pub const SET_INTERFACE: u8 = 11;

/// SYNCH_FRAME request code
pub const SYNCH_FRAME: u8 = 12;

} // verus!
