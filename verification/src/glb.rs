//! Global register view: pad configuration registers of the two hardware
//! generations.
//!
//! The `v1` layout packs the configuration of two adjacent pins into one
//! 32-bit register; the `v2` layout gives every pin a dedicated register.
//! Both are modelled as plain values with contracts that pin down every
//! read-modify-write to the exact bits it may touch.

pub mod v1;
pub mod v2;

use vstd::prelude::*;

verus! {

/// Pin drive strength.
#[derive(Clone, Copy, Debug, PartialEq, Eq, Structural)]
pub enum Drive {
    /// Weakest drive strength.
    Drive0,
    /// Second-weakest drive strength.
    Drive1,
    /// Second-strongest drive strength.
    Drive2,
    /// Strongest drive strength.
    Drive3,
}

impl Drive {
    /// Field encoding of this drive strength.
    pub open spec fn spec_code(self) -> u32 {
        match self {
            Drive::Drive0 => 0,
            Drive::Drive1 => 1,
            Drive::Drive2 => 2,
            Drive::Drive3 => 3,
        }
    }

    /// Drive strength denoted by a two-bit field value.
    pub open spec fn spec_from_code(code: u32) -> Drive {
        if code == 0 {
            Drive::Drive0
        } else if code == 1 {
            Drive::Drive1
        } else if code == 2 {
            Drive::Drive2
        } else {
            Drive::Drive3
        }
    }

    /// Field encoding of this drive strength.
    pub fn code(self) -> (r: u32)
        ensures
            r == self.spec_code(),
            r <= 3,
    {
        match self {
            Drive::Drive0 => 0,
            Drive::Drive1 => 1,
            Drive::Drive2 => 2,
            Drive::Drive3 => 3,
        }
    }

    /// Drive strength denoted by a two-bit field value.
    pub fn from_code(code: u32) -> (r: Drive)
        ensures
            r == Self::spec_from_code(code),
    {
        if code == 0 {
            Drive::Drive0
        } else if code == 1 {
            Drive::Drive1
        } else if code == 2 {
            Drive::Drive2
        } else {
            Drive::Drive3
        }
    }
}

/// Pin pull-resistor state.
#[derive(Clone, Copy, Debug, PartialEq, Eq, Structural)]
pub enum Pull {
    /// No internal pull resistor.
    Floating,
    /// Internal pull-up resistor.
    Up,
    /// Internal pull-down resistor.
    Down,
}

impl Pull {
    /// Field encoding of this pull state.
    pub open spec fn spec_code(self) -> u32 {
        match self {
            Pull::Floating => 0,
            Pull::Up => 1,
            Pull::Down => 2,
        }
    }

    /// Field encoding of this pull state.
    pub fn code(self) -> (r: u32)
        ensures
            r == self.spec_code(),
            r <= 2,
    {
        match self {
            Pull::Floating => 0,
            Pull::Up => 1,
            Pull::Down => 2,
        }
    }
}

} // verus!
