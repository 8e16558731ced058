//! Registers of the XL-320 motor.

use vstd::prelude::*;

use crate::motors::Register;

verus! {

/// The servo id register.
pub struct ID;

impl Register for ID {
    open spec fn spec_address(&self) -> u16 {
        0x03
    }

    open spec fn spec_width(&self) -> u16 {
        1
    }

    fn address(&self) -> u16 {
        0x03
    }

    fn width(&self) -> u16 {
        1
    }
}

/// The torque-enable register.
pub struct TorqueEnable;

impl Register for TorqueEnable {
    open spec fn spec_address(&self) -> u16 {
        0x18
    }

    open spec fn spec_width(&self) -> u16 {
        1
    }

    fn address(&self) -> u16 {
        0x18
    }

    fn width(&self) -> u16 {
        1
    }
}

/// The present-position register.
pub struct PresentPosition;

impl Register for PresentPosition {
    open spec fn spec_address(&self) -> u16 {
        0x25
    }

    open spec fn spec_width(&self) -> u16 {
        2
    }

    fn address(&self) -> u16 {
        0x25
    }

    fn width(&self) -> u16 {
        2
    }
}

/// The goal-position register.
pub struct GoalPosition;

impl Register for GoalPosition {
    open spec fn spec_address(&self) -> u16 {
        0x1E
    }

    open spec fn spec_width(&self) -> u16 {
        2
    }

    fn address(&self) -> u16 {
        0x1E
    }

    fn width(&self) -> u16 {
        2
    }
}

/// The moving-speed register.
pub struct MovingSpeed;

impl Register for MovingSpeed {
    open spec fn spec_address(&self) -> u16 {
        0x20
    }

    open spec fn spec_width(&self) -> u16 {
        2
    }

    fn address(&self) -> u16 {
        0x20
    }

    fn width(&self) -> u16 {
        2
    }
}

/// The torque-limit register.
pub struct TorqueLimit;

impl Register for TorqueLimit {
    open spec fn spec_address(&self) -> u16 {
        0x23
    }

    open spec fn spec_width(&self) -> u16 {
        2
    }

    fn address(&self) -> u16 {
        0x23
    }

    fn width(&self) -> u16 {
        2
    }
}

} // verus!
