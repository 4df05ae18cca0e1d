//! The cockpit-facing pieces: the autobrake selector knob positions, the
//! armed-mode values, the panel snapshot the controller reads each tick, and
//! the solenoid that asks the physical knob to fall back to the disarmed
//! position.

use vstd::prelude::*;

verus! {

/// The position of the autobrake selector knob. Encoded on the signal bus
/// as 0 through 5, in declaration order.
#[derive(Clone, Copy, PartialEq, Eq, Structural, Debug)]
pub enum A380AutobrakeKnobPosition {
    DISARM,
    BTV,
    LOW,
    L2,
    L3,
    HIGH,
}

impl A380AutobrakeKnobPosition {
    pub open spec fn from_code_spec(code: u8) -> A380AutobrakeKnobPosition {
        match code {
            0u8 => A380AutobrakeKnobPosition::DISARM,
            1u8 => A380AutobrakeKnobPosition::BTV,
            2u8 => A380AutobrakeKnobPosition::LOW,
            3u8 => A380AutobrakeKnobPosition::L2,
            4u8 => A380AutobrakeKnobPosition::L3,
            5u8 => A380AutobrakeKnobPosition::HIGH,
            _ => A380AutobrakeKnobPosition::DISARM,
        }
    }

    /// Decodes a bus value; unknown codes fall back to the disarmed position.
    pub fn from_code(code: u8) -> (r: A380AutobrakeKnobPosition)
        ensures
            r == A380AutobrakeKnobPosition::from_code_spec(code),
    {
        match code {
            0 => A380AutobrakeKnobPosition::DISARM,
            1 => A380AutobrakeKnobPosition::BTV,
            2 => A380AutobrakeKnobPosition::LOW,
            3 => A380AutobrakeKnobPosition::L2,
            4 => A380AutobrakeKnobPosition::L3,
            5 => A380AutobrakeKnobPosition::HIGH,
            _ => A380AutobrakeKnobPosition::DISARM,
        }
    }

    pub open spec fn code_spec(self) -> u8 {
        match self {
            A380AutobrakeKnobPosition::DISARM => 0u8,
            A380AutobrakeKnobPosition::BTV => 1u8,
            A380AutobrakeKnobPosition::LOW => 2u8,
            A380AutobrakeKnobPosition::L2 => 3u8,
            A380AutobrakeKnobPosition::L3 => 4u8,
            A380AutobrakeKnobPosition::HIGH => 5u8,
        }
    }

    pub fn code(self) -> (r: u8)
        ensures
            r == self.code_spec(),
    {
        match self {
            A380AutobrakeKnobPosition::DISARM => 0,
            A380AutobrakeKnobPosition::BTV => 1,
            A380AutobrakeKnobPosition::LOW => 2,
            A380AutobrakeKnobPosition::L2 => 3,
            A380AutobrakeKnobPosition::L3 => 4,
            A380AutobrakeKnobPosition::HIGH => 5,
        }
    }
}

/// The authoritative armed state: the knob positions plus the transient
/// rejected-takeoff mode, which no knob position selects directly. Encoded
/// on the signal bus as 0 through 6, in declaration order.
#[derive(Clone, Copy, PartialEq, Eq, Structural, Debug)]
pub enum A380AutobrakeMode {
    DISARM,
    BTV,
    LOW,
    L2,
    L3,
    HIGH,
    RTO,
}

impl A380AutobrakeMode {
    pub open spec fn from_code_spec(code: u8) -> A380AutobrakeMode {
        match code {
            0u8 => A380AutobrakeMode::DISARM,
            1u8 => A380AutobrakeMode::BTV,
            2u8 => A380AutobrakeMode::LOW,
            3u8 => A380AutobrakeMode::L2,
            4u8 => A380AutobrakeMode::L3,
            5u8 => A380AutobrakeMode::HIGH,
            6u8 => A380AutobrakeMode::RTO,
            _ => A380AutobrakeMode::DISARM,
        }
    }

    /// Decodes a bus value; unknown codes fall back to the disarmed mode.
    pub fn from_code(code: u8) -> (r: A380AutobrakeMode)
        ensures
            r == A380AutobrakeMode::from_code_spec(code),
    {
        match code {
            0 => A380AutobrakeMode::DISARM,
            1 => A380AutobrakeMode::BTV,
            2 => A380AutobrakeMode::LOW,
            3 => A380AutobrakeMode::L2,
            4 => A380AutobrakeMode::L3,
            5 => A380AutobrakeMode::HIGH,
            6 => A380AutobrakeMode::RTO,
            _ => A380AutobrakeMode::DISARM,
        }
    }

    pub open spec fn code_spec(self) -> u8 {
        match self {
            A380AutobrakeMode::DISARM => 0u8,
            A380AutobrakeMode::BTV => 1u8,
            A380AutobrakeMode::LOW => 2u8,
            A380AutobrakeMode::L2 => 3u8,
            A380AutobrakeMode::L3 => 4u8,
            A380AutobrakeMode::HIGH => 5u8,
            A380AutobrakeMode::RTO => 6u8,
        }
    }

    pub fn code(self) -> (r: u8)
        ensures
            r == self.code_spec(),
    {
        match self {
            A380AutobrakeMode::DISARM => 0,
            A380AutobrakeMode::BTV => 1,
            A380AutobrakeMode::LOW => 2,
            A380AutobrakeMode::L2 => 3,
            A380AutobrakeMode::L3 => 4,
            A380AutobrakeMode::HIGH => 5,
            A380AutobrakeMode::RTO => 6,
        }
    }

    /// The landing family: every armed mode that tracks a deceleration
    /// profile or the brake-to-vacate target, as opposed to the fixed
    /// rejected-takeoff plateau.
    pub open spec fn is_landing_family(self) -> bool {
        match self {
            A380AutobrakeMode::LOW
            | A380AutobrakeMode::L2
            | A380AutobrakeMode::L3
            | A380AutobrakeMode::HIGH
            | A380AutobrakeMode::BTV => true,
            _ => false,
        }
    }
}

/// What the controller reads from the autobrake panel each tick: the knob
/// position, whether it changed since the previous read, and whether the
/// rejected-takeoff pushbutton fired this tick.
#[derive(Clone, Copy, PartialEq, Eq, Structural, Debug)]
pub struct A380AutobrakePanel {
    pub selected_mode: A380AutobrakeKnobPosition,
    pub mode_has_changed: bool,
    pub rto_button_pressed: bool,
}

impl A380AutobrakePanel {
    pub fn new() -> (r: A380AutobrakePanel)
        ensures
            r.selected_mode == A380AutobrakeKnobPosition::DISARM,
            r.mode_has_changed,
            !r.rto_button_pressed,
    {
        A380AutobrakePanel {
            selected_mode: A380AutobrakeKnobPosition::DISARM,
            mode_has_changed: true,
            rto_button_pressed: false,
        }
    }

    pub fn selected_mode(&self) -> (r: A380AutobrakeKnobPosition)
        ensures
            r == self.selected_mode,
    {
        self.selected_mode
    }

    pub fn selected_mode_has_changed(&self) -> (r: bool)
        ensures
            r == self.mode_has_changed,
    {
        self.mode_has_changed
    }

    pub fn rto_pressed(&self) -> (r: bool)
        ensures
            r == self.rto_button_pressed,
    {
        self.rto_button_pressed
    }

    /// Absorbs one bus read: the change flag is set exactly when the new
    /// knob position differs from the stored one.
    pub fn read_signals(&mut self, new_mode: A380AutobrakeKnobPosition, rto_pressed: bool)
        ensures
            final(self).selected_mode == new_mode,
            final(self).mode_has_changed == (old(self).selected_mode != new_mode),
            final(self).rto_button_pressed == rto_pressed,
    {
        self.mode_has_changed = self.selected_mode != new_mode;
        self.selected_mode = new_mode;
        self.rto_button_pressed = rto_pressed;
    }
}

/// The solenoid that pulls the physical knob back to the disarmed position.
/// It honours a disarm request only while its electrical bus is powered.
#[derive(Clone, Copy, PartialEq, Eq, Structural, Debug)]
pub struct A380AutobrakeKnobSelectorSolenoid {
    pub is_powered: bool,
    pub disarm_request: bool,
}

impl A380AutobrakeKnobSelectorSolenoid {
    pub fn new() -> (r: A380AutobrakeKnobSelectorSolenoid)
        ensures
            r.is_powered,
            !r.disarm_request,
    {
        A380AutobrakeKnobSelectorSolenoid { is_powered: true, disarm_request: false }
    }

    pub fn disarm(&mut self, solenoid_should_disarm: bool)
        ensures
            final(self).is_powered == old(self).is_powered,
            final(self).disarm_request == (old(self).is_powered && solenoid_should_disarm),
    {
        self.disarm_request = self.is_powered && solenoid_should_disarm;
    }

    pub fn receive_power(&mut self, is_powered: bool)
        ensures
            final(self).is_powered == is_powered,
            final(self).disarm_request == old(self).disarm_request,
    {
        self.is_powered = is_powered;
    }
}

} // verus!
