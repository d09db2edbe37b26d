//! Small identifier newtypes used throughout the host-facing API.

use vstd::prelude::*;

verus! {

/// A command identifier assigned by the host. Never zero.
#[derive(Clone, Copy, PartialEq, Eq, Structural, Debug, Hash)]
pub struct CommandId {
    pub number: u32,
}

impl CommandId {
    /// Creates the command identifier. Zero is not a valid command identifier.
    pub fn new(number: u32) -> (r: CommandId)
        requires
            number != 0,
        ensures
            r.number == number,
    {
        CommandId { number }
    }

    /// Returns the plain number of this identifier.
    pub fn get(&self) -> (r: u32)
        ensures
            r == self.number,
    {
        self.number
    }
}

/// A section identifier as used by the host's action system.
#[derive(Clone, Copy, PartialEq, Eq, Structural, Debug, Hash)]
pub struct SectionId {
    pub number: u32,
}

impl SectionId {
    /// Creates the section identifier.
    pub fn new(number: u32) -> (r: SectionId)
        ensures
            r.number == number,
    {
        SectionId { number }
    }

    /// Returns the plain number of this identifier.
    pub fn get(&self) -> (r: u32)
        ensures
            r == self.number,
    {
        self.number
    }
}

/// Identifier of a MIDI input device. The host supports at most 63 devices.
#[derive(Clone, Copy, PartialEq, Eq, Structural, Debug, Hash)]
pub struct MidiInputDeviceId {
    pub number: u8,
}

impl MidiInputDeviceId {
    /// Creates the MIDI input device identifier. Identifiers must be below 63.
    pub fn new(number: u8) -> (r: MidiInputDeviceId)
        requires
            number < 63,
        ensures
            r.number == number,
    {
        MidiInputDeviceId { number }
    }

    /// Returns the plain number of this identifier.
    pub fn get(&self) -> (r: u8)
        ensures
            r == self.number,
    {
        self.number
    }
}

/// Identifier of a MIDI output device.
#[derive(Clone, Copy, PartialEq, Eq, Structural, Debug, Hash)]
pub struct MidiOutputDeviceId {
    pub number: u8,
}

impl MidiOutputDeviceId {
    /// Creates the MIDI output device identifier.
    pub fn new(number: u8) -> (r: MidiOutputDeviceId)
        ensures
            r.number == number,
    {
        MidiOutputDeviceId { number }
    }

    /// Returns the plain number of this identifier.
    pub fn get(&self) -> (r: u8)
        ensures
            r == self.number,
    {
        self.number
    }
}

} // verus!
