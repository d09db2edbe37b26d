//! A handle to one of the host's MIDI output devices.

use vstd::prelude::*;

use crate::misc_newtypes::MidiOutputDeviceId;

verus! {

/// A MIDI output device of the host, identified by its device id. Whether
/// the device is present or connected is the host's knowledge; this type
/// only carries the identity.
#[derive(Clone, Copy, PartialEq, Eq, Structural, Debug)]
pub struct MidiOutputDevice {
    id: MidiOutputDeviceId,
}

impl MidiOutputDevice {
    /// Creates the handle for the given device id.
    pub fn new(id: MidiOutputDeviceId) -> (r: MidiOutputDevice)
        ensures
            r.id() == id,
    {
        MidiOutputDevice { id }
    }

    /// The device id, for use in contracts.
    pub closed spec fn spec_id(self) -> MidiOutputDeviceId {
        self.id
    }

    /// Returns the device id.
    #[verifier::when_used_as_spec(spec_id)]
    pub fn id(self) -> (r: MidiOutputDeviceId)
        ensures
            r == self.spec_id(),
    {
        self.id
    }
}

} // verus!
