use vstd::prelude::*;

verus! {

/// Everything that can go wrong between the caller and the audio service.
#[derive(Clone, Copy, Debug, PartialEq, Eq, Structural)]
pub enum MixerError {
    /// The connection to the audio subsystem could not be established.
    SubsystemInitFailed,
    /// The session at the given position of the enumeration could not be resolved.
    EnumerationFailed(usize),
    /// No session belongs to the requested process, or its process is gone.
    SessionNotFound,
    /// A level outside the closed interval from zero to one.
    VolumeOutOfRange,
    /// The audio service refused to attach or detach a listener.
    RegistrationFailed,
    /// A session does not offer the capability that was asked of it.
    InteropCastFailed,
}

} // verus!
