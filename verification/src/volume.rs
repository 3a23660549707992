use crate::error::MixerError;
use vstd::prelude::*;

verus! {

/// Bit pattern of the single-precision number one.
pub const FULL_LEVEL_BITS: u32 = 0x3F80_0000;

/// Bit pattern of the single-precision negative zero.
pub const NEGATIVE_ZERO_BITS: u32 = 0x8000_0000;

/// Whether a single-precision bit pattern stands for a number of the closed
/// interval from zero to one. The non-negative numbers up to one are exactly
/// the patterns up to that of one; negative zero compares equal to zero;
/// every other pattern is a larger number, a negative one, an infinity or
/// not a number.
pub open spec fn is_unit_level(bits: u32) -> bool {
    bits <= FULL_LEVEL_BITS || bits == NEGATIVE_ZERO_BITS
}

/// Exec form of [`is_unit_level`].
pub fn unit_level(bits: u32) -> (r: bool)
    ensures
        r == is_unit_level(bits),
{
    bits <= FULL_LEVEL_BITS || bits == NEGATIVE_ZERO_BITS
}

/// A request for the session's volume interface.
#[derive(Clone, Copy, Debug, PartialEq, Eq, Structural)]
pub enum VolumeCommand {
    SetMasterVolume(u32),
    SetMute(bool),
}

/// Volume and mute of one session. It keeps no state of its own: `V` is the
/// session's volume interface, carried for the caller.
pub struct AudioVolumeControl<V> {
    control: V,
}

impl<V> AudioVolumeControl<V> {
    pub closed spec fn interface(self) -> V {
        self.control
    }

    /// Wraps the volume interface of a session, if the session offers one.
    pub fn new(control: Option<V>) -> (r: Result<Self, MixerError>)
        ensures
            match control {
                Some(v) => r is Ok && r->Ok_0.interface() == v,
                None => r == Err::<Self, MixerError>(MixerError::InteropCastFailed),
            },
    {
        match control {
            Some(control) => Ok(AudioVolumeControl { control }),
            None => Err(MixerError::InteropCastFailed),
        }
    }

    pub fn native(&self) -> (r: &V)
        ensures
            *r == self.interface(),
    {
        &self.control
    }

    /// Judges what the volume interface answered to a query: its level, or
    /// nothing where the query failed. A level is handed on only if it lies
    /// between zero and one, so no answer can pass for a level by mistake.
    pub fn get_volume(&self, reading: Option<u32>) -> (r: Result<u32, MixerError>)
        ensures
            r == Self::judged_reading(reading),
    {
        match reading {
            None => Err(MixerError::InteropCastFailed),
            Some(bits) => if unit_level(bits) {
                Ok(bits)
            } else {
                Err(MixerError::VolumeOutOfRange)
            },
        }
    }

    pub open spec fn judged_reading(reading: Option<u32>) -> Result<u32, MixerError> {
        match reading {
            None => Err(MixerError::InteropCastFailed),
            Some(bits) => if is_unit_level(bits) {
                Ok(bits)
            } else {
                Err(MixerError::VolumeOutOfRange)
            },
        }
    }

    /// The request that sets the level, or the refusal of a level outside
    /// zero to one. A refusal comes with no request, so the session keeps
    /// the level it has.
    pub fn set_volume(&self, level_bits: u32) -> (r: Result<VolumeCommand, MixerError>)
        ensures
            r == Self::volume_request(level_bits),
    {
        if unit_level(level_bits) {
            Ok(VolumeCommand::SetMasterVolume(level_bits))
        } else {
            Err(MixerError::VolumeOutOfRange)
        }
    }

    pub open spec fn volume_request(level_bits: u32) -> Result<VolumeCommand, MixerError> {
        if is_unit_level(level_bits) {
            Ok(VolumeCommand::SetMasterVolume(level_bits))
        } else {
            Err(MixerError::VolumeOutOfRange)
        }
    }

    /// The request that sets the mute flag; the same for the same flag.
    pub fn set_mute(&self, mute: bool) -> (r: VolumeCommand)
        ensures
            r == VolumeCommand::SetMute(mute),
    {
        VolumeCommand::SetMute(mute)
    }
}

} // verus!
