use crate::error::MixerError;
use crate::events::{AudioSessionEvents, EventCallbacks};
use crate::inventory::ProcessInventory;
use crate::volume::AudioVolumeControl;
use vstd::prelude::*;

verus! {

/// One audio session: the id of the process that owns it, the session's
/// control interface `S`, carried for the caller, and its volume control.
pub struct AudioSessionControl<S, V> {
    process_id: u32,
    control: S,
    volume_control: AudioVolumeControl<V>,
}

/// What a process lookup means for the caller: the name, or that the session
/// has no process any more.
pub open spec fn name_or_missing(found: Option<String>) -> Result<String, MixerError> {
    match found {
        Some(name) => Ok(name),
        None => Err(MixerError::SessionNotFound),
    }
}

/// Exec form of [`name_or_missing`].
pub fn resolved_name(found: Option<String>) -> (r: Result<String, MixerError>)
    ensures
        r == name_or_missing(found),
{
    match found {
        Some(name) => Ok(name),
        None => Err(MixerError::SessionNotFound),
    }
}

impl<S, V> AudioSessionControl<S, V> {
    pub closed spec fn pid(self) -> u32 {
        self.process_id
    }

    pub closed spec fn interface(self) -> S {
        self.control
    }

    pub closed spec fn volume(self) -> AudioVolumeControl<V> {
        self.volume_control
    }

    /// Builds the handle of a session from its control interface, the
    /// process id it reported and its volume interface, if it offers one.
    pub fn new(control: S, process_id: u32, volume: Option<V>) -> (r: Result<Self, MixerError>)
        ensures
            match volume {
                Some(v) => {
                    &&& r is Ok
                    &&& r->Ok_0.pid() == process_id
                    &&& r->Ok_0.interface() == control
                    &&& r->Ok_0.volume().interface() == v
                },
                None => r == Err::<Self, MixerError>(MixerError::InteropCastFailed),
            },
    {
        match AudioVolumeControl::new(volume) {
            Ok(volume_control) => Ok(AudioSessionControl { process_id, control, volume_control }),
            Err(e) => Err(e),
        }
    }

    pub fn process_id(&self) -> (r: u32)
        ensures
            r == self.pid(),
    {
        self.process_id
    }

    pub fn native(&self) -> (r: &S)
        ensures
            *r == self.interface(),
    {
        &self.control
    }

    pub fn volume_control(&self) -> (r: &AudioVolumeControl<V>)
        ensures
            *r == self.volume(),
    {
        &self.volume_control
    }

    /// The name of the owning process in the given snapshot.
    pub fn process_name_in(&self, inventory: &ProcessInventory) -> (r: Result<String, MixerError>)
        ensures
            match r {
                Ok(name) => inventory.names().contains_key(self.pid()) && inventory.names()[self.pid()]
                    == name@,
                Err(e) => e == MixerError::SessionNotFound && !inventory.names().contains_key(
                    self.pid(),
                ),
            },
    {
        resolved_name(inventory.lookup(self.process_id))
    }

    /// The name of the owning process, looked up in a snapshot taken for
    /// this call. A process that has ended is not found.
    pub fn process_name(&self) -> (r: Result<String, MixerError>)
        ensures
            r is Err ==> r == Err::<String, MixerError>(MixerError::SessionNotFound),
    {
        let inventory = ProcessInventory::refresh();
        self.process_name_in(&inventory)
    }

    /// The listener that carries `callbacks` for this session, attached.
    pub fn register_session_notification<H>(&self, callbacks: EventCallbacks<H>) -> (r:
        AudioSessionEvents<H>)
        ensures
            r.callbacks() == callbacks,
            r.is_attached(),
    {
        AudioSessionEvents::new(callbacks)
    }
}

} // verus!
