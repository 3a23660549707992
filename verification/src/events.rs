use vstd::prelude::*;

verus! {

/// Payload of a volume notification. The level is carried as the bit pattern
/// of a single-precision number; the context is the correlation token of the
/// audio service and is never interpreted here.
#[derive(Clone, Copy, Debug, PartialEq, Eq, Structural)]
pub struct VolumeChange {
    pub volume_bits: u32,
    pub mute: bool,
    pub context: u128,
}

/// The notification kinds a session can raise.
#[derive(Clone, Copy, Debug, PartialEq, Eq, Structural)]
pub enum SessionEvent {
    SimpleVolumeChanged(VolumeChange),
    DisplayNameChanged,
    IconPathChanged,
    ChannelVolumeChanged,
    GroupingParamChanged,
    StateChanged,
    SessionDisconnected,
}

/// Named callback slots for the events of one session. `H` is whatever the
/// caller wants run; this crate only stores it and hands it back.
pub struct EventCallbacks<H> {
    simple_volume: Option<H>,
}

impl<H> EventCallbacks<H> {
    /// The handler held by the volume slot.
    pub closed spec fn volume_slot(self) -> Option<H> {
        self.simple_volume
    }

    /// The slots after `callback` was put into the volume slot.
    pub closed spec fn with_volume_handler(self, callback: H) -> Self {
        EventCallbacks { simple_volume: Some(callback) }
    }

    /// The slots after each handler of `callbacks` was put into the volume
    /// slot, first to last.
    pub open spec fn with_volume_handlers(self, callbacks: Seq<H>) -> Self
        decreases callbacks.len(),
    {
        if callbacks.len() == 0 {
            self
        } else {
            self.with_volume_handlers(callbacks.drop_last()).with_volume_handler(callbacks.last())
        }
    }

    pub fn new() -> (r: Self)
        ensures
            r.volume_slot() is None,
    {
        EventCallbacks { simple_volume: None }
    }

    pub fn on_volume_changed(self, callback: H) -> (r: Self)
        ensures
            r == self.with_volume_handler(callback),
            r.volume_slot() == Some(callback),
    {
        let mut slots = self;
        slots.simple_volume = Some(callback);
        slots
    }

    pub fn build(self) -> (r: Self)
        ensures
            r == self,
    {
        self
    }

    /// Putting a handler into the volume slot makes it the slot's content,
    /// whatever was there.
    pub proof fn volume_slot_after_write(self, callback: H)
        ensures
            self.with_volume_handler(callback).volume_slot() == Some(callback),
    {
    }
}

impl<H> Default for EventCallbacks<H> {
    fn default() -> (r: Self)
        ensures
            r.volume_slot() is None,
    {
        EventCallbacks::new()
    }
}

/// The listener a session is given: the caller's slots, and whether the
/// listener is still attached to its session.
pub struct AudioSessionEvents<H> {
    callbacks: EventCallbacks<H>,
    attached: bool,
}

impl<H> AudioSessionEvents<H> {
    pub closed spec fn callbacks(self) -> EventCallbacks<H> {
        self.callbacks
    }

    pub closed spec fn is_attached(self) -> bool {
        self.attached
    }

    /// What an event leads to: the handler to run and the payload to run it
    /// with, or nothing.
    pub open spec fn delivery(self, event: SessionEvent) -> Option<(H, VolumeChange)> {
        match (event, self.callbacks().volume_slot()) {
            (SessionEvent::SimpleVolumeChanged(change), Some(handler)) if self.is_attached() => Some(
                (handler, change),
            ),
            _ => None,
        }
    }

    pub fn new(callbacks: EventCallbacks<H>) -> (r: Self)
        ensures
            r.callbacks() == callbacks,
            r.is_attached(),
    {
        AudioSessionEvents { callbacks, attached: true }
    }

    pub fn attached(&self) -> (r: bool)
        ensures
            r == self.is_attached(),
    {
        self.attached
    }

    /// Stops every later delivery. Detaching twice changes nothing more.
    pub fn detach(&mut self)
        ensures
            !final(self).is_attached(),
            final(self).callbacks() == old(self).callbacks(),
    {
        self.attached = false;
    }

    /// Routes one notification of the session.
    pub fn dispatch(&self, event: SessionEvent) -> (r: Option<(&H, VolumeChange)>)
        ensures
            match r {
                Some((handler, change)) => self.delivery(event) == Some((*handler, change)),
                None => self.delivery(event) is None,
            },
    {
        match event {
            SessionEvent::SimpleVolumeChanged(change) => self.on_simple_volume_changed(
                change.volume_bits,
                change.mute,
                change.context,
            ),
            _ => None,
        }
    }

    /// Routes a volume notification; level, mute flag and context reach the
    /// handler as they came.
    pub fn on_simple_volume_changed(&self, volume_bits: u32, mute: bool, context: u128) -> (r:
        Option<(&H, VolumeChange)>)
        ensures
            match r {
                Some((handler, change)) => {
                    &&& self.is_attached()
                    &&& self.callbacks().volume_slot() == Some(*handler)
                    &&& change == (VolumeChange { volume_bits, mute, context })
                },
                None => !self.is_attached() || self.callbacks().volume_slot() is None,
            },
    {
        if !self.attached {
            return None;
        }
        match &self.callbacks.simple_volume {
            Some(handler) => Some((handler, VolumeChange { volume_bits, mute, context })),
            None => None,
        }
    }
}

/// The callback slot for sessions that come into being.
pub struct AudioSessionNotificationCallbacks<H> {
    session_created: Option<H>,
}

impl<H> AudioSessionNotificationCallbacks<H> {
    /// The handler held by the creation slot.
    pub closed spec fn created_slot(self) -> Option<H> {
        self.session_created
    }

    /// The slots after `callback` was put into the creation slot.
    pub closed spec fn with_created_handler(self, callback: H) -> Self {
        AudioSessionNotificationCallbacks { session_created: Some(callback) }
    }

    /// The slots after each handler of `callbacks` was put into the creation
    /// slot, first to last.
    pub open spec fn with_created_handlers(self, callbacks: Seq<H>) -> Self
        decreases callbacks.len(),
    {
        if callbacks.len() == 0 {
            self
        } else {
            self.with_created_handlers(callbacks.drop_last()).with_created_handler(callbacks.last())
        }
    }

    pub fn new() -> (r: Self)
        ensures
            r.created_slot() is None,
    {
        AudioSessionNotificationCallbacks { session_created: None }
    }

    pub fn on_session_created(self, callback: H) -> (r: Self)
        ensures
            r == self.with_created_handler(callback),
            r.created_slot() == Some(callback),
    {
        let mut slots = self;
        slots.session_created = Some(callback);
        slots
    }

    pub fn build(self) -> (r: Self)
        ensures
            r == self,
    {
        self
    }

    /// Putting a handler into the creation slot makes it the slot's content,
    /// whatever was there.
    pub proof fn created_slot_after_write(self, callback: H)
        ensures
            self.with_created_handler(callback).created_slot() == Some(callback),
    {
    }
}

impl<H> Default for AudioSessionNotificationCallbacks<H> {
    fn default() -> (r: Self)
        ensures
            r.created_slot() is None,
    {
        AudioSessionNotificationCallbacks::new()
    }
}

/// The listener the audio service is given for new sessions.
pub struct AudioSessionNotification<H> {
    callbacks: AudioSessionNotificationCallbacks<H>,
    attached: bool,
}

impl<H> AudioSessionNotification<H> {
    pub closed spec fn callbacks(self) -> AudioSessionNotificationCallbacks<H> {
        self.callbacks
    }

    pub closed spec fn is_attached(self) -> bool {
        self.attached
    }

    /// What the arrival of a session leads to: the handler to run and the
    /// session to run it with, or nothing.
    pub open spec fn delivery<S>(self, newsession: Option<S>) -> Option<(H, S)> {
        match (newsession, self.callbacks().created_slot()) {
            (Some(session), Some(handler)) if self.is_attached() => Some((handler, session)),
            _ => None,
        }
    }

    pub fn new(callbacks: AudioSessionNotificationCallbacks<H>) -> (r: Self)
        ensures
            r.callbacks() == callbacks,
            r.is_attached(),
    {
        AudioSessionNotification { callbacks, attached: true }
    }

    pub fn attached(&self) -> (r: bool)
        ensures
            r == self.is_attached(),
    {
        self.attached
    }

    /// Stops every later delivery. Detaching twice changes nothing more.
    pub fn detach(&mut self)
        ensures
            !final(self).is_attached(),
            final(self).callbacks() == old(self).callbacks(),
    {
        self.attached = false;
    }

    /// Routes the arrival of a session.
    pub fn on_session_created<S>(&self, newsession: Option<S>) -> (r: Option<(&H, S)>)
        ensures
            match r {
                Some((handler, session)) => self.delivery(newsession) == Some((*handler, session)),
                None => self.delivery(newsession) is None,
            },
    {
        if !self.attached {
            return None;
        }
        match (&self.callbacks.session_created, newsession) {
            (Some(handler), Some(session)) => Some((handler, session)),
            _ => None,
        }
    }
}

} // verus!
