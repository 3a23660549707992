use crate::directory::{
    enumeration_outcome, find_in_inventory, resolved_prefix, selected, split_at_first_gap,
};
use crate::error::MixerError;
use crate::events::{AudioSessionNotification, AudioSessionNotificationCallbacks};
use crate::inventory::ProcessInventory;
use crate::session::AudioSessionControl;
use vstd::prelude::*;

verus! {

/// Status with which the subsystem reports that this thread already runs in
/// another threading mode.
pub const RPC_E_CHANGED_MODE: i32 = -2147417850;

/// Whether a status of the subsystem's initialisation lets the work go on:
/// every success does, and so does a threading mode set by someone else.
pub open spec fn init_accepted(code: i32) -> bool {
    code >= 0 || code == RPC_E_CHANGED_MODE
}

/// How an accepted initialisation came about.
#[derive(Clone, Copy, Debug, PartialEq, Eq, Structural)]
pub enum InitStatus {
    /// The subsystem is initialised for this caller.
    Ready,
    /// Someone else initialised it in another threading mode: worth a
    /// warning, no failure.
    ThreadingModeShared,
}

pub open spec fn init_verdict(code: i32) -> Result<InitStatus, MixerError> {
    if code == RPC_E_CHANGED_MODE {
        Ok(InitStatus::ThreadingModeShared)
    } else if code >= 0 {
        Ok(InitStatus::Ready)
    } else {
        Err(MixerError::SubsystemInitFailed)
    }
}

/// Judges the status that the subsystem's initialisation returned.
pub fn init_status(code: i32) -> (r: Result<InitStatus, MixerError>)
    ensures
        r == init_verdict(code),
        r is Ok <==> init_accepted(code),
{
    if code == RPC_E_CHANGED_MODE {
        Ok(InitStatus::ThreadingModeShared)
    } else if code >= 0 {
        Ok(InitStatus::Ready)
    } else {
        Err(MixerError::SubsystemInitFailed)
    }
}

/// What a new subscriber is owed, in this order: `listener` is handed each
/// session of `replay`, which runs the callback once for each; then, if
/// `outcome` is `Ok`, the listener in `unregister_first` is taken off the
/// service and `listener` goes on it in its place. If `outcome` is an error,
/// `listener` must not go on the service.
pub struct Subscription<T, L, H> {
    pub replay: Vec<T>,
    pub listener: AudioSessionNotification<H>,
    pub unregister_first: Option<L>,
    pub outcome: Result<(), MixerError>,
}

/// One step of giving the connection up.
pub enum TeardownStep<M, L> {
    /// Take this listener off the service. A failure is reported and the
    /// next step is done all the same.
    Unregister(L),
    /// Release the connection.
    Release(M),
}

/// The steps that give up a connection with the given listener.
pub open spec fn teardown_plan<M, L>(connection: M, listener: Option<L>) -> Seq<TeardownStep<M, L>> {
    match listener {
        Some(l) => seq![TeardownStep::Unregister(l), TeardownStep::Release(connection)],
        None => seq![TeardownStep::Release(connection)],
    }
}

/// The connection to the audio service, `M`, and the one listener for new
/// sessions, `L`, that the service holds for it. A value of this type is an
/// active connection; `shutdown` consumes it.
pub struct AudioSessionManager<M, L> {
    manager: M,
    notifications: Option<L>,
}

impl<M, L> AudioSessionManager<M, L> {
    pub closed spec fn connection(self) -> M {
        self.manager
    }

    pub closed spec fn listener(self) -> Option<L> {
        self.notifications
    }

    /// Makes the manager from the status of the subsystem's initialisation
    /// and the session manager that was activated, if it could be.
    pub fn new(init_code: i32, activation: Option<M>) -> (r: Result<Self, MixerError>)
        ensures
            match activation {
                Some(m) if init_accepted(init_code) => {
                    &&& r is Ok
                    &&& r->Ok_0.connection() == m
                    &&& r->Ok_0.listener() is None
                },
                _ => r == Err::<Self, MixerError>(MixerError::SubsystemInitFailed),
            },
    {
        match init_status(init_code) {
            Err(e) => Err(e),
            Ok(_) => match activation {
                Some(manager) => Ok(AudioSessionManager { manager, notifications: None }),
                None => Err(MixerError::SubsystemInitFailed),
            },
        }
    }

    pub fn native(&self) -> (r: &M)
        ensures
            *r == self.connection(),
    {
        &self.manager
    }

    pub fn has_listener(&self) -> (r: bool)
        ensures
            r == self.listener() is Some,
    {
        self.notifications.is_some()
    }

    /// Starts a subscription of `callback` over the sessions that exist
    /// now, each as it was resolved or not. The sessions before the first
    /// unresolved one are replayed to a listener that holds the callback. If
    /// all were resolved, the listener held so far leaves the manager to be
    /// unregistered, and none is held until `retain_listener`; if not, the
    /// subscription fails and the manager stays as it was.
    pub fn on_session_created<T, H>(&mut self, callback: H, sessions: Vec<Option<T>>) -> (plan:
        Subscription<T, L, H>)
        ensures
            plan.replay@ == resolved_prefix(sessions@),
            plan.outcome == enumeration_outcome(sessions@),
            plan.listener.is_attached(),
            plan.listener.callbacks().created_slot() == Some(callback),
            final(self).connection() == old(self).connection(),
            plan.outcome is Ok ==> plan.unregister_first == old(self).listener() && final(self).listener() is None,
            plan.outcome is Err ==> plan.unregister_first is None && final(self).listener() == old(self).listener(),
    {
        let callbacks = AudioSessionNotificationCallbacks::new().on_session_created(callback).build();
        let listener = AudioSessionNotification::new(callbacks);
        let (replay, gap) = split_at_first_gap(sessions);
        match gap {
            Some(at) => Subscription {
                replay,
                listener,
                unregister_first: None,
                outcome: Err(MixerError::EnumerationFailed(at)),
            },
            None => {
                let previous = self.notifications.take();
                Subscription { replay, listener, unregister_first: previous, outcome: Ok(()) }
            },
        }
    }

    /// Ends a subscription with what the service answered to the
    /// registration: the listener it now holds, or nothing where it refused.
    /// The listener is kept for as long as the manager lives. One that was
    /// still held is handed back, to be unregistered.
    pub fn retain_listener(&mut self, registration: Option<L>) -> (r: Result<Option<L>, MixerError>)
        ensures
            final(self).connection() == old(self).connection(),
            match registration {
                Some(l) => r == Ok::<Option<L>, MixerError>(old(self).listener()) && final(self).listener() == Some(l),
                None => r == Err::<Option<L>, MixerError>(MixerError::RegistrationFailed) && final(self).listener() == old(self).listener(),
            },
    {
        match registration {
            Some(listener) => {
                let previous = self.notifications.take();
                self.notifications = Some(listener);
                Ok(previous)
            },
            None => Err(MixerError::RegistrationFailed),
        }
    }

    /// Finds the first session whose process is called `name`, in a
    /// snapshot of the processes taken for this call.
    pub fn find_active_session<S, V>(
        &self,
        sessions: Vec<Option<AudioSessionControl<S, V>>>,
        name: &str,
    ) -> (r: Result<AudioSessionControl<S, V>, MixerError>)
        ensures
            exists|names: Map<u32, Seq<char>>| r == selected(sessions@, names, name@),
            sessions@.len() == 0 ==> r == Err::<AudioSessionControl<S, V>, MixerError>(
                MixerError::SessionNotFound,
            ),
    {
        let inventory = ProcessInventory::refresh();
        find_in_inventory(sessions, &inventory, name)
    }

    /// Gives the connection up: the listener, if one is held, is
    /// unregistered first, and the connection is released whatever came of
    /// that.
    pub fn shutdown(self) -> (steps: Vec<TeardownStep<M, L>>)
        ensures
            steps@ == teardown_plan(self.connection(), self.listener()),
    {
        let mut steps: Vec<TeardownStep<M, L>> = Vec::new();
        let AudioSessionManager { manager, notifications } = self;
        match notifications {
            Some(listener) => {
                steps.push(TeardownStep::Unregister(listener));
            },
            None => {},
        }
        steps.push(TeardownStep::Release(manager));
        assert(steps@ =~= teardown_plan(self.connection(), self.listener()));
        steps
    }
}

} // verus!
