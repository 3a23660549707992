use crate::directory::{
    enumeration_outcome, first_gap, first_stop, passes_over, resolved_prefix, selected,
};
use crate::error::MixerError;
use crate::events::{
    AudioSessionEvents, AudioSessionNotification, AudioSessionNotificationCallbacks,
    EventCallbacks, SessionEvent, VolumeChange,
};
use crate::manager::{teardown_plan, TeardownStep};
use crate::session::AudioSessionControl;
use vstd::prelude::*;

verus! {

/// However many handlers were written to the volume slot, the slot holds the
/// last of them, and an attached listener with these slots hands a volume
/// notification to that handler, with the payload as it came.
pub proof fn last_volume_handler_wins<H>(
    slots: EventCallbacks<H>,
    handlers: Seq<H>,
    listener: AudioSessionEvents<H>,
    change: VolumeChange,
)
    requires
        handlers.len() > 0,
        listener.callbacks() == slots.with_volume_handlers(handlers),
        listener.is_attached(),
    ensures
        slots.with_volume_handlers(handlers).volume_slot() == Some(handlers.last()),
        listener.delivery(SessionEvent::SimpleVolumeChanged(change)) == Some(
            (handlers.last(), change),
        ),
{
    slots.with_volume_handlers(handlers.drop_last()).volume_slot_after_write(handlers.last());
}

/// However many handlers were written to the creation slot, the slot holds
/// the last of them, and an attached listener with these slots hands a new
/// session to that handler.
pub proof fn last_created_handler_wins<H, T>(
    slots: AudioSessionNotificationCallbacks<H>,
    handlers: Seq<H>,
    listener: AudioSessionNotification<H>,
    session: T,
)
    requires
        handlers.len() > 0,
        listener.callbacks() == slots.with_created_handlers(handlers),
        listener.is_attached(),
    ensures
        slots.with_created_handlers(handlers).created_slot() == Some(handlers.last()),
        listener.delivery(Some(session)) == Some((handlers.last(), session)),
{
    slots.with_created_handlers(handlers.drop_last()).created_slot_after_write(handlers.last());
}

/// Only a volume notification reaches a handler: every other kind is taken
/// and does nothing.
pub proof fn other_kinds_do_nothing<H>(listener: AudioSessionEvents<H>, event: SessionEvent)
    requires
        !(event is SimpleVolumeChanged),
    ensures
        listener.delivery(event) is None,
{
}

/// A detached session listener delivers nothing, whatever notification
/// arrives after the detaching.
pub proof fn detached_listener_is_silent<H>(listener: AudioSessionEvents<H>, event: SessionEvent)
    requires
        !listener.is_attached(),
    ensures
        listener.delivery(event) is None,
{
}

/// A detached creation listener delivers nothing, whatever session arrives
/// after the detaching.
pub proof fn detached_notification_is_silent<H, T>(
    listener: AudioSessionNotification<H>,
    newsession: Option<T>,
)
    requires
        !listener.is_attached(),
    ensures
        listener.delivery(newsession) is None,
{
}

/// The first gap at or after a position lies between that position and the
/// end; every session before it was resolved, and the one at it was not.
pub proof fn first_gap_is_first<T>(sessions: Seq<Option<T>>, from: int)
    requires
        0 <= from <= sessions.len(),
    ensures
        from <= first_gap(sessions, from) <= sessions.len(),
        forall|j: int| from <= j < first_gap(sessions, from) ==> (#[trigger] sessions[j]) is Some,
        first_gap(sessions, from) < sessions.len() ==> sessions[first_gap(sessions, from)] is None,
    decreases sessions.len() - from,
{
    if from < sessions.len() && sessions[from] is Some {
        first_gap_is_first(sessions, from + 1);
    }
}

/// What is replayed to a subscriber is a prefix of the enumeration, in its
/// order.
pub proof fn replay_is_a_prefix<T>(sessions: Seq<Option<T>>)
    ensures
        resolved_prefix(sessions).len() <= sessions.len(),
        forall|i: int|
            0 <= i < resolved_prefix(sessions).len() ==> sessions[i] == Some(
                #[trigger] resolved_prefix(sessions)[i],
            ),
{
    first_gap_is_first(sessions, 0);
}

/// Where every one of the sessions that exist was resolved, the subscriber
/// is replayed each of them once, in the order of the enumeration, and the
/// subscription goes on. The listener of the subscription hands each of
/// them to the subscriber's callback.
pub proof fn replay_covers_existing_sessions<T, H>(
    sessions: Seq<Option<T>>,
    callback: H,
    listener: AudioSessionNotification<H>,
)
    requires
        forall|i: int| 0 <= i < sessions.len() ==> (#[trigger] sessions[i]) is Some,
        listener.is_attached(),
        listener.callbacks().created_slot() == Some(callback),
    ensures
        resolved_prefix(sessions).len() == sessions.len(),
        forall|i: int|
            0 <= i < sessions.len() ==> sessions[i] == Some(
                #[trigger] resolved_prefix(sessions)[i],
            ),
        forall|i: int|
            0 <= i < sessions.len() ==> listener.delivery(Some(resolved_prefix(sessions)[i]))
                == Some((callback, #[trigger] resolved_prefix(sessions)[i])),
        enumeration_outcome(sessions) is Ok,
{
    first_gap_is_first(sessions, 0);
}

/// The scan for a name stops between its start and the end; it passes over
/// every session before the stop, and not over the one at it.
pub proof fn first_stop_is_first<S, V>(
    sessions: Seq<Option<AudioSessionControl<S, V>>>,
    names: Map<u32, Seq<char>>,
    name: Seq<char>,
    from: int,
)
    requires
        0 <= from <= sessions.len(),
    ensures
        from <= first_stop(sessions, names, name, from) <= sessions.len(),
        forall|j: int|
            from <= j < first_stop(sessions, names, name, from) ==> passes_over(
                #[trigger] sessions[j],
                names,
                name,
            ),
        first_stop(sessions, names, name, from) < sessions.len() ==> !passes_over(
            sessions[first_stop(sessions, names, name, from)],
            names,
            name,
        ),
    decreases sessions.len() - from,
{
    if from < sessions.len() && passes_over(sessions[from], names, name) {
        first_stop_is_first(sessions, names, name, from + 1);
    }
}

/// A session that a name selects stands in the enumeration, its process
/// bears exactly that name, and no session before it does.
pub proof fn selection_is_first_match<S, V>(
    sessions: Seq<Option<AudioSessionControl<S, V>>>,
    names: Map<u32, Seq<char>>,
    name: Seq<char>,
    found: AudioSessionControl<S, V>,
)
    requires
        selected(sessions, names, name) == Ok::<AudioSessionControl<S, V>, MixerError>(found),
    ensures
        0 <= first_stop(sessions, names, name, 0) < sessions.len(),
        sessions[first_stop(sessions, names, name, 0)] == Some(found),
        names.contains_key(found.pid()),
        names[found.pid()] == name,
        forall|j: int|
            0 <= j < first_stop(sessions, names, name, 0) ==> passes_over(
                #[trigger] sessions[j],
                names,
                name,
            ),
{
    first_stop_is_first(sessions, names, name, 0);
}

/// A name that no process bears selects no session: where every session was
/// resolved, the answer is that none was found, also where there is no
/// session at all.
pub proof fn unknown_name_selects_nothing<S, V>(
    sessions: Seq<Option<AudioSessionControl<S, V>>>,
    names: Map<u32, Seq<char>>,
    name: Seq<char>,
)
    requires
        forall|i: int| 0 <= i < sessions.len() ==> (#[trigger] sessions[i]) is Some,
        forall|pid: u32| names.contains_key(pid) ==> #[trigger] names[pid] != name,
    ensures
        selected(sessions, names, name) == Err::<AudioSessionControl<S, V>, MixerError>(
            MixerError::SessionNotFound,
        ),
{
    first_stop_is_first(sessions, names, name, 0);
}

/// Giving a connection up ends with its release, and with nothing else
/// after it; a listener that is held is unregistered before that. The steps
/// are fixed before any of them is taken, so no failure of the first can
/// keep the release from being due.
pub proof fn teardown_releases_last<M, L>(connection: M, listener: Option<L>)
    ensures
        teardown_plan(connection, listener).len() >= 1,
        teardown_plan(connection, listener).last() == TeardownStep::<M, L>::Release(connection),
        forall|i: int|
            0 <= i < teardown_plan(connection, listener).len() - 1 ==> listener == Some(
                (#[trigger] teardown_plan(connection, listener)[i])->Unregister_0,
            ) && teardown_plan(connection, listener)[i] is Unregister,
        listener is Some ==> teardown_plan(connection, listener).len() == 2,
        listener is None ==> teardown_plan(connection, listener).len() == 1,
{
}

} // verus!
