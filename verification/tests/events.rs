use std::cell::RefCell;
use std::rc::Rc;

use windows_volume_mixer::events::{
    AudioSessionEvents, AudioSessionNotification, AudioSessionNotificationCallbacks,
    EventCallbacks, SessionEvent, VolumeChange,
};

type VolumeHandler = Box<dyn Fn(f32, bool, u128)>;
type CreatedHandler = Box<dyn Fn(u32)>;

fn recorder(log: &Rc<RefCell<Vec<String>>>, tag: &'static str) -> VolumeHandler {
    let log = Rc::clone(log);
    Box::new(move |volume, mute, context| {
        log.borrow_mut().push(format!("{tag}:{volume}:{mute}:{context}"));
    })
}

fn created_recorder(log: &Rc<RefCell<Vec<String>>>, tag: &'static str) -> CreatedHandler {
    let log = Rc::clone(log);
    Box::new(move |pid| {
        log.borrow_mut().push(format!("{tag}:{pid}"));
    })
}

fn fire(listener: &AudioSessionEvents<VolumeHandler>, event: SessionEvent) -> bool {
    match listener.dispatch(event) {
        Some((handler, change)) => {
            handler(f32::from_bits(change.volume_bits), change.mute, change.context);
            true
        }
        None => false,
    }
}

fn volume_event(level: f32, mute: bool, context: u128) -> SessionEvent {
    SessionEvent::SimpleVolumeChanged(VolumeChange { volume_bits: level.to_bits(), mute, context })
}

#[test]
fn last_volume_handler_fires_alone() {
    let log = Rc::new(RefCell::new(Vec::new()));
    let callbacks = EventCallbacks::new()
        .on_volume_changed(recorder(&log, "first"))
        .on_volume_changed(recorder(&log, "second"))
        .on_volume_changed(recorder(&log, "third"))
        .build();
    let listener = AudioSessionEvents::new(callbacks);
    assert!(fire(&listener, volume_event(0.5, false, 7)));
    assert_eq!(*log.borrow(), vec!["third:0.5:false:7".to_string()]);
}

#[test]
fn single_volume_handler_fires_per_event() {
    let log = Rc::new(RefCell::new(Vec::new()));
    let listener =
        AudioSessionEvents::new(EventCallbacks::new().on_volume_changed(recorder(&log, "only")).build());
    assert!(fire(&listener, volume_event(0.25, true, 1)));
    assert!(fire(&listener, volume_event(1.0, false, 2)));
    assert_eq!(
        *log.borrow(),
        vec!["only:0.25:true:1".to_string(), "only:1:false:2".to_string()]
    );
}

#[test]
fn empty_volume_slot_delivers_nothing() {
    let listener: AudioSessionEvents<VolumeHandler> = AudioSessionEvents::new(EventCallbacks::new().build());
    assert!(listener.attached());
    assert!(!fire(&listener, volume_event(0.5, false, 0)));
    let by_default: AudioSessionEvents<VolumeHandler> = AudioSessionEvents::new(EventCallbacks::default());
    assert!(!fire(&by_default, volume_event(0.5, false, 0)));
}

#[test]
fn other_notification_kinds_do_nothing() {
    let log = Rc::new(RefCell::new(Vec::new()));
    let listener =
        AudioSessionEvents::new(EventCallbacks::new().on_volume_changed(recorder(&log, "v")).build());
    for event in [
        SessionEvent::DisplayNameChanged,
        SessionEvent::IconPathChanged,
        SessionEvent::ChannelVolumeChanged,
        SessionEvent::GroupingParamChanged,
        SessionEvent::StateChanged,
        SessionEvent::SessionDisconnected,
    ] {
        assert!(!fire(&listener, event));
    }
    assert!(log.borrow().is_empty());
}

#[test]
fn volume_payload_passes_through_unchanged() {
    let listener = AudioSessionEvents::new(EventCallbacks::new().on_volume_changed(17u8).build());
    let context = 0x0123_4567_89ab_cdef_0011_2233_4455_6677u128;
    let (handler, change) = listener.on_simple_volume_changed(0.75f32.to_bits(), true, context).unwrap();
    assert_eq!(*handler, 17u8);
    assert_eq!(change, VolumeChange { volume_bits: 0x3F40_0000, mute: true, context });
    let (_, zero) = listener.on_simple_volume_changed(0, false, 0).unwrap();
    assert_eq!(zero, VolumeChange { volume_bits: 0, mute: false, context: 0 });
}

#[test]
fn detached_session_listener_is_silent() {
    let log = Rc::new(RefCell::new(Vec::new()));
    let mut listener =
        AudioSessionEvents::new(EventCallbacks::new().on_volume_changed(recorder(&log, "v")).build());
    assert!(fire(&listener, volume_event(0.5, false, 3)));
    listener.detach();
    assert!(!listener.attached());
    assert!(!fire(&listener, volume_event(0.9, false, 3)));
    assert!(listener.on_simple_volume_changed(0, false, 0).is_none());
    listener.detach();
    assert!(!fire(&listener, volume_event(0.1, true, 4)));
    assert_eq!(log.borrow().len(), 1);
}

#[test]
fn last_created_handler_fires_alone() {
    let log = Rc::new(RefCell::new(Vec::new()));
    let callbacks = AudioSessionNotificationCallbacks::new()
        .on_session_created(created_recorder(&log, "first"))
        .on_session_created(created_recorder(&log, "second"))
        .build();
    let listener = AudioSessionNotification::new(callbacks);
    let (handler, session) = listener.on_session_created(Some(42u32)).unwrap();
    handler(session);
    assert_eq!(*log.borrow(), vec!["second:42".to_string()]);
}

#[test]
fn creation_without_session_or_handler_delivers_nothing() {
    let listener = AudioSessionNotification::new(
        AudioSessionNotificationCallbacks::new().on_session_created(1u8).build(),
    );
    assert!(listener.on_session_created(None::<u32>).is_none());
    let empty: AudioSessionNotification<u8> =
        AudioSessionNotification::new(AudioSessionNotificationCallbacks::default());
    assert!(empty.on_session_created(Some(5u32)).is_none());
}

#[test]
fn detached_creation_listener_is_silent() {
    let mut listener = AudioSessionNotification::new(
        AudioSessionNotificationCallbacks::new().on_session_created(1u8).build(),
    );
    assert!(listener.attached());
    assert_eq!(listener.on_session_created(Some(9u32)), Some((&1u8, 9u32)));
    listener.detach();
    assert!(!listener.attached());
    assert!(listener.on_session_created(Some(9u32)).is_none());
}
