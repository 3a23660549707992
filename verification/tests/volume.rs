use windows_volume_mixer::volume::{
    unit_level, VolumeCommand, FULL_LEVEL_BITS, NEGATIVE_ZERO_BITS,
};
use windows_volume_mixer::{AudioVolumeControl, MixerError};

/// Stands in for the volume interface of a session.
struct FakeVolume {
    level: f32,
    muted: bool,
}

fn perform(fake: &mut FakeVolume, command: VolumeCommand) {
    match command {
        VolumeCommand::SetMasterVolume(bits) => fake.level = f32::from_bits(bits),
        VolumeCommand::SetMute(flag) => fake.muted = flag,
    }
}

fn control() -> AudioVolumeControl<u8> {
    AudioVolumeControl::new(Some(0u8)).unwrap()
}

#[test]
fn set_volume_refuses_levels_outside_unit_interval() {
    let mut fake = FakeVolume { level: 0.4, muted: false };
    let control = control();
    for level in [-0.1f32, 1.5, -1.0, 2.0, 1.0000001, f32::INFINITY, f32::NEG_INFINITY, f32::NAN] {
        match control.set_volume(level.to_bits()) {
            Ok(command) => perform(&mut fake, command),
            Err(e) => assert_eq!(e, MixerError::VolumeOutOfRange),
        }
        assert_eq!(fake.level, 0.4);
    }
    assert_eq!(control.set_volume((-0.1f32).to_bits()), Err(MixerError::VolumeOutOfRange));
    assert_eq!(control.set_volume(1.5f32.to_bits()), Err(MixerError::VolumeOutOfRange));
}

#[test]
fn get_volume_after_set_volume_returns_the_level() {
    let mut fake = FakeVolume { level: 0.1, muted: false };
    let control = control();
    let command = control.set_volume(0.75f32.to_bits()).unwrap();
    assert_eq!(command, VolumeCommand::SetMasterVolume(0x3F40_0000));
    perform(&mut fake, command);
    let read = control.get_volume(Some(fake.level.to_bits())).unwrap();
    assert!((f32::from_bits(read) - 0.75).abs() < 1e-4);
    assert_eq!(read, 0x3F40_0000);
}

#[test]
fn set_volume_accepts_the_interval_and_its_ends() {
    let control = control();
    assert_eq!(control.set_volume(0.0f32.to_bits()), Ok(VolumeCommand::SetMasterVolume(0)));
    assert_eq!(
        control.set_volume(1.0f32.to_bits()),
        Ok(VolumeCommand::SetMasterVolume(FULL_LEVEL_BITS))
    );
    assert_eq!(
        control.set_volume((-0.0f32).to_bits()),
        Ok(VolumeCommand::SetMasterVolume(NEGATIVE_ZERO_BITS))
    );
    assert_eq!(
        control.set_volume(f32::MIN_POSITIVE.to_bits()),
        Ok(VolumeCommand::SetMasterVolume(0x0080_0000))
    );
    assert_eq!(control.set_volume(0.5f32.to_bits()), Ok(VolumeCommand::SetMasterVolume(0x3F00_0000)));
}

#[test]
fn unit_level_agrees_with_float_comparison() {
    assert_eq!(FULL_LEVEL_BITS, 1.0f32.to_bits());
    assert_eq!(NEGATIVE_ZERO_BITS, (-0.0f32).to_bits());
    let mut bits: u32 = 0;
    loop {
        let level = f32::from_bits(bits);
        assert_eq!(unit_level(bits), (0.0..=1.0).contains(&level), "bits {bits:#x}");
        match bits.checked_add(0x0001_2345) {
            Some(next) => bits = next,
            None => break,
        }
    }
    for bits in [
        FULL_LEVEL_BITS - 1,
        FULL_LEVEL_BITS,
        FULL_LEVEL_BITS + 1,
        NEGATIVE_ZERO_BITS - 1,
        NEGATIVE_ZERO_BITS,
        NEGATIVE_ZERO_BITS + 1,
        0x7F80_0000,
        0x7FC0_0000,
        0xFF80_0000,
        u32::MAX,
    ] {
        assert_eq!(unit_level(bits), (0.0..=1.0).contains(&f32::from_bits(bits)), "bits {bits:#x}");
    }
}

#[test]
fn get_volume_tells_failure_from_a_level() {
    let control = control();
    assert_eq!(control.get_volume(None), Err(MixerError::InteropCastFailed));
    assert_eq!(control.get_volume(Some((-1.0f32).to_bits())), Err(MixerError::VolumeOutOfRange));
    assert_eq!(control.get_volume(Some(f32::NAN.to_bits())), Err(MixerError::VolumeOutOfRange));
    assert_eq!(control.get_volume(Some(0.0f32.to_bits())), Ok(0));
    assert_eq!(control.get_volume(Some(1.0f32.to_bits())), Ok(FULL_LEVEL_BITS));
    assert_eq!(control.get_volume(Some(0.3f32.to_bits())).map(f32::from_bits), Ok(0.3));
}

#[test]
fn set_mute_is_idempotent() {
    let mut fake = FakeVolume { level: 0.4, muted: false };
    let control = control();
    assert_eq!(control.set_mute(true), VolumeCommand::SetMute(true));
    perform(&mut fake, control.set_mute(true));
    assert!(fake.muted);
    perform(&mut fake, control.set_mute(true));
    assert!(fake.muted);
    perform(&mut fake, control.set_mute(false));
    assert!(!fake.muted);
    assert_eq!(fake.level, 0.4);
}

#[test]
fn volume_control_needs_the_interface() {
    assert!(matches!(AudioVolumeControl::<u8>::new(None), Err(MixerError::InteropCastFailed)));
    let control = AudioVolumeControl::new(Some(33u8)).unwrap();
    assert_eq!(*control.native(), 33);
}
