use laserport::command::{ColorFlow, ColorMode, MainSwitch, WavesX};
use laserport::fixture::{LaserState, LASER_CHANNELS};

#[test]
fn resting_state_channels() {
    let s = LaserState::new();
    assert_eq!(s.ch8, 128);
    assert_eq!(
        s.to_channels(),
        [0, 0, 0, 10, 0, 0, 0, 128, 0, 0, 0, 0, 64, 64, 0, 0]
    );
    assert_eq!(s.to_channels().len(), LASER_CHANNELS);
}

#[test]
fn commands_land_on_their_channels() {
    let mut s = LaserState::new();
    s.ch1 = MainSwitch::On;
    s.ch2 = ColorMode::OverallChange;
    s.ch3 = ColorFlow::Forward(50);
    s.ch5 = 42;
    s.ch15 = WavesX::AmpSpeed(1);
    let c = s.to_channels();
    assert_eq!(&c[..5], &[255, 75, 60, 10, 42]);
    assert_eq!(c[14], 34);
}
