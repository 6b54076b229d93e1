use laserport::fixture::LaserState;
use laserport::frame::{build_frame, check_address, FRAME_LEN, START_CODE};
use laserport::universe::{DmxError, DmxState, DMX_FRAME_SIZE};

#[test]
fn frame_from_address_one() {
    let mut s = DmxState::new(DMX_FRAME_SIZE);
    s.set_channel(1, 255).unwrap();
    s.set_channel(4, 100).unwrap();
    let f = build_frame(&s.channels, 1);
    assert_eq!(f.len(), 513);
    let mut expected = vec![0u8; 513];
    expected[1] = 255;
    expected[4] = 100;
    assert_eq!(f, expected);
}

#[test]
fn frame_always_has_start_code_and_full_length() {
    for address in [1usize, 2, 100, 497, 511, 512] {
        for len in [0usize, 1, 16, 512] {
            let data = vec![0xAAu8; len];
            let f = build_frame(&data, address);
            assert_eq!(f.len(), FRAME_LEN);
            assert_eq!(f[0], START_CODE);
        }
    }
}

#[test]
fn channels_past_the_last_slot_are_dropped() {
    let data: Vec<u8> = (1..=16u8).collect();
    let f = build_frame(&data, 510);
    assert_eq!(f.len(), 513);
    assert_eq!(&f[510..513], &[1, 2, 3]);
    assert!(f[1..510].iter().all(|&b| b == 0));
    assert!(!f.contains(&4));
}

#[test]
fn fixture_state_from_an_offset() {
    let s = LaserState::new();
    let f = build_frame(&s.to_channels(), 100);
    assert_eq!(&f[100..116], &s.to_channels());
    assert_eq!(f[99], 0);
    assert_eq!(f[116], 0);
}

#[test]
fn base_address_bounds() {
    assert_eq!(check_address(1), Ok(1));
    assert_eq!(check_address(512), Ok(512));
    assert_eq!(check_address(0), Err(DmxError::OutOfRangeAddress));
    assert_eq!(check_address(513), Err(DmxError::OutOfRangeAddress));
}
