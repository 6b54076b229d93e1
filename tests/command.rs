use laserport::band::Band;
use laserport::command::{
    AutoScaling, ColorFlow, ColorMode, DynamicEffect, FlipHorizontal, GradualDrawing, GraphicsGroup,
    MainSwitch, MovementHorizontal, RotationCenter, WavesX,
};

fn in_band(b: Band, v: u8) -> bool {
    b.start <= v && v <= b.end
}

fn assert_disjoint(bands: &[Band]) {
    for (i, a) in bands.iter().enumerate() {
        assert!(a.start <= a.end);
        for (j, b) in bands.iter().enumerate() {
            if i != j {
                assert!(a.end < b.start || b.end < a.start, "{:?} meets {:?}", a, b);
            }
        }
    }
}

const SUBS: [u8; 8] = [0, 1, 7, 8, 63, 127, 200, 255];

#[test]
fn color_flow_forward_clamps_inside_its_band() {
    assert_eq!(ColorFlow::Forward(200).to_u8(), 127);
    assert_eq!(ColorFlow::Forward(117).to_u8(), 127);
    assert_eq!(ColorFlow::Forward(0).to_u8(), 10);
    assert_eq!(ColorFlow::Forward(50).to_u8(), 60);
    assert_eq!(ColorFlow::Reverse(0).to_u8(), 128);
    assert_eq!(ColorFlow::Reverse(255).to_u8(), 255);
    assert_eq!(ColorFlow::NoChange.to_u8(), 0);
    assert_eq!(ColorFlow::Forward(200).band(), Band { start: 10, end: 127 });
}

#[test]
fn fixed_commands_encode_their_constants() {
    assert_eq!(MainSwitch::Off.to_u8(), 0);
    assert_eq!(MainSwitch::On.to_u8(), 255);
    assert_eq!(ColorMode::OverallChange.to_u8(), 75);
    assert_eq!(ColorMode::Rainbow.to_u8(), 91);
    assert_eq!(ColorMode::Gradient.to_u8(), 255);
    assert_eq!(GraphicsGroup::Static5.to_u8(), 110);
    assert_eq!(GraphicsGroup::Animation5.to_u8(), 235);
    assert_eq!(DynamicEffect::AllRandom.to_u8(), 250);
    assert_eq!(AutoScaling::QuadraticIrregular.to_u8(), 230);
    assert_eq!(GradualDrawing::Manual2.to_u8(), 90);
    assert_eq!(GradualDrawing::AutoIncDecSame.to_u8(), 220);
}

#[test]
fn stepped_commands_clamp_to_their_last_step() {
    assert_eq!(DynamicEffect::Single(0).to_u8(), 2);
    assert_eq!(DynamicEffect::Single(10).to_u8(), 22);
    assert_eq!(DynamicEffect::Single(102).to_u8(), 206);
    assert_eq!(DynamicEffect::Single(255).to_u8(), 206);
    assert_eq!(WavesX::AmpSpeed(0).to_u8(), 2);
    assert_eq!(WavesX::AmpSpeed(3).to_u8(), 98);
    assert_eq!(WavesX::AmpSpeed(7).to_u8(), 226);
    assert_eq!(WavesX::AmpSpeed(100).to_u8(), 226);
    assert_eq!(AutoScaling::SizeOption(40).to_u8(), 15);
    assert_eq!(AutoScaling::SmallToLarge(255).to_u8(), 55);
    assert_eq!(AutoScaling::LargeToSmall(1).to_u8(), 57);
    assert_eq!(AutoScaling::ScalingSpeed(255).to_u8(), 135);
    assert_eq!(RotationCenter::Angle(200).to_u8(), 127);
    assert_eq!(RotationCenter::ForwardSpeed(255).to_u8(), 191);
    assert_eq!(RotationCenter::ReverseSpeed(255).to_u8(), 255);
    assert_eq!(FlipHorizontal::Position(128).to_u8(), 127);
    assert_eq!(FlipHorizontal::Speed(5).to_u8(), 133);
    assert_eq!(MovementHorizontal::Position(64).to_u8(), 64);
    assert_eq!(MovementHorizontal::CircularSpeed(255).to_u8(), 255);
    assert_eq!(GradualDrawing::AutoClockwise(255).to_u8(), 153);
    assert_eq!(GradualDrawing::AutoCounter(255).to_u8(), 179);
}

#[test]
fn every_command_stays_in_its_band() {
    for s in SUBS {
        let cmds: Vec<(Band, u8)> = vec![
            (ColorFlow::Forward(s).band(), ColorFlow::Forward(s).to_u8()),
            (ColorFlow::Reverse(s).band(), ColorFlow::Reverse(s).to_u8()),
            (DynamicEffect::Single(s).band(), DynamicEffect::Single(s).to_u8()),
            (AutoScaling::SizeOption(s).band(), AutoScaling::SizeOption(s).to_u8()),
            (AutoScaling::SmallToLarge(s).band(), AutoScaling::SmallToLarge(s).to_u8()),
            (AutoScaling::LargeToSmall(s).band(), AutoScaling::LargeToSmall(s).to_u8()),
            (AutoScaling::ScalingSpeed(s).band(), AutoScaling::ScalingSpeed(s).to_u8()),
            (RotationCenter::Angle(s).band(), RotationCenter::Angle(s).to_u8()),
            (RotationCenter::ForwardSpeed(s).band(), RotationCenter::ForwardSpeed(s).to_u8()),
            (RotationCenter::ReverseSpeed(s).band(), RotationCenter::ReverseSpeed(s).to_u8()),
            (FlipHorizontal::Position(s).band(), FlipHorizontal::Position(s).to_u8()),
            (FlipHorizontal::Speed(s).band(), FlipHorizontal::Speed(s).to_u8()),
            (MovementHorizontal::Position(s).band(), MovementHorizontal::Position(s).to_u8()),
            (MovementHorizontal::CircularSpeed(s).band(), MovementHorizontal::CircularSpeed(s).to_u8()),
            (WavesX::AmpSpeed(s).band(), WavesX::AmpSpeed(s).to_u8()),
            (GradualDrawing::AutoClockwise(s).band(), GradualDrawing::AutoClockwise(s).to_u8()),
            (GradualDrawing::AutoCounter(s).band(), GradualDrawing::AutoCounter(s).to_u8()),
        ];
        for (b, v) in cmds {
            assert!(in_band(b, v), "{} outside {:?}", v, b);
        }
    }
    for c in [MainSwitch::Off, MainSwitch::On] {
        assert!(in_band(c.band(), c.to_u8()));
    }
    for c in [ColorMode::FixedWhite, ColorMode::FixedRed, ColorMode::Seg2, ColorMode::Seg32] {
        assert!(in_band(c.band(), c.to_u8()));
    }
    for c in [GraphicsGroup::Static1, GraphicsGroup::Animation3] {
        assert!(in_band(c.band(), c.to_u8()));
    }
}

#[test]
fn band_tables_do_not_overlap() {
    assert_disjoint(&[MainSwitch::Off.band(), MainSwitch::On.band()]);
    assert_disjoint(&[
        ColorMode::FixedWhite.band(),
        ColorMode::FixedRed.band(),
        ColorMode::OverallChange.band(),
        ColorMode::PatternInitial.band(),
        ColorMode::Rainbow.band(),
        ColorMode::Seg2.band(),
        ColorMode::Seg3.band(),
        ColorMode::Seg4.band(),
        ColorMode::Seg8.band(),
        ColorMode::Seg16.band(),
        ColorMode::Seg32.band(),
        ColorMode::Gradient.band(),
    ]);
    assert_disjoint(&[ColorFlow::NoChange.band(), ColorFlow::Forward(0).band(), ColorFlow::Reverse(0).band()]);
    assert_disjoint(&[
        GraphicsGroup::Static1.band(),
        GraphicsGroup::Static2.band(),
        GraphicsGroup::Static3.band(),
        GraphicsGroup::Static4.band(),
        GraphicsGroup::Static5.band(),
        GraphicsGroup::Animation1.band(),
        GraphicsGroup::Animation2.band(),
        GraphicsGroup::Animation3.band(),
        GraphicsGroup::Animation4.band(),
        GraphicsGroup::Animation5.band(),
    ]);
    assert_disjoint(&[
        DynamicEffect::Inactive.band(),
        DynamicEffect::Single(0).band(),
        DynamicEffect::LineRandom.band(),
        DynamicEffect::AnimationRandom.band(),
        DynamicEffect::ChristmasRandom.band(),
        DynamicEffect::OutdoorRandom.band(),
        DynamicEffect::AllRandom.band(),
    ]);
    assert_disjoint(&[
        AutoScaling::SizeOption(0).band(),
        AutoScaling::SmallToLarge(0).band(),
        AutoScaling::LargeToSmall(0).band(),
        AutoScaling::ScalingSpeed(0).band(),
        AutoScaling::TwoPointIrregular.band(),
        AutoScaling::ThreeQuarterIrregular.band(),
        AutoScaling::QuadraticIrregular.band(),
    ]);
    assert_disjoint(&[
        RotationCenter::Angle(0).band(),
        RotationCenter::ForwardSpeed(0).band(),
        RotationCenter::ReverseSpeed(0).band(),
    ]);
    assert_disjoint(&[FlipHorizontal::Position(0).band(), FlipHorizontal::Speed(0).band()]);
    assert_disjoint(&[MovementHorizontal::Position(0).band(), MovementHorizontal::CircularSpeed(0).band()]);
    assert_disjoint(&[WavesX::Inactive.band(), WavesX::AmpSpeed(0).band()]);
    assert_disjoint(&[
        GradualDrawing::Inactive.band(),
        GradualDrawing::Manual1.band(),
        GradualDrawing::Manual2.band(),
        GradualDrawing::AutoClockwise(0).band(),
        GradualDrawing::AutoCounter(0).band(),
        GradualDrawing::AutoIncDecReverse.band(),
        GradualDrawing::AutoIncDecSame.band(),
    ]);
}
