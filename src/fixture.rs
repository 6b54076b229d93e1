//! The sixteen-channel state of a laser fixture, as typed commands.
use vstd::prelude::*;
use crate::command::{
    AutoScaling, ColorFlow, ColorMode, DynamicEffect, FlipHorizontal, GradualDrawing, GraphicsGroup,
    MainSwitch, MovementHorizontal, RotationCenter, WavesX,
};

verus! {

/// Number of DMX channels the fixture occupies.
pub const LASER_CHANNELS: usize = 16;

/// One command per fixture channel; `ch5`, `ch7` and `ch8` take raw bytes.
pub struct LaserState {
    /// Main switch.
    pub ch1: MainSwitch,
    /// Colour mode.
    pub ch2: ColorMode,
    /// Colour flow.
    pub ch3: ColorFlow,
    /// Graphics group.
    pub ch4: GraphicsGroup,
    /// Pattern selection.
    pub ch5: u8,
    /// Dynamic effect.
    pub ch6: DynamicEffect,
    /// Effect speed.
    pub ch7: u8,
    /// Pattern size.
    pub ch8: u8,
    /// Automatic scaling.
    pub ch9: AutoScaling,
    /// Rotation about the centre.
    pub ch10: RotationCenter,
    /// Flip about the X axis.
    pub ch11: FlipHorizontal,
    /// Flip about the Y axis.
    pub ch12: FlipHorizontal,
    /// Horizontal movement.
    pub ch13: MovementHorizontal,
    /// Vertical movement.
    pub ch14: MovementHorizontal,
    /// Wave effect.
    pub ch15: WavesX,
    /// Gradual drawing.
    pub ch16: GradualDrawing,
}

impl LaserState {
    /// The channel bytes of this state, channel 1 first.
    pub open spec fn spec_channels(&self) -> Seq<u8> {
        seq![
            self.ch1.spec_value() as u8,
            self.ch2.spec_value() as u8,
            self.ch3.spec_value() as u8,
            self.ch4.spec_value() as u8,
            self.ch5,
            self.ch6.spec_value() as u8,
            self.ch7,
            self.ch8,
            self.ch9.spec_value() as u8,
            self.ch10.spec_value() as u8,
            self.ch11.spec_value() as u8,
            self.ch12.spec_value() as u8,
            self.ch13.spec_value() as u8,
            self.ch14.spec_value() as u8,
            self.ch15.spec_value() as u8,
            self.ch16.spec_value() as u8,
        ]
    }

    /// The resting state: output off, middle size, movement centred, every
    /// effect inactive.
    pub fn new() -> (r: LaserState)
        ensures
            r == (LaserState {
                ch1: MainSwitch::Off,
                ch2: ColorMode::FixedWhite,
                ch3: ColorFlow::NoChange,
                ch4: GraphicsGroup::Static1,
                ch5: 0,
                ch6: DynamicEffect::Inactive,
                ch7: 0,
                ch8: 128,
                ch9: AutoScaling::SizeOption(0),
                ch10: RotationCenter::Angle(0),
                ch11: FlipHorizontal::Position(0),
                ch12: FlipHorizontal::Position(0),
                ch13: MovementHorizontal::Position(64),
                ch14: MovementHorizontal::Position(64),
                ch15: WavesX::Inactive,
                ch16: GradualDrawing::Inactive,
            }),
    {
        LaserState {
            ch1: MainSwitch::Off,
            ch2: ColorMode::FixedWhite,
            ch3: ColorFlow::NoChange,
            ch4: GraphicsGroup::Static1,
            ch5: 0,
            ch6: DynamicEffect::Inactive,
            ch7: 0,
            ch8: 128,
            ch9: AutoScaling::SizeOption(0),
            ch10: RotationCenter::Angle(0),
            ch11: FlipHorizontal::Position(0),
            ch12: FlipHorizontal::Position(0),
            ch13: MovementHorizontal::Position(64),
            ch14: MovementHorizontal::Position(64),
            ch15: WavesX::Inactive,
            ch16: GradualDrawing::Inactive,
        }
    }

    /// The sixteen channel bytes, channel 1 first, each command encoded.
    pub fn to_channels(&self) -> (r: [u8; 16])
        ensures
            r@ == self.spec_channels(),
    {
        let r: [u8; 16] = [
            self.ch1.to_u8(),
            self.ch2.to_u8(),
            self.ch3.to_u8(),
            self.ch4.to_u8(),
            self.ch5,
            self.ch6.to_u8(),
            self.ch7,
            self.ch8,
            self.ch9.to_u8(),
            self.ch10.to_u8(),
            self.ch11.to_u8(),
            self.ch12.to_u8(),
            self.ch13.to_u8(),
            self.ch14.to_u8(),
            self.ch15.to_u8(),
            self.ch16.to_u8(),
        ];
        assert(r@ =~= self.spec_channels());
        r
    }
}

} // verus!
