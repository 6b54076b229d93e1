//! Semantic fixture commands, one type per channel, each encoded into a byte
//! that lies inside the band its table declares for it.
use vstd::prelude::*;
use crate::band::{
    Band, ascending_from, band_contains, lemma_ascending_well_formed, lemma_chain_ascending, stepped,
    stepped_value, table_well_formed,
};

verus! {

/// Channel 1: the main output switch.
#[derive(Clone, Copy, Debug, PartialEq, Eq, Structural)]
pub enum MainSwitch {
    /// Output off. Bytes 0 to 9.
    Off,
    /// Output on. Bytes 10 to 255.
    On,
}

impl MainSwitch {
    /// The bands of this channel, one for each variant, in declaration order.
    pub open spec fn table() -> Seq<Band> {
        seq![
            Band { start: 0, end: 9 },
            Band { start: 10, end: 255 },
        ]
    }

    /// Position of this command's band in the table.
    pub open spec fn band_index(&self) -> int {
        match *self {
            MainSwitch::Off => 0,
            MainSwitch::On => 1,
        }
    }

    /// The band that this command's byte belongs to.
    pub open spec fn spec_band(&self) -> Band {
        Self::table()[self.band_index()]
    }

    /// The byte for this command: a fixed byte of the band, or the band's
    /// start advanced by the clamped sub-parameter.
    pub open spec fn spec_value(&self) -> int {
        match *self {
            MainSwitch::Off => 0,
            MainSwitch::On => 255,
        }
    }

    /// The band that this command's byte belongs to.
    pub fn band(&self) -> (r: Band)
        ensures
            r == self.spec_band(),
    {
        match self {
            MainSwitch::Off => Band { start: 0, end: 9 },
            MainSwitch::On => Band { start: 10, end: 255 },
        }
    }

    /// The byte that carries this command; it never leaves the command's band.
    pub fn to_u8(&self) -> (r: u8)
        ensures
            r == self.spec_value(),
            band_contains(self.spec_band(), r as int),
    {
        match self {
            MainSwitch::Off => 0,
            MainSwitch::On => 255,
        }
    }
}

/// Channel 2: colour selection.
#[derive(Clone, Copy, Debug, PartialEq, Eq, Structural)]
pub enum ColorMode {
    /// Fixed white. Bytes 0 to 9.
    FixedWhite,
    /// Fixed red. Bytes 10 to 19.
    FixedRed,
    /// Whole-pattern colour change. Bytes 70 to 79.
    OverallChange,
    /// The pattern's own initial colours. Bytes 80 to 89.
    PatternInitial,
    /// Rainbow colours. Bytes 90 to 92.
    Rainbow,
    /// Two colour segments. Bytes 93 to 110.
    Seg2,
    /// Three colour segments. Bytes 111 to 131.
    Seg3,
    /// Four colour segments. Bytes 132 to 149.
    Seg4,
    /// Eight colour segments. Bytes 150 to 182.
    Seg8,
    /// Sixteen colour segments. Bytes 183 to 218.
    Seg16,
    /// Thirty-two colour segments. Bytes 219 to 253.
    Seg32,
    /// Colour gradient. Bytes 254 to 255.
    Gradient,
}

impl ColorMode {
    /// The bands of this channel, one for each variant, in declaration order.
    pub open spec fn table() -> Seq<Band> {
        seq![
            Band { start: 0, end: 9 },
            Band { start: 10, end: 19 },
            Band { start: 70, end: 79 },
            Band { start: 80, end: 89 },
            Band { start: 90, end: 92 },
            Band { start: 93, end: 110 },
            Band { start: 111, end: 131 },
            Band { start: 132, end: 149 },
            Band { start: 150, end: 182 },
            Band { start: 183, end: 218 },
            Band { start: 219, end: 253 },
            Band { start: 254, end: 255 },
        ]
    }

    /// Position of this command's band in the table.
    pub open spec fn band_index(&self) -> int {
        match *self {
            ColorMode::FixedWhite => 0,
            ColorMode::FixedRed => 1,
            ColorMode::OverallChange => 2,
            ColorMode::PatternInitial => 3,
            ColorMode::Rainbow => 4,
            ColorMode::Seg2 => 5,
            ColorMode::Seg3 => 6,
            ColorMode::Seg4 => 7,
            ColorMode::Seg8 => 8,
            ColorMode::Seg16 => 9,
            ColorMode::Seg32 => 10,
            ColorMode::Gradient => 11,
        }
    }

    /// The band that this command's byte belongs to.
    pub open spec fn spec_band(&self) -> Band {
        Self::table()[self.band_index()]
    }

    /// The byte for this command: a fixed byte of the band, or the band's
    /// start advanced by the clamped sub-parameter.
    pub open spec fn spec_value(&self) -> int {
        match *self {
            ColorMode::FixedWhite => 0,
            ColorMode::FixedRed => 10,
            ColorMode::OverallChange => 75,
            ColorMode::PatternInitial => 85,
            ColorMode::Rainbow => 91,
            ColorMode::Seg2 => 100,
            ColorMode::Seg3 => 120,
            ColorMode::Seg4 => 140,
            ColorMode::Seg8 => 160,
            ColorMode::Seg16 => 200,
            ColorMode::Seg32 => 230,
            ColorMode::Gradient => 255,
        }
    }

    /// The band that this command's byte belongs to.
    pub fn band(&self) -> (r: Band)
        ensures
            r == self.spec_band(),
    {
        match self {
            ColorMode::FixedWhite => Band { start: 0, end: 9 },
            ColorMode::FixedRed => Band { start: 10, end: 19 },
            ColorMode::OverallChange => Band { start: 70, end: 79 },
            ColorMode::PatternInitial => Band { start: 80, end: 89 },
            ColorMode::Rainbow => Band { start: 90, end: 92 },
            ColorMode::Seg2 => Band { start: 93, end: 110 },
            ColorMode::Seg3 => Band { start: 111, end: 131 },
            ColorMode::Seg4 => Band { start: 132, end: 149 },
            ColorMode::Seg8 => Band { start: 150, end: 182 },
            ColorMode::Seg16 => Band { start: 183, end: 218 },
            ColorMode::Seg32 => Band { start: 219, end: 253 },
            ColorMode::Gradient => Band { start: 254, end: 255 },
        }
    }

    /// The byte that carries this command; it never leaves the command's band.
    pub fn to_u8(&self) -> (r: u8)
        ensures
            r == self.spec_value(),
            band_contains(self.spec_band(), r as int),
    {
        match self {
            ColorMode::FixedWhite => 0,
            ColorMode::FixedRed => 10,
            ColorMode::OverallChange => 75,
            ColorMode::PatternInitial => 85,
            ColorMode::Rainbow => 91,
            ColorMode::Seg2 => 100,
            ColorMode::Seg3 => 120,
            ColorMode::Seg4 => 140,
            ColorMode::Seg8 => 160,
            ColorMode::Seg16 => 200,
            ColorMode::Seg32 => 230,
            ColorMode::Gradient => 255,
        }
    }
}

/// Channel 3: colour flow direction and speed.
#[derive(Clone, Copy, Debug, PartialEq, Eq, Structural)]
pub enum ColorFlow {
    /// No colour flow. Bytes 0 to 9.
    NoChange,
    /// Forward flow, slow to fast. Bytes 10 to 127.
    Forward(u8),
    /// Reverse flow, slow to fast. Bytes 128 to 255.
    Reverse(u8),
}

impl ColorFlow {
    /// The bands of this channel, one for each variant, in declaration order.
    pub open spec fn table() -> Seq<Band> {
        seq![
            Band { start: 0, end: 9 },
            Band { start: 10, end: 127 },
            Band { start: 128, end: 255 },
        ]
    }

    /// Position of this command's band in the table.
    pub open spec fn band_index(&self) -> int {
        match *self {
            ColorFlow::NoChange => 0,
            ColorFlow::Forward(_) => 1,
            ColorFlow::Reverse(_) => 2,
        }
    }

    /// The band that this command's byte belongs to.
    pub open spec fn spec_band(&self) -> Band {
        Self::table()[self.band_index()]
    }

    /// The byte for this command: a fixed byte of the band, or the band's
    /// start advanced by the clamped sub-parameter.
    pub open spec fn spec_value(&self) -> int {
        match *self {
            ColorFlow::NoChange => 0,
            ColorFlow::Forward(speed) => stepped_value(self.spec_band(), speed, 1),
            ColorFlow::Reverse(speed) => stepped_value(self.spec_band(), speed, 1),
        }
    }

    /// The band that this command's byte belongs to.
    pub fn band(&self) -> (r: Band)
        ensures
            r == self.spec_band(),
    {
        match self {
            ColorFlow::NoChange => Band { start: 0, end: 9 },
            ColorFlow::Forward(_) => Band { start: 10, end: 127 },
            ColorFlow::Reverse(_) => Band { start: 128, end: 255 },
        }
    }

    /// The byte that carries this command; it never leaves the command's band.
    pub fn to_u8(&self) -> (r: u8)
        ensures
            r == self.spec_value(),
            band_contains(self.spec_band(), r as int),
    {
        match self {
            ColorFlow::NoChange => 0,
            ColorFlow::Forward(speed) => stepped(self.band(), *speed, 1),
            ColorFlow::Reverse(speed) => stepped(self.band(), *speed, 1),
        }
    }
}

/// Channel 4: the group of built-in graphics.
#[derive(Clone, Copy, Debug, PartialEq, Eq, Structural)]
pub enum GraphicsGroup {
    /// Static group 1: basic geometry. Bytes 0 to 24.
    Static1,
    /// Static group 2. Bytes 25 to 49.
    Static2,
    /// Static group 3: edge highlight. Bytes 50 to 74.
    Static3,
    /// Static group 4: dotted. Bytes 75 to 99.
    Static4,
    /// Static group 5: Christmas. Bytes 100 to 124.
    Static5,
    /// Animation group 1. Bytes 125 to 149.
    Animation1,
    /// Animation group 2. Bytes 150 to 174.
    Animation2,
    /// Animation group 3. Bytes 175 to 199.
    Animation3,
    /// Animation group 4. Bytes 200 to 224.
    Animation4,
    /// Animation group 5. Bytes 225 to 255.
    Animation5,
}

impl GraphicsGroup {
    /// The bands of this channel, one for each variant, in declaration order.
    pub open spec fn table() -> Seq<Band> {
        seq![
            Band { start: 0, end: 24 },
            Band { start: 25, end: 49 },
            Band { start: 50, end: 74 },
            Band { start: 75, end: 99 },
            Band { start: 100, end: 124 },
            Band { start: 125, end: 149 },
            Band { start: 150, end: 174 },
            Band { start: 175, end: 199 },
            Band { start: 200, end: 224 },
            Band { start: 225, end: 255 },
        ]
    }

    /// Position of this command's band in the table.
    pub open spec fn band_index(&self) -> int {
        match *self {
            GraphicsGroup::Static1 => 0,
            GraphicsGroup::Static2 => 1,
            GraphicsGroup::Static3 => 2,
            GraphicsGroup::Static4 => 3,
            GraphicsGroup::Static5 => 4,
            GraphicsGroup::Animation1 => 5,
            GraphicsGroup::Animation2 => 6,
            GraphicsGroup::Animation3 => 7,
            GraphicsGroup::Animation4 => 8,
            GraphicsGroup::Animation5 => 9,
        }
    }

    /// The band that this command's byte belongs to.
    pub open spec fn spec_band(&self) -> Band {
        Self::table()[self.band_index()]
    }

    /// The byte for this command: a fixed byte of the band, or the band's
    /// start advanced by the clamped sub-parameter.
    pub open spec fn spec_value(&self) -> int {
        match *self {
            GraphicsGroup::Static1 => 10,
            GraphicsGroup::Static2 => 35,
            GraphicsGroup::Static3 => 60,
            GraphicsGroup::Static4 => 85,
            GraphicsGroup::Static5 => 110,
            GraphicsGroup::Animation1 => 135,
            GraphicsGroup::Animation2 => 160,
            GraphicsGroup::Animation3 => 185,
            GraphicsGroup::Animation4 => 210,
            GraphicsGroup::Animation5 => 235,
        }
    }

    /// The band that this command's byte belongs to.
    pub fn band(&self) -> (r: Band)
        ensures
            r == self.spec_band(),
    {
        match self {
            GraphicsGroup::Static1 => Band { start: 0, end: 24 },
            GraphicsGroup::Static2 => Band { start: 25, end: 49 },
            GraphicsGroup::Static3 => Band { start: 50, end: 74 },
            GraphicsGroup::Static4 => Band { start: 75, end: 99 },
            GraphicsGroup::Static5 => Band { start: 100, end: 124 },
            GraphicsGroup::Animation1 => Band { start: 125, end: 149 },
            GraphicsGroup::Animation2 => Band { start: 150, end: 174 },
            GraphicsGroup::Animation3 => Band { start: 175, end: 199 },
            GraphicsGroup::Animation4 => Band { start: 200, end: 224 },
            GraphicsGroup::Animation5 => Band { start: 225, end: 255 },
        }
    }

    /// The byte that carries this command; it never leaves the command's band.
    pub fn to_u8(&self) -> (r: u8)
        ensures
            r == self.spec_value(),
            band_contains(self.spec_band(), r as int),
    {
        match self {
            GraphicsGroup::Static1 => 10,
            GraphicsGroup::Static2 => 35,
            GraphicsGroup::Static3 => 60,
            GraphicsGroup::Static4 => 85,
            GraphicsGroup::Static5 => 110,
            GraphicsGroup::Animation1 => 135,
            GraphicsGroup::Animation2 => 160,
            GraphicsGroup::Animation3 => 185,
            GraphicsGroup::Animation4 => 210,
            GraphicsGroup::Animation5 => 235,
        }
    }
}

/// Channel 6: dynamic effects.
#[derive(Clone, Copy, Debug, PartialEq, Eq, Structural)]
pub enum DynamicEffect {
    /// No dynamic effect. Bytes 0 to 1.
    Inactive,
    /// One effect by number; each number takes two bytes. Bytes 2 to 206.
    Single(u8),
    /// Random line effects. Bytes 207 to 216.
    LineRandom,
    /// Random animation effects. Bytes 217 to 226.
    AnimationRandom,
    /// Random Christmas effects. Bytes 227 to 236.
    ChristmasRandom,
    /// Random outdoor effects. Bytes 237 to 246.
    OutdoorRandom,
    /// Random effects from every group. Bytes 247 to 255.
    AllRandom,
}

impl DynamicEffect {
    /// The bands of this channel, one for each variant, in declaration order.
    pub open spec fn table() -> Seq<Band> {
        seq![
            Band { start: 0, end: 1 },
            Band { start: 2, end: 206 },
            Band { start: 207, end: 216 },
            Band { start: 217, end: 226 },
            Band { start: 227, end: 236 },
            Band { start: 237, end: 246 },
            Band { start: 247, end: 255 },
        ]
    }

    /// Position of this command's band in the table.
    pub open spec fn band_index(&self) -> int {
        match *self {
            DynamicEffect::Inactive => 0,
            DynamicEffect::Single(_) => 1,
            DynamicEffect::LineRandom => 2,
            DynamicEffect::AnimationRandom => 3,
            DynamicEffect::ChristmasRandom => 4,
            DynamicEffect::OutdoorRandom => 5,
            DynamicEffect::AllRandom => 6,
        }
    }

    /// The band that this command's byte belongs to.
    pub open spec fn spec_band(&self) -> Band {
        Self::table()[self.band_index()]
    }

    /// The byte for this command: a fixed byte of the band, or the band's
    /// start advanced by the clamped sub-parameter.
    pub open spec fn spec_value(&self) -> int {
        match *self {
            DynamicEffect::Inactive => 0,
            DynamicEffect::Single(id) => stepped_value(self.spec_band(), id, 2),
            DynamicEffect::LineRandom => 210,
            DynamicEffect::AnimationRandom => 220,
            DynamicEffect::ChristmasRandom => 230,
            DynamicEffect::OutdoorRandom => 240,
            DynamicEffect::AllRandom => 250,
        }
    }

    /// The band that this command's byte belongs to.
    pub fn band(&self) -> (r: Band)
        ensures
            r == self.spec_band(),
    {
        match self {
            DynamicEffect::Inactive => Band { start: 0, end: 1 },
            DynamicEffect::Single(_) => Band { start: 2, end: 206 },
            DynamicEffect::LineRandom => Band { start: 207, end: 216 },
            DynamicEffect::AnimationRandom => Band { start: 217, end: 226 },
            DynamicEffect::ChristmasRandom => Band { start: 227, end: 236 },
            DynamicEffect::OutdoorRandom => Band { start: 237, end: 246 },
            DynamicEffect::AllRandom => Band { start: 247, end: 255 },
        }
    }

    /// The byte that carries this command; it never leaves the command's band.
    pub fn to_u8(&self) -> (r: u8)
        ensures
            r == self.spec_value(),
            band_contains(self.spec_band(), r as int),
    {
        match self {
            DynamicEffect::Inactive => 0,
            DynamicEffect::Single(id) => stepped(self.band(), *id, 2),
            DynamicEffect::LineRandom => 210,
            DynamicEffect::AnimationRandom => 220,
            DynamicEffect::ChristmasRandom => 230,
            DynamicEffect::OutdoorRandom => 240,
            DynamicEffect::AllRandom => 250,
        }
    }
}

/// Channel 9: pattern size and automatic scaling.
#[derive(Clone, Copy, Debug, PartialEq, Eq, Structural)]
pub enum AutoScaling {
    /// A fixed size option. Bytes 0 to 15.
    SizeOption(u8),
    /// Grow from small to large, at a speed. Bytes 16 to 55.
    SmallToLarge(u8),
    /// Shrink from large to small, at a speed. Bytes 56 to 95.
    LargeToSmall(u8),
    /// Scale back and forth, at a speed. Bytes 96 to 135.
    ScalingSpeed(u8),
    /// Irregular two-point scaling. Bytes 136 to 175.
    TwoPointIrregular,
    /// Irregular three-quarter scaling. Bytes 176 to 215.
    ThreeQuarterIrregular,
    /// Irregular quadratic scaling. Bytes 216 to 255.
    QuadraticIrregular,
}

impl AutoScaling {
    /// The bands of this channel, one for each variant, in declaration order.
    pub open spec fn table() -> Seq<Band> {
        seq![
            Band { start: 0, end: 15 },
            Band { start: 16, end: 55 },
            Band { start: 56, end: 95 },
            Band { start: 96, end: 135 },
            Band { start: 136, end: 175 },
            Band { start: 176, end: 215 },
            Band { start: 216, end: 255 },
        ]
    }

    /// Position of this command's band in the table.
    pub open spec fn band_index(&self) -> int {
        match *self {
            AutoScaling::SizeOption(_) => 0,
            AutoScaling::SmallToLarge(_) => 1,
            AutoScaling::LargeToSmall(_) => 2,
            AutoScaling::ScalingSpeed(_) => 3,
            AutoScaling::TwoPointIrregular => 4,
            AutoScaling::ThreeQuarterIrregular => 5,
            AutoScaling::QuadraticIrregular => 6,
        }
    }

    /// The band that this command's byte belongs to.
    pub open spec fn spec_band(&self) -> Band {
        Self::table()[self.band_index()]
    }

    /// The byte for this command: a fixed byte of the band, or the band's
    /// start advanced by the clamped sub-parameter.
    pub open spec fn spec_value(&self) -> int {
        match *self {
            AutoScaling::SizeOption(val) => stepped_value(self.spec_band(), val, 1),
            AutoScaling::SmallToLarge(speed) => stepped_value(self.spec_band(), speed, 1),
            AutoScaling::LargeToSmall(speed) => stepped_value(self.spec_band(), speed, 1),
            AutoScaling::ScalingSpeed(speed) => stepped_value(self.spec_band(), speed, 1),
            AutoScaling::TwoPointIrregular => 150,
            AutoScaling::ThreeQuarterIrregular => 190,
            AutoScaling::QuadraticIrregular => 230,
        }
    }

    /// The band that this command's byte belongs to.
    pub fn band(&self) -> (r: Band)
        ensures
            r == self.spec_band(),
    {
        match self {
            AutoScaling::SizeOption(_) => Band { start: 0, end: 15 },
            AutoScaling::SmallToLarge(_) => Band { start: 16, end: 55 },
            AutoScaling::LargeToSmall(_) => Band { start: 56, end: 95 },
            AutoScaling::ScalingSpeed(_) => Band { start: 96, end: 135 },
            AutoScaling::TwoPointIrregular => Band { start: 136, end: 175 },
            AutoScaling::ThreeQuarterIrregular => Band { start: 176, end: 215 },
            AutoScaling::QuadraticIrregular => Band { start: 216, end: 255 },
        }
    }

    /// The byte that carries this command; it never leaves the command's band.
    pub fn to_u8(&self) -> (r: u8)
        ensures
            r == self.spec_value(),
            band_contains(self.spec_band(), r as int),
    {
        match self {
            AutoScaling::SizeOption(val) => stepped(self.band(), *val, 1),
            AutoScaling::SmallToLarge(speed) => stepped(self.band(), *speed, 1),
            AutoScaling::LargeToSmall(speed) => stepped(self.band(), *speed, 1),
            AutoScaling::ScalingSpeed(speed) => stepped(self.band(), *speed, 1),
            AutoScaling::TwoPointIrregular => 150,
            AutoScaling::ThreeQuarterIrregular => 190,
            AutoScaling::QuadraticIrregular => 230,
        }
    }
}

/// Channel 10: rotation about the pattern's centre.
#[derive(Clone, Copy, Debug, PartialEq, Eq, Structural)]
pub enum RotationCenter {
    /// A fixed angle. Bytes 0 to 127.
    Angle(u8),
    /// Clockwise rotation, at a speed. Bytes 128 to 191.
    ForwardSpeed(u8),
    /// Counter-clockwise rotation, at a speed. Bytes 192 to 255.
    ReverseSpeed(u8),
}

impl RotationCenter {
    /// The bands of this channel, one for each variant, in declaration order.
    pub open spec fn table() -> Seq<Band> {
        seq![
            Band { start: 0, end: 127 },
            Band { start: 128, end: 191 },
            Band { start: 192, end: 255 },
        ]
    }

    /// Position of this command's band in the table.
    pub open spec fn band_index(&self) -> int {
        match *self {
            RotationCenter::Angle(_) => 0,
            RotationCenter::ForwardSpeed(_) => 1,
            RotationCenter::ReverseSpeed(_) => 2,
        }
    }

    /// The band that this command's byte belongs to.
    pub open spec fn spec_band(&self) -> Band {
        Self::table()[self.band_index()]
    }

    /// The byte for this command: a fixed byte of the band, or the band's
    /// start advanced by the clamped sub-parameter.
    pub open spec fn spec_value(&self) -> int {
        match *self {
            RotationCenter::Angle(angle) => stepped_value(self.spec_band(), angle, 1),
            RotationCenter::ForwardSpeed(speed) => stepped_value(self.spec_band(), speed, 1),
            RotationCenter::ReverseSpeed(speed) => stepped_value(self.spec_band(), speed, 1),
        }
    }

    /// The band that this command's byte belongs to.
    pub fn band(&self) -> (r: Band)
        ensures
            r == self.spec_band(),
    {
        match self {
            RotationCenter::Angle(_) => Band { start: 0, end: 127 },
            RotationCenter::ForwardSpeed(_) => Band { start: 128, end: 191 },
            RotationCenter::ReverseSpeed(_) => Band { start: 192, end: 255 },
        }
    }

    /// The byte that carries this command; it never leaves the command's band.
    pub fn to_u8(&self) -> (r: u8)
        ensures
            r == self.spec_value(),
            band_contains(self.spec_band(), r as int),
    {
        match self {
            RotationCenter::Angle(angle) => stepped(self.band(), *angle, 1),
            RotationCenter::ForwardSpeed(speed) => stepped(self.band(), *speed, 1),
            RotationCenter::ReverseSpeed(speed) => stepped(self.band(), *speed, 1),
        }
    }
}

/// Channels 11 and 12: flip about an axis.
#[derive(Clone, Copy, Debug, PartialEq, Eq, Structural)]
pub enum FlipHorizontal {
    /// A fixed flip position. Bytes 0 to 127.
    Position(u8),
    /// Continuous flipping, at a speed. Bytes 128 to 255.
    Speed(u8),
}

impl FlipHorizontal {
    /// The bands of this channel, one for each variant, in declaration order.
    pub open spec fn table() -> Seq<Band> {
        seq![
            Band { start: 0, end: 127 },
            Band { start: 128, end: 255 },
        ]
    }

    /// Position of this command's band in the table.
    pub open spec fn band_index(&self) -> int {
        match *self {
            FlipHorizontal::Position(_) => 0,
            FlipHorizontal::Speed(_) => 1,
        }
    }

    /// The band that this command's byte belongs to.
    pub open spec fn spec_band(&self) -> Band {
        Self::table()[self.band_index()]
    }

    /// The byte for this command: a fixed byte of the band, or the band's
    /// start advanced by the clamped sub-parameter.
    pub open spec fn spec_value(&self) -> int {
        match *self {
            FlipHorizontal::Position(pos) => stepped_value(self.spec_band(), pos, 1),
            FlipHorizontal::Speed(speed) => stepped_value(self.spec_band(), speed, 1),
        }
    }

    /// The band that this command's byte belongs to.
    pub fn band(&self) -> (r: Band)
        ensures
            r == self.spec_band(),
    {
        match self {
            FlipHorizontal::Position(_) => Band { start: 0, end: 127 },
            FlipHorizontal::Speed(_) => Band { start: 128, end: 255 },
        }
    }

    /// The byte that carries this command; it never leaves the command's band.
    pub fn to_u8(&self) -> (r: u8)
        ensures
            r == self.spec_value(),
            band_contains(self.spec_band(), r as int),
    {
        match self {
            FlipHorizontal::Position(pos) => stepped(self.band(), *pos, 1),
            FlipHorizontal::Speed(speed) => stepped(self.band(), *speed, 1),
        }
    }
}

/// Channels 13 and 14: movement along an axis.
#[derive(Clone, Copy, Debug, PartialEq, Eq, Structural)]
pub enum MovementHorizontal {
    /// A fixed position. Bytes 0 to 127.
    Position(u8),
    /// Circular movement, at a speed. Bytes 128 to 255.
    CircularSpeed(u8),
}

impl MovementHorizontal {
    /// The bands of this channel, one for each variant, in declaration order.
    pub open spec fn table() -> Seq<Band> {
        seq![
            Band { start: 0, end: 127 },
            Band { start: 128, end: 255 },
        ]
    }

    /// Position of this command's band in the table.
    pub open spec fn band_index(&self) -> int {
        match *self {
            MovementHorizontal::Position(_) => 0,
            MovementHorizontal::CircularSpeed(_) => 1,
        }
    }

    /// The band that this command's byte belongs to.
    pub open spec fn spec_band(&self) -> Band {
        Self::table()[self.band_index()]
    }

    /// The byte for this command: a fixed byte of the band, or the band's
    /// start advanced by the clamped sub-parameter.
    pub open spec fn spec_value(&self) -> int {
        match *self {
            MovementHorizontal::Position(pos) => stepped_value(self.spec_band(), pos, 1),
            MovementHorizontal::CircularSpeed(speed) => stepped_value(self.spec_band(), speed, 1),
        }
    }

    /// The band that this command's byte belongs to.
    pub fn band(&self) -> (r: Band)
        ensures
            r == self.spec_band(),
    {
        match self {
            MovementHorizontal::Position(_) => Band { start: 0, end: 127 },
            MovementHorizontal::CircularSpeed(_) => Band { start: 128, end: 255 },
        }
    }

    /// The byte that carries this command; it never leaves the command's band.
    pub fn to_u8(&self) -> (r: u8)
        ensures
            r == self.spec_value(),
            band_contains(self.spec_band(), r as int),
    {
        match self {
            MovementHorizontal::Position(pos) => stepped(self.band(), *pos, 1),
            MovementHorizontal::CircularSpeed(speed) => stepped(self.band(), *speed, 1),
        }
    }
}

/// Channel 15: wave effect.
#[derive(Clone, Copy, Debug, PartialEq, Eq, Structural)]
pub enum WavesX {
    /// No wave. Bytes 0 to 1.
    Inactive,
    /// One of eight amplitude and speed gears, 32 bytes apart. Bytes 2 to 255.
    AmpSpeed(u8),
}

impl WavesX {
    /// The bands of this channel, one for each variant, in declaration order.
    pub open spec fn table() -> Seq<Band> {
        seq![
            Band { start: 0, end: 1 },
            Band { start: 2, end: 255 },
        ]
    }

    /// Position of this command's band in the table.
    pub open spec fn band_index(&self) -> int {
        match *self {
            WavesX::Inactive => 0,
            WavesX::AmpSpeed(_) => 1,
        }
    }

    /// The band that this command's byte belongs to.
    pub open spec fn spec_band(&self) -> Band {
        Self::table()[self.band_index()]
    }

    /// The byte for this command: a fixed byte of the band, or the band's
    /// start advanced by the clamped sub-parameter.
    pub open spec fn spec_value(&self) -> int {
        match *self {
            WavesX::Inactive => 0,
            WavesX::AmpSpeed(gear) => stepped_value(self.spec_band(), gear, 32),
        }
    }

    /// The band that this command's byte belongs to.
    pub fn band(&self) -> (r: Band)
        ensures
            r == self.spec_band(),
    {
        match self {
            WavesX::Inactive => Band { start: 0, end: 1 },
            WavesX::AmpSpeed(_) => Band { start: 2, end: 255 },
        }
    }

    /// The byte that carries this command; it never leaves the command's band.
    pub fn to_u8(&self) -> (r: u8)
        ensures
            r == self.spec_value(),
            band_contains(self.spec_band(), r as int),
    {
        match self {
            WavesX::Inactive => 0,
            WavesX::AmpSpeed(gear) => stepped(self.band(), *gear, 32),
        }
    }
}

/// Channel 16: gradual drawing of the pattern.
#[derive(Clone, Copy, Debug, PartialEq, Eq, Structural)]
pub enum GradualDrawing {
    /// No gradual drawing. Bytes 0 to 1.
    Inactive,
    /// Manual drawing, first range. Bytes 2 to 63.
    Manual1,
    /// Manual drawing, second range. Bytes 64 to 127.
    Manual2,
    /// Automatic clockwise drawing, at a speed. Bytes 128 to 153.
    AutoClockwise(u8),
    /// Automatic counter-clockwise drawing, at a speed. Bytes 154 to 179.
    AutoCounter(u8),
    /// Automatic growing and shrinking, reversed. Bytes 180 to 205.
    AutoIncDecReverse,
    /// Automatic growing and shrinking, same direction. Bytes 206 to 255.
    AutoIncDecSame,
}

impl GradualDrawing {
    /// The bands of this channel, one for each variant, in declaration order.
    pub open spec fn table() -> Seq<Band> {
        seq![
            Band { start: 0, end: 1 },
            Band { start: 2, end: 63 },
            Band { start: 64, end: 127 },
            Band { start: 128, end: 153 },
            Band { start: 154, end: 179 },
            Band { start: 180, end: 205 },
            Band { start: 206, end: 255 },
        ]
    }

    /// Position of this command's band in the table.
    pub open spec fn band_index(&self) -> int {
        match *self {
            GradualDrawing::Inactive => 0,
            GradualDrawing::Manual1 => 1,
            GradualDrawing::Manual2 => 2,
            GradualDrawing::AutoClockwise(_) => 3,
            GradualDrawing::AutoCounter(_) => 4,
            GradualDrawing::AutoIncDecReverse => 5,
            GradualDrawing::AutoIncDecSame => 6,
        }
    }

    /// The band that this command's byte belongs to.
    pub open spec fn spec_band(&self) -> Band {
        Self::table()[self.band_index()]
    }

    /// The byte for this command: a fixed byte of the band, or the band's
    /// start advanced by the clamped sub-parameter.
    pub open spec fn spec_value(&self) -> int {
        match *self {
            GradualDrawing::Inactive => 0,
            GradualDrawing::Manual1 => 30,
            GradualDrawing::Manual2 => 90,
            GradualDrawing::AutoClockwise(speed) => stepped_value(self.spec_band(), speed, 1),
            GradualDrawing::AutoCounter(speed) => stepped_value(self.spec_band(), speed, 1),
            GradualDrawing::AutoIncDecReverse => 190,
            GradualDrawing::AutoIncDecSame => 220,
        }
    }

    /// The band that this command's byte belongs to.
    pub fn band(&self) -> (r: Band)
        ensures
            r == self.spec_band(),
    {
        match self {
            GradualDrawing::Inactive => Band { start: 0, end: 1 },
            GradualDrawing::Manual1 => Band { start: 2, end: 63 },
            GradualDrawing::Manual2 => Band { start: 64, end: 127 },
            GradualDrawing::AutoClockwise(_) => Band { start: 128, end: 153 },
            GradualDrawing::AutoCounter(_) => Band { start: 154, end: 179 },
            GradualDrawing::AutoIncDecReverse => Band { start: 180, end: 205 },
            GradualDrawing::AutoIncDecSame => Band { start: 206, end: 255 },
        }
    }

    /// The byte that carries this command; it never leaves the command's band.
    pub fn to_u8(&self) -> (r: u8)
        ensures
            r == self.spec_value(),
            band_contains(self.spec_band(), r as int),
    {
        match self {
            GradualDrawing::Inactive => 0,
            GradualDrawing::Manual1 => 30,
            GradualDrawing::Manual2 => 90,
            GradualDrawing::AutoClockwise(speed) => stepped(self.band(), *speed, 1),
            GradualDrawing::AutoCounter(speed) => stepped(self.band(), *speed, 1),
            GradualDrawing::AutoIncDecReverse => 190,
            GradualDrawing::AutoIncDecSame => 220,
        }
    }
}


/// No two distinct bands of any channel's table share a byte, and every band
/// is non-empty.
pub proof fn lemma_band_tables_disjoint()
    ensures
        table_well_formed(MainSwitch::table()),
        table_well_formed(ColorMode::table()),
        table_well_formed(ColorFlow::table()),
        table_well_formed(GraphicsGroup::table()),
        table_well_formed(DynamicEffect::table()),
        table_well_formed(AutoScaling::table()),
        table_well_formed(RotationCenter::table()),
        table_well_formed(FlipHorizontal::table()),
        table_well_formed(MovementHorizontal::table()),
        table_well_formed(WavesX::table()),
        table_well_formed(GradualDrawing::table()),
{
    reveal_with_fuel(ascending_from, 3);
    assert(ascending_from(MainSwitch::table(), 0));
    lemma_chain_ascending(MainSwitch::table());
    lemma_ascending_well_formed(MainSwitch::table());
    reveal_with_fuel(ascending_from, 13);
    assert(ascending_from(ColorMode::table(), 0));
    lemma_chain_ascending(ColorMode::table());
    lemma_ascending_well_formed(ColorMode::table());
    reveal_with_fuel(ascending_from, 4);
    assert(ascending_from(ColorFlow::table(), 0));
    lemma_chain_ascending(ColorFlow::table());
    lemma_ascending_well_formed(ColorFlow::table());
    reveal_with_fuel(ascending_from, 11);
    assert(ascending_from(GraphicsGroup::table(), 0));
    lemma_chain_ascending(GraphicsGroup::table());
    lemma_ascending_well_formed(GraphicsGroup::table());
    reveal_with_fuel(ascending_from, 8);
    assert(ascending_from(DynamicEffect::table(), 0));
    lemma_chain_ascending(DynamicEffect::table());
    lemma_ascending_well_formed(DynamicEffect::table());
    reveal_with_fuel(ascending_from, 8);
    assert(ascending_from(AutoScaling::table(), 0));
    lemma_chain_ascending(AutoScaling::table());
    lemma_ascending_well_formed(AutoScaling::table());
    reveal_with_fuel(ascending_from, 4);
    assert(ascending_from(RotationCenter::table(), 0));
    lemma_chain_ascending(RotationCenter::table());
    lemma_ascending_well_formed(RotationCenter::table());
    reveal_with_fuel(ascending_from, 3);
    assert(ascending_from(FlipHorizontal::table(), 0));
    lemma_chain_ascending(FlipHorizontal::table());
    lemma_ascending_well_formed(FlipHorizontal::table());
    reveal_with_fuel(ascending_from, 3);
    assert(ascending_from(MovementHorizontal::table(), 0));
    lemma_chain_ascending(MovementHorizontal::table());
    lemma_ascending_well_formed(MovementHorizontal::table());
    reveal_with_fuel(ascending_from, 3);
    assert(ascending_from(WavesX::table(), 0));
    lemma_chain_ascending(WavesX::table());
    lemma_ascending_well_formed(WavesX::table());
    reveal_with_fuel(ascending_from, 8);
    assert(ascending_from(GradualDrawing::table(), 0));
    lemma_chain_ascending(GradualDrawing::table());
    lemma_ascending_well_formed(GradualDrawing::table());
}

} // verus!
