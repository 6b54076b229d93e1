//! The channel state of one DMX universe, addressed from channel 1.
use vstd::prelude::*;

verus! {

/// Number of data slots in one DMX512 universe.
pub const DMX_FRAME_SIZE: usize = 512;

/// Errors raised by channel and address bounds checks.
#[derive(Clone, Copy, Debug, PartialEq, Eq, Structural)]
pub enum DmxError {
    /// A channel id outside `1..=len` of the state it was used on.
    OutOfRangeChannel,
    /// A base address outside `1..=512`.
    OutOfRangeAddress,
}

/// The byte value of every slot of a universe, slot 1 at index 0.
pub struct DmxState {
    pub channels: Vec<u8>,
}

/// Whether `channel` names a slot of a state holding `len` slots.
pub open spec fn channel_in_range(len: nat, channel: int) -> bool {
    1 <= channel <= len
}

/// What a read of `channel` gives on slots `s`.
pub open spec fn spec_get(s: Seq<u8>, channel: int) -> Option<u8> {
    if channel_in_range(s.len(), channel) {
        Some(s[channel - 1])
    } else {
        None
    }
}

/// The slots after a write of `value` to `channel`; the slots are unchanged
/// when the channel is out of range.
pub open spec fn spec_set(s: Seq<u8>, channel: int, value: u8) -> Seq<u8> {
    if channel_in_range(s.len(), channel) {
        s.update(channel - 1, value)
    } else {
        s
    }
}

impl View for DmxState {
    type V = Seq<u8>;

    open spec fn view(&self) -> Seq<u8> {
        self.channels@
    }
}

impl DmxState {
    /// A state never holds more slots than one universe.
    pub open spec fn wf(&self) -> bool {
        self@.len() <= DMX_FRAME_SIZE
    }

    /// A zero-filled state of `num_channels` slots.
    pub fn new(num_channels: usize) -> (r: DmxState)
        requires
            num_channels <= DMX_FRAME_SIZE,
        ensures
            r.wf(),
            r@ == Seq::new(num_channels as nat, |i: int| 0u8),
    {
        let mut channels: Vec<u8> = Vec::new();
        let mut i: usize = 0;
        while i < num_channels
            invariant
                i <= num_channels,
                channels@ == Seq::new(i as nat, |k: int| 0u8),
            decreases num_channels - i,
        {
            channels.push(0u8);
            i = i + 1;
            assert(channels@ =~= Seq::new(i as nat, |k: int| 0u8));
        }
        DmxState { channels }
    }

    /// Number of slots held.
    pub fn len(&self) -> (r: usize)
        ensures
            r == self@.len(),
    {
        self.channels.len()
    }

    /// Overwrites slot `channel`; fails, leaving the state as it was, when
    /// the channel is 0 or beyond the last slot.
    pub fn set_channel(&mut self, channel: usize, value: u8) -> (r: Result<(), DmxError>)
        ensures
            final(self)@ == spec_set(old(self)@, channel as int, value),
            r == (if channel_in_range(old(self)@.len(), channel as int) {
                Ok(())
            } else {
                Err(DmxError::OutOfRangeChannel)
            }),
    {
        if channel > 0 && channel <= self.channels.len() {
            self.channels.set(channel - 1, value);
            Ok(())
        } else {
            Err(DmxError::OutOfRangeChannel)
        }
    }

    /// The value of slot `channel`, or `None` when there is no such slot.
    pub fn get_channel(&self, channel: usize) -> (r: Option<u8>)
        ensures
            r == spec_get(self@, channel as int),
    {
        if channel > 0 && channel <= self.channels.len() {
            Some(self.channels[channel - 1])
        } else {
            None
        }
    }
}

/// A write followed by a read of the same channel gives back the value
/// written, for every channel of the state.
pub proof fn lemma_set_then_get(s: DmxState, channel: int, value: u8)
    requires
        s.wf(),
        channel_in_range(s@.len(), channel),
    ensures
        spec_get(spec_set(s@, channel, value), channel) == Some(value),
{
}

/// Channel 0 and every channel beyond one universe are rejected by a write,
/// which changes nothing, and are absent on a read.
pub proof fn lemma_out_of_range_channel(s: DmxState, channel: int, value: u8)
    requires
        s.wf(),
        channel == 0 || channel > DMX_FRAME_SIZE,
    ensures
        !channel_in_range(s@.len(), channel),
        spec_set(s@, channel, value) == s@,
        spec_get(s@, channel) is None,
{
}

} // verus!
