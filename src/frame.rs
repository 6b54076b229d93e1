//! Assembly of the bytes of one DMX512 frame: the start code followed by the
//! data slots, with the channels placed from a base address on.
use vstd::prelude::*;
use crate::universe::{DmxError, DMX_FRAME_SIZE};

verus! {

/// The start code of a standard lighting-data frame.
pub const START_CODE: u8 = 0x00;

/// Number of bytes in a frame: the start code and one universe of slots.
pub const FRAME_LEN: usize = 513;

/// Whether `address` is a valid 1-based base address.
pub open spec fn address_in_range(address: int) -> bool {
    1 <= address <= DMX_FRAME_SIZE
}

/// Byte `k` of the frame that carries `data` from base address `address`:
/// channel `c` (1-based) lands at index `address + c - 1`; slots that no
/// channel reaches hold 0, and channels that would land past the last slot
/// are left out.
pub open spec fn frame_byte(data: Seq<u8>, address: int, k: int) -> u8 {
    if k == 0 {
        START_CODE
    } else if address <= k < address + data.len() {
        data[k - address]
    } else {
        0
    }
}

/// The frame that carries `data` from base address `address`.
pub open spec fn spec_frame(data: Seq<u8>, address: int) -> Seq<u8> {
    Seq::new(FRAME_LEN as nat, |k: int| frame_byte(data, address, k))
}

/// Accepts a base address in `1..=512`.
pub fn check_address(address: usize) -> (r: Result<usize, DmxError>)
    ensures
        r == (if address_in_range(address as int) {
            Ok(address)
        } else {
            Err(DmxError::OutOfRangeAddress)
        }),
{
    if address >= 1 && address <= DMX_FRAME_SIZE {
        Ok(address)
    } else {
        Err(DmxError::OutOfRangeAddress)
    }
}

/// Builds the frame that carries `data` from base address `address`.
pub fn build_frame(data: &[u8], address: usize) -> (r: Vec<u8>)
    requires
        address_in_range(address as int),
    ensures
        r@ == spec_frame(data@, address as int),
{
    let mut frame: Vec<u8> = Vec::new();
    frame.push(START_CODE);
    while frame.len() < FRAME_LEN
        invariant
            1 <= frame@.len() <= FRAME_LEN,
            frame@[0] == START_CODE,
            forall|k: int| 1 <= k < frame@.len() ==> #[trigger] frame@[k] == 0u8,
        decreases FRAME_LEN - frame@.len(),
    {
        frame.push(0u8);
    }
    let mut i: usize = 0;
    while i < data.len() && address + i < FRAME_LEN
        invariant
            address_in_range(address as int),
            i <= data@.len(),
            address + i <= FRAME_LEN,
            frame@.len() == FRAME_LEN,
            forall|k: int|
                0 <= k < FRAME_LEN ==> #[trigger] frame@[k] == (if k == 0 {
                    START_CODE
                } else if address <= k < address + i {
                    data@[k - address]
                } else {
                    0u8
                }),
        decreases data@.len() - i,
    {
        frame.set(address + i, data[i]);
        i = i + 1;
    }
    assert(frame@ =~= spec_frame(data@, address as int));
    frame
}

/// Layout of every frame: 513 bytes, the start code first, nothing before
/// the base address, each channel that fits at its place, and the channels
/// that would land past slot 512 dropped rather than wrapped around.
pub proof fn lemma_frame_layout(data: Seq<u8>, address: int)
    requires
        address_in_range(address),
    ensures
        spec_frame(data, address).len() == DMX_FRAME_SIZE + 1,
        spec_frame(data, address)[0] == START_CODE,
        forall|k: int| 1 <= k < address ==> #[trigger] spec_frame(data, address)[k] == 0u8,
        forall|c: int|
            1 <= c <= data.len() && address + c - 1 <= DMX_FRAME_SIZE ==> #[trigger] spec_frame(
                data,
                address,
            )[address + c - 1] == data[c - 1],
        forall|k: int|
            1 <= k < spec_frame(data, address).len() && k - address >= data.len()
                ==> #[trigger] spec_frame(data, address)[k] == 0u8,
{
}

} // verus!
