//! Encoding of the external swap method's instruction payload.
//!
//! The wire format is fixed by the external program's binary interface:
//! an 8-byte method discriminator, then the swap amount as 8 little-endian
//! bytes, a 1-byte direction flag, and the minimum acceptable output as 8
//! little-endian bytes — 25 bytes in all, with no optional fields.

use vstd::prelude::*;
use vstd::bytes::lemma_auto_spec_u64_to_from_le_bytes;
use vstd::bytes::spec_u64_to_le_bytes;
use vstd::bytes::u64_to_le_bytes;

verus! {

/// The fixed 8-byte discriminator that selects the external program's swap
/// method.
pub open spec fn swap_discriminator() -> Seq<u8> {
    seq![248u8, 198u8, 158u8, 145u8, 225u8, 117u8, 135u8, 200u8]
}

/// The exact payload the external program expects for a swap: discriminator,
/// then amount, direction flag and minimum output, fixed-width and
/// little-endian.
pub open spec fn spec_swap_payload(amount: u64, direction: u8, min_out: u64) -> Seq<u8> {
    swap_discriminator() + spec_u64_to_le_bytes(amount) + seq![direction] + spec_u64_to_le_bytes(
        min_out,
    )
}

/// Every swap payload is exactly 25 bytes: 8 discriminator + 8 + 1 + 8.
pub proof fn lemma_swap_payload_len(amount: u64, direction: u8, min_out: u64)
    ensures
        spec_swap_payload(amount, direction, min_out).len() == 25,
{
    lemma_auto_spec_u64_to_from_le_bytes();
}

/// Encodes the swap arguments as the external program's binary interface
/// prescribes. Cannot fail: every fixed-width integer has an encoding.
pub fn encode_swap_payload(amount: u64, direction: u8, min_out: u64) -> (data: Vec<u8>)
    ensures
        data@ == spec_swap_payload(amount, direction, min_out),
        data@.len() == 25,
        data@.subrange(0, 8) == swap_discriminator(),
        data@.subrange(8, 16) == spec_u64_to_le_bytes(amount),
        data@[16] == direction,
        data@.subrange(17, 25) == spec_u64_to_le_bytes(min_out),
{
    proof {
        lemma_auto_spec_u64_to_from_le_bytes();
    }
    let mut data: Vec<u8> = Vec::new();
    data.push(248);
    data.push(198);
    data.push(158);
    data.push(145);
    data.push(225);
    data.push(117);
    data.push(135);
    data.push(200);
    let mut amount_bytes = u64_to_le_bytes(amount);
    data.append(&mut amount_bytes);
    data.push(direction);
    let mut min_out_bytes = u64_to_le_bytes(min_out);
    data.append(&mut min_out_bytes);
    proof {
        let full = spec_swap_payload(amount, direction, min_out);
        assert(data@ =~= full);
        assert(data@.subrange(0, 8) =~= swap_discriminator());
        assert(data@.subrange(8, 16) =~= spec_u64_to_le_bytes(amount));
        assert(data@.subrange(17, 25) =~= spec_u64_to_le_bytes(min_out));
    }
    data
}

} // verus!
