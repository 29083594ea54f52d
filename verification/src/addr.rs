//! Addresses and the fixed program identifiers.
//!
//! An address on the ledger is 32 raw bytes. The adapter is configured by
//! three externally versioned identifiers — the external swap program, the
//! token program and the associated-token program — plus the system program's
//! all-zero identifier; all four are hardcoded constants of the external
//! binary interface.

use vstd::prelude::*;

verus! {

/// A 32-byte ledger address.
#[derive(Clone, Copy, Debug, PartialEq, Eq)]
pub struct Address(pub [u8; 32]);

impl View for Address {
    type V = Seq<u8>;

    open spec fn view(&self) -> Seq<u8> {
        self.0@
    }
}

/// The external bonding-curve swap program's identifier.
pub open spec fn spec_pump_program_id() -> Seq<u8> {
    seq![
        103u8, 165u8, 248u8, 162u8, 54u8, 145u8, 131u8, 113u8,
        81u8, 67u8, 237u8, 190u8, 33u8, 69u8, 145u8, 63u8,
        93u8, 199u8, 238u8, 240u8, 231u8, 235u8, 29u8, 141u8,
        149u8, 237u8, 14u8, 88u8, 147u8, 77u8, 133u8, 146u8,
    ]
}

/// The token program's identifier.
pub open spec fn spec_token_program_id() -> Seq<u8> {
    seq![
        6u8, 221u8, 246u8, 225u8, 215u8, 101u8, 161u8, 147u8,
        217u8, 203u8, 225u8, 70u8, 206u8, 235u8, 121u8, 172u8,
        28u8, 180u8, 133u8, 237u8, 95u8, 91u8, 55u8, 145u8,
        58u8, 140u8, 245u8, 133u8, 126u8, 255u8, 0u8, 169u8,
    ]
}

/// The associated-token program's identifier.
pub open spec fn spec_ata_program_id() -> Seq<u8> {
    seq![
        140u8, 151u8, 37u8, 143u8, 78u8, 36u8, 137u8, 241u8,
        187u8, 61u8, 16u8, 41u8, 20u8, 142u8, 13u8, 131u8,
        11u8, 90u8, 19u8, 153u8, 218u8, 255u8, 16u8, 132u8,
        4u8, 142u8, 123u8, 216u8, 219u8, 233u8, 248u8, 89u8,
    ]
}

/// The system program's identifier: thirty-two zero bytes.
pub open spec fn spec_system_program_id() -> Seq<u8> {
    Seq::new(32, |i: int| 0u8)
}

/// The external bonding-curve swap program's identifier.
pub fn pump_program_id() -> (r: Address)
    ensures
        r@ == spec_pump_program_id(),
{
    let r = Address(
        [
            103u8, 165u8, 248u8, 162u8, 54u8, 145u8, 131u8, 113u8,
            81u8, 67u8, 237u8, 190u8, 33u8, 69u8, 145u8, 63u8,
            93u8, 199u8, 238u8, 240u8, 231u8, 235u8, 29u8, 141u8,
            149u8, 237u8, 14u8, 88u8, 147u8, 77u8, 133u8, 146u8,
        ],
    );
    proof {
        assert(r@ =~= spec_pump_program_id());
    }
    r
}

/// The token program's identifier.
pub fn token_program_id() -> (r: Address)
    ensures
        r@ == spec_token_program_id(),
{
    let r = Address(
        [
            6u8, 221u8, 246u8, 225u8, 215u8, 101u8, 161u8, 147u8,
            217u8, 203u8, 225u8, 70u8, 206u8, 235u8, 121u8, 172u8,
            28u8, 180u8, 133u8, 237u8, 95u8, 91u8, 55u8, 145u8,
            58u8, 140u8, 245u8, 133u8, 126u8, 255u8, 0u8, 169u8,
        ],
    );
    proof {
        assert(r@ =~= spec_token_program_id());
    }
    r
}

/// The associated-token program's identifier.
pub fn ata_program_id() -> (r: Address)
    ensures
        r@ == spec_ata_program_id(),
{
    let r = Address(
        [
            140u8, 151u8, 37u8, 143u8, 78u8, 36u8, 137u8, 241u8,
            187u8, 61u8, 16u8, 41u8, 20u8, 142u8, 13u8, 131u8,
            11u8, 90u8, 19u8, 153u8, 218u8, 255u8, 16u8, 132u8,
            4u8, 142u8, 123u8, 216u8, 219u8, 233u8, 248u8, 89u8,
        ],
    );
    proof {
        assert(r@ =~= spec_ata_program_id());
    }
    r
}

/// The system program's identifier.
pub fn system_program_id() -> (r: Address)
    ensures
        r@ == spec_system_program_id(),
{
    let r = Address([0u8; 32]);
    proof {
        assert(r@ =~= spec_system_program_id());
    }
    r
}

/// The bytes of an address, as a growable vector.
pub fn address_bytes(a: &Address) -> (r: Vec<u8>)
    ensures
        r@ == a@,
{
    vstd::slice::slice_to_vec(a.0.as_slice())
}

} // verus!
