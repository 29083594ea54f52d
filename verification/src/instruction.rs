//! Assembly of the cross-program swap instruction.
//!
//! A swap call hands the external program an ordered list of exactly eleven
//! account references — caller, global configuration, fee recipient, bonding
//! curve, mint, the curve's and the caller's associated token accounts, and
//! the token, associated-token, system and external program identifiers —
//! with the mutability and signer flags its binary interface dictates, plus
//! the 25-byte swap payload. Order and flags must match byte-for-byte; a
//! mismatch is rejected by the callee, not locally detectable.

use vstd::prelude::*;
use crate::addr::Address;
use crate::addr::ata_program_id;
use crate::addr::pump_program_id;
use crate::addr::spec_ata_program_id;
use crate::addr::spec_pump_program_id;
use crate::addr::spec_system_program_id;
use crate::addr::spec_token_program_id;
use crate::addr::system_program_id;
use crate::addr::token_program_id;
use crate::payload::encode_swap_payload;
use crate::payload::spec_swap_payload;
use crate::pda::derive_associated_token_address;
use crate::pda::derive_bonding_curve_address;
use crate::pda::derive_global_config_address;
use crate::pda::spec_associated_token_address;
use crate::pda::spec_bonding_curve_address;
use crate::pda::spec_global_config_address;

verus! {

/// One entry of the account-reference list: an address with the mutability
/// and signer flags the external binary interface prescribes for it.
#[derive(Clone, Copy, Debug, PartialEq, Eq)]
pub struct AccountRef {
    pub address: Address,
    pub is_writable: bool,
    pub is_signer: bool,
}

/// The mathematical value of an account reference.
pub ghost struct AccountRefV {
    pub address: Seq<u8>,
    pub is_writable: bool,
    pub is_signer: bool,
}

impl View for AccountRef {
    type V = AccountRefV;

    open spec fn view(&self) -> AccountRefV {
        AccountRefV {
            address: self.address@,
            is_writable: self.is_writable,
            is_signer: self.is_signer,
        }
    }
}

/// A ready cross-program call: the external program to invoke, its ordered
/// account-reference list, and the encoded payload.
#[derive(Debug)]
pub struct SwapInstruction {
    pub program_id: Address,
    pub accounts: Vec<AccountRef>,
    pub data: Vec<u8>,
}

/// The adapter's only local failure: one of the deterministic addresses has
/// no valid derivation, so no instruction the external program would accept
/// can be assembled. Every other failure is the external program's own and
/// reaches the caller unchanged.
#[derive(Clone, Copy, Debug, PartialEq, Eq)]
pub enum SwapError {
    AddressDerivationFailed,
}

/// The fixed eleven-entry account-reference list of a swap, in the exact
/// order and with the exact flags the external binary interface requires.
pub open spec fn spec_swap_accounts(
    user: Seq<u8>,
    global_config: Seq<u8>,
    fee_recipient: Seq<u8>,
    bonding_curve: Seq<u8>,
    mint: Seq<u8>,
    curve_token_account: Seq<u8>,
    user_token_account: Seq<u8>,
) -> Seq<AccountRefV> {
    seq![
        AccountRefV { address: user, is_writable: true, is_signer: true },
        AccountRefV { address: global_config, is_writable: false, is_signer: false },
        AccountRefV { address: fee_recipient, is_writable: true, is_signer: false },
        AccountRefV { address: bonding_curve, is_writable: true, is_signer: false },
        AccountRefV { address: mint, is_writable: false, is_signer: false },
        AccountRefV { address: curve_token_account, is_writable: true, is_signer: false },
        AccountRefV { address: user_token_account, is_writable: true, is_signer: false },
        AccountRefV { address: spec_token_program_id(), is_writable: false, is_signer: false },
        AccountRefV { address: spec_ata_program_id(), is_writable: false, is_signer: false },
        AccountRefV { address: spec_system_program_id(), is_writable: false, is_signer: false },
        AccountRefV { address: spec_pump_program_id(), is_writable: false, is_signer: false },
    ]
}

/// The account-reference list a swap must carry for this (user, fee
/// recipient, mint), if every needed address derives: the global
/// configuration and bonding-curve addresses under the external program, and
/// the curve's and the user's associated token accounts.
pub open spec fn spec_swap_account_list(
    user: Seq<u8>,
    fee_recipient: Seq<u8>,
    mint: Seq<u8>,
) -> Option<Seq<AccountRefV>> {
    match spec_global_config_address() {
        Some(global_config) => match spec_bonding_curve_address(mint) {
            Some(bonding_curve) => match (
                spec_associated_token_address(bonding_curve, mint),
                spec_associated_token_address(user, mint),
            ) {
                (Some(curve_token_account), Some(user_token_account)) => Some(
                    spec_swap_accounts(
                        user,
                        global_config,
                        fee_recipient,
                        bonding_curve,
                        mint,
                        curve_token_account,
                        user_token_account,
                    ),
                ),
                _ => None,
            },
            None => None,
        },
        None => None,
    }
}

/// Assembles the complete swap call for the external program: re-derives
/// every deterministic address, builds the eleven-entry account list, and
/// encodes the payload. Returns an error exactly when one of the addresses
/// has no valid derivation; the adapter validates nothing else locally.
pub fn build_swap_instruction(
    user: &Address,
    fee_recipient: &Address,
    mint: &Address,
    amount: u64,
    direction: u8,
    min_out: u64,
) -> (r: Result<SwapInstruction, SwapError>)
    ensures
        r matches Ok(ix) ==> {
            &&& ix.program_id@ == spec_pump_program_id()
            &&& ix.data@ == spec_swap_payload(amount, direction, min_out)
            &&& ix.data@.len() == 25
            &&& ix.accounts@.len() == 11
            &&& Some(ix.accounts@.map_values(|a: AccountRef| a@)) == spec_swap_account_list(
                user@,
                fee_recipient@,
                mint@,
            )
        },
        r is Err <==> spec_swap_account_list(user@, fee_recipient@, mint@) is None,
{
    let global_config = match derive_global_config_address() {
        Some(a) => a,
        None => {
            return Err(SwapError::AddressDerivationFailed);
        },
    };
    let bonding_curve = match derive_bonding_curve_address(mint) {
        Some(a) => a,
        None => {
            return Err(SwapError::AddressDerivationFailed);
        },
    };
    let curve_token_account = match derive_associated_token_address(&bonding_curve, mint) {
        Some(a) => a,
        None => {
            return Err(SwapError::AddressDerivationFailed);
        },
    };
    let user_token_account = match derive_associated_token_address(user, mint) {
        Some(a) => a,
        None => {
            return Err(SwapError::AddressDerivationFailed);
        },
    };
    let mut accounts: Vec<AccountRef> = Vec::new();
    accounts.push(AccountRef { address: *user, is_writable: true, is_signer: true });
    accounts.push(AccountRef { address: global_config, is_writable: false, is_signer: false });
    accounts.push(AccountRef { address: *fee_recipient, is_writable: true, is_signer: false });
    accounts.push(AccountRef { address: bonding_curve, is_writable: true, is_signer: false });
    accounts.push(AccountRef { address: *mint, is_writable: false, is_signer: false });
    accounts.push(AccountRef { address: curve_token_account, is_writable: true, is_signer: false });
    accounts.push(AccountRef { address: user_token_account, is_writable: true, is_signer: false });
    accounts.push(AccountRef { address: token_program_id(), is_writable: false, is_signer: false });
    accounts.push(AccountRef { address: ata_program_id(), is_writable: false, is_signer: false });
    accounts.push(
        AccountRef { address: system_program_id(), is_writable: false, is_signer: false },
    );
    accounts.push(AccountRef { address: pump_program_id(), is_writable: false, is_signer: false });
    let data = encode_swap_payload(amount, direction, min_out);
    let ix = SwapInstruction { program_id: pump_program_id(), accounts, data };
    proof {
        assert(ix.accounts@.map_values(|a: AccountRef| a@) =~= spec_swap_accounts(
            user@,
            global_config@,
            fee_recipient@,
            bonding_curve@,
            mint@,
            curve_token_account@,
            user_token_account@,
        ));
    }
    Ok(ix)
}

} // verus!
