use anchor_spl::associated_token::get_associated_token_address;
use pump_cpi_wrapper::addr::ata_program_id;
use pump_cpi_wrapper::addr::pump_program_id;
use pump_cpi_wrapper::addr::system_program_id;
use pump_cpi_wrapper::addr::token_program_id;
use pump_cpi_wrapper::addr::Address;
use pump_cpi_wrapper::instruction::build_swap_instruction;
use pump_cpi_wrapper::payload::encode_swap_payload;
use pump_cpi_wrapper::pda::derive_associated_token_address;
use pump_cpi_wrapper::pda::derive_bonding_curve_address;
use pump_cpi_wrapper::pda::derive_global_config_address;
use solana_pubkey::Pubkey;

const DISCRIMINATOR: [u8; 8] = [248, 198, 158, 145, 225, 117, 135, 200];

fn pump_pk() -> Pubkey {
    Pubkey::new_from_array(pump_program_id().0)
}

#[test]
fn swap_payload_example() {
    let data = encode_swap_payload(1_000_000, 0, 950_000);
    let mut expected: Vec<u8> = Vec::new();
    expected.extend_from_slice(&DISCRIMINATOR);
    expected.extend_from_slice(&1_000_000u64.to_le_bytes());
    expected.push(0);
    expected.extend_from_slice(&950_000u64.to_le_bytes());
    assert_eq!(data, expected);
}

#[test]
fn swap_payload_layout() {
    let data = encode_swap_payload(u64::MAX, 1, 7);
    assert_eq!(data.len(), 25);
    assert_eq!(&data[0..8], &DISCRIMINATOR);
    assert_eq!(&data[8..16], &u64::MAX.to_le_bytes());
    assert_eq!(data[16], 1);
    assert_eq!(&data[17..25], &7u64.to_le_bytes());
}

#[test]
fn program_id_constants_match_base58() {
    assert_eq!(
        pump_program_id().0,
        Pubkey::from_str_const("7ybnARN6UmPDpV4T3BTcvkS7Nc6vtaQLHXQHFxnXuUNd").to_bytes()
    );
    assert_eq!(
        token_program_id().0,
        Pubkey::from_str_const("TokenkegQfeZyiNwAJbNbGKPFXCWuBvf9Ss623VQ5DA").to_bytes()
    );
    assert_eq!(
        ata_program_id().0,
        Pubkey::from_str_const("ATokenGPvbdGVxr1b2hvZbsiqW5xWH25efTNsLJA8knL").to_bytes()
    );
    assert_eq!(system_program_id().0, [0u8; 32]);
}

#[test]
fn global_config_matches_reference() {
    let derived = derive_global_config_address().expect("derivation");
    let (reference, _bump) = Pubkey::find_program_address(&[b"global-config"], &pump_pk());
    assert_eq!(derived.0, reference.to_bytes());
}

#[test]
fn bonding_curve_matches_reference() {
    let mint = Address([7u8; 32]);
    let derived = derive_bonding_curve_address(&mint).expect("derivation");
    let (reference, _bump) =
        Pubkey::find_program_address(&[b"bonding-curve", &mint.0], &pump_pk());
    assert_eq!(derived.0, reference.to_bytes());
    assert_ne!(derived.0, mint.0);
}

#[test]
fn bonding_curve_deterministic() {
    let mint_a = Address([42u8; 32]);
    let mint_b = Address([42u8; 32]);
    let first = derive_bonding_curve_address(&mint_a).expect("derivation");
    let second = derive_bonding_curve_address(&mint_b).expect("derivation");
    assert_eq!(first.0, second.0);
    let other = derive_bonding_curve_address(&Address([43u8; 32])).expect("derivation");
    assert_ne!(first.0, other.0);
}

#[test]
fn associated_token_address_matches_reference() {
    let pairs: [([u8; 32], [u8; 32]); 3] = [
        ([9u8; 32], [7u8; 32]),
        ([1u8; 32], [255u8; 32]),
        ([250u8; 32], [11u8; 32]),
    ];
    for (owner_bytes, mint_bytes) in pairs {
        let derived =
            derive_associated_token_address(&Address(owner_bytes), &Address(mint_bytes))
                .expect("derivation");
        let reference = get_associated_token_address(
            &Pubkey::new_from_array(owner_bytes),
            &Pubkey::new_from_array(mint_bytes),
        );
        assert_eq!(derived.0, reference.to_bytes());
    }
}

#[test]
fn swap_instruction_account_list() {
    let user = Address([5u8; 32]);
    let fee_recipient = Address([6u8; 32]);
    let mint = Address([7u8; 32]);
    let ix = build_swap_instruction(&user, &fee_recipient, &mint, 1_000_000, 0, 950_000)
        .expect("assembly");

    assert_eq!(ix.program_id.0, pump_program_id().0);
    assert_eq!(ix.data, encode_swap_payload(1_000_000, 0, 950_000));
    assert_eq!(ix.accounts.len(), 11);

    let global_config = derive_global_config_address().expect("derivation");
    let bonding_curve = derive_bonding_curve_address(&mint).expect("derivation");
    let curve_ata = derive_associated_token_address(&bonding_curve, &mint).expect("derivation");
    let user_ata = derive_associated_token_address(&user, &mint).expect("derivation");

    let expected: [([u8; 32], bool, bool); 11] = [
        (user.0, true, true),
        (global_config.0, false, false),
        (fee_recipient.0, true, false),
        (bonding_curve.0, true, false),
        (mint.0, false, false),
        (curve_ata.0, true, false),
        (user_ata.0, true, false),
        (token_program_id().0, false, false),
        (ata_program_id().0, false, false),
        (system_program_id().0, false, false),
        (pump_program_id().0, false, false),
    ];
    for (entry, (address, is_writable, is_signer)) in ix.accounts.iter().zip(expected) {
        assert_eq!(entry.address.0, address);
        assert_eq!(entry.is_writable, is_writable);
        assert_eq!(entry.is_signer, is_signer);
    }
}
