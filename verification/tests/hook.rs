use sol_earna::contexts::{InitializeExtraAccountMetaList, TransferHook};
use sol_earna::discovery::{extra_account_metas, ExtraAccountMeta};
use sol_earna::errors::SolEarnaError;
use sol_earna::hook::{
    instruction_amount, overruns_list, select_execute, starts_with, HookError,
    INITIALIZE_LIST_DISCRIMINATOR, UPDATE_LIST_DISCRIMINATOR,
};
use sol_earna::states::{Address, FeeConfig};
use spl_tlv_account_resolution::seeds::Seed;
use spl_tlv_account_resolution::state::ExtraAccountMetaList;
use spl_transfer_hook_interface::instruction::TransferHookInstruction;

fn at(n: u8) -> Address {
    Address::new([n; 32])
}

fn fresh_ledger() -> FeeConfig {
    FeeConfig {
        wsol_mint_address: at(1),
        wrapper_mint_address: at(2),
        fee_recipient_liquidity: at(3),
        fee_recipient_marketing: at(4),
        fee_recipient_holders: at(5),
        fee_percent_liquidity: 100,
        fee_percent_marketing: 400,
        fee_percent_holders: 500,
        fee_not_collected: 0,
        fee_collected: 0,
        unclaimed_fee_holders: 0,
        unclaimed_fee_marketing: 0,
        unclaimed_fee_liquidity: 0,
    }
}

fn hook() -> TransferHook {
    TransferHook { mint: at(9), fee_config: fresh_ledger() }
}

fn setup() -> InitializeExtraAccountMetaList {
    InitializeExtraAccountMetaList {
        payer: at(30),
        extra_account_meta_list: at(31),
        mint: at(9),
        token_program: at(32),
        token_program_org: at(33),
        associated_token_program: at(34),
        fee_config_key: at(35),
        fee_config: None,
        wsol_mint: at(1),
        wrapper_mint: at(2),
        fee_recipient_liquidity: at(3),
        fee_recipient_marketing: at(4),
        fee_recipient_holders: at(5),
    }
}

#[test]
fn transfer_hook_accrues_the_fee() {
    let mut ctx = hook();
    assert_eq!(sol_earna::transfer_hook(&mut ctx, 1_000_000), Ok(100_000));
    assert_eq!(ctx.fee_config.fee_not_collected, 100_000);
    assert_eq!(ctx.mint, at(9));
    ctx.fee_config.fee_not_collected = u64::MAX;
    let before = ctx;
    assert_eq!(sol_earna::transfer_hook(&mut ctx, 1_000_000), Err(SolEarnaError::NotAllowed));
    assert_eq!(ctx, before);
}

#[test]
fn fallback_runs_the_execution_of_the_hook() {
    let data = TransferHookInstruction::Execute { amount: 2_000_000 }.pack();
    let mut ctx = hook();
    let fee = sol_earna::fallback(&mut ctx, &data);
    assert!(matches!(fee, Ok(200_000)));
    assert_eq!(ctx.fee_config.fee_not_collected, 200_000);
}

#[test]
fn fallback_reads_the_amount_lowest_byte_first() {
    let mut data = vec![105u8, 37, 101, 197, 75, 251, 102, 26];
    data.extend_from_slice(&[0x10, 0x27, 0, 0, 0, 0, 0, 0]);
    data.extend_from_slice(&[9, 9, 9]);
    let mut ctx = hook();
    assert!(matches!(sol_earna::fallback(&mut ctx, &data), Ok(1_000)));
    assert_eq!(ctx.fee_config.fee_not_collected, 1_000);
}

#[test]
fn fallback_hands_on_the_refusal_of_the_ledger() {
    let data = TransferHookInstruction::Execute { amount: 2_000_000 }.pack();
    let mut ctx = hook();
    ctx.fee_config.fee_not_collected = u64::MAX;
    let before = ctx;
    let r = sol_earna::fallback(&mut ctx, &data);
    assert!(matches!(r, Err(HookError::Ledger(SolEarnaError::NotAllowed))));
    assert_eq!(ctx, before);
}

#[test]
fn fallback_refuses_other_instructions() {
    let data = TransferHookInstruction::InitializeExtraAccountMetaList {
        extra_account_metas: Vec::new(),
    }
    .pack();
    let mut ctx = hook();
    let before = ctx;
    let r = sol_earna::fallback(&mut ctx, &data);
    assert!(matches!(r, Err(HookError::InvalidInstructionData)));
    assert_eq!(ctx, before);
}

#[test]
fn fallback_hands_on_the_error_of_the_unpacking() {
    let ragged = list_data(&INITIALIZE_LIST_DISCRIMINATOR, 1, 34);
    let outside = TransferHookInstruction::unpack(&ragged).unwrap_err();
    let mut ctx = hook();
    match sol_earna::fallback(&mut ctx, &ragged) {
        Err(HookError::Unpack(e)) => assert_eq!(e, outside),
        other => panic!("{:?}", other),
    }
    let outside = TransferHookInstruction::unpack(&[7u8; 20]).unwrap_err();
    match instruction_amount(&[7u8; 20]) {
        Err(HookError::Unpack(e)) => assert_eq!(e, outside),
        other => panic!("{:?}", other),
    }
}

#[test]
fn fallback_refuses_data_that_does_not_unpack() {
    let mut ctx = hook();
    let before = ctx;
    assert!(matches!(sol_earna::fallback(&mut ctx, &[1, 2, 3]), Err(HookError::Unpack(_))));
    assert!(matches!(sol_earna::fallback(&mut ctx, &[0u8; 16]), Err(HookError::Unpack(_))));
    let short = [105u8, 37, 101, 197, 75, 251, 102, 26, 1, 2, 3];
    assert!(matches!(sol_earna::fallback(&mut ctx, &short), Err(HookError::Unpack(_))));
    assert_eq!(ctx, before);
}

#[test]
fn select_execute_goes_by_what_was_unpacked() {
    assert!(matches!(select_execute(Ok(Some(50_000))), Ok(50_000)));
    assert!(matches!(select_execute(Ok(None)), Err(HookError::InvalidInstructionData)));
    let e = anchor_lang::prelude::ProgramError::InvalidArgument;
    assert!(matches!(
        select_execute(Err(e)),
        Err(HookError::Unpack(anchor_lang::prelude::ProgramError::InvalidArgument))
    ));
}

#[test]
fn instruction_amount_is_the_amount_of_the_execution() {
    let data = TransferHookInstruction::Execute { amount: u64::MAX - 1 }.pack();
    assert!(matches!(instruction_amount(&data), Ok(0xffff_ffff_ffff_fffe)));
    let data = TransferHookInstruction::Execute { amount: 0x0102_0304_0506_0708 }.pack();
    assert_eq!(&data[8..], &[8, 7, 6, 5, 4, 3, 2, 1]);
    assert!(matches!(instruction_amount(&data), Ok(0x0102_0304_0506_0708)));
    assert!(matches!(instruction_amount(&data[..15]), Err(HookError::Unpack(_))));
    assert!(matches!(instruction_amount(&[]), Err(HookError::Unpack(_))));
}

fn list_data(discriminator: &[u8; 8], count: u32, following: usize) -> Vec<u8> {
    let mut data = discriminator.to_vec();
    data.extend_from_slice(&count.to_le_bytes());
    data.extend_from_slice(&vec![0u8; following]);
    data
}

#[test]
fn list_discriminators_are_those_of_the_interface() {
    let first = TransferHookInstruction::InitializeExtraAccountMetaList {
        extra_account_metas: Vec::new(),
    }
    .pack();
    assert_eq!(&first[..8], &INITIALIZE_LIST_DISCRIMINATOR);
    assert_eq!(&first[..8], &[43, 34, 13, 49, 167, 88, 235, 235]);
    let anew = TransferHookInstruction::UpdateExtraAccountMetaList {
        extra_account_metas: Vec::new(),
    }
    .pack();
    assert_eq!(&anew[..8], &UPDATE_LIST_DISCRIMINATOR);
    assert_eq!(&anew[..8], &[157, 105, 42, 146, 102, 85, 241, 174]);
    assert!(starts_with(&first, &INITIALIZE_LIST_DISCRIMINATOR));
    assert!(!starts_with(&first, &UPDATE_LIST_DISCRIMINATOR));
    assert!(!starts_with(&first[..7], &INITIALIZE_LIST_DISCRIMINATOR));
}

#[test]
fn a_list_that_announces_more_than_it_holds_is_refused() {
    let overrun = [43u8, 34, 13, 49, 167, 88, 235, 235, 1, 0, 0, 0];
    assert!(overruns_list(&overrun));
    assert!(matches!(instruction_amount(&overrun), Err(HookError::InvalidInstructionData)));
    let mut ctx = hook();
    let before = ctx;
    assert!(matches!(
        sol_earna::fallback(&mut ctx, &overrun),
        Err(HookError::InvalidInstructionData)
    ));
    assert_eq!(ctx, before);

    for discriminator in [INITIALIZE_LIST_DISCRIMINATOR, UPDATE_LIST_DISCRIMINATOR] {
        for (count, following) in [(1u32, 0usize), (2, 35), (3, 70), (0x0100_0000, 350)] {
            let data = list_data(&discriminator, count, following);
            assert!(overruns_list(&data));
            assert!(matches!(
                instruction_amount(&data),
                Err(HookError::InvalidInstructionData)
            ));
        }
    }
}

#[test]
fn a_list_that_holds_what_it_announces_is_unpacked_and_refused() {
    for discriminator in [INITIALIZE_LIST_DISCRIMINATOR, UPDATE_LIST_DISCRIMINATOR] {
        for (count, following) in [(0u32, 0usize), (1, 35), (2, 70), (1, 70), (0, 350)] {
            let data = list_data(&discriminator, count, following);
            assert!(!overruns_list(&data));
            assert!(matches!(
                instruction_amount(&data),
                Err(HookError::InvalidInstructionData)
            ));
        }
        for (count, following) in [(1u32, 36usize), (1, 34), (0, 1), (9, 69), (u32::MAX, 351)] {
            let ragged = list_data(&discriminator, count, following);
            assert!(!overruns_list(&ragged));
            assert!(matches!(instruction_amount(&ragged), Err(HookError::Unpack(_))));
            let mut ctx = hook();
            let before = ctx;
            assert!(matches!(sol_earna::fallback(&mut ctx, &ragged), Err(HookError::Unpack(_))));
            assert_eq!(ctx, before);
        }
        let cut = list_data(&discriminator, 0, 0);
        assert!(matches!(instruction_amount(&cut[..11]), Err(HookError::Unpack(_))));
        let short = &discriminator[..];
        assert!(!overruns_list(short));
        assert!(matches!(instruction_amount(short), Err(HookError::Unpack(_))));
    }
    let execute = TransferHookInstruction::Execute { amount: 1 }.pack();
    assert!(!overruns_list(&execute));
}

fn fixed(n: u8, is_writable: bool) -> ExtraAccountMeta {
    ExtraAccountMeta { discriminator: 0, address_config: [n; 32], is_signer: false, is_writable }
}

fn config(prefix: &[u8]) -> [u8; 32] {
    let mut bytes = [0u8; 32];
    bytes[..prefix.len()].copy_from_slice(prefix);
    bytes
}

#[test]
fn extra_account_metas_are_the_nine_of_the_hook() {
    let metas = extra_account_metas(&setup());
    let delegate = config(&[1, 8, b'd', b'e', b'l', b'e', b'g', b'a', b't', b'e', 3, 1]);
    let treasury = config(&[1, 8, b't', b'r', b'e', b'a', b's', b'u', b'r', b'y', 3, 1]);
    let fee_account = config(&[3, 8, 3, 6, 3, 12]);
    assert_eq!(
        metas,
        vec![
            fixed(32, false),
            fixed(33, false),
            fixed(34, false),
            ExtraAccountMeta {
                discriminator: 1,
                address_config: delegate,
                is_signer: false,
                is_writable: true,
            },
            fixed(35, true),
            ExtraAccountMeta {
                discriminator: 1,
                address_config: treasury,
                is_signer: false,
                is_writable: true,
            },
            fixed(1, true),
            fixed(2, true),
            ExtraAccountMeta {
                discriminator: 135,
                address_config: fee_account,
                is_signer: false,
                is_writable: true,
            },
        ]
    );
}

#[test]
fn extra_account_metas_agree_with_the_resolution_crate() {
    let metas = extra_account_metas(&setup());
    let outside = spl_tlv_account_resolution::account::ExtraAccountMeta::new_external_pda_with_seeds(
        7,
        &[
            Seed::AccountKey { index: 8 },
            Seed::AccountKey { index: 6 },
            Seed::AccountKey { index: 12 },
        ],
        false,
        true,
    )
    .unwrap();
    assert_eq!(metas[8].discriminator, outside.discriminator);
    assert_eq!(metas[8].address_config, outside.address_config);
    assert_eq!(metas[8].is_writable, bool::from(outside.is_writable));
    assert_eq!(metas[8].is_signer, bool::from(outside.is_signer));
}

#[test]
fn initialize_sets_up_list_and_ledger() {
    let mut ctx = setup();
    let done = sol_earna::initialize_extra_account_meta_list(&mut ctx, 500, 400, 100).unwrap();
    assert_eq!(done.account_metas, extra_account_metas(&setup()));
    assert_eq!(done.account_size, 331);
    assert_eq!(done.account_size, ExtraAccountMetaList::size_of(9).unwrap() as u64);
    assert_eq!(ctx.fee_config, Some(fresh_ledger()));
    assert_eq!(ctx.fee_config_key, at(35));
}

#[test]
fn initialize_twice_is_a_duplicate() {
    let mut ctx = setup();
    sol_earna::initialize_extra_account_meta_list(&mut ctx, 500, 400, 100).unwrap();
    ctx.fee_config.as_mut().unwrap().fee_collected = 77;
    let before = ctx;
    let again = sol_earna::initialize_extra_account_meta_list(&mut ctx, 1, 2, 3);
    assert_eq!(again, Err(SolEarnaError::DuplicateInitialization));
    assert_eq!(ctx, before);
}
