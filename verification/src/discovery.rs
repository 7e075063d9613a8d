use vstd::prelude::*;
use crate::constants::{tag_bytes, DELEGATE_TAG, TREASURY_TAG};
use crate::contexts::InitializeExtraAccountMetaList;
use crate::errors::SolEarnaError;
use crate::states::{Address, FeeConfig};
use anchor_lang::prelude::{ProgramError, Pubkey};
use spl_tlv_account_resolution::account::ExtraAccountMeta as OutsideMeta;
use spl_tlv_account_resolution::seeds::Seed as OutsideSeed;
use spl_tlv_account_resolution::state::ExtraAccountMetaList;

verus! {

/// One seed of a derived address, as the list of extra accounts describes it.
#[derive(Debug, PartialEq, Eq)]
pub enum Seed {
    /// Fixed bytes.
    Literal { bytes: Vec<u8> },
    /// The identifier of the account at `index` in the list of all accounts.
    AccountKey { index: u8 },
}

/// What a seed holds.
pub enum SeedModel {
    Literal { bytes: Seq<u8> },
    AccountKey { index: u8 },
}

impl View for Seed {
    type V = SeedModel;

    open spec fn view(&self) -> SeedModel {
        match *self {
            Seed::Literal { bytes } => SeedModel::Literal { bytes: bytes@ },
            Seed::AccountKey { index } => SeedModel::AccountKey { index },
        }
    }
}

/// What a list of seeds holds.
pub open spec fn seed_models(seeds: Seq<Seed>) -> Seq<SeedModel> {
    seeds.map_values(|seed: Seed| seed@)
}

/// One required extra account: how its address is found, and whether it
/// signs and is written to.
#[derive(Clone, Copy, Debug, PartialEq, Eq)]
pub struct ExtraAccountMeta {
    /// 0 for a fixed address, 1 for an address derived from seeds under the
    /// executing program, 128 plus an index for one derived under the program at
    /// that index.
    pub discriminator: u8,
    /// The address, or the packed seeds.
    pub address_config: [u8; 32],
    pub is_signer: bool,
    pub is_writable: bool,
}

/// The bytes of one packed seed: for fixed bytes 1, their number and the
/// bytes; for an account's identifier 3 and the index.
pub open spec fn seed_packed(seed: SeedModel) -> Seq<u8> {
    match seed {
        SeedModel::Literal { bytes } => seq![1u8, bytes.len() as u8] + bytes,
        SeedModel::AccountKey { index } => seq![3u8, index],
    }
}

/// The bytes of the packed seeds, one after the other.
pub open spec fn seeds_packed(seeds: Seq<SeedModel>) -> Seq<u8>
    decreases seeds.len(),
{
    if seeds.len() == 0 {
        Seq::<u8>::empty()
    } else {
        seeds_packed(seeds.drop_last()) + seed_packed(seeds.last())
    }
}

/// The 32 bytes of an address configuration that holds the packed seeds,
/// filled up with zeros.
pub open spec fn seeds_config(seeds: Seq<SeedModel>) -> Seq<u8>
    recommends
        seeds_packed(seeds).len() <= 32,
{
    seeds_packed(seeds) + Seq::new((32 - seeds_packed(seeds).len()) as nat, |i: int| 0u8)
}

/// Whether no run of fixed bytes among the seeds is longer than a packed seed
/// can say.
pub open spec fn literals_fit(seeds: Seq<SeedModel>) -> bool {
    forall|i: int|
        0 <= i < seeds.len() ==> (#[trigger] seeds[i] matches SeedModel::Literal { bytes }
            ==> bytes.len() <= 253)
}

/// Makes the entry for an account with a fixed address, with
/// `ExtraAccountMeta::new_with_pubkey` of spl-tlv-account-resolution. Taken on
/// trust: the call never fails, and the entry has the discriminator 0, the
/// bytes of the address, and the two flags as given.
#[verifier::external_body]
fn meta_with_pubkey(key: &Address, is_signer: bool, is_writable: bool) -> (r: Result<
    ExtraAccountMeta,
    ProgramError,
>)
    ensures
        r is Ok,
        r->Ok_0 == (ExtraAccountMeta {
            discriminator: 0,
            address_config: key.bytes,
            is_signer,
            is_writable,
        }),
{
    let m = OutsideMeta::new_with_pubkey(&Pubkey::new_from_array(key.bytes), is_signer, is_writable)?;
    Ok(ExtraAccountMeta {
        discriminator: m.discriminator,
        address_config: m.address_config,
        is_signer: m.is_signer.into(),
        is_writable: m.is_writable.into(),
    })
}

/// Makes the entry for an account whose address is derived from `seeds`
/// under the executing program, with `ExtraAccountMeta::new_with_seeds` of
/// spl-tlv-account-resolution. Taken on trust: the call fails exactly where
/// the packed seeds take more than 32 bytes; else the entry has the
/// discriminator 1, the packed seeds filled up with zeros, and the two flags
/// as given.
#[verifier::external_body]
fn meta_with_seeds(seeds: &Vec<Seed>, is_signer: bool, is_writable: bool) -> (r: Result<
    ExtraAccountMeta,
    ProgramError,
>)
    requires
        literals_fit(seed_models(seeds@)),
    ensures
        seeds_packed(seed_models(seeds@)).len() > 32 ==> r is Err,
        seeds_packed(seed_models(seeds@)).len() <= 32 ==> r is Ok && r->Ok_0.discriminator == 1
            && r->Ok_0.address_config@ == seeds_config(seed_models(seeds@)) && r->Ok_0.is_signer
            == is_signer && r->Ok_0.is_writable == is_writable,
{
    let outside: Vec<OutsideSeed> = seeds.iter().map(|seed| match seed {
        Seed::Literal { bytes } => OutsideSeed::Literal { bytes: bytes.clone() },
        Seed::AccountKey { index } => OutsideSeed::AccountKey { index: *index },
    }).collect();
    let m = OutsideMeta::new_with_seeds(&outside, is_signer, is_writable)?;
    Ok(ExtraAccountMeta {
        discriminator: m.discriminator,
        address_config: m.address_config,
        is_signer: m.is_signer.into(),
        is_writable: m.is_writable.into(),
    })
}

/// Makes the entry for an account whose address is derived from `seeds`
/// under the program at `program_index` in the list of all accounts, with
/// `ExtraAccountMeta::new_external_pda_with_seeds` of
/// spl-tlv-account-resolution. Taken on trust: the call fails exactly where
/// the index is 128 or more or the packed seeds take more than 32 bytes; else
/// the entry has the discriminator 128 plus the index, the packed seeds
/// filled up with zeros, and the two flags as given.
#[verifier::external_body]
fn meta_with_external_seeds(
    program_index: u8,
    seeds: &Vec<Seed>,
    is_signer: bool,
    is_writable: bool,
) -> (r: Result<ExtraAccountMeta, ProgramError>)
    requires
        literals_fit(seed_models(seeds@)),
    ensures
        program_index >= 128 || seeds_packed(seed_models(seeds@)).len() > 32 ==> r is Err,
        program_index < 128 && seeds_packed(seed_models(seeds@)).len() <= 32 ==> r is Ok
            && r->Ok_0.discriminator == program_index + 128 && r->Ok_0.address_config@
            == seeds_config(seed_models(seeds@)) && r->Ok_0.is_signer == is_signer
            && r->Ok_0.is_writable == is_writable,
{
    let outside: Vec<OutsideSeed> = seeds.iter().map(|seed| match seed {
        Seed::Literal { bytes } => OutsideSeed::Literal { bytes: bytes.clone() },
        Seed::AccountKey { index } => OutsideSeed::AccountKey { index: *index },
    }).collect();
    let m = OutsideMeta::new_external_pda_with_seeds(program_index, &outside, is_signer, is_writable)?;
    Ok(ExtraAccountMeta {
        discriminator: m.discriminator,
        address_config: m.address_config,
        is_signer: m.is_signer.into(),
        is_writable: m.is_writable.into(),
    })
}

/// The bytes that a list of `count` extra accounts takes in its account: 16
/// bytes of headers and 35 bytes for each entry.
pub open spec fn list_size(count: int) -> int {
    16 + 35 * count
}

/// Computes the bytes that a list of `count` extra accounts takes, with
/// `ExtraAccountMetaList::size_of` of spl-tlv-account-resolution. Taken on
/// trust: the call fails exactly where 35 bytes for each entry and 4 for
/// their number leave the range of `usize`; else it gives `list_size`, or the
/// largest `usize` where that is less.
#[verifier::external_body]
fn meta_list_size(count: usize) -> (r: Result<usize, ProgramError>)
    ensures
        35 * count + 4 > usize::MAX ==> r is Err,
        35 * count + 4 <= usize::MAX ==> r is Ok && r->Ok_0 == (if list_size(count as int)
            <= usize::MAX {
            list_size(count as int)
        } else {
            usize::MAX as int
        }),
{
    ExtraAccountMetaList::size_of(count)
}

/// The seeds of the fee delegate: its tag, and the asset, which is the
/// account at index 1.
pub open spec fn delegate_seeds() -> Seq<SeedModel> {
    seq![SeedModel::Literal { bytes: DELEGATE_TAG@ }, SeedModel::AccountKey { index: 1 }]
}

/// The seeds of the treasury, as the hook finds it: its tag, and the asset,
/// which is the account at index 1.
pub open spec fn treasury_seeds() -> Seq<SeedModel> {
    seq![SeedModel::Literal { bytes: TREASURY_TAG@ }, SeedModel::AccountKey { index: 1 }]
}

/// The seeds of the delegate's account of the derivative asset: the delegate
/// (index 8), the token program (index 6) and the derivative asset (index 12).
pub open spec fn fee_account_seeds() -> Seq<SeedModel> {
    seq![
        SeedModel::AccountKey { index: 8 },
        SeedModel::AccountKey { index: 6 },
        SeedModel::AccountKey { index: 12 },
    ]
}

/// The entry for an account with a fixed address.
pub open spec fn fixed_meta(key: Address, is_signer: bool, is_writable: bool) -> ExtraAccountMeta {
    ExtraAccountMeta { discriminator: 0, address_config: key.bytes, is_signer, is_writable }
}

/// Whether `meta` is the entry, not signing and written to, for the account
/// whose address is derived from `seeds`, with the given discriminator.
pub open spec fn is_derived_meta(
    meta: ExtraAccountMeta,
    discriminator: u8,
    seeds: Seq<SeedModel>,
) -> bool {
    &&& meta.discriminator == discriminator
    &&& meta.address_config@ == seeds_config(seeds)
    &&& !meta.is_signer
    &&& meta.is_writable
}

/// Whether `metas` is the list of the extra accounts of the hook. The
/// transfer itself brings the accounts 0 to 4; these nine follow, in this
/// order: the token program of the fee-bearing asset, the token program of
/// the derivative asset, the program of associated token accounts, the fee
/// delegate, the fee ledger, the treasury, the wrapped native asset, the
/// derivative asset, and the delegate's account of the derivative asset,
/// which is derived under the program at index 7.
pub open spec fn is_hook_list(ctx: InitializeExtraAccountMetaList, metas: Seq<ExtraAccountMeta>) -> bool {
    &&& metas.len() == 9
    &&& metas[0] == fixed_meta(ctx.token_program, false, false)
    &&& metas[1] == fixed_meta(ctx.token_program_org, false, false)
    &&& metas[2] == fixed_meta(ctx.associated_token_program, false, false)
    &&& is_derived_meta(metas[3], 1, delegate_seeds())
    &&& metas[4] == fixed_meta(ctx.fee_config_key, false, true)
    &&& is_derived_meta(metas[5], 1, treasury_seeds())
    &&& metas[6] == fixed_meta(ctx.wsol_mint, false, true)
    &&& metas[7] == fixed_meta(ctx.wrapper_mint, false, true)
    &&& is_derived_meta(metas[8], 135, fee_account_seeds())
}

/// The entry for an account with a fixed address.
fn fixed(key: &Address, is_signer: bool, is_writable: bool) -> (meta: ExtraAccountMeta)
    ensures
        meta == fixed_meta(*key, is_signer, is_writable),
{
    match meta_with_pubkey(key, is_signer, is_writable) {
        Ok(meta) => meta,
        Err(_) => vstd::pervasive::unreached(),
    }
}

/// The two seeds of an account that is derived from a tag and the asset.
fn tagged_seeds(tag: &[u8; 8]) -> (seeds: Vec<Seed>)
    ensures
        seed_models(seeds@) == seq![
            SeedModel::Literal { bytes: tag@ },
            SeedModel::AccountKey { index: 1 },
        ],
{
    let mut seeds: Vec<Seed> = Vec::new();
    seeds.push(Seed::Literal { bytes: tag_bytes(tag) });
    seeds.push(Seed::AccountKey { index: 1 });
    assert(seed_models(seeds@) =~= seq![
        SeedModel::Literal { bytes: tag@ },
        SeedModel::AccountKey { index: 1 },
    ]);
    seeds
}

/// The list of the extra accounts of the hook.
pub fn extra_account_metas(ctx: &InitializeExtraAccountMetaList) -> (metas: Vec<ExtraAccountMeta>)
    ensures
        is_hook_list(*ctx, metas@),
{
    let mut metas: Vec<ExtraAccountMeta> = Vec::new();
    metas.push(fixed(&ctx.token_program, false, false));
    metas.push(fixed(&ctx.token_program_org, false, false));
    metas.push(fixed(&ctx.associated_token_program, false, false));

    let seeds: Vec<Seed> = tagged_seeds(&DELEGATE_TAG);
    proof {
        reveal_with_fuel(seeds_packed, 4);
        assert(seeds_packed(delegate_seeds()).len() == 12);
    }
    match meta_with_seeds(&seeds, false, true) {
        Ok(meta) => metas.push(meta),
        Err(_) => vstd::pervasive::unreached(),
    }
    metas.push(fixed(&ctx.fee_config_key, false, true));

    let seeds: Vec<Seed> = tagged_seeds(&TREASURY_TAG);
    proof {
        reveal_with_fuel(seeds_packed, 4);
        assert(seeds_packed(treasury_seeds()).len() == 12);
    }
    match meta_with_seeds(&seeds, false, true) {
        Ok(meta) => metas.push(meta),
        Err(_) => vstd::pervasive::unreached(),
    }
    metas.push(fixed(&ctx.wsol_mint, false, true));
    metas.push(fixed(&ctx.wrapper_mint, false, true));

    let mut seeds: Vec<Seed> = Vec::new();
    seeds.push(Seed::AccountKey { index: 8 });
    seeds.push(Seed::AccountKey { index: 6 });
    seeds.push(Seed::AccountKey { index: 12 });
    proof {
        assert(seed_models(seeds@) =~= fee_account_seeds());
        reveal_with_fuel(seeds_packed, 4);
        assert(seeds_packed(fee_account_seeds()).len() == 6);
    }
    match meta_with_external_seeds(7, &seeds, false, true) {
        Ok(meta) => metas.push(meta),
        Err(_) => vstd::pervasive::unreached(),
    }
    metas
}

/// What the setup of the hook hands back: the list of the extra accounts,
/// and the bytes that the account holding the list takes.
#[derive(Debug, PartialEq, Eq)]
pub struct MetaListSetup {
    pub account_metas: Vec<ExtraAccountMeta>,
    pub account_size: u64,
}

/// The fee ledger as the setup writes it: the two assets, the three
/// recipients and their shares, and every counter at zero.
pub open spec fn new_ledger(
    ctx: InitializeExtraAccountMetaList,
    fee_percent_holders: u16,
    fee_percent_marketing: u16,
    fee_percent_liquidity: u16,
) -> FeeConfig {
    FeeConfig {
        wsol_mint_address: ctx.wsol_mint,
        wrapper_mint_address: ctx.wrapper_mint,
        fee_recipient_liquidity: ctx.fee_recipient_liquidity,
        fee_recipient_marketing: ctx.fee_recipient_marketing,
        fee_recipient_holders: ctx.fee_recipient_holders,
        fee_percent_liquidity,
        fee_percent_marketing,
        fee_percent_holders,
        fee_not_collected: 0,
        fee_collected: 0,
        unclaimed_fee_holders: 0,
        unclaimed_fee_marketing: 0,
        unclaimed_fee_liquidity: 0,
    }
}

/// Sets up the hook for one fee-bearing asset: makes the list of the extra
/// accounts that the hook needs at each transfer, computes the bytes that the
/// account holding the list takes, and writes the fee ledger with the three
/// shares, the recipients, and every counter at zero. Fails with
/// `DuplicateInitialization`, and changes nothing, where the ledger is there
/// already.
pub fn initialize_extra_account_meta_list(
    ctx: &mut InitializeExtraAccountMetaList,
    fee_percent_holders: u16,
    fee_percent_marketing: u16,
    fee_percent_liquidity: u16,
) -> (r: Result<MetaListSetup, SolEarnaError>)
    ensures
        match r {
            Ok(setup) => {
                &&& old(ctx).fee_config is None
                &&& is_hook_list(*old(ctx), setup.account_metas@)
                &&& setup.account_size == list_size(9)
                &&& *final(ctx) == (InitializeExtraAccountMetaList {
                    fee_config: Some(
                        new_ledger(
                            *old(ctx),
                            fee_percent_holders,
                            fee_percent_marketing,
                            fee_percent_liquidity,
                        ),
                    ),
                    ..*old(ctx)
                })
            },
            Err(e) => {
                &&& e == SolEarnaError::DuplicateInitialization
                &&& old(ctx).fee_config is Some
                &&& *final(ctx) == *old(ctx)
            },
        },
{
    if ctx.fee_config.is_some() {
        return Err(SolEarnaError::DuplicateInitialization);
    }
    let account_metas: Vec<ExtraAccountMeta> = extra_account_metas(ctx);
    let size: usize = match meta_list_size(account_metas.len()) {
        Ok(size) => size,
        Err(_) => vstd::pervasive::unreached(),
    };
    ctx.fee_config = Some(
        FeeConfig {
            wsol_mint_address: ctx.wsol_mint,
            wrapper_mint_address: ctx.wrapper_mint,
            fee_recipient_liquidity: ctx.fee_recipient_liquidity,
            fee_recipient_marketing: ctx.fee_recipient_marketing,
            fee_recipient_holders: ctx.fee_recipient_holders,
            fee_percent_liquidity,
            fee_percent_marketing,
            fee_percent_holders,
            fee_not_collected: 0,
            fee_collected: 0,
            unclaimed_fee_holders: 0,
            unclaimed_fee_marketing: 0,
            unclaimed_fee_liquidity: 0,
        },
    );
    Ok(MetaListSetup { account_metas, account_size: size as u64 })
}

} // verus!
