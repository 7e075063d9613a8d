use vstd::prelude::*;

verus! {

/// A 32-byte account identifier.
#[derive(Clone, Copy, Debug, PartialEq, Eq, Hash)]
pub struct Address {
    pub bytes: [u8; 32],
}

impl View for Address {
    type V = Seq<u8>;

    open spec fn view(&self) -> Seq<u8> {
        self.bytes@
    }
}

impl Address {
    /// Wraps 32 raw bytes.
    pub fn new(bytes: [u8; 32]) -> (a: Address)
        ensures
            a.bytes == bytes,
            a@ == bytes@,
    {
        Address { bytes }
    }

    /// Whether two identifiers name the same account: all 32 bytes agree.
    pub fn same(&self, other: &Address) -> (eq: bool)
        ensures
            eq == (self@ == other@),
            eq == (*self == *other),
    {
        let mut i: usize = 0;
        while i < 32
            invariant
                i <= 32,
                forall|j: int| 0 <= j < i ==> self.bytes@[j] == other.bytes@[j],
            decreases 32 - i,
        {
            if self.bytes[i] != other.bytes[i] {
                return false;
            }
            i += 1;
        }
        assert(self.bytes@ =~= other.bytes@);
        assert(self.bytes == other.bytes);
        true
    }
}

/// Copies the 32 bytes of an identifier.
pub fn address_bytes(address: &Address) -> (bytes: Vec<u8>)
    ensures
        bytes@ == address@,
{
    let mut bytes: Vec<u8> = Vec::new();
    let mut i: usize = 0;
    while i < 32
        invariant
            i <= 32,
            bytes@ == address@.subrange(0, i as int),
        decreases 32 - i,
    {
        bytes.push(address.bytes[i]);
        assert(bytes@ =~= address@.subrange(0, i + 1));
        i += 1;
    }
    assert(bytes@ =~= address@);
    bytes
}

/// One of the three beneficiaries of the fee.
#[derive(Clone, Copy, Debug, PartialEq, Eq, Structural)]
pub enum FeeCategory {
    Holders,
    Marketing,
    Liquidity,
}

/// The fee ledger of one fee-bearing asset: the three shares of the fee, who
/// receives them, and the running counters.
#[derive(Clone, Copy, Debug, PartialEq, Eq)]
pub struct FeeConfig {
    pub wsol_mint_address: Address,
    pub wrapper_mint_address: Address,
    pub fee_recipient_liquidity: Address,
    pub fee_recipient_marketing: Address,
    pub fee_recipient_holders: Address,
    /// Share of the liquidity recipient; 100 means 1%.
    pub fee_percent_liquidity: u16,
    /// Share of the marketing recipient; 400 means 4%.
    pub fee_percent_marketing: u16,
    /// Share of the holders; 500 means 5%.
    pub fee_percent_holders: u16,
    /// Fee accrued by transfers and not yet withdrawn from the withheld pool.
    pub fee_not_collected: u64,
    /// Fee withdrawn from the pool and not yet paid out.
    pub fee_collected: u64,
    /// What the holders may still claim.
    pub unclaimed_fee_holders: u64,
    /// What the marketing recipient may still claim.
    pub unclaimed_fee_marketing: u64,
    /// What the liquidity recipient may still claim.
    pub unclaimed_fee_liquidity: u64,
}

/// The record that anchors one underlying asset, its derivative asset and the
/// vault that holds the deposits.
#[derive(Clone, Copy, Debug, PartialEq, Eq)]
pub struct Treasury {
    /// Who created the treasury.
    pub authority: Address,
    /// The underlying asset.
    pub treasury_mint: Address,
    /// The derivative asset, minted one for one against deposits.
    pub wrapper_mint: Address,
    /// The vault that holds the deposited underlying asset.
    pub treasury_token_account: Address,
}

/// What the vault logic reads of an asset: its identifier, its decimals, who
/// may mint it, and how much of it is in circulation.
#[derive(Clone, Copy, Debug, PartialEq, Eq)]
pub struct Mint {
    pub key: Address,
    pub decimals: u8,
    pub mint_authority: Address,
    pub supply: u64,
}

/// What the logic reads of a token account: its identifier, the asset it
/// holds, who controls it, and its balance.
#[derive(Clone, Copy, Debug, PartialEq, Eq)]
pub struct TokenAccount {
    pub key: Address,
    pub mint: Address,
    pub owner: Address,
    pub amount: u64,
}

} // verus!
