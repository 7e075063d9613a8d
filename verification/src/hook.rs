use vstd::prelude::*;
use crate::contexts::TransferHook;
use crate::errors::SolEarnaError;
use anchor_lang::prelude::ProgramError;
use spl_transfer_hook_interface::instruction::TransferHookInstruction;

verus! {

/// The error type of the programs this library runs beside. Nothing is known
/// of a value of it; it is carried through to the caller.
#[verifier::external_type_specification]
#[verifier::external_body]
pub struct ExProgramError(anchor_lang::prelude::ProgramError);

/// Why a call that came in as raw instruction data was not carried out.
#[derive(Debug)]
pub enum HookError {
    /// The data could not be unpacked.
    Unpack(ProgramError),
    /// The data holds another instruction than the execution of the hook.
    InvalidInstructionData,
    /// The ledger refused the accrual.
    Ledger(SolEarnaError),
}

/// The eight bytes that instruction data of the hook's execution starts with.
pub open spec fn execute_discriminator() -> Seq<u8> {
    seq![105u8, 37u8, 101u8, 197u8, 75u8, 251u8, 102u8, 26u8]
}

/// The number that eight bytes hold, lowest byte first.
pub open spec fn le_u64(bytes: Seq<u8>) -> int
    recommends
        bytes.len() == 8,
{
    bytes[0] + 0x100 * bytes[1] + 0x1_0000 * bytes[2] + 0x100_0000 * bytes[3] + 0x1_0000_0000
        * bytes[4] + 0x100_0000_0000 * bytes[5] + 0x1_0000_0000_0000 * bytes[6]
        + 0x100_0000_0000_0000 * bytes[7]
}

/// Whether instruction data asks for the execution of the hook: it starts
/// with the discriminator of that instruction and goes on with at least the
/// eight bytes of an amount.
pub open spec fn is_execute(data: Seq<u8>) -> bool {
    data.len() >= 16 && data.subrange(0, 8) == execute_discriminator()
}

/// The amount in instruction data that asks for the execution of the hook.
pub open spec fn execute_amount(data: Seq<u8>) -> int
    recommends
        is_execute(data),
{
    le_u64(data.subrange(8, 16))
}

/// The eight bytes that instruction data starts with where it asks to write
/// the list of the hook's extra accounts for the first time.
pub const INITIALIZE_LIST_DISCRIMINATOR: [u8; 8] = [43, 34, 13, 49, 167, 88, 235, 235];

/// The eight bytes that instruction data starts with where it asks to write
/// the list of the hook's extra accounts anew.
pub const UPDATE_LIST_DISCRIMINATOR: [u8; 8] = [157, 105, 42, 146, 102, 85, 241, 174];

/// The number that four bytes hold, lowest byte first.
pub open spec fn le_u32(bytes: Seq<u8>) -> int
    recommends
        bytes.len() == 4,
{
    bytes[0] + 0x100 * bytes[1] + 0x1_0000 * bytes[2] + 0x100_0000 * bytes[3]
}

/// Whether instruction data asks to write a list of extra accounts: it starts
/// with the discriminator of one of the two instructions that do.
pub open spec fn is_list_instruction(data: Seq<u8>) -> bool {
    data.len() >= 8 && (data.subrange(0, 8) == INITIALIZE_LIST_DISCRIMINATOR@ || data.subrange(0, 8)
        == UPDATE_LIST_DISCRIMINATOR@)
}

/// Whether instruction data that asks to write a list of extra accounts is
/// laid out as one: after the discriminator come the four bytes of a count,
/// and after those a whole number of entries of 35 bytes.
pub open spec fn is_whole_list(data: Seq<u8>) -> bool {
    &&& is_list_instruction(data)
    &&& data.len() >= 12
    &&& (data.len() - 12) % 35 == 0
}

/// Whether instruction data that is laid out as a list of extra accounts
/// announces more entries than it holds: the count in its bytes 8 to 12,
/// lowest byte first, is more than the number of entries that follow.
pub open spec fn list_overruns(data: Seq<u8>) -> bool {
    &&& is_whole_list(data)
    &&& le_u32(data.subrange(8, 12)) > (data.len() - 12) / 35
}

/// Whether `data` starts with the eight bytes of `prefix`.
pub fn starts_with(data: &[u8], prefix: &[u8; 8]) -> (found: bool)
    ensures
        found == (data@.len() >= 8 && data@.subrange(0, 8) == prefix@),
{
    if data.len() < 8 {
        return false;
    }
    let mut i: usize = 0;
    while i < 8
        invariant
            i <= 8,
            data@.len() >= 8,
            forall|j: int| 0 <= j < i ==> data@[j] == prefix@[j],
        decreases 8 - i,
    {
        if data[i] != prefix[i] {
            assert(data@.subrange(0, 8)[i as int] != prefix@[i as int]);
            return false;
        }
        i += 1;
    }
    assert(data@.subrange(0, 8) =~= prefix@);
    true
}

/// Whether instruction data that is laid out as a list of extra accounts
/// announces more entries than it holds.
pub fn overruns_list(data: &[u8]) -> (overruns: bool)
    ensures
        overruns == list_overruns(data@),
{
    if data.len() < 12 {
        return false;
    }
    if !starts_with(data, &INITIALIZE_LIST_DISCRIMINATOR) && !starts_with(
        data,
        &UPDATE_LIST_DISCRIMINATOR,
    ) {
        return false;
    }
    if (data.len() - 12) % 35 != 0 {
        return false;
    }
    let count: u64 = data[8] as u64 + 0x100 * (data[9] as u64) + 0x1_0000 * (data[10] as u64)
        + 0x100_0000 * (data[11] as u64);
    let entries: usize = (data.len() - 12) / 35;
    assert(le_u32(data@.subrange(8, 12)) == count);
    count > entries as u64
}

/// Unpacks instruction data with `TransferHookInstruction::unpack` of
/// spl-transfer-hook-interface, and hands out the amount where the instruction
/// is the execution of the hook. The call does not return on data that is
/// laid out as a list of extra accounts and announces more entries than it
/// holds; such data, and no other, is left out. Taken on trust: the result is
/// `Ok(Some(..))` exactly where the data starts with the discriminator of the
/// execution and holds eight more bytes, and the amount is then the number in
/// those eight bytes, lowest byte first; it is `Ok(None)` exactly where the
/// data is laid out as a list of extra accounts; and it is an error for any
/// other data.
#[verifier::external_body]
fn unpack_execute(data: &[u8]) -> (r: Result<Option<u64>, ProgramError>)
    requires
        !list_overruns(data@),
    ensures
        is_execute(data@) ==> r is Ok && r->Ok_0 == Some(execute_amount(data@) as u64),
        is_whole_list(data@) ==> r is Ok && r->Ok_0 is None,
        !is_execute(data@) && !is_whole_list(data@) ==> r is Err,
{
    match TransferHookInstruction::unpack(data) {
        Ok(TransferHookInstruction::Execute { amount }) => Ok(Some(amount)),
        Ok(TransferHookInstruction::InitializeExtraAccountMetaList { .. }) => Ok(None),
        Ok(TransferHookInstruction::UpdateExtraAccountMetaList { .. }) => Ok(None),
        Err(e) => Err(e),
    }
}

/// Takes note of a transfer of `amount` of the fee-bearing asset: accrues its
/// fee in the ledger and returns that fee. Moves no tokens. Fails, and changes
/// nothing, where the ledger cannot take the fee.
pub fn transfer_hook(ctx: &mut TransferHook, amount: u64) -> (r: Result<u64, SolEarnaError>)
    ensures
        old(ctx).fee_config.can_accrue(amount) ==> r == Ok::<u64, SolEarnaError>(
            old(ctx).fee_config.transfer_fee(amount) as u64,
        ) && *final(ctx) == (TransferHook {
            fee_config: old(ctx).fee_config.accrued(amount),
            ..*old(ctx)
        }),
        !old(ctx).fee_config.can_accrue(amount) ==> r == Err::<u64, SolEarnaError>(
            SolEarnaError::NotAllowed,
        ) && *final(ctx) == *old(ctx),
{
    ctx.fee_config.accrue(amount)
}

/// The amount that unpacked instruction data asks the hook to be executed
/// with. An error of the unpacking is handed on as `HookError::Unpack`, and
/// another instruction than the execution is refused as
/// `HookError::InvalidInstructionData`.
pub fn select_execute(unpacked: Result<Option<u64>, ProgramError>) -> (r: Result<u64, HookError>)
    ensures
        match unpacked {
            Ok(Some(amount)) => r is Ok && r->Ok_0 == amount,
            Ok(None) => r is Err && r->Err_0 is InvalidInstructionData,
            Err(e) => r is Err && r->Err_0 == HookError::Unpack(e),
        },
{
    match unpacked {
        Ok(Some(amount)) => Ok(amount),
        Ok(None) => Err(HookError::InvalidInstructionData),
        Err(e) => Err(HookError::Unpack(e)),
    }
}

/// Data that asks for the execution of the hook does not ask to write a list
/// of extra accounts: the discriminators differ in their first byte.
pub proof fn execution_is_no_list(data: Seq<u8>)
    requires
        is_execute(data),
    ensures
        !is_list_instruction(data),
        !is_whole_list(data),
        !list_overruns(data),
{
    assert(execute_discriminator()[0] == 105);
    assert(INITIALIZE_LIST_DISCRIMINATOR@[0] == 43);
    assert(UPDATE_LIST_DISCRIMINATOR@[0] == 157);
}

/// The amount that raw instruction data asks the hook to be executed with.
/// Data that asks for the execution of the hook gives its amount. Data that
/// is laid out as a list of extra accounts is another instruction and is
/// refused as `HookError::InvalidInstructionData`; where it announces more
/// entries than it holds, without being unpacked. Any other data does not
/// unpack, and the error of the unpacking is handed on as
/// `HookError::Unpack`.
pub fn instruction_amount(data: &[u8]) -> (r: Result<u64, HookError>)
    ensures
        is_execute(data@) ==> r is Ok && r->Ok_0 == execute_amount(data@),
        is_whole_list(data@) ==> r is Err && r->Err_0 is InvalidInstructionData,
        !is_execute(data@) && !is_whole_list(data@) ==> r is Err && r->Err_0 is Unpack,
{
    proof {
        if is_execute(data@) {
            execution_is_no_list(data@);
        }
    }
    if overruns_list(data) {
        return Err(HookError::InvalidInstructionData);
    }
    select_execute(unpack_execute(data))
}

/// Handles raw instruction data: where it asks for the execution of the hook,
/// the amount in it is handed to `transfer_hook`, whose fee is returned, or
/// whose refusal as `HookError::Ledger`. Any other data is refused and
/// changes nothing: a list of extra accounts as
/// `HookError::InvalidInstructionData`, and data that does not unpack with the
/// error of the unpacking, as `HookError::Unpack`.
pub fn fallback(ctx: &mut TransferHook, data: &[u8]) -> (r: Result<u64, HookError>)
    ensures
        is_execute(data@) && old(ctx).fee_config.can_accrue(execute_amount(data@) as u64) ==> {
            &&& r is Ok
            &&& r->Ok_0 == old(ctx).fee_config.transfer_fee(execute_amount(data@) as u64)
            &&& final(ctx).fee_config == old(ctx).fee_config.accrued(execute_amount(data@) as u64)
            &&& final(ctx).mint == old(ctx).mint
        },
        is_execute(data@) && !old(ctx).fee_config.can_accrue(execute_amount(data@) as u64) ==> {
            &&& r is Err
            &&& r->Err_0 == HookError::Ledger(SolEarnaError::NotAllowed)
            &&& *final(ctx) == *old(ctx)
        },
        is_whole_list(data@) ==> {
            &&& r is Err
            &&& r->Err_0 is InvalidInstructionData
            &&& *final(ctx) == *old(ctx)
        },
        !is_execute(data@) && !is_whole_list(data@) ==> {
            &&& r is Err
            &&& r->Err_0 is Unpack
            &&& *final(ctx) == *old(ctx)
        },
{
    proof {
        if is_execute(data@) {
            execution_is_no_list(data@);
        }
    }
    match instruction_amount(data) {
        Ok(amount) => match transfer_hook(ctx, amount) {
            Ok(fee) => Ok(fee),
            Err(e) => Err(HookError::Ledger(e)),
        },
        Err(e) => Err(e),
    }
}

} // verus!
