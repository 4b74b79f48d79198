//! Decoding of the raw calls that the token program makes, and their routing to
//! the royalty handler.
//!
//! The token program selects "execute" by the first eight bytes of the SHA-256
//! digest of `spl-transfer-hook-interface:execute`, followed by the amount as
//! eight little-endian bytes. The program's own dispatch table does not know that
//! selector, so such calls arrive at the fallback entry point.

use vstd::prelude::*;
use crate::error::HookError;
use spl_transfer_hook_interface::instruction::TransferHookInstruction;
use anchor_lang::solana_program::program_error::ProgramError;

verus! {

/// The interface's operations as far as this hook tells them apart.
#[derive(Clone, Copy, Debug, PartialEq, Eq, Structural)]
pub enum HookInstruction {
    Execute(u64),
    /// An operation of the interface that this hook does not serve.
    Unsupported,
}

/// The eight-byte selector of the interface's "execute" operation.
pub open spec fn execute_tag() -> Seq<u8> {
    seq![105u8, 37u8, 101u8, 197u8, 75u8, 251u8, 102u8, 26u8]
}

/// The unsigned value of eight little-endian bytes.
pub open spec fn le_value(s: Seq<u8>) -> nat {
    (s[0] as nat + 0x100 * s[1] as nat + 0x1_0000 * s[2] as nat + 0x100_0000 * s[3] as nat
        + 0x1_0000_0000 * s[4] as nat + 0x100_0000_0000 * s[5] as nat + 0x1_0000_0000_0000
        * s[6] as nat + 0x100_0000_0000_0000 * s[7] as nat) as nat
}

/// The eight little-endian bytes of `v`.
pub open spec fn le_bytes(v: u64) -> Seq<u8> {
    seq![
        (v % 0x100) as u8,
        (v / 0x100 % 0x100) as u8,
        (v / 0x1_0000 % 0x100) as u8,
        (v / 0x100_0000 % 0x100) as u8,
        (v / 0x1_0000_0000 % 0x100) as u8,
        (v / 0x100_0000_0000 % 0x100) as u8,
        (v / 0x1_0000_0000_0000 % 0x100) as u8,
        (v / 0x100_0000_0000_0000 % 0x100) as u8,
    ]
}

/// Whether `data` starts with the "execute" selector.
pub open spec fn has_execute_tag(data: Seq<u8>) -> bool {
    data.len() >= 8 && data.subrange(0, 8) == execute_tag()
}

/// Whether `data` is a complete "execute" call: the selector and eight bytes of
/// amount.
pub open spec fn is_execute_call(data: Seq<u8>) -> bool {
    has_execute_tag(data) && data.len() >= 16
}

/// Whether `data` holds the "execute" selector but not the eight bytes of
/// amount after it.
pub open spec fn is_truncated_execute(data: Seq<u8>) -> bool {
    has_execute_tag(data) && data.len() < 16
}

/// The amount of an "execute" call.
pub open spec fn execute_amount(data: Seq<u8>) -> nat {
    le_value(data.subrange(8, 16))
}

/// A successful decoding as "execute" with `amount`.
pub open spec fn execute_result(amount: u64) -> Result<HookInstruction, HookError> {
    Ok(HookInstruction::Execute(amount))
}

/// Relies on `TransferHookInstruction::unpack` of spl-transfer-hook-interface,
/// on data that starts with the "execute" selector: it reads the first eight
/// bytes after the selector as a little-endian amount, and fails with
/// `InvalidInstructionData` where there are fewer. (Other selectors are kept
/// away from it: for those it may panic on a malformed item count.)
#[verifier::external_body]
fn unpack_instruction(data: &[u8]) -> (r: Result<HookInstruction, HookError>)
    requires
        has_execute_tag(data@),
    ensures
        is_execute_call(data@) ==> r == execute_result(execute_amount(data@) as u64),
        is_truncated_execute(data@) ==> r matches Err(HookError::InvalidInstructionData),
{
    match TransferHookInstruction::unpack(data) {
        Ok(TransferHookInstruction::Execute { amount }) => Ok(HookInstruction::Execute(amount)),
        Ok(_) => Ok(HookInstruction::Unsupported),
        Err(ProgramError::InvalidInstructionData) => Err(HookError::InvalidInstructionData),
        Err(e) => Err(HookError::Program(u64::from(e))),
    }
}

/// The "execute" selector as bytes.
pub fn execute_tag_bytes() -> (r: Vec<u8>)
    ensures
        r@ == execute_tag(),
{
    let r: Vec<u8> = vec![105u8, 37u8, 101u8, 197u8, 75u8, 251u8, 102u8, 26u8];
    assert(r@ =~= execute_tag());
    r
}

/// Whether `data` starts with the "execute" selector.
pub fn has_execute_selector(data: &[u8]) -> (r: bool)
    ensures
        r == has_execute_tag(data@),
{
    if data.len() < 8 {
        return false;
    }
    let tag = execute_tag_bytes();
    let mut i: usize = 0;
    while i < 8
        invariant
            i <= 8,
            data@.len() >= 8,
            tag@ == execute_tag(),
            forall|j: int| 0 <= j < i ==> data@[j] == execute_tag()[j],
        decreases 8 - i,
    {
        if data[i] != tag[i] {
            assert(data@.subrange(0, 8)[i as int] != execute_tag()[i as int]);
            return false;
        }
        i = i + 1;
    }
    assert(data@.subrange(0, 8) =~= execute_tag());
    true
}

/// The handler's instruction data for `amount`: its eight little-endian bytes.
pub fn encode_amount(amount: u64) -> (r: Vec<u8>)
    ensures
        r@ == le_bytes(amount),
{
    let mut out: Vec<u8> = Vec::new();
    out.push((amount % 0x100) as u8);
    out.push((amount / 0x100 % 0x100) as u8);
    out.push((amount / 0x1_0000 % 0x100) as u8);
    out.push((amount / 0x100_0000 % 0x100) as u8);
    out.push((amount / 0x1_0000_0000 % 0x100) as u8);
    out.push((amount / 0x100_0000_0000 % 0x100) as u8);
    out.push((amount / 0x1_0000_0000_0000 % 0x100) as u8);
    out.push((amount / 0x100_0000_0000_0000 % 0x100) as u8);
    assert(out@ =~= le_bytes(amount));
    out
}

/// Routes a decoded operation: "execute" goes to the royalty handler with the
/// amount re-encoded as the handler expects it; anything else is refused.
pub fn route_instruction(instruction: HookInstruction) -> (r: Result<Vec<u8>, HookError>)
    ensures
        instruction matches HookInstruction::Execute(amount) ==> (r matches Ok(b) && b@
            == le_bytes(amount)),
        instruction is Unsupported ==> r matches Err(HookError::InvalidInstructionData),
{
    match instruction {
        HookInstruction::Execute(amount) => Ok(encode_amount(amount)),
        HookInstruction::Unsupported => Err(HookError::InvalidInstructionData),
    }
}

/// The fallback entry point: decodes `data` as a call of the transfer-hook
/// interface and, for "execute", returns the instruction data with which the
/// royalty handler is to be invoked. Every other call, and every call cut
/// short, is refused as invalid instruction data, and the handler is then not
/// invoked.
pub fn fallback(data: &[u8]) -> (r: Result<Vec<u8>, HookError>)
    ensures
        is_execute_call(data@) ==> (r matches Ok(b) && b@ == le_bytes(
            execute_amount(data@) as u64,
        )),
        !is_execute_call(data@) ==> r matches Err(HookError::InvalidInstructionData),
{
    if !has_execute_selector(data) {
        return Err(HookError::InvalidInstructionData);
    }
    match unpack_instruction(data) {
        Ok(instruction) => route_instruction(instruction),
        Err(e) => Err(e),
    }
}

} // verus!
