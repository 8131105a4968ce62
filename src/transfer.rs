use vstd::prelude::*;
use crate::address::Address;

verus! {

/// A payment of `lamports` from `from` to `to`.
#[derive(Clone, Copy, Debug, PartialEq, Eq)]
pub struct Transfer {
    pub from: Address,
    pub to: Address,
    pub lamports: u64,
}

/// Why a payment request was refused.
#[derive(Clone, Copy, Debug, PartialEq, Eq, Structural)]
pub enum TransferError {
    /// Fewer than two accounts were given.
    NotEnoughAccountKeys,
    /// The instruction data is shorter than eight bytes.
    InvalidInstructionData,
}

/// The number that bytes encode, least significant byte first.
pub open spec fn le_value(bytes: Seq<u8>) -> nat
    decreases bytes.len(),
{
    if bytes.len() == 0 {
        0
    } else {
        (bytes[0] + 256 * le_value(bytes.drop_first())) as nat
    }
}

/// `256` to the power `e`.
pub open spec fn pow256(e: nat) -> nat
    decreases e,
{
    if e == 0 {
        1
    } else {
        256 * pow256((e - 1) as nat)
    }
}

/// Reads the first eight bytes as a little-endian `u64`.
pub fn read_u64_le(input: &[u8]) -> (r: u64)
    requires
        input@.len() >= 8,
    ensures
        r == le_value(input@.subrange(0, 8)),
{
    proof {
        reveal_with_fuel(pow256, 9);
    }
    assert(pow256(8) == 0x1_0000_0000_0000_0000nat);
    let mut acc: u64 = 0;
    let mut i: usize = 8;
    assert(input@.subrange(8, 8) =~= Seq::<u8>::empty());
    while i > 0
        invariant
            i <= 8,
            input@.len() >= 8,
            acc == le_value(input@.subrange(i as int, 8)),
            acc < pow256((8 - i) as nat),
            pow256(8) == 0x1_0000_0000_0000_0000nat,
        decreases i,
    {
        i -= 1;
        let ghost k: nat = (7 - i) as nat;
        proof {
            assert(pow256(k + 1) == 256 * pow256(k));
            if k < 7 {
                assert(pow256(k) <= pow256(7)) by {
                    reveal_with_fuel(pow256, 9);
                }
            }
            assert(pow256(7) == 0x100_0000_0000_0000nat) by {
                reveal_with_fuel(pow256, 9);
            }
            let a = acc as int;
            let p = pow256(k) as int;
            assert(a * 256 + 255 < p * 256) by (nonlinear_arith)
                requires
                    a < p,
            ;
            assert(input@.subrange(i as int, 8).drop_first() =~= input@.subrange(i + 1, 8));
        }
        acc = acc * 256 + input[i] as u64;
    }
    acc
}

/// A payment request: the payer and payee are the first two accounts, the
/// amount the first eight bytes of the instruction data, little-endian.
pub fn process_instruction(accounts: &[Address], input: &[u8]) -> (r: Result<Transfer, TransferError>)
    ensures
        accounts@.len() < 2 ==> r == Err::<Transfer, TransferError>(
            TransferError::NotEnoughAccountKeys,
        ),
        accounts@.len() >= 2 && input@.len() < 8 ==> r == Err::<Transfer, TransferError>(
            TransferError::InvalidInstructionData,
        ),
        accounts@.len() >= 2 && input@.len() >= 8 ==> r == Ok::<Transfer, TransferError>(
            Transfer {
                from: accounts@[0],
                to: accounts@[1],
                lamports: le_value(input@.subrange(0, 8)) as u64,
            },
        ),
{
    if accounts.len() < 2 {
        return Err(TransferError::NotEnoughAccountKeys);
    }
    if input.len() < 8 {
        return Err(TransferError::InvalidInstructionData);
    }
    let lamports = read_u64_le(input);
    Ok(Transfer { from: accounts[0], to: accounts[1], lamports })
}

} // verus!
