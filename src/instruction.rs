use crate::error::AppError;
use vstd::prelude::*;

verus! {

/// An operation request.
///
/// The wire format covers the first seven variants; the last three are
/// handled by the processor but have no tag on the wire.
#[derive(Clone, Copy, Debug, PartialEq, Eq, Structural)]
pub enum AppInstruction {
    InitializePool { reserve: u64, lpt: u128 },
    InitializeLPT,
    AddLiquidity { reserve: u64 },
    RemoveLiquidity { lpt: u128 },
    Swap { amount: u64 },
    Vote,
    CloseLPT,
    InitializeNetwork,
    Transfer { lpt: u128 },
    ClosePool,
}

/// `256^n`.
pub open spec fn pow256(n: nat) -> nat
    decreases n,
{
    if n == 0 {
        1
    } else {
        256 * pow256((n - 1) as nat)
    }
}

/// The unsigned integer whose little-endian encoding is `s`.
pub open spec fn le_value(s: Seq<u8>) -> nat
    decreases s.len(),
{
    if s.len() == 0 {
        0
    } else {
        s[0] as nat + 256 * le_value(s.drop_first())
    }
}

/// The little-endian field of `data` that spans bytes `start .. start + n`.
pub open spec fn le_field(data: Seq<u8>, start: int, n: int) -> nat {
    le_value(data.subrange(start, start + n))
}

/// What a request buffer decodes to: byte 0 is the tag, the fields follow
/// it little-endian and without padding; trailing bytes are ignored.
pub open spec fn spec_unpack(data: Seq<u8>) -> Result<AppInstruction, AppError> {
    if data.len() == 0 {
        Err(AppError::InvalidInstruction)
    } else if data[0] == 0 {
        if data.len() >= 25 {
            Ok(
                AppInstruction::InitializePool {
                    reserve: le_field(data, 1, 8) as u64,
                    lpt: le_field(data, 9, 16) as u128,
                },
            )
        } else {
            Err(AppError::InvalidInstruction)
        }
    } else if data[0] == 1 {
        Ok(AppInstruction::InitializeLPT)
    } else if data[0] == 2 {
        if data.len() >= 9 {
            Ok(AppInstruction::AddLiquidity { reserve: le_field(data, 1, 8) as u64 })
        } else {
            Err(AppError::InvalidInstruction)
        }
    } else if data[0] == 3 {
        if data.len() >= 17 {
            Ok(AppInstruction::RemoveLiquidity { lpt: le_field(data, 1, 16) as u128 })
        } else {
            Err(AppError::InvalidInstruction)
        }
    } else if data[0] == 4 {
        if data.len() >= 9 {
            Ok(AppInstruction::Swap { amount: le_field(data, 1, 8) as u64 })
        } else {
            Err(AppError::InvalidInstruction)
        }
    } else if data[0] == 6 {
        Ok(AppInstruction::Vote)
    } else if data[0] == 7 {
        Ok(AppInstruction::CloseLPT)
    } else {
        Err(AppError::InvalidInstruction)
    }
}

proof fn lemma_le_bound(s: Seq<u8>)
    ensures
        le_value(s) < pow256(s.len()),
    decreases s.len(),
{
    if s.len() > 0 {
        lemma_le_bound(s.drop_first());
    }
}

pub(crate) proof fn lemma_pow256_mono(a: nat, b: nat)
    requires
        a <= b,
    ensures
        pow256(a) <= pow256(b),
    decreases b,
{
    if a < b {
        lemma_pow256_mono(a, (b - 1) as nat);
    }
}

/// Reads the `n`-byte little-endian integer at `data[start..start + n]`.
pub(crate) fn read_le(data: &[u8], start: usize, n: usize) -> (r: u128)
    requires
        n <= 16,
        start + n <= data@.len(),
    ensures
        r as nat == le_field(data@, start as int, n as int),
        r < pow256(n as nat),
{
    let len = data.len();
    let mut v: u128 = 0;
    let mut i: usize = n;
    proof {
        reveal_with_fuel(pow256, 17);
        assert(data@.subrange(start + n, start + n).len() == 0);
    }
    while i > 0
        invariant
            i <= n <= 16,
            start + n <= data@.len(),
            len == data@.len(),
            v as nat == le_value(data@.subrange(start + i, start + n)),
            v < pow256((n - i) as nat),
            pow256(15) * 256 == 0x1_0000_0000_0000_0000_0000_0000_0000_0000,
        decreases i,
    {
        let b = data[start + i - 1];
        proof {
            lemma_pow256_mono((n - i) as nat, 15);
            let s = data@.subrange(start + i - 1, start + n);
            assert(s.drop_first() =~= data@.subrange(start + i, start + n));
            assert(v * 256 + b < 0x1_0000_0000_0000_0000_0000_0000_0000_0000) by (nonlinear_arith)
                requires
                    v < pow256((n - i) as nat),
                    pow256((n - i) as nat) <= pow256(15),
                    pow256(15) * 256 == 0x1_0000_0000_0000_0000_0000_0000_0000_0000,
                    b < 256,
            ;
        }
        v = v * 256 + b as u128;
        i = i - 1;
    }
    proof {
        lemma_le_bound(data@.subrange(start as int, start + n));
    }
    v
}

impl AppInstruction {
    /// Decodes a request buffer.
    pub fn unpack(instruction: &[u8]) -> (r: Result<AppInstruction, AppError>)
        ensures
            r == spec_unpack(instruction@),
    {
        proof {
            reveal_with_fuel(pow256, 17);
        }
        if instruction.len() == 0 {
            return Err(AppError::InvalidInstruction);
        }
        let tag = instruction[0];
        if tag == 0 {
            if instruction.len() < 25 {
                return Err(AppError::InvalidInstruction);
            }
            let reserve = read_le(instruction, 1, 8) as u64;
            let lpt = read_le(instruction, 9, 16);
            Ok(AppInstruction::InitializePool { reserve, lpt })
        } else if tag == 1 {
            Ok(AppInstruction::InitializeLPT)
        } else if tag == 2 {
            if instruction.len() < 9 {
                return Err(AppError::InvalidInstruction);
            }
            let reserve = read_le(instruction, 1, 8) as u64;
            Ok(AppInstruction::AddLiquidity { reserve })
        } else if tag == 3 {
            if instruction.len() < 17 {
                return Err(AppError::InvalidInstruction);
            }
            let lpt = read_le(instruction, 1, 16);
            Ok(AppInstruction::RemoveLiquidity { lpt })
        } else if tag == 4 {
            if instruction.len() < 9 {
                return Err(AppError::InvalidInstruction);
            }
            let amount = read_le(instruction, 1, 8) as u64;
            Ok(AppInstruction::Swap { amount })
        } else if tag == 6 {
            Ok(AppInstruction::Vote)
        } else if tag == 7 {
            Ok(AppInstruction::CloseLPT)
        } else {
            Err(AppError::InvalidInstruction)
        }
    }
}

} // verus!
