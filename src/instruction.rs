use vstd::prelude::*;

verus! {

/// First byte of the call that borrows from the lender.
pub const FLASH_LOAN_OPCODE: u8 = 0;

/// First byte of the call that swaps on a venue.
pub const SWAP_OPCODE: u8 = 1;

/// The `n` low bytes of `x`, least significant first.
pub open spec fn le_bytes(x: nat, n: nat) -> Seq<u8>
    decreases n,
{
    if n == 0 {
        Seq::empty()
    } else {
        seq![(x % 256) as u8] + le_bytes(x / 256, (n - 1) as nat)
    }
}

/// The eight-byte little-endian encoding of `x`.
pub open spec fn u64_le(x: u64) -> Seq<u8> {
    le_bytes(x as nat, 8)
}

/// Appends the little-endian encoding of `x`.
pub fn push_u64_le(out: &mut Vec<u8>, x: u64)
    ensures
        final(out)@ == old(out)@ + u64_le(x),
{
    let mut v: u64 = x;
    let mut k: usize = 0;
    while k < 8
        invariant
            k <= 8,
            out@ + le_bytes(v as nat, (8 - k) as nat) == old(out)@ + u64_le(x),
        decreases 8 - k,
    {
        let ghost before = out@;
        let ghost rest = le_bytes((v / 256) as nat, (8 - k - 1) as nat);
        assert(le_bytes(v as nat, (8 - k) as nat) == seq![(v % 256) as u8] + rest);
        out.push((v % 256) as u8);
        assert(out@ + rest =~= before + (seq![(v % 256) as u8] + rest));
        v = v / 256;
        k = k + 1;
    }
    assert(out@ + le_bytes(v as nat, 0) =~= out@);
}

/// Payload of the call that borrows `amount` from the lender.
pub fn flash_loan_instruction_data(amount: u64) -> (r: Vec<u8>)
    ensures
        r@ == seq![FLASH_LOAN_OPCODE] + u64_le(amount),
{
    let mut data: Vec<u8> = Vec::with_capacity(9);
    data.push(FLASH_LOAN_OPCODE);
    push_u64_le(&mut data, amount);
    data
}

/// Payload of the call that swaps `amount` on a venue, accepting no less
/// than `min_out`.
pub fn swap_instruction_data(amount: u64, min_out: u64) -> (r: Vec<u8>)
    ensures
        r@ == seq![SWAP_OPCODE] + u64_le(amount) + u64_le(min_out),
{
    let mut data: Vec<u8> = Vec::with_capacity(17);
    data.push(SWAP_OPCODE);
    push_u64_le(&mut data, amount);
    push_u64_le(&mut data, min_out);
    data
}

} // verus!
