//! The instruction handler of the example native program, modelled on
//! plain values: the account it touches, the clock it reads, and the exact
//! bytes it writes back.

use vstd::prelude::*;

verus! {

/// The two clock readings the instruction records.
pub struct ClockInfo {
    pub slot: u64,
    pub unix_timestamp: i64,
}

/// One account handed to the instruction: its owning program, whether the
/// runtime lets the instruction write it, and its data bytes.
pub struct ProgramAccount {
    pub owner: [u8; 32],
    pub is_writable: bool,
    pub data: Vec<u8>,
}

/// The ways the instruction rejects its input.
#[derive(Debug, PartialEq, Eq)]
pub enum ProgramFault {
    NotEnoughAccountKeys,
    IncorrectProgramId,
    InvalidAccountData,
    AccountDataTooSmall,
    InvalidInstructionData,
}

/// The little-endian value of the first four bytes.
pub open spec fn le_u32(s: Seq<u8>) -> int {
    s[0] + s[1] * 0x100 + s[2] * 0x10000 + s[3] * 0x1000000
}

/// The buffer length the instruction data requests: its first four bytes
/// read little-endian, or 32 when fewer than four bytes were supplied.
pub open spec fn spec_requested_len(instr: Seq<u8>) -> int {
    if instr.len() >= 4 {
        le_u32(instr)
    } else {
        32
    }
}

/// The byte written at position `i` of the scratch buffer: the index,
/// wrapped to a byte, plus one, wrapping.
pub open spec fn fill_byte(i: int) -> u8 {
    (((i % 256) + 1) % 256) as u8
}

/// The wrapping sum of the first `n` scratch-buffer bytes.
pub open spec fn spec_checksum(n: int) -> u8
    decreases n,
{
    if n <= 0 {
        0u8
    } else {
        ((spec_checksum(n - 1) + fill_byte(n - 1)) % 256) as u8
    }
}

/// A signed 64-bit value reinterpreted as its two's-complement bit pattern.
pub open spec fn twos_u64(x: i64) -> u64 {
    if x >= 0 {
        x as u64
    } else {
        (0xffffffffffffffffu64 - ((-(x + 1)) as u64)) as u64
    }
}

/// Byte `i` of a 64-bit value in little-endian order.
pub open spec fn le_byte(x: u64, i: int) -> u8 {
    ((x >> ((8 * i) as u64)) & 0xff) as u8
}

/// The account data after a successful run: the checksum byte, then the
/// timestamp and the slot in little-endian, then the rest unchanged.
pub open spec fn written_data(old_data: Seq<u8>, checksum: u8, ts: u64, slot: u64) -> Seq<u8> {
    Seq::new(
        old_data.len(),
        |i: int|
            if i == 0 {
                checksum
            } else if 1 <= i < 9 {
                le_byte(ts, i - 1)
            } else if 9 <= i < 17 {
                le_byte(slot, i - 9)
            } else {
                old_data[i]
            },
    )
}

/// How the instruction rejects its input, if it does: the checks run in a
/// fixed order and the first failing one names the fault.
pub open spec fn instruction_fault(
    program_id: Seq<u8>,
    accounts: Seq<ProgramAccount>,
    instr: Seq<u8>,
) -> Option<ProgramFault> {
    if accounts.len() == 0 {
        Some(ProgramFault::NotEnoughAccountKeys)
    } else if accounts[0].owner@ != program_id {
        Some(ProgramFault::IncorrectProgramId)
    } else if !accounts[0].is_writable {
        Some(ProgramFault::InvalidAccountData)
    } else if accounts[0].data@.len() < 17 {
        Some(ProgramFault::AccountDataTooSmall)
    } else if spec_requested_len(instr) < 8 {
        Some(ProgramFault::InvalidInstructionData)
    } else {
        None
    }
}

/// Whether two 32-byte keys hold the same bytes.
fn keys_equal(a: &[u8; 32], b: &[u8; 32]) -> (r: bool)
    ensures
        r == (a@ == b@),
{
    let mut i: usize = 0;
    while i < 32
        invariant
            i <= 32,
            forall|j: int| 0 <= j < i ==> a@[j] == b@[j],
        decreases 32 - i,
    {
        if a[i] != b[i] {
            return false;
        }
        i += 1;
    }
    proof {
        assert(a@ =~= b@);
    }
    true
}

/// The buffer length the instruction data requests, read from the first
/// four bytes.
fn requested_len(instruction_data: &[u8]) -> (r: u64)
    ensures
        r == spec_requested_len(instruction_data@),
{
    if instruction_data.len() >= 4 {
        let b0 = instruction_data[0] as u64;
        let b1 = instruction_data[1] as u64;
        let b2 = instruction_data[2] as u64;
        let b3 = instruction_data[3] as u64;
        b0 + b1 * 0x100 + b2 * 0x10000 + b3 * 0x1000000
    } else {
        32
    }
}

/// The two's-complement bit pattern of a signed 64-bit value.
fn twos_bits(x: i64) -> (r: u64)
    ensures
        r == twos_u64(x),
{
    if x >= 0 {
        x as u64
    } else {
        let m: u64 = (-(x + 1)) as u64;
        0xffffffffffffffffu64 - m
    }
}

/// The wrapping checksum of a scratch buffer of `n` bytes, built exactly as
/// the instruction builds it: the buffer first, then a wrapping fold.
fn checksum_of(n: u64) -> (r: u8)
    ensures
        r == spec_checksum(n as int),
{
    let mut buffer: Vec<u8> = Vec::with_capacity(1);
    let mut idx: u64 = 0;
    while idx < n
        invariant
            idx <= n,
            buffer@.len() == idx,
            forall|j: int| 0 <= j < idx ==> buffer@[j] == fill_byte(j),
        decreases n - idx,
    {
        let low: u8 = (idx % 256) as u8;
        let v: u8 = if low == 255 {
            0
        } else {
            low + 1
        };
        buffer.push(v);
        idx += 1;
    }
    let mut acc: u8 = 0;
    let mut j: usize = 0;
    while j < buffer.len()
        invariant
            j <= buffer@.len(),
            buffer@.len() == n,
            forall|k: int| 0 <= k < buffer@.len() ==> buffer@[k] == fill_byte(k),
            acc == spec_checksum(j as int),
        decreases buffer@.len() - j,
    {
        let b = buffer[j];
        acc = ((acc as u16 + b as u16) % 256) as u8;
        j += 1;
    }
    acc
}

/// Writes a 64-bit value little-endian into eight bytes of `data` starting
/// at `start`, leaving every other byte unchanged.
fn write_le_u64(data: &mut Vec<u8>, start: usize, x: u64)
    requires
        start + 8 <= old(data)@.len(),
    ensures
        final(data)@.len() == old(data)@.len(),
        forall|k: int| start <= k < start + 8 ==> final(data)@[k] == le_byte(x, k - start),
        forall|k: int|
            0 <= k < old(data)@.len() && !(start <= k < start + 8) ==> final(data)@[k] == old(
                data,
            )@[k],
{
    let len = data.len();
    let mut j: usize = 0;
    while j < 8
        invariant
            j <= 8,
            start + 8 <= len,
            len == data@.len(),
            start + 8 <= old(data)@.len(),
            data@.len() == old(data)@.len(),
            forall|k: int| start <= k < start + j ==> data@[k] == le_byte(x, k - start),
            forall|k: int|
                0 <= k < old(data)@.len() && !(start <= k < start + j) ==> data@[k] == old(
                    data,
                )@[k],
        decreases 8 - j,
    {
        let sh: u64 = 8 * (j as u64);
        proof {
            assert(((x >> sh) & 0xff) < 256) by (bit_vector);
            assert(sh == (8 * (j as int)) as u64);
        }
        data[start + j] = ((x >> sh) & 0xff) as u8;
        j += 1;
    }
}

/// Runs the instruction: validates the first account and the requested
/// length, then writes the scratch-buffer checksum and the clock readings
/// into the account's data.  On any fault nothing is written.
pub fn process_instruction(
    program_id: &[u8; 32],
    accounts: &mut Vec<ProgramAccount>,
    instruction_data: &[u8],
    clock: &ClockInfo,
) -> (r: Result<(), ProgramFault>)
    ensures
        match r {
            Ok(_) => {
                &&& instruction_fault(program_id@, old(accounts)@, instruction_data@) is None
                &&& final(accounts)@.len() == old(accounts)@.len()
                &&& forall|k: int|
                    1 <= k < old(accounts)@.len() ==> final(accounts)@[k] == old(accounts)@[k]
                &&& final(accounts)@[0].owner == old(accounts)@[0].owner
                &&& final(accounts)@[0].is_writable == old(accounts)@[0].is_writable
                &&& final(accounts)@[0].data@ == written_data(
                    old(accounts)@[0].data@,
                    spec_checksum(spec_requested_len(instruction_data@)),
                    twos_u64(clock.unix_timestamp),
                    clock.slot,
                )
            },
            Err(f) => instruction_fault(program_id@, old(accounts)@, instruction_data@) == Some(f)
                && final(accounts)@ == old(accounts)@,
        },
{
    if accounts.len() == 0 {
        return Err(ProgramFault::NotEnoughAccountKeys);
    }
    if !keys_equal(&accounts[0].owner, program_id) {
        return Err(ProgramFault::IncorrectProgramId);
    }
    if !accounts[0].is_writable {
        return Err(ProgramFault::InvalidAccountData);
    }
    if accounts[0].data.len() < 17 {
        return Err(ProgramFault::AccountDataTooSmall);
    }
    let req = requested_len(instruction_data);
    if req < 8 {
        return Err(ProgramFault::InvalidInstructionData);
    }
    let checksum = checksum_of(req);
    let ts = twos_bits(clock.unix_timestamp);
    let slot = clock.slot;

    let first = accounts.remove(0);
    let owner = first.owner;
    let is_writable = first.is_writable;
    let mut data = first.data;
    let ghost old_data = data@;
    data[0] = checksum;
    write_le_u64(&mut data, 1, ts);
    write_le_u64(&mut data, 9, slot);
    proof {
        assert(data@ =~= written_data(old_data, checksum, ts, slot));
    }
    accounts.insert(0, ProgramAccount { owner, is_writable, data });
    proof {
        assert(forall|k: int|
            1 <= k < old(accounts)@.len() ==> accounts@[k] == old(accounts)@[k]);
    }
    Ok(())
}

} // verus!
