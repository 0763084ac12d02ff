//! Checked reads of big-endian fixed-width integers and exact-length byte
//! runs out of a byte buffer. Every read states exactly when it succeeds:
//! it fails with `BufferUnderrun` if and only if fewer bytes remain than
//! the read requires.

use vstd::prelude::*;

verus! {

use crate::messages::DecodeError;

/// The natural number that a big-endian byte string denotes.
pub open spec fn be_val(s: Seq<u8>) -> nat
    decreases s.len(),
{
    if s.len() == 0 {
        0
    } else {
        be_val(s.drop_last()) * 256 + (s.last() as nat)
    }
}

/// `256^n`: the number of byte strings of length `n`, and the exclusive
/// upper bound of their big-endian values.
pub open spec fn pow256(n: nat) -> nat
    decreases n,
{
    if n == 0 {
        1
    } else {
        256 * pow256((n - 1) as nat)
    }
}

/// The two's-complement reading of an 8-byte big-endian string.
pub open spec fn be_i64(s: Seq<u8>) -> i64 {
    (be_val(s) as u64) as i64
}

/// The two's-complement reading of a 4-byte big-endian string.
pub open spec fn be_i32(s: Seq<u8>) -> i32 {
    (be_val(s) as u32) as i32
}

/// The two's-complement reading of a 2-byte big-endian string.
pub open spec fn be_i16(s: Seq<u8>) -> i16 {
    (be_val(s) as u16) as i16
}

proof fn lemma_pow256_values()
    ensures
        pow256(0) == 1,
        pow256(1) == 0x100,
        pow256(2) == 0x1_0000,
        pow256(4) == 0x1_0000_0000,
        pow256(7) == 0x100_0000_0000_0000,
        pow256(8) == 0x1_0000_0000_0000_0000,
{
    reveal_with_fuel(pow256, 9);
}

proof fn lemma_pow256_monotone(a: nat, b: nat)
    requires
        a <= b,
    ensures
        pow256(a) <= pow256(b),
    decreases b,
{
    if a < b {
        lemma_pow256_monotone(a, (b - 1) as nat);
    }
}

/// Reads the byte at `pos`, or fails when the buffer ends there.
pub(crate) fn read_u8(buf: &[u8], pos: usize) -> (r: Result<(u8, usize), DecodeError>)
    requires
        pos <= buf@.len(),
    ensures
        match r {
            Ok((v, end)) => pos < buf@.len() && v == buf@[pos as int] && end == pos + 1,
            Err(e) => pos == buf@.len() && e == DecodeError::BufferUnderrun,
        },
{
    if pos < buf.len() {
        Ok((buf[pos], pos + 1))
    } else {
        Err(DecodeError::BufferUnderrun)
    }
}

/// Reads the byte at `pos` as a signed value.
pub(crate) fn read_i8(buf: &[u8], pos: usize) -> (r: Result<(i8, usize), DecodeError>)
    requires
        pos <= buf@.len(),
    ensures
        match r {
            Ok((v, end)) => pos < buf@.len() && v == buf@[pos as int] as i8 && end == pos + 1,
            Err(e) => pos == buf@.len() && e == DecodeError::BufferUnderrun,
        },
{
    match read_u8(buf, pos) {
        Ok((v, end)) => Ok((v as i8, end)),
        Err(e) => Err(e),
    }
}

/// Reads `n <= 8` bytes at `pos` as a big-endian natural number, or fails
/// when fewer than `n` bytes remain.
pub(crate) fn read_be(buf: &[u8], pos: usize, n: usize) -> (r: Result<(u64, usize), DecodeError>)
    requires
        pos <= buf@.len(),
        n <= 8,
    ensures
        match r {
            Ok((v, end)) => {
                &&& pos + n <= buf@.len()
                &&& end == pos + n
                &&& v == be_val(buf@.subrange(pos as int, (pos + n) as int))
                &&& v < pow256(n as nat)
            },
            Err(e) => buf@.len() < pos + n && e == DecodeError::BufferUnderrun,
        },
{
    let len = buf.len();
    if len - pos < n {
        return Err(DecodeError::BufferUnderrun);
    }
    let mut acc: u64 = 0;
    let mut j: usize = 0;
    proof {
        assert(buf@.subrange(pos as int, pos as int) =~= Seq::<u8>::empty());
    }
    while j < n
        invariant
            pos + n <= buf@.len(),
            buf@.len() <= usize::MAX,
            n <= 8,
            j <= n,
            acc == be_val(buf@.subrange(pos as int, (pos + j) as int)),
            acc < pow256(j as nat),
        decreases n - j,
    {
        let b = buf[pos + j];
        proof {
            lemma_pow256_monotone(j as nat, 7);
            lemma_pow256_values();
            assert(buf@.subrange(pos as int, (pos + j + 1) as int).drop_last() =~= buf@.subrange(
                pos as int,
                (pos + j) as int,
            ));
            assert(pow256(((j + 1) as usize) as nat) == 256 * pow256(j as nat));
        }
        acc = acc * 256 + (b as u64);
        j = j + 1;
    }
    Ok((acc, pos + n))
}

/// Reads an 8-byte big-endian signed integer at `pos`.
pub(crate) fn read_i64(buf: &[u8], pos: usize) -> (r: Result<(i64, usize), DecodeError>)
    requires
        pos <= buf@.len(),
    ensures
        match r {
            Ok((v, end)) => {
                &&& pos + 8 <= buf@.len()
                &&& end == pos + 8
                &&& v == be_i64(buf@.subrange(pos as int, pos + 8))
            },
            Err(e) => buf@.len() < pos + 8 && e == DecodeError::BufferUnderrun,
        },
{
    match read_be(buf, pos, 8) {
        Ok((v, end)) => {
            proof {
                lemma_pow256_values();
                assert(be_val(buf@.subrange(pos as int, pos + 8)) as u64 == v);
            }
            Ok((v as i64, end))
        },
        Err(e) => Err(e),
    }
}

/// Reads a 4-byte big-endian signed integer at `pos`.
pub(crate) fn read_i32(buf: &[u8], pos: usize) -> (r: Result<(i32, usize), DecodeError>)
    requires
        pos <= buf@.len(),
    ensures
        match r {
            Ok((v, end)) => {
                &&& pos + 4 <= buf@.len()
                &&& end == pos + 4
                &&& v == be_i32(buf@.subrange(pos as int, pos + 4))
            },
            Err(e) => buf@.len() < pos + 4 && e == DecodeError::BufferUnderrun,
        },
{
    match read_be(buf, pos, 4) {
        Ok((v, end)) => {
            proof {
                lemma_pow256_values();
                assert(be_val(buf@.subrange(pos as int, pos + 4)) as u32 == v as u32);
            }
            Ok(((v as u32) as i32, end))
        },
        Err(e) => Err(e),
    }
}

/// Reads a 2-byte big-endian signed integer at `pos`.
pub(crate) fn read_i16(buf: &[u8], pos: usize) -> (r: Result<(i16, usize), DecodeError>)
    requires
        pos <= buf@.len(),
    ensures
        match r {
            Ok((v, end)) => {
                &&& pos + 2 <= buf@.len()
                &&& end == pos + 2
                &&& v == be_i16(buf@.subrange(pos as int, pos + 2))
            },
            Err(e) => buf@.len() < pos + 2 && e == DecodeError::BufferUnderrun,
        },
{
    match read_be(buf, pos, 2) {
        Ok((v, end)) => {
            proof {
                lemma_pow256_values();
                assert(be_val(buf@.subrange(pos as int, pos + 2)) as u16 == v as u16);
            }
            Ok(((v as u16) as i16, end))
        },
        Err(e) => Err(e),
    }
}

/// Copies exactly `n` bytes starting at `pos`, or fails when fewer remain.
pub(crate) fn read_bytes(buf: &[u8], pos: usize, n: usize) -> (r: Result<(Vec<u8>, usize), DecodeError>)
    requires
        pos <= buf@.len(),
    ensures
        match r {
            Ok((v, end)) => {
                &&& pos + n <= buf@.len()
                &&& end == pos + n
                &&& v@ == buf@.subrange(pos as int, (pos + n) as int)
            },
            Err(e) => buf@.len() < pos + n && e == DecodeError::BufferUnderrun,
        },
{
    let len = buf.len();
    if len - pos < n {
        return Err(DecodeError::BufferUnderrun);
    }
    let mut v: Vec<u8> = Vec::new();
    let mut j: usize = 0;
    while j < n
        invariant
            pos + n <= buf@.len(),
            buf@.len() <= usize::MAX,
            j <= n,
            v@ == buf@.subrange(pos as int, (pos + j) as int),
        decreases n - j,
    {
        v.push(buf[pos + j]);
        j = j + 1;
        proof {
            assert(v@ =~= buf@.subrange(pos as int, (pos + j) as int));
        }
    }
    Ok((v, pos + n))
}

} // verus!
