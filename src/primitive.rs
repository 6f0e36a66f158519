//! Little-endian scalars, booleans and fixed-length arrays.
use vstd::prelude::*;

use crate::error::DecodeError;

verus! {

/// The unsigned 16-bit little-endian value of the two bytes at `i`.
pub open spec fn le_u16(s: Seq<u8>, i: int) -> u16 {
    (s[i] + 256 * s[i + 1]) as u16
}

/// The unsigned 32-bit little-endian value of the four bytes at `i`.
pub open spec fn le_u32(s: Seq<u8>, i: int) -> u32 {
    (s[i] + 0x100 * s[i + 1] + 0x1_0000 * s[i + 2] + 0x100_0000 * s[i + 3]) as u32
}

/// `n` bytes are available at `pos` in `s`.
pub open spec fn fits(s: Seq<u8>, pos: int, n: int) -> bool {
    0 <= pos && pos + n <= s.len()
}

pub(crate) fn u16_at(buf: &[u8], pos: usize) -> (r: u16)
    requires
        pos + 2 <= buf@.len(),
    ensures
        r == le_u16(buf@, pos as int),
{
    buf[pos] as u16 + 256 * (buf[pos + 1] as u16)
}

pub(crate) fn u32_at(buf: &[u8], pos: usize) -> (r: u32)
    requires
        pos + 4 <= buf@.len(),
    ensures
        r == le_u32(buf@, pos as int),
{
    buf[pos] as u32 + 0x100 * (buf[pos + 1] as u32) + 0x1_0000 * (buf[pos + 2] as u32)
        + 0x100_0000 * (buf[pos + 3] as u32)
}

/// The `N` bytes at `pos`, in order.
pub(crate) fn bytes_at<const N: usize>(buf: &[u8], pos: usize) -> (r: [u8; N])
    requires
        pos + N <= buf@.len(),
    ensures
        r@ == buf@.subrange(pos as int, pos + N),
{
    let mut r = [0u8; N];
    let mut k: usize = 0;
    while k < N
        invariant
            k <= N,
            pos + N <= buf.len(),
            r@.len() == N,
            forall|j: int| 0 <= j < k ==> r@[j] == buf@[pos + j],
        decreases N - k,
    {
        r[k] = buf[pos + k];
        k = k + 1;
    }
    assert(r@ =~= buf@.subrange(pos as int, pos + N));
    r
}

/// The `N` little-endian 16-bit units at `pos`, in order.
pub(crate) fn units_at<const N: usize>(buf: &[u8], pos: usize) -> (r: [u16; N])
    requires
        pos + 2 * N <= buf@.len(),
    ensures
        forall|j: int| 0 <= j < N ==> r@[j] == le_u16(buf@, pos + 2 * j),
{
    let mut r = [0u16; N];
    let mut k: usize = 0;
    while k < N
        invariant
            k <= N,
            pos + 2 * N <= buf.len(),
            r@.len() == N,
            forall|j: int| 0 <= j < k ==> r@[j] == le_u16(buf@, pos + 2 * j),
        decreases N - k,
    {
        r[k] = u16_at(buf, pos + 2 * k);
        k = k + 1;
    }
    r
}

/// The number of padding bytes that bring `consumed` bytes to a multiple of `align`.
pub fn align_skip(consumed: usize, align: usize) -> (r: usize)
    requires
        align > 0,
    ensures
        r < align,
        (consumed + r) % (align as int) == 0,
{
    let q = consumed % align;
    let r = (align - q) % align;
    proof {
        let c = consumed as int;
        let a = align as int;
        vstd::arithmetic::div_mod::lemma_fundamental_div_mod(c, a);
        if q == 0 {
            vstd::arithmetic::div_mod::lemma_mod_self_0(a);
            assert(r == 0);
        } else {
            vstd::arithmetic::div_mod::lemma_small_mod((a - q) as nat, a as nat);
            assert(c + r == a * (c / a + 1)) by (nonlinear_arith)
                requires
                    c == a * (c / a) + q,
                    r == a - q,
            ;
            vstd::arithmetic::div_mod::lemma_mod_multiples_basic(c / a + 1, a);
        }
    }
    r
}

/// Reads one byte.
pub fn read_u8(buf: &[u8], pos: usize) -> (r: Result<(u8, usize), DecodeError>)
    ensures
        fits(buf@, pos as int, 1) ==> r == Ok::<(u8, usize), DecodeError>((buf@[pos as int], (pos + 1) as usize)),
        !fits(buf@, pos as int, 1) ==> r == Err::<(u8, usize), DecodeError>(DecodeError::Truncated),
{
    if pos >= buf.len() {
        return Err(DecodeError::Truncated);
    }
    Ok((buf[pos], pos + 1))
}

/// Reads a little-endian `u16`.
pub fn read_u16(buf: &[u8], pos: usize) -> (r: Result<(u16, usize), DecodeError>)
    ensures
        fits(buf@, pos as int, 2) ==> r == Ok::<(u16, usize), DecodeError>((le_u16(buf@, pos as int), (pos + 2) as usize)),
        !fits(buf@, pos as int, 2) ==> r == Err::<(u16, usize), DecodeError>(DecodeError::Truncated),
{
    if buf.len() < 2 || pos > buf.len() - 2 {
        return Err(DecodeError::Truncated);
    }
    Ok((u16_at(buf, pos), pos + 2))
}

/// Reads a little-endian `u32`.
pub fn read_u32(buf: &[u8], pos: usize) -> (r: Result<(u32, usize), DecodeError>)
    ensures
        fits(buf@, pos as int, 4) ==> r == Ok::<(u32, usize), DecodeError>((le_u32(buf@, pos as int), (pos + 4) as usize)),
        !fits(buf@, pos as int, 4) ==> r == Err::<(u32, usize), DecodeError>(DecodeError::Truncated),
{
    if buf.len() < 4 || pos > buf.len() - 4 {
        return Err(DecodeError::Truncated);
    }
    Ok((u32_at(buf, pos), pos + 4))
}

/// Reads a boolean stored in one byte: zero is `false`, anything else `true`.
pub fn u8_bool(buf: &[u8], pos: usize) -> (r: Result<(bool, usize), DecodeError>)
    ensures
        fits(buf@, pos as int, 1) ==> r == Ok::<(bool, usize), DecodeError>((buf@[pos as int] != 0, (pos + 1) as usize)),
        !fits(buf@, pos as int, 1) ==> r == Err::<(bool, usize), DecodeError>(DecodeError::Truncated),
{
    let (b, next) = read_u8(buf, pos)?;
    Ok((b != 0, next))
}

/// Reads `N` bytes as they stand, zeros included.
pub fn read_bytes<const N: usize>(buf: &[u8], pos: usize) -> (r: Result<([u8; N], usize), DecodeError>)
    ensures
        fits(buf@, pos as int, N as int) ==> (r matches Ok((a, next)) && a@ == buf@.subrange(pos as int, pos + N)
            && next == pos + N),
        !fits(buf@, pos as int, N as int) ==> r == Err::<([u8; N], usize), DecodeError>(DecodeError::Truncated),
{
    if pos > buf.len() || N > buf.len() - pos {
        return Err(DecodeError::Truncated);
    }
    Ok((bytes_at(buf, pos), pos + N))
}

/// Reads `N` little-endian 16-bit code units as they stand, zeros included.
pub fn read_units<const N: usize>(buf: &[u8], pos: usize) -> (r: Result<([u16; N], usize), DecodeError>)
    ensures
        fits(buf@, pos as int, 2 * N) ==> (r matches Ok((a, next)) && next == pos + 2 * N
            && forall|j: int| 0 <= j < N ==> a@[j] == le_u16(buf@, pos + 2 * j)),
        !fits(buf@, pos as int, 2 * N) ==> r == Err::<([u16; N], usize), DecodeError>(DecodeError::Truncated),
{
    if pos > buf.len() || N > (buf.len() - pos) / 2 {
        return Err(DecodeError::Truncated);
    }
    Ok((units_at(buf, pos), pos + 2 * N))
}

} // verus!
