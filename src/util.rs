//! Fixed-length UTF-16 names, as a package header stores them.
use vstd::prelude::*;

verus! {

/// The UTF-16 code units of one character: the scalar value itself below
/// U+10000, else a high and a low surrogate.
pub open spec fn utf16_char_units(c: char) -> Seq<u16> {
    let v = c as u32 as int;
    if v < 0x10000 {
        seq![v as u16]
    } else {
        seq![(0xD800 + (v - 0x10000) / 0x400) as u16, (0xDC00 + (v - 0x10000) % 0x400) as u16]
    }
}

/// The UTF-16 code units that encode the characters `s`, in order.
pub open spec fn utf16_units(s: Seq<char>) -> Seq<u16>
    decreases s.len(),
{
    if s.len() == 0 {
        Seq::empty()
    } else {
        utf16_units(s.drop_last()) + utf16_char_units(s.last())
    }
}

/// The encoding of two strings put together is the encoding of the first
/// followed by that of the second; so a string's encoding extends the
/// encoding of each of its prefixes.
pub proof fn lemma_utf16_units_concat(a: Seq<char>, b: Seq<char>)
    ensures
        utf16_units(a + b) == utf16_units(a) + utf16_units(b),
    decreases b.len(),
{
    if b.len() == 0 {
        assert(a + b =~= a);
        assert(utf16_units(b) =~= Seq::<u16>::empty());
        assert(utf16_units(a) + utf16_units(b) =~= utf16_units(a));
    } else {
        lemma_utf16_units_concat(a, b.drop_last());
        assert((a + b).drop_last() =~= a + b.drop_last());
        assert((a + b).last() == b.last());
        assert(utf16_units(a + b) =~= utf16_units(a) + utf16_units(b));
    }
}

/// Relies on `str::encode_utf16`: the UTF-16 encoding of the string's characters.
#[verifier::external_body]
fn encode_utf16(s: &str) -> (r: Vec<u16>)
    ensures
        r@ == utf16_units(s@),
{
    s.encode_utf16().collect()
}

/// `units` followed by zeros up to length `n`.
pub open spec fn zero_padded(units: Seq<u16>, n: nat) -> Seq<u16> {
    units + Seq::new((n - units.len()) as nat, |i: int| 0u16)
}

/// Copies `units` into an array of `N` units and fills the rest with zeros.
pub fn utf16_pad<const N: usize>(units: &[u16]) -> (r: [u16; N])
    requires
        units@.len() <= N,
    ensures
        r@ == zero_padded(units@, N as nat),
{
    let mut r = [0u16; N];
    let mut k: usize = 0;
    while k < units.len()
        invariant
            units@.len() <= N,
            k <= units@.len(),
            r@.len() == N,
            forall|j: int| 0 <= j < k ==> r@[j] == units@[j],
            forall|j: int| units@.len() <= j < N ==> r@[j] == 0u16,
        decreases units@.len() - k,
    {
        r[k] = units[k];
        k = k + 1;
    }
    assert(r@ =~= zero_padded(units@, N as nat));
    r
}

/// The UTF-16 encoding of `string`, padded with zeros to `N` units.
pub fn utf16_lit<const N: usize>(string: &str) -> (r: [u16; N])
    requires
        utf16_units(string@).len() <= N,
    ensures
        r@ == zero_padded(utf16_units(string@), N as nat),
{
    let units = encode_utf16(string);
    utf16_pad(units.as_slice())
}

/// The UTF-16 encoding of `string`, padded with zeros to `N` units, or `None`
/// where the encoding is longer than `N` units.
pub fn try_utf16_lit<const N: usize>(string: &str) -> (r: Option<[u16; N]>)
    ensures
        match r {
            Some(a) => utf16_units(string@).len() <= N && a@ == zero_padded(utf16_units(string@), N as nat),
            None => utf16_units(string@).len() > N,
        },
{
    let units = encode_utf16(string);
    if units.len() > N {
        return None;
    }
    Some(utf16_pad(units.as_slice()))
}

} // verus!
