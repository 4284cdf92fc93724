//! The handshake nonce: random bytes from the OS, spelled in lowercase hex.

use vstd::prelude::*;

use crate::text::string_from_chars;

verus! {

/// The lowercase hex digit for `d < 16`.
pub open spec fn hex_digit(d: nat) -> char {
    if d < 10 {
        crate::text::digit_char(d)
    } else if d == 10 {
        'a'
    } else if d == 11 {
        'b'
    } else if d == 12 {
        'c'
    } else if d == 13 {
        'd'
    } else if d == 14 {
        'e'
    } else {
        'f'
    }
}

/// The characters of lowercase hex numerals.
pub open spec fn is_hex_char(c: char) -> bool {
    ('0' <= c <= '9') || ('a' <= c <= 'f')
}

/// Each byte as two lowercase hex digits (`{:02x}`), high nibble first.
pub open spec fn hex_of(bytes: Seq<u8>) -> Seq<char>
    decreases bytes.len(),
{
    if bytes.len() == 0 {
        Seq::empty()
    } else {
        hex_of(bytes.drop_last()) + seq![
            hex_digit((bytes.last() / 16) as nat),
            hex_digit((bytes.last() % 16) as nat),
        ]
    }
}

pub proof fn lemma_hex_shape(bytes: Seq<u8>)
    ensures
        hex_of(bytes).len() == 2 * bytes.len(),
        forall|i: int| 0 <= i < hex_of(bytes).len() ==> is_hex_char(#[trigger] hex_of(bytes)[i]),
    decreases bytes.len(),
{
    if bytes.len() > 0 {
        lemma_hex_shape(bytes.drop_last());
        let h = hex_of(bytes);
        let p = hex_of(bytes.drop_last());
        assert forall|i: int| 0 <= i < h.len() implies is_hex_char(#[trigger] h[i]) by {
            if i < p.len() {
                assert(h[i] == p[i]);
            }
        }
    }
}

fn hex_char(d: u8) -> (c: char)
    requires
        d < 16,
    ensures
        c == hex_digit(d as nat),
{
    if d == 0 {
        '0'
    } else if d == 1 {
        '1'
    } else if d == 2 {
        '2'
    } else if d == 3 {
        '3'
    } else if d == 4 {
        '4'
    } else if d == 5 {
        '5'
    } else if d == 6 {
        '6'
    } else if d == 7 {
        '7'
    } else if d == 8 {
        '8'
    } else if d == 9 {
        '9'
    } else if d == 10 {
        'a'
    } else if d == 11 {
        'b'
    } else if d == 12 {
        'c'
    } else if d == 13 {
        'd'
    } else if d == 14 {
        'e'
    } else {
        'f'
    }
}

/// `bytes` in lowercase hex, two digits per byte.
pub fn hex_string(bytes: &[u8]) -> (r: String)
    ensures
        r@ == hex_of(bytes@),
{
    let mut chars: Vec<char> = Vec::new();
    let n = bytes.len();
    for i in 0..n
        invariant
            n == bytes@.len(),
            chars@ == hex_of(bytes@.subrange(0, i as int)),
    {
        let b = bytes[i];
        assert(bytes@.subrange(0, i + 1).drop_last() =~= bytes@.subrange(0, i as int));
        chars.push(hex_char(b / 16));
        chars.push(hex_char(b % 16));
        assert(chars@ =~= hex_of(bytes@.subrange(0, i + 1)));
    }
    assert(bytes@.subrange(0, n as int) =~= bytes@);
    string_from_chars(chars.as_slice())
}

/// Byte `i` of the stand-in for OS randomness: byte `i % 16` of `seed`
/// (least significant first), xored with the low byte of `i`.
pub open spec fn seeded_byte(seed: u128, i: int) -> u8 {
    ((seed >> (((i % 16) * 8) as u128)) as u8) ^ (i as u8)
}

/// `n` bytes derived from `seed`, used when the OS has no randomness to give,
/// so that the nonce still differs from call to call.
pub fn seeded_bytes(seed: u128, n: usize) -> (r: Vec<u8>)
    ensures
        r@.len() == n,
        forall|i: int| 0 <= i < n ==> #[trigger] r@[i] == seeded_byte(seed, i),
{
    let mut r: Vec<u8> = Vec::new();
    for i in 0..n
        invariant
            r@.len() == i,
            forall|k: int| 0 <= k < i ==> #[trigger] r@[k] == seeded_byte(seed, k),
    {
        let shift = ((i % 16) * 8) as u128;
        r.push(((seed >> shift) as u8) ^ (i as u8));
    }
    r
}

/// Fills `buf` from the operating system's random source with
/// `getrandom::fill`; false when that failed. Trusted: the length of `buf` is
/// kept and an empty `buf` always succeeds (as getrandom documents); nothing is
/// said of the bytes, which are random, nor of their contents after a failure.
#[verifier::external_body]
fn os_random_fill(buf: &mut Vec<u8>) -> (ok: bool)
    ensures
        final(buf)@.len() == old(buf)@.len(),
        old(buf)@.len() == 0 ==> ok,
{
    getrandom::fill(buf.as_mut_slice()).is_ok()
}

/// The nonce for the outcome of the random fill: the hex of `random` when the
/// fill worked, else the hex of `random.len()` bytes derived from `fallback_seed`.
pub fn nonce_hex(filled: bool, random: &[u8], fallback_seed: u128) -> (r: String)
    ensures
        filled ==> r@ == hex_of(random@),
        !filled ==> r@ == hex_of(Seq::new(random@.len(), |i: int| seeded_byte(fallback_seed, i))),
{
    if filled {
        hex_string(random)
    } else {
        let b = seeded_bytes(fallback_seed, random.len());
        assert(b@ =~= Seq::new(random@.len(), |i: int| seeded_byte(fallback_seed, i)));
        hex_string(b.as_slice())
    }
}

/// Short random hex string from the OS RNG, `2 * bytes` lowercase hex digits.
/// The handshake nonce just has to be unique: when the OS RNG is unavailable
/// the bytes are derived from `fallback_seed` (the time and process id).
pub fn random_hex(bytes: usize, fallback_seed: u128) -> (r: String)
    ensures
        r@.len() == 2 * bytes,
        forall|i: int| 0 <= i < r@.len() ==> is_hex_char(#[trigger] r@[i]),
        exists|b: Seq<u8>| b.len() == bytes && r@ == hex_of(b),
{
    let mut buf = vec![0u8; bytes];
    let filled = os_random_fill(&mut buf);
    let r = nonce_hex(filled, buf.as_slice(), fallback_seed);
    let ghost b = if filled {
        buf@
    } else {
        Seq::new(buf@.len(), |i: int| seeded_byte(fallback_seed, i))
    };
    proof {
        lemma_hex_shape(b);
    }
    assert(b.len() == bytes && r@ == hex_of(b));
    r
}

} // verus!
