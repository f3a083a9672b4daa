use std::collections::hash_map::DefaultHasher;
use std::hash::Hasher;
use vstd::prelude::*;
use vstd::std_specs::hash::DefaultHasherAdditionalSpecFns;
use vstd::utf8::encode_utf8;

verus! {

/// Mask that keeps the low 31 bits of a 64-bit hash.
pub const ID_MASK: u64 = 0x7fff_ffff;

/// The bytes that `str`'s `Hash` impl feeds a hasher: the UTF-8 encoding
/// of the text, then a single `0xff` terminator.
pub open spec fn hashed_writes(addr: Seq<char>) -> Seq<Seq<u8>> {
    seq![encode_utf8(addr), seq![0xffu8]]
}

/// The stable identifier of an address: the default 64-bit hash of the
/// address text, with every bit above the low 31 cleared.
pub open spec fn stable_id_of(addr: Seq<char>) -> int {
    (DefaultHasher::spec_finish(hashed_writes(addr)) & ID_MASK) as int
}

/// Derives a non-negative 31-bit identifier from an address string.
///
/// The hasher is created with fixed keys, so the same text yields the same
/// identifier in every process.
pub fn generate_stable_id(addr: &str) -> (r: i32)
    ensures
        r as int == stable_id_of(addr@),
        0 <= r,
{
    let mut hasher = DefaultHasher::new();
    let bytes = addr.as_bytes();
    hasher.write(bytes);
    let terminator: [u8; 1] = [0xff];
    let tail = terminator.as_slice();
    assert(tail@ =~= seq![0xffu8]);
    hasher.write(tail);
    assert(hasher@ =~= hashed_writes(addr@));
    let h = hasher.finish();
    let masked = h & ID_MASK;
    assert(masked <= 0x7fff_ffff) by (bit_vector)
        requires
            masked == h & 0x7fff_ffffu64,
    ;
    masked as i32
}

/// The identifier depends on the address text alone: equal texts give
/// equal identifiers, and every identifier lies in `0 .. 2^31`.
pub proof fn lemma_stable_id_deterministic(a: Seq<char>, b: Seq<char>)
    requires
        a == b,
    ensures
        stable_id_of(a) == stable_id_of(b),
        0 <= stable_id_of(a) < 0x8000_0000,
{
    let h = DefaultHasher::spec_finish(hashed_writes(a));
    assert(h & 0x7fff_ffffu64 <= 0x7fff_ffffu64) by (bit_vector);
}

} // verus!
