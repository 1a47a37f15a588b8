//! The laws the decoder obeys: both layouts round-trip, and decoding is
//! deterministic.

use crate::codec::decode_post;
use crate::codec::header_matches_32;
use crate::codec::header_matches_64;
use crate::header::DecodeError;
use crate::header::ElfHeader;
use crate::header::magic_ok;
use vstd::bytes::lemma_auto_spec_u16_to_from_le_bytes;
use vstd::bytes::lemma_auto_spec_u32_to_from_le_bytes;
use vstd::bytes::lemma_auto_spec_u64_to_from_le_bytes;
use vstd::bytes::spec_u16_from_le_bytes;
use vstd::bytes::spec_u16_to_le_bytes;
use vstd::bytes::spec_u32_from_le_bytes;
use vstd::bytes::spec_u32_to_le_bytes;
use vstd::bytes::spec_u64_from_le_bytes;
use vstd::bytes::spec_u64_to_le_bytes;
use vstd::prelude::*;

verus! {

broadcast use vstd::array::group_array_axioms;

/// The 64 bytes that the 64-bit layout assigns to the fields of `h`: `ident`
/// verbatim, every other field re-encoded little-endian at its fixed offset.
pub open spec fn encode64(h: ElfHeader) -> Seq<u8> {
    h.e_ident@ + spec_u16_to_le_bytes(h.e_type) + spec_u16_to_le_bytes(h.e_machine)
        + spec_u32_to_le_bytes(h.e_version) + spec_u64_to_le_bytes(h.e_entry)
        + spec_u64_to_le_bytes(h.e_phoff) + spec_u64_to_le_bytes(h.e_shoff)
        + spec_u32_to_le_bytes(h.e_flags) + spec_u16_to_le_bytes(h.e_ehsize)
        + spec_u16_to_le_bytes(h.e_phentsize) + spec_u16_to_le_bytes(h.e_phnum)
        + spec_u16_to_le_bytes(h.e_shentsize) + spec_u16_to_le_bytes(h.e_shnum)
        + spec_u16_to_le_bytes(h.e_shstrndx)
}

/// The 52 bytes that the 32-bit layout assigns to the fields of `h`. The
/// normalized 64-bit address and offset fields are narrowed back to 32 bits;
/// the narrowing is lossless exactly when their values fit in 32 bits.
pub open spec fn encode32(h: ElfHeader) -> Seq<u8> {
    h.e_ident@ + spec_u16_to_le_bytes(h.e_type) + spec_u16_to_le_bytes(h.e_machine)
        + spec_u32_to_le_bytes(h.e_version) + spec_u32_to_le_bytes(h.e_entry as u32)
        + spec_u32_to_le_bytes(h.e_phoff as u32) + spec_u32_to_le_bytes(h.e_shoff as u32)
        + spec_u32_to_le_bytes(h.e_flags) + spec_u16_to_le_bytes(h.e_ehsize)
        + spec_u16_to_le_bytes(h.e_phentsize) + spec_u16_to_le_bytes(h.e_phnum)
        + spec_u16_to_le_bytes(h.e_shentsize) + spec_u16_to_le_bytes(h.e_shnum)
        + spec_u16_to_le_bytes(h.e_shstrndx)
}

/// For every well-formed 64-bit ELF header, re-encoding each decoded field
/// back into its 64-bit layout byte positions reproduces the input exactly.
pub proof fn lemma_round_trip_64(h: ElfHeader, b: Seq<u8>)
    requires
        b.len() == 64,
        magic_ok(b),
        b[4] == 2,
        header_matches_64(h, b),
    ensures
        encode64(h) == b,
{
    lemma_auto_spec_u16_to_from_le_bytes();
    lemma_auto_spec_u32_to_from_le_bytes();
    lemma_auto_spec_u64_to_from_le_bytes();
    assert(spec_u16_to_le_bytes(spec_u16_from_le_bytes(b.subrange(16, 18))) == b.subrange(16, 18));
    assert(spec_u16_to_le_bytes(spec_u16_from_le_bytes(b.subrange(18, 20))) == b.subrange(18, 20));
    assert(spec_u32_to_le_bytes(spec_u32_from_le_bytes(b.subrange(20, 24))) == b.subrange(20, 24));
    assert(spec_u64_to_le_bytes(spec_u64_from_le_bytes(b.subrange(24, 32))) == b.subrange(24, 32));
    assert(spec_u64_to_le_bytes(spec_u64_from_le_bytes(b.subrange(32, 40))) == b.subrange(32, 40));
    assert(spec_u64_to_le_bytes(spec_u64_from_le_bytes(b.subrange(40, 48))) == b.subrange(40, 48));
    assert(spec_u32_to_le_bytes(spec_u32_from_le_bytes(b.subrange(48, 52))) == b.subrange(48, 52));
    assert(spec_u16_to_le_bytes(spec_u16_from_le_bytes(b.subrange(52, 54))) == b.subrange(52, 54));
    assert(spec_u16_to_le_bytes(spec_u16_from_le_bytes(b.subrange(54, 56))) == b.subrange(54, 56));
    assert(spec_u16_to_le_bytes(spec_u16_from_le_bytes(b.subrange(56, 58))) == b.subrange(56, 58));
    assert(spec_u16_to_le_bytes(spec_u16_from_le_bytes(b.subrange(58, 60))) == b.subrange(58, 60));
    assert(spec_u16_to_le_bytes(spec_u16_from_le_bytes(b.subrange(60, 62))) == b.subrange(60, 62));
    assert(spec_u16_to_le_bytes(spec_u16_from_le_bytes(b.subrange(62, 64))) == b.subrange(62, 64));
    assert(encode64(h) =~= b);
}

/// For every well-formed 32-bit ELF header, the normalized `entry`, `phoff`
/// and `shoff` values fit in 32 bits, and re-encoding each decoded field back
/// into its 32-bit layout byte positions reproduces the first 52 input bytes
/// (the span that layout assigns) exactly.
pub proof fn lemma_round_trip_32(h: ElfHeader, b: Seq<u8>)
    requires
        b.len() == 64,
        magic_ok(b),
        b[4] == 1,
        header_matches_32(h, b),
    ensures
        h.e_entry <= 0xffff_ffff,
        h.e_phoff <= 0xffff_ffff,
        h.e_shoff <= 0xffff_ffff,
        encode32(h) == b.subrange(0, 52),
{
    lemma_auto_spec_u16_to_from_le_bytes();
    lemma_auto_spec_u32_to_from_le_bytes();
    assert(spec_u16_to_le_bytes(spec_u16_from_le_bytes(b.subrange(16, 18))) == b.subrange(16, 18));
    assert(spec_u16_to_le_bytes(spec_u16_from_le_bytes(b.subrange(18, 20))) == b.subrange(18, 20));
    assert(spec_u32_to_le_bytes(spec_u32_from_le_bytes(b.subrange(20, 24))) == b.subrange(20, 24));
    assert(spec_u32_to_le_bytes(spec_u32_from_le_bytes(b.subrange(24, 28))) == b.subrange(24, 28));
    assert(spec_u32_to_le_bytes(spec_u32_from_le_bytes(b.subrange(28, 32))) == b.subrange(28, 32));
    assert(spec_u32_to_le_bytes(spec_u32_from_le_bytes(b.subrange(32, 36))) == b.subrange(32, 36));
    assert(spec_u32_to_le_bytes(spec_u32_from_le_bytes(b.subrange(36, 40))) == b.subrange(36, 40));
    assert(spec_u16_to_le_bytes(spec_u16_from_le_bytes(b.subrange(40, 42))) == b.subrange(40, 42));
    assert(spec_u16_to_le_bytes(spec_u16_from_le_bytes(b.subrange(42, 44))) == b.subrange(42, 44));
    assert(spec_u16_to_le_bytes(spec_u16_from_le_bytes(b.subrange(44, 46))) == b.subrange(44, 46));
    assert(spec_u16_to_le_bytes(spec_u16_from_le_bytes(b.subrange(46, 48))) == b.subrange(46, 48));
    assert(spec_u16_to_le_bytes(spec_u16_from_le_bytes(b.subrange(48, 50))) == b.subrange(48, 50));
    assert(spec_u16_to_le_bytes(spec_u16_from_le_bytes(b.subrange(50, 52))) == b.subrange(50, 52));
    assert(h.e_entry as u32 == spec_u32_from_le_bytes(b.subrange(24, 28)));
    assert(h.e_phoff as u32 == spec_u32_from_le_bytes(b.subrange(28, 32)));
    assert(h.e_shoff as u32 == spec_u32_from_le_bytes(b.subrange(32, 36)));
    assert(encode32(h) =~= b.subrange(0, 52));
}

/// Two headers that both match the same layout of the same bytes are equal:
/// the field equations of the layout leave no freedom.
proof fn lemma_header_pinned(h1: ElfHeader, h2: ElfHeader, b: Seq<u8>)
    requires
        b.len() >= 64,
        (header_matches_64(h1, b) && header_matches_64(h2, b)) || (header_matches_32(h1, b)
            && header_matches_32(h2, b)),
    ensures
        h1 == h2,
{
    assert(h1.e_ident =~= h2.e_ident);
}

/// Decoding is deterministic: the decoder's contract pins one result for each
/// input, so identical input bytes always yield an identical header or an
/// identical error classification.
pub proof fn lemma_decode_deterministic(r1: Result<ElfHeader, DecodeError>, r2: Result<
    ElfHeader,
    DecodeError,
>, b: Seq<u8>)
    requires
        decode_post(r1, b),
        decode_post(r2, b),
    ensures
        r1 == r2,
{
    if b.len() >= 64 && magic_ok(b) && (b[4] == 1 || b[4] == 2) {
        lemma_header_pinned(r1->Ok_0, r2->Ok_0, b);
    }
}

} // verus!
