//! The decoder itself: magic and class validation, and the two fixed-layout
//! field decoders.

use crate::header::DecodeError;
use crate::header::ElfHeader;
use crate::header::magic_ok;
use vstd::bytes::spec_u16_from_le_bytes;
use vstd::bytes::spec_u32_from_le_bytes;
use vstd::bytes::spec_u64_from_le_bytes;
use vstd::bytes::u16_from_le_bytes;
use vstd::bytes::u32_from_le_bytes;
use vstd::bytes::u64_from_le_bytes;
use vstd::prelude::*;
use vstd::slice::slice_subrange;

verus! {

broadcast use vstd::array::group_array_axioms;

/// `h` holds exactly the fields that the 64-bit layout assigns from the first
/// 64 bytes of `b`: `ident` verbatim, every other field a little-endian
/// unsigned integer at its fixed offset.
pub open spec fn header_matches_64(h: ElfHeader, b: Seq<u8>) -> bool {
    &&& h.e_ident@ == b.subrange(0, 16)
    &&& h.e_type == spec_u16_from_le_bytes(b.subrange(16, 18))
    &&& h.e_machine == spec_u16_from_le_bytes(b.subrange(18, 20))
    &&& h.e_version == spec_u32_from_le_bytes(b.subrange(20, 24))
    &&& h.e_entry == spec_u64_from_le_bytes(b.subrange(24, 32))
    &&& h.e_phoff == spec_u64_from_le_bytes(b.subrange(32, 40))
    &&& h.e_shoff == spec_u64_from_le_bytes(b.subrange(40, 48))
    &&& h.e_flags == spec_u32_from_le_bytes(b.subrange(48, 52))
    &&& h.e_ehsize == spec_u16_from_le_bytes(b.subrange(52, 54))
    &&& h.e_phentsize == spec_u16_from_le_bytes(b.subrange(54, 56))
    &&& h.e_phnum == spec_u16_from_le_bytes(b.subrange(56, 58))
    &&& h.e_shentsize == spec_u16_from_le_bytes(b.subrange(58, 60))
    &&& h.e_shnum == spec_u16_from_le_bytes(b.subrange(60, 62))
    &&& h.e_shstrndx == spec_u16_from_le_bytes(b.subrange(62, 64))
}

/// `h` holds exactly the fields that the 32-bit layout assigns from the first
/// 52 bytes of `b`; the 32-bit address and offset fields are zero-extended
/// into the normalized 64-bit representation.
pub open spec fn header_matches_32(h: ElfHeader, b: Seq<u8>) -> bool {
    &&& h.e_ident@ == b.subrange(0, 16)
    &&& h.e_type == spec_u16_from_le_bytes(b.subrange(16, 18))
    &&& h.e_machine == spec_u16_from_le_bytes(b.subrange(18, 20))
    &&& h.e_version == spec_u32_from_le_bytes(b.subrange(20, 24))
    &&& h.e_entry == spec_u32_from_le_bytes(b.subrange(24, 28)) as u64
    &&& h.e_phoff == spec_u32_from_le_bytes(b.subrange(28, 32)) as u64
    &&& h.e_shoff == spec_u32_from_le_bytes(b.subrange(32, 36)) as u64
    &&& h.e_flags == spec_u32_from_le_bytes(b.subrange(36, 40))
    &&& h.e_ehsize == spec_u16_from_le_bytes(b.subrange(40, 42))
    &&& h.e_phentsize == spec_u16_from_le_bytes(b.subrange(42, 44))
    &&& h.e_phnum == spec_u16_from_le_bytes(b.subrange(44, 46))
    &&& h.e_shentsize == spec_u16_from_le_bytes(b.subrange(46, 48))
    &&& h.e_shnum == spec_u16_from_le_bytes(b.subrange(48, 50))
    &&& h.e_shstrndx == spec_u16_from_le_bytes(b.subrange(50, 52))
}

/// What `decode` returns for a buffer with contents `b`: a short buffer is a
/// read failure; then a wrong magic sequence or an unknown class byte is not
/// an ELF file; otherwise the class byte selects the layout and the decoded
/// header matches it exactly.
pub open spec fn decode_post(r: Result<ElfHeader, DecodeError>, b: Seq<u8>) -> bool {
    if b.len() < 64 {
        r == Err::<ElfHeader, DecodeError>(DecodeError::ReadFailure)
    } else if !magic_ok(b) {
        r == Err::<ElfHeader, DecodeError>(DecodeError::NotAnElfFile)
    } else if b[4] == 1 {
        r is Ok && header_matches_32(r->Ok_0, b)
    } else if b[4] == 2 {
        r is Ok && header_matches_64(r->Ok_0, b)
    } else {
        r == Err::<ElfHeader, DecodeError>(DecodeError::NotAnElfFile)
    }
}

/// Copy bytes 0..16 of the buffer verbatim into the identification block.
fn read_ident(buf: &[u8]) -> (ident: [u8; 16])
    requires
        buf@.len() >= 16,
    ensures
        ident@ == buf@.subrange(0, 16),
{
    let mut ident: [u8; 16] = [0u8; 16];
    let mut i: usize = 0;
    while i < 16
        invariant
            buf@.len() >= 16,
            i <= 16,
            forall|j: int| 0 <= j < i ==> ident@[j] == buf@[j],
        decreases 16 - i,
    {
        ident[i] = buf[i];
        i += 1;
    }
    proof {
        assert(ident@ =~= buf@.subrange(0, 16));
    }
    ident
}

/// Decode the 64-bit field layout. The caller has already established that
/// the buffer holds a full header; no validation happens here.
pub fn parse64(buf: &[u8]) -> (h: ElfHeader)
    requires
        buf@.len() >= 64,
    ensures
        header_matches_64(h, buf@),
{
    ElfHeader {
        e_ident: read_ident(buf),
        e_type: u16_from_le_bytes(slice_subrange(buf, 16, 18)),
        e_machine: u16_from_le_bytes(slice_subrange(buf, 18, 20)),
        e_version: u32_from_le_bytes(slice_subrange(buf, 20, 24)),
        e_entry: u64_from_le_bytes(slice_subrange(buf, 24, 32)),
        e_phoff: u64_from_le_bytes(slice_subrange(buf, 32, 40)),
        e_shoff: u64_from_le_bytes(slice_subrange(buf, 40, 48)),
        e_flags: u32_from_le_bytes(slice_subrange(buf, 48, 52)),
        e_ehsize: u16_from_le_bytes(slice_subrange(buf, 52, 54)),
        e_phentsize: u16_from_le_bytes(slice_subrange(buf, 54, 56)),
        e_phnum: u16_from_le_bytes(slice_subrange(buf, 56, 58)),
        e_shentsize: u16_from_le_bytes(slice_subrange(buf, 58, 60)),
        e_shnum: u16_from_le_bytes(slice_subrange(buf, 60, 62)),
        e_shstrndx: u16_from_le_bytes(slice_subrange(buf, 62, 64)),
    }
}

/// Decode the 32-bit field layout, zero-extending the 32-bit address and
/// offset fields to the normalized 64-bit widths.
pub fn parse32(buf: &[u8]) -> (h: ElfHeader)
    requires
        buf@.len() >= 64,
    ensures
        header_matches_32(h, buf@),
{
    ElfHeader {
        e_ident: read_ident(buf),
        e_type: u16_from_le_bytes(slice_subrange(buf, 16, 18)),
        e_machine: u16_from_le_bytes(slice_subrange(buf, 18, 20)),
        e_version: u32_from_le_bytes(slice_subrange(buf, 20, 24)),
        e_entry: u32_from_le_bytes(slice_subrange(buf, 24, 28)) as u64,
        e_phoff: u32_from_le_bytes(slice_subrange(buf, 28, 32)) as u64,
        e_shoff: u32_from_le_bytes(slice_subrange(buf, 32, 36)) as u64,
        e_flags: u32_from_le_bytes(slice_subrange(buf, 36, 40)),
        e_ehsize: u16_from_le_bytes(slice_subrange(buf, 40, 42)),
        e_phentsize: u16_from_le_bytes(slice_subrange(buf, 42, 44)),
        e_phnum: u16_from_le_bytes(slice_subrange(buf, 44, 46)),
        e_shentsize: u16_from_le_bytes(slice_subrange(buf, 46, 48)),
        e_shnum: u16_from_le_bytes(slice_subrange(buf, 48, 50)),
        e_shstrndx: u16_from_le_bytes(slice_subrange(buf, 50, 52)),
    }
}

/// Decode an ELF header from the bytes read at the start of a candidate file.
///
/// The caller is expected to supply 64 bytes; a shorter buffer is the read
/// failure of the byte source, surfaced here at the boundary, before any of
/// the field-layout logic runs. Extra bytes beyond the first 64 are ignored.
pub fn decode(buf: &[u8]) -> (r: Result<ElfHeader, DecodeError>)
    ensures
        decode_post(r, buf@),
{
    if buf.len() < 64 {
        return Err(DecodeError::ReadFailure);
    }
    // The ELF magic sequence: 0x7f 'E' 'L' 'F'.
    if !(buf[0] == 0x7f && buf[1] == 0x45 && buf[2] == 0x4c && buf[3] == 0x46) {
        return Err(DecodeError::NotAnElfFile);
    }
    if buf[4] == 1 {
        Ok(parse32(buf))
    } else if buf[4] == 2 {
        Ok(parse64(buf))
    } else {
        Err(DecodeError::NotAnElfFile)
    }
}

} // verus!
