//! The decoded header record and the decoder's error classification.

use vstd::prelude::*;

verus! {

/// A decoded ELF header, normalized to architecture-independent widths: the
/// address and offset fields are held as 64-bit values even when they were
/// decoded from the 32-bit layout (zero-extended there).
#[derive(Clone, Copy, Debug)]
pub struct ElfHeader {
    /// Magic and identification block, bytes 0..16 of the file, verbatim.
    pub e_ident: [u8; 16],
    /// Object file type (relocatable, executable, shared, core).
    pub e_type: u16,
    /// Target instruction set architecture code.
    pub e_machine: u16,
    /// ELF format version.
    pub e_version: u32,
    /// Virtual address of the program entry point.
    pub e_entry: u64,
    /// Byte offset of the program header table.
    pub e_phoff: u64,
    /// Byte offset of the section header table.
    pub e_shoff: u64,
    /// Architecture-specific flags.
    pub e_flags: u32,
    /// Size of this header, in bytes.
    pub e_ehsize: u16,
    /// Size of one program header table entry.
    pub e_phentsize: u16,
    /// Number of program header table entries.
    pub e_phnum: u16,
    /// Size of one section header table entry.
    pub e_shentsize: u16,
    /// Number of section header table entries.
    pub e_shnum: u16,
    /// Index of the section name string table.
    pub e_shstrndx: u16,
}

/// Why no header could be decoded.
#[derive(Clone, Copy, Debug, PartialEq, Eq, Structural)]
pub enum DecodeError {
    /// The byte source could not supply the 64 bytes the header needs.
    ReadFailure,
    /// The magic prefix does not match, or the class byte is neither 1 nor 2.
    NotAnElfFile,
}

/// The first four bytes are the ELF magic sequence `0x7f 'E' 'L' 'F'`.
pub open spec fn magic_ok(b: Seq<u8>) -> bool {
    &&& b.len() >= 4
    &&& b[0] == 0x7f
    &&& b[1] == 0x45
    &&& b[2] == 0x4c
    &&& b[3] == 0x46
}

} // verus!
