//! Decoder for the fixed-size header of an ELF object file.
//!
//! The library reads the first 64 bytes of an ELF file and decodes them into a
//! structured header record, normalized to architecture-independent field
//! widths. Both the 32-bit and the 64-bit layout are supported; all multi-byte
//! fields are interpreted little-endian. Malformed input (a short buffer, a
//! wrong magic sequence, an unknown class byte) is rejected with a classified
//! error; decoding is a pure, deterministic, all-or-nothing transformation.
//!
//! Opening the file, reading the bytes and printing the decoded fields are the
//! caller's business; the library works on plain byte slices.

pub mod codec;
pub mod header;
pub mod laws;
