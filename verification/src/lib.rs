//! Binary-layout toolkit: typed, endian-aware views over mutable byte
//! buffers, offset-tracked values decoded from a seekable byte stream, and a
//! model of the Portable Executable container format built on both.

pub mod codec;
pub mod dos_hdr;
pub mod err;
pub mod imports;
pub mod nt_hdr;
pub mod pe;
pub mod reloc;
pub mod sec_hdr;
pub mod stream;
pub mod types;
