use vstd::prelude::*;

verus! {

/// Largest memory, in bytes, that a machine may be built with.
pub const MAX_MEMORY_SIZE: usize = 0x0400_0000;

/// Memory size, in bytes, of a machine built by `Default`.
pub const DEFAULT_MEMORY_SIZE: usize = 0x0001_0000;

/// Selector reserved for a contract's constructor.
pub const CONSTRUCTOR_SELECTOR: u32 = 0;

/// Offset, in an ELF file, of the byte that gives the file's class.
pub const EI_CLASS: usize = 4;

/// Offset, in an ELF file, of the byte that gives the file's byte order.
pub const EI_DATA: usize = 5;

/// The class byte of a 32-bit ELF file.
pub const ELFCLASS32: u8 = 1;

/// The byte-order byte of a little-endian ELF file.
pub const ELFDATA2LSB: u8 = 1;

/// The type of a program header that describes a loadable segment.
pub const PT_LOAD: u32 = 1;

} // verus!
