//! Plain-value views of what the format-decoding collaborator reads out of
//! each container format: exactly the fields the extractors and heuristics
//! consume, as integers, booleans, strings and vectors.

use vstd::prelude::*;

verus! {

/// What an ELF image provides to the extractor.
#[derive(Debug)]
pub struct ElfView {
    /// True for a 64-bit image.
    pub is_64: bool,
    /// The type code of the image (relocatable, executable, ...).
    pub e_type: u16,
    /// The machine code of the image.
    pub e_machine: u16,
    /// The program interpreter, if the image names one.
    pub interpreter: Option<String>,
    /// True when the debugging symbol table is empty.
    pub syms_is_empty: bool,
    /// The libraries the image links against, in reported order.
    pub libraries: Vec<String>,
    /// The entries of the static string table.
    pub strtab: Vec<String>,
    /// The entries of the section-header string table.
    pub shdr_strtab: Vec<String>,
    /// The entries of the dynamic string table.
    pub dynstrtab: Vec<String>,
}

/// What a PE optional header provides.
#[derive(Clone, Copy, Debug)]
pub struct PeOptView {
    /// The subsystem code.
    pub subsystem: u16,
    /// The major OS version field, reported as the linker's major version.
    pub os_major: u16,
    /// The minor OS version field, reported as the linker's minor version.
    pub os_minor: u16,
}

/// What a PE image provides to the extractor.
#[derive(Debug)]
pub struct PeView {
    /// True for a PE32+ (64-bit) image.
    pub is_64: bool,
    /// The machine code from the COFF header.
    pub machine: u16,
    /// The characteristics bits from the COFF header.
    pub characteristics: u16,
    /// The optional header, when the image carries one.
    pub optional_header: Option<PeOptView>,
    /// The libraries the image imports from, in reported order.
    pub libraries: Vec<String>,
}

/// What a bare COFF object provides to the extractor.
#[derive(Clone, Copy, Debug)]
pub struct CoffView {
    /// The machine code.
    pub machine: u16,
    /// The characteristics bits.
    pub characteristics: u16,
}

/// What a single Mach-O image provides to the extractor.
#[derive(Debug)]
pub struct MachOView {
    /// True for a 64-bit image.
    pub is_64: bool,
    /// The CPU type code.
    pub cputype: u32,
    /// The CPU subtype code.
    pub cpusubtype: u32,
    /// The file type code.
    pub filetype: u32,
    /// One element per load command: the platform of a build-version
    /// command, or nothing for a command of any other kind.
    pub build_platforms: Vec<Option<u32>>,
    /// One element per symbol-table entry: its name, or nothing for an
    /// entry that could not be read.
    pub symbol_names: Vec<Option<String>>,
    /// The libraries the image links against, in reported order, including
    /// any self-referential entry.
    pub libs: Vec<String>,
}

} // verus!
