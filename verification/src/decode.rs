//! The trusted boundary to the format-decoding collaborator, the goblin
//! crate: it classifies a buffer and yields structured views of each
//! format's headers, tables and load commands. Every item here is believed,
//! not proved; each doc comment names the goblin item it relies on.
//!
//! The collaborator's work is deterministic in the buffer alone (its member
//! index is an ordered map, its tables are read with explicit byte orders),
//! so each of its results is given a name: an uninterpreted spec function of
//! the buffer that the wrappers' contracts apply, letting the traversal's
//! own contracts owe exact entries. The one machine-dependent value — the
//! payload reported for an unrecognized magic, which goblin reads in the
//! machine's native byte order — gets no name; its contract states only
//! that it is the first eight bytes read in one byte order or the other.

use vstd::prelude::*;
use goblin::mach::Mach;
use goblin::Object;
use crate::errors::Failure;
use crate::views::{CoffView, ElfView, MachOView, PeOptView, PeView};

verus! {

#[verifier::external_type_specification]
#[verifier::external_body]
pub struct ExElf<'a>(goblin::elf::Elf<'a>);

#[verifier::external_type_specification]
#[verifier::external_body]
pub struct ExPE<'a>(goblin::pe::PE<'a>);

#[verifier::external_type_specification]
#[verifier::external_body]
pub struct ExCoff<'a>(goblin::pe::Coff<'a>);

#[verifier::external_type_specification]
#[verifier::external_body]
pub struct ExMachO<'a>(goblin::mach::MachO<'a>);

#[verifier::external_type_specification]
#[verifier::external_body]
pub struct ExMultiArch<'a>(goblin::mach::MultiArch<'a>);

#[verifier::external_type_specification]
#[verifier::external_body]
pub struct ExArchive<'a>(goblin::archive::Archive<'a>);

#[verifier::external_type_specification]
#[verifier::external_body]
pub struct ExError(goblin::error::Error);

#[verifier::external_type_specification]
#[verifier::external_body]
pub struct ExStrtab<'a>(goblin::strtab::Strtab<'a>);

/// How the collaborator classifies a buffer, as a plain tag.
#[derive(Clone, Copy, Debug, PartialEq, Eq, Structural)]
pub enum ClassTag {
    Elf,
    Pe,
    Coff,
    MachThin,
    MachFat,
    Archive,
    Unknown,
    Unsupported,
    Failed,
}

/// The classification of the buffer. Deterministic: goblin dispatches on
/// magic bytes it reads with explicit byte orders.
pub uninterp spec fn class_of(b: Seq<u8>) -> ClassTag;

/// The view of the ELF image the collaborator parses out of the buffer.
pub uninterp spec fn elf_view_of(b: Seq<u8>) -> ElfView;

/// The view of the PE image the collaborator parses out of the buffer.
pub uninterp spec fn pe_view_of(b: Seq<u8>) -> PeView;

/// The view of the COFF object the collaborator parses out of the buffer.
pub uninterp spec fn coff_view_of(b: Seq<u8>) -> CoffView;

/// Whether a single Mach-O image parses at this offset of the buffer.
pub uninterp spec fn macho_parses(b: Seq<u8>, off: int) -> bool;

/// The view of the single Mach-O image at this offset of the buffer.
pub uninterp spec fn macho_view_of(b: Seq<u8>, off: int) -> MachOView;

/// The failure parsing the single Mach-O image at this offset reports.
pub uninterp spec fn macho_failure_of(b: Seq<u8>, off: int) -> Failure;

/// The failure classifying the buffer reports.
pub uninterp spec fn decode_failure_of(b: Seq<u8>) -> Failure;

/// Whether the fat container's slice descriptors can be enumerated.
pub uninterp spec fn fat_arches_ok(b: Seq<u8>) -> bool;

/// The stated offsets of the fat container's slices, in container order.
pub uninterp spec fn fat_offsets_of(b: Seq<u8>) -> Seq<u32>;

/// The failure enumerating the fat container's slice descriptors reports.
pub uninterp spec fn fat_failure_of(b: Seq<u8>) -> Failure;

/// The archive's member names, in the order its name index yields them.
pub uninterp spec fn archive_members_of(b: Seq<u8>) -> Seq<Seq<char>>;

/// Whether extracting the named member of the archive succeeds.
pub uninterp spec fn archive_extract_ok(b: Seq<u8>, member: Seq<char>) -> bool;

/// The raw bytes of the named member of the archive.
pub uninterp spec fn archive_extract_of(b: Seq<u8>, member: Seq<char>) -> Seq<u8>;

/// The failure extracting the named member of the archive reports.
pub uninterp spec fn archive_extract_failure_of(b: Seq<u8>, member: Seq<char>) -> Failure;

/// The buffer a parsed archive value was parsed from. Classification pins
/// it to the classified buffer, letting the member and extraction names be
/// keyed by that buffer.
pub uninterp spec fn archive_src(a: goblin::archive::Archive<'_>) -> Seq<u8>;

/// The buffer a parsed fat container value was parsed from.
pub uninterp spec fn fat_src(f: goblin::mach::MultiArch<'_>) -> Seq<u8>;

/// What classifying a buffer can yield: a leaf format already reduced to
/// its view, one of the two recursive containers, an unknown magic, a
/// format the collaborator recognizes but this library does not extract,
/// or a decode failure.
pub enum Classified<'a> {
    ElfFile(ElfView),
    PeFile(PeView),
    CoffFile(CoffView),
    MachFile(MachOView),
    MachFat(goblin::mach::MultiArch<'a>),
    ArchiveFile(goblin::archive::Archive<'a>),
    UnknownMagic(u64),
    Unsupported,
    Failed(Failure),
}

/// The tag of a classification outcome.
pub open spec fn tag_of(c: Classified) -> ClassTag {
    match c {
        Classified::ElfFile(_) => ClassTag::Elf,
        Classified::PeFile(_) => ClassTag::Pe,
        Classified::CoffFile(_) => ClassTag::Coff,
        Classified::MachFile(_) => ClassTag::MachThin,
        Classified::MachFat(_) => ClassTag::MachFat,
        Classified::ArchiveFile(_) => ClassTag::Archive,
        Classified::UnknownMagic(_) => ClassTag::Unknown,
        Classified::Unsupported => ClassTag::Unsupported,
        Classified::Failed(_) => ClassTag::Failed,
    }
}

/// The buffer starts with the ELF magic and is long enough to classify.
pub open spec fn elf_magic(b: Seq<u8>) -> bool {
    b.len() >= 16 && b[0] == 0x7F && b[1] == 0x45 && b[2] == 0x4C && b[3] == 0x46
}

/// The buffer starts with the Unix archive magic "!<arch>\n" and is long
/// enough to classify.
pub open spec fn archive_magic(b: Seq<u8>) -> bool {
    b.len() >= 16 && b[0] == 0x21 && b[1] == 0x3C && b[2] == 0x61 && b[3] == 0x72 && b[4] == 0x63
        && b[5] == 0x68 && b[6] == 0x3E && b[7] == 0x0A
}

/// The buffer starts with the DOS magic "MZ" and is long enough to classify.
pub open spec fn pe_magic(b: Seq<u8>) -> bool {
    b.len() >= 16 && b[0] == 0x4D && b[1] == 0x5A
}

/// The buffer's first two little-endian bytes are one of the three machine
/// codes the collaborator takes as a bare COFF hint, and the buffer is long
/// enough to classify.
pub open spec fn coff_magic(b: Seq<u8>) -> bool {
    b.len() >= 16 && ((b[0] == 0x4C && b[1] == 0x01) || (b[0] == 0x64 && b[1] == 0x86) || (b[0]
        == 0x64 && b[1] == 0xAA))
}

/// The buffer starts with one of the four single-image Mach-O magics (both
/// widths, both byte orders) and is long enough to classify.
pub open spec fn mach_thin_magic(b: Seq<u8>) -> bool {
    b.len() >= 16 && ((b[0] == 0xFE && b[1] == 0xED && b[2] == 0xFA && b[3] == 0xCE) || (b[0]
        == 0xFE && b[1] == 0xED && b[2] == 0xFA && b[3] == 0xCF) || (b[0] == 0xCE && b[1] == 0xFA
        && b[2] == 0xED && b[3] == 0xFE) || (b[0] == 0xCF && b[1] == 0xFA && b[2] == 0xED && b[3]
        == 0xFE))
}

/// The buffer starts with the big-endian fat container magic and is long
/// enough to classify.
pub open spec fn mach_fat_magic(b: Seq<u8>) -> bool {
    b.len() >= 16 && b[0] == 0xCA && b[1] == 0xFE && b[2] == 0xBA && b[3] == 0xBE
}

/// The little-endian 64-bit value of the buffer's first eight bytes.
pub open spec fn le_u64(b: Seq<u8>) -> int {
    b[0] as int + b[1] as int * 0x100 + b[2] as int * 0x10000 + b[3] as int * 0x1000000 + b[4] as int
        * 0x100000000 + b[5] as int * 0x10000000000 + b[6] as int * 0x1000000000000 + b[7] as int
        * 0x100000000000000
}

/// The big-endian 64-bit value of the buffer's first eight bytes.
pub open spec fn be_u64(b: Seq<u8>) -> int {
    b[7] as int + b[6] as int * 0x100 + b[5] as int * 0x10000 + b[4] as int * 0x1000000 + b[3] as int
        * 0x100000000 + b[2] as int * 0x10000000000 + b[1] as int * 0x1000000000000 + b[0] as int
        * 0x100000000000000
}

/// Relies on goblin's `Object::parse`: it peeks at the first 16 bytes (a
/// shorter buffer is a decode failure), dispatches on the magic as
/// `peek_bytes` spells it out, and parses the recognized format, so each
/// magic leads either to its own format's parse or to that parse's failure;
/// an unrecognized magic is reported as the 64-bit value of the first eight
/// bytes, read in the machine's native byte order (so one of the two byte
/// orders, whichever the machine uses); the TE format (and any format this
/// library has no extractor for) is recognized but unsupported. A thin
/// Mach-O buffer is parsed exactly as a single image at offset zero.
#[verifier::external_body]
pub(crate) fn classify<'a>(buffer: &'a [u8]) -> (r: Classified<'a>)
    ensures
        tag_of(r) == class_of(buffer@),
        buffer@.len() < 16 ==> r is Failed,
        elf_magic(buffer@) ==> (r is ElfFile || r is Failed),
        archive_magic(buffer@) ==> (r is ArchiveFile || r is Failed),
        pe_magic(buffer@) ==> (r is PeFile || r is Failed),
        coff_magic(buffer@) ==> (r is CoffFile || r is Failed),
        mach_thin_magic(buffer@) ==> (r is MachFile || r is Failed),
        mach_fat_magic(buffer@) ==> (r is MachFat || r is Failed),
        r is ElfFile ==> elf_magic(buffer@),
        r is ArchiveFile ==> archive_magic(buffer@),
        r is PeFile ==> pe_magic(buffer@),
        r is CoffFile ==> coff_magic(buffer@),
        r is MachFile ==> mach_thin_magic(buffer@),
        r is MachFat ==> mach_fat_magic(buffer@),
        r matches Classified::ElfFile(v) ==> v == elf_view_of(buffer@),
        r matches Classified::PeFile(v) ==> v == pe_view_of(buffer@),
        r matches Classified::CoffFile(v) ==> v == coff_view_of(buffer@),
        r matches Classified::MachFile(v) ==> macho_parses(buffer@, 0) && v == macho_view_of(
            buffer@,
            0,
        ),
        r matches Classified::MachFat(f) ==> fat_src(f) == buffer@,
        r matches Classified::ArchiveFile(a) ==> archive_src(a) == buffer@,
        r matches Classified::Failed(f) ==> f == decode_failure_of(buffer@),
        r matches Classified::UnknownMagic(m) ==> buffer@.len() >= 16 && (m as int == le_u64(
            buffer@,
        ) || m as int == be_u64(buffer@)),
{
    match Object::parse(buffer) {
        Ok(Object::Elf(x)) => Classified::ElfFile(elf_view(&x)),
        Ok(Object::PE(x)) => Classified::PeFile(pe_view(&x)),
        Ok(Object::COFF(x)) => Classified::CoffFile(coff_view(&x)),
        Ok(Object::Mach(Mach::Binary(x))) => Classified::MachFile(macho_view(&x)),
        Ok(Object::Mach(Mach::Fat(x))) => Classified::MachFat(x),
        Ok(Object::Archive(x)) => Classified::ArchiveFile(x),
        Ok(Object::Unknown(m)) => Classified::UnknownMagic(m),
        Ok(_) => Classified::Unsupported,
        Err(e) => Classified::Failed(failure_of(e)),
    }
}

/// Relies on goblin's `Strtab::to_vec` for the table's entries; a table
/// that cannot be read contributes no entries.
#[verifier::external_body]
fn table_strings(t: &goblin::strtab::Strtab<'_>) -> Vec<String> {
    t.to_vec().unwrap_or_default().iter().map(|s| s.to_string()).collect()
}

/// Relies on the public fields of goblin's `Elf`: the header's type and
/// machine codes, the bit width, the interpreter, the emptiness of the
/// debugging symbol table, the needed-library list and the three string
/// tables.
#[verifier::external_body]
fn elf_view(elf: &goblin::elf::Elf<'_>) -> ElfView {
    ElfView {
        is_64: elf.is_64,
        e_type: elf.header.e_type,
        e_machine: elf.header.e_machine,
        interpreter: elf.interpreter.map(|s| s.to_string()),
        syms_is_empty: elf.syms.is_empty(),
        libraries: elf.libraries.iter().map(|s| s.to_string()).collect(),
        strtab: table_strings(&elf.strtab),
        shdr_strtab: table_strings(&elf.shdr_strtab),
        dynstrtab: table_strings(&elf.dynstrtab),
    }
}

/// Relies on the public fields of goblin's `PE`: the COFF header's machine
/// and characteristics, the bit width, the optional header's subsystem and
/// OS version fields, and the import library list.
#[verifier::external_body]
fn pe_view(pe: &goblin::pe::PE<'_>) -> PeView {
    PeView {
        is_64: pe.is_64,
        machine: pe.header.coff_header.machine,
        characteristics: pe.header.coff_header.characteristics,
        optional_header: pe.header.optional_header.map(|h| PeOptView {
            subsystem: h.windows_fields.subsystem,
            os_major: h.windows_fields.major_operating_system_version,
            os_minor: h.windows_fields.minor_operating_system_version,
        }),
        libraries: pe.libraries.iter().map(|s| s.to_string()).collect(),
    }
}

/// Relies on the public fields of goblin's `Coff`: the header's machine and
/// characteristics.
#[verifier::external_body]
fn coff_view(coff: &goblin::pe::Coff<'_>) -> CoffView {
    CoffView { machine: coff.header.machine, characteristics: coff.header.characteristics }
}

/// Relies on goblin's `LoadCommand` list: one element per command, carrying
/// the platform field of a build-version command and nothing for any other
/// command kind.
#[verifier::external_body]
fn macho_build_platforms(m: &goblin::mach::MachO<'_>) -> Vec<Option<u32>> {
    m.load_commands.iter().map(|lc| match &lc.command {
        goblin::mach::load_command::CommandVariant::BuildVersion(b) => Some(b.platform),
        _ => None,
    }).collect()
}

/// Relies on goblin's `Symbols` iterator: one element per symbol-table
/// entry, carrying its name, or nothing for an entry that cannot be read.
#[verifier::external_body]
fn macho_symbol_names(m: &goblin::mach::MachO<'_>) -> Vec<Option<String>> {
    match &m.symbols {
        Some(symbols) => symbols.iter().map(|s| s.ok().map(|(n, _)| n.to_string())).collect(),
        None => Vec::new(),
    }
}

/// Relies on the public fields of goblin's `MachO`: the header's CPU type,
/// CPU subtype and file type, the bit width, the load commands, the symbol
/// table and the library list (whose first entry is the image itself).
#[verifier::external_body]
fn macho_view(m: &goblin::mach::MachO<'_>) -> MachOView {
    MachOView {
        is_64: m.is_64,
        cputype: m.header.cputype,
        cpusubtype: m.header.cpusubtype,
        filetype: m.header.filetype,
        build_platforms: macho_build_platforms(m),
        symbol_names: macho_symbol_names(m),
        libs: m.libs.iter().map(|s| s.to_string()).collect(),
    }
}

/// Relies on goblin's `Error` variants and its `Display` rendering: the
/// kind mirrors the variant one to one, and the text is the error's own
/// message (both deterministic renderings of the input).
#[verifier::external_body]
fn failure_of(e: goblin::error::Error) -> Failure {
    let text = format!("{}", e);
    let kind = match e {
        goblin::error::Error::Malformed(_) => crate::errors::FailureKind::Malformed,
        goblin::error::Error::BadMagic(_) => crate::errors::FailureKind::BadMagic,
        goblin::error::Error::Scroll(_) => crate::errors::FailureKind::Scroll,
        goblin::error::Error::BufferTooShort(_, _) => crate::errors::FailureKind::BufferTooShort,
        goblin::error::Error::IO(_) => crate::errors::FailureKind::Io,
        _ => crate::errors::FailureKind::Other,
    };
    Failure { kind, text }
}

/// Relies on goblin's `MachO::parse`: parses the single image that starts
/// at `offset` inside `bytes`, deterministically, returning its error
/// rather than panicking on malformed input.
#[verifier::external_body]
pub(crate) fn parse_macho_at(buffer: &[u8], offset: usize) -> (r: Result<MachOView, Failure>)
    ensures
        r is Ok <==> macho_parses(buffer@, offset as int),
        r matches Ok(v) ==> v == macho_view_of(buffer@, offset as int),
        r matches Err(f) ==> f == macho_failure_of(buffer@, offset as int),
{
    match goblin::mach::MachO::parse(buffer, offset) {
        Ok(m) => Ok(macho_view(&m)),
        Err(e) => Err(failure_of(e)),
    }
}

/// Relies on goblin's `MultiArch::arches`: the descriptors of every slice
/// of the fat container, in container order, reduced to each slice's
/// stated offset; deterministic in the container's bytes.
#[verifier::external_body]
pub(crate) fn fat_arch_offsets(fat: &goblin::mach::MultiArch<'_>) -> (r: Result<Vec<u32>, Failure>)
    ensures
        r is Ok <==> fat_arches_ok(fat_src(*fat)),
        r matches Ok(offsets) ==> offsets@ == fat_offsets_of(fat_src(*fat)),
        r matches Err(f) ==> f == fat_failure_of(fat_src(*fat)),
{
    match fat.arches() {
        Ok(arches) => Ok(arches.iter().map(|a| a.offset).collect()),
        Err(e) => Err(failure_of(e)),
    }
}

/// Relies on goblin's `Archive::members`: the archive's member names, in
/// the deterministic order of its name index (an ordered map).
#[verifier::external_body]
pub(crate) fn archive_members(archive: &goblin::archive::Archive<'_>) -> (ms: Vec<String>)
    ensures
        ms.deep_view() == archive_members_of(archive_src(*archive)),
{
    archive.members().iter().map(|s| s.to_string()).collect()
}

/// Relies on goblin's `Archive::extract`: the raw bytes of the named member
/// inside the buffer the archive was parsed from, or an error when the
/// member is unknown or its stated extent does not fit; deterministic in
/// that buffer and the name.
#[verifier::external_body]
pub(crate) fn archive_extract<'b>(
    archive: &goblin::archive::Archive<'_>,
    member: &str,
    buffer: &'b [u8],
) -> (r: Result<&'b [u8], Failure>)
    requires
        buffer@ == archive_src(*archive),
    ensures
        r is Ok <==> archive_extract_ok(archive_src(*archive), member@),
        r matches Ok(bs) ==> bs@ == archive_extract_of(archive_src(*archive), member@),
        r matches Err(f) ==> f == archive_extract_failure_of(archive_src(*archive), member@),
{
    match archive.extract(member, buffer) {
        Ok(bs) => Ok(bs),
        Err(e) => Err(failure_of(e)),
    }
}

} // verus!
