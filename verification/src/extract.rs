//! The per-format extractors: pure functions from a format view (plus the
//! containment context) to one fully populated result entry. Format
//! recognition already guaranteed structural validity, so these never fail.

use vstd::prelude::*;
use crate::heur::{
    filter_self_libs, find_linux_vdso, find_os_elf, find_os_mach, find_os_pe,
    mach_has_debug_symbol, spec_filter_self, spec_find_os_elf, spec_find_os_mach, spec_find_os_pe,
    spec_linux_vdso, spec_mach_has_debug_symbol,
};
use crate::records::{clone_strings, ParsedObjectRecord, ParsingError, ResultEntry, entry_wf};
use crate::strutil::{build_version, version_seq};
use crate::types::{
    elf_machine, elf_type, mach_arm_subtype, mach_cputype, mach_filetype, mach_x86_subtype,
    pe_arch, pe_subsystem, spec_elf_machine, spec_elf_type, spec_mach_arm_subtype,
    spec_mach_cputype, spec_mach_filetype, spec_mach_x86_subtype, spec_pe_arch,
    spec_pe_subsystem, MachOCpuType,
};
use crate::views::{CoffView, ElfView, MachOView, PeView};

verus! {

/// The name of the instruction set an ELF machine code maps to, if known.
pub open spec fn spec_elf_arch_name(code: u16) -> Option<Seq<char>> {
    match spec_elf_machine(code) {
        Some(m) => Some(m.spec_name()),
        None => None,
    }
}

/// The object kind of an ELF image: a shared-object type code together with
/// a present interpreter is reported as an executable (the
/// position-independent-executable heuristic); otherwise the type code's
/// table name, absent for an unmapped code.
pub open spec fn spec_elf_kind_name(v: ElfView) -> Option<Seq<char>> {
    if v.e_type == 0x03 && v.interpreter is Some {
        Some("Executable"@)
    } else {
        match spec_elf_type(v.e_type) {
            Some(t) => Some(t.spec_name()),
            None => None,
        }
    }
}

/// The OS name an ELF view resolves to, if any.
pub open spec fn spec_elf_os_name(v: ElfView, os_abi: u8) -> Option<Seq<char>> {
    match spec_find_os_elf(v, os_abi) {
        Some(os) => Some(os.spec_name()),
        None => None,
    }
}

/// The libraries of an ELF record: the reported list, with the virtual DSO
/// appended when the OS resolves to Linux and the machine code maps to a
/// known virtual-DSO name.
pub open spec fn spec_elf_libraries(v: ElfView, os_abi: u8) -> Seq<Seq<char>> {
    if spec_find_os_elf(v, os_abi) == Some(crate::types::ElfOS::Linux) && spec_linux_vdso(
        v.e_machine,
        v.is_64,
    ) is Some {
        v.libraries.deep_view().push(spec_linux_vdso(v.e_machine, v.is_64)->Some_0)
    } else {
        v.libraries.deep_view()
    }
}

/// The shape of the success entry the ELF extractor yields for a view.
pub open spec fn elf_entry(
    e: ResultEntry,
    name: Seq<char>,
    path: Seq<Seq<char>>,
    v: ElfView,
    os_abi: u8,
) -> bool {
    &&& e.error.code == 0
    &&& e.error.explanation is None
    &&& e.record.name@ == name
    &&& e.record.containment_path.deep_view() == path
    &&& e.record.format.deep_view() == Some("ELF"@)
    &&& e.record.is_64bit == v.is_64
    &&& e.record.os_name.deep_view() == spec_elf_os_name(v, os_abi)
    &&& e.record.object_kind.deep_view() == spec_elf_kind_name(v)
    &&& e.record.is_stripped == v.syms_is_empty
    &&& e.record.cpu_arch.deep_view() == spec_elf_arch_name(v.e_machine)
    &&& e.record.cpu_subtype is None
    &&& e.record.linker_or_interpreter.deep_view() == v.interpreter.deep_view()
    &&& e.record.linked_libraries.deep_view() == spec_elf_libraries(v, os_abi)
}

/// Extracts the record of an ELF image.
pub fn extract_elf(file_name: &str, path: &Vec<String>, v: &ElfView, os_abi: u8) -> (e: ResultEntry)
    ensures
        entry_wf(e),
        elf_entry(e, file_name@, path.deep_view(), *v, os_abi),
{
    let os = find_os_elf(v, os_abi);
    let os_name = match os {
        Some(o) => Some(o.name()),
        None => None,
    };
    let object_kind = if v.e_type == 0x03 && v.interpreter.is_some() {
        Some("Executable".to_owned())
    } else {
        match elf_type(v.e_type) {
            Some(t) => Some(t.name()),
            None => None,
        }
    };
    let cpu_arch = match elf_machine(v.e_machine) {
        Some(m) => Some(m.name()),
        None => None,
    };
    let interpreter = match &v.interpreter {
        Some(s) => Some(s.clone()),
        None => None,
    };
    let mut libraries = clone_strings(&v.libraries);
    let is_linux = match os {
        Some(o) => matches!(o, crate::types::ElfOS::Linux),
        None => false,
    };
    if is_linux {
        match find_linux_vdso(v.e_machine, v.is_64) {
            Some(vdso) => {
                libraries.push(vdso.to_owned());
                proof {
                    assert(libraries.deep_view() =~= spec_elf_libraries(*v, os_abi));
                }
            },
            None => {},
        }
    }
    ResultEntry {
        error: ParsingError { code: 0, explanation: None },
        record: ParsedObjectRecord {
            name: file_name.to_owned(),
            containment_path: clone_strings(path),
            format: Some("ELF".to_owned()),
            is_64bit: v.is_64,
            os_name,
            object_kind,
            is_stripped: v.syms_is_empty,
            cpu_arch,
            cpu_subtype: None,
            linker_or_interpreter: interpreter,
            linked_libraries: libraries,
        },
    }
}

/// An ELF image with the unspecified OS/ABI byte whose string tables match
/// none of the higher-priority substrings but whose dynamic string table
/// mentions glibc resolves to Linux; and when its machine code names x86-64,
/// its reported libraries gain the appended "linux-vdso.so.1" entry.
pub proof fn lemma_glibc_resolves_linux(v: ElfView)
    requires
        !crate::heur::elf_tables_contain(v, "fbsd"@),
        !crate::heur::elf_tables_contain(v, "openbsd"@),
        crate::heur::any_contains_ci(v.dynstrtab.deep_view(), "glibc"@),
    ensures
        spec_find_os_elf(v, 0x00) == Some(crate::types::ElfOS::Linux),
        v.e_machine == 0x3E ==> spec_elf_libraries(v, 0x00) == v.libraries.deep_view().push(
            "linux-vdso.so.1"@,
        ),
{
    assert(crate::heur::elf_tables_contain(v, "glibc"@));
}

/// The name of the architecture a PE/COFF machine code maps to, if known.
pub open spec fn spec_pe_arch_name(code: u16) -> Option<Seq<char>> {
    match spec_pe_arch(code) {
        Some(a) => Some(a.spec_name()),
        None => None,
    }
}

/// The object kind of a PE image: its subsystem's descriptive name, absent
/// without an optional header or for an unmapped subsystem code.
pub open spec fn spec_pe_kind_name(v: PeView) -> Option<Seq<char>> {
    match v.optional_header {
        Some(h) => match spec_pe_subsystem(h.subsystem) {
            Some(s) => Some(s.spec_name()),
            None => None,
        },
        None => None,
    }
}

/// The OS name a PE view resolves to, if any.
pub open spec fn spec_pe_os_name(v: PeView) -> Option<Seq<char>> {
    match spec_find_os_pe(v) {
        Some(os) => Some(os.spec_name()),
        None => None,
    }
}

/// The linker version a PE record reports: the optional header's OS version
/// fields as "{major}.{minor}", absent without an optional header.
pub open spec fn spec_pe_linker(v: PeView) -> Option<Seq<char>> {
    match v.optional_header {
        Some(h) => Some(version_seq(h.os_major, h.os_minor)),
        None => None,
    }
}

/// The format tag of a PE image: "PE32+" for a 64-bit image, "PE32" else.
pub open spec fn spec_pe_format(is_64: bool) -> Seq<char> {
    if is_64 {
        "PE32+"@
    } else {
        "PE32"@
    }
}

/// The shape of the success entry the PE extractor yields for a view.
pub open spec fn pe_entry(e: ResultEntry, name: Seq<char>, path: Seq<Seq<char>>, v: PeView) -> bool {
    &&& e.error.code == 0
    &&& e.error.explanation is None
    &&& e.record.name@ == name
    &&& e.record.containment_path.deep_view() == path
    &&& e.record.format.deep_view() == Some(spec_pe_format(v.is_64))
    &&& e.record.is_64bit == v.is_64
    &&& e.record.os_name.deep_view() == spec_pe_os_name(v)
    &&& e.record.object_kind.deep_view() == spec_pe_kind_name(v)
    &&& e.record.is_stripped == (v.characteristics & 0x0200 == 0x0200)
    &&& e.record.cpu_arch.deep_view() == spec_pe_arch_name(v.machine)
    &&& e.record.cpu_subtype is None
    &&& e.record.linker_or_interpreter.deep_view() == spec_pe_linker(v)
    &&& e.record.linked_libraries.deep_view() == v.libraries.deep_view()
}

/// Extracts the record of a PE image.
pub fn extract_pe(file_name: &str, path: &Vec<String>, v: &PeView) -> (e: ResultEntry)
    ensures
        entry_wf(e),
        pe_entry(e, file_name@, path.deep_view(), *v),
{
    let os_name = match find_os_pe(v) {
        Some(o) => Some(o.name()),
        None => None,
    };
    let object_kind = match &v.optional_header {
        Some(h) => match pe_subsystem(h.subsystem) {
            Some(s) => Some(s.name()),
            None => None,
        },
        None => None,
    };
    let linker = match &v.optional_header {
        Some(h) => Some(build_version(h.os_major, h.os_minor)),
        None => None,
    };
    let cpu_arch = match pe_arch(v.machine) {
        Some(a) => Some(a.name()),
        None => None,
    };
    let format = if v.is_64 {
        "PE32+".to_owned()
    } else {
        "PE32".to_owned()
    };
    ResultEntry {
        error: ParsingError { code: 0, explanation: None },
        record: ParsedObjectRecord {
            name: file_name.to_owned(),
            containment_path: clone_strings(path),
            format: Some(format),
            is_64bit: v.is_64,
            os_name,
            object_kind,
            is_stripped: v.characteristics & 0x0200 == 0x0200,
            cpu_arch,
            cpu_subtype: None,
            linker_or_interpreter: linker,
            linked_libraries: clone_strings(&v.libraries),
        },
    }
}

/// The shape of the success entry the COFF extractor yields for a view:
/// always a Windows object file with no libraries, 64-bit unless the
/// 32-bit-machine characteristic is set, stripped when the debug-stripped
/// characteristic is set.
pub open spec fn coff_entry(
    e: ResultEntry,
    name: Seq<char>,
    path: Seq<Seq<char>>,
    v: CoffView,
) -> bool {
    &&& e.error.code == 0
    &&& e.error.explanation is None
    &&& e.record.name@ == name
    &&& e.record.containment_path.deep_view() == path
    &&& e.record.format.deep_view() == Some("COFF"@)
    &&& e.record.is_64bit == (v.characteristics & 0x0100 != 0x0100)
    &&& e.record.os_name.deep_view() == Some("Windows"@)
    &&& e.record.object_kind.deep_view() == Some("Windows object file"@)
    &&& e.record.is_stripped == (v.characteristics & 0x0200 == 0x0200)
    &&& e.record.cpu_arch.deep_view() == spec_pe_arch_name(v.machine)
    &&& e.record.cpu_subtype is None
    &&& e.record.linker_or_interpreter is None
    &&& e.record.linked_libraries@.len() == 0
}

/// Extracts the record of a bare COFF object.
pub fn extract_coff(file_name: &str, path: &Vec<String>, v: &CoffView) -> (e: ResultEntry)
    ensures
        entry_wf(e),
        coff_entry(e, file_name@, path.deep_view(), *v),
{
    let cpu_arch = match pe_arch(v.machine) {
        Some(a) => Some(a.name()),
        None => None,
    };
    ResultEntry {
        error: ParsingError { code: 0, explanation: None },
        record: ParsedObjectRecord {
            name: file_name.to_owned(),
            containment_path: clone_strings(path),
            format: Some("COFF".to_owned()),
            is_64bit: v.characteristics & 0x0100 != 0x0100,
            os_name: Some("Windows".to_owned()),
            object_kind: Some("Windows object file".to_owned()),
            is_stripped: v.characteristics & 0x0200 == 0x0200,
            cpu_arch,
            cpu_subtype: None,
            linker_or_interpreter: None,
            linked_libraries: Vec::new(),
        },
    }
}

/// A PE image whose optional header names the EFI boot-service-driver
/// subsystem resolves its OS to UEFI, and its object kind is that
/// subsystem's descriptive text.
pub proof fn lemma_efi_boot_driver_resolves_uefi(v: PeView)
    requires
        v.optional_header matches Some(h) && h.subsystem == 0x0B,
    ensures
        spec_find_os_pe(v) == Some(crate::types::PeOS::UEFI),
        spec_pe_kind_name(v) == Some("EFI driver with boot services"@),
{
}

/// The name of the CPU family a Mach-O CPU-type code maps to, if known.
pub open spec fn spec_mach_arch_name(code: u32) -> Option<Seq<char>> {
    match spec_mach_cputype(code) {
        Some(c) => Some(c.spec_name()),
        None => None,
    }
}

/// The CPU subtype name of a Mach-O image: resolved through the ARM table
/// for the ARM families and the x86 table for the x86 families, absent for
/// every other family and for an unknown CPU type.
pub open spec fn spec_mach_subtype_name(cputype: u32, cpusubtype: u32) -> Option<Seq<char>> {
    match spec_mach_cputype(cputype) {
        Some(MachOCpuType::ARM) | Some(MachOCpuType::ARM64) => match spec_mach_arm_subtype(
            cpusubtype,
        ) {
            Some(s) => Some(s.spec_name()),
            None => None,
        },
        Some(MachOCpuType::X86) | Some(MachOCpuType::X86_64) => match spec_mach_x86_subtype(
            cpusubtype,
        ) {
            Some(s) => Some(s.spec_name()),
            None => None,
        },
        _ => None,
    }
}

/// The object kind of a Mach-O image, if its file-type code is known.
pub open spec fn spec_mach_kind_name(code: u32) -> Option<Seq<char>> {
    match spec_mach_filetype(code) {
        Some(t) => Some(t.spec_name()),
        None => None,
    }
}

/// The OS name a Mach-O view resolves to, if any.
pub open spec fn spec_mach_os_name(v: MachOView) -> Option<Seq<char>> {
    match spec_find_os_mach(v) {
        Some(os) => Some(os.spec_name()),
        None => None,
    }
}

/// The shape of the success entry the Mach-O extractor yields for a view.
pub open spec fn mach_entry(
    e: ResultEntry,
    name: Seq<char>,
    path: Seq<Seq<char>>,
    v: MachOView,
) -> bool {
    &&& e.error.code == 0
    &&& e.error.explanation is None
    &&& e.record.name@ == name
    &&& e.record.containment_path.deep_view() == path
    &&& e.record.format.deep_view() == Some("Mach-O"@)
    &&& e.record.is_64bit == v.is_64
    &&& e.record.os_name.deep_view() == spec_mach_os_name(v)
    &&& e.record.object_kind.deep_view() == spec_mach_kind_name(v.filetype)
    &&& e.record.is_stripped == !spec_mach_has_debug_symbol(v.symbol_names.deep_view())
    &&& e.record.cpu_arch.deep_view() == spec_mach_arch_name(v.cputype)
    &&& e.record.cpu_subtype.deep_view() == spec_mach_subtype_name(v.cputype, v.cpusubtype)
    &&& e.record.linker_or_interpreter is None
    &&& e.record.linked_libraries.deep_view() == spec_filter_self(v.libs.deep_view())
}

/// Extracts the record of a single Mach-O image.
pub fn extract_macho(file_name: &str, path: &Vec<String>, v: &MachOView) -> (e: ResultEntry)
    ensures
        entry_wf(e),
        mach_entry(e, file_name@, path.deep_view(), *v),
{
    let os_name = match find_os_mach(v) {
        Some(o) => Some(o.name()),
        None => None,
    };
    let object_kind = match mach_filetype(v.filetype) {
        Some(t) => Some(t.name()),
        None => None,
    };
    let (cpu_arch, cpu_subtype) = match mach_cputype(v.cputype) {
        Some(ct) => {
            let subtype = match ct {
                MachOCpuType::ARM | MachOCpuType::ARM64 => match mach_arm_subtype(v.cpusubtype) {
                    Some(s) => Some(s.name()),
                    None => None,
                },
                MachOCpuType::X86 | MachOCpuType::X86_64 => match mach_x86_subtype(v.cpusubtype) {
                    Some(s) => Some(s.name()),
                    None => None,
                },
                _ => None,
            };
            (Some(ct.name()), subtype)
        },
        None => (None, None),
    };
    let is_stripped = !mach_has_debug_symbol(&v.symbol_names);
    ResultEntry {
        error: ParsingError { code: 0, explanation: None },
        record: ParsedObjectRecord {
            name: file_name.to_owned(),
            containment_path: clone_strings(path),
            format: Some("Mach-O".to_owned()),
            is_64bit: v.is_64,
            os_name,
            object_kind,
            is_stripped,
            cpu_arch,
            cpu_subtype,
            linker_or_interpreter: None,
            linked_libraries: filter_self_libs(&v.libs),
        },
    }
}

} // verus!
