use unildd::extract::{extract_coff, extract_elf, extract_macho, extract_pe};
use unildd::views::{CoffView, ElfView, MachOView, PeOptView, PeView};

fn plain_elf_view() -> ElfView {
    ElfView {
        is_64: true,
        e_type: 0x03,
        e_machine: 0x3E,
        interpreter: Some("/lib64/ld-linux-x86-64.so.2".to_string()),
        syms_is_empty: true,
        libraries: vec!["libc.so.6".to_string()],
        strtab: Vec::new(),
        shdr_strtab: Vec::new(),
        dynstrtab: Vec::new(),
    }
}

#[test]
fn elf_glibc_dynstrtab_resolves_linux_and_gains_vdso() {
    let mut v = plain_elf_view();
    v.dynstrtab = vec!["GLIBC_2.2.5".to_string(), "libc.so.6".to_string()];
    let e = extract_elf("app", &Vec::new(), &v, 0x00);
    assert_eq!(e.error.code, 0);
    assert!(e.error.explanation.is_none());
    assert_eq!(e.record.os_name.as_deref(), Some("Linux"));
    assert_eq!(
        e.record.linked_libraries,
        vec!["libc.so.6".to_string(), "linux-vdso.so.1".to_string()]
    );
}

#[test]
fn elf_pie_heuristic_reports_executable() {
    let v = plain_elf_view();
    let e = extract_elf("app", &Vec::new(), &v, 0x00);
    // Type 0x03 with an interpreter present is reported as an executable.
    assert_eq!(e.record.object_kind.as_deref(), Some("Executable"));
    let mut without_interp = plain_elf_view();
    without_interp.interpreter = None;
    let e = extract_elf("app", &Vec::new(), &without_interp, 0x00);
    assert_eq!(e.record.object_kind.as_deref(), Some("Shared object"));
}

#[test]
fn elf_record_fields() {
    let v = plain_elf_view();
    let path = vec!["outer.a".to_string()];
    let e = extract_elf("app", &path, &v, 0x03);
    assert_eq!(e.record.name, "app");
    assert_eq!(e.record.containment_path, path);
    assert_eq!(e.record.format.as_deref(), Some("ELF"));
    assert!(e.record.is_64bit);
    assert_eq!(e.record.os_name.as_deref(), Some("Linux"));
    assert!(e.record.is_stripped);
    assert_eq!(e.record.cpu_arch.as_deref(), Some("x86-64"));
    assert!(e.record.cpu_subtype.is_none());
    assert_eq!(
        e.record.linker_or_interpreter.as_deref(),
        Some("/lib64/ld-linux-x86-64.so.2")
    );
}

#[test]
fn elf_unknown_machine_has_absent_arch_and_no_vdso() {
    let mut v = plain_elf_view();
    v.e_machine = 0x1A;
    v.dynstrtab = vec!["glibc".to_string()];
    let e = extract_elf("app", &Vec::new(), &v, 0x00);
    assert!(e.record.cpu_arch.is_none());
    assert_eq!(e.record.os_name.as_deref(), Some("Linux"));
    assert_eq!(e.record.linked_libraries, vec!["libc.so.6".to_string()]);
}

#[test]
fn pe_efi_boot_service_driver_resolves_uefi() {
    let v = PeView {
        is_64: true,
        machine: 0x8664,
        characteristics: 0x0200,
        optional_header: Some(PeOptView { subsystem: 0x000B, os_major: 6, os_minor: 1 }),
        libraries: vec!["efi.lib".to_string()],
    };
    let e = extract_pe("boot.efi", &Vec::new(), &v);
    assert_eq!(e.error.code, 0);
    assert_eq!(e.record.os_name.as_deref(), Some("UEFI"));
    assert_eq!(
        e.record.object_kind.as_deref(),
        Some("EFI driver with boot services")
    );
    assert_eq!(e.record.format.as_deref(), Some("PE32+"));
    assert!(e.record.is_stripped);
    assert_eq!(e.record.cpu_arch.as_deref(), Some("x64"));
    assert_eq!(e.record.linker_or_interpreter.as_deref(), Some("6.1"));
    assert_eq!(e.record.linked_libraries, vec!["efi.lib".to_string()]);
}

#[test]
fn pe_without_optional_header_has_absent_fields() {
    let v = PeView {
        is_64: false,
        machine: 0x014C,
        characteristics: 0,
        optional_header: None,
        libraries: Vec::new(),
    };
    let e = extract_pe("w.exe", &Vec::new(), &v);
    assert_eq!(e.record.format.as_deref(), Some("PE32"));
    assert!(e.record.os_name.is_none());
    assert!(e.record.object_kind.is_none());
    assert!(e.record.linker_or_interpreter.is_none());
    assert!(!e.record.is_stripped);
    assert_eq!(e.record.cpu_arch.as_deref(), Some("Intel 386"));
}

#[test]
fn coff_is_always_a_windows_object_file() {
    let v = CoffView { machine: 0x8664, characteristics: 0x0200 };
    let e = extract_coff("obj.o", &Vec::new(), &v);
    assert_eq!(e.record.format.as_deref(), Some("COFF"));
    assert_eq!(e.record.os_name.as_deref(), Some("Windows"));
    assert_eq!(e.record.object_kind.as_deref(), Some("Windows object file"));
    assert!(e.record.is_64bit);
    assert!(e.record.is_stripped);
    assert!(e.record.linked_libraries.is_empty());
    // The 32-bit-machine characteristic flips the bit width.
    let v = CoffView { machine: 0x014C, characteristics: 0x0100 };
    let e = extract_coff("obj.o", &Vec::new(), &v);
    assert!(!e.record.is_64bit);
    assert!(!e.record.is_stripped);
}

#[test]
fn macho_families_and_debug_symbols() {
    let v = MachOView {
        is_64: true,
        cputype: 0x0100000C,
        cpusubtype: 0x00,
        filetype: 0x06,
        build_platforms: vec![None, Some(0x01)],
        symbol_names: vec![None, Some("radr_debug_info".to_string())],
        libs: vec!["self".to_string(), "libSystem.B.dylib".to_string()],
    };
    let e = extract_macho("lib.dylib", &Vec::new(), &v);
    assert_eq!(e.error.code, 0);
    assert_eq!(e.record.format.as_deref(), Some("Mach-O"));
    assert_eq!(e.record.os_name.as_deref(), Some("MacOS"));
    assert_eq!(e.record.object_kind.as_deref(), Some("Shared object"));
    assert_eq!(e.record.cpu_arch.as_deref(), Some("ARM64"));
    assert_eq!(e.record.cpu_subtype.as_deref(), Some("All ARM processors"));
    // A symbol name containing "debug" means the image is not stripped.
    assert!(!e.record.is_stripped);
    // The self-referential library entry is dropped.
    assert_eq!(e.record.linked_libraries, vec!["libSystem.B.dylib".to_string()]);
    assert!(e.record.linker_or_interpreter.is_none());
}

#[test]
fn macho_subtype_only_for_the_relevant_families() {
    let base = |cputype: u32, cpusubtype: u32| MachOView {
        is_64: false,
        cputype,
        cpusubtype,
        filetype: 0x02,
        build_platforms: Vec::new(),
        symbol_names: Vec::new(),
        libs: Vec::new(),
    };
    let e = extract_macho("a", &Vec::new(), &base(0x07, 0x03));
    assert_eq!(e.record.cpu_arch.as_deref(), Some("x86"));
    assert_eq!(e.record.cpu_subtype.as_deref(), Some("All x86 processors"));
    // PowerPC has no subtype table.
    let e = extract_macho("a", &Vec::new(), &base(0x12, 0x03));
    assert_eq!(e.record.cpu_arch.as_deref(), Some("PowerPC"));
    assert!(e.record.cpu_subtype.is_none());
    // An unknown CPU type leaves both absent.
    let e = extract_macho("a", &Vec::new(), &base(0x7777, 0x03));
    assert!(e.record.cpu_arch.is_none());
    assert!(e.record.cpu_subtype.is_none());
    // No symbols at all means stripped.
    assert!(e.record.is_stripped);
}
