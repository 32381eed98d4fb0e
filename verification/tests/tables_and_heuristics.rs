use unildd::heur::{find_linux_vdso, find_os_elf, find_os_mach, find_os_pe};
use unildd::types::{
    elf_machine, elf_type, mach_arm_subtype, mach_cputype, mach_filetype, mach_platform,
    mach_x86_subtype, pe_arch, pe_subsystem, ElfFileType, ElfInstructionSet, ElfOS,
    MachOArmSubType, MachOCpuSubType, MachOCpuType, MachOFileType, MachOOs, MachOX86SubType,
    PeArch, PeOS, PeSubsystem,
};
use unildd::views::{ElfView, MachOView, PeOptView, PeView};

fn elf_view_with_tables(strtab: Vec<&str>, shdr: Vec<&str>, dynstr: Vec<&str>) -> ElfView {
    ElfView {
        is_64: true,
        e_type: 0x02,
        e_machine: 0x3E,
        interpreter: None,
        syms_is_empty: true,
        libraries: Vec::new(),
        strtab: strtab.into_iter().map(String::from).collect(),
        shdr_strtab: shdr.into_iter().map(String::from).collect(),
        dynstrtab: dynstr.into_iter().map(String::from).collect(),
    }
}

#[test]
fn elf_machine_table() {
    assert!(matches!(elf_machine(0x3E), Some(ElfInstructionSet::X86_64)));
    assert!(matches!(elf_machine(0xB7), Some(ElfInstructionSet::Arm64)));
    assert!(matches!(elf_machine(0x0B), Some(ElfInstructionSet::FutureUse)));
    assert!(matches!(elf_machine(0x101), Some(ElfInstructionSet::WDC65C816)));
    assert!(elf_machine(0x1A).is_none());
    assert_eq!(ElfInstructionSet::X86_64.name(), "x86-64");
    assert_eq!(ElfInstructionSet::MCSTElbrusE2k.name(), "MCST Elbrus e2k");
}

#[test]
fn elf_type_table() {
    assert!(matches!(elf_type(0x02), Some(ElfFileType::Executable)));
    assert!(matches!(elf_type(0xFEFF), Some(ElfFileType::OsSpecific)));
    assert!(matches!(elf_type(0xFF00), Some(ElfFileType::ProcessorSpecific)));
    assert!(elf_type(0x05).is_none());
    assert_eq!(ElfFileType::Relocatable.name(), "Object file");
    assert_eq!(ElfFileType::SharedObject.name(), "Shared object");
}

#[test]
fn elf_os_abi_direct_lookups() {
    let v = elf_view_with_tables(vec![], vec![], vec![]);
    assert!(matches!(find_os_elf(&v, 0x01), Some(ElfOS::HPUX)));
    assert!(matches!(find_os_elf(&v, 0x03), Some(ElfOS::Linux)));
    assert!(matches!(find_os_elf(&v, 0x09), Some(ElfOS::FreeBSD)));
    assert!(matches!(find_os_elf(&v, 0x12), Some(ElfOS::OpenVOS)));
    assert!(find_os_elf(&v, 0x13).is_none());
    assert!(find_os_elf(&v, 0x00).is_none());
    assert_eq!(ElfOS::AIXMonterey.name(), "AIX (Monterey)");
    assert_eq!(ElfOS::CloudABI.name(), "Nuxi CloudABI");
}

#[test]
fn elf_scan_is_case_insensitive_and_prioritized() {
    let v = elf_view_with_tables(vec!["GLIBC_2.17"], vec![], vec![]);
    assert!(matches!(find_os_elf(&v, 0x00), Some(ElfOS::Linux)));
    // FreeBSD outranks the Linux substrings wherever both occur.
    let v = elf_view_with_tables(vec!["glibc"], vec!["libc-FBSD"], vec![]);
    assert!(matches!(find_os_elf(&v, 0x00), Some(ElfOS::FreeBSD)));
    // OpenBSD outranks NetBSD; the scan also serves OS/ABI 0x06.
    let v = elf_view_with_tables(vec![], vec!["netbsd", "OpenBSD"], vec![]);
    assert!(matches!(find_os_elf(&v, 0x06), Some(ElfOS::OpenBSD)));
    let v = elf_view_with_tables(vec![], vec![], vec!["ILLUMOS-libc"]);
    assert!(matches!(find_os_elf(&v, 0x00), Some(ElfOS::Illumos)));
}

#[test]
fn elf_scan_falls_back_to_interpreter_for_serenity() {
    let mut v = elf_view_with_tables(vec![], vec![], vec![]);
    v.interpreter = Some("/usr/lib/Loader.so".to_string());
    assert!(matches!(find_os_elf(&v, 0x00), Some(ElfOS::SerenityOS)));
    // The interpreter match is case-sensitive.
    v.interpreter = Some("/usr/lib/loader.so".to_string());
    assert!(find_os_elf(&v, 0x00).is_none());
}

#[test]
fn linux_vdso_table() {
    assert_eq!(find_linux_vdso(0x3E, true), Some("linux-vdso.so.1"));
    assert_eq!(find_linux_vdso(0x03, false), Some("linux-vdso.so.1"));
    assert_eq!(find_linux_vdso(0x2A, false), Some("linux-gate.so.1"));
    assert_eq!(find_linux_vdso(0x16, true), Some("linux-vdso64.so.1"));
    assert_eq!(find_linux_vdso(0x16, false), Some("linux-vdso32.so.1"));
    assert_eq!(find_linux_vdso(0x15, false), Some("linux-vdso64.so.1"));
    assert_eq!(find_linux_vdso(0x28, false), Some("linux-vdso32.so.1"));
    assert_eq!(find_linux_vdso(0xF7, true), None);
}

#[test]
fn pe_arch_table() {
    assert!(matches!(pe_arch(0x8664), Some(PeArch::X64)));
    assert!(matches!(pe_arch(0xAA64), Some(PeArch::ARM64)));
    assert!(matches!(pe_arch(0x0000), Some(PeArch::Unknown)));
    assert!(pe_arch(0x1234).is_none());
    assert_eq!(PeArch::EBC.name(), "EFI bytecode");
    assert_eq!(PeArch::AXP64.name(), "Alpha 64 (64-Bit)");
}

#[test]
fn pe_subsystem_table_and_os() {
    assert!(matches!(pe_subsystem(0x000B), Some(PeSubsystem::EFIBootServiceDriver)));
    assert!(pe_subsystem(0x0004).is_none());
    assert_eq!(PeSubsystem::WindowsBootApplication.name(), "Windows boot application.");
    assert_eq!(PeOS::UEFI.name(), "UEFI");

    let with_subsystem = |subsystem: u16| PeView {
        is_64: false,
        machine: 0x014C,
        characteristics: 0,
        optional_header: Some(PeOptView { subsystem, os_major: 4, os_minor: 0 }),
        libraries: Vec::new(),
    };
    assert!(matches!(find_os_pe(&with_subsystem(0x000E)), Some(PeOS::Xbox)));
    assert!(matches!(find_os_pe(&with_subsystem(0x000A)), Some(PeOS::UEFI)));
    assert!(matches!(find_os_pe(&with_subsystem(0x0002)), Some(PeOS::Windows)));
    assert!(matches!(find_os_pe(&with_subsystem(0x0001)), Some(PeOS::Windows)));
    assert!(find_os_pe(&with_subsystem(0x0000)).is_none());
    assert!(find_os_pe(&with_subsystem(0x0004)).is_none());
    let headerless = PeView {
        is_64: false,
        machine: 0x014C,
        characteristics: 0,
        optional_header: None,
        libraries: Vec::new(),
    };
    assert!(find_os_pe(&headerless).is_none());
}

#[test]
fn mach_cputype_table() {
    assert!(matches!(mach_cputype(0x01000007), Some(MachOCpuType::X86_64)));
    assert!(matches!(mach_cputype(0x0100000C), Some(MachOCpuType::ARM64)));
    assert!(matches!(mach_cputype(0x12), Some(MachOCpuType::PPC)));
    assert!(mach_cputype(0x03).is_none());
    assert_eq!(MachOCpuType::HPPA.name(), "HP-PA");
    assert_eq!(MachOCpuType::I860Be.name(), "i860 (Big-endian)");
}

#[test]
fn mach_subtype_tables() {
    assert!(matches!(mach_arm_subtype(0x0D), Some(MachOArmSubType::V8OrNewer)));
    assert!(mach_arm_subtype(0x11).is_none());
    assert!(matches!(mach_x86_subtype(0x84), Some(MachOX86SubType::I486SXOrNewer)));
    assert!(mach_x86_subtype(0x00).is_none());
    assert_eq!(MachOArmSubType::V7SSwiftOrNewer.name(), "ARM-V7S (Swift) or newer");
    assert_eq!(MachOX86SubType::XeonMPOrNewer.name(), "XEON-MP or newer");
    assert_eq!(
        MachOCpuSubType::Arm(MachOArmSubType::All).name(),
        "All ARM processors"
    );
    assert_eq!(
        MachOCpuSubType::X86(MachOX86SubType::All).name(),
        "All x86 processors"
    );
}

#[test]
fn mach_filetype_and_platform_tables() {
    assert!(matches!(mach_filetype(0x02), Some(MachOFileType::DemandPagedExecutableFile)));
    assert!(matches!(mach_filetype(0x06), Some(MachOFileType::DynamicallyBoundSharedLibraryFile)));
    assert!(mach_filetype(0x0D).is_none());
    assert_eq!(MachOFileType::DynamicLinkEditor.name(), "Dynamic link editor");
    assert!(matches!(mach_platform(0x01), Some(MachOOs::MacOS)));
    assert!(matches!(mach_platform(0x0C), Some(MachOOs::AppleVisionProSimulator)));
    assert!(mach_platform(0x0D).is_none());
    assert_eq!(MachOOs::DriverKit.name(), "Driver KIT");
}

#[test]
fn mach_os_uses_first_build_version_command() {
    let view = |platforms: Vec<Option<u32>>| MachOView {
        is_64: true,
        cputype: 0x0100000C,
        cpusubtype: 0,
        filetype: 0x02,
        build_platforms: platforms,
        symbol_names: Vec::new(),
        libs: Vec::new(),
    };
    assert!(find_os_mach(&view(vec![])).is_none());
    assert!(find_os_mach(&view(vec![None, None])).is_none());
    assert!(matches!(find_os_mach(&view(vec![None, Some(0x06), Some(0x01)])), Some(MachOOs::MacCatalyst)));
    // An unknown platform in the first build-version command resolves nothing.
    assert!(find_os_mach(&view(vec![Some(0xFF), Some(0x01)])).is_none());
}
