//! The OS and architecture heuristics: pure functions from a format view to
//! a resolved OS, including the string-table scan that ELF needs where its
//! OS/ABI byte leaves the target unspecified.

use vstd::prelude::*;
use vstd::string::StrSliceExecFns;
use crate::strutil::{ci_contains, contains_sub, str_contains, str_contains_ci};
use crate::types::{ElfOS, MachOOs, PeOS, PeSubsystem, spec_mach_platform, mach_platform};
use crate::views::{ElfView, MachOView, PeView};

verus! {

/// Decides whether two string slices hold the same characters.
pub fn str_eq(a: &str, b: &str) -> (r: bool)
    ensures
        r == (a@ == b@),
{
    let a_len = a.unicode_len();
    let b_len = b.unicode_len();
    if a_len != b_len {
        return false;
    }
    let mut i: usize = 0;
    while i < a_len
        invariant
            a_len == a@.len(),
            b_len == b@.len(),
            a_len == b_len,
            i <= a_len,
            forall|k: int| 0 <= k < i ==> a@[k] == b@[k],
        decreases a_len - i,
    {
        if a.get_char(i) != b.get_char(i) {
            assert(a@[i as int] != b@[i as int]);
            return false;
        }
        i = i + 1;
    }
    proof {
        assert(a@ =~= b@);
    }
    true
}

/// Some entry of the table contains the pattern, ASCII-case-insensitively.
pub open spec fn any_contains_ci(tab: Seq<Seq<char>>, pat: Seq<char>) -> bool {
    exists|i: int| 0 <= i < tab.len() && ci_contains(tab[i], pat)
}

/// Decides whether some entry of `tab` contains `pat`,
/// ASCII-case-insensitively.
pub fn table_contains_ci(tab: &Vec<String>, pat: &str) -> (r: bool)
    ensures
        r == any_contains_ci(tab.deep_view(), pat@),
{
    let mut i: usize = 0;
    while i < tab.len()
        invariant
            i <= tab@.len(),
            forall|k: int| 0 <= k < i ==> !ci_contains(tab.deep_view()[k], pat@),
        decreases tab@.len() - i,
    {
        if str_contains_ci(tab[i].as_str(), pat) {
            assert(ci_contains(tab.deep_view()[i as int], pat@));
            return true;
        }
        i = i + 1;
    }
    false
}

/// One of the three ELF string tables has an entry containing the pattern,
/// ASCII-case-insensitively.
pub open spec fn elf_tables_contain(v: ElfView, pat: Seq<char>) -> bool {
    ||| any_contains_ci(v.strtab.deep_view(), pat)
    ||| any_contains_ci(v.shdr_strtab.deep_view(), pat)
    ||| any_contains_ci(v.dynstrtab.deep_view(), pat)
}

/// Decides whether one of the three ELF string tables has an entry
/// containing `pat`, ASCII-case-insensitively.
pub fn find_os_from_strtab_elf(v: &ElfView, pat: &str) -> (r: bool)
    ensures
        r == elf_tables_contain(*v, pat@),
{
    table_contains_ci(&v.strtab, pat) || table_contains_ci(&v.shdr_strtab, pat)
        || table_contains_ci(&v.dynstrtab, pat)
}

/// The OS the string-table scan resolves, trying each known substring in
/// fixed priority order and falling back to the interpreter name.
pub open spec fn spec_scan_os(v: ElfView) -> Option<ElfOS> {
    if elf_tables_contain(v, "fbsd"@) {
        Some(ElfOS::FreeBSD)
    } else if elf_tables_contain(v, "openbsd"@) {
        Some(ElfOS::OpenBSD)
    } else if elf_tables_contain(v, "musl"@) || elf_tables_contain(v, "glibc"@)
        || elf_tables_contain(v, "linux"@) {
        Some(ElfOS::Linux)
    } else if elf_tables_contain(v, "android"@) {
        Some(ElfOS::Android)
    } else if elf_tables_contain(v, "netbsd"@) {
        Some(ElfOS::NetBSD)
    } else if elf_tables_contain(v, "solaris"@) {
        Some(ElfOS::Solaris)
    } else if elf_tables_contain(v, "illumos"@) {
        Some(ElfOS::Illumos)
    } else if v.interpreter matches Some(interp) && contains_sub(interp@, "Loader.so"@) {
        Some(ElfOS::SerenityOS)
    } else {
        None
    }
}

/// The OS an ELF image targets: a direct table lookup for the OS/ABI bytes
/// that state it, the string-table scan where the byte leaves it unspecified
/// (0x00) or names the Solaris family ambiguously (0x06).
pub open spec fn spec_find_os_elf(v: ElfView, os_abi: u8) -> Option<ElfOS> {
    match os_abi {
        0x00 | 0x06 => spec_scan_os(v),
        0x01 => Some(ElfOS::HPUX),
        0x02 => Some(ElfOS::NetBSD),
        0x03 => Some(ElfOS::Linux),
        0x04 => Some(ElfOS::GNUHurd),
        0x07 => Some(ElfOS::AIXMonterey),
        0x08 => Some(ElfOS::IRIX),
        0x09 => Some(ElfOS::FreeBSD),
        0x0A => Some(ElfOS::Tru64),
        0x0B => Some(ElfOS::NovellModesto),
        0x0C => Some(ElfOS::OpenBSD),
        0x0D => Some(ElfOS::OpenVMS),
        0x0E => Some(ElfOS::NonStopKernel),
        0x0F => Some(ElfOS::AROS),
        0x10 => Some(ElfOS::FenixOS),
        0x11 => Some(ElfOS::CloudABI),
        0x12 => Some(ElfOS::OpenVOS),
        _ => None,
    }
}

/// Resolves the OS an ELF image targets from its OS/ABI byte and, where that
/// is unspecific, the string-table scan.
pub fn find_os_elf(v: &ElfView, os_abi: u8) -> (r: Option<ElfOS>)
    ensures
        r == spec_find_os_elf(*v, os_abi),
{
    match os_abi {
        0x00 | 0x06 => {
            if find_os_from_strtab_elf(v, "fbsd") {
                Some(ElfOS::FreeBSD)
            } else if find_os_from_strtab_elf(v, "openbsd") {
                Some(ElfOS::OpenBSD)
            } else if find_os_from_strtab_elf(v, "musl") || find_os_from_strtab_elf(v, "glibc")
                || find_os_from_strtab_elf(v, "linux") {
                Some(ElfOS::Linux)
            } else if find_os_from_strtab_elf(v, "android") {
                Some(ElfOS::Android)
            } else if find_os_from_strtab_elf(v, "netbsd") {
                Some(ElfOS::NetBSD)
            } else if find_os_from_strtab_elf(v, "solaris") {
                Some(ElfOS::Solaris)
            } else if find_os_from_strtab_elf(v, "illumos") {
                Some(ElfOS::Illumos)
            } else {
                match &v.interpreter {
                    Some(interp) => {
                        if str_contains(interp.as_str(), "Loader.so") {
                            Some(ElfOS::SerenityOS)
                        } else {
                            None
                        }
                    },
                    None => None,
                }
            }
        },
        0x01 => Some(ElfOS::HPUX),
        0x02 => Some(ElfOS::NetBSD),
        0x03 => Some(ElfOS::Linux),
        0x04 => Some(ElfOS::GNUHurd),
        0x07 => Some(ElfOS::AIXMonterey),
        0x08 => Some(ElfOS::IRIX),
        0x09 => Some(ElfOS::FreeBSD),
        0x0A => Some(ElfOS::Tru64),
        0x0B => Some(ElfOS::NovellModesto),
        0x0C => Some(ElfOS::OpenBSD),
        0x0D => Some(ElfOS::OpenVMS),
        0x0E => Some(ElfOS::NonStopKernel),
        0x0F => Some(ElfOS::AROS),
        0x10 => Some(ElfOS::FenixOS),
        0x11 => Some(ElfOS::CloudABI),
        0x12 => Some(ElfOS::OpenVOS),
        _ => None,
    }
}

/// The virtual-DSO name the Linux kernel injects for a machine code and bit
/// width, where one is known.
pub open spec fn spec_linux_vdso(e_machine: u16, is_64: bool) -> Option<Seq<char>> {
    match e_machine {
        0x3E | 0x03 | 0xF3 | 0x08 | 0xB7 => Some("linux-vdso.so.1"@),
        0x2A | 0x32 => Some("linux-gate.so.1"@),
        0x16 => if is_64 {
            Some("linux-vdso64.so.1"@)
        } else {
            Some("linux-vdso32.so.1"@)
        },
        0x15 => Some("linux-vdso64.so.1"@),
        0x14 | 0x28 => Some("linux-vdso32.so.1"@),
        _ => None,
    }
}

/// Looks up the virtual-DSO name the Linux kernel injects for this machine
/// code and bit width, if one is known.
pub fn find_linux_vdso(e_machine: u16, bit_type: bool) -> (r: Option<&'static str>)
    ensures
        r.deep_view() == spec_linux_vdso(e_machine, bit_type),
{
    match e_machine {
        0x3E | 0x03 | 0xF3 | 0x08 | 0xB7 => Some("linux-vdso.so.1"),
        0x2A | 0x32 => Some("linux-gate.so.1"),
        0x16 => if bit_type {
            Some("linux-vdso64.so.1")
        } else {
            Some("linux-vdso32.so.1")
        },
        0x15 => Some("linux-vdso64.so.1"),
        0x14 | 0x28 => Some("linux-vdso32.so.1"),
        _ => None,
    }
}

/// The OS a PE subsystem resolves to: the Xbox subsystem names Xbox, the
/// four EFI subsystems name UEFI, the Windows-hosted subsystems name
/// Windows, and the unknown subsystem names nothing.
pub open spec fn spec_pe_os_of_subsystem(s: PeSubsystem) -> Option<PeOS> {
    match s {
        PeSubsystem::Xbox => Some(PeOS::Xbox),
        PeSubsystem::EFIApplication => Some(PeOS::UEFI),
        PeSubsystem::EFIBootServiceDriver => Some(PeOS::UEFI),
        PeSubsystem::EFIRom => Some(PeOS::UEFI),
        PeSubsystem::EFIRuntimeDriver => Some(PeOS::UEFI),
        PeSubsystem::WindowsCUI => Some(PeOS::Windows),
        PeSubsystem::WindowsGUI => Some(PeOS::Windows),
        PeSubsystem::Native => Some(PeOS::Windows),
        PeSubsystem::OS2CUI => Some(PeOS::Windows),
        PeSubsystem::PosixCUI => Some(PeOS::Windows),
        PeSubsystem::NativeWindows => Some(PeOS::Windows),
        PeSubsystem::WindowsCEGUI => Some(PeOS::Windows),
        PeSubsystem::WindowsBootApplication => Some(PeOS::Windows),
        PeSubsystem::Unknown => None,
    }
}

/// The OS a PE image targets, resolved through its optional header's
/// subsystem; absent without an optional header, for an unmapped subsystem
/// code and for the unknown subsystem.
pub open spec fn spec_find_os_pe(v: PeView) -> Option<PeOS> {
    match v.optional_header {
        Some(h) => match crate::types::spec_pe_subsystem(h.subsystem) {
            Some(sub) => spec_pe_os_of_subsystem(sub),
            None => None,
        },
        None => None,
    }
}

/// Resolves the OS a PE image targets from its subsystem.
pub fn find_os_pe(v: &PeView) -> (r: Option<PeOS>)
    ensures
        r == spec_find_os_pe(*v),
{
    match &v.optional_header {
        Some(h) => match crate::types::pe_subsystem(h.subsystem) {
            Some(sub) => match sub {
                PeSubsystem::Xbox => Some(PeOS::Xbox),
                PeSubsystem::EFIApplication => Some(PeOS::UEFI),
                PeSubsystem::EFIBootServiceDriver => Some(PeOS::UEFI),
                PeSubsystem::EFIRom => Some(PeOS::UEFI),
                PeSubsystem::EFIRuntimeDriver => Some(PeOS::UEFI),
                PeSubsystem::WindowsCUI => Some(PeOS::Windows),
                PeSubsystem::WindowsGUI => Some(PeOS::Windows),
                PeSubsystem::Native => Some(PeOS::Windows),
                PeSubsystem::OS2CUI => Some(PeOS::Windows),
                PeSubsystem::PosixCUI => Some(PeOS::Windows),
                PeSubsystem::NativeWindows => Some(PeOS::Windows),
                PeSubsystem::WindowsCEGUI => Some(PeOS::Windows),
                PeSubsystem::WindowsBootApplication => Some(PeOS::Windows),
                PeSubsystem::Unknown => None,
            },
            None => None,
        },
        None => None,
    }
}

/// The platform of the first build-version load command in the list, if any
/// command is one.
pub open spec fn first_build_platform(cmds: Seq<Option<u32>>) -> Option<u32>
    decreases cmds.len(),
{
    if cmds.len() == 0 {
        None
    } else if cmds[0] is Some {
        cmds[0]
    } else {
        first_build_platform(cmds.drop_first())
    }
}

/// Skipping a prefix of commands that are not build-version commands leaves
/// the first build platform unchanged.
proof fn lemma_first_platform_skip(cmds: Seq<Option<u32>>, i: int)
    requires
        0 <= i <= cmds.len(),
        forall|k: int| 0 <= k < i ==> cmds[k] is None,
    ensures
        first_build_platform(cmds) == first_build_platform(cmds.skip(i)),
    decreases i,
{
    if i > 0 {
        assert(cmds[0] is None);
        lemma_first_platform_skip(cmds.drop_first(), i - 1);
        assert(cmds.drop_first().skip(i - 1) =~= cmds.skip(i));
    } else {
        assert(cmds.skip(0) =~= cmds);
    }
}

/// The OS a Mach-O image targets: the platform of its first build-version
/// load command, mapped through the platform table; absent without such a
/// command or for an unknown platform value.
pub open spec fn spec_find_os_mach(v: MachOView) -> Option<MachOOs> {
    match first_build_platform(v.build_platforms@) {
        Some(p) => spec_mach_platform(p),
        None => None,
    }
}

/// Resolves the OS a Mach-O image targets from its build-version command.
pub fn find_os_mach(v: &MachOView) -> (r: Option<MachOOs>)
    ensures
        r == spec_find_os_mach(*v),
{
    let ghost all = v.build_platforms@;
    let mut i: usize = 0;
    while i < v.build_platforms.len()
        invariant
            all == v.build_platforms@,
            i <= all.len(),
            forall|k: int| 0 <= k < i ==> all[k] is None,
        decreases all.len() - i,
    {
        match v.build_platforms[i] {
            Some(p) => {
                proof {
                    lemma_first_platform_skip(all, i as int);
                    let rest = all.skip(i as int);
                    assert(rest.len() > 0);
                    assert(rest[0] == all[i as int]);
                    assert(rest[0] is Some);
                    assert(first_build_platform(rest) == rest[0]);
                    assert(first_build_platform(all) == Some(p));
                }
                return mach_platform(p);
            },
            None => {},
        }
        i = i + 1;
    }
    proof {
        lemma_first_platform_skip(all, all.len() as int);
        assert(all.skip(all.len() as int).len() == 0);
    }
    None
}

/// Some readable symbol name contains the substring "debug": the image then
/// still carries debug information and is not stripped.
pub open spec fn spec_mach_has_debug_symbol(names: Seq<Option<Seq<char>>>) -> bool {
    exists|i: int|
        0 <= i < names.len() && (#[trigger] names[i] matches Some(n) && contains_sub(n, "debug"@))
}

/// Decides whether some readable symbol name contains "debug".
pub fn mach_has_debug_symbol(names: &Vec<Option<String>>) -> (r: bool)
    ensures
        r == spec_mach_has_debug_symbol(names.deep_view()),
{
    let mut i: usize = 0;
    while i < names.len()
        invariant
            i <= names@.len(),
            forall|k: int|
                0 <= k < i ==> !(#[trigger] names.deep_view()[k] matches Some(n) && contains_sub(
                    n,
                    "debug"@,
                )),
        decreases names@.len() - i,
    {
        match &names[i] {
            Some(name) => {
                if str_contains(name.as_str(), "debug") {
                    assert(names.deep_view()[i as int] matches Some(n) && contains_sub(
                        n,
                        "debug"@,
                    ));
                    return true;
                }
            },
            None => {},
        }
        i = i + 1;
    }
    false
}

/// The library list with every self-referential entry removed.
pub open spec fn spec_filter_self(libs: Seq<Seq<char>>) -> Seq<Seq<char>> {
    libs.filter(|s: Seq<char>| s != "self"@)
}

/// Removes every self-referential entry from the library list.
pub fn filter_self_libs(libs: &Vec<String>) -> (r: Vec<String>)
    ensures
        r.deep_view() == spec_filter_self(libs.deep_view()),
{
    let ghost all = libs.deep_view();
    let ghost pred = |s: Seq<char>| s != "self"@;
    let mut r: Vec<String> = Vec::new();
    let mut i: usize = 0;
    proof {
        reveal(Seq::filter);
        assert(all.take(0) =~= Seq::<Seq<char>>::empty());
        assert(r.deep_view() =~= all.take(0).filter(pred));
    }
    while i < libs.len()
        invariant
            all == libs.deep_view(),
            pred == (|s: Seq<char>| s != "self"@),
            i <= all.len(),
            r.deep_view() == all.take(i as int).filter(pred),
        decreases all.len() - i,
    {
        let keep = !str_eq(libs[i].as_str(), "self");
        proof {
            reveal(Seq::filter);
            assert(all.take(i + 1).drop_last() =~= all.take(i as int));
            assert(all.take(i + 1).last() == all[i as int]);
        }
        if keep {
            r.push(libs[i].clone());
            proof {
                assert(pred(all[i as int]));
                assert(r.deep_view() =~= all.take(i as int).filter(pred).push(all[i as int]));
                assert(all.take(i + 1).filter(pred) =~= all.take(i as int).filter(pred).push(
                    all[i as int],
                ));
            }
        } else {
            proof {
                assert(!pred(all[i as int]));
                assert(all.take(i + 1).filter(pred) =~= all.take(i as int).filter(pred));
            }
        }
        i = i + 1;
    }
    proof {
        assert(all.take(all.len() as int) =~= all);
    }
    r
}

} // verus!
