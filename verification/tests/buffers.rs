use unildd::dispatch::read_objects;

fn minimal_elf64(os_abi: u8, e_type: u16, e_machine: u16) -> Vec<u8> {
    let mut b = vec![0u8; 64];
    b[0] = 0x7F;
    b[1] = b'E';
    b[2] = b'L';
    b[3] = b'F';
    b[4] = 2; // 64-bit
    b[5] = 1; // little-endian
    b[6] = 1; // version
    b[7] = os_abi;
    b[16..18].copy_from_slice(&e_type.to_le_bytes());
    b[18..20].copy_from_slice(&e_machine.to_le_bytes());
    b[20..24].copy_from_slice(&1u32.to_le_bytes());
    b[52..54].copy_from_slice(&64u16.to_le_bytes()); // ehsize
    b
}

fn thin_macho32_be(cputype: u32, cpusubtype: u32, filetype: u32) -> Vec<u8> {
    let mut b = Vec::new();
    b.extend_from_slice(&0xFEEDFACEu32.to_be_bytes());
    b.extend_from_slice(&cputype.to_be_bytes());
    b.extend_from_slice(&cpusubtype.to_be_bytes());
    b.extend_from_slice(&filetype.to_be_bytes());
    b.extend_from_slice(&0u32.to_be_bytes()); // ncmds
    b.extend_from_slice(&0u32.to_be_bytes()); // sizeofcmds
    b.extend_from_slice(&0u32.to_be_bytes()); // flags
    b
}

fn ar_member_header(name: &str, size: usize) -> Vec<u8> {
    let mut h = Vec::new();
    h.extend_from_slice(format!("{:<16}", name).as_bytes());
    h.extend_from_slice(format!("{:<12}", 0).as_bytes());
    h.extend_from_slice(format!("{:<6}", 0).as_bytes());
    h.extend_from_slice(format!("{:<6}", 0).as_bytes());
    h.extend_from_slice(format!("{:<8}", 644).as_bytes());
    h.extend_from_slice(format!("{:<10}", size).as_bytes());
    h.extend_from_slice(b"`\n");
    assert_eq!(h.len(), 60);
    h
}

#[test]
fn unknown_magic_yields_one_entry_with_magic_code() {
    let buf: Vec<u8> = vec![
        0xEF, 0xBE, 0xAD, 0xDE, 0, 0, 0, 0, 0, 0, 0, 0, 0, 0, 0, 0,
    ];
    let mut c = read_objects("mystery", &buf, false);
    assert_eq!(c.len(), 1);
    {
        let e = c.entry(0);
        assert_eq!(e.error.code, 0xDEADBEEFi64);
        assert!(e.record.format.is_none());
        assert_eq!(e.record.name, "mystery");
        assert!(e.record.containment_path.is_empty());
        let msg = e.error.explanation.as_deref().unwrap();
        assert_eq!(
            msg,
            "The binary named 'mystery' has a unknown magic number (in big-endian): 00 00 00 00 DE AD BE EF"
        );
    }
    // A collection this call produced is safely released exactly once.
    assert_eq!(c.release(), 0);
    assert_eq!(c.release(), 1);
}

#[test]
fn too_short_buffer_yields_one_error_entry() {
    let buf: Vec<u8> = vec![0x7F, b'E', b'L', b'F'];
    let mut c = read_objects("tiny", &buf, false);
    assert_eq!(c.len(), 1);
    {
        let e = c.entry(0);
        assert_eq!(e.error.code, -1); // malformed: too small to classify
        assert!(e.record.format.is_none());
        assert!(e.record.os_name.is_none());
    }
    assert_eq!(c.release(), 0);
}

#[test]
fn minimal_elf_is_classified_and_extracted() {
    let buf = minimal_elf64(0x00, 0x02, 0x3E);
    let mut c = read_objects("app", &buf, false);
    assert_eq!(c.len(), 1);
    {
        let e = c.entry(0);
        assert_eq!(e.error.code, 0);
        assert!(e.error.explanation.is_none());
        assert_eq!(e.record.format.as_deref(), Some("ELF"));
        assert!(e.record.is_64bit);
        assert_eq!(e.record.object_kind.as_deref(), Some("Executable"));
        assert_eq!(e.record.cpu_arch.as_deref(), Some("x86-64"));
        assert!(e.record.os_name.is_none()); // no string table names an OS
        assert!(e.record.is_stripped); // no symbols at all
        assert!(e.record.linked_libraries.is_empty());
        assert!(e.record.linker_or_interpreter.is_none());
    }
    assert_eq!(c.release(), 0);
}

#[test]
fn elf_os_abi_byte_is_honored() {
    let buf = minimal_elf64(0x09, 0x03, 0xB7);
    let mut c = read_objects("bsd", &buf, false);
    assert_eq!(c.len(), 1);
    {
        let e = c.entry(0);
        assert_eq!(e.error.code, 0);
        assert_eq!(e.record.os_name.as_deref(), Some("FreeBSD"));
        assert_eq!(e.record.cpu_arch.as_deref(), Some("Arm (64-Bit)"));
        // Shared-object type without an interpreter stays a shared object.
        assert_eq!(e.record.object_kind.as_deref(), Some("Shared object"));
    }
    assert_eq!(c.release(), 0);
}

#[test]
fn bare_coff_buffer_is_classified() {
    let mut buf = vec![0u8; 20];
    buf[0..2].copy_from_slice(&0x8664u16.to_le_bytes());
    buf[18..20].copy_from_slice(&0x0200u16.to_le_bytes()); // debug-stripped
    let mut c = read_objects("obj.o", &buf, false);
    assert_eq!(c.len(), 1);
    {
        let e = c.entry(0);
        assert_eq!(e.error.code, 0);
        assert_eq!(e.record.format.as_deref(), Some("COFF"));
        assert_eq!(e.record.os_name.as_deref(), Some("Windows"));
        assert_eq!(e.record.object_kind.as_deref(), Some("Windows object file"));
        assert_eq!(e.record.cpu_arch.as_deref(), Some("x64"));
        assert!(e.record.is_64bit);
        assert!(e.record.is_stripped);
    }
    assert_eq!(c.release(), 0);
}

#[test]
fn fat_macho_keeps_all_slices_after_one_failure() {
    // Three slice descriptors; the second one points past the buffer.
    let slice = thin_macho32_be(0x07, 0x03, 0x02);
    let mut buf = Vec::new();
    buf.extend_from_slice(&0xCAFEBABEu32.to_be_bytes());
    buf.extend_from_slice(&3u32.to_be_bytes());
    for offset in [68u32, 200, 96] {
        buf.extend_from_slice(&0x07u32.to_be_bytes()); // cputype
        buf.extend_from_slice(&0x03u32.to_be_bytes()); // cpusubtype
        buf.extend_from_slice(&offset.to_be_bytes());
        buf.extend_from_slice(&(slice.len() as u32).to_be_bytes());
        buf.extend_from_slice(&0u32.to_be_bytes()); // align
    }
    assert_eq!(buf.len(), 68);
    buf.extend_from_slice(&slice);
    buf.extend_from_slice(&slice);
    // Trailing padding: the decoder wants a full-width header's worth of
    // bytes after each slice offset, whatever the slice's own width.
    buf.extend_from_slice(&[0u8; 8]);
    assert_eq!(buf.len(), 132);

    let mut c = read_objects("universal", &buf, false);
    assert_eq!(c.len(), 3);
    for (i, expected_name) in ["1. file", "2. file", "3. file"].iter().enumerate() {
        let e = c.entry(i);
        assert_eq!(e.record.name, *expected_name);
        assert_eq!(e.record.containment_path, vec!["universal".to_string()]);
        assert_eq!(e.record.format.as_deref(), Some("Mach-O"));
    }
    {
        let good = c.entry(0);
        assert_eq!(good.error.code, 0);
        assert_eq!(good.record.cpu_arch.as_deref(), Some("x86"));
        assert_eq!(good.record.cpu_subtype.as_deref(), Some("All x86 processors"));
        assert_eq!(good.record.object_kind.as_deref(), Some("Executable"));
        assert!(good.record.linked_libraries.is_empty()); // only the self entry
        let bad = c.entry(1);
        assert!(bad.error.code < 0);
        assert!(bad.error.explanation.is_some());
        assert!(bad.record.os_name.is_none());
        let good = c.entry(2);
        assert_eq!(good.error.code, 0);
    }
    assert_eq!(c.release(), 0);
}

#[test]
fn archive_stops_at_the_first_extraction_failure() {
    // Member "b.o" claims more bytes than the archive holds, so extracting
    // it fails; members are visited in name order, so "a.o" is processed,
    // "b.o" appends the error entry, and "c.o" is never reached.
    let mut buf = Vec::new();
    buf.extend_from_slice(b"!<arch>\n");
    buf.extend_from_slice(&ar_member_header("a.o/", 16));
    buf.extend_from_slice(&[
        0xEF, 0xBE, 0xAD, 0xDE, 0, 0, 0, 0, 0, 0, 0, 0, 0, 0, 0, 0,
    ]);
    buf.extend_from_slice(&ar_member_header("c.o/", 4));
    buf.extend_from_slice(&[0, 0, 0, 0]);
    buf.extend_from_slice(&ar_member_header("b.o/", 9999));
    assert_eq!(buf.len(), 208);

    let mut c = read_objects("lib.a", &buf, false);
    assert_eq!(c.len(), 2);
    {
        let first = c.entry(0);
        assert_eq!(first.record.name, "a.o");
        assert_eq!(first.record.containment_path, vec!["lib.a".to_string()]);
        assert_eq!(first.error.code, 0xDEADBEEFi64);
        let failure = c.entry(1);
        assert_eq!(failure.record.name, "lib.a");
        assert_eq!(failure.record.containment_path, vec!["lib.a".to_string()]);
        assert_eq!(failure.record.format.as_deref(), Some("Archive"));
        assert!(failure.error.code < 0);
        assert!(failure.error.explanation.is_some());
    }
    assert_eq!(c.release(), 0);
}

#[test]
fn nested_archives_prefix_the_containment_path_outermost_first() {
    let mut inner = Vec::new();
    inner.extend_from_slice(b"!<arch>\n");
    inner.extend_from_slice(&ar_member_header("x.o/", 16));
    inner.extend_from_slice(&[
        0xEF, 0xBE, 0xAD, 0xDE, 0, 0, 0, 0, 0, 0, 0, 0, 0, 0, 0, 0,
    ]);
    assert_eq!(inner.len(), 84);
    let mut outer = Vec::new();
    outer.extend_from_slice(b"!<arch>\n");
    outer.extend_from_slice(&ar_member_header("inner.a/", inner.len()));
    outer.extend_from_slice(&inner);

    let mut c = read_objects("outer.a", &outer, false);
    assert_eq!(c.len(), 1);
    {
        let e = c.entry(0);
        assert_eq!(e.record.name, "x.o");
        assert_eq!(
            e.record.containment_path,
            vec!["outer.a".to_string(), "inner.a".to_string()]
        );
        assert_eq!(e.error.code, 0xDEADBEEFi64);
        let msg = e.error.explanation.as_deref().unwrap();
        assert_eq!(
            msg,
            "The binary named 'x.o' (Member of: outer.a -> inner.a) has a unknown magic number (in big-endian): 00 00 00 00 DE AD BE EF"
        );
    }
    assert_eq!(c.release(), 0);
}

#[test]
fn archive_of_valid_members_reports_each() {
    let elf = minimal_elf64(0x00, 0x02, 0x3E);
    let mut buf = Vec::new();
    buf.extend_from_slice(b"!<arch>\n");
    buf.extend_from_slice(&ar_member_header("app.o/", elf.len()));
    buf.extend_from_slice(&elf);
    let mut c = read_objects("one.a", &buf, false);
    assert_eq!(c.len(), 1);
    {
        let e = c.entry(0);
        assert_eq!(e.error.code, 0);
        assert_eq!(e.record.name, "app.o");
        assert_eq!(e.record.containment_path, vec!["one.a".to_string()]);
        assert_eq!(e.record.format.as_deref(), Some("ELF"));
    }
    assert_eq!(c.release(), 0);
}
