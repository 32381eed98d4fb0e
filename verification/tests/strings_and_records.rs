use unildd::errors::{
    failure_code, magic_code, unknown_magic_entry, unsupported_entry, Failure, FailureKind,
    UNIMPLEMENTED_FORMAT_CODE,
};
use unildd::records::{absent_record, ResultCollection};
use unildd::strutil::{
    build_slice_label, build_unknown_magic_msg, build_unsupported_msg, build_version,
    debug_objects, merge_members, push_dec, push_hex_byte, push_magic_hex,
};

#[test]
fn merge_members_empty_path_is_empty() {
    let names: Vec<String> = Vec::new();
    assert_eq!(merge_members(&names), "");
}

#[test]
fn merge_members_joins_outer_to_inner() {
    let names = vec!["outer.a".to_string(), "inner.a".to_string()];
    assert_eq!(merge_members(&names), " (Member of: outer.a -> inner.a)");
}

#[test]
fn merge_members_single_name() {
    let names = vec!["lib.a".to_string()];
    assert_eq!(merge_members(&names), " (Member of: lib.a)");
}

#[test]
fn debug_objects_line() {
    let names = vec!["lib.a".to_string()];
    let line = debug_objects("member.o", &names, "an ELF binary");
    assert_eq!(
        line,
        "The binary named 'member.o' (Member of: lib.a) is an ELF binary"
    );
}

#[test]
fn decimal_rendering() {
    let mut s = String::new();
    push_dec(&mut s, 0);
    assert_eq!(s, "0");
    let mut s = String::new();
    push_dec(&mut s, 90210);
    assert_eq!(s, "90210");
    let mut s = String::new();
    push_dec(&mut s, u64::MAX);
    assert_eq!(s, "18446744073709551615");
}

#[test]
fn hex_rendering() {
    let mut s = String::new();
    push_hex_byte(&mut s, 0x0F);
    push_hex_byte(&mut s, 0xA0);
    assert_eq!(s, "0FA0");
    let mut s = String::new();
    push_magic_hex(&mut s, 0xDEADBEEF);
    assert_eq!(s, "00 00 00 00 DE AD BE EF");
}

#[test]
fn slice_labels_are_one_based_renderings() {
    assert_eq!(build_slice_label(1), "1. file");
    assert_eq!(build_slice_label(12), "12. file");
}

#[test]
fn version_rendering() {
    assert_eq!(build_version(6, 1), "6.1");
    assert_eq!(build_version(0, 0), "0.0");
}

#[test]
fn failure_codes_are_the_fixed_taxonomy() {
    assert_eq!(failure_code(FailureKind::Malformed), -1);
    assert_eq!(failure_code(FailureKind::BadMagic), -2);
    assert_eq!(failure_code(FailureKind::Scroll), -3);
    assert_eq!(failure_code(FailureKind::BufferTooShort), -4);
    assert_eq!(failure_code(FailureKind::Io), -5);
    assert_eq!(failure_code(FailureKind::Other), -6);
    assert_eq!(UNIMPLEMENTED_FORMAT_CODE, -7);
}

#[test]
fn magic_code_is_the_signed_reinterpretation() {
    assert_eq!(magic_code(0xDEADBEEF), 0xDEADBEEFi64);
    assert_eq!(magic_code(0), 0);
    assert_eq!(magic_code(u64::MAX), -1);
    assert_eq!(magic_code(0x8000000000000000), i64::MIN);
}

#[test]
fn unknown_magic_entry_reports_magic_and_rendering() {
    let path = vec!["outer.a".to_string()];
    let e = unknown_magic_entry("blob.bin", &path, 0xDEADBEEF);
    assert_eq!(e.error.code, 0xDEADBEEFi64);
    let msg = e.error.explanation.unwrap();
    assert_eq!(
        msg,
        "The binary named 'blob.bin' (Member of: outer.a) has a unknown magic number (in big-endian): 00 00 00 00 DE AD BE EF"
    );
    assert_eq!(e.record.name, "blob.bin");
    assert_eq!(e.record.containment_path, vec!["outer.a".to_string()]);
    assert!(e.record.format.is_none());
    assert!(e.record.os_name.is_none());
    assert!(!e.record.is_64bit);
    assert!(e.record.linked_libraries.is_empty());
}

#[test]
fn unsupported_entry_reports_minus_seven() {
    let e = unsupported_entry("odd.bin", &Vec::new());
    assert_eq!(e.error.code, -7);
    assert_eq!(
        e.error.explanation.unwrap(),
        "The executable format of the file named 'odd.bin' is not yet implemented"
    );
    assert!(e.record.format.is_none());
}

#[test]
fn failure_entry_keeps_format_and_text() {
    let f = Failure {
        kind: FailureKind::Malformed,
        text: "too short".to_string(),
    };
    let e = unildd::errors::failure_entry("m.o", &Vec::new(), f, Some("Archive".to_string()));
    assert_eq!(e.error.code, -1);
    assert_eq!(e.error.explanation.unwrap(), "too short");
    assert_eq!(e.record.format.as_deref(), Some("Archive"));
    assert!(e.record.object_kind.is_none());
}

#[test]
fn absent_record_keeps_name_path_format_only() {
    let path = vec!["outer".to_string(), "inner".to_string()];
    let r = absent_record("x", &path, Some("Mach-O".to_string()));
    assert_eq!(r.name, "x");
    assert_eq!(r.containment_path, path);
    assert_eq!(r.format.as_deref(), Some("Mach-O"));
    assert!(r.os_name.is_none());
    assert!(r.cpu_arch.is_none());
    assert!(r.cpu_subtype.is_none());
    assert!(r.linker_or_interpreter.is_none());
    assert!(!r.is_64bit);
    assert!(!r.is_stripped);
    assert!(r.linked_libraries.is_empty());
}

#[test]
fn release_round_trip_and_double_release() {
    let mut c = ResultCollection::produce(Vec::new());
    assert_eq!(c.len(), 0);
    assert_eq!(c.release(), 0);
    assert_eq!(c.release(), 1);
    assert_eq!(c.len(), 0);
}
