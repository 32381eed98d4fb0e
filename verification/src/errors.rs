//! The stable numeric error taxonomy: every decode failure reported by the
//! format-decoding collaborator maps to one of six fixed negative codes, and
//! two more conditions are detected by the dispatcher itself (an unknown
//! magic number, reported as the positive magic value, and a recognized but
//! unimplemented format, reported as -7).

use vstd::prelude::*;

verus! {

/// The kinds of failure the format-decoding collaborator can report,
/// mirrored one variant per collaborator error variant.
#[derive(Clone, Copy, Debug, PartialEq, Eq, Structural)]
pub enum FailureKind {
    /// The binary is malformed.
    Malformed,
    /// The binary's magic is unknown or bad.
    BadMagic,
    /// An error from reading and interpreting bytes.
    Scroll,
    /// The buffer is too short to hold what was asked of it.
    BufferTooShort,
    /// An I/O based error.
    Io,
    /// Any other failure, including variants added in the future.
    Other,
}

/// One decode failure: its kind and the collaborator's own explanation text.
#[derive(Debug)]
pub struct Failure {
    pub kind: FailureKind,
    pub text: String,
}

/// The fixed code for a recognized but not implemented executable format.
pub const UNIMPLEMENTED_FORMAT_CODE: i64 = -7;

/// The code assigned to each decode-failure kind. This taxonomy is fixed:
/// callers branch on it, so it must stay stable.
pub open spec fn spec_failure_code(k: FailureKind) -> int {
    match k {
        FailureKind::Malformed => -1,
        FailureKind::BadMagic => -2,
        FailureKind::Scroll => -3,
        FailureKind::BufferTooShort => -4,
        FailureKind::Io => -5,
        FailureKind::Other => -6,
    }
}

/// Maps a decode-failure kind to its stable negative code.
pub fn failure_code(k: FailureKind) -> (c: i64)
    ensures
        c == spec_failure_code(k),
{
    match k {
        FailureKind::Malformed => -1,
        FailureKind::BadMagic => -2,
        FailureKind::Scroll => -3,
        FailureKind::BufferTooShort => -4,
        FailureKind::Io => -5,
        FailureKind::Other => -6,
    }
}

/// Every taxonomy code is strictly negative and above -7, so it can never
/// collide with the unimplemented-format code nor with a positive magic value.
pub proof fn lemma_failure_codes_distinct(k: FailureKind)
    ensures
        -6 <= spec_failure_code(k) <= -1,
{
}

/// The signed 64-bit value an unknown magic is reported as: the raw magic
/// reinterpreted in two's complement, so it stays distinguishable from the
/// small negative taxonomy for every magic a real buffer can carry.
pub open spec fn spec_magic_code(m: u64) -> int {
    if m < 0x8000000000000000 {
        m as int
    } else {
        m as int - 0x10000000000000000
    }
}

/// Reinterprets an unknown magic value as its signed 64-bit report code.
pub fn magic_code(magic: u64) -> (c: i64)
    ensures
        c as int == spec_magic_code(magic),
{
    if magic < 0x8000000000000000 {
        magic as i64
    } else {
        let d: u64 = u64::MAX - magic;
        (-(d as i64)) - 1
    }
}

/// The shape of the entry reporting an unknown magic number: the code is
/// the magic itself as a signed 64-bit value, the explanation renders it in
/// big-endian hexadecimal, and the record keeps only the name and
/// containment path.
pub open spec fn spec_unknown_entry(
    e: crate::records::ResultEntry,
    name: Seq<char>,
    path: Seq<Seq<char>>,
    magic: u64,
) -> bool {
    &&& e.error.code as int == spec_magic_code(magic)
    &&& e.error.explanation.deep_view() == Some(crate::strutil::unknown_magic_msg(name, path, magic))
    &&& e.record.name@ == name
    &&& e.record.containment_path.deep_view() == path
    &&& e.record.format is None
    &&& crate::records::record_fields_absent(e.record)
}

/// The shape of the entry reporting a recognized but not implemented
/// format: the fixed code -7 with its explanation, and a record keeping
/// only the name and containment path.
pub open spec fn spec_unsupported_entry(
    e: crate::records::ResultEntry,
    name: Seq<char>,
    path: Seq<Seq<char>>,
) -> bool {
    &&& e.error.code == UNIMPLEMENTED_FORMAT_CODE
    &&& e.error.explanation.deep_view() == Some(crate::strutil::unsupported_msg(name, path))
    &&& e.record.name@ == name
    &&& e.record.containment_path.deep_view() == path
    &&& e.record.format is None
    &&& crate::records::record_fields_absent(e.record)
}

/// The shape of the entry reporting a decode failure: the failure kind's
/// taxonomy code, the collaborator's explanation verbatim, and a record
/// keeping only the name, the containment path and (where the caller could
/// derive one) the format tag.
pub open spec fn spec_failure_entry(
    e: crate::records::ResultEntry,
    name: Seq<char>,
    path: Seq<Seq<char>>,
    failure: Failure,
    format: Option<Seq<char>>,
) -> bool {
    &&& e.error.code == spec_failure_code(failure.kind)
    &&& e.error.explanation.deep_view() == Some(failure.text@)
    &&& e.record.name@ == name
    &&& e.record.containment_path.deep_view() == path
    &&& e.record.format.deep_view() == format
    &&& crate::records::record_fields_absent(e.record)
}

/// Builds the entry reporting an unknown magic number.
pub fn unknown_magic_entry(
    file_name: &str,
    path: &Vec<String>,
    magic: u64,
) -> (e: crate::records::ResultEntry)
    ensures
        spec_unknown_entry(e, file_name@, path.deep_view(), magic),
        crate::records::entry_wf(e),
{
    let msg = crate::strutil::build_unknown_magic_msg(file_name, path, magic);
    crate::records::ResultEntry {
        error: crate::records::ParsingError { code: magic_code(magic), explanation: Some(msg) },
        record: crate::records::absent_record(file_name, path, None),
    }
}

/// Builds the entry reporting a recognized but not implemented format.
pub fn unsupported_entry(file_name: &str, path: &Vec<String>) -> (e: crate::records::ResultEntry)
    ensures
        spec_unsupported_entry(e, file_name@, path.deep_view()),
        crate::records::entry_wf(e),
{
    let msg = crate::strutil::build_unsupported_msg(file_name, path);
    crate::records::ResultEntry {
        error: crate::records::ParsingError {
            code: UNIMPLEMENTED_FORMAT_CODE,
            explanation: Some(msg),
        },
        record: crate::records::absent_record(file_name, path, None),
    }
}

/// Builds the entry reporting a decode failure.
pub fn failure_entry(
    file_name: &str,
    path: &Vec<String>,
    failure: Failure,
    format: Option<String>,
) -> (e: crate::records::ResultEntry)
    ensures
        spec_failure_entry(e, file_name@, path.deep_view(), failure, format.deep_view()),
        crate::records::entry_wf(e),
{
    proof {
        lemma_failure_codes_distinct(failure.kind);
    }
    crate::records::ResultEntry {
        error: crate::records::ParsingError {
            code: failure_code(failure.kind),
            explanation: Some(failure.text),
        },
        record: crate::records::absent_record(file_name, path, format),
    }
}

} // verus!
