//! The result data model: one normalized metadata record per identified
//! object, paired with a (possibly empty) parsing error, gathered into an
//! ordered collection that the caller owns until it releases it.

use vstd::prelude::*;

verus! {

/// One parsing error. A zero code means no error; negative codes come from
/// the fixed taxonomy in `errors`; a positive code is the raw magic value of
/// an unrecognized buffer.
#[derive(Debug)]
pub struct ParsingError {
    pub code: i64,
    /// Human-readable explanation; absent exactly when `code` is zero.
    pub explanation: Option<String>,
}

/// The normalized metadata of one identified binary object. Every field that
/// does not apply to a given format or error path holds its explicit absent
/// value, never a leftover.
#[derive(Debug)]
pub struct ParsedObjectRecord {
    /// The object's name. Slices of a multi-architecture Mach-O have no
    /// intrinsic name and get a synthesized "{n}. file" label.
    pub name: String,
    /// Names of the enclosing containers, outermost first; empty when the
    /// object is not nested.
    pub containment_path: Vec<String>,
    /// The container format tag, when determinable.
    pub format: Option<String>,
    /// True when the object is 64-bit.
    pub is_64bit: bool,
    /// The name of the OS the object targets, when determinable.
    pub os_name: Option<String>,
    /// The kind of object (executable, shared object, core file, ...).
    pub object_kind: Option<String>,
    /// True when the object carries no debug symbol information.
    pub is_stripped: bool,
    /// The CPU architecture name, when the machine code is known.
    pub cpu_arch: Option<String>,
    /// The CPU subtype name; populated only for the relevant Mach-O families.
    pub cpu_subtype: Option<String>,
    /// The dynamic interpreter (ELF) or linker version (PE).
    pub linker_or_interpreter: Option<String>,
    /// The libraries the object links against, in reported order.
    pub linked_libraries: Vec<String>,
}

/// One parsing error paired with one record.
#[derive(Debug)]
pub struct ResultEntry {
    pub error: ParsingError,
    pub record: ParsedObjectRecord,
}

/// All metadata fields of the record hold their absent value.
pub open spec fn record_fields_absent(r: ParsedObjectRecord) -> bool {
    &&& r.os_name is None
    &&& r.object_kind is None
    &&& r.cpu_arch is None
    &&& r.cpu_subtype is None
    &&& r.linker_or_interpreter is None
    &&& !r.is_64bit
    &&& !r.is_stripped
    &&& r.linked_libraries@.len() == 0
}

/// A well-formed entry: a non-zero code guarantees absent metadata fields,
/// so that the name, the containment path and (where derivable) the format
/// stay traceable while nothing else can be mistaken for parsed data.
pub open spec fn entry_wf(e: ResultEntry) -> bool {
    e.error.code != 0 ==> record_fields_absent(e.record)
}

/// Copies a containment path, preserving its sequence of names.
pub fn clone_strings(path: &Vec<String>) -> (r: Vec<String>)
    ensures
        r.deep_view() == path.deep_view(),
{
    let r = path.clone();
    proof {
        assert forall|i: int| 0 <= i < path@.len() implies r.deep_view()[i]
            == path.deep_view()[i] by {
            assert(cloned::<String>(path[i], r[i]));
        }
        assert(r.deep_view() =~= path.deep_view());
    }
    r
}

/// Builds the record of an erroneous entry: name, path and (optionally)
/// format are kept, every other field is absent.
pub fn absent_record(name: &str, path: &Vec<String>, format: Option<String>) -> (r: ParsedObjectRecord)
    ensures
        r.name@ == name@,
        r.containment_path.deep_view() == path.deep_view(),
        r.format == format,
        record_fields_absent(r),
{
    let p = clone_strings(path);
    ParsedObjectRecord {
        name: name.to_owned(),
        containment_path: p,
        format,
        is_64bit: false,
        os_name: None,
        object_kind: None,
        is_stripped: false,
        cpu_arch: None,
        cpu_subtype: None,
        linker_or_interpreter: None,
        linked_libraries: Vec::new(),
    }
}

/// An ordered, appendable sequence of result entries, produced once per
/// top-level call and owned by the caller until explicitly released. The
/// storage is tombstoned on release, so a second release is detected instead
/// of freeing twice.
#[derive(Debug)]
pub struct ResultCollection {
    entries: Option<Vec<ResultEntry>>,
}

impl ResultCollection {
    /// The collection still owns live storage (it has not been released).
    pub closed spec fn is_live(self) -> bool {
        self.entries is Some
    }

    /// The entries the collection holds; meaningful only while it is live.
    pub closed spec fn entries_seq(self) -> Seq<ResultEntry> {
        self.entries->Some_0@
    }

    /// Wraps freshly produced entries into a live collection.
    pub fn produce(entries: Vec<ResultEntry>) -> (c: ResultCollection)
        ensures
            c.is_live(),
            c.entries_seq() == entries@,
    {
        ResultCollection { entries: Some(entries) }
    }

    /// How many entries the collection holds; zero after release.
    pub fn len(&self) -> (n: usize)
        ensures
            self.is_live() ==> n == self.entries_seq().len(),
            !self.is_live() ==> n == 0,
    {
        match &self.entries {
            Some(v) => v.len(),
            None => 0,
        }
    }

    /// Borrows the entry at `i`.
    pub fn entry(&self, i: usize) -> (e: &ResultEntry)
        requires
            self.is_live(),
            i < self.entries_seq().len(),
        ensures
            *e == self.entries_seq()[i as int],
    {
        let v = self.entries.as_ref().unwrap();
        &v[i]
    }

    /// The status that releasing the collection in this state reports.
    pub open spec fn release_status(self) -> u8 {
        if self.is_live() {
            0u8
        } else {
            1u8
        }
    }

    /// Releases the collection's storage. Returns status 0 on success; if the
    /// collection was already released (or never held storage) nothing is
    /// freed and the distinct status 1 reports it.
    pub fn release(&mut self) -> (status: u8)
        ensures
            !final(self).is_live(),
            status == old(self).release_status(),
    {
        match self.entries.take() {
            Some(_) => 0,
            None => 1,
        }
    }
}

/// Releasing a live collection (as `produce` returns it, with any entries,
/// even none) reports status 0, and a second release of the same collection
/// is flagged with status 1 rather than freeing twice: `release` tombstones
/// the storage, so the collection it leaves behind is no longer live.
pub proof fn lemma_release_round_trip(live: ResultCollection, after: ResultCollection)
    requires
        live.is_live(),
        !after.is_live(),
    ensures
        live.release_status() == 0,
        after.release_status() == 1,
{
}

} // verus!
