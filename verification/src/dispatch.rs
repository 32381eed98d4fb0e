//! The dispatcher and the container traversers: classify a buffer, route it
//! to the right extractor, and fan out into per-member or per-slice
//! sub-parses for the two recursive container kinds, threading a containment
//! path. No entry is ever silently dropped, and one slice's failure never
//! aborts a sibling (the archive traverser's documented early stop aside).
//! The decoder's results are deterministic in the buffer and carry names
//! (`decode`), so the contracts here owe each buffer its exact entries.

use vstd::prelude::*;
use crate::decode::{
    archive_extract, archive_extract_failure_of, archive_extract_ok, archive_magic,
    archive_members, archive_members_of, archive_src, be_u64, class_of, classify, coff_magic,
    coff_view_of, decode_failure_of, elf_magic, elf_view_of, fat_arch_offsets, fat_arches_ok,
    fat_failure_of, fat_offsets_of, le_u64, mach_fat_magic, mach_thin_magic, macho_failure_of,
    macho_parses, macho_view_of, parse_macho_at, pe_magic, pe_view_of, ClassTag, Classified,
};
use crate::errors::{
    failure_entry, spec_failure_entry, spec_unknown_entry, spec_unsupported_entry,
    unknown_magic_entry, unsupported_entry, Failure, FailureKind,
};
use crate::extract::{
    coff_entry, elf_entry, extract_coff, extract_elf, extract_macho, extract_pe, mach_entry,
    pe_entry, spec_pe_format,
};
use crate::records::{entry_wf, ResultCollection, ResultEntry};
use crate::strutil::{build_slice_label, slice_label_seq};

verus! {

/// How many levels of container nesting the traversal follows before it
/// reports a member as too deeply nested instead of recursing further.
pub const MAX_NESTING_DEPTH: u64 = 64;

/// The entries of `before` survive unchanged as a prefix of `after`.
pub open spec fn extends(before: Seq<ResultEntry>, after: Seq<ResultEntry>) -> bool {
    &&& after.len() >= before.len()
    &&& after.subrange(0, before.len() as int) == before
}

/// Every entry appended beyond `before` is well-formed.
pub open spec fn new_entries_wf(before: Seq<ResultEntry>, after: Seq<ResultEntry>) -> bool {
    forall|i: int| before.len() <= i < after.len() ==> #[trigger] entry_wf(after[i])
}

/// Every success entry appended beyond `before` carries the given format
/// tag.
pub open spec fn new_successes_tagged(
    before: Seq<ResultEntry>,
    after: Seq<ResultEntry>,
    tag: Seq<char>,
) -> bool {
    forall|i: int|
        before.len() <= i < after.len() && (#[trigger] after[i]).error.code == 0
            ==> after[i].record.format.deep_view() == Some(tag)
}

/// The names of `p` open the containment path `q`: an object found while
/// the traversal stood at `p` can only sit at `p` or deeper.
pub open spec fn path_opens(p: Seq<Seq<char>>, q: Seq<Seq<char>>) -> bool {
    &&& q.len() >= p.len()
    &&& q.subrange(0, p.len() as int) == p
}

/// Every entry appended beyond `before` has a containment path that the
/// given path opens.
pub open spec fn new_entries_under(
    before: Seq<ResultEntry>,
    after: Seq<ResultEntry>,
    p: Seq<Seq<char>>,
) -> bool {
    forall|i: int|
        before.len() <= i < after.len() ==> path_opens(
            p,
            (#[trigger] after[i]).record.containment_path.deep_view(),
        )
}

/// The one entry a fat-container slice yields: the Mach-O extractor's
/// success entry when the slice at this offset parses, the decode failure's
/// error entry when it does not — either way labelled "{k+1}. file" and
/// sitting under the container's name.
pub open spec fn fat_slice_entry(
    e: ResultEntry,
    container: Seq<char>,
    path: Seq<Seq<char>>,
    b: Seq<u8>,
    off: u32,
    k: int,
) -> bool {
    if macho_parses(b, off as int) {
        mach_entry(e, slice_label_seq((k + 1) as u64), path.push(container), macho_view_of(b, off as int))
    } else {
        spec_failure_entry(
            e,
            slice_label_seq((k + 1) as u64),
            path.push(container),
            macho_failure_of(b, off as int),
            Some("Mach-O"@),
        )
    }
}

/// Extraction succeeds for every member before position `n`.
pub open spec fn archive_prefix_ok(b: Seq<u8>, ms: Seq<Seq<char>>, n: int) -> bool {
    forall|j: int| 0 <= j < n ==> archive_extract_ok(b, #[trigger] ms[j])
}

/// What traversing an archive owes when some member's extraction fails:
/// the appended entries end with exactly one error entry for the first such
/// member — carrying its extraction failure, the "Archive" tag and the
/// archive's own name under its path — and nothing follows it, so the
/// members after the failing one contribute nothing.
pub open spec fn archive_outcome(
    before: Seq<ResultEntry>,
    after: Seq<ResultEntry>,
    name: Seq<char>,
    path: Seq<Seq<char>>,
    b: Seq<u8>,
) -> bool {
    !archive_prefix_ok(b, archive_members_of(b), archive_members_of(b).len() as int) ==> {
        &&& after.len() > before.len()
        &&& exists|jf: int|
            0 <= jf < archive_members_of(b).len() && !archive_extract_ok(
                b,
                #[trigger] archive_members_of(b)[jf],
            ) && archive_prefix_ok(b, archive_members_of(b), jf) && spec_failure_entry(
                after.last(),
                name,
                path.push(name),
                archive_extract_failure_of(b, archive_members_of(b)[jf]),
                Some("Archive"@),
            )
    }
}

/// What one dispatch of a buffer owes, by the buffer's classification: a
/// leaf format appends exactly the extractor's entry for the decoder's view
/// of the buffer; an unknown magic, an unsupported format and a decode
/// failure each append exactly their error entry; a fat container appends
/// one entry per slice, each the slice's own success or failure; an archive
/// ends with the first failing member's error entry if extraction ever
/// fails.
pub open spec fn dispatch_post(
    before: Seq<ResultEntry>,
    after: Seq<ResultEntry>,
    name: Seq<char>,
    path: Seq<Seq<char>>,
    b: Seq<u8>,
) -> bool {
    &&& (class_of(b) == ClassTag::Elf ==> after.len() == before.len() + 1 && elf_entry(
        after[before.len() as int],
        name,
        path,
        elf_view_of(b),
        b[7],
    ))
    &&& (class_of(b) == ClassTag::Pe ==> after.len() == before.len() + 1 && pe_entry(
        after[before.len() as int],
        name,
        path,
        pe_view_of(b),
    ))
    &&& (class_of(b) == ClassTag::Coff ==> after.len() == before.len() + 1 && coff_entry(
        after[before.len() as int],
        name,
        path,
        coff_view_of(b),
    ))
    &&& (class_of(b) == ClassTag::MachThin ==> after.len() == before.len() + 1 && mach_entry(
        after[before.len() as int],
        name,
        path,
        macho_view_of(b, 0),
    ))
    &&& (class_of(b) == ClassTag::MachFat && fat_arches_ok(b) ==> after.len() == before.len()
        + fat_offsets_of(b).len() && (forall|k: int|
        0 <= k < fat_offsets_of(b).len() ==> fat_slice_entry(
            #[trigger] after[before.len() + k],
            name,
            path,
            b,
            fat_offsets_of(b)[k],
            k,
        )))
    &&& (class_of(b) == ClassTag::MachFat && !fat_arches_ok(b) ==> after.len() == before.len() + 1
        && spec_failure_entry(
        after[before.len() as int],
        name,
        path,
        fat_failure_of(b),
        Some("Mach-O"@),
    ))
    &&& (class_of(b) == ClassTag::Archive ==> archive_outcome(before, after, name, path, b))
    &&& (class_of(b) == ClassTag::Unknown ==> after.len() == before.len() + 1 && (exists|m: u64|
        (m as int == le_u64(b) || m as int == be_u64(b)) && #[trigger] spec_unknown_entry(
            after[before.len() as int],
            name,
            path,
            m,
        )))
    &&& (class_of(b) == ClassTag::Unsupported ==> after.len() == before.len() + 1
        && spec_unsupported_entry(after[before.len() as int], name, path))
    &&& (class_of(b) == ClassTag::Failed ==> after.len() == before.len() + 1 && spec_failure_entry(
        after[before.len() as int],
        name,
        path,
        decode_failure_of(b),
        None,
    ))
}

/// A path opens itself and every one-name extension of itself.
proof fn lemma_path_opens_step(p: Seq<Seq<char>>, name: Seq<char>)
    ensures
        path_opens(p, p),
        path_opens(p, p.push(name)),
{
    assert(p.subrange(0, p.len() as int) =~= p);
    assert(p.push(name).subrange(0, p.len() as int) =~= p);
}

/// Opening composes.
proof fn lemma_path_opens_trans(p: Seq<Seq<char>>, q: Seq<Seq<char>>, r: Seq<Seq<char>>)
    requires
        path_opens(p, q),
        path_opens(q, r),
    ensures
        path_opens(p, r),
{
    assert forall|i: int| 0 <= i < p.len() implies r[i] == p[i] by {
        assert(q.subrange(0, p.len() as int)[i] == q[i]);
        assert(r.subrange(0, q.len() as int)[i] == r[i]);
    }
    assert(r.subrange(0, p.len() as int) =~= p);
}

/// Extension composes, and the well-formedness and containment claims on
/// the new entries compose with it.
proof fn lemma_extends_trans(
    a: Seq<ResultEntry>,
    b: Seq<ResultEntry>,
    c: Seq<ResultEntry>,
    p: Seq<Seq<char>>,
)
    requires
        extends(a, b),
        extends(b, c),
        new_entries_wf(a, b),
        new_entries_wf(b, c),
        new_entries_under(a, b, p),
        new_entries_under(b, c, p),
    ensures
        extends(a, c),
        new_entries_wf(a, c),
        new_entries_under(a, c, p),
{
    assert forall|i: int| 0 <= i < a.len() implies c[i] == a[i] by {
        assert(b.subrange(0, a.len() as int)[i] == b[i]);
        assert(c.subrange(0, b.len() as int)[i] == c[i]);
    }
    assert(c.subrange(0, a.len() as int) =~= a);
    assert forall|i: int|
        a.len() <= i < c.len() implies entry_wf(c[i]) && path_opens(
        p,
        c[i].record.containment_path.deep_view(),
    ) by {
        if i < b.len() {
            assert(c.subrange(0, b.len() as int)[i] == c[i]);
            assert(entry_wf(b[i]));
            assert(path_opens(p, b[i].record.containment_path.deep_view()));
        }
    }
}

/// A claim that the new entries sit under a deeper path weakens to any
/// path that opens it.
proof fn lemma_under_weaken(
    a: Seq<ResultEntry>,
    c: Seq<ResultEntry>,
    p: Seq<Seq<char>>,
    q: Seq<Seq<char>>,
)
    requires
        new_entries_under(a, c, q),
        path_opens(p, q),
    ensures
        new_entries_under(a, c, p),
{
    assert forall|i: int|
        a.len() <= i < c.len() implies path_opens(
        p,
        (#[trigger] c[i]).record.containment_path.deep_view(),
    ) by {
        lemma_path_opens_trans(p, q, c[i].record.containment_path.deep_view());
    }
}

/// Appends one well-formed entry, leaving the earlier entries in place.
fn push_entry(out: &mut Vec<ResultEntry>, e: ResultEntry)
    requires
        entry_wf(e),
    ensures
        final(out)@ == old(out)@.push(e),
        final(out)@.len() == old(out)@.len() + 1,
        extends(old(out)@, final(out)@),
        new_entries_wf(old(out)@, final(out)@),
        new_entries_under(old(out)@, final(out)@, e.record.containment_path.deep_view()),
        final(out)@[old(out)@.len() as int] == e,
{
    out.push(e);
    proof {
        assert(out@.subrange(0, old(out)@.len() as int) =~= old(out)@);
        lemma_path_opens_step(e.record.containment_path.deep_view(), Seq::<char>::empty());
    }
}

/// Removes the innermost name from the containment path.
fn pop_path(path: &mut Vec<String>)
    requires
        old(path)@.len() > 0,
    ensures
        final(path).deep_view() == old(path).deep_view().drop_last(),
{
    let ghost pre = path@;
    let ghost pre_deep = path.deep_view();
    path.pop();
    proof {
        assert forall|i: int| 0 <= i < path@.len() implies path.deep_view()[i]
            == pre_deep.drop_last()[i] by {
            assert(path@[i] == pre.subrange(0, pre.len() - 1)[i]);
        }
        assert(path.deep_view() =~= pre_deep.drop_last());
    }
}

/// Parses every slice of a multi-architecture container into one entry per
/// slice, in slice order: the Mach-O extractor's success entry for each
/// slice that parses, the decode failure's error entry for each that does
/// not — never fewer entries than slices. Each entry carries the
/// synthesized 1-based "{n}. file" label and sits under the container's own
/// name in the containment path.
pub fn fat_entries(
    file_name: &str,
    buffer: &[u8],
    offsets: &Vec<u32>,
    path: &Vec<String>,
) -> (es: Vec<ResultEntry>)
    ensures
        es@.len() == offsets@.len(),
        forall|k: int|
            0 <= k < es@.len() ==> fat_slice_entry(
                #[trigger] es@[k],
                file_name@,
                path.deep_view(),
                buffer@,
                offsets@[k],
                k,
            ),
        forall|k: int|
            0 <= k < es@.len() ==> (#[trigger] es@[k]).record.name@ == slice_label_seq(
                (k + 1) as u64,
            ),
        forall|k: int|
            0 <= k < es@.len() ==> (#[trigger] es@[k]).record.containment_path.deep_view()
                == path.deep_view().push(file_name@),
        forall|k: int|
            0 <= k < es@.len() ==> (#[trigger] es@[k]).record.format.deep_view() == Some(
                "Mach-O"@,
            ),
        forall|k: int| 0 <= k < es@.len() ==> entry_wf(#[trigger] es@[k]),
{
    let mut es: Vec<ResultEntry> = Vec::new();
    let mut inner_path = crate::records::clone_strings(path);
    inner_path.push(file_name.to_owned());
    proof {
        assert(inner_path.deep_view() =~= path.deep_view().push(file_name@));
    }
    let mut i: usize = 0;
    while i < offsets.len()
        invariant
            inner_path.deep_view() == path.deep_view().push(file_name@),
            i <= offsets@.len(),
            es@.len() == i,
            forall|k: int|
                0 <= k < i ==> fat_slice_entry(
                    #[trigger] es@[k],
                    file_name@,
                    path.deep_view(),
                    buffer@,
                    offsets@[k],
                    k,
                ),
            forall|k: int|
                0 <= k < i ==> (#[trigger] es@[k]).record.name@ == slice_label_seq((k + 1) as u64),
            forall|k: int|
                0 <= k < i ==> (#[trigger] es@[k]).record.containment_path.deep_view()
                    == path.deep_view().push(file_name@),
            forall|k: int|
                0 <= k < i ==> (#[trigger] es@[k]).record.format.deep_view() == Some("Mach-O"@),
            forall|k: int| 0 <= k < i ==> entry_wf(#[trigger] es@[k]),
        decreases offsets@.len() - i,
    {
        let label = build_slice_label((i + 1) as u64);
        let entry = match parse_macho_at(buffer, offsets[i] as usize) {
            Ok(view) => extract_macho(label.as_str(), &inner_path, &view),
            Err(f) => failure_entry(label.as_str(), &inner_path, f, Some("Mach-O".to_owned())),
        };
        es.push(entry);
        i = i + 1;
    }
    es
}

/// Classifies one buffer and appends its entries: exactly one entry for a
/// leaf format, an unknown magic, an unsupported format or a decode
/// failure; one entry per slice for a fat container; an entry set per
/// member for an archive, up to its first extraction failure. The
/// containment path is left as it was found, earlier entries survive
/// unchanged, every new entry is well-formed and sits under the current
/// path, and `dispatch_post` owes each classification its exact entries.
pub fn dispatch(
    file_name: &str,
    buffer: &[u8],
    path: &mut Vec<String>,
    out: &mut Vec<ResultEntry>,
    depth: u64,
)
    ensures
        final(path).deep_view() == old(path).deep_view(),
        extends(old(out)@, final(out)@),
        new_entries_wf(old(out)@, final(out)@),
        new_entries_under(old(out)@, final(out)@, old(path).deep_view()),
        dispatch_post(old(out)@, final(out)@, file_name@, old(path).deep_view(), buffer@),
        !archive_magic(buffer@) && !mach_fat_magic(buffer@) ==> final(out)@.len() == old(
            out,
        )@.len() + 1,
        elf_magic(buffer@) ==> new_successes_tagged(old(out)@, final(out)@, "ELF"@),
        coff_magic(buffer@) ==> new_successes_tagged(old(out)@, final(out)@, "COFF"@),
        mach_thin_magic(buffer@) || mach_fat_magic(buffer@) ==> new_successes_tagged(
            old(out)@,
            final(out)@,
            "Mach-O"@,
        ),
        pe_magic(buffer@) ==> (forall|i: int|
            old(out)@.len() <= i < final(out)@.len() && (#[trigger] final(out)@[i]).error.code == 0
                ==> final(out)@[i].record.format.deep_view() == Some(spec_pe_format(
                final(out)@[i].record.is_64bit,
            ))),
    decreases depth, 1int,
{
    match classify(buffer) {
        Classified::ElfFile(view) => {
            let os_abi = buffer[7];
            push_entry(out, extract_elf(file_name, path, &view, os_abi));
        },
        Classified::PeFile(view) => {
            push_entry(out, extract_pe(file_name, path, &view));
        },
        Classified::CoffFile(view) => {
            push_entry(out, extract_coff(file_name, path, &view));
        },
        Classified::MachFile(view) => {
            push_entry(out, extract_macho(file_name, path, &view));
        },
        Classified::MachFat(fat) => {
            match fat_arch_offsets(&fat) {
                Ok(offsets) => {
                    let mut es = fat_entries(file_name, buffer, &offsets, path);
                    let ghost new_entries = es@;
                    out.append(&mut es);
                    proof {
                        assert(out@.subrange(0, old(out)@.len() as int) =~= old(out)@);
                        lemma_path_opens_step(old(path).deep_view(), file_name@);
                        assert forall|i: int|
                            old(out)@.len() <= i < out@.len() implies entry_wf(#[trigger] out@[i])
                            && out@[i].record.format.deep_view() == Some("Mach-O"@) && path_opens(
                            old(path).deep_view(),
                            out@[i].record.containment_path.deep_view(),
                        ) by {
                            assert(out@[i] == new_entries[i - old(out)@.len()]);
                        }
                        assert forall|k: int|
                            0 <= k < fat_offsets_of(buffer@).len() implies fat_slice_entry(
                            #[trigger] out@[old(out)@.len() + k],
                            file_name@,
                            old(path).deep_view(),
                            buffer@,
                            fat_offsets_of(buffer@)[k],
                            k,
                        ) by {
                            assert(out@[old(out)@.len() + k] == new_entries[k]);
                        }
                    }
                },
                Err(f) => {
                    push_entry(out, failure_entry(file_name, path, f, Some("Mach-O".to_owned())));
                },
            }
        },
        Classified::ArchiveFile(archive) => {
            parse_archive(file_name, buffer, &archive, path, out, depth);
        },
        Classified::UnknownMagic(magic) => {
            push_entry(out, unknown_magic_entry(file_name, path, magic));
        },
        Classified::Unsupported => {
            push_entry(out, unsupported_entry(file_name, path));
        },
        Classified::Failed(f) => {
            push_entry(out, failure_entry(file_name, path, f, None));
        },
    }
}

/// Traverses an archive: each member's bytes are extracted and dispatched
/// under the archive's name in the containment path. One member's
/// extraction failure appends a single error entry tagged "Archive" and
/// ends the traversal of this archive's remaining members — `archive_outcome`
/// states that exactly; members past the nesting-depth cap are reported
/// rather than recursed into.
pub(crate) fn parse_archive(
    file_name: &str,
    buffer: &[u8],
    archive: &goblin::archive::Archive<'_>,
    path: &mut Vec<String>,
    out: &mut Vec<ResultEntry>,
    depth: u64,
)
    requires
        buffer@ == archive_src(*archive),
    ensures
        final(path).deep_view() == old(path).deep_view(),
        extends(old(out)@, final(out)@),
        new_entries_wf(old(out)@, final(out)@),
        new_entries_under(old(out)@, final(out)@, old(path).deep_view()),
        archive_outcome(old(out)@, final(out)@, file_name@, old(path).deep_view(), buffer@),
    decreases depth, 0int,
{
    let members = archive_members(archive);
    let ghost b = archive_src(*archive);
    let ghost ms = archive_members_of(b);
    proof {
        assert(ms.len() == members@.len());
    }
    path.push(file_name.to_owned());
    proof {
        assert(path.deep_view() =~= old(path).deep_view().push(file_name@));
        assert(out@.subrange(0, out@.len() as int) =~= out@);
    }
    let mut i: usize = 0;
    while i < members.len()
        invariant
            buffer@ == archive_src(*archive),
            b == archive_src(*archive),
            ms == archive_members_of(b),
            ms == members.deep_view(),
            path.deep_view() == old(path).deep_view().push(file_name@),
            extends(old(out)@, out@),
            new_entries_wf(old(out)@, out@),
            new_entries_under(old(out)@, out@, old(path).deep_view().push(file_name@)),
            i <= members@.len(),
            forall|j: int| 0 <= j < i ==> archive_extract_ok(b, #[trigger] ms[j]),
        decreases members@.len() - i,
    {
        let ghost out_before = out@;
        proof {
            assert(members[i as int]@ == ms[i as int]);
        }
        match archive_extract(archive, members[i].as_str(), buffer) {
            Ok(member_buffer) => {
                if depth == 0 {
                    push_entry(
                        out,
                        failure_entry(
                            members[i].as_str(),
                            path,
                            Failure {
                                kind: FailureKind::Other,
                                text: "the member is nested deeper than this library traverses".to_owned(),
                            },
                            None,
                        ),
                    );
                } else {
                    dispatch(members[i].as_str(), member_buffer, path, out, depth - 1);
                }
            },
            Err(f) => {
                push_entry(
                    out,
                    failure_entry(file_name, path, f, Some("Archive".to_owned())),
                );
                proof {
                    lemma_extends_trans(
                        old(out)@,
                        out_before,
                        out@,
                        old(path).deep_view().push(file_name@),
                    );
                    lemma_path_opens_step(old(path).deep_view(), file_name@);
                    lemma_under_weaken(
                        old(out)@,
                        out@,
                        old(path).deep_view(),
                        old(path).deep_view().push(file_name@),
                    );
                    assert(!archive_extract_ok(b, ms[i as int]));
                    assert(!archive_prefix_ok(b, ms, ms.len() as int));
                    assert(out@.last() == out@[out@.len() - 1]);
                    assert(spec_failure_entry(
                        out@.last(),
                        file_name@,
                        old(path).deep_view().push(file_name@),
                        archive_extract_failure_of(b, ms[i as int]),
                        Some("Archive"@),
                    ));
                    assert(archive_outcome(
                        old(out)@,
                        out@,
                        file_name@,
                        old(path).deep_view(),
                        b,
                    ));
                    assert(path@.len() == path.deep_view().len());
                }
                pop_path(path);
                proof {
                    assert(path.deep_view() =~= old(path).deep_view());
                }
                return;
            },
        }
        proof {
            lemma_extends_trans(
                old(out)@,
                out_before,
                out@,
                old(path).deep_view().push(file_name@),
            );
        }
        i = i + 1;
    }
    proof {
        assert(archive_prefix_ok(b, ms, ms.len() as int));
        lemma_path_opens_step(old(path).deep_view(), file_name@);
        lemma_under_weaken(
            old(out)@,
            out@,
            old(path).deep_view(),
            old(path).deep_view().push(file_name@),
        );
        assert(path@.len() == path.deep_view().len());
    }
    pop_path(path);
    proof {
        assert(path.deep_view() =~= old(path).deep_view());
    }
}

/// Parses the given buffer and returns the collection of every identified
/// object's entry, successes and failures alike: the single entry point of
/// the traversal. The returned collection is always live (possibly empty),
/// every entry in it is well-formed, a leaf buffer yields exactly one
/// entry, and `dispatch_post` owes the buffer's classification its exact
/// entries. The flag mirrors the diagnostic channel of the boundary API;
/// the library itself emits nothing.
#[allow(unused_variables)]
pub fn read_objects(file_name: &str, buffer: &[u8], verbose_logging: bool) -> (c: ResultCollection)
    ensures
        c.is_live(),
        new_entries_wf(Seq::<ResultEntry>::empty(), c.entries_seq()),
        dispatch_post(
            Seq::<ResultEntry>::empty(),
            c.entries_seq(),
            file_name@,
            Seq::<Seq<char>>::empty(),
            buffer@,
        ),
        !archive_magic(buffer@) && !mach_fat_magic(buffer@) ==> c.entries_seq().len() == 1,
        elf_magic(buffer@) ==> new_successes_tagged(
            Seq::<ResultEntry>::empty(),
            c.entries_seq(),
            "ELF"@,
        ),
        coff_magic(buffer@) ==> new_successes_tagged(
            Seq::<ResultEntry>::empty(),
            c.entries_seq(),
            "COFF"@,
        ),
        mach_thin_magic(buffer@) || mach_fat_magic(buffer@) ==> new_successes_tagged(
            Seq::<ResultEntry>::empty(),
            c.entries_seq(),
            "Mach-O"@,
        ),
{
    let mut entries: Vec<ResultEntry> = Vec::new();
    let mut path: Vec<String> = Vec::new();
    proof {
        assert(entries@ =~= Seq::<ResultEntry>::empty());
        assert(path.deep_view() =~= Seq::<Seq<char>>::empty());
    }
    dispatch(file_name, buffer, &mut path, &mut entries, MAX_NESTING_DEPTH);
    ResultCollection::produce(entries)
}

} // verus!
