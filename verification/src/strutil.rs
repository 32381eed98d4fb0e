//! String helpers: building decimal and hexadecimal renderings, substring
//! search (exact and ASCII-case-insensitive), and the diagnostic message
//! fragments that name an object inside its containment path.

use vstd::prelude::*;
use vstd::string::StringExecFns;

verus! {

/// Relies on std's `String::push`: appends exactly the given character.
#[verifier::external_body]
pub fn push_char(s: &mut String, c: char)
    ensures
        final(s)@ == old(s)@.push(c),
{
    s.push(c);
}

/// The numeric value of a character with ASCII uppercase folded to lowercase:
/// letters 'A' through 'Z' map 32 above themselves, everything else maps to
/// its own code point.
pub open spec fn fold_val(c: char) -> u32 {
    if 65 <= c as u32 <= 90 {
        (c as u32 + 32) as u32
    } else {
        c as u32
    }
}

/// The needle matches the haystack at position `i`, comparing characters
/// ASCII-case-insensitively.
pub open spec fn ci_match_at(hay: Seq<char>, needle: Seq<char>, i: int) -> bool {
    &&& 0 <= i
    &&& i + needle.len() <= hay.len()
    &&& forall|j: int| 0 <= j < needle.len() ==> fold_val(hay[i + j]) == fold_val(needle[j])
}

/// The haystack contains the needle somewhere, ASCII-case-insensitively.
pub open spec fn ci_contains(hay: Seq<char>, needle: Seq<char>) -> bool {
    exists|i: int| ci_match_at(hay, needle, i)
}

/// The needle matches the haystack at position `i` exactly.
pub open spec fn match_at(hay: Seq<char>, needle: Seq<char>, i: int) -> bool {
    &&& 0 <= i
    &&& i + needle.len() <= hay.len()
    &&& forall|j: int| 0 <= j < needle.len() ==> hay[i + j] == needle[j]
}

/// The haystack contains the needle somewhere, exactly.
pub open spec fn contains_sub(hay: Seq<char>, needle: Seq<char>) -> bool {
    exists|i: int| match_at(hay, needle, i)
}

/// Folds one character's value as `fold_val` describes.
fn fold_char_val(c: char) -> (v: u32)
    ensures
        v == fold_val(c),
{
    let u = c as u32;
    if 65 <= u && u <= 90 {
        u + 32
    } else {
        u
    }
}

/// Decides whether `hay` contains `needle`, ASCII-case-insensitively.
pub fn str_contains_ci(hay: &str, needle: &str) -> (r: bool)
    ensures
        r == ci_contains(hay@, needle@),
{
    let hay_len = hay.unicode_len();
    let needle_len = needle.unicode_len();
    if needle_len > hay_len {
        return false;
    }
    let mut i: usize = 0;
    while i <= hay_len - needle_len
        invariant
            needle_len <= hay_len,
            hay_len == hay@.len(),
            needle_len == needle@.len(),
            i <= hay_len - needle_len + 1,
            forall|k: int| 0 <= k < i ==> !ci_match_at(hay@, needle@, k),
        decreases hay_len - needle_len - i + 1,
    {
        let mut j: usize = 0;
        let mut matched: bool = true;
        while j < needle_len
            invariant
                needle_len <= hay_len,
                hay_len == hay@.len(),
                needle_len == needle@.len(),
                i + needle_len <= hay_len,
                j <= needle_len,
                matched ==> forall|l: int| 0 <= l < j ==> fold_val(hay@[i + l]) == fold_val(
                    needle@[l],
                ),
                !matched ==> !ci_match_at(hay@, needle@, i as int),
            decreases needle_len - j,
        {
            if matched {
                let a = fold_char_val(hay.get_char(i + j));
                let b = fold_char_val(needle.get_char(j));
                if a != b {
                    matched = false;
                }
            }
            j = j + 1;
        }
        if matched {
            assert(ci_match_at(hay@, needle@, i as int));
            return true;
        }
        i = i + 1;
    }
    proof {
        assert forall|k: int| !ci_match_at(hay@, needle@, k) by {
            if 0 <= k && k + needle@.len() <= hay@.len() {
                assert(k < i);
            }
        }
    }
    false
}

/// Decides whether `hay` contains `needle` exactly.
pub fn str_contains(hay: &str, needle: &str) -> (r: bool)
    ensures
        r == contains_sub(hay@, needle@),
{
    let hay_len = hay.unicode_len();
    let needle_len = needle.unicode_len();
    if needle_len > hay_len {
        return false;
    }
    let mut i: usize = 0;
    while i <= hay_len - needle_len
        invariant
            needle_len <= hay_len,
            hay_len == hay@.len(),
            needle_len == needle@.len(),
            i <= hay_len - needle_len + 1,
            forall|k: int| 0 <= k < i ==> !match_at(hay@, needle@, k),
        decreases hay_len - needle_len - i + 1,
    {
        let mut j: usize = 0;
        let mut matched: bool = true;
        while j < needle_len
            invariant
                needle_len <= hay_len,
                hay_len == hay@.len(),
                needle_len == needle@.len(),
                i + needle_len <= hay_len,
                j <= needle_len,
                matched ==> forall|l: int| 0 <= l < j ==> hay@[i + l] == needle@[l],
                !matched ==> !match_at(hay@, needle@, i as int),
            decreases needle_len - j,
        {
            if matched {
                let a = hay.get_char(i + j);
                let b = needle.get_char(j);
                if a != b {
                    matched = false;
                }
            }
            j = j + 1;
        }
        if matched {
            assert(match_at(hay@, needle@, i as int));
            return true;
        }
        i = i + 1;
    }
    proof {
        assert forall|k: int| !match_at(hay@, needle@, k) by {
            if 0 <= k && k + needle@.len() <= hay@.len() {
                assert(k < i);
            }
        }
    }
    false
}

/// The decimal digit character for a value below ten.
pub open spec fn dec_digit_char(d: int) -> char {
    if d == 0 {
        '0'
    } else if d == 1 {
        '1'
    } else if d == 2 {
        '2'
    } else if d == 3 {
        '3'
    } else if d == 4 {
        '4'
    } else if d == 5 {
        '5'
    } else if d == 6 {
        '6'
    } else if d == 7 {
        '7'
    } else if d == 8 {
        '8'
    } else {
        '9'
    }
}

/// The usual decimal rendering of a natural number, most significant digit
/// first, with no leading zeroes (a lone zero for zero).
pub open spec fn dec_seq(n: nat) -> Seq<char>
    decreases n,
{
    if n < 10 {
        seq![dec_digit_char(n as int)]
    } else {
        dec_seq(n / 10).push(dec_digit_char((n % 10) as int))
    }
}

/// Returns the decimal digit character for `d`.
fn dec_digit(d: u64) -> (c: char)
    requires
        d < 10,
    ensures
        c == dec_digit_char(d as int),
{
    match d {
        0 => '0',
        1 => '1',
        2 => '2',
        3 => '3',
        4 => '4',
        5 => '5',
        6 => '6',
        7 => '7',
        8 => '8',
        _ => '9',
    }
}

/// Appends the decimal rendering of `n` to `s`.
pub fn push_dec(s: &mut String, n: u64)
    ensures
        final(s)@ == old(s)@ + dec_seq(n as nat),
    decreases n,
{
    if n >= 10 {
        push_dec(s, n / 10);
    }
    push_char(s, dec_digit(n % 10));
    proof {
        if n < 10 {
            assert(old(s)@ + dec_seq(n as nat) =~= old(s)@.push(dec_digit_char((n % 10) as int)));
        } else {
            assert(old(s)@ + dec_seq(n as nat) =~= (old(s)@ + dec_seq((n / 10) as nat)).push(
                dec_digit_char((n % 10) as int),
            ));
        }
    }
}

/// The uppercase hexadecimal digit character for a value below sixteen.
pub open spec fn hex_digit_char(d: int) -> char {
    if d < 10 {
        dec_digit_char(d)
    } else if d == 10 {
        'A'
    } else if d == 11 {
        'B'
    } else if d == 12 {
        'C'
    } else if d == 13 {
        'D'
    } else if d == 14 {
        'E'
    } else {
        'F'
    }
}

/// The two-digit uppercase hexadecimal rendering of a byte.
pub open spec fn hex_byte_seq(b: u8) -> Seq<char> {
    seq![hex_digit_char(b as int / 16), hex_digit_char(b as int % 16)]
}

/// Returns the uppercase hexadecimal digit character for `d`.
fn hex_digit(d: u8) -> (c: char)
    requires
        d < 16,
    ensures
        c == hex_digit_char(d as int),
{
    match d {
        0 => '0',
        1 => '1',
        2 => '2',
        3 => '3',
        4 => '4',
        5 => '5',
        6 => '6',
        7 => '7',
        8 => '8',
        9 => '9',
        10 => 'A',
        11 => 'B',
        12 => 'C',
        13 => 'D',
        14 => 'E',
        _ => 'F',
    }
}

/// Appends the two-digit hexadecimal rendering of `b` to `s`.
pub fn push_hex_byte(s: &mut String, b: u8)
    ensures
        final(s)@ == old(s)@ + hex_byte_seq(b),
{
    push_char(s, hex_digit(b / 16));
    push_char(s, hex_digit(b % 16));
    proof {
        assert(old(s)@ + hex_byte_seq(b) =~= old(s)@.push(hex_digit_char(b as int / 16)).push(
            hex_digit_char(b as int % 16),
        ));
    }
}

/// The big-endian byte of `m` at position `k` (0 is the most significant of
/// the eight).
pub open spec fn be_byte(m: u64, k: int) -> u8 {
    ((m as nat / pow256((7 - k) as nat)) % 256) as u8
}

/// 256 raised to `e`.
pub open spec fn pow256(e: nat) -> nat
    decreases e,
{
    if e == 0 {
        1
    } else {
        256 * pow256((e - 1) as nat)
    }
}

/// The hexadecimal rendering of the big-endian bytes of `m` up to position
/// `k`, separated by single spaces.
pub open spec fn magic_hex_prefix(m: u64, k: int) -> Seq<char>
    decreases k,
{
    if k <= 0 {
        hex_byte_seq(be_byte(m, 0))
    } else {
        magic_hex_prefix(m, k - 1) + " "@ + hex_byte_seq(be_byte(m, k))
    }
}

/// The hexadecimal rendering of all eight big-endian bytes of `m`,
/// separated by single spaces.
pub open spec fn magic_hex_seq(m: u64) -> Seq<char> {
    magic_hex_prefix(m, 7)
}

/// Appends the space-separated big-endian hexadecimal rendering of `m`.
pub fn push_magic_hex(s: &mut String, m: u64)
    ensures
        final(s)@ == old(s)@ + magic_hex_seq(m),
{
    let mut k: u64 = 0;
    let mut divisor: u64 = 0x100000000000000;
    proof {
        reveal_with_fuel(pow256, 9);
        assert(pow256(7) == 0x100000000000000);
    }
    while k < 8
        invariant
            k <= 8,
            k < 8 ==> divisor == pow256((7 - k) as nat),
            k == 0 ==> s@ == old(s)@,
            0 < k <= 8 ==> s@ == old(s)@ + magic_hex_prefix(m, k - 1),
        decreases 8 - k,
    {
        proof {
            lemma_pow256_pos((7 - k) as nat);
        }
        let b: u8 = ((m / divisor) % 256) as u8;
        proof {
            assert(b == be_byte(m, k as int));
        }
        if k > 0 {
            push_char(s, ' ');
            proof {
                reveal_strlit(" ");
                assert(s@ =~= old(s)@ + magic_hex_prefix(m, k - 1) + " "@);
            }
        }
        push_hex_byte(s, b);
        proof {
            if k == 0 {
                assert(s@ =~= old(s)@ + magic_hex_prefix(m, 0));
            } else {
                assert(s@ =~= old(s)@ + magic_hex_prefix(m, k as int));
            }
        }
        if k < 7 {
            divisor = divisor / 256;
            proof {
                lemma_pow256_step((7 - k) as nat);
            }
        }
        k = k + 1;
    }
}

/// Every power of 256 is positive.
proof fn lemma_pow256_pos(e: nat)
    ensures
        pow256(e) >= 1,
    decreases e,
{
    if e > 0 {
        lemma_pow256_pos((e - 1) as nat);
    }
}

/// Dividing a power of 256 by 256 steps the exponent down.
proof fn lemma_pow256_step(e: nat)
    requires
        e >= 1,
    ensures
        pow256(e) / 256 == pow256((e - 1) as nat),
        pow256(e) <= 0x100000000000000 ==> pow256((e - 1) as nat) <= 0x100000000000000,
{
    lemma_pow256_pos((e - 1) as nat);
}

/// The names joined with " -> " between them.
pub open spec fn join_arrow(names: Seq<Seq<char>>) -> Seq<char>
    decreases names.len(),
{
    if names.len() == 0 {
        Seq::<char>::empty()
    } else if names.len() == 1 {
        names[0]
    } else {
        join_arrow(names.drop_last()) + " -> "@ + names.last()
    }
}

/// The " (Member of: ...)" fragment naming the containment path, or nothing
/// when the path is empty.
pub open spec fn merge_members_seq(names: Seq<Seq<char>>) -> Seq<char> {
    if names.len() == 0 {
        Seq::<char>::empty()
    } else {
        " (Member of: "@ + join_arrow(names) + ")"@
    }
}

/// Renders the containment path as " (Member of: outer -> inner)", or the
/// empty string when the object is not nested.
pub fn merge_members(member_names: &Vec<String>) -> (r: String)
    ensures
        r@ == merge_members_seq(member_names.deep_view()),
{
    if member_names.len() == 0 {
        return String::new();
    }
    let mut r = String::new();
    r.append(" (Member of: ");
    let mut i: usize = 0;
    while i < member_names.len()
        invariant
            member_names@.len() > 0,
            i <= member_names@.len(),
            i == 0 ==> r@ == " (Member of: "@,
            i > 0 ==> r@ == " (Member of: "@ + join_arrow(member_names.deep_view().take(i as int)),
        decreases member_names@.len() - i,
    {
        if i > 0 {
            r.append(" -> ");
        }
        r.append(member_names[i].as_str());
        proof {
            let names = member_names.deep_view();
            assert(member_names[i as int]@ == names[i as int]);
            if i == 0 {
                assert(names.take(1)[0] == names[0]);
                assert(r@ =~= " (Member of: "@ + join_arrow(names.take(1)));
            } else {
                assert(names.take(i + 1).drop_last() =~= names.take(i as int));
                assert(names.take(i + 1).last() == names[i as int]);
                assert(join_arrow(names.take(i + 1)) =~= join_arrow(names.take(i as int)) + " -> "@
                    + names[i as int]);
                assert(r@ =~= " (Member of: "@ + join_arrow(names.take(i + 1)));
            }
        }
        i = i + 1;
    }
    r.append(")");
    proof {
        let names = member_names.deep_view();
        assert(names.take(names.len() as int) =~= names);
        assert(r@ =~= merge_members_seq(names));
    }
    r
}

/// The diagnostic line naming an object, its containment path and what kind
/// of binary it was found to be.
pub open spec fn debug_objects_seq(
    file_name: Seq<char>,
    names: Seq<Seq<char>>,
    object_name: Seq<char>,
) -> Seq<char> {
    "The binary named '"@ + file_name + "'"@ + merge_members_seq(names) + " is "@ + object_name
}

/// Builds the diagnostic line that introduces an object: its name, its
/// containment path and what kind of binary it was found to be. Emitting the
/// line is the caller's concern.
pub fn debug_objects(file_name: &str, member_names: &Vec<String>, object_name: &str) -> (r: String)
    ensures
        r@ == debug_objects_seq(file_name@, member_names.deep_view(), object_name@),
{
    let mut r = String::new();
    r.append("The binary named '");
    r.append(file_name);
    r.append("'");
    let members = merge_members(member_names);
    r.append(members.as_str());
    r.append(" is ");
    r.append(object_name);
    proof {
        assert(r@ =~= debug_objects_seq(file_name@, member_names.deep_view(), object_name@));
    }
    r
}

/// The message explaining an unknown magic number, ending in the big-endian
/// hexadecimal rendering of the magic.
pub open spec fn unknown_magic_msg(
    file_name: Seq<char>,
    names: Seq<Seq<char>>,
    magic: u64,
) -> Seq<char> {
    "The binary named '"@ + file_name + "'"@ + merge_members_seq(names)
        + " has a unknown magic number (in big-endian): "@ + magic_hex_seq(magic)
}

/// Builds the message explaining an unknown magic number.
pub fn build_unknown_magic_msg(file_name: &str, member_names: &Vec<String>, magic: u64) -> (r:
    String)
    ensures
        r@ == unknown_magic_msg(file_name@, member_names.deep_view(), magic),
{
    let mut r = String::new();
    r.append("The binary named '");
    r.append(file_name);
    r.append("'");
    let members = merge_members(member_names);
    r.append(members.as_str());
    r.append(" has a unknown magic number (in big-endian): ");
    push_magic_hex(&mut r, magic);
    proof {
        assert(r@ =~= unknown_magic_msg(file_name@, member_names.deep_view(), magic));
    }
    r
}

/// The message explaining a recognized but not implemented format.
pub open spec fn unsupported_msg(file_name: Seq<char>, names: Seq<Seq<char>>) -> Seq<char> {
    "The executable format of the file named '"@ + file_name + "'"@ + merge_members_seq(names)
        + " is not yet implemented"@
}

/// Builds the message explaining a recognized but not implemented format.
pub fn build_unsupported_msg(file_name: &str, member_names: &Vec<String>) -> (r: String)
    ensures
        r@ == unsupported_msg(file_name@, member_names.deep_view()),
{
    let mut r = String::new();
    r.append("The executable format of the file named '");
    r.append(file_name);
    r.append("'");
    let members = merge_members(member_names);
    r.append(members.as_str());
    r.append(" is not yet implemented");
    proof {
        assert(r@ =~= unsupported_msg(file_name@, member_names.deep_view()));
    }
    r
}

/// The synthesized label of the `n`-th slice of a multi-architecture
/// container (1-based).
pub open spec fn slice_label_seq(n: u64) -> Seq<char> {
    dec_seq(n as nat) + ". file"@
}

/// Builds the synthesized "{n}. file" label of a container slice.
pub fn build_slice_label(n: u64) -> (r: String)
    ensures
        r@ == slice_label_seq(n),
{
    let mut r = String::new();
    push_dec(&mut r, n);
    r.append(". file");
    proof {
        assert(r@ =~= slice_label_seq(n));
    }
    r
}

/// A "{major}.{minor}" version rendering.
pub open spec fn version_seq(major: u16, minor: u16) -> Seq<char> {
    dec_seq(major as nat) + "."@ + dec_seq(minor as nat)
}

/// Builds the "{major}.{minor}" version rendering.
pub fn build_version(major: u16, minor: u16) -> (r: String)
    ensures
        r@ == version_seq(major, minor),
{
    let mut r = String::new();
    push_dec(&mut r, major as u64);
    r.append(".");
    push_dec(&mut r, minor as u64);
    proof {
        assert(r@ =~= version_seq(major, minor));
    }
    r
}

} // verus!
