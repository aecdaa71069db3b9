//! Mount tables, file system space and the user store.

use crate::pattern::{replace, split_once_at};
use crate::probe::{
    FilesystemSpace, MountCapability, ProbeWarning, StorageCapability, UserstoreCapability,
};
use crate::redaction::redact_text;
use crate::text::{
    from_chars, slices, spells, split_at_char, split_lines, split_words, str_eq, to_chars, CharSet,
};
use crate::warning::warn;
use vstd::prelude::*;

verus! {

/// What is reported of one mount.
pub struct Mount {
    /// Where it is mounted.
    pub point: Seq<char>,
    /// The file system type.
    pub kind: Seq<char>,
    /// Whether it cannot be written.
    pub read_only: bool,
}

impl View for MountCapability {
    type V = Mount;

    open spec fn view(&self) -> Mount {
        Mount {
            point: self.mount_point@,
            kind: self.filesystem_type@,
            read_only: self.read_only,
        }
    }
}

/// What is reported of each mount.
pub open spec fn mounts(list: Seq<MountCapability>) -> Seq<Mount> {
    list.map_values(|mount: MountCapability| mount@)
}

/// A mount path with the kernel's escapes for white space and backslash
/// resolved, in that order.
pub open spec fn decoded(value: Seq<char>) -> Seq<char> {
    crate::pattern::replaced(
        crate::pattern::replaced(
            crate::pattern::replaced(
                crate::pattern::replaced(value, "\\040"@, ' '),
                "\\011"@,
                '\t',
            ),
            "\\012"@,
            '\n',
        ),
        "\\134"@,
        '\\',
    )
}

/// Resolves the kernel's escapes in a mount path.
pub fn decode_mount_escape(value: &[char]) -> (path: Vec<char>)
    ensures
        path@ == decoded(value@),
{
    proof {
        reveal_strlit("\\040");
        reveal_strlit("\\011");
        reveal_strlit("\\012");
        reveal_strlit("\\134");
    }
    let spaces: Vec<char> = replace(value, "\\040", ' ');
    let tabs: Vec<char> = replace(spaces.as_slice(), "\\011", '\t');
    let feeds: Vec<char> = replace(tabs.as_slice(), "\\012", '\n');
    replace(feeds.as_slice(), "\\134", '\\')
}

/// A mount path without the names of documents.
pub open spec fn sanitized(path: Seq<char>) -> Seq<char> {
    match crate::pattern::split_at_first(path, "/documents/"@) {
        Some((prefix, _)) => prefix + "/documents/<redacted>"@,
        None => crate::redaction::redacted_text(path),
    }
}

/// Removes the names of documents from a mount path.
pub fn sanitize_mount_path(path: &[char]) -> (safe: String)
    ensures
        safe@ == sanitized(path@),
{
    match split_once_at(path, "/documents/") {
        Some((prefix, _)) => {
            let mut safe: String = from_chars(prefix);
            safe.append("/documents/<redacted>");
            safe
        },
        None => redact_text(from_chars(path).as_str()),
    }
}

/// The name of a file system type, without unusual characters and at most 32
/// characters long.
pub open spec fn safe_type(value: Seq<char>) -> Seq<char> {
    let kept = value.filter(|c: char| CharSet::FileName.has(c));
    if kept.len() > 32 {
        kept.take(32)
    } else {
        kept
    }
}

/// Removes unusual characters from the name of a file system type.
pub fn safe_filesystem_type(value: &[char]) -> (safe: String)
    ensures
        safe@ == safe_type(value@),
{
    let ghost pred = |c: char| CharSet::FileName.has(c);
    let mut safe: String = String::new();
    let mut count: usize = 0;
    proof {
        reveal(Seq::filter);
    }
    assert(value@.take(0).filter(pred) =~= Seq::<char>::empty());
    for i in 0..value.len()
        invariant
            pred == (|c: char| CharSet::FileName.has(c)),
            count == safe@.len(),
            count <= 32,
            ({
                let kept = value@.take(i as int).filter(pred);
                safe@ == (if kept.len() > 32 {
                    kept.take(32)
                } else {
                    kept
                })
            }),
    {
        proof {
            reveal(Seq::filter);
        }
        let ghost kept = value@.take(i as int).filter(pred);
        assert(value@.take(i + 1).drop_last() =~= value@.take(i as int));
        if CharSet::FileName.test(value[i]) && count < 32 {
            safe.push(value[i]);
            count = count + 1;
            assert(safe@ =~= kept.push(value@[i as int]));
        } else {
            assert(pred(value@[i as int]) ==> kept.push(value@[i as int]).take(32) =~= kept.take(
                32,
            ) && kept.take(32) =~= safe@);
        }
    }
    assert(value@.take(value@.len() as int) =~= value@);
    safe
}

/// Whether mount options hold `ro`.
pub open spec fn is_read_only(options: Seq<char>) -> bool {
    crate::text::pieces(options, ',').contains("ro"@)
}

fn test_read_only(options: &[char]) -> (held: bool)
    ensures
        held == is_read_only(options@),
{
    let list: Vec<&[char]> = split_at_char(options, ',');
    let ghost all = crate::text::pieces(options@, ',');
    for i in 0..list.len()
        invariant
            all == slices(list@),
            all == crate::text::pieces(options@, ','),
            forall|j: int| 0 <= j < i ==> #[trigger] all[j] != "ro"@,
    {
        assert(all[i as int] == list@[i as int]@);
        if spells(list[i], "ro") {
            assert(all.contains("ro"@));
            return true;
        }
    }
    assert(!all.contains("ro"@));
    false
}

/// The mount that a line of `mountinfo` describes, if it is complete.
pub open spec fn mountinfo_entry(line: Seq<char>) -> Option<Mount> {
    let fields = crate::text::words(line);
    match fields.index_of_first("-"@) {
        Some(separator) => if fields.len() <= separator + 2 || fields.len() < 6 {
            None
        } else {
            Some(
                Mount {
                    point: sanitized(decoded(fields[4])),
                    kind: safe_type(fields[separator + 1]),
                    read_only: is_read_only(fields[5]),
                },
            )
        },
        None => None,
    }
}

fn mountinfo_mount(line: &[char]) -> (mount: Option<MountCapability>)
    ensures
        match mount {
            Some(mount) => mountinfo_entry(line@) == Some(mount@),
            None => mountinfo_entry(line@) is None,
        },
{
    let fields: Vec<&[char]> = split_words(line);
    let ghost all = crate::text::words(line@);
    assert(all == slices(fields@));
    let mut separator: usize = 0;
    while separator < fields.len() && !spells(fields[separator], "-")
        invariant
            separator <= fields@.len(),
            all == slices(fields@),
            forall|j: int| 0 <= j < separator ==> #[trigger] all[j] != "-"@,
        decreases fields@.len() - separator,
    {
        assert(all[separator as int] == fields@[separator as int]@);
        separator = separator + 1;
    }
    proof {
        all.index_of_first_ensures("-"@);
        if separator < fields@.len() {
            assert(all[separator as int] == fields@[separator as int]@);
            assert(all.contains("-"@));
        }
    }
    if separator >= fields.len() {
        return None;
    }
    if fields.len() - separator <= 2 || fields.len() < 6 {
        return None;
    }
    assert(all[4] == fields@[4]@ && all[5] == fields@[5]@ && all[separator + 1] == fields@[separator
        + 1]@);
    Some(
        MountCapability {
            mount_point: sanitize_mount_path(decode_mount_escape(fields[4]).as_slice()),
            filesystem_type: safe_filesystem_type(fields[separator + 1]),
            read_only: test_read_only(fields[5]),
        },
    )
}

/// Reads `mountinfo`: one mount for each complete line.
pub fn parse_mountinfo(contents: &str) -> (list: Vec<MountCapability>)
    ensures
        mounts(list@) == crate::text::lines(contents@).filter_map(
            |line: Seq<char>| mountinfo_entry(line),
        ),
{
    let chars: Vec<char> = to_chars(contents);
    let rows: Vec<&[char]> = split_lines(chars.as_slice());
    let ghost all = crate::text::lines(contents@);
    let ghost entry = |line: Seq<char>| mountinfo_entry(line);
    let mut list: Vec<MountCapability> = Vec::new();
    assert(mounts(list@) =~= all.take(0).filter_map(entry));
    for i in 0..rows.len()
        invariant
            all == slices(rows@),
            entry == (|line: Seq<char>| mountinfo_entry(line)),
            mounts(list@) == all.take(i as int).filter_map(entry),
    {
        assert(all.take(i + 1).drop_last() =~= all.take(i as int));
        assert(all.take(i + 1).last() == rows@[i as int]@);
        let ghost before = mounts(list@);
        match mountinfo_mount(rows[i]) {
            Some(mount) => {
                list.push(mount);
                assert(mounts(list@) =~= before + seq![mount@]);
            },
            None => {},
        }
    }
    assert(all.take(all.len() as int) =~= all);
    list
}

/// The mount that a line of `/proc/mounts` describes, if it is complete.
pub open spec fn proc_mounts_entry(line: Seq<char>) -> Option<Mount> {
    let fields = crate::text::words(line);
    if fields.len() >= 4 {
        Some(
            Mount {
                point: sanitized(decoded(fields[1])),
                kind: safe_type(fields[2]),
                read_only: is_read_only(fields[3]),
            },
        )
    } else {
        None
    }
}

fn proc_mounts_mount(line: &[char]) -> (mount: Option<MountCapability>)
    ensures
        match mount {
            Some(mount) => proc_mounts_entry(line@) == Some(mount@),
            None => proc_mounts_entry(line@) is None,
        },
{
    let fields: Vec<&[char]> = split_words(line);
    let ghost all = crate::text::words(line@);
    assert(all == slices(fields@));
    if fields.len() < 4 {
        return None;
    }
    assert(all[1] == fields@[1]@ && all[2] == fields@[2]@ && all[3] == fields@[3]@);
    Some(
        MountCapability {
            mount_point: sanitize_mount_path(decode_mount_escape(fields[1]).as_slice()),
            filesystem_type: safe_filesystem_type(fields[2]),
            read_only: test_read_only(fields[3]),
        },
    )
}

/// Reads `/proc/mounts`: one mount for each complete line.
pub fn parse_proc_mounts(contents: &str) -> (list: Vec<MountCapability>)
    ensures
        mounts(list@) == crate::text::lines(contents@).filter_map(
            |line: Seq<char>| proc_mounts_entry(line),
        ),
{
    let chars: Vec<char> = to_chars(contents);
    let rows: Vec<&[char]> = split_lines(chars.as_slice());
    let ghost all = crate::text::lines(contents@);
    let ghost entry = |line: Seq<char>| proc_mounts_entry(line);
    let mut list: Vec<MountCapability> = Vec::new();
    assert(mounts(list@) =~= all.take(0).filter_map(entry));
    for i in 0..rows.len()
        invariant
            all == slices(rows@),
            entry == (|line: Seq<char>| proc_mounts_entry(line)),
            mounts(list@) == all.take(i as int).filter_map(entry),
    {
        assert(all.take(i + 1).drop_last() =~= all.take(i as int));
        assert(all.take(i + 1).last() == rows@[i as int]@);
        let ghost before = mounts(list@);
        match proc_mounts_mount(rows[i]) {
            Some(mount) => {
                list.push(mount);
                assert(mounts(list@) =~= before + seq![mount@]);
            },
            None => {},
        }
    }
    assert(all.take(all.len() as int) =~= all);
    list
}

/// A product that does not exceed what 64 bits hold.
pub open spec fn capped_product(a: u64, b: u64) -> u64 {
    if a * b <= u64::MAX {
        (a * b) as u64
    } else {
        u64::MAX
    }
}

fn multiply_capped(a: u64, b: u64) -> (product: u64)
    ensures
        product == capped_product(a, b),
{
    match a.checked_mul(b) {
        Some(product) => product,
        None => u64::MAX,
    }
}

/// Computes the space of a file system from its block counts.
///
/// The fragment size counts, or the block size where no fragment size is known.
pub fn filesystem_space(
    path: &str,
    fragment_size: u64,
    block_size: u64,
    blocks: u64,
    available_blocks: u64,
) -> (space: FilesystemSpace)
    ensures
        space.path@ == path@,
        space.block_size == (if fragment_size == 0 {
            block_size
        } else {
            fragment_size
        }),
        space.total_bytes == capped_product(space.block_size, blocks),
        space.available_bytes == capped_product(space.block_size, available_blocks),
{
    let size: u64 = if fragment_size == 0 {
        block_size
    } else {
        fragment_size
    };
    FilesystemSpace {
        path: path.to_owned(),
        block_size: size,
        total_bytes: multiply_capped(size, blocks),
        available_bytes: multiply_capped(size, available_blocks),
    }
}

/// Where the user store is mounted, in order of preference.
pub const USERSTORE_PATH: &'static str = "/mnt/us";

/// Where the user store is mounted when it is not at its usual place.
pub const BASE_USERSTORE_PATH: &'static str = "/mnt/base-us";

/// Picks the path of the user store.
pub fn userstore_path(usual_exists: bool, base_exists: bool) -> (path: &'static str)
    ensures
        path@ == (if !usual_exists && base_exists {
            BASE_USERSTORE_PATH@
        } else {
            USERSTORE_PATH@
        }),
{
    if !usual_exists && base_exists {
        BASE_USERSTORE_PATH
    } else {
        USERSTORE_PATH
    }
}

/// The mounts that two mount tables describe: the first table that could be
/// read counts.
pub open spec fn read_mounts(
    mountinfo: Option<Seq<char>>,
    proc_mounts: Option<Seq<char>>,
) -> Option<Seq<Mount>> {
    match (mountinfo, proc_mounts) {
        (Some(table), _) => Some(
            crate::text::lines(table).filter_map(|line: Seq<char>| mountinfo_entry(line)),
        ),
        (None, Some(table)) => Some(
            crate::text::lines(table).filter_map(|line: Seq<char>| proc_mounts_entry(line)),
        ),
        (None, None) => None,
    }
}

/// Whether the mounts hold one at `path`, and whether the first such mount
/// cannot be written.
pub open spec fn mount_at(list: Seq<Mount>, path: Seq<char>) -> Option<bool>
    decreases list.len(),
{
    if list.len() == 0 {
        None
    } else if list[0].point == path {
        Some(list[0].read_only)
    } else {
        mount_at(list.skip(1), path)
    }
}

fn find_mount(list: &Vec<MountCapability>, path: &str) -> (read_only: Option<bool>)
    ensures
        read_only == mount_at(mounts(list@), path@),
{
    let ghost all = mounts(list@);
    assert(all.skip(0) =~= all);
    for i in 0..list.len()
        invariant
            all == mounts(list@),
            mount_at(all, path@) == mount_at(all.skip(i as int), path@),
    {
        assert(all.skip(i as int)[0] == list@[i as int]@);
        if str_eq(list[i].mount_point.as_str(), path) {
            return Some(list[i].read_only);
        }
        assert(all.skip(i as int).skip(1) =~= all.skip(i + 1));
    }
    None
}

/// Describes the mounts and the user store from what could be read.
///
/// `spaces` holds the space of the root and, where it exists, of the user store.
pub fn collect_storage(
    mountinfo: &Option<String>,
    proc_mounts: &Option<String>,
    usual_exists: bool,
    base_exists: bool,
    spaces: Vec<FilesystemSpace>,
    warnings: &mut Vec<ProbeWarning>,
) -> (storage: StorageCapability)
    ensures
        ({
            let read = read_mounts(
                crate::text::optional_text(*mountinfo),
                crate::text::optional_text(*proc_mounts),
            );
            let found = match read {
                Some(found) => found,
                None => seq![],
            };
            let path = if !usual_exists && base_exists {
                BASE_USERSTORE_PATH@
            } else {
                USERSTORE_PATH@
            };
            &&& mounts(storage.mounts@) == found
            &&& storage.filesystems == spaces
            &&& storage.userstore.path@ == path
            &&& storage.userstore.exists == (usual_exists || base_exists)
            &&& storage.userstore.mounted == mount_at(found, path) is Some
            &&& storage.userstore.read_only == mount_at(found, path)
            &&& crate::warning::notices(final(warnings)@) == crate::warning::notices(
                old(warnings)@,
            ) + crate::warning::when(
                read is None,
                "storage"@,
                "mounts_unavailable"@,
                "neither /proc/self/mountinfo nor /proc/mounts was readable"@,
            )
        }),
{
    let list: Vec<MountCapability> = match mountinfo {
        Some(table) => parse_mountinfo(table.as_str()),
        None => match proc_mounts {
            Some(table) => parse_proc_mounts(table.as_str()),
            None => {
                warn(
                    warnings,
                    "storage",
                    "mounts_unavailable",
                    "neither /proc/self/mountinfo nor /proc/mounts was readable",
                );
                Vec::new()
            },
        },
    };
    assert(mountinfo is None && proc_mounts is None ==> mounts(list@) =~= seq![]);
    assert(mountinfo is Some || proc_mounts is Some ==> crate::warning::notices(warnings@)
        =~= crate::warning::notices(old(warnings)@) + seq![]);
    let path: &'static str = userstore_path(usual_exists, base_exists);
    let read_only: Option<bool> = find_mount(&list, path);
    StorageCapability {
        mounts: list,
        filesystems: spaces,
        userstore: UserstoreCapability {
            path: path.to_owned(),
            exists: usual_exists || base_exists,
            mounted: read_only.is_some(),
            read_only,
        },
    }
}

/// Of a path below a directory of documents, only what stands before the first
/// such directory is reported: nothing of a document's name remains.
pub proof fn law_document_names_are_removed(path: Seq<char>)
    requires
        crate::text::occurs(path, "/documents/"@),
    ensures
        ({
            let first = crate::pattern::first_position(path, "/documents/"@);
            &&& crate::text::occurs_at(path, "/documents/"@, first)
            &&& forall|i: int|
                0 <= i < first ==> !#[trigger] crate::text::occurs_at(path, "/documents/"@, i)
            &&& sanitized(path) == path.take(first) + "/documents/<redacted>"@
        }),
        crate::text::ends(sanitized(path), "/documents/<redacted>"@),
{
    crate::pattern::first_position_is_first(path, "/documents/"@);
    let prefix = path.take(crate::pattern::first_position(path, "/documents/"@));
    let mark = "/documents/<redacted>"@;
    let whole = prefix + mark;
    assert(whole.subrange(prefix.len() as int, whole.len() as int) =~= mark);
}

// ---------------------------------------------------------------------------
// What a mount table tells
// ---------------------------------------------------------------------------
/// How a mount table writes a character: spaces, tabs, line feeds and
/// backslashes by their octal codes, of which the first `done` are read already.
pub open spec fn written(c: char, done: int) -> Seq<char> {
    if c == ' ' && done < 1 {
        seq!['\\', '0', '4', '0']
    } else if c == '\t' && done < 2 {
        seq!['\\', '0', '1', '1']
    } else if c == '\n' && done < 3 {
        seq!['\\', '0', '1', '2']
    } else if c == '\\' && done < 4 {
        seq!['\\', '1', '3', '4']
    } else {
        seq![c]
    }
}

/// How a mount table writes a path.
pub open spec fn escaped(path: Seq<char>, done: int) -> Seq<char>
    decreases path.len(),
{
    if path.len() == 0 {
        path
    } else {
        written(path[0], done) + escaped(path.skip(1), done)
    }
}

proof fn replacing_passes_over(code: Seq<char>, rest: Seq<char>, needle: Seq<char>, with: char)
    requires
        code.len() == 4,
        needle.len() == 4,
        code != needle,
        needle[0] == '\\',
        code[1] != '\\' && code[2] != '\\' && code[3] != '\\',
    ensures
        crate::pattern::replaced(code + rest, needle, with) == code + crate::pattern::replaced(
            rest,
            needle,
            with,
        ),
{
    let s = code + rest;
    if crate::text::begins(s, needle) {
        assert(s.subrange(0, 4) =~= code);
    }
    let one = s.skip(1);
    let two = one.skip(1);
    let three = two.skip(1);
    assert(one[0] == code[1] && two[0] == code[2] && three[0] == code[3]);
    if crate::text::begins(one, needle) {
        assert(one.subrange(0, 4)[0] == needle[0]);
    }
    if crate::text::begins(two, needle) {
        assert(two.subrange(0, 4)[0] == needle[0]);
    }
    if crate::text::begins(three, needle) {
        assert(three.subrange(0, 4)[0] == needle[0]);
    }
    assert(three.skip(1) =~= rest);
    let end = crate::pattern::replaced(rest, needle, with);
    assert(crate::pattern::replaced(three, needle, with) == seq![code[3]] + end);
    assert(crate::pattern::replaced(two, needle, with) == seq![code[2]] + (seq![code[3]] + end));
    assert(crate::pattern::replaced(one, needle, with) == seq![code[1]] + (seq![code[2]] + (
    seq![code[3]] + end)));
    assert(crate::pattern::replaced(s, needle, with) =~= code + crate::pattern::replaced(
        rest,
        needle,
        with,
    ));
}

proof fn one_code_is_read(path: Seq<char>, done: int, with: char)
    requires
        0 <= done < 4,
        with == (if done == 0 {
            ' '
        } else if done == 1 {
            '\t'
        } else if done == 2 {
            '\n'
        } else {
            '\\'
        }),
    ensures
        crate::pattern::replaced(escaped(path, done), written(with, done), with) == escaped(
            path,
            done + 1,
        ),
    decreases path.len(),
{
    let needle = written(with, done);
    if path.len() > 0 {
        let c = path[0];
        let rest = escaped(path.skip(1), done);
        let s = escaped(path, done);
        one_code_is_read(path.skip(1), done, with);
        assert(s =~= written(c, done) + rest);
        if c == with {
            assert(s.subrange(0, 4) =~= needle);
            assert(crate::text::begins(s, needle));
            assert(s.skip(4) =~= rest);
        } else if written(c, done).len() == 1 {
            assert(s[0] == c);
            if crate::text::begins(s, needle) {
                assert(s.subrange(0, 4)[0] == needle[0]);
            }
            assert(s.skip(1) =~= rest);
        } else {
            let code = written(c, done);
            assert(code[2] != needle[2] || code[1] != needle[1] || code[3] != needle[3]);
            replacing_passes_over(code, rest, needle, with);
        }
    }
}

proof fn nothing_is_left_to_read(path: Seq<char>)
    ensures
        escaped(path, 4) == path,
    decreases path.len(),
{
    if path.len() > 0 {
        nothing_is_left_to_read(path.skip(1));
        assert(seq![path[0]] + path.skip(1) =~= path);
    }
}

/// Decoding gives back every path that a mount table wrote.
pub proof fn law_written_paths_are_decoded(path: Seq<char>)
    ensures
        decoded(escaped(path, 0)) == path,
{
    reveal_strlit("\\040");
    reveal_strlit("\\011");
    reveal_strlit("\\012");
    reveal_strlit("\\134");
    assert("\\040"@ =~= written(' ', 0));
    assert("\\011"@ =~= written('\t', 1));
    assert("\\012"@ =~= written('\n', 2));
    assert("\\134"@ =~= written('\\', 3));
    one_code_is_read(path, 0, ' ');
    one_code_is_read(path, 1, '\t');
    one_code_is_read(path, 2, '\n');
    one_code_is_read(path, 3, '\\');
    nothing_is_left_to_read(path);
}

/// A path outside of the documents is redacted as any text.
pub proof fn law_other_paths_are_redacted(path: Seq<char>)
    requires
        !crate::text::occurs(path, "/documents/"@),
    ensures
        sanitized(path) == crate::redaction::redacted_text(path),
{
}

/// A file system type keeps its letters, digits, dots, dashes and underscores in
/// order, up to 32 of them.
pub proof fn law_types_keep_their_safe_characters(value: Seq<char>, c: char)
    ensures
        safe_type(Seq::<char>::empty()) == Seq::<char>::empty(),
        safe_type(value).len() <= 32,
        CharSet::FileName.has(c) && safe_type(value).len() < 32 ==> safe_type(value.push(c))
            == safe_type(value).push(c),
        !CharSet::FileName.has(c) || safe_type(value).len() == 32 ==> safe_type(value.push(c))
            == safe_type(value),
{
    reveal(Seq::filter);
    let pred = |c: char| CharSet::FileName.has(c);
    assert(value.push(c).drop_last() =~= value);
    let kept = value.filter(pred);
    if CharSet::FileName.has(c) {
        assert(value.push(c).filter(pred) == kept.push(c));
        assert(kept.len() >= 32 ==> kept.push(c).take(32) =~= kept.take(32));
        assert(kept.len() == 32 ==> kept.take(32) =~= kept);
    } else {
        assert(value.push(c).filter(pred) == kept);
    }
}

/// A mount is read only exactly when one of its options is `ro`.
pub proof fn law_read_only_is_an_option(options: Seq<Seq<char>>)
    requires
        options.len() > 0,
        forall|i: int| 0 <= i < options.len() ==> !(#[trigger] options[i]).contains(','),
    ensures
        is_read_only(crate::text::joined(options, seq![','])) <==> options.contains("ro"@),
{
    crate::text::law_joined_pieces_are_found_again(options, ',');
}

/// A line of `mountinfo` is a mount exactly when it has six fields and two more
/// behind a dash: the fifth is its point, the sixth its options, and the first
/// behind the dash its type.
pub proof fn law_mountinfo_lines_have_a_dash(fields: Seq<Seq<char>>, at: int)
    requires
        forall|i: int|
            0 <= i < fields.len() ==> (#[trigger] fields[i]).len() > 0
                && CharSet::NotWhitespace.covers(fields[i]),
        0 <= at <= fields.len(),
        at < fields.len() ==> fields[at] == "-"@,
        forall|i: int| 0 <= i < at ==> #[trigger] fields[i] != "-"@,
    ensures
        ({
            let entry = mountinfo_entry(crate::text::joined(fields, seq![' ']));
            &&& entry is Some <==> at < fields.len() && fields.len() >= 6 && fields.len() >= at + 3
            &&& entry matches Some(mount) ==> {
                &&& mount.point == sanitized(decoded(fields[4]))
                &&& mount.kind == safe_type(fields[at + 1])
                &&& mount.read_only == is_read_only(fields[5])
            }
        }),
{
    crate::text::law_joined_words_are_found_again(fields);
    fields.index_of_first_ensures("-"@);
    if at < fields.len() {
        assert(fields.contains("-"@));
    }
}

/// A line of `mounts` is a mount exactly when it has four fields: the second is
/// its point, the third its type and the fourth its options.
pub proof fn law_mounts_lines_have_four_fields(fields: Seq<Seq<char>>)
    requires
        forall|i: int|
            0 <= i < fields.len() ==> (#[trigger] fields[i]).len() > 0
                && CharSet::NotWhitespace.covers(fields[i]),
    ensures
        ({
            let entry = proc_mounts_entry(crate::text::joined(fields, seq![' ']));
            &&& entry is Some <==> fields.len() >= 4
            &&& entry matches Some(mount) ==> {
                &&& mount.point == sanitized(decoded(fields[1]))
                &&& mount.kind == safe_type(fields[2])
                &&& mount.read_only == is_read_only(fields[3])
            }
        }),
{
    crate::text::law_joined_words_are_found_again(fields);
}

/// The first mount at a path is the one that counts.
pub proof fn law_the_first_mount_counts(list: Seq<Mount>, path: Seq<char>)
    ensures
        match mount_at(list, path) {
            Some(read_only) => exists|i: int|
                0 <= i < list.len() && (#[trigger] list[i]).point == path && list[i].read_only
                    == read_only && forall|j: int|
                    0 <= j < i ==> (#[trigger] list[j]).point != path,
            None => forall|i: int| 0 <= i < list.len() ==> (#[trigger] list[i]).point != path,
        },
    decreases list.len(),
{
    if list.len() > 0 && list[0].point != path {
        let rest = list.skip(1);
        law_the_first_mount_counts(rest, path);
        match mount_at(rest, path) {
            Some(read_only) => {
                let i = choose|i: int|
                    0 <= i < rest.len() && (#[trigger] rest[i]).point == path && rest[i].read_only
                        == read_only && forall|j: int|
                        0 <= j < i ==> (#[trigger] rest[j]).point != path;
                assert(list[i + 1] == rest[i]);
                assert forall|j: int| 0 <= j < i + 1 implies (#[trigger] list[j]).point
                    != path by {
                    if j > 0 {
                        assert(list[j] == rest[j - 1]);
                    }
                }
            },
            None => {
                assert forall|i: int| 0 <= i < list.len() implies (#[trigger] list[i]).point
                    != path by {
                    if i > 0 {
                        assert(list[i] == rest[i - 1]);
                    }
                }
            },
        }
    }
}

/// The table of the process is read where it is there, and the table of all
/// mounts only otherwise.
pub proof fn law_the_mount_table_of_the_process_is_preferred(
    mountinfo: Seq<char>,
    proc_mounts: Option<Seq<char>>,
)
    ensures
        read_mounts(Some(mountinfo), proc_mounts) == Some(
            crate::text::lines(mountinfo).filter_map(|line: Seq<char>| mountinfo_entry(line)),
        ),
        proc_mounts matches Some(table) ==> read_mounts(None, proc_mounts) == Some(
            crate::text::lines(table).filter_map(|line: Seq<char>| proc_mounts_entry(line)),
        ),
        read_mounts(None, None) is None,
{
}

/// A product is exact where 64 bits can hold it, and the largest number of 64
/// bits otherwise.
pub proof fn law_products_stop_at_the_largest_number(a: u64, b: u64)
    ensures
        a * b <= 0xffff_ffff_ffff_ffff ==> capped_product(a, b) == a * b,
        a * b > 0xffff_ffff_ffff_ffff ==> capped_product(a, b) == 0xffff_ffff_ffff_ffff,
{
    assert(a * b >= 0) by (nonlinear_arith);
}

} // verus!
