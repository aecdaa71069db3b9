//! The processes that matter for a foreground shell.

use crate::number::read_unsigned;
use crate::probe::ProcessCapability;
use crate::redaction::redact_text;
use crate::text::{
    from_chars, slices, split_lines, strip_prefix, test_occurs, to_chars, to_lower, trim, CharSet,
};
use vstd::prelude::*;

verus! {

/// What is reported of one process.
pub struct Process {
    /// Process number.
    pub pid: u32,
    /// Number of the parent process.
    pub parent: Option<u32>,
    /// Redacted command name.
    pub name: Seq<char>,
    /// Redacted scheduling state.
    pub state: Option<Seq<char>>,
}

impl View for ProcessCapability {
    type V = Process;

    open spec fn view(&self) -> Process {
        Process {
            pid: self.pid,
            parent: self.parent_pid,
            name: self.name@,
            state: crate::text::optional_text(self.state),
        }
    }
}

/// What is reported of each process.
pub open spec fn processes(list: Seq<ProcessCapability>) -> Seq<Process> {
    list.map_values(|process: ProcessCapability| process@)
}

/// What follows the prefix in the first line that begins with it.
pub open spec fn first_with_prefix(lines: Seq<Seq<char>>, prefix: Seq<char>) -> Option<Seq<char>>
    decreases lines.len(),
{
    if lines.len() == 0 {
        None
    } else if crate::text::begins(lines[0], prefix) {
        crate::text::after_prefix(lines[0], prefix)
    } else {
        first_with_prefix(lines.skip(1), prefix)
    }
}

/// The trimmed value of the first line that begins with the field's name,
/// unless it is empty.
pub open spec fn status_field(status: Seq<char>, field: Seq<char>) -> Option<Seq<char>> {
    match first_with_prefix(crate::text::lines(status), field) {
        Some(value) => {
            let value = crate::text::trimmed(value, CharSet::Whitespace);
            if value.len() > 0 {
                Some(value)
            } else {
                None
            }
        },
        None => None,
    }
}

/// Returns a field of a process status file.
pub fn process_status_field(status: &str, field: &str) -> (value: Option<String>)
    ensures
        crate::text::optional_text(value) == status_field(status@, field@),
{
    let chars: Vec<char> = to_chars(status);
    let rows: Vec<&[char]> = split_lines(chars.as_slice());
    let ghost all = crate::text::lines(status@);
    assert(all.skip(0) =~= all);
    for i in 0..rows.len()
        invariant
            all == slices(rows@),
            all == crate::text::lines(status@),
            first_with_prefix(all, field@) == first_with_prefix(all.skip(i as int), field@),
    {
        assert(all.skip(i as int)[0] == rows@[i as int]@);
        if let Some(value) = strip_prefix(rows[i], field) {
            let value: &[char] = trim(value, CharSet::Whitespace);
            if value.len() == 0 {
                return None;
            }
            return Some(from_chars(value));
        }
        assert(all.skip(i as int).skip(1) =~= all.skip(i + 1));
    }
    None
}

/// What a process name holds when the process matters.
pub open spec fn process_markers() -> Seq<&'static str> {
    seq![
        "init",
        "upstart",
        "powerd",
        "cvm",
        "awesome",
        "xorg",
        "framework",
        "lipc",
        "wifid",
        "volumd",
        "otav3",
        "otaupd",
        "usb",
        "watchdog",
        "thermal",
        "pillow",
        "webreader",
        "kfxreader",
        "kfxview",
        "mesquite",
        "browserd",
        "stored",
        "scanner",
        "pmond",
        "phd",
        "blanket",
        "lab126_gui",
        "appmgrd",
        "deviced",
    ]
}

/// Whether a process matters: its name holds one of the markers, in any case.
pub open spec fn is_relevant(name: Seq<char>) -> bool {
    exists|i: int|
        0 <= i < process_markers().len() && crate::text::occurs(
            crate::text::lowered(name),
            (#[trigger] process_markers()[i])@,
        )
}

/// Tests whether a process matters.
pub fn is_relevant_process(name: &str) -> (held: bool)
    ensures
        held == is_relevant(name@),
{
    let markers: [&'static str; 29] = [
        "init",
        "upstart",
        "powerd",
        "cvm",
        "awesome",
        "xorg",
        "framework",
        "lipc",
        "wifid",
        "volumd",
        "otav3",
        "otaupd",
        "usb",
        "watchdog",
        "thermal",
        "pillow",
        "webreader",
        "kfxreader",
        "kfxview",
        "mesquite",
        "browserd",
        "stored",
        "scanner",
        "pmond",
        "phd",
        "blanket",
        "lab126_gui",
        "appmgrd",
        "deviced",
    ];
    assert(markers@ =~= process_markers());
    let lower: Vec<char> = to_lower(to_chars(name).as_slice());
    for i in 0..29usize
        invariant
            markers@ == process_markers(),
            lower@ == crate::text::lowered(name@),
            forall|j: int|
                0 <= j < i ==> !crate::text::occurs(lower@, (#[trigger] process_markers()[j])@),
    {
        if test_occurs(lower.as_slice(), markers[i]) {
            assert(crate::text::occurs(lower@, process_markers()[i as int]@));
            return true;
        }
    }
    false
}

/// A 32-bit decimal number.
pub open spec fn number_u32(value: Seq<char>) -> Option<u32> {
    match crate::number::at_most(crate::number::unsigned_value(value, 10), u32::MAX as nat) {
        Some(value) => Some(value as u32),
        None => None,
    }
}

/// Reads a 32-bit decimal number.
pub fn parse_u32(value: &str) -> (number: Option<u32>)
    ensures
        number == number_u32(value@),
{
    match read_unsigned(to_chars(value).as_slice(), 10, 4_294_967_295) {
        Some(number) => Some(number as u32),
        None => None,
    }
}

/// What could be read of one process.
#[derive(Debug, Clone, PartialEq, Eq)]
pub struct ProcessFiles {
    /// Process number.
    pub pid: u32,
    /// Text of the status file; empty when it could not be read.
    pub status: String,
    /// Trimmed command name, on kernels that have a file for it.
    pub comm: Option<String>,
}

impl ProcessFiles {
    /// The command name.
    pub open spec fn command(self) -> Option<Seq<char>> {
        match crate::text::optional_text(self.comm) {
            Some(comm) => Some(comm),
            None => status_field(self.status@, "Name:"@),
        }
    }

    /// What is reported of the process, if it matters.
    pub open spec fn described(self) -> Option<Process> {
        match self.command() {
            Some(name) => if is_relevant(name) {
                Some(
                    Process {
                        pid: self.pid,
                        parent: match status_field(self.status@, "PPid:"@) {
                            Some(value) => number_u32(value),
                            None => None,
                        },
                        name: crate::redaction::redacted_text(name),
                        state: match status_field(self.status@, "State:"@) {
                            Some(value) => Some(crate::redaction::redacted_text(value)),
                            None => None,
                        },
                    },
                )
            } else {
                None
            },
            None => None,
        }
    }

    /// Describes the process, if it matters.
    pub fn describe(&self) -> (process: Option<ProcessCapability>)
        ensures
            match process {
                Some(process) => self.described() == Some(process@),
                None => self.described() is None,
            },
    {
        let name: String = match &self.comm {
            Some(comm) => comm.clone(),
            None => match process_status_field(self.status.as_str(), "Name:") {
                Some(name) => name,
                None => {
                    return None;
                },
            },
        };
        if !is_relevant_process(name.as_str()) {
            return None;
        }
        let parent_pid: Option<u32> = match process_status_field(self.status.as_str(), "PPid:") {
            Some(value) => parse_u32(value.as_str()),
            None => None,
        };
        let state: Option<String> = match process_status_field(self.status.as_str(), "State:") {
            Some(value) => Some(redact_text(value.as_str())),
            None => None,
        };
        Some(
            ProcessCapability {
                pid: self.pid,
                parent_pid,
                name: redact_text(name.as_str()),
                state,
            },
        )
    }
}

/// Whether processes come in the order of their numbers.
pub open spec fn in_order(list: Seq<Process>) -> bool {
    forall|i: int, j: int|
        0 <= i < j < list.len() ==> (#[trigger] list[i]).pid <= (#[trigger] list[j]).pid
}

/// The processes with the given number, in their order.
pub open spec fn numbered(list: Seq<Process>, pid: u32) -> Seq<Process> {
    list.filter(|process: Process| process.pid == pid)
}

/// Whether two lists hold the same processes, those of one number in the same
/// order.
pub open spec fn same_by_number(a: Seq<Process>, b: Seq<Process>) -> bool {
    forall|pid: u32| #[trigger] numbered(a, pid) == numbered(b, pid)
}

/// An item before nothing but larger numbers comes last among those of its
/// number.
proof fn inserted_comes_last(list: Seq<Process>, at: int, item: Process, pid: u32)
    requires
        0 <= at <= list.len(),
        forall|i: int| at <= i < list.len() ==> (#[trigger] list[i]).pid > item.pid,
    ensures
        numbered(list.insert(at, item), pid) == numbered(list.push(item), pid),
{
    let same = |process: Process| process.pid == pid;
    let front = list.take(at);
    let back = list.skip(at);
    let one = seq![item];
    reveal(Seq::filter);
    assert(list.insert(at, item) =~= front + (one + back));
    assert(list.push(item) =~= front + (back + one));
    Seq::filter_distributes_over_add(front, one + back, same);
    Seq::filter_distributes_over_add(front, back + one, same);
    Seq::filter_distributes_over_add(one, back, same);
    Seq::filter_distributes_over_add(back, one, same);
    if item.pid == pid {
        assert forall|i: int| 0 <= i < back.len() implies !same(#[trigger] back[i]) by {
            assert(back[i] == list[at + i]);
        }
        back.lemma_all_neg_filter_empty(same);
        assert(one.filter(same) + back.filter(same) =~= back.filter(same) + one.filter(same));
    } else {
        assert(!same(one[0]));
        one.lemma_all_neg_filter_empty(same);
        assert(one.filter(same) + back.filter(same) =~= back.filter(same) + one.filter(same));
    }
}

fn insert_in_order(list: &mut Vec<ProcessCapability>, process: ProcessCapability)
    requires
        in_order(processes(old(list)@)),
    ensures
        in_order(processes(final(list)@)),
        same_by_number(processes(final(list)@), processes(old(list)@).push(process@)),
{
    let ghost before = processes(list@);
    let mut at: usize = list.len();
    while at > 0 && list[at - 1].pid > process.pid
        invariant
            at <= list@.len(),
            before == processes(list@),
            in_order(before),
            forall|i: int| at <= i < before.len() ==> (#[trigger] before[i]).pid > process.pid,
        decreases at,
    {
        at = at - 1;
        assert(before[at as int] == list@[at as int]@);
    }
    proof {
        if at > 0 {
            assert(before[at - 1] == list@[at - 1]@);
        }
    }
    let ghost item = process@;
    list.insert(at, process);
    proof {
        let after = processes(list@);
        assert(after =~= before.insert(at as int, item));
        assert forall|pid: u32| #[trigger] numbered(after, pid) == numbered(
            before.push(item),
            pid,
        ) by {
            inserted_comes_last(before, at as int, item, pid);
        }
        assert forall|i: int, j: int| 0 <= i < j < after.len() implies (
        #[trigger] after[i]).pid <= (#[trigger] after[j]).pid by {
            let old_i = if i < at {
                i
            } else {
                i - 1
            };
            let old_j = if j < at {
                j
            } else {
                j - 1
            };
            if i == at {
                assert(after[j] == before[old_j]);
            } else if j == at {
                assert(after[i] == before[old_i]);
                if at > 0 && i < at - 1 {
                    assert(before[i].pid <= before[at - 1].pid);
                }
            } else {
                assert(after[i] == before[old_i]);
                assert(after[j] == before[old_j]);
            }
        }
    }
}

/// Describes the processes that matter, in the order of their numbers; those of
/// one number keep their order.
pub fn collect_processes(files: &Vec<ProcessFiles>) -> (list: Vec<ProcessCapability>)
    ensures
        in_order(processes(list@)),
        same_by_number(
            processes(list@),
            files@.filter_map(|process: ProcessFiles| process.described()),
        ),
{
    let ghost described = |process: ProcessFiles| process.described();
    let mut list: Vec<ProcessCapability> = Vec::new();
    assert(processes(list@) =~= files@.take(0).filter_map(described));
    for i in 0..files.len()
        invariant
            described == (|process: ProcessFiles| process.described()),
            in_order(processes(list@)),
            same_by_number(processes(list@), files@.take(i as int).filter_map(described)),
    {
        let ghost before = files@.take(i as int).filter_map(described);
        let ghost listed = processes(list@);
        assert(files@.take(i + 1).drop_last() =~= files@.take(i as int));
        if let Some(process) = files[i].describe() {
            let ghost item = process@;
            insert_in_order(&mut list, process);
            proof {
                assert(before + seq![item] =~= before.push(item));
                assert forall|pid: u32| #[trigger] numbered(processes(list@), pid) == numbered(
                    before.push(item),
                    pid,
                ) by {
                    pushed_alike(listed, before, item, pid);
                    assert(numbered(listed, pid) == numbered(before, pid));
                    assert(numbered(processes(list@), pid) == numbered(listed.push(item), pid));
                }
            }
        }
    }
    assert(files@.take(files@.len() as int) =~= files@);
    list
}

proof fn pushed_alike(a: Seq<Process>, b: Seq<Process>, item: Process, pid: u32)
    requires
        numbered(a, pid) == numbered(b, pid),
    ensures
        numbered(a.push(item), pid) == numbered(b.push(item), pid),
{
    reveal(Seq::filter);
    assert(a.push(item).drop_last() =~= a);
    assert(b.push(item).drop_last() =~= b);
}

/// A process is described exactly when it is relevant, which its name is where it
/// holds one of these markers in letters of any case.
pub proof fn law_markers_make_a_process_relevant(name: Seq<char>)
    ensures
        is_relevant(name) <==> {
            let low = crate::text::lowered(name);
            ||| crate::text::occurs(low, "init"@)
            ||| crate::text::occurs(low, "upstart"@)
            ||| crate::text::occurs(low, "powerd"@)
            ||| crate::text::occurs(low, "cvm"@)
            ||| crate::text::occurs(low, "awesome"@)
            ||| crate::text::occurs(low, "xorg"@)
            ||| crate::text::occurs(low, "framework"@)
            ||| crate::text::occurs(low, "lipc"@)
            ||| crate::text::occurs(low, "wifid"@)
            ||| crate::text::occurs(low, "volumd"@)
            ||| crate::text::occurs(low, "otav3"@)
            ||| crate::text::occurs(low, "otaupd"@)
            ||| crate::text::occurs(low, "usb"@)
            ||| crate::text::occurs(low, "watchdog"@)
            ||| crate::text::occurs(low, "thermal"@)
            ||| crate::text::occurs(low, "pillow"@)
            ||| crate::text::occurs(low, "webreader"@)
            ||| crate::text::occurs(low, "kfxreader"@)
            ||| crate::text::occurs(low, "kfxview"@)
            ||| crate::text::occurs(low, "mesquite"@)
            ||| crate::text::occurs(low, "browserd"@)
            ||| crate::text::occurs(low, "stored"@)
            ||| crate::text::occurs(low, "scanner"@)
            ||| crate::text::occurs(low, "pmond"@)
            ||| crate::text::occurs(low, "phd"@)
            ||| crate::text::occurs(low, "blanket"@)
            ||| crate::text::occurs(low, "lab126_gui"@)
            ||| crate::text::occurs(low, "appmgrd"@)
            ||| crate::text::occurs(low, "deviced"@)
        },
{
    let markers = process_markers();
    assert(markers.len() == 29);
    assert(markers[0]@ == "init"@ && markers[1]@ == "upstart"@ && markers[2]@ == "powerd"@);
    assert(markers[3]@ == "cvm"@ && markers[4]@ == "awesome"@ && markers[5]@ == "xorg"@);
    assert(markers[6]@ == "framework"@ && markers[7]@ == "lipc"@ && markers[8]@ == "wifid"@);
    assert(markers[9]@ == "volumd"@ && markers[10]@ == "otav3"@ && markers[11]@ == "otaupd"@);
    assert(markers[12]@ == "usb"@ && markers[13]@ == "watchdog"@ && markers[14]@ == "thermal"@);
    assert(markers[15]@ == "pillow"@ && markers[16]@ == "webreader"@);
    assert(markers[17]@ == "kfxreader"@ && markers[18]@ == "kfxview"@);
    assert(markers[19]@ == "mesquite"@ && markers[20]@ == "browserd"@);
    assert(markers[21]@ == "stored"@ && markers[22]@ == "scanner"@ && markers[23]@ == "pmond"@);
    assert(markers[24]@ == "phd"@ && markers[25]@ == "blanket"@);
    assert(markers[26]@ == "lab126_gui"@ && markers[27]@ == "appmgrd"@);
    assert(markers[28]@ == "deviced"@);
}

/// The first line that begins with a field's name holds its value.
pub proof fn law_the_first_line_of_a_field_counts(lines: Seq<Seq<char>>, prefix: Seq<char>)
    ensures
        match first_with_prefix(lines, prefix) {
            Some(value) => exists|i: int|
                0 <= i < lines.len() && #[trigger] lines[i] == prefix + value && forall|j: int|
                    0 <= j < i ==> !crate::text::begins(#[trigger] lines[j], prefix),
            None => forall|i: int|
                0 <= i < lines.len() ==> !crate::text::begins(#[trigger] lines[i], prefix),
        },
    decreases lines.len(),
{
    if lines.len() > 0 {
        let rest = lines.skip(1);
        if crate::text::begins(lines[0], prefix) {
            let line = lines[0];
            let n = prefix.len() as int;
            assert(line =~= line.subrange(0, n) + line.skip(n));
            assert(first_with_prefix(lines, prefix) == Some(line.skip(n)));
            assert(lines[0] == prefix + line.skip(n));
        } else {
            law_the_first_line_of_a_field_counts(rest, prefix);
            match first_with_prefix(rest, prefix) {
                Some(value) => {
                    let i = choose|i: int|
                        0 <= i < rest.len() && #[trigger] rest[i] == prefix + value && forall|
                            j: int,
                        |
                            0 <= j < i ==> !crate::text::begins(#[trigger] rest[j], prefix);
                    assert(lines[i + 1] == prefix + value);
                    assert forall|j: int| 0 <= j < i + 1 implies !crate::text::begins(
                        #[trigger] lines[j],
                        prefix,
                    ) by {
                        if j > 0 {
                            assert(lines[j] == rest[j - 1]);
                        }
                    }
                },
                None => {
                    assert forall|i: int| 0 <= i < lines.len() implies !crate::text::begins(
                        #[trigger] lines[i],
                        prefix,
                    ) by {
                        if i > 0 {
                            assert(lines[i] == rest[i - 1]);
                        }
                    }
                },
            }
        }
    }
}

/// A process is known by its command or, without one, by the name in its status;
/// its parent is a number of 32 bits, and its name and state are redacted.
pub proof fn law_processes_are_described_by_their_files(files: ProcessFiles)
    ensures
        files.command() == (match crate::text::optional_text(files.comm) {
            Some(comm) => Some(comm),
            None => status_field(files.status@, "Name:"@),
        }),
        files.described() is Some <==> files.command() is Some && is_relevant(
            files.command()->0,
        ),
        files.described() matches Some(process) ==> {
            let parent = status_field(files.status@, "PPid:"@);
            let state = status_field(files.status@, "State:"@);
            &&& process.pid == files.pid
            &&& process.name == crate::redaction::redacted_text(files.command()->0)
            &&& process.parent is Some <==> parent is Some && number_u32(parent->0) is Some
            &&& process.parent is Some ==> process.parent == number_u32(parent->0)
            &&& process.state is Some <==> state is Some
            &&& state is Some ==> process.state == Some(
                crate::redaction::redacted_text(state->0),
            )
        },
{
}

/// A field is there where its line has more than white space behind its name,
/// and the value has no white space around it.
pub proof fn law_fields_have_a_value(status: Seq<char>, field: Seq<char>)
    ensures
        match status_field(status, field) {
            Some(value) => {
                let line = first_with_prefix(crate::text::lines(status), field);
                &&& value.len() > 0
                &&& !CharSet::Whitespace.has(value[0]) && !CharSet::Whitespace.has(value.last())
                &&& line is Some && value == crate::text::trimmed(line->0, CharSet::Whitespace)
            },
            None => first_with_prefix(crate::text::lines(status), field) matches Some(line)
                ==> CharSet::Whitespace.covers(line),
        },
{
    if let Some(line) = first_with_prefix(crate::text::lines(status), field) {
        crate::text::law_trimming_stops_at_the_first_other(line, CharSet::Whitespace);
        let kept = crate::text::trimmed(line, CharSet::Whitespace);
        if kept.len() == 0 {
            let i = choose|i: int|
                0 <= i && i + kept.len() <= line.len() && kept == #[trigger] line.subrange(
                    i,
                    i + kept.len(),
                ) && CharSet::Whitespace.covers(line.take(i)) && CharSet::Whitespace.covers(
                    line.skip(i + kept.len()),
                );
            assert forall|j: int| 0 <= j < line.len() implies CharSet::Whitespace.has(
                #[trigger] line[j],
            ) by {
                if j < i {
                    assert(line.take(i)[j] == line[j]);
                } else {
                    assert(line.skip(i + kept.len())[j - i] == line[j]);
                }
            }
        }
    }
}

/// Numbers of processes are decimal and have 32 bits.
pub proof fn law_process_numbers_have_32_bits(value: Seq<char>)
    ensures
        match crate::number::unsigned_value(value, 10) {
            Some(number) => if number <= 0xffff_ffff {
                number_u32(value) == Some(number as u32)
            } else {
                number_u32(value) is None
            },
            None => number_u32(value) is None,
        },
{
}

/// Processes are listed by their numbers, ascending, and those of one number in
/// the order in which they were found: two such lists are the same.
pub proof fn law_listed_processes_ascend(list: Seq<Process>, other: Seq<Process>, i: int, j: int)
    requires
        in_order(list),
        in_order(other),
        same_by_number(list, other),
        0 <= i < j < list.len(),
    ensures
        list[i].pid <= list[j].pid,
        list == other,
{
    ordered_lists_are_the_same(list, other);
}

proof fn nothing_is_numbered_below(list: Seq<Process>, pid: u32)
    requires
        in_order(list),
        list.len() > 0,
        pid > list.last().pid,
    ensures
        numbered(list, pid).len() == 0,
    decreases list.len(),
{
    reveal(Seq::filter);
    let front = list.drop_last();
    if front.len() > 0 {
        assert(list[front.len() - 1].pid <= list[list.len() - 1].pid);
        assert(in_order(front));
        nothing_is_numbered_below(front, pid);
    }
    assert(numbered(front, pid).len() == 0);
}

proof fn ordered_lists_are_the_same(a: Seq<Process>, b: Seq<Process>)
    requires
        in_order(a),
        in_order(b),
        same_by_number(a, b),
    ensures
        a == b,
    decreases a.len() + b.len(),
{
    reveal(Seq::filter);
    if a.len() == 0 || b.len() == 0 {
        if a.len() > 0 {
            let pid = a.last().pid;
            assert(numbered(a, pid) == numbered(b, pid));
            assert(numbered(a, pid).len() > 0);
        }
        if b.len() > 0 {
            let pid = b.last().pid;
            assert(numbered(a, pid) == numbered(b, pid));
            assert(numbered(b, pid).len() > 0);
        }
        assert(a =~= b);
    } else {
        let x = a.last();
        let y = b.last();
        assert(numbered(a, x.pid) == numbered(b, x.pid));
        assert(numbered(a, y.pid) == numbered(b, y.pid));
        assert(numbered(a, x.pid).last() == x);
        assert(numbered(b, y.pid).last() == y);
        if x.pid < y.pid {
            nothing_is_numbered_below(a, y.pid);
            assert(numbered(b, y.pid).len() > 0);
        } else if x.pid > y.pid {
            nothing_is_numbered_below(b, x.pid);
            assert(numbered(a, x.pid).len() > 0);
        }
        assert(x == y);
        let front = a.drop_last();
        let rest = b.drop_last();
        assert forall|pid: u32| #[trigger] numbered(front, pid) == numbered(rest, pid) by {
            assert(numbered(a, pid) == numbered(b, pid));
            if pid == x.pid {
                assert(numbered(a, pid).drop_last() =~= numbered(front, pid));
                assert(numbered(b, pid).drop_last() =~= numbered(rest, pid));
            }
        }
        ordered_lists_are_the_same(front, rest);
        assert(a =~= front.push(x));
        assert(b =~= rest.push(y));
    }
}

} // verus!
