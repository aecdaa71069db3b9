//! Firmware, processor and identity, from the text of the files that hold them.

use crate::elf::parse_elf_abi;
use crate::probe::{
    DeviceIdentity, ElfAbi, InputEventAbi, ProbeWarning, SourcedValue, SystemCapability,
    UserlandFloatAbi,
};
use crate::redaction::{redact_serial, redact_text};
use crate::string_map::StringMap;
use crate::text::{
    copy_strings, from_chars, holds_text, push_string, slices, split_lines, split_once, str_eq,
    test_begins, test_ends, test_occurs, to_chars, to_lower, trim, CharSet,
};
use crate::warning::warn;
use vstd::prelude::*;

verus! {

/// The text of a file without null characters at its ends.
pub open spec fn file_text(contents: Seq<char>) -> Seq<char> {
    crate::text::trimmed(contents, CharSet::Only('\0'))
}

/// Removes null characters from the ends of a file's text.
pub fn clean_file_text(contents: &str) -> (text: String)
    ensures
        text@ == file_text(contents@),
{
    let chars: Vec<char> = to_chars(contents);
    from_chars(trim(chars.as_slice(), CharSet::Only('\0')))
}

/// The trimmed text of a file, unless nothing is left of it.
pub open spec fn file_value(contents: Seq<char>) -> Option<Seq<char>> {
    let value = crate::text::trimmed(file_text(contents), CharSet::Whitespace);
    if value.len() > 0 {
        Some(value)
    } else {
        None
    }
}

/// Returns the trimmed text of a file, unless nothing is left of it.
pub fn trimmed_file_value(contents: &str) -> (value: Option<String>)
    ensures
        crate::text::optional_text(value) == file_value(contents@),
{
    let chars: Vec<char> = to_chars(contents);
    let value: &[char] = trim(
        trim(chars.as_slice(), CharSet::Only('\0')),
        CharSet::Whitespace,
    );
    if value.len() == 0 {
        None
    } else {
        Some(from_chars(value))
    }
}

// ---------------------------------------------------------------------------
// Floating-point calling convention
// ---------------------------------------------------------------------------
/// Whether a machine name is that of a 32-bit ARM machine.
pub open spec fn is_arm32_machine(machine: Seq<char>) -> bool {
    let machine = crate::text::lowered(machine);
    crate::text::begins(machine, "arm"@) && !crate::text::occurs(machine, "aarch64"@)
}

/// Whether a dynamic loader is one for hard-float executables.
pub open spec fn is_hard_loader(loader: Seq<char>) -> bool {
    crate::text::occurs(loader, "armhf"@) || crate::text::occurs(loader, "gnueabihf"@)
}

/// Whether a dynamic loader is one for soft-float executables.
pub open spec fn is_soft_loader(loader: Seq<char>) -> bool {
    crate::text::ends(loader, "ld-linux.so.3"@) || crate::text::ends(loader, "ld-musl-arm.so.1"@)
}

/// The calling convention that machine, architecture and loaders point to.
pub open spec fn float_abi(
    machine: Option<Seq<char>>,
    architecture: Seq<char>,
    loaders: Seq<Seq<char>>,
) -> UserlandFloatAbi {
    let hard = exists|i: int| 0 <= i < loaders.len() && is_hard_loader(#[trigger] loaders[i]);
    let soft = exists|i: int| 0 <= i < loaders.len() && is_soft_loader(#[trigger] loaders[i]);
    if architecture != "arm"@ && !(machine is Some && is_arm32_machine(machine->0)) {
        UserlandFloatAbi::NotApplicable
    } else if hard && soft {
        UserlandFloatAbi::Mixed
    } else if hard {
        UserlandFloatAbi::Hard
    } else if soft {
        UserlandFloatAbi::Soft
    } else {
        UserlandFloatAbi::Unknown
    }
}

fn test_arm32_machine(machine: &str) -> (held: bool)
    ensures
        held == is_arm32_machine(machine@),
{
    let machine: Vec<char> = to_lower(to_chars(machine).as_slice());
    test_begins(machine.as_slice(), "arm") && !test_occurs(machine.as_slice(), "aarch64")
}

/// Infers the floating-point calling convention of user land from the dynamic
/// loaders that are installed.
pub fn infer_userland_float_abi(
    machine: &Option<String>,
    compiled_architecture: &str,
    loaders: &Vec<String>,
) -> (abi: UserlandFloatAbi)
    ensures
        abi == float_abi(
            crate::text::optional_text(*machine),
            compiled_architecture@,
            crate::text::texts(loaders@),
        ),
{
    let arm_machine: bool = match machine {
        Some(machine) => test_arm32_machine(machine.as_str()),
        None => false,
    };
    if !str_eq(compiled_architecture, "arm") && !arm_machine {
        return UserlandFloatAbi::NotApplicable;
    }
    let ghost all = crate::text::texts(loaders@);
    let mut hard: bool = false;
    let mut soft: bool = false;
    for i in 0..loaders.len()
        invariant
            all == crate::text::texts(loaders@),
            hard == exists|j: int| 0 <= j < i && is_hard_loader(#[trigger] all[j]),
            soft == exists|j: int| 0 <= j < i && is_soft_loader(#[trigger] all[j]),
    {
        let loader: Vec<char> = to_chars(loaders[i].as_str());
        assert(all[i as int] == loader@);
        if test_occurs(loader.as_slice(), "armhf") || test_occurs(
            loader.as_slice(),
            "gnueabihf",
        ) {
            assert(is_hard_loader(all[i as int]));
            hard = true;
        }
        if test_ends(loader.as_slice(), "ld-linux.so.3") || test_ends(
            loader.as_slice(),
            "ld-musl-arm.so.1",
        ) {
            assert(is_soft_loader(all[i as int]));
            soft = true;
        }
    }
    match (hard, soft) {
        (true, false) => UserlandFloatAbi::Hard,
        (false, true) => UserlandFloatAbi::Soft,
        (true, true) => UserlandFloatAbi::Mixed,
        (false, false) => UserlandFloatAbi::Unknown,
    }
}

// ---------------------------------------------------------------------------
// Processor description
// ---------------------------------------------------------------------------
/// The processor fields that may be reported. Serial numbers are not among
/// them.
pub open spec fn safe_cpu_fields() -> Seq<&'static str> {
    seq![
        "processor",
        "model name",
        "cpu architecture",
        "features",
        "cpu implementer",
        "cpu variant",
        "cpu part",
        "cpu revision",
        "hardware",
        "revision",
    ]
}

/// Whether a processor field may be reported.
pub open spec fn is_safe_cpu_field(key: Seq<char>) -> bool {
    exists|i: int| 0 <= i < safe_cpu_fields().len() && (#[trigger] safe_cpu_fields()[i])@ == key
}

/// The texts of each list.
pub open spec fn list_texts(map: Map<Seq<char>, Vec<String>>) -> Map<Seq<char>, Seq<Seq<char>>> {
    map.map_values(|list: Vec<String>| crate::text::texts(list@))
}

/// The values of a key so far.
pub open spec fn values_of(
    fields: Map<Seq<char>, Seq<Seq<char>>>,
    key: Seq<char>,
) -> Seq<Seq<char>> {
    if fields.contains_key(key) {
        fields[key]
    } else {
        seq![]
    }
}

/// The fields after one more line: a value is added once, and an empty value
/// only leaves the key.
pub open spec fn cpu_fields_after(
    fields: Map<Seq<char>, Seq<Seq<char>>>,
    line: Seq<char>,
) -> Map<Seq<char>, Seq<Seq<char>>> {
    match crate::text::split_first(line, ':') {
        Some((name, text)) => {
            let key = crate::text::lowered(crate::text::trimmed(name, CharSet::Whitespace));
            let value = crate::redaction::redacted_text(
                crate::text::trimmed(text, CharSet::Whitespace),
            );
            let values = values_of(fields, key);
            if !is_safe_cpu_field(key) {
                fields
            } else if value.len() > 0 && !values.contains(value) {
                fields.insert(key, values.push(value))
            } else {
                fields.insert(key, values)
            }
        },
        None => fields,
    }
}

/// The fields after the first `n` lines.
pub open spec fn cpu_fields_of(lines: Seq<Seq<char>>, n: int) -> Map<Seq<char>, Seq<Seq<char>>>
    decreases n,
{
    if n <= 0 {
        Map::empty()
    } else {
        cpu_fields_after(cpu_fields_of(lines, n - 1), lines[n - 1])
    }
}

fn test_safe_cpu_field(key: &str) -> (held: bool)
    ensures
        held == is_safe_cpu_field(key@),
{
    let fields: [&'static str; 10] = [
        "processor",
        "model name",
        "cpu architecture",
        "features",
        "cpu implementer",
        "cpu variant",
        "cpu part",
        "cpu revision",
        "hardware",
        "revision",
    ];
    assert(fields@ =~= safe_cpu_fields());
    for i in 0..10usize
        invariant
            fields@ == safe_cpu_fields(),
            forall|j: int| 0 <= j < i ==> (#[trigger] safe_cpu_fields()[j])@ != key@,
    {
        if str_eq(fields[i], key) {
            assert(safe_cpu_fields()[i as int]@ == key@);
            return true;
        }
    }
    false
}

fn read_cpu_line(fields: &mut StringMap<Vec<String>>, line: &[char])
    ensures
        list_texts(final(fields)@) == cpu_fields_after(list_texts(old(fields)@), line@),
{
    let ghost before = fields@;
    if let Some((name, text)) = split_once(line, ':') {
        let key: String = from_chars(to_lower(trim(name, CharSet::Whitespace)).as_slice());
        if test_safe_cpu_field(key.as_str()) {
            let value: String = redact_text(
                from_chars(trim(text, CharSet::Whitespace)).as_str(),
            );
            let mut values: Vec<String> = match fields.remove(key.as_str()) {
                Some(values) => values,
                None => Vec::new(),
            };
            assert(crate::text::texts(values@) =~= values_of(list_texts(before), key@));
            if !value.as_str().is_empty() && !holds_text(&values, value.as_str()) {
                push_string(&mut values, value);
            }
            let ghost list = values;
            let ghost name = key@;
            fields.insert(key, values);
            assert(fields@ =~= before.insert(name, list));
            assert(list_texts(fields@) =~= list_texts(before).insert(
                name,
                crate::text::texts(list@),
            ));
        }
    }
}

/// Reads the processor description: the values of each field that may be
/// reported, in their order and without repetition.
pub fn parse_cpuinfo(contents: &str) -> (fields: StringMap<Vec<String>>)
    ensures
        ({
            let rows = crate::text::lines(contents@);
            list_texts(fields@) == cpu_fields_of(rows, rows.len() as int)
        }),
{
    let chars: Vec<char> = to_chars(contents);
    let rows: Vec<&[char]> = split_lines(chars.as_slice());
    let ghost all = crate::text::lines(contents@);
    let mut fields: StringMap<Vec<String>> = StringMap::new();
    assert(list_texts(fields@) =~= cpu_fields_of(all, 0));
    for i in 0..rows.len()
        invariant
            all == slices(rows@),
            list_texts(fields@) == cpu_fields_of(all, i as int),
    {
        assert(all[i as int] == rows@[i as int]@);
        read_cpu_line(&mut fields, rows[i]);
    }
    fields
}

/// Only fields that may be reported are ever reported.
pub proof fn law_cpu_fields_are_safe(lines: Seq<Seq<char>>, n: int, key: Seq<char>)
    requires
        0 <= n <= lines.len(),
        cpu_fields_of(lines, n).contains_key(key),
    ensures
        is_safe_cpu_field(key),
    decreases n,
{
    if n > 0 {
        if cpu_fields_of(lines, n - 1).contains_key(key) {
            law_cpu_fields_are_safe(lines, n - 1, key);
        }
    }
}

// ---------------------------------------------------------------------------
// System
// ---------------------------------------------------------------------------
/// What could be read of the system.
#[derive(Debug, PartialEq, Eq)]
pub struct SystemFacts {
    /// Trimmed contents of the firmware version files that exist.
    pub firmware: Vec<SourcedValue>,
    /// Trimmed kernel release.
    pub kernel_release: Option<String>,
    /// Machine name reported by the kernel.
    pub machine: Option<String>,
    /// Processor description.
    pub cpuinfo: Option<String>,
    /// Dynamic loaders that are installed.
    pub loaders: Vec<String>,
    /// Architecture the program was compiled for.
    pub architecture: String,
    /// Layout of input events.
    pub input_event_abi: InputEventAbi,
    /// Beginning of the program's own executable, or why it cannot be read.
    pub executable: Result<Vec<u8>, String>,
}

/// The first line of a text.
pub open spec fn first_line(s: Seq<char>) -> Seq<char> {
    let rows = crate::text::lines(s);
    if rows.len() > 0 {
        rows[0]
    } else {
        Seq::empty()
    }
}

/// A redacted copy of an optional text.
pub open spec fn optional_redacted(s: Option<Seq<char>>) -> Option<Seq<char>> {
    match s {
        Some(s) => Some(crate::redaction::redacted_text(s)),
        None => None,
    }
}

fn redact_optional(s: &Option<String>) -> (redacted: Option<String>)
    ensures
        crate::text::optional_text(redacted) == optional_redacted(
            crate::text::optional_text(*s),
        ),
{
    match s {
        Some(s) => Some(redact_text(s.as_str())),
        None => None,
    }
}

fn redact_first_line(s: &str) -> (redacted: String)
    ensures
        redacted@ == crate::redaction::redacted_text(first_line(s@)),
{
    let chars: Vec<char> = to_chars(s);
    let rows: Vec<&[char]> = split_lines(chars.as_slice());
    assert(crate::text::lines(s@) == slices(rows@));
    if rows.len() > 0 {
        assert(slices(rows@)[0] == rows@[0]@);
        redact_text(from_chars(rows[0]).as_str())
    } else {
        let nothing: String = String::new();
        assert(nothing@ =~= Seq::<char>::empty());
        redact_text(nothing.as_str())
    }
}

/// Whether the firmware lines are the redacted first lines of the files.
pub open spec fn is_firmware_of(firmware: Seq<SourcedValue>, files: Seq<SourcedValue>) -> bool {
    &&& firmware.len() == files.len()
    &&& forall|i: int|
        0 <= i < files.len() ==> {
            &&& (#[trigger] firmware[i]).source@ == files[i].source@
            &&& firmware[i].value@ == crate::redaction::redacted_text(first_line(files[i].value@))
        }
}

/// The layout that the beginning of an executable declares, if it could be
/// read.
pub open spec fn executable_abi_of(executable: Result<Vec<u8>, String>) -> Option<ElfAbi> {
    match executable {
        Ok(header) => crate::elf::abi_of(header@),
        Err(_) => None,
    }
}

/// Describes the system from what could be read.
pub fn collect_system(facts: &SystemFacts, warnings: &mut Vec<ProbeWarning>) -> (system:
    SystemCapability)
    ensures
        is_firmware_of(system.firmware@, facts.firmware@),
        crate::text::optional_text(system.kernel_release) == optional_redacted(
            crate::text::optional_text(facts.kernel_release),
        ),
        crate::text::optional_text(system.machine) == optional_redacted(
            crate::text::optional_text(facts.machine),
        ),
        system.compiled_architecture@ == facts.architecture@,
        crate::text::texts(system.available_dynamic_loaders@) == crate::text::texts(
            facts.loaders@,
        ),
        system.userland_float_abi == float_abi(
            crate::text::optional_text(system.machine),
            facts.architecture@,
            crate::text::texts(facts.loaders@),
        ),
        system.input_event_abi == facts.input_event_abi,
        list_texts(system.cpu_fields@) == (match crate::text::optional_text(facts.cpuinfo) {
            Some(contents) => cpu_fields_of(
                crate::text::lines(contents),
                crate::text::lines(contents).len() as int,
            ),
            None => Map::empty(),
        }),
        system.executable_abi == executable_abi_of(facts.executable),
        crate::warning::notices(final(warnings)@) == crate::warning::notices(old(warnings)@)
            + crate::warning::when(
            facts.executable is Err,
            "system"@,
            "elf_unavailable"@,
            "could not inspect the probe executable ELF header: "@ + facts.executable->Err_0@,
        ),
{
    let mut firmware: Vec<SourcedValue> = Vec::new();
    for i in 0..facts.firmware.len()
        invariant
            is_firmware_of(firmware@, facts.firmware@.take(i as int)),
    {
        firmware.push(
            SourcedValue {
                source: facts.firmware[i].source.clone(),
                value: redact_first_line(facts.firmware[i].value.as_str()),
            },
        );
    }
    assert(facts.firmware@.take(facts.firmware@.len() as int) =~= facts.firmware@);
    let machine: Option<String> = redact_optional(&facts.machine);
    let cpu_fields: StringMap<Vec<String>> = match &facts.cpuinfo {
        Some(contents) => parse_cpuinfo(contents.as_str()),
        None => {
            let none: StringMap<Vec<String>> = StringMap::new();
            assert(list_texts(none@) =~= Map::<Seq<char>, Seq<Seq<char>>>::empty());
            none
        },
    };
    let userland_float_abi: UserlandFloatAbi = infer_userland_float_abi(
        &machine,
        facts.architecture.as_str(),
        &facts.loaders,
    );
    let executable_abi: Option<ElfAbi> = match &facts.executable {
        Ok(header) => {
            assert(crate::warning::notices(warnings@) + seq![] =~= crate::warning::notices(
                warnings@,
            ));
            parse_elf_abi(header.as_slice())
        },
        Err(error) => {
            let mut message: String =
                "could not inspect the probe executable ELF header: ".to_owned();
            message.append(error.as_str());
            warn(warnings, "system", "elf_unavailable", message.as_str());
            None
        },
    };
    SystemCapability {
        firmware,
        kernel_release: redact_optional(&facts.kernel_release),
        machine,
        compiled_architecture: facts.architecture.clone(),
        available_dynamic_loaders: copy_strings(&facts.loaders),
        userland_float_abi,
        input_event_abi: facts.input_event_abi,
        cpu_fields,
        executable_abi,
    }
}

// ---------------------------------------------------------------------------
// Identity
// ---------------------------------------------------------------------------
/// The model name: the one the kernel reports, or the hardware field of the
/// processor description.
pub open spec fn model_hint(
    model: Option<Seq<char>>,
    cpu_fields: Map<Seq<char>, Seq<Seq<char>>>,
) -> Option<Seq<char>> {
    match model {
        Some(model) => Some(crate::redaction::redacted_text(model)),
        None => if values_of(cpu_fields, "hardware"@).len() > 0 {
            Some(values_of(cpu_fields, "hardware"@)[0])
        } else {
            None
        },
    }
}

/// Describes the identity from the first serial file that holds something, and
/// from the model name that the kernel reports.
pub fn collect_identity(
    serial: &Option<SourcedValue>,
    model: &Option<String>,
    system: &SystemCapability,
    warnings: &mut Vec<ProbeWarning>,
) -> (identity: DeviceIdentity)
    ensures
        ({
            let normalized = crate::redaction::normalized_serial(serial->0.value@);
            let known = serial is Some && normalized.len() >= 4;
            &&& identity.serial_prefix is Some <==> known
            &&& identity.serial_redacted is Some <==> known
            &&& known ==> identity.serial_prefix->0@ == crate::redaction::model_prefix(normalized)
            &&& known ==> identity.serial_redacted->0@ == crate::redaction::visible_part(
                normalized,
            ) + "…REDACTED"@
            &&& crate::text::optional_text(identity.serial_source) == (match serial {
                Some(serial) => Some(serial.source@),
                None => None,
            })
            &&& crate::text::optional_text(identity.model_hint) == model_hint(
                crate::text::optional_text(*model),
                list_texts(system.cpu_fields@),
            )
            &&& crate::warning::notices(final(warnings)@) == crate::warning::notices(
                old(warnings)@,
            ) + (if serial is None {
                crate::warning::when(
                    true,
                    "identity"@,
                    "serial_unavailable"@,
                    "no supported read-only serial source was present"@,
                )
            } else {
                crate::warning::when(
                    !known,
                    "identity"@,
                    "serial_malformed"@,
                    "identity source did not contain a recognized serial shape"@,
                )
            })
        }),
{
    let ghost before = crate::warning::notices(warnings@);
    let hint: Option<String> = match model {
        Some(model) => Some(redact_text(model.as_str())),
        None => match system.cpu_fields.get("hardware") {
            Some(values) => if values.len() > 0 {
                assert(crate::text::texts(values@)[0] == values@[0]@);
                Some(values[0].clone())
            } else {
                None
            },
            None => None,
        },
    };
    match serial {
        Some(serial) => {
            let source: Option<String> = Some(serial.source.clone());
            match redact_serial(serial.value.as_str()) {
                Some(redacted) => {
                    assert(before + seq![] =~= before);
                    DeviceIdentity {
                        serial_prefix: Some(redacted.prefix),
                        serial_redacted: Some(redacted.display),
                        serial_source: source,
                        model_hint: hint,
                    }
                },
                None => {
                    warn(
                        warnings,
                        "identity",
                        "serial_malformed",
                        "identity source did not contain a recognized serial shape",
                    );
                    DeviceIdentity {
                        serial_prefix: None,
                        serial_redacted: None,
                        serial_source: source,
                        model_hint: hint,
                    }
                },
            }
        },
        None => {
            warn(
                warnings,
                "identity",
                "serial_unavailable",
                "no supported read-only serial source was present",
            );
            DeviceIdentity {
                serial_prefix: None,
                serial_redacted: None,
                serial_source: None,
                model_hint: hint,
            }
        },
    }
}

// ---------------------------------------------------------------------------
// What the files tell
// ---------------------------------------------------------------------------
/// A file has a value where more than white space is left between the null bytes
/// around it, and the value has neither white space nor null bytes around it.
pub proof fn law_file_values_are_bare(before: Seq<char>, value: Seq<char>, after: Seq<char>)
    requires
        CharSet::Only('\0').covers(before),
        CharSet::Only('\0').covers(after),
        value.len() > 0,
        value[0] != '\0' && value.last() != '\0',
    ensures
        file_text(before + value + after) == value,
        !CharSet::Whitespace.has(value[0]) && !CharSet::Whitespace.has(value.last())
            ==> file_value(before + value + after) == Some(value),
        CharSet::Whitespace.covers(value) ==> file_value(before + value + after) is None,
{
    let none = Seq::<char>::empty();
    crate::text::law_trimming_takes_off_both_ends(before, value, after, CharSet::Only('\0'));
    assert(none + value + none =~= value);
    if !CharSet::Whitespace.has(value[0]) && !CharSet::Whitespace.has(value.last()) {
        crate::text::law_trimming_takes_off_both_ends(none, value, none, CharSet::Whitespace);
    }
    if CharSet::Whitespace.covers(value) {
        crate::text::law_trimming_takes_off_both_ends(value, none, none, CharSet::Whitespace);
        assert(value + none + none =~= value);
    }
}

/// The calling convention is that of the loaders on 32-bit ARM, and is asked
/// nowhere else.
pub proof fn law_loaders_tell_the_calling_convention(
    machine: Option<Seq<char>>,
    architecture: Seq<char>,
    loaders: Seq<Seq<char>>,
)
    ensures
        ({
            let abi = float_abi(machine, architecture, loaders);
            let arm = architecture == "arm"@ || (machine matches Some(machine) && {
                let machine = crate::text::lowered(machine);
                crate::text::begins(machine, "arm"@) && !crate::text::occurs(machine, "aarch64"@)
            });
            let hard = exists|i: int|
                0 <= i < loaders.len() && (crate::text::occurs(#[trigger] loaders[i], "armhf"@)
                    || crate::text::occurs(loaders[i], "gnueabihf"@));
            let soft = exists|i: int|
                0 <= i < loaders.len() && (crate::text::ends(
                    #[trigger] loaders[i],
                    "ld-linux.so.3"@,
                ) || crate::text::ends(loaders[i], "ld-musl-arm.so.1"@));
            &&& abi == UserlandFloatAbi::NotApplicable <==> !arm
            &&& abi == UserlandFloatAbi::Mixed <==> arm && hard && soft
            &&& abi == UserlandFloatAbi::Hard <==> arm && hard && !soft
            &&& abi == UserlandFloatAbi::Soft <==> arm && !hard && soft
            &&& abi == UserlandFloatAbi::Unknown <==> arm && !hard && !soft
        }),
{
    if exists|i: int| 0 <= i < loaders.len() && is_hard_loader(#[trigger] loaders[i]) {
        let i = choose|i: int| 0 <= i < loaders.len() && is_hard_loader(#[trigger] loaders[i]);
        assert(crate::text::occurs(loaders[i], "armhf"@) || crate::text::occurs(
            loaders[i],
            "gnueabihf"@,
        ));
    } else {
        assert forall|i: int| 0 <= i < loaders.len() implies !(crate::text::occurs(
            #[trigger] loaders[i],
            "armhf"@,
        ) || crate::text::occurs(loaders[i], "gnueabihf"@)) by {
            assert(!is_hard_loader(loaders[i]));
        }
    }
    if exists|i: int| 0 <= i < loaders.len() && is_soft_loader(#[trigger] loaders[i]) {
        let i = choose|i: int| 0 <= i < loaders.len() && is_soft_loader(#[trigger] loaders[i]);
        assert(crate::text::ends(loaders[i], "ld-linux.so.3"@) || crate::text::ends(
            loaders[i],
            "ld-musl-arm.so.1"@,
        ));
    } else {
        assert forall|i: int| 0 <= i < loaders.len() implies !(crate::text::ends(
            #[trigger] loaders[i],
            "ld-linux.so.3"@,
        ) || crate::text::ends(loaders[i], "ld-musl-arm.so.1"@)) by {
            assert(!is_soft_loader(loaders[i]));
        }
    }
}

/// Ten fields of the processor's description are safe.
pub proof fn law_ten_cpu_fields_are_safe(key: Seq<char>)
    ensures
        is_safe_cpu_field(key) <==> {
            ||| key == "processor"@
            ||| key == "model name"@
            ||| key == "cpu architecture"@
            ||| key == "features"@
            ||| key == "cpu implementer"@
            ||| key == "cpu variant"@
            ||| key == "cpu part"@
            ||| key == "cpu revision"@
            ||| key == "hardware"@
            ||| key == "revision"@
        },
{
    let safe = safe_cpu_fields();
    assert(safe.len() == 10);
    assert(safe[0]@ == "processor"@ && safe[1]@ == "model name"@);
    assert(safe[2]@ == "cpu architecture"@ && safe[3]@ == "features"@);
    assert(safe[4]@ == "cpu implementer"@ && safe[5]@ == "cpu variant"@);
    assert(safe[6]@ == "cpu part"@ && safe[7]@ == "cpu revision"@);
    assert(safe[8]@ == "hardware"@ && safe[9]@ == "revision"@);
}

/// The key that a line of the processor's description has, if it has one.
pub open spec fn cpu_line_key(line: Seq<char>) -> Option<Seq<char>> {
    match crate::text::split_first(line, ':') {
        Some((name, _)) => Some(
            crate::text::lowered(crate::text::trimmed(name, CharSet::Whitespace)),
        ),
        None => None,
    }
}

/// The value that a line of the processor's description has, if it has one.
pub open spec fn cpu_line_value(line: Seq<char>) -> Option<Seq<char>> {
    match crate::text::split_first(line, ':') {
        Some((_, text)) => Some(
            crate::redaction::redacted_text(crate::text::trimmed(text, CharSet::Whitespace)),
        ),
        None => None,
    }
}

/// A safe field holds exactly the values of its lines that are not empty, each
/// of them once, and is there exactly when a line names it.
#[verifier::rlimit(40)]
pub proof fn law_cpu_fields_hold_their_values_once(
    lines: Seq<Seq<char>>,
    n: int,
    key: Seq<char>,
    value: Seq<char>,
)
    requires
        0 <= n <= lines.len(),
    ensures
        cpu_fields_of(lines, n).contains_key(key) <==> is_safe_cpu_field(key) && exists|i: int|
            0 <= i < n && cpu_line_key(#[trigger] lines[i]) == Some(key),
        values_of(cpu_fields_of(lines, n), key).no_duplicates(),
        values_of(cpu_fields_of(lines, n), key).contains(value) <==> is_safe_cpu_field(key)
            && value.len() > 0 && exists|i: int|
            0 <= i < n && cpu_line_key(#[trigger] lines[i]) == Some(key) && cpu_line_value(
                lines[i],
            ) == Some(value),
    decreases n,
{
    if n > 0 {
        law_cpu_fields_hold_their_values_once(lines, n - 1, key, value);
        let before = cpu_fields_of(lines, n - 1);
        let fields = cpu_fields_of(lines, n);
        let line = lines[n - 1];
        let old_values = values_of(before, key);
        let values = values_of(fields, key);
        if cpu_line_key(line) == Some(key) && is_safe_cpu_field(key) {
            let told = cpu_line_value(line)->0;
            assert(fields.contains_key(key));
            if told.len() > 0 && !old_values.contains(told) {
                assert(values == old_values.push(told));
                assert(values[values.len() - 1] == told);
                assert(old_values.contains(value) ==> values.contains(value)) by {
                    if old_values.contains(value) {
                        let k = choose|k: int| 0 <= k < old_values.len() && old_values[k] == value;
                        assert(values[k] == value);
                    }
                }
                assert(values.contains(value) ==> old_values.contains(value) || value == told) by {
                    if values.contains(value) {
                        let k = choose|k: int| 0 <= k < values.len() && values[k] == value;
                        if k < old_values.len() {
                            assert(old_values[k] == value);
                        }
                    }
                }
                assert(values.no_duplicates()) by {
                    assert forall|i: int, j: int|
                        0 <= i < values.len() && 0 <= j < values.len() && i != j implies values[i]
                        != values[j] by {
                        if i == old_values.len() {
                            assert(old_values.contains(old_values[j]));
                        } else if j == old_values.len() {
                            assert(old_values.contains(old_values[i]));
                        }
                    }
                }
            } else {
                assert(values == old_values);
            }
        } else {
            assert(values == old_values);
            assert(fields.contains_key(key) <==> before.contains_key(key));
        }
    }
}

/// The model is told by its own file, redacted, and without one by the first
/// hardware that the processor's description names.
pub proof fn law_models_are_hinted_at(
    model: Option<Seq<char>>,
    cpu_fields: Map<Seq<char>, Seq<Seq<char>>>,
)
    ensures
        model matches Some(model) ==> model_hint(Some(model), cpu_fields) == Some(
            crate::redaction::redacted_text(model),
        ),
        cpu_fields.contains_key("hardware"@) && cpu_fields["hardware"@].len() > 0 ==> model_hint(
            None,
            cpu_fields,
        ) == Some(cpu_fields["hardware"@][0]),
        !cpu_fields.contains_key("hardware"@) || cpu_fields["hardware"@].len() == 0
            ==> model_hint(None, cpu_fields) is None,
{
}

/// Firmware is told by the first line of its file, redacted, with the file's
/// path; values that are there are redacted, and those that are not stay away.
pub proof fn law_firmware_is_told_by_first_lines(
    firmware: Seq<SourcedValue>,
    files: Seq<SourcedValue>,
    i: int,
    line: Seq<char>,
    rest: Seq<char>,
)
    requires
        !line.contains('\n'),
        line.len() > 0,
        line.last() != '\r',
    ensures
        first_line(line) == line,
        first_line(line + seq!['\n'] + rest) == line,
        first_line(Seq::<char>::empty()) == Seq::<char>::empty(),
        is_firmware_of(firmware, files) && 0 <= i < files.len() ==> {
            &&& firmware.len() == files.len()
            &&& firmware[i].source@ == files[i].source@
            &&& firmware[i].value@ == crate::redaction::redacted_text(first_line(files[i].value@))
        },
        optional_redacted(Some(line)) == Some(crate::redaction::redacted_text(line)),
        optional_redacted(None) is None,
{
    crate::text::law_line_feeds_end_lines(line, rest);
}

/// The ABI is that of the executable's header, and an executable that cannot be
/// read has none.
pub proof fn law_executables_tell_their_abi(header: Vec<u8>, error: String)
    ensures
        executable_abi_of(Ok(header)) == crate::elf::abi_of(header@),
        executable_abi_of(Err(error)) is None,
{
}

} // verus!
