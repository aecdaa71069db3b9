//! Reviewed Kindle rules behind the shell device boundary: property values,
//! quick controls, preferences and the snapshot.

use crate::background::LauncherBackgroundChoice;
use crate::device::{
    copy_pixels, next_literary_clock_interval, picture, LauncherBackgroundOptionSnapshot,
    ShellDeviceCommand, ShellDeviceSnapshot, LIGHT_MAXIMUM,
};
use crate::framebuffer::Rgb8Pixel;
use crate::literary_clock::{copy_styled_text, LiteraryClockCorpus};
use crate::local_clock::{current_literary_excerpt, LocalClock};
use crate::number::{read_i32, read_unsigned};
use crate::text::{
    from_chars, push_decimal, push_signed_decimal, spells, strip_prefix, strip_suffix, to_chars,
    to_lower, trim, CharSet,
};
use vstd::prelude::*;

verus! {

/// The clock program.
pub const DATE: &'static str = "/bin/date";

/// The program that reads properties.
pub const LIPC_GET: &'static str = "/usr/bin/lipc-get-prop";

/// The program that writes properties.
pub const LIPC_SET: &'static str = "/usr/bin/lipc-set-prop";

/// The format of the clock output.
pub const DATE_FORMAT: &'static str = "+%H:%M|%Y%j|%-I:%M %p|%Z";

/// How long a program may run.
pub const COMMAND_TIMEOUT_MILLIS: u64 = 2_000;

/// How long to sleep between two looks at a running program.
pub const COMMAND_POLL_MILLIS: u64 = 20;

/// The longest output of a program.
pub const MAX_COMMAND_OUTPUT: u64 = 128;

/// The longest status file.
pub const MAX_STATUS_FILE: u64 = 64;

/// The corpus of the literary clock.
pub const LITERARY_CORPUS_PATH: &'static str = "/mnt/us/ferrink/literary-clock/quotes.psv";

/// The preference file of the literary clock.
pub const LITERARY_SETTING_PATH: &'static str = "/mnt/us/ferrink/literary-clock.settings";

/// The longest preference file of the literary clock.
pub const MAX_LITERARY_SETTING_BYTES: u64 = 64;

/// The one directory of launcher backgrounds.
pub const LAUNCHER_BACKGROUND_DIRECTORY: &'static str = "/mnt/us/ferrink/backgrounds";

/// The preference file of the launcher background.
pub const LAUNCHER_BACKGROUND_SETTING_PATH: &'static str =
    "/mnt/us/ferrink/background.settings";

/// The longest preference file of the launcher background.
pub const MAX_LAUNCHER_BACKGROUND_SETTING_BYTES: u64 = 128;

// ---------------------------------------------------------------------------
// Errors
// ---------------------------------------------------------------------------
/// Kindle status or reversible-control failure.
#[derive(Debug, Clone, PartialEq, Eq)]
#[allow(inconsistent_fields)]
pub enum KindleShellDeviceError {
    /// A fixed-path command could not be started, waited on, or read.
    CommandIo {
        /// Short non-sensitive operation label.
        operation: &'static str,
        /// Operating-system error in words.
        source: String,
    },
    /// A fixed-path command exceeded its deadline.
    CommandTimedOut(&'static str),
    /// A fixed-path command exited unsuccessfully.
    CommandFailed {
        /// Short non-sensitive operation label.
        operation: &'static str,
        /// Optional process exit code.
        code: Option<i32>,
    },
    /// A property or bounded status file returned an invalid value.
    InvalidValue(&'static str),
    /// A fixed preference file could not be read or replaced.
    StateIo {
        /// Short non-sensitive operation label.
        operation: &'static str,
        /// Operating-system error in words.
        source: String,
    },
}

impl KindleShellDeviceError {
    /// The operator-facing description of the error.
    pub open spec fn spec_message(self) -> Seq<char> {
        match self {
            KindleShellDeviceError::CommandIo { operation, source } => {
                operation@ + " failed: "@ + source@
            },
            KindleShellDeviceError::CommandTimedOut(operation) => operation@ + " timed out"@,
            KindleShellDeviceError::CommandFailed { operation, code } => {
                operation@ + " exited unsuccessfully ("@ + (match code {
                    Some(code) => "Some("@ + crate::text::signed_decimal(code as int) + ")"@,
                    None => "None"@,
                }) + ")"@
            },
            KindleShellDeviceError::InvalidValue(operation) => {
                operation@ + " returned invalid data"@
            },
            KindleShellDeviceError::StateIo { operation, source } => {
                operation@ + " failed: "@ + source@
            },
        }
    }

    /// Describes the error for an operator.
    pub fn message(&self) -> (message: String)
        ensures
            message@ == self.spec_message(),
    {
        let mut message: String = String::new();
        match self {
            KindleShellDeviceError::CommandIo { operation, source } => {
                message.append(operation);
                message.append(" failed: ");
                message.append(source.as_str());
            },
            KindleShellDeviceError::CommandTimedOut(operation) => {
                message.append(operation);
                message.append(" timed out");
            },
            KindleShellDeviceError::CommandFailed { operation, code } => {
                message.append(operation);
                message.append(" exited unsuccessfully (");
                match code {
                    Some(code) => {
                        message.append("Some(");
                        push_signed_decimal(&mut message, *code as i64);
                        message.append(")");
                    },
                    None => {
                        message.append("None");
                    },
                }
                message.append(")");
            },
            KindleShellDeviceError::InvalidValue(operation) => {
                message.append(operation);
                message.append(" returned invalid data");
            },
            KindleShellDeviceError::StateIo { operation, source } => {
                message.append(operation);
                message.append(" failed: ");
                message.append(source.as_str());
            },
        }
        assert(message@ =~= self.spec_message());
        message
    }
}

// ---------------------------------------------------------------------------
// Running programs
// ---------------------------------------------------------------------------
/// What was seen when a running program was looked at.
#[derive(Debug, Clone, Copy, PartialEq, Eq, Structural)]
pub enum CommandPoll {
    /// It is still running, for so many milliseconds.
    Running { elapsed_millis: u64 },
    /// It ended with success.
    Succeeded,
    /// It ended without success.
    Failed { code: Option<i32> },
}

/// What to do about a running program.
#[derive(Debug, Clone, Copy, PartialEq, Eq, Structural)]
pub enum CommandStep {
    /// Sleep for the poll interval, then look again.
    Sleep,
    /// End the program and report that it timed out.
    Terminate,
    /// Read its output.
    ReadOutput,
    /// Report that it failed.
    Fail { code: Option<i32> },
}

/// What to do after a look at a running program.
pub fn after_command_poll(poll: CommandPoll) -> (step: CommandStep)
    ensures
        step == (match poll {
            CommandPoll::Running { elapsed_millis } => if elapsed_millis
                >= COMMAND_TIMEOUT_MILLIS {
                CommandStep::Terminate
            } else {
                CommandStep::Sleep
            },
            CommandPoll::Succeeded => CommandStep::ReadOutput,
            CommandPoll::Failed { code } => CommandStep::Fail { code },
        }),
{
    match poll {
        CommandPoll::Running { elapsed_millis } => if elapsed_millis >= COMMAND_TIMEOUT_MILLIS {
            CommandStep::Terminate
        } else {
            CommandStep::Sleep
        },
        CommandPoll::Succeeded => CommandStep::ReadOutput,
        CommandPoll::Failed { code } => CommandStep::Fail { code },
    }
}

/// Accepts or refuses the output of a program by its length.
pub fn check_output_length(length: u64) -> (accepted: bool)
    ensures
        accepted == (length <= MAX_COMMAND_OUTPUT),
{
    length <= MAX_COMMAND_OUTPUT
}

// ---------------------------------------------------------------------------
// Property values
// ---------------------------------------------------------------------------
/// The integer in the output of a property.
pub open spec fn property_value(output: Seq<char>) -> Option<int> {
    match crate::number::signed_value(crate::text::trimmed(output, CharSet::Whitespace)) {
        Some(value) => if i32::MIN <= value <= i32::MAX {
            Some(value)
        } else {
            None
        },
        None => None,
    }
}

/// Trims the output of a property.
pub fn property_text(output: &str) -> (text: String)
    ensures
        text@ == crate::text::trimmed(output@, CharSet::Whitespace),
{
    let chars: Vec<char> = to_chars(output);
    from_chars(trim(chars.as_slice(), CharSet::Whitespace))
}

/// Reads the integer in the output of a property.
pub fn parse_property(output: &str, operation: &'static str) -> (result: Result<
    i32,
    KindleShellDeviceError,
>)
    ensures
        match result {
            Ok(value) => property_value(output@) == Some(value as int),
            Err(error) => property_value(output@) is None && error
                == KindleShellDeviceError::InvalidValue(operation),
        },
{
    let chars: Vec<char> = to_chars(output);
    match read_i32(trim(chars.as_slice(), CharSet::Whitespace)) {
        Some(value) => Ok(value),
        None => Err(KindleShellDeviceError::InvalidValue(operation)),
    }
}

/// Reads the integer in the output of a property, clamped to `0..=maximum`.
pub fn parse_clamped_property(output: &str, maximum: u8, operation: &'static str) -> (result:
    Result<u8, KindleShellDeviceError>)
    ensures
        match result {
            Ok(value) => property_value(output@) is Some && value == crate::transform::clamped(
                property_value(output@)->0,
                0,
                maximum as int,
            ),
            Err(error) => property_value(output@) is None && error
                == KindleShellDeviceError::InvalidValue(operation),
        },
{
    match parse_property(output, operation) {
        Ok(value) => if value < 0 {
            Ok(0)
        } else if value > maximum as i32 {
            Ok(maximum)
        } else {
            Ok(value as u8)
        },
        Err(error) => Err(error),
    }
}

/// Reads the switch in the output of a property: 0 is off and 1 is on.
pub fn parse_switch_property(output: &str, operation: &'static str) -> (result: Result<
    bool,
    KindleShellDeviceError,
>)
    ensures
        match result {
            Ok(on) => property_value(output@) == Some(if on {
                1int
            } else {
                0int
            }),
            Err(error) => property_value(output@) != Some(0int) && property_value(output@) != Some(
                1int,
            ) && error == KindleShellDeviceError::InvalidValue(operation),
        },
{
    match parse_property(output, operation) {
        Ok(value) => if value == 0 {
            Ok(false)
        } else if value == 1 {
            Ok(true)
        } else {
            Err(KindleShellDeviceError::InvalidValue(operation))
        },
        Err(error) => Err(error),
    }
}

/// Whether two texts are equal up to the case of their ASCII letters.
pub open spec fn same_letters(a: Seq<char>, b: Seq<char>) -> bool {
    crate::text::lowered(a) == crate::text::lowered(b)
}

fn test_same_letters(a: &str, b: &str) -> (same: bool)
    ensures
        same == same_letters(a@, b@),
{
    let a: Vec<char> = to_lower(to_chars(a).as_slice());
    let b: Vec<char> = to_lower(to_chars(b).as_slice());
    crate::text::chars_eq(a.as_slice(), b.as_slice())
}

/// The label of the Wi-Fi state.
pub open spec fn wifi_text(enabled: bool, connection: Seq<char>) -> Seq<char> {
    if !enabled {
        "Off"@
    } else if same_letters(connection, "CONNECTED"@) {
        "Wi-Fi"@
    } else {
        "On"@
    }
}

/// Returns the label of the Wi-Fi state.
pub fn wifi_label(enabled: bool, connection: &str) -> (label: &'static str)
    ensures
        label@ == wifi_text(enabled, connection@),
{
    if !enabled {
        "Off"
    } else if test_same_letters(connection, "CONNECTED") {
        "Wi-Fi"
    } else {
        "On"
    }
}

/// The label of the Bluetooth state.
pub open spec fn bluetooth_text(value: Seq<char>) -> Seq<char> {
    let value = crate::text::trimmed(value, CharSet::Whitespace);
    if value == "0"@ {
        "Off"@
    } else if value == "1"@ {
        "On"@
    } else {
        "Unknown"@
    }
}

/// Returns the label of the Bluetooth state.
pub fn bluetooth_label(value: &str) -> (label: &'static str)
    ensures
        label@ == bluetooth_text(value@),
{
    let chars: Vec<char> = to_chars(value);
    let value: &[char] = trim(chars.as_slice(), CharSet::Whitespace);
    if spells(value, "0") {
        "Off"
    } else if spells(value, "1") {
        "On"
    } else {
        "Unknown"
    }
}

/// The label of a network interface.
pub open spec fn interface_text(value: Seq<char>) -> Seq<char> {
    if same_letters(value, "up"@) {
        "On"@
    } else {
        "Off"@
    }
}

/// Returns the label of a network interface.
pub fn interface_label(value: &str) -> (label: &'static str)
    ensures
        label@ == interface_text(value@),
{
    if test_same_letters(value, "up") {
        "On"
    } else {
        "Off"
    }
}

/// The trimmed text of a status file, unless it is too long.
pub fn parse_status_file(contents: &str) -> (text: Option<String>)
    ensures
        crate::text::optional_text(text) == (if crate::wording::byte_length(contents@)
            > MAX_STATUS_FILE {
            None
        } else {
            Some(crate::text::trimmed(contents@, CharSet::Whitespace))
        }),
{
    if crate::wording::byte_len(contents) as u64 > MAX_STATUS_FILE {
        return None;
    }
    Some(property_text(contents))
}

/// Tests whether a directory entry of the process table is that of a process.
pub fn is_process_entry(name: &str) -> (held: bool)
    ensures
        held == CharSet::Digit.covers(name@),
{
    CharSet::Digit.test_all(to_chars(name).as_slice())
}

// ---------------------------------------------------------------------------
// Quick controls
// ---------------------------------------------------------------------------
/// The light level after a step from the current one.
pub open spec fn light_after(current: int, step: int) -> int {
    crate::transform::clamped(current + step, 0, LIGHT_MAXIMUM as int)
}

/// Returns the light level to write after a step from the current one, or
/// nothing when the level stays as it is.
pub fn adjusted_light(current: i32, step: i8) -> (next: Option<i32>)
    requires
        step == -1 || step == 1,
    ensures
        next == (if light_after(current as int, step as int) == current {
            None
        } else {
            Some(light_after(current as int, step as int) as i32)
        }),
{
    let moved: i64 = current as i64 + step as i64;
    let next: i32 = if moved < 0 {
        0
    } else if moved > LIGHT_MAXIMUM as i64 {
        LIGHT_MAXIMUM as i32
    } else {
        moved as i32
    };
    if next == current {
        None
    } else {
        Some(next)
    }
}

/// A step keeps the light level within its range.
pub proof fn law_light_stays_in_range(current: int, step: int)
    ensures
        0 <= light_after(current, step) <= LIGHT_MAXIMUM,
{
}

/// Within the range, a step in one direction undoes a step in the other.
pub proof fn law_opposite_steps_cancel(current: int)
    requires
        0 <= current < LIGHT_MAXIMUM,
    ensures
        light_after(light_after(current, 1), -1) == current,
{
}

/// One property write.
#[derive(Debug, Clone, Copy)]
pub struct PropertyWrite {
    /// Service name.
    pub service: &'static str,
    /// Property name.
    pub property: &'static str,
    /// Value.
    pub value: &'static str,
    /// Short operation label.
    pub operation: &'static str,
}

/// The writes that toggle Wi-Fi: the service goes off before the radio, and
/// comes on after it.
pub open spec fn wifi_toggle(enabled: bool) -> Seq<PropertyWrite> {
    if enabled {
        seq![
            PropertyWrite {
                service: "com.lab126.wifid",
                property: "enable",
                value: "0",
                operation: "disable Wi-Fi service",
            },
            PropertyWrite {
                service: "com.lab126.cmd",
                property: "wirelessEnable",
                value: "0",
                operation: "disable wireless command",
            },
        ]
    } else {
        seq![
            PropertyWrite {
                service: "com.lab126.cmd",
                property: "wirelessEnable",
                value: "1",
                operation: "enable wireless command",
            },
            PropertyWrite {
                service: "com.lab126.wifid",
                property: "enable",
                value: "1",
                operation: "enable Wi-Fi service",
            },
        ]
    }
}

/// Returns the writes that toggle Wi-Fi.
pub fn wifi_toggle_writes(enabled: bool) -> (writes: Vec<PropertyWrite>)
    ensures
        writes@ == wifi_toggle(enabled),
{
    let writes: Vec<PropertyWrite> = if enabled {
        vec![
            PropertyWrite {
                service: "com.lab126.wifid",
                property: "enable",
                value: "0",
                operation: "disable Wi-Fi service",
            },
            PropertyWrite {
                service: "com.lab126.cmd",
                property: "wirelessEnable",
                value: "0",
                operation: "disable wireless command",
            },
        ]
    } else {
        vec![
            PropertyWrite {
                service: "com.lab126.cmd",
                property: "wirelessEnable",
                value: "1",
                operation: "enable wireless command",
            },
            PropertyWrite {
                service: "com.lab126.wifid",
                property: "enable",
                value: "1",
                operation: "enable Wi-Fi service",
            },
        ]
    };
    assert(writes@ =~= wifi_toggle(enabled));
    writes
}

// ---------------------------------------------------------------------------
// Preferences
// ---------------------------------------------------------------------------
/// The interval that a preference file holds.
pub open spec fn literary_setting(value: Seq<char>) -> Option<u16> {
    match crate::text::after_prefix(value, "ferrink-literary-clock-v1\ninterval_minutes="@) {
        Some(rest) => match crate::text::before_suffix(rest, seq!['\n']) {
            Some(number) => match crate::number::unsigned_value(number, 10) {
                Some(interval) => if interval <= u16::MAX && crate::device::is_interval(
                    interval as u16,
                ) {
                    Some(interval as u16)
                } else {
                    None
                },
                None => None,
            },
            None => None,
        },
        None => None,
    }
}

/// Reads the interval that a preference file holds.
pub fn parse_literary_setting(value: &str) -> (interval: Option<u16>)
    ensures
        interval == literary_setting(value@),
{
    proof {
        reveal_strlit("\n");
        assert("\n"@ =~= seq!['\n']);
    }
    let chars: Vec<char> = to_chars(value);
    let rest: &[char] = match strip_prefix(
        chars.as_slice(),
        "ferrink-literary-clock-v1\ninterval_minutes=",
    ) {
        Some(rest) => rest,
        None => {
            return None;
        },
    };
    let number: &[char] = match strip_suffix(rest, "\n") {
        Some(number) => number,
        None => {
            return None;
        },
    };
    match read_unsigned(number, 10, 65_535) {
        Some(interval) => if interval == 0 || interval == 1 || interval == 5 || interval == 15
            || interval == 30 || interval == 60 {
            Some(interval as u16)
        } else {
            None
        },
        None => None,
    }
}

/// The preference file of an interval.
pub open spec fn literary_setting_text(interval: u16) -> Seq<char> {
    "ferrink-literary-clock-v1\ninterval_minutes="@ + crate::text::decimal(interval as nat)
        + "\n"@
}

/// Formats the preference file of a supported interval.
pub fn format_literary_setting(interval: u16) -> (result: Result<String, KindleShellDeviceError>)
    ensures
        match result {
            Ok(text) => crate::device::is_interval(interval) && text@ == literary_setting_text(
                interval,
            ),
            Err(error) => !crate::device::is_interval(interval) && error
                == KindleShellDeviceError::InvalidValue("literary clock interval"),
        },
{
    if interval == 0 || interval == 1 || interval == 5 || interval == 15 || interval == 30
        || interval == 60 {
        let mut text: String = "ferrink-literary-clock-v1\ninterval_minutes=".to_owned();
        push_decimal(&mut text, interval as u64);
        text.append("\n");
        Ok(text)
    } else {
        Err(KindleShellDeviceError::InvalidValue("literary clock interval"))
    }
}

/// A supported interval that was written is read back.
pub proof fn law_literary_setting_reads_back(interval: u16)
    requires
        crate::device::is_interval(interval),
    ensures
        literary_setting(literary_setting_text(interval)) == Some(interval),
{
    let header = "ferrink-literary-clock-v1\ninterval_minutes="@;
    let number = crate::text::decimal(interval as nat);
    let text = literary_setting_text(interval);
    reveal_strlit("\n");
    assert("\n"@ =~= seq!['\n']);
    assert(text.subrange(0, header.len() as int) =~= header);
    let rest = text.skip(header.len() as int);
    assert(rest =~= number + seq!['\n']);
    assert(rest.subrange(rest.len() - 1, rest.len() as int) =~= seq!['\n']);
    assert(rest.take(rest.len() - 1) =~= number);
    crate::number::law_decimal_reads_back(interval as nat);
}

/// The background that a preference file holds.
pub open spec fn background_setting(value: Seq<char>) -> Option<crate::background::Choice> {
    match crate::text::after_prefix(value, "ferrink-launcher-background-v1\nchoice="@) {
        Some(rest) => match crate::text::before_suffix(rest, seq!['\n']) {
            Some(choice) => crate::background::Choice::of_setting(choice),
            None => None,
        },
        None => None,
    }
}

/// Reads the background that a preference file holds.
pub fn parse_launcher_background_setting(value: &str) -> (choice: Option<
    LauncherBackgroundChoice,
>)
    ensures
        match choice {
            Some(choice) => background_setting(value@) == Some(choice@),
            None => background_setting(value@) is None,
        },
{
    proof {
        reveal_strlit("\n");
        assert("\n"@ =~= seq!['\n']);
    }
    let chars: Vec<char> = to_chars(value);
    let rest: &[char] = match strip_prefix(
        chars.as_slice(),
        "ferrink-launcher-background-v1\nchoice=",
    ) {
        Some(rest) => rest,
        None => {
            return None;
        },
    };
    match strip_suffix(rest, "\n") {
        Some(choice) => LauncherBackgroundChoice::from_setting_value(from_chars(choice).as_str()),
        None => None,
    }
}

/// The preference file of a background.
pub open spec fn background_setting_text(choice: crate::background::Choice) -> Seq<char> {
    "ferrink-launcher-background-v1\nchoice="@ + choice.setting() + "\n"@
}

/// Formats the preference file of a background.
pub fn format_launcher_background_setting(choice: &LauncherBackgroundChoice) -> (text: String)
    ensures
        text@ == background_setting_text(choice@),
{
    let mut text: String = "ferrink-launcher-background-v1\nchoice=".to_owned();
    text.append(choice.setting_value().as_str());
    text.append("\n");
    text
}

/// A background that was written is read back.
pub proof fn law_background_setting_reads_back(choice: crate::background::Choice)
    requires
        choice matches crate::background::Choice::File { name }
            ==> crate::background::is_background_name(name),
    ensures
        background_setting(background_setting_text(choice)) == Some(choice),
{
    let header = "ferrink-launcher-background-v1\nchoice="@;
    let setting = choice.setting();
    let text = background_setting_text(choice);
    reveal_strlit("\n");
    assert("\n"@ =~= seq!['\n']);
    assert(text.subrange(0, header.len() as int) =~= header);
    let rest = text.skip(header.len() as int);
    assert(rest =~= setting + seq!['\n']);
    assert(rest.subrange(rest.len() - 1, rest.len() as int) =~= seq!['\n']);
    assert(rest.take(rest.len() - 1) =~= setting);
    crate::background::law_settings_read_back(choice);
}

/// Accepts or refuses a preference file before it is read.
pub fn check_preference_file(is_regular: bool, length: u64, maximum: u64) -> (accepted: bool)
    ensures
        accepted == (is_regular && 0 < length <= maximum),
{
    is_regular && length > 0 && length <= maximum
}

// ---------------------------------------------------------------------------
// Device state
// ---------------------------------------------------------------------------
/// What the adapter remembers.
#[derive(Debug)]
pub struct KindleShellDevicePort {
    /// The corpus, if one is installed.
    pub literary_corpus: Option<LiteraryClockCorpus>,
    /// Selected excerpt-update interval.
    pub literary_clock_interval_minutes: u16,
    /// The active background.
    pub launcher_background_choice: LauncherBackgroundChoice,
    /// The backgrounds to choose from.
    pub launcher_background_choices: Vec<LauncherBackgroundChoice>,
    /// The picture of the active background; absent means the generated pattern.
    pub launcher_background: Option<Vec<Rgb8Pixel>>,
}

/// A preference that was written, and what goes with it.
#[derive(Debug, PartialEq, Eq)]
pub enum WrittenPreference {
    /// An interval.
    Interval { interval: u16 },
    /// A background, with the picture that was loaded for it.
    Background { choice: LauncherBackgroundChoice, pixels: Vec<Rgb8Pixel> },
}

/// The interval to start with: the persisted one, if there is a corpus and the
/// preference could be read.
pub fn initial_interval(has_corpus: bool, preference: Option<u16>) -> (interval: u16)
    ensures
        interval == (match preference {
            Some(interval) => if has_corpus {
                interval
            } else {
                0
            },
            None => 0,
        }),
{
    match preference {
        Some(interval) => if has_corpus {
            interval
        } else {
            0
        },
        None => 0,
    }
}

/// Tests whether a background is among those to choose from.
pub fn is_installed(
    choices: &Vec<LauncherBackgroundChoice>,
    requested: &LauncherBackgroundChoice,
) -> (found: bool)
    ensures
        found == crate::background::choices(choices@).contains(requested@),
{
    let ghost all = crate::background::choices(choices@);
    for i in 0..choices.len()
        invariant
            all == crate::background::choices(choices@),
            forall|j: int| 0 <= j < i ==> #[trigger] all[j] != requested@,
    {
        assert(all[i as int] == choices@[i as int]@);
        if choices[i].same(requested) {
            assert(all.contains(requested@));
            return true;
        }
    }
    assert(!all.contains(requested@));
    false
}

/// The background to start with: the requested one, if it is installed and
/// could be loaded, and the built-in pattern otherwise.
pub fn initial_background(
    choices: &Vec<LauncherBackgroundChoice>,
    requested: LauncherBackgroundChoice,
    loaded: bool,
) -> (choice: LauncherBackgroundChoice)
    ensures
        choice@ == (if loaded && crate::background::choices(choices@).contains(requested@) {
            requested@
        } else {
            crate::background::Choice::Pattern
        }),
{
    if loaded && is_installed(choices, &requested) {
        requested
    } else {
        LauncherBackgroundChoice::Pattern
    }
}

/// What a command asks the adapter to do.
#[derive(Debug, PartialEq, Eq)]
pub enum DevicePlan {
    /// Read a light property, step it, and write it if it changed.
    StepLight { property: &'static str, operation: &'static str, step: i8 },
    /// Write a light property.
    WriteLight { property: &'static str, operation: &'static str, level: u8 },
    /// Read the Wi-Fi switch and toggle it.
    ToggleWifi,
    /// Persist an interval and adopt it.
    AdoptInterval { interval: u16 },
    /// Load a background, persist it, and adopt it.
    AdoptBackground { choice: LauncherBackgroundChoice },
}

impl KindleShellDevicePort {
    /// Whether a result is the plan of a command, or its refusal.
    pub open spec fn is_plan_of(
        &self,
        command: ShellDeviceCommand,
        result: Result<DevicePlan, KindleShellDeviceError>,
    ) -> bool {
        match command {
            ShellDeviceCommand::AdjustFrontlight(step) => if step == -1 || step == 1 {
                result matches Ok(DevicePlan::StepLight { property, operation, step: by })
                    && property@ == "flIntensity"@ && operation@ == "front-light"@ && by == step
            } else {
                result matches Err(KindleShellDeviceError::InvalidValue(operation)) && operation@
                    == "front-light"@
            },
            ShellDeviceCommand::AdjustWarmth(step) => if step == -1 || step == 1 {
                result matches Ok(DevicePlan::StepLight { property, operation, step: by })
                    && property@ == "currentAmberLevel"@ && operation@ == "warm-light"@ && by
                    == step
            } else {
                result matches Err(KindleShellDeviceError::InvalidValue(operation)) && operation@
                    == "warm-light"@
            },
            ShellDeviceCommand::SetFrontlight(level) => if level <= LIGHT_MAXIMUM {
                result matches Ok(DevicePlan::WriteLight { property, operation, level: to })
                    && property@ == "flIntensity"@ && operation@ == "front-light"@ && to == level
            } else {
                result matches Err(KindleShellDeviceError::InvalidValue(operation)) && operation@
                    == "front-light"@
            },
            ShellDeviceCommand::SetWarmth(level) => if level <= LIGHT_MAXIMUM {
                result matches Ok(DevicePlan::WriteLight { property, operation, level: to })
                    && property@ == "currentAmberLevel"@ && operation@ == "warm-light"@ && to
                    == level
            } else {
                result matches Err(KindleShellDeviceError::InvalidValue(operation)) && operation@
                    == "warm-light"@
            },
            ShellDeviceCommand::ToggleWifi => result matches Ok(DevicePlan::ToggleWifi),
            ShellDeviceCommand::CycleLiteraryClockInterval => if self.literary_corpus is Some {
                result matches Ok(DevicePlan::AdoptInterval { interval }) && interval
                    == crate::device::interval_after(self.literary_clock_interval_minutes)
            } else {
                result matches Err(KindleShellDeviceError::InvalidValue(operation)) && operation@
                    == "literary clock interval"@
            },
            ShellDeviceCommand::SelectLauncherBackground(index) => if index
                < self.launcher_background_choices@.len() {
                result matches Ok(DevicePlan::AdoptBackground { choice }) && choice@
                    == self.launcher_background_choices@[index as int]@
            } else {
                result matches Err(KindleShellDeviceError::InvalidValue(operation)) && operation@
                    == "launcher background choice"@
            },
        }
    }

    /// Starts the adapter with what could be read. `preference` is the persisted
    /// interval, and `loaded` what was loaded for the requested background, if
    /// that succeeded; the pattern has no picture.
    ///
    /// Without a corpus the literary clock is off. A background that is not
    /// installed or could not be loaded gives way to the pattern.
    pub fn open(
        literary_corpus: Option<LiteraryClockCorpus>,
        preference: Option<u16>,
        launcher_background_choices: Vec<LauncherBackgroundChoice>,
        requested: LauncherBackgroundChoice,
        loaded: Option<Option<Vec<Rgb8Pixel>>>,
    ) -> (port: Self)
        ensures
            port.literary_corpus == literary_corpus,
            port.literary_clock_interval_minutes == (if literary_corpus is Some && preference
                is Some {
                preference->0
            } else {
                0
            }),
            port.launcher_background_choices == launcher_background_choices,
            if loaded is Some && crate::background::choices(
                launcher_background_choices@,
            ).contains(requested@) {
                port.launcher_background_choice@ == requested@ && port.launcher_background
                    == loaded->0
            } else {
                port.launcher_background_choice@ == crate::background::Choice::Pattern
                    && port.launcher_background is None
            },
    {
        let installed: bool = is_installed(&launcher_background_choices, &requested);
        let launcher_background_choice: LauncherBackgroundChoice = initial_background(
            &launcher_background_choices,
            requested,
            loaded.is_some(),
        );
        let launcher_background: Option<Vec<Rgb8Pixel>> = match loaded {
            Some(loaded) => if installed {
                loaded
            } else {
                None
            },
            None => None,
        };
        KindleShellDevicePort {
            literary_clock_interval_minutes: initial_interval(
                literary_corpus.is_some(),
                preference,
            ),
            literary_corpus,
            launcher_background_choice,
            launcher_background_choices,
            launcher_background,
        }
    }

    /// Adopts a preference once it was written; all else stays.
    pub fn adopt(&mut self, written: WrittenPreference)
        ensures
            *final(self) == (match written {
                WrittenPreference::Interval { interval } => KindleShellDevicePort {
                    literary_clock_interval_minutes: interval,
                    ..*old(self)
                },
                WrittenPreference::Background { choice, pixels } => KindleShellDevicePort {
                    launcher_background_choice: choice,
                    launcher_background: Some(pixels),
                    ..*old(self)
                },
            }),
    {
        match written {
            WrittenPreference::Interval { interval } => {
                self.literary_clock_interval_minutes = interval;
            },
            WrittenPreference::Background { choice, pixels } => {
                self.launcher_background_choice = choice;
                self.launcher_background = Some(pixels);
            },
        }
    }

    /// Plans a command, or refuses it before anything is read or written.
    pub fn plan(&self, command: ShellDeviceCommand) -> (result: Result<
        DevicePlan,
        KindleShellDeviceError,
    >)
        ensures
            self.is_plan_of(command, result),
    {
        match command {
            ShellDeviceCommand::AdjustFrontlight(step) => {
                step_light("flIntensity", "front-light", step)
            },
            ShellDeviceCommand::AdjustWarmth(step) => {
                step_light("currentAmberLevel", "warm-light", step)
            },
            ShellDeviceCommand::SetFrontlight(level) => {
                write_light("flIntensity", "front-light", level)
            },
            ShellDeviceCommand::SetWarmth(level) => {
                write_light("currentAmberLevel", "warm-light", level)
            },
            ShellDeviceCommand::ToggleWifi => Ok(DevicePlan::ToggleWifi),
            ShellDeviceCommand::CycleLiteraryClockInterval => {
                if self.literary_corpus.is_none() {
                    return Err(KindleShellDeviceError::InvalidValue("literary clock interval"));
                }
                Ok(
                    DevicePlan::AdoptInterval {
                        interval: next_literary_clock_interval(
                            self.literary_clock_interval_minutes,
                        ),
                    },
                )
            },
            ShellDeviceCommand::SelectLauncherBackground(index) => {
                if index as usize >= self.launcher_background_choices.len() {
                    return Err(
                        KindleShellDeviceError::InvalidValue("launcher background choice"),
                    );
                }
                Ok(
                    DevicePlan::AdoptBackground {
                        choice: self.launcher_background_choices[index as usize].clone(),
                    },
                )
            },
        }
    }

    /// The excerpt that belongs to a time.
    pub open spec fn excerpt_at(&self, clock: LocalClock) -> Option<
        crate::literary_clock::Excerpt,
    > {
        crate::local_clock::excerpt_for(
            match self.literary_corpus {
                Some(corpus) => Some(corpus@),
                None => None,
            },
            self.literary_clock_interval_minutes,
            clock,
        )
    }

    /// Builds the snapshot from the values that were read.
    pub fn snapshot(
        &self,
        clock: &LocalClock,
        readings: &DeviceReadings,
    ) -> (snapshot: ShellDeviceSnapshot)
        ensures
            snapshot.time@ == clock.display@,
            snapshot.timezone@ == clock.timezone@,
            snapshot.battery_percent == readings.battery_percent,
            snapshot.charging == readings.charging,
            snapshot.wifi@ == wifi_text(readings.wifi_enabled, readings.wifi_connection@),
            snapshot.frontlight == readings.frontlight,
            snapshot.warmth == readings.warmth,
            snapshot.auto_brightness == readings.auto_brightness,
            snapshot.bluetooth@ == (match crate::text::optional_text(readings.bluetooth) {
                Some(value) => bluetooth_text(value),
                None => "Unavailable"@,
            }),
            snapshot.ssh@ == (if readings.ssh_running {
                "On"@
            } else {
                "Off"@
            }),
            snapshot.usbnet@ == (match crate::text::optional_text(readings.usb_state) {
                Some(value) => interface_text(value),
                None => "Unavailable"@,
            }),
            snapshot.adapter@ == "KOA3"@,
            snapshot.literary_clock_available == self.literary_corpus is Some,
            snapshot.literary_clock_interval_minutes == self.literary_clock_interval_minutes,
            shows_excerpt(snapshot, self.excerpt_at(*clock)),
            snapshot.launcher_background_label@ == self.launcher_background_choice@.label(),
            are_options(
                snapshot.launcher_background_options@,
                crate::background::choices(self.launcher_background_choices@),
                self.launcher_background_choice@,
            ),
            picture(snapshot.launcher_background) == picture(self.launcher_background),
    {
        let launcher_background: Option<Vec<Rgb8Pixel>> = match &self.launcher_background {
            Some(pixels) => Some(copy_pixels(pixels)),
            None => None,
        };
        let bluetooth: String = match &readings.bluetooth {
            Some(value) => bluetooth_label(value.as_str()).to_owned(),
            None => "Unavailable".to_owned(),
        };
        let usbnet: String = match &readings.usb_state {
            Some(value) => interface_label(value.as_str()).to_owned(),
            None => "Unavailable".to_owned(),
        };
        let ssh: String = if readings.ssh_running {
            "On".to_owned()
        } else {
            "Off".to_owned()
        };
        let (literary_excerpt, literary_credit, literary_excerpt_font_size): (
            Option<slint::StyledText>,
            String,
            u8,
        ) = match current_literary_excerpt(
            &self.literary_corpus,
            self.literary_clock_interval_minutes,
            clock,
        ) {
            Some(excerpt) => (
                Some(copy_styled_text(excerpt.styled_text())),
                excerpt.credit().to_owned(),
                excerpt.font_size(),
            ),
            None => (None, String::new(), 30),
        };
        ShellDeviceSnapshot {
            time: clock.display.clone(),
            timezone: clock.timezone.clone(),
            battery_percent: readings.battery_percent,
            charging: readings.charging,
            wifi: wifi_label(readings.wifi_enabled, readings.wifi_connection.as_str()).to_owned(),
            frontlight: readings.frontlight,
            warmth: readings.warmth,
            auto_brightness: readings.auto_brightness,
            bluetooth,
            ssh,
            usbnet,
            adapter: "KOA3".to_owned(),
            literary_clock_available: self.literary_corpus.is_some(),
            literary_clock_interval_minutes: self.literary_clock_interval_minutes,
            literary_excerpt,
            literary_credit,
            literary_excerpt_font_size,
            launcher_background_label: self.launcher_background_choice.label(),
            launcher_background_options: self.options(),
            launcher_background,
        }
    }

    fn options(&self) -> (list: Vec<LauncherBackgroundOptionSnapshot>)
        ensures
            are_options(
                list@,
                crate::background::choices(self.launcher_background_choices@),
                self.launcher_background_choice@,
            ),
    {
        let ghost all = crate::background::choices(self.launcher_background_choices@);
        let mut list: Vec<LauncherBackgroundOptionSnapshot> = Vec::new();
        for i in 0..self.launcher_background_choices.len()
            invariant
                all == crate::background::choices(self.launcher_background_choices@),
                are_options(list@, all.take(i as int), self.launcher_background_choice@),
        {
            let choice: &LauncherBackgroundChoice = &self.launcher_background_choices[i];
            assert(all[i as int] == choice@);
            list.push(
                LauncherBackgroundOptionSnapshot {
                    title: choice.label(),
                    detail: choice.detail().to_owned(),
                    selected: choice.same(&self.launcher_background_choice),
                },
            );
        }
        assert(all.take(all.len() as int) =~= all);
        list
    }
}

/// Whether a snapshot shows an excerpt, or none.
pub open spec fn shows_excerpt(
    snapshot: ShellDeviceSnapshot,
    excerpt: Option<crate::literary_clock::Excerpt>,
) -> bool {
    match excerpt {
        Some(excerpt) => {
            &&& snapshot.literary_excerpt == Some(excerpt.text)
            &&& snapshot.literary_credit@ == excerpt.credit
            &&& snapshot.literary_excerpt_font_size == excerpt.font_size
        },
        None => {
            &&& snapshot.literary_excerpt is None
            &&& snapshot.literary_credit@ == Seq::<char>::empty()
            &&& snapshot.literary_excerpt_font_size == 30
        },
    }
}

/// Whether options present the choices, with the active one selected.
pub open spec fn are_options(
    options: Seq<LauncherBackgroundOptionSnapshot>,
    choices: Seq<crate::background::Choice>,
    active: crate::background::Choice,
) -> bool {
    &&& options.len() == choices.len()
    &&& forall|i: int|
        0 <= i < choices.len() ==> {
            &&& (#[trigger] options[i]).title@ == choices[i].label()
            &&& options[i].detail@ == choices[i].detail()
            &&& options[i].selected == (choices[i] == active)
        }
}

/// The values that were read for a snapshot.
#[derive(Debug, Clone, PartialEq, Eq)]
pub struct DeviceReadings {
    /// Battery state of charge.
    pub battery_percent: u8,
    /// Whether the battery is charging.
    pub charging: bool,
    /// Front-light intensity.
    pub frontlight: u8,
    /// Warm-light intensity.
    pub warmth: u8,
    /// Whether the ambient-light controller is enabled.
    pub auto_brightness: bool,
    /// Whether Wi-Fi is enabled.
    pub wifi_enabled: bool,
    /// Wi-Fi connection state.
    pub wifi_connection: String,
    /// Bluetooth state, if it could be read.
    pub bluetooth: Option<String>,
    /// Whether the SSH server is running.
    pub ssh_running: bool,
    /// State of the USB network interface, if it could be read.
    pub usb_state: Option<String>,
}

fn step_light(property: &'static str, operation: &'static str, step: i8) -> (result: Result<
    DevicePlan,
    KindleShellDeviceError,
>)
    ensures
        if step == -1 || step == 1 {
            result == Ok::<_, KindleShellDeviceError>(
                DevicePlan::StepLight { property, operation, step },
            )
        } else {
            result == Err::<DevicePlan, _>(KindleShellDeviceError::InvalidValue(operation))
        },
{
    if step != -1 && step != 1 {
        return Err(KindleShellDeviceError::InvalidValue(operation));
    }
    Ok(DevicePlan::StepLight { property, operation, step })
}

fn write_light(property: &'static str, operation: &'static str, level: u8) -> (result: Result<
    DevicePlan,
    KindleShellDeviceError,
>)
    ensures
        if level <= LIGHT_MAXIMUM {
            result == Ok::<_, KindleShellDeviceError>(
                DevicePlan::WriteLight { property, operation, level },
            )
        } else {
            result == Err::<DevicePlan, _>(KindleShellDeviceError::InvalidValue(operation))
        },
{
    if level > LIGHT_MAXIMUM {
        return Err(KindleShellDeviceError::InvalidValue(operation));
    }
    Ok(DevicePlan::WriteLight { property, operation, level })
}

// ---------------------------------------------------------------------------
// What values and commands mean
// ---------------------------------------------------------------------------
/// A property is a number of 32 bits with its sign, white space around it aside.
pub proof fn law_properties_are_signed_numbers(output: Seq<char>)
    ensures
        match crate::number::signed_value(crate::text::trimmed(output, CharSet::Whitespace)) {
            Some(value) => if -0x8000_0000 <= value <= 0x7fff_ffff {
                property_value(output) == Some(value)
            } else {
                property_value(output) is None
            },
            None => property_value(output) is None,
        },
{
}

/// Texts have the same letters when each two are the same letter in either case.
pub proof fn law_letters_are_compared_one_by_one(a: Seq<char>, b: Seq<char>)
    ensures
        same_letters(a, b) <==> a.len() == b.len() && forall|i: int|
            0 <= i < a.len() ==> crate::text::lower(#[trigger] a[i]) == crate::text::lower(b[i]),
        same_letters(a, b) <==> same_letters(b, a),
{
    let x = crate::text::lowered(a);
    let y = crate::text::lowered(b);
    assert(x.len() == a.len() && y.len() == b.len());
    if same_letters(a, b) {
        assert forall|i: int| 0 <= i < a.len() implies crate::text::lower(#[trigger] a[i])
            == crate::text::lower(b[i]) by {
            assert(x[i] == y[i]);
        }
    }
    if a.len() == b.len() && forall|i: int|
        0 <= i < a.len() ==> crate::text::lower(#[trigger] a[i]) == crate::text::lower(b[i]) {
        assert forall|i: int| 0 <= i < x.len() implies x[i] == y[i] by {
            assert(crate::text::lower(a[i]) == crate::text::lower(b[i]));
        }
        assert(x =~= y);
    }
}

/// The labels of the radios tell their state: Wi-Fi that is on and connected has
/// a label of its own, and Bluetooth that answers neither way is unknown.
pub proof fn law_labels_tell_the_state(enabled: bool, value: Seq<char>)
    ensures
        wifi_text(enabled, value) == "Off"@ <==> !enabled,
        wifi_text(enabled, value) == "Wi-Fi"@ <==> enabled && same_letters(value, "CONNECTED"@),
        wifi_text(enabled, value) == "On"@ <==> enabled && !same_letters(value, "CONNECTED"@),
        bluetooth_text(value) == "Off"@ <==> crate::text::trimmed(value, CharSet::Whitespace)
            == seq!['0'],
        bluetooth_text(value) == "On"@ <==> crate::text::trimmed(value, CharSet::Whitespace)
            == seq!['1'],
        bluetooth_text(value) == "Off"@ || bluetooth_text(value) == "On"@ || bluetooth_text(value)
            == "Unknown"@,
        interface_text(value) == "On"@ <==> same_letters(value, "up"@),
        interface_text(value) == "Off"@ <==> !same_letters(value, "up"@),
{
    reveal_strlit("Off");
    reveal_strlit("On");
    reveal_strlit("Wi-Fi");
    reveal_strlit("Unknown");
    reveal_strlit("0");
    reveal_strlit("1");
    assert("Off"@.len() == 3 && "On"@.len() == 2 && "Wi-Fi"@.len() == 5 && "Unknown"@.len() == 7);
    assert("0"@ =~= seq!['0']);
    assert("1"@ =~= seq!['1']);
    assert("0"@[0] == '0' && "1"@[0] == '1');
}

/// A step changes a light by one between 0 and 24 and stops there; a light beyond
/// is brought back.
pub proof fn law_steps_change_the_light_by_one(current: int)
    ensures
        0 <= current < 24 ==> light_after(current, 1) == current + 1,
        0 < current <= 24 ==> light_after(current, -1) == current - 1,
        current >= 24 ==> light_after(current, 1) == 24,
        current <= 0 ==> light_after(current, -1) == 0,
        current > 24 ==> light_after(current, -1) == 24,
        current < 0 ==> light_after(current, 1) == 0,
{
}

/// Wi-Fi is turned off from the service to the command and on the other way
/// round, each with the value that says so.
pub proof fn law_wifi_is_turned_on_and_off_in_turn(i: int)
    requires
        0 <= i < 2,
    ensures
        wifi_toggle(true).len() == 2 && wifi_toggle(false).len() == 2,
        wifi_toggle(true)[i].value@ == "0"@ && wifi_toggle(false)[i].value@ == "1"@,
        wifi_toggle(true)[i].service == wifi_toggle(false)[1 - i].service,
        wifi_toggle(true)[i].property == wifi_toggle(false)[1 - i].property,
        wifi_toggle(true)[0].service@ == "com.lab126.wifid"@,
        wifi_toggle(true)[0].property@ == "enable"@,
        wifi_toggle(true)[1].service@ == "com.lab126.cmd"@,
        wifi_toggle(true)[1].property@ == "wirelessEnable"@,
{
}

/// The clock's setting is its heading and one of the six intervals on a line of
/// its own, and nothing else.
pub proof fn law_clock_settings_name_an_interval(number: Seq<char>, value: Seq<char>)
    ensures
        ({
            let text = "ferrink-literary-clock-v1\ninterval_minutes="@ + (number + seq!['\n']);
            match crate::number::unsigned_value(number, 10) {
                Some(n) => if n == 0 || n == 1 || n == 5 || n == 15 || n == 30 || n == 60 {
                    literary_setting(text) == Some(n as u16)
                } else {
                    literary_setting(text) is None
                },
                None => literary_setting(text) is None,
            }
        }),
        !crate::text::begins(value, "ferrink-literary-clock-v1\ninterval_minutes="@)
            ==> literary_setting(value) is None,
        value.len() == 0 || value.last() != '\n' ==> literary_setting(value) is None,
{
    let heading = "ferrink-literary-clock-v1\ninterval_minutes="@;
    crate::text::law_finding_is_cutting_out(Seq::empty(), heading, number + seq!['\n']);
    crate::text::law_finding_is_cutting_out(number, seq!['\n'], Seq::empty());
    settings_end_with_a_line(value, heading);
}

proof fn settings_end_with_a_line(value: Seq<char>, heading: Seq<char>)
    ensures
        value.len() == 0 || value.last() != '\n' ==> (crate::text::after_prefix(
            value,
            heading,
        ) matches Some(rest) ==> crate::text::before_suffix(rest, seq!['\n']) is None),
{
    if let Some(rest) = crate::text::after_prefix(value, heading) {
        if crate::text::ends(rest, seq!['\n']) {
            let n = rest.len() as int;
            assert(rest.subrange(n - 1, n)[0] == rest[n - 1]);
            assert(rest =~= value.skip(heading.len() as int));
            assert(rest.last() == value.last());
        }
    }
}

/// The background's setting is its heading and the setting of a choice on a line
/// of its own, and nothing else.
pub proof fn law_background_settings_name_a_choice(choice: Seq<char>, value: Seq<char>)
    ensures
        background_setting(
            "ferrink-launcher-background-v1\nchoice="@ + (choice + seq!['\n']),
        ) == crate::background::Choice::of_setting(choice),
        !crate::text::begins(value, "ferrink-launcher-background-v1\nchoice="@)
            ==> background_setting(value) is None,
        value.len() == 0 || value.last() != '\n' ==> background_setting(value) is None,
{
    let heading = "ferrink-launcher-background-v1\nchoice="@;
    crate::text::law_finding_is_cutting_out(Seq::empty(), heading, choice + seq!['\n']);
    crate::text::law_finding_is_cutting_out(choice, seq!['\n'], Seq::empty());
    settings_end_with_a_line(value, heading);
}

/// A plan does what its command asks for, with the property of the light that the
/// command names; steps other than one, levels above 24, intervals without a
/// corpus and backgrounds that are not offered are refused.
pub proof fn law_plans_do_what_commands_ask(
    port: KindleShellDevicePort,
    command: ShellDeviceCommand,
    result: Result<DevicePlan, KindleShellDeviceError>,
)
    requires
        port.is_plan_of(command, result),
    ensures
        result is Ok <==> match command {
            ShellDeviceCommand::AdjustFrontlight(step) => step == 1 || step == -1,
            ShellDeviceCommand::AdjustWarmth(step) => step == 1 || step == -1,
            ShellDeviceCommand::SetFrontlight(level) => level <= 24,
            ShellDeviceCommand::SetWarmth(level) => level <= 24,
            ShellDeviceCommand::ToggleWifi => true,
            ShellDeviceCommand::CycleLiteraryClockInterval => port.literary_corpus is Some,
            ShellDeviceCommand::SelectLauncherBackground(index) => index
                < port.launcher_background_choices@.len(),
        },
        result matches Ok(DevicePlan::StepLight { property, operation, step }) ==> {
            ||| command == ShellDeviceCommand::AdjustFrontlight(step) && property@
                == "flIntensity"@ && operation@ == "front-light"@
            ||| command == ShellDeviceCommand::AdjustWarmth(step) && property@
                == "currentAmberLevel"@ && operation@ == "warm-light"@
        },
        result matches Ok(DevicePlan::WriteLight { property, operation, level }) ==> {
            ||| command == ShellDeviceCommand::SetFrontlight(level) && property@
                == "flIntensity"@ && operation@ == "front-light"@
            ||| command == ShellDeviceCommand::SetWarmth(level) && property@
                == "currentAmberLevel"@ && operation@ == "warm-light"@
        },
        result matches Ok(DevicePlan::ToggleWifi) ==> command is ToggleWifi,
        result matches Ok(DevicePlan::AdoptInterval { interval }) ==> command
            is CycleLiteraryClockInterval && interval == crate::device::interval_after(
            port.literary_clock_interval_minutes,
        ),
        result matches Ok(DevicePlan::AdoptBackground { choice }) ==> (
        command matches ShellDeviceCommand::SelectLauncherBackground(index) && choice@
            == port.launcher_background_choices@[index as int]@),
        result matches Err(error) ==> error is InvalidValue,
{
}

/// A snapshot shows the excerpt of the moment, and without one an empty credit
/// in the size of 30; the option that is active is marked and no other.
pub proof fn law_snapshots_show_the_excerpt(
    snapshot: ShellDeviceSnapshot,
    excerpt: Option<crate::literary_clock::Excerpt>,
    options: Seq<LauncherBackgroundOptionSnapshot>,
    offered: Seq<crate::background::Choice>,
    active: crate::background::Choice,
    i: int,
)
    requires
        shows_excerpt(snapshot, excerpt),
        are_options(options, offered, active),
        0 <= i < offered.len(),
    ensures
        snapshot.literary_excerpt is Some <==> excerpt is Some,
        excerpt matches Some(excerpt) ==> snapshot.literary_excerpt == Some(excerpt.text)
            && snapshot.literary_credit@ == excerpt.credit && snapshot.literary_excerpt_font_size
            == excerpt.font_size,
        excerpt is None ==> snapshot.literary_credit@.len() == 0
            && snapshot.literary_excerpt_font_size == 30,
        options.len() == offered.len(),
        options[i].selected <==> offered[i] == active,
        options[i].title@ == offered[i].label() && options[i].detail@ == offered[i].detail(),
{
}

/// The excerpt of a port is that of its corpus at its interval.
pub proof fn law_ports_show_their_corpus(port: KindleShellDevicePort, clock: LocalClock)
    ensures
        port.literary_corpus is None ==> port.excerpt_at(clock) is None,
        port.literary_corpus matches Some(corpus) ==> port.excerpt_at(clock)
            == crate::local_clock::excerpt_for(
            Some(corpus@),
            port.literary_clock_interval_minutes,
            clock,
        ),
{
}

/// Each message begins with the operation and tells how it failed.
pub proof fn law_device_messages_name_the_operation(told: KindleShellDeviceError)
    ensures
        told matches KindleShellDeviceError::CommandIo { operation, source } ==> told.spec_message()
            == operation@
            + " failed: "@
            + source@,
        told matches KindleShellDeviceError::CommandTimedOut(operation) ==> told.spec_message()
            == operation@
            + " timed out"@,
        told matches KindleShellDeviceError::CommandFailed { operation, code }
            ==> told.spec_message()
            == operation@
            + " exited unsuccessfully ("@
            + (match code {
                Some(code) => "Some("@ + crate::text::signed_decimal(code as int) + ")"@,
                None => "None"@,
            })
            + ")"@,
        told matches KindleShellDeviceError::InvalidValue(operation) ==> told.spec_message()
            == operation@
            + " returned invalid data"@,
        told matches KindleShellDeviceError::StateIo { operation, source } ==> told.spec_message()
            == operation@
            + " failed: "@
            + source@,
{
}

} // verus!
