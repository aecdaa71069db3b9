//! The complete inventory, and the command line of the program that takes it.

use crate::probe::{
    DeviceIdentity, FramebufferCapability, InputDeviceCapability, PixelBitfield, PixelLayout,
    PowerCapability, ProbeReport, ProbeWarning, ProcessCapability, RedactionMetadata,
    ServiceCapability, StorageCapability, SystemCapability, PROBE_SCHEMA_VERSION,
};
use crate::redaction::{redact_text, REDACTION_POLICY};
use crate::text::{from_chars, push_string, push_text, str_eq, to_chars, trim, CharSet};
use crate::warning::warn;
use vstd::prelude::*;

verus! {

// ---------------------------------------------------------------------------
// Framebuffers
// ---------------------------------------------------------------------------
/// What the kernel says of one framebuffer.
#[derive(Debug, Clone, PartialEq, Eq)]
pub struct ScreenInfo {
    /// Driver name, with null characters at its end.
    pub id: String,
    /// Visible width in pixels.
    pub visible_width: u32,
    /// Visible height in pixels.
    pub visible_height: u32,
    /// Virtual width in pixels.
    pub virtual_width: u32,
    /// Virtual height in pixels.
    pub virtual_height: u32,
    /// Column of the first visible pixel.
    pub x_offset: u32,
    /// Row of the first visible pixel.
    pub y_offset: u32,
    /// Bytes from one row to the next.
    pub line_length: u32,
    /// Bytes of framebuffer memory.
    pub memory_length: u32,
    /// Bits of one pixel.
    pub bits_per_pixel: u32,
    /// Grayscale flag.
    pub grayscale: u32,
    /// Rotation value.
    pub rotation: u32,
    /// Red bits.
    pub red: PixelBitfield,
    /// Green bits.
    pub green: PixelBitfield,
    /// Blue bits.
    pub blue: PixelBitfield,
    /// Transparency bits.
    pub transparency: PixelBitfield,
}

impl ScreenInfo {
    /// How a pixel is encoded.
    pub open spec fn spec_pixel_layout(self) -> PixelLayout {
        if self.bits_per_pixel == 8 && (self.grayscale != 0 || (self.red.length == 0
            && self.green.length == 0 && self.blue.length == 0)) {
            PixelLayout::Grayscale8
        } else if self.red.length > 0 && self.green.length > 0 && self.blue.length > 0 {
            PixelLayout::PackedRgb
        } else {
            PixelLayout::Unknown
        }
    }

    /// Classifies how a pixel is encoded.
    pub fn pixel_layout(&self) -> (layout: PixelLayout)
        ensures
            layout == self.spec_pixel_layout(),
    {
        if self.bits_per_pixel == 8 && (self.grayscale != 0 || (self.red.length == 0
            && self.green.length == 0 && self.blue.length == 0)) {
            PixelLayout::Grayscale8
        } else if self.red.length > 0 && self.green.length > 0 && self.blue.length > 0 {
            PixelLayout::PackedRgb
        } else {
            PixelLayout::Unknown
        }
    }

    /// Whether this is what is reported of the framebuffer at the given path.
    pub open spec fn is_told_by(
        self,
        device: Seq<char>,
        framebuffer: FramebufferCapability,
    ) -> bool {
        &&& framebuffer.device@ == device
        &&& framebuffer.driver_id@ == crate::redaction::redacted_text(
            crate::text::trimmed(self.id@, CharSet::Only('\0')),
        )
        &&& framebuffer.visible_width == self.visible_width
        &&& framebuffer.visible_height == self.visible_height
        &&& framebuffer.virtual_width == self.virtual_width
        &&& framebuffer.virtual_height == self.virtual_height
        &&& framebuffer.x_offset == self.x_offset
        &&& framebuffer.y_offset == self.y_offset
        &&& framebuffer.line_length == self.line_length
        &&& framebuffer.memory_length == self.memory_length
        &&& framebuffer.bits_per_pixel == self.bits_per_pixel
        &&& framebuffer.grayscale == self.grayscale
        &&& framebuffer.pixel_layout == self.spec_pixel_layout()
        &&& framebuffer.rotation == self.rotation
        &&& framebuffer.red == self.red
        &&& framebuffer.green == self.green
        &&& framebuffer.blue == self.blue
        &&& framebuffer.transparency == self.transparency
    }

    /// Describes the framebuffer at the given path.
    pub fn describe(&self, device: &str) -> (framebuffer: FramebufferCapability)
        ensures
            self.is_told_by(device@, framebuffer),
    {
        let id: Vec<char> = to_chars(self.id.as_str());
        let driver: String = from_chars(trim(id.as_slice(), CharSet::Only('\0')));
        FramebufferCapability {
            device: device.to_owned(),
            driver_id: redact_text(driver.as_str()),
            visible_width: self.visible_width,
            visible_height: self.visible_height,
            virtual_width: self.virtual_width,
            virtual_height: self.virtual_height,
            x_offset: self.x_offset,
            y_offset: self.y_offset,
            line_length: self.line_length,
            memory_length: self.memory_length,
            bits_per_pixel: self.bits_per_pixel,
            grayscale: self.grayscale,
            pixel_layout: self.pixel_layout(),
            rotation: self.rotation,
            red: self.red,
            green: self.green,
            blue: self.blue,
            transparency: self.transparency,
        }
    }
}

/// The paths of the framebuffers among the names of a device directory.
pub open spec fn framebuffer_paths(names: Seq<Seq<char>>) -> Seq<Seq<char>> {
    names.filter_map(
        |name: Seq<char>|
            if crate::trace::is_numbered(name, "fb"@) {
                Some("/dev/"@ + name)
            } else {
                None
            },
    )
}

/// Returns the paths of the framebuffers among the names of a device directory.
pub fn framebuffer_devices(names: &Vec<String>) -> (paths: Vec<String>)
    ensures
        crate::text::texts(paths@) == framebuffer_paths(crate::text::texts(names@)),
{
    let ghost all = crate::text::texts(names@);
    let ghost path_of = |name: Seq<char>|
        if crate::trace::is_numbered(name, "fb"@) {
            Some("/dev/"@ + name)
        } else {
            None
        };
    let mut paths: Vec<String> = Vec::new();
    assert(crate::text::texts(paths@) =~= all.take(0).filter_map(path_of));
    for i in 0..names.len()
        invariant
            all == crate::text::texts(names@),
            path_of == (|name: Seq<char>|
                if crate::trace::is_numbered(name, "fb"@) {
                    Some("/dev/"@ + name)
                } else {
                    None
                }),
            crate::text::texts(paths@) == all.take(i as int).filter_map(path_of),
    {
        let ghost before = crate::text::texts(paths@);
        assert(all.take(i + 1).drop_last() =~= all.take(i as int));
        assert(all.take(i + 1).last() == names@[i as int]@);
        if crate::inputs::is_numbered_name(names[i].as_str(), "fb") {
            let mut path: String = "/dev/".to_owned();
            path.append(names[i].as_str());
            let ghost text = path@;
            push_string(&mut paths, path);
            assert(before.push(text) =~= before + seq![text]);
        }
    }
    assert(all.take(all.len() as int) =~= all);
    paths
}

/// What became of asking one framebuffer for its information.
#[derive(Debug, Clone, PartialEq, Eq)]
pub enum FramebufferAnswer {
    /// The device could not be opened.
    Unopened,
    /// The device did not answer.
    Unanswered,
    /// The device answered.
    Answered(ScreenInfo),
}

/// One framebuffer that was asked.
#[derive(Debug, Clone, PartialEq, Eq)]
pub struct FramebufferProbe {
    /// Path of the device.
    pub device: String,
    /// What became of asking it.
    pub answer: FramebufferAnswer,
}

impl FramebufferProbe {
    /// What the answer is warned of.
    pub open spec fn notice(self) -> Seq<crate::warning::Notice> {
        match self.answer {
            FramebufferAnswer::Unopened => crate::warning::when(
                true,
                "framebuffer"@,
                "open_failed"@,
                "could not open "@ + self.device@ + " read-only"@,
            ),
            FramebufferAnswer::Unanswered => crate::warning::when(
                true,
                "framebuffer"@,
                "query_failed"@,
                "read-only framebuffer information ioctl failed for "@ + self.device@,
            ),
            FramebufferAnswer::Answered(_) => seq![],
        }
    }

    /// Whether the device answered and this is what is reported of it.
    pub open spec fn is_told_by(self, framebuffer: FramebufferCapability) -> bool {
        self.answer is Answered && self.answer->Answered_0.is_told_by(self.device@, framebuffer)
    }
}

/// The probes that were answered.
pub open spec fn answered(probes: Seq<FramebufferProbe>) -> Seq<FramebufferProbe> {
    probes.filter(|probe: FramebufferProbe| probe.answer is Answered)
}

/// What the first `n` probes are warned of.
pub open spec fn probe_notices(probes: Seq<FramebufferProbe>, n: int) -> Seq<
    crate::warning::Notice,
>
    decreases n,
{
    if n <= 0 {
        seq![]
    } else {
        probe_notices(probes, n - 1) + probes[n - 1].notice()
    }
}

fn warn_of_probe(warnings: &mut Vec<ProbeWarning>, probe: &FramebufferProbe)
    ensures
        crate::warning::notices(final(warnings)@) == crate::warning::notices(old(warnings)@)
            + probe.notice(),
{
    match probe.answer {
        FramebufferAnswer::Unopened => {
            let mut message: String = "could not open ".to_owned();
            message.append(probe.device.as_str());
            message.append(" read-only");
            warn(warnings, "framebuffer", "open_failed", message.as_str());
        },
        FramebufferAnswer::Unanswered => {
            let mut message: String =
                "read-only framebuffer information ioctl failed for ".to_owned();
            message.append(probe.device.as_str());
            warn(warnings, "framebuffer", "query_failed", message.as_str());
        },
        FramebufferAnswer::Answered(_) => {
            assert(crate::warning::notices(warnings@) + seq![] =~= crate::warning::notices(
                warnings@,
            ));
        },
    }
}

/// Describes the framebuffers that answered, in order, and warns of the others.
pub fn collect_framebuffers(
    probes: &Vec<FramebufferProbe>,
    warnings: &mut Vec<ProbeWarning>,
) -> (list: Vec<FramebufferCapability>)
    ensures
        list@.len() == answered(probes@).len(),
        forall|i: int|
            0 <= i < list@.len() ==> answered(probes@)[i].is_told_by(#[trigger] list@[i]),
        crate::warning::notices(final(warnings)@) == crate::warning::notices(old(warnings)@)
            + probe_notices(probes@, probes@.len() as int),
{
    let ghost holds = |probe: FramebufferProbe| probe.answer is Answered;
    let ghost before = crate::warning::notices(warnings@);
    let mut list: Vec<FramebufferCapability> = Vec::new();
    proof {
        reveal(Seq::filter);
    }
    assert(before + probe_notices(probes@, 0) =~= before);
    for i in 0..probes.len()
        invariant
            holds == (|probe: FramebufferProbe| probe.answer is Answered),
            list@.len() == probes@.take(i as int).filter(holds).len(),
            forall|j: int|
                0 <= j < list@.len() ==> probes@.take(i as int).filter(holds)[j].is_told_by(
                    #[trigger] list@[j],
                ),
            crate::warning::notices(warnings@) == before + probe_notices(probes@, i as int),
    {
        proof {
            reveal(Seq::filter);
            assert(probes@.take(i + 1).drop_last() =~= probes@.take(i as int));
        }
        let ghost kept = probes@.take(i as int).filter(holds);
        warn_of_probe(warnings, &probes[i]);
        assert(crate::warning::notices(warnings@) =~= before + probe_notices(probes@, i + 1));
        if let FramebufferAnswer::Answered(info) = &probes[i].answer {
            let framebuffer: FramebufferCapability = info.describe(probes[i].device.as_str());
            list.push(framebuffer);
            assert(probes@.take(i + 1).filter(holds) == kept.push(probes@[i as int]));
        }
    }
    assert(probes@.take(probes@.len() as int) =~= probes@);
    list
}

// ---------------------------------------------------------------------------
// Report
// ---------------------------------------------------------------------------
/// The kinds of data that a report leaves out.
pub open spec fn report_categories() -> Seq<Seq<char>> {
    seq![
        "full_serial_numbers"@,
        "network_credentials_and_ssids"@,
        "tokens_and_account_data"@,
        "ssh_keys"@,
        "document_names"@,
        "process_command_lines"@,
    ]
}

fn report_redaction() -> (redaction: RedactionMetadata)
    ensures
        redaction.enabled,
        redaction.policy@ == REDACTION_POLICY@,
        crate::text::texts(redaction.excluded_categories@) == report_categories(),
{
    let mut excluded: Vec<String> = Vec::new();
    push_text(&mut excluded, "full_serial_numbers");
    push_text(&mut excluded, "network_credentials_and_ssids");
    push_text(&mut excluded, "tokens_and_account_data");
    push_text(&mut excluded, "ssh_keys");
    push_text(&mut excluded, "document_names");
    push_text(&mut excluded, "process_command_lines");
    assert(crate::text::texts(excluded@) =~= report_categories());
    RedactionMetadata {
        enabled: true,
        policy: REDACTION_POLICY.to_owned(),
        excluded_categories: excluded,
    }
}

/// The parts of an inventory.
#[derive(Debug, Clone, PartialEq, Eq)]
pub struct ReportParts {
    /// Version of the program.
    pub probe_version: String,
    /// When the inventory was taken.
    pub captured_at_unix_seconds: u64,
    /// What identifies the device model.
    pub identity: DeviceIdentity,
    /// Firmware, kernel and user land.
    pub system: SystemCapability,
    /// Every framebuffer.
    pub framebuffers: Vec<FramebufferCapability>,
    /// Every input event device.
    pub inputs: Vec<InputDeviceCapability>,
    /// Clocks, sleep states, supplies and lights.
    pub power: PowerCapability,
    /// Services and their start jobs.
    pub services: ServiceCapability,
    /// Mounts and file systems.
    pub storage: StorageCapability,
    /// Processes that matter.
    pub processes: Vec<ProcessCapability>,
    /// What could not be read.
    pub warnings: Vec<ProbeWarning>,
}

/// Puts an inventory together, and warns when it holds no framebuffer or no
/// input device.
pub fn collect(parts: ReportParts) -> (report: ProbeReport)
    ensures
        report.schema_version == PROBE_SCHEMA_VERSION,
        report.probe_version == parts.probe_version,
        report.captured_at_unix_seconds == parts.captured_at_unix_seconds,
        report.redaction.enabled,
        report.redaction.policy@ == REDACTION_POLICY@,
        crate::text::texts(report.redaction.excluded_categories@) == report_categories(),
        report.identity == parts.identity,
        report.system == parts.system,
        report.framebuffers == parts.framebuffers,
        report.inputs == parts.inputs,
        report.power == parts.power,
        report.services == parts.services,
        report.storage == parts.storage,
        report.processes == parts.processes,
        crate::warning::notices(report.warnings@) == crate::warning::notices(parts.warnings@)
            + crate::warning::when(
            parts.framebuffers@.len() == 0,
            "framebuffer"@,
            "not_found"@,
            "no readable framebuffer capability was found"@,
        ) + crate::warning::when(
            parts.inputs@.len() == 0,
            "input"@,
            "not_found"@,
            "no input event capability was found"@,
        ),
{
    let ghost before = crate::warning::notices(parts.warnings@);
    let mut warnings: Vec<ProbeWarning> = parts.warnings;
    if parts.framebuffers.len() == 0 {
        warn(
            &mut warnings,
            "framebuffer",
            "not_found",
            "no readable framebuffer capability was found",
        );
    }
    let ghost middle = before + crate::warning::when(
        parts.framebuffers@.len() == 0,
        "framebuffer"@,
        "not_found"@,
        "no readable framebuffer capability was found"@,
    );
    assert(crate::warning::notices(warnings@) =~= middle);
    if parts.inputs.len() == 0 {
        warn(&mut warnings, "input", "not_found", "no input event capability was found");
    }
    assert(parts.inputs@.len() > 0 ==> middle =~= middle + seq![]);
    ProbeReport {
        schema_version: PROBE_SCHEMA_VERSION,
        probe_version: parts.probe_version,
        captured_at_unix_seconds: parts.captured_at_unix_seconds,
        redaction: report_redaction(),
        identity: parts.identity,
        system: parts.system,
        framebuffers: parts.framebuffers,
        inputs: parts.inputs,
        power: parts.power,
        services: parts.services,
        storage: parts.storage,
        processes: parts.processes,
        warnings,
    }
}

// ---------------------------------------------------------------------------
// Command line
// ---------------------------------------------------------------------------
/// What the command line asks for. Paths are given by the position of the
/// argument that holds them.
#[derive(Debug, Clone, Copy, PartialEq, Eq, Structural)]
pub struct Arguments {
    /// Where the report is written, if not to standard output.
    pub output: Option<usize>,
    /// The directory that stands for the root, if it is not the root itself.
    pub root: Option<usize>,
    /// Whether the report is indented.
    pub pretty: bool,
}

/// What to do.
#[derive(Debug, Clone, Copy, PartialEq, Eq, Structural)]
pub enum ParseResult {
    /// Take the inventory.
    Run(Arguments),
    /// Show the help text.
    Help,
}

/// The text of each argument; an argument that is not Unicode has none.
pub open spec fn argument_texts(arguments: Seq<Option<String>>) -> Seq<Option<Seq<char>>> {
    arguments.map_values(|argument: Option<String>| crate::text::optional_text(argument))
}

/// What the arguments from `i` on ask for, after those before it.
pub open spec fn asked_from(
    arguments: Seq<Option<Seq<char>>>,
    i: int,
    so_far: Arguments,
) -> Result<ParseResult, Seq<char>>
    decreases arguments.len() - i,
{
    if i >= arguments.len() {
        Ok(ParseResult::Run(so_far))
    } else {
        match arguments[i] {
            None => Err("arguments must be valid Unicode"@),
            Some(argument) => if argument == "--output"@ {
                if so_far.output is Some {
                    Err("--output may be supplied only once"@)
                } else if i + 1 >= arguments.len() {
                    Err("--output requires a path"@)
                } else {
                    asked_from(
                        arguments,
                        i + 2,
                        Arguments { output: Some((i + 1) as usize), ..so_far },
                    )
                }
            } else if argument == "--root"@ {
                if i + 1 >= arguments.len() {
                    Err("--root requires a path"@)
                } else {
                    asked_from(
                        arguments,
                        i + 2,
                        Arguments { root: Some((i + 1) as usize), ..so_far },
                    )
                }
            } else if argument == "--compact"@ {
                asked_from(arguments, i + 1, Arguments { pretty: false, ..so_far })
            } else if argument == "-h"@ || argument == "--help"@ {
                Ok(ParseResult::Help)
            } else {
                Err("unknown argument: "@ + argument)
            },
        }
    }
}

/// What the arguments ask for.
pub open spec fn asked(arguments: Seq<Option<Seq<char>>>) -> Result<ParseResult, Seq<char>> {
    asked_from(arguments, 0, Arguments { output: None, root: None, pretty: true })
}

/// Reads the command line. There is no way to switch redaction off.
pub fn parse_arguments(arguments: &Vec<Option<String>>) -> (result: Result<ParseResult, String>)
    ensures
        match result {
            Ok(parsed) => asked(argument_texts(arguments@)) == Ok::<ParseResult, Seq<char>>(
                parsed,
            ),
            Err(message) => asked(argument_texts(arguments@)) == Err::<ParseResult, Seq<char>>(
                message@,
            ),
        },
{
    let ghost all = argument_texts(arguments@);
    let count: usize = arguments.len();
    let mut parsed: Arguments = Arguments { output: None, root: None, pretty: true };
    let mut i: usize = 0;
    while i < count
        invariant
            i <= count == arguments@.len(),
            all == argument_texts(arguments@),
            asked(all) == asked_from(all, i as int, parsed),
        decreases count - i,
    {
        assert(all[i as int] == crate::text::optional_text(arguments@[i as int]));
        match &arguments[i] {
            None => {
                return Err("arguments must be valid Unicode".to_owned());
            },
            Some(argument) => {
                if str_eq(argument.as_str(), "--output") {
                    if parsed.output.is_some() {
                        return Err("--output may be supplied only once".to_owned());
                    }
                    if count - i < 2 {
                        return Err("--output requires a path".to_owned());
                    }
                    parsed = Arguments { output: Some(i + 1), ..parsed };
                    i = i + 2;
                } else if str_eq(argument.as_str(), "--root") {
                    if count - i < 2 {
                        return Err("--root requires a path".to_owned());
                    }
                    parsed = Arguments { root: Some(i + 1), ..parsed };
                    i = i + 2;
                } else if str_eq(argument.as_str(), "--compact") {
                    parsed = Arguments { pretty: false, ..parsed };
                    i = i + 1;
                } else if str_eq(argument.as_str(), "-h") || str_eq(argument.as_str(), "--help") {
                    return Ok(ParseResult::Help);
                } else {
                    let mut message: String = "unknown argument: ".to_owned();
                    message.append(argument.as_str());
                    return Err(message);
                }
            },
        }
    }
    Ok(ParseResult::Run(parsed))
}

/// Describes a root that is not a directory.
pub fn not_a_directory(path: &str) -> (message: String)
    ensures
        message@ == "probe root is not a directory: "@ + path@,
{
    let mut message: String = "probe root is not a directory: ".to_owned();
    message.append(path);
    message
}

/// Describes why a report is not written.
pub fn refusal(errors: &Vec<String>) -> (message: String)
    ensures
        message@ == "refusing to write invalid report: "@ + crate::text::joined(
            crate::text::texts(errors@),
            "; "@,
        ),
{
    let mut message: String = "refusing to write invalid report: ".to_owned();
    crate::wording::push_joined(&mut message, errors, "; ");
    message
}

/// Pixels of eight bits are gray where the screen says so or has no colours, and
/// packed where all three colours have bits; nothing else is known.
pub proof fn law_pixel_layouts_follow_the_colours(screen: ScreenInfo)
    ensures
        ({
            let layout = screen.spec_pixel_layout();
            let colours = (screen.red.length, screen.green.length, screen.blue.length);
            let gray = screen.bits_per_pixel == 8 && (screen.grayscale > 0 || colours == (
                0u32,
                0u32,
                0u32,
            ));
            let packed = colours.0 > 0 && colours.1 > 0 && colours.2 > 0;
            &&& layout == PixelLayout::Grayscale8 <==> gray
            &&& layout == PixelLayout::PackedRgb <==> packed && !gray
            &&& layout == PixelLayout::Unknown <==> !packed && !gray
        }),
{
}

/// The framebuffers are the names that are `fb` and a number, in order.
pub proof fn law_framebuffers_are_numbered(names: Seq<Seq<char>>, name: Seq<char>)
    ensures
        framebuffer_paths(Seq::<Seq<char>>::empty()) == Seq::<Seq<char>>::empty(),
        crate::trace::is_numbered(name, "fb"@) ==> framebuffer_paths(names.push(name))
            == framebuffer_paths(names).push("/dev/"@ + name),
        !crate::trace::is_numbered(name, "fb"@) ==> framebuffer_paths(names.push(name))
            == framebuffer_paths(names),
{
    assert(names.push(name).drop_last() =~= names);
}

/// What cannot be opened or asked is warned of, and what answers is not.
pub proof fn law_silent_framebuffers_are_warned_of(probe: FramebufferProbe)
    ensures
        probe.notice().len() == 0 <==> probe.answer is Answered,
        probe.answer is Unopened ==> probe.notice()[0].code == "open_failed"@,
        probe.answer is Unanswered ==> probe.notice()[0].code == "query_failed"@,
        !(probe.answer is Answered) ==> probe.notice().len() == 1 && probe.notice()[0].subsystem
            == "framebuffer"@,
        probe.answer is Unopened ==> probe.notice()[0].message
            == crate::redaction::redacted_text(
            "could not open "@ + probe.device@ + " read-only"@,
        ),
        probe.answer is Unanswered ==> probe.notice()[0].message
            == crate::redaction::redacted_text(
            "read-only framebuffer information ioctl failed for "@ + probe.device@,
        ),
{
}

proof fn reading_goes_on(
    arguments: Seq<Option<Seq<char>>>,
    more: Seq<Option<Seq<char>>>,
    i: int,
    so_far: Arguments,
)
    requires
        0 <= i <= arguments.len(),
    ensures
        asked_from(arguments, i, so_far) matches Ok(ParseResult::Run(read)) ==> asked_from(
            arguments + more,
            i,
            so_far,
        ) == asked_from(arguments + more, arguments.len() as int, read),
        asked_from(arguments, i, so_far) matches Ok(ParseResult::Help) ==> asked_from(
            arguments + more,
            i,
            so_far,
        ) == Ok::<_, Seq<char>>(ParseResult::Help),
    decreases arguments.len() - i,
{
    if i < arguments.len() {
        let all = arguments + more;
        assert(all[i] == arguments[i]);
        if let Some(argument) = arguments[i] {
            if argument == "--output"@ {
                if so_far.output is None && i + 1 < arguments.len() {
                    reading_goes_on(
                        arguments,
                        more,
                        i + 2,
                        Arguments { output: Some((i + 1) as usize), ..so_far },
                    );
                }
            } else if argument == "--root"@ {
                if i + 1 < arguments.len() {
                    reading_goes_on(
                        arguments,
                        more,
                        i + 2,
                        Arguments { root: Some((i + 1) as usize), ..so_far },
                    );
                }
            } else if argument == "--compact"@ {
                reading_goes_on(arguments, more, i + 1, Arguments { pretty: false, ..so_far });
            }
        }
    }
}

proof fn flags_differ()
    ensures
        "--output"@ != "--root"@,
        "--output"@ != "--compact"@,
        "--root"@ != "--compact"@,
        "-h"@ != "--output"@ && "-h"@ != "--root"@ && "-h"@ != "--compact"@,
        "--help"@ != "--output"@ && "--help"@ != "--root"@ && "--help"@ != "--compact"@,
{
    reveal_strlit("--output");
    reveal_strlit("--root");
    reveal_strlit("--compact");
    reveal_strlit("-h");
    reveal_strlit("--help");
    assert("--output"@[2] == 'o' && "--root"@[2] == 'r' && "--compact"@[2] == 'c');
    assert("--help"@[2] == 'h' && "-h"@.len() == 2 && "--output"@.len() == 8);
    assert("--root"@.len() == 6 && "--compact"@.len() == 9);
}

/// Where arguments ask for a run, one or two more change just what they name:
/// `--compact` the layout, `--output`, once, and `--root` a path, by its
/// position. Help ends the reading, and anything else is refused by name.
#[verifier::spinoff_prover]
#[verifier::rlimit(40)]
pub proof fn law_arguments_change_what_they_name(
    arguments: Seq<Option<Seq<char>>>,
    read: Arguments,
    argument: Seq<char>,
    path: Option<Seq<char>>,
)
    requires
        asked(arguments) == Ok::<_, Seq<char>>(ParseResult::Run(read)),
    ensures
        asked(arguments.push(Some("--compact"@))) == Ok::<_, Seq<char>>(
            ParseResult::Run(Arguments { pretty: false, ..read }),
        ),
        asked(arguments.push(Some("-h"@)).push(path)) == Ok::<_, Seq<char>>(ParseResult::Help),
        asked(arguments.push(Some("--help"@)).push(path)) == Ok::<_, Seq<char>>(
            ParseResult::Help,
        ),
        asked(arguments.push(Some("--root"@)).push(path)) == Ok::<_, Seq<char>>(
            ParseResult::Run(Arguments { root: Some((arguments.len() + 1) as usize), ..read }),
        ),
        asked(arguments.push(Some("--root"@))) == Err::<ParseResult, _>("--root requires a path"@),
        read.output is None ==> asked(arguments.push(Some("--output"@)).push(path)) == Ok::<
            _,
            Seq<char>,
        >(ParseResult::Run(Arguments { output: Some((arguments.len() + 1) as usize), ..read })),
        read.output is None ==> asked(arguments.push(Some("--output"@))) == Err::<ParseResult, _>(
            "--output requires a path"@,
        ),
        read.output is Some ==> asked(arguments.push(Some("--output"@)).push(path)) == Err::<
            ParseResult,
            _,
        >("--output may be supplied only once"@),
        asked(arguments.push(None)) == Err::<ParseResult, _>("arguments must be valid Unicode"@),
        argument != "--output"@ && argument != "--root"@ && argument != "--compact"@ && argument
            != "-h"@ && argument != "--help"@ ==> asked(arguments.push(Some(argument))) == Err::<
            ParseResult,
            _,
        >("unknown argument: "@ + argument),
        asked(Seq::<Option<Seq<char>>>::empty()) == Ok::<_, Seq<char>>(
            ParseResult::Run(Arguments { output: None, root: None, pretty: true }),
        ),
{
    flags_differ();
    reveal_with_fuel(asked_from, 3);
    one_more_is_read(arguments, read, Some("--compact"@));
    one_more_is_read(arguments, read, Some("--root"@));
    one_more_is_read(arguments, read, Some("--output"@));
    one_more_is_read(arguments, read, Some(argument));
    one_more_is_read(arguments, read, None);
    two_more_are_read(arguments, read, Some("-h"@), path);
    two_more_are_read(arguments, read, Some("--help"@), path);
    two_more_are_read(arguments, read, Some("--root"@), path);
    two_more_are_read(arguments, read, Some("--output"@), path);
}

proof fn one_more_is_read(
    arguments: Seq<Option<Seq<char>>>,
    read: Arguments,
    one: Option<Seq<char>>,
)
    requires
        asked(arguments) == Ok::<_, Seq<char>>(ParseResult::Run(read)),
    ensures
        asked(arguments.push(one)) == asked_from(
            arguments.push(one),
            arguments.len() as int,
            read,
        ),
{
    let first = Arguments { output: None, root: None, pretty: true };
    reading_goes_on(arguments, seq![one], 0, first);
    assert(arguments + seq![one] =~= arguments.push(one));
}

proof fn two_more_are_read(
    arguments: Seq<Option<Seq<char>>>,
    read: Arguments,
    one: Option<Seq<char>>,
    two: Option<Seq<char>>,
)
    requires
        asked(arguments) == Ok::<_, Seq<char>>(ParseResult::Run(read)),
    ensures
        asked(arguments.push(one).push(two)) == asked_from(
            arguments.push(one).push(two),
            arguments.len() as int,
            read,
        ),
{
    let first = Arguments { output: None, root: None, pretty: true };
    reading_goes_on(arguments, seq![one, two], 0, first);
    assert(arguments + seq![one, two] =~= arguments.push(one).push(two));
}

/// A framebuffer is described as its screen answers, value by value, at the
/// device that was asked, with the driver's name redacted.
pub proof fn law_screens_are_described_as_they_answer(
    screen: ScreenInfo,
    device: Seq<char>,
    framebuffer: FramebufferCapability,
)
    requires
        screen.is_told_by(device, framebuffer),
    ensures
        framebuffer.device@ == device,
        framebuffer.driver_id@ == crate::redaction::redacted_text(
            crate::text::trimmed(screen.id@, CharSet::Only('\0')),
        ),
        framebuffer.visible_width == screen.visible_width,
        framebuffer.visible_height == screen.visible_height,
        framebuffer.virtual_width == screen.virtual_width,
        framebuffer.virtual_height == screen.virtual_height,
        framebuffer.x_offset == screen.x_offset,
        framebuffer.y_offset == screen.y_offset,
        framebuffer.line_length == screen.line_length,
        framebuffer.memory_length == screen.memory_length,
        framebuffer.bits_per_pixel == screen.bits_per_pixel,
        framebuffer.grayscale == screen.grayscale,
        framebuffer.rotation == screen.rotation,
        framebuffer.red == screen.red && framebuffer.green == screen.green,
        framebuffer.blue == screen.blue && framebuffer.transparency == screen.transparency,
        framebuffer.pixel_layout == screen.spec_pixel_layout(),
{
}

/// Framebuffers are described and warned of one by one, in order.
pub proof fn law_framebuffers_are_asked_in_order(
    probes: Seq<FramebufferProbe>,
    probe: FramebufferProbe,
    framebuffer: FramebufferCapability,
)
    ensures
        answered(Seq::<FramebufferProbe>::empty()).len() == 0,
        answered(probes.push(probe)) == (if probe.answer is Answered {
            answered(probes).push(probe)
        } else {
            answered(probes)
        }),
        probe_notices(probes.push(probe), 1 + probes.len() as int) == probe_notices(
            probes,
            probes.len() as int,
        ) + probe.notice(),
        probe_notices(probes, 0).len() == 0,
        probe.is_told_by(framebuffer) ==> (
        probe.answer matches FramebufferAnswer::Answered(screen) && screen.is_told_by(
            probe.device@,
            framebuffer,
        )),
{
    reveal(Seq::filter);
    let all = probes.push(probe);
    assert(all.drop_last() =~= probes);
    notices_of_the_first(probes, probe, probes.len() as int);
}

proof fn notices_of_the_first(probes: Seq<FramebufferProbe>, probe: FramebufferProbe, n: int)
    requires
        n <= probes.len(),
    ensures
        probe_notices(probes.push(probe), n) == probe_notices(probes, n),
    decreases n,
{
    if n > 0 {
        notices_of_the_first(probes, probe, n - 1);
        assert(probes.push(probe)[n - 1] == probes[n - 1]);
    }
}

/// A report leaves out six kinds of private things.
pub proof fn law_reports_leave_out_everything_private()
    ensures
        report_categories().contains("full_serial_numbers"@),
        report_categories().contains("network_credentials_and_ssids"@),
        report_categories().contains("tokens_and_account_data"@),
        report_categories().contains("ssh_keys"@),
        report_categories().contains("document_names"@),
        report_categories().contains("process_command_lines"@),
{
    let all = report_categories();
    assert(all[0] == "full_serial_numbers"@ && all[1] == "network_credentials_and_ssids"@);
    assert(all[2] == "tokens_and_account_data"@ && all[3] == "ssh_keys"@);
    assert(all[4] == "document_names"@ && all[5] == "process_command_lines"@);
}

} // verus!
