//! The device shell's command line, its guardian protocol, and the decisions of
//! its event loop.

use crate::shell::{
    delivered, PowerAction, ShellAction, ShellCommand, ShellCommandOutcome, ShellCommandPort,
    ShellState, MAX_APPLICATIONS,
};
use crate::text::{push_decimal, str_eq, to_chars, test_begins};
use vstd::prelude::*;

verus! {

/// The oldest report that is accepted outside a guardian session.
pub const MAX_REPORT_AGE_SECONDS: u64 = 900;

/// The largest input file.
pub const MAX_INPUT_FILE_BYTES: u64 = 1_048_576;

/// The longest run of the shell.
pub const MAX_RUNTIME_SECONDS: u64 = 31_536_000;

/// How long one wait for input lasts.
pub const INPUT_POLL_MILLIS: u64 = 100;

/// The size of the input buffer.
pub const READ_BUFFER_BYTES: u32 = 4_096;

/// The records of one input budget.
pub const INPUT_RECORD_BUDGET: u32 = 10_000;

/// When the input budget is renewed.
pub const INPUT_RECORD_RENEW_AT: u32 = 8_000;

/// The descriptor on which readiness is signalled.
pub const GUARDIAN_READY_FD: i32 = 3;

/// The byte that signals readiness.
pub const GUARDIAN_READY_BYTE: u8 = 82;

/// The descriptor on which a command is handed over.
pub const GUARDIAN_COMMAND_FD: i32 = 4;

/// How many input reads are reported.
pub const MAX_INPUT_DIAGNOSTIC_READS: u32 = 32;

/// How many contacts are reported.
pub const MAX_INPUT_DIAGNOSTIC_CONTACTS: u32 = 16;

/// Protocol byte of a return to the stock interface.
pub const COMMAND_RETURN_STOCK: u8 = 83;

/// Protocol byte of an application launch.
pub const COMMAND_LAUNCH_APPLICATION: u8 = 65;

/// Protocol byte of a reboot.
pub const COMMAND_REBOOT: u8 = 82;

/// Protocol byte of a power-off.
pub const COMMAND_POWER_OFF: u8 = 80;

// ---------------------------------------------------------------------------
// Command line
// ---------------------------------------------------------------------------
/// What the command line asks for. Paths are given by the position of the
/// argument that holds them.
#[derive(Debug, Clone, PartialEq, Eq)]
pub struct Arguments {
    /// The device profile.
    pub profile: usize,
    /// The probe report.
    pub report: usize,
    /// The application manifests.
    pub application_manifests: Vec<usize>,
    /// The readiness descriptor.
    pub ready_fd: Option<i32>,
    /// The command descriptor.
    pub command_fd: Option<i32>,
}

/// What to do.
#[derive(Debug, Clone, PartialEq, Eq)]
pub enum ParseResult {
    /// Run the shell.
    Run(Arguments),
    /// Show the help text.
    Help,
}

/// What was read of a command line.
pub struct Asked {
    /// The device profile.
    pub profile: Option<usize>,
    /// The probe report.
    pub report: Option<usize>,
    /// The application manifests.
    pub manifests: Seq<usize>,
    /// Whether the readiness descriptor was given.
    pub ready: bool,
    /// Whether the command descriptor was given.
    pub command: bool,
}

impl Asked {
    /// Nothing.
    pub open spec fn nothing() -> Asked {
        Asked { profile: None, report: None, manifests: seq![], ready: false, command: false }
    }
}

/// What a command line asks for.
pub enum Request {
    /// Run the shell.
    Run { asked: Asked },
    /// Show the help text.
    Help,
}

/// What the arguments from `i` on ask for, after those before it.
pub open spec fn asked_from(arguments: Seq<Option<Seq<char>>>, i: int, so_far: Asked) -> Result<
    Request,
    Seq<char>,
>
    decreases arguments.len() - i,
{
    let more = i + 1 < arguments.len();
    let at = (i + 1) as usize;
    if i >= arguments.len() {
        if so_far.ready != so_far.command {
            Err("--ready-fd and --command-fd must be supplied together"@)
        } else if so_far.profile is None {
            Err("--profile is required"@)
        } else if so_far.report is None {
            Err("--report is required"@)
        } else {
            Ok(Request::Run { asked: so_far })
        }
    } else {
        match arguments[i] {
            None => Err("arguments must be valid Unicode"@),
            Some(argument) => if argument == "--profile"@ {
                if so_far.profile is Some {
                    Err("--profile may be supplied only once"@)
                } else if !more {
                    Err("--profile requires a path"@)
                } else {
                    asked_from(arguments, i + 2, Asked { profile: Some(at), ..so_far })
                }
            } else if argument == "--report"@ {
                if so_far.report is Some {
                    Err("--report may be supplied only once"@)
                } else if !more {
                    Err("--report requires a path"@)
                } else {
                    asked_from(arguments, i + 2, Asked { report: Some(at), ..so_far })
                }
            } else if argument == "--application-manifest"@ {
                if so_far.manifests.len() == MAX_APPLICATIONS {
                    Err("too many --application-manifest values"@)
                } else if !more {
                    Err("--application-manifest requires a path"@)
                } else {
                    asked_from(
                        arguments,
                        i + 2,
                        Asked { manifests: so_far.manifests.push(at), ..so_far },
                    )
                }
            } else if argument == "--ready-fd"@ {
                if so_far.ready {
                    Err("--ready-fd may be supplied only once"@)
                } else if !more {
                    Err("--ready-fd requires a value"@)
                } else if arguments[i + 1] != Some("3"@) {
                    Err("--ready-fd accepts only the guardian descriptor 3"@)
                } else {
                    asked_from(arguments, i + 2, Asked { ready: true, ..so_far })
                }
            } else if argument == "--command-fd"@ {
                if so_far.command {
                    Err("--command-fd may be supplied only once"@)
                } else if !more {
                    Err("--command-fd requires a value"@)
                } else if arguments[i + 1] != Some("4"@) {
                    Err("--command-fd accepts only the guardian descriptor 4"@)
                } else {
                    asked_from(arguments, i + 2, Asked { command: true, ..so_far })
                }
            } else if argument == "-h"@ || argument == "--help"@ {
                Ok(Request::Help)
            } else {
                Err("unknown argument: "@ + argument)
            },
        }
    }
}

/// Whether a result is what a request says.
pub open spec fn answers(
    result: Result<ParseResult, String>,
    asked: Result<Request, Seq<char>>,
) -> bool {
    match (result, asked) {
        (Ok(ParseResult::Help), Ok(Request::Help)) => true,
        (Ok(ParseResult::Run(arguments)), Ok(Request::Run { asked })) => {
            &&& asked.profile == Some(arguments.profile)
            &&& asked.report == Some(arguments.report)
            &&& arguments.application_manifests@ == asked.manifests
            &&& arguments.ready_fd == (if asked.ready {
                Some(GUARDIAN_READY_FD)
            } else {
                None
            })
            &&& arguments.command_fd == (if asked.command {
                Some(GUARDIAN_COMMAND_FD)
            } else {
                None
            })
        },
        (Err(message), Err(expected)) => message@ == expected,
        _ => false,
    }
}

/// What was read of a command line so far.
struct Reading {
    profile: Option<usize>,
    report: Option<usize>,
    manifests: Vec<usize>,
    ready: bool,
    command: bool,
}

impl View for Reading {
    type V = Asked;

    closed spec fn view(&self) -> Asked {
        Asked {
            profile: self.profile,
            report: self.report,
            manifests: self.manifests@,
            ready: self.ready,
            command: self.command,
        }
    }
}

/// What one argument leads to.
enum Step {
    Value,
    Help,
    Error(String),
}

fn refuse(message: &str) -> (step: Step)
    ensures
        step matches Step::Error(text) && text@ == message@,
{
    Step::Error(message.to_owned())
}

fn is_value(arguments: &Vec<Option<String>>, i: usize, value: &str) -> (same: bool)
    requires
        i < arguments@.len(),
    ensures
        same == (crate::text::optional_text(arguments@[i as int]) == Some(value@)),
{
    crate::text::optional_is(&arguments[i], value)
}

/// Reads the argument at `i`, which takes a value from the next position.
fn read_argument(reading: &mut Reading, arguments: &Vec<Option<String>>, i: usize) -> (step: Step)
    requires
        i < arguments@.len(),
        old(reading)@.manifests.len() <= MAX_APPLICATIONS,
    ensures
        final(reading)@.manifests.len() <= MAX_APPLICATIONS,
        ({
            let all = crate::collector::argument_texts(arguments@);
            match step {
                Step::Value => asked_from(all, i as int, old(reading)@) == asked_from(
                    all,
                    i + 2,
                    final(reading)@,
                ) && i + 2 <= arguments@.len(),
                Step::Help => asked_from(all, i as int, old(reading)@) == Ok::<_, Seq<char>>(
                    Request::Help,
                ),
                Step::Error(message) => asked_from(all, i as int, old(reading)@) == Err::<
                    Request,
                    _,
                >(message@),
            }
        }),
{
    let ghost all = crate::collector::argument_texts(arguments@);
    assert(all[i as int] == crate::text::optional_text(arguments@[i as int]));
    let more: bool = arguments.len() - i >= 2;
    assert(more ==> all[i + 1] == crate::text::optional_text(arguments@[i + 1]));
    match &arguments[i] {
        None => refuse("arguments must be valid Unicode"),
        Some(argument) => {
            let argument: &str = argument.as_str();
            if str_eq(argument, "--profile") {
                if reading.profile.is_some() {
                    return refuse("--profile may be supplied only once");
                }
                if !more {
                    return refuse("--profile requires a path");
                }
                reading.profile = Some(i + 1);
                Step::Value
            } else if str_eq(argument, "--report") {
                if reading.report.is_some() {
                    return refuse("--report may be supplied only once");
                }
                if !more {
                    return refuse("--report requires a path");
                }
                reading.report = Some(i + 1);
                Step::Value
            } else if str_eq(argument, "--application-manifest") {
                if reading.manifests.len() == MAX_APPLICATIONS {
                    return refuse("too many --application-manifest values");
                }
                if !more {
                    return refuse("--application-manifest requires a path");
                }
                reading.manifests.push(i + 1);
                Step::Value
            } else if str_eq(argument, "--ready-fd") {
                if reading.ready {
                    return refuse("--ready-fd may be supplied only once");
                }
                if !more {
                    return refuse("--ready-fd requires a value");
                }
                if !is_value(arguments, i + 1, "3") {
                    return refuse("--ready-fd accepts only the guardian descriptor 3");
                }
                reading.ready = true;
                Step::Value
            } else if str_eq(argument, "--command-fd") {
                if reading.command {
                    return refuse("--command-fd may be supplied only once");
                }
                if !more {
                    return refuse("--command-fd requires a value");
                }
                if !is_value(arguments, i + 1, "4") {
                    return refuse("--command-fd accepts only the guardian descriptor 4");
                }
                reading.command = true;
                Step::Value
            } else if str_eq(argument, "-h") || str_eq(argument, "--help") {
                Step::Help
            } else {
                let mut message: String = "unknown argument: ".to_owned();
                message.append(argument);
                Step::Error(message)
            }
        },
    }
}

/// Reads the command line. There is no argument that overrides hardware or
/// authority.
pub fn parse_arguments(arguments: &Vec<Option<String>>) -> (result: Result<ParseResult, String>)
    ensures
        answers(
            result,
            asked_from(
                crate::collector::argument_texts(arguments@),
                0,
                Asked::nothing(),
            ),
        ),
{
    let ghost all = crate::collector::argument_texts(arguments@);
    let count: usize = arguments.len();
    let mut reading: Reading = Reading {
        profile: None,
        report: None,
        manifests: Vec::new(),
        ready: false,
        command: false,
    };
    assert(reading@.manifests =~= Asked::nothing().manifests);
    let mut i: usize = 0;
    while i < count
        invariant
            i <= count == arguments@.len(),
            all == crate::collector::argument_texts(arguments@),
            reading@.manifests.len() <= MAX_APPLICATIONS,
            asked_from(all, 0, Asked::nothing()) == asked_from(all, i as int, reading@),
        decreases count - i,
    {
        match read_argument(&mut reading, arguments, i) {
            Step::Value => {
                i = i + 2;
            },
            Step::Help => {
                return Ok(ParseResult::Help);
            },
            Step::Error(message) => {
                return Err(message);
            },
        }
    }
    if reading.ready != reading.command {
        return Err("--ready-fd and --command-fd must be supplied together".to_owned());
    }
    let profile: usize = match reading.profile {
        Some(profile) => profile,
        None => {
            return Err("--profile is required".to_owned());
        },
    };
    let report: usize = match reading.report {
        Some(report) => report,
        None => {
            return Err("--report is required".to_owned());
        },
    };
    let ready_fd: Option<i32> = if reading.ready {
        Some(GUARDIAN_READY_FD)
    } else {
        None
    };
    let command_fd: Option<i32> = if reading.command {
        Some(GUARDIAN_COMMAND_FD)
    } else {
        None
    };
    Ok(
        ParseResult::Run(
            Arguments {
                profile,
                report,
                application_manifests: reading.manifests,
                ready_fd,
                command_fd,
            },
        ),
    )
}

impl Arguments {
    /// Whether both descriptors of a guardian were handed over.
    pub fn is_guardian_session(&self) -> (held: bool)
        ensures
            held == (self.ready_fd is Some && self.command_fd is Some),
    {
        self.ready_fd.is_some() && self.command_fd.is_some()
    }
}

// ---------------------------------------------------------------------------
// Guardian protocol
// ---------------------------------------------------------------------------
/// The port that hands one command over to a guardian.
#[derive(Debug, Clone, Copy, PartialEq, Eq, Structural)]
pub struct GuardianCommandPort {
    exit_requested: bool,
    request: Option<ShellCommand>,
    guardian_attached: bool,
}

impl GuardianCommandPort {
    /// Whether the event loop is asked to end.
    pub closed spec fn spec_exit_requested(&self) -> bool {
        self.exit_requested
    }

    /// The accepted command.
    pub closed spec fn spec_request(&self) -> Option<ShellCommand> {
        self.request
    }

    /// Whether a guardian is attached.
    pub closed spec fn spec_attached(&self) -> bool {
        self.guardian_attached
    }

    /// The loop is asked to end exactly when a command was accepted, and only a
    /// guardian makes that possible.
    #[verifier::type_invariant]
    spec fn inv(self) -> bool {
        &&& self.exit_requested == self.request is Some
        &&& self.request is Some ==> self.guardian_attached
    }

    /// Creates a port without a command.
    pub fn new(guardian_attached: bool) -> (port: Self)
        ensures
            !port.spec_exit_requested(),
            port.spec_request() is None,
            port.spec_attached() == guardian_attached,
    {
        GuardianCommandPort { exit_requested: false, request: None, guardian_attached }
    }

    /// Returns whether the event loop is asked to end.
    pub fn exit_requested(&self) -> (requested: bool)
        ensures
            requested == self.spec_exit_requested(),
            requested == self.spec_request() is Some,
    {
        proof {
            use_type_invariant(self);
        }
        self.exit_requested
    }

    /// Returns the accepted command.
    pub fn request(&self) -> (request: Option<ShellCommand>)
        ensures
            request == self.spec_request(),
            request is Some ==> self.spec_attached(),
    {
        proof {
            use_type_invariant(self);
        }
        self.request
    }
}

impl ShellCommandPort for GuardianCommandPort {
    /// An attached guardian takes the first command, and nothing else.
    open spec fn answers(
        before: Self,
        command: ShellCommand,
        after: Self,
        outcome: ShellCommandOutcome,
    ) -> bool {
        &&& after.spec_attached() == before.spec_attached()
        &&& if before.spec_attached() && before.spec_request() is None {
            &&& outcome == ShellCommandOutcome::Accepted
            &&& after.spec_request() == Some(command)
            &&& after.spec_exit_requested()
        } else {
            &&& outcome == ShellCommandOutcome::Unavailable
            &&& after.spec_request() == before.spec_request()
            &&& after.spec_exit_requested() == before.spec_exit_requested()
        }
    }

    fn submit(&mut self, command: ShellCommand) -> (outcome: ShellCommandOutcome) {
        if self.guardian_attached && self.request.is_none() {
            *self = GuardianCommandPort {
                exit_requested: true,
                request: Some(command),
                guardian_attached: true,
            };
            ShellCommandOutcome::Accepted
        } else {
            ShellCommandOutcome::Unavailable
        }
    }
}

/// A guardian is asked only for what the controller permits: a request that
/// appears with an action is the command that the action gave, and a reboot or
/// a power-off was confirmed while it was pending.
pub proof fn law_guardian_requests_are_permitted(
    state: ShellState,
    port: GuardianCommandPort,
    action: ShellAction,
    end: ShellState,
    port_after: GuardianCommandPort,
)
    requires
        delivered(state, port, action, end, port_after),
        port_after.spec_request() != port.spec_request(),
    ensures
        port_after.spec_request() is Some,
        state.after(action).1 == port_after.spec_request(),
        port_after.spec_request() == Some(ShellCommand::Reboot) ==> state.pending == Some(
            PowerAction::Reboot,
        ) && action == ShellAction::ConfirmPowerAction,
        port_after.spec_request() == Some(ShellCommand::PowerOff) ==> state.pending == Some(
            PowerAction::PowerOff,
        ) && action == ShellAction::ConfirmPowerAction,
{
}

/// The bytes that hand a command over.
pub open spec fn guardian_bytes(command: ShellCommand) -> Seq<u8> {
    match command {
        ShellCommand::ReturnToStock => seq![COMMAND_RETURN_STOCK],
        ShellCommand::LaunchApplication(index) => seq![COMMAND_LAUNCH_APPLICATION, index@],
        ShellCommand::Reboot => seq![COMMAND_REBOOT],
        ShellCommand::PowerOff => seq![COMMAND_POWER_OFF],
    }
}

/// Encodes a command as a padded pair of bytes and the number of them that
/// count.
pub fn encode_guardian_command(command: ShellCommand) -> (encoded: Option<([u8; 2], usize)>)
    ensures
        match encoded {
            Some((bytes, length)) => {
                &&& length <= 2
                &&& bytes@.take(length as int) == guardian_bytes(command)
                &&& length == 1 ==> bytes@[1] == 0
            },
            None => false,
        },
{
    let (bytes, length): ([u8; 2], usize) = match command {
        ShellCommand::ReturnToStock => ([COMMAND_RETURN_STOCK, 0], 1),
        ShellCommand::LaunchApplication(index) => {
            ([COMMAND_LAUNCH_APPLICATION, index.value()], 2)
        },
        ShellCommand::Reboot => ([COMMAND_REBOOT, 0], 1),
        ShellCommand::PowerOff => ([COMMAND_POWER_OFF, 0], 1),
    };
    assert(bytes@.take(length as int) =~= guardian_bytes(command));
    Some((bytes, length))
}

/// Two commands with the same bytes are the same command: the protocol carries
/// the exact application.
pub proof fn law_guardian_bytes_tell_commands_apart(a: ShellCommand, b: ShellCommand)
    requires
        guardian_bytes(a) == guardian_bytes(b),
    ensures
        match (a, b) {
            (ShellCommand::LaunchApplication(first), ShellCommand::LaunchApplication(second)) => {
                first@ == second@
            },
            _ => a == b,
        },
{
    first_byte(a);
    first_byte(b);
    assert(guardian_bytes(a)[0] == guardian_bytes(b)[0]);
    if let ShellCommand::LaunchApplication(first) = a {
        if let ShellCommand::LaunchApplication(second) = b {
            assert(guardian_bytes(a)[1] == first@);
            assert(guardian_bytes(b)[1] == second@);
        }
    }
}

proof fn first_byte(command: ShellCommand)
    ensures
        guardian_bytes(command)[0] == (match command {
            ShellCommand::ReturnToStock => 83u8,
            ShellCommand::LaunchApplication(_) => 65u8,
            ShellCommand::Reboot => 82u8,
            ShellCommand::PowerOff => 80u8,
        }),
{
}

// ---------------------------------------------------------------------------
// Start and event loop
// ---------------------------------------------------------------------------
/// Whether the age of a report is acceptable.
pub open spec fn age_problem(now: u64, captured_at: u64, guardian_session: bool) -> Option<
    Seq<char>,
> {
    if now < captured_at {
        Some("probe report timestamp is in the future"@)
    } else if now - captured_at > MAX_REPORT_AGE_SECONDS && !guardian_session {
        Some(
            "probe report is "@ + crate::text::decimal((now - captured_at) as nat)
                + " seconds old; maximum is 900"@,
        )
    } else {
        None
    }
}

/// Checks the age of a report.
///
/// A long-lived guardian validated the report before its first lease. Its two
/// private descriptors attest later shell children of the same session.
pub fn check_report_age(now: u64, captured_at: u64, guardian_session: bool) -> (result: Result<
    (),
    String,
>)
    ensures
        match result {
            Ok(()) => age_problem(now, captured_at, guardian_session) is None,
            Err(message) => age_problem(now, captured_at, guardian_session) == Some(message@),
        },
{
    if now < captured_at {
        return Err("probe report timestamp is in the future".to_owned());
    }
    let age: u64 = now - captured_at;
    if age > MAX_REPORT_AGE_SECONDS && !guardian_session {
        let mut message: String = "probe report is ".to_owned();
        push_decimal(&mut message, age);
        message.append(" seconds old; maximum is 900");
        return Err(message);
    }
    Ok(())
}

/// Whether a path is a directory, or lies below it.
pub open spec fn is_below(path: Seq<char>, directory: Seq<char>) -> bool {
    path == directory || crate::text::begins(path, directory + seq!['/'])
}

/// Tests whether a canonical path lies in a device or kernel tree.
pub fn is_kernel_path(path: &str) -> (held: bool)
    ensures
        held == (is_below(path@, "/dev"@) || is_below(path@, "/proc"@) || is_below(
            path@,
            "/sys"@,
        )),
{
    proof {
        reveal_strlit("/dev");
        reveal_strlit("/dev/");
        reveal_strlit("/proc");
        reveal_strlit("/proc/");
        reveal_strlit("/sys");
        reveal_strlit("/sys/");
        assert("/dev"@ + seq!['/'] =~= "/dev/"@);
        assert("/proc"@ + seq!['/'] =~= "/proc/"@);
        assert("/sys"@ + seq!['/'] =~= "/sys/"@);
    }
    let chars: Vec<char> = to_chars(path);
    str_eq(path, "/dev") || test_begins(chars.as_slice(), "/dev/") || str_eq(path, "/proc")
        || test_begins(chars.as_slice(), "/proc/") || str_eq(path, "/sys") || test_begins(
        chars.as_slice(),
        "/sys/",
    )
}

/// Accepts or refuses an input file before it is read.
pub fn check_input_file(is_regular: bool, length: u64) -> (accepted: bool)
    ensures
        accepted == (is_regular && length <= MAX_INPUT_FILE_BYTES),
{
    is_regular && length <= MAX_INPUT_FILE_BYTES
}

/// What is said of one input event.
#[derive(Debug, Clone, Copy, PartialEq, Eq, Structural)]
pub enum Diagnostic {
    /// It is reported under this number.
    Report { number: u32 },
    /// That further ones are not reported.
    Suppressed,
    /// Nothing.
    Silent,
}

/// What is said of the event with the given number.
pub open spec fn diagnostic_of(number: u32, maximum: u32) -> Diagnostic {
    if number <= maximum {
        Diagnostic::Report { number }
    } else if number == maximum + 1 {
        Diagnostic::Suppressed
    } else {
        Diagnostic::Silent
    }
}

/// Counts input events, so that only the first ones are reported.
#[derive(Debug, Clone, Copy, Default, PartialEq, Eq, Structural)]
pub struct InputDiagnostics {
    /// Reads so far.
    pub reads: u32,
    /// Contacts so far.
    pub contacts: u32,
}

/// The count after one more event; it stops at the largest number.
pub open spec fn counted(count: u32) -> u32 {
    if count == u32::MAX {
        u32::MAX
    } else {
        (count + 1) as u32
    }
}

fn count_one(count: u32) -> (next: u32)
    ensures
        next == counted(count),
{
    if count == u32::MAX {
        u32::MAX
    } else {
        count + 1
    }
}

fn diagnose(number: u32, maximum: u32) -> (diagnostic: Diagnostic)
    requires
        maximum < u32::MAX,
    ensures
        diagnostic == diagnostic_of(number, maximum),
{
    if number <= maximum {
        Diagnostic::Report { number }
    } else if number == maximum + 1 {
        Diagnostic::Suppressed
    } else {
        Diagnostic::Silent
    }
}

impl InputDiagnostics {
    /// Counts one read.
    pub fn read(&mut self) -> (diagnostic: Diagnostic)
        ensures
            final(self).reads == counted(old(self).reads),
            final(self).contacts == old(self).contacts,
            diagnostic == diagnostic_of(final(self).reads, MAX_INPUT_DIAGNOSTIC_READS),
    {
        self.reads = count_one(self.reads);
        diagnose(self.reads, MAX_INPUT_DIAGNOSTIC_READS)
    }

    /// Counts one contact.
    pub fn dispatch(&mut self) -> (diagnostic: Diagnostic)
        ensures
            final(self).contacts == counted(old(self).contacts),
            final(self).reads == old(self).reads,
            diagnostic == diagnostic_of(final(self).contacts, MAX_INPUT_DIAGNOSTIC_CONTACTS),
    {
        self.contacts = count_one(self.contacts);
        diagnose(self.contacts, MAX_INPUT_DIAGNOSTIC_CONTACTS)
    }
}

// ---------------------------------------------------------------------------
// What the protocol and the limits amount to
// ---------------------------------------------------------------------------
/// The guardian reads one byte for each command, the initials of "stock",
/// "application", "restart" and "power off", and after that of an application
/// its index.
pub proof fn law_guardian_bytes_are_initials(command: ShellCommand)
    ensures
        match command {
            ShellCommand::ReturnToStock => guardian_bytes(command) == seq![0x53u8],
            ShellCommand::LaunchApplication(index) => guardian_bytes(command) == seq![
                0x41u8,
                index@,
            ],
            ShellCommand::Reboot => guardian_bytes(command) == seq![0x52u8],
            ShellCommand::PowerOff => guardian_bytes(command) == seq![0x50u8],
        },
        GUARDIAN_READY_BYTE == 0x52,
        GUARDIAN_READY_FD == 3 && GUARDIAN_COMMAND_FD == 4,
{
}

/// A report from the future is refused, one of at most fifteen minutes is
/// accepted, and an older one only inside of a guardian session.
pub proof fn law_reports_are_fresh_for_fifteen_minutes(
    now: u64,
    captured_at: u64,
    guardian_session: bool,
)
    ensures
        age_problem(now, captured_at, guardian_session) is None <==> captured_at <= now && (
        guardian_session || now - captured_at <= 15 * 60),
        now < captured_at ==> age_problem(now, captured_at, guardian_session) == Some(
            "probe report timestamp is in the future"@,
        ),
{
}

/// A path is below a directory when it is the directory or goes on with a slash
/// behind it; a longer name is another one.
pub proof fn law_paths_are_below_whole_names(path: Seq<char>, directory: Seq<char>)
    ensures
        is_below(directory, directory),
        is_below(directory + seq!['/'] + path, directory),
        path.len() > 0 && path[0] != '/' ==> !is_below(directory + path, directory),
        is_below(path, directory) ==> path.len() >= directory.len() && path.take(
            directory.len() as int,
        ) == directory,
{
    let slashed = directory + seq!['/'];
    let n = directory.len() as int;
    assert((slashed + path).subrange(0, n + 1) =~= slashed);
    if path.len() > 0 && path[0] != '/' && is_below(directory + path, directory) {
        let longer = directory + path;
        assert(longer.len() != directory.len());
        assert(longer.subrange(0, n + 1)[n] == path[0]);
        assert(slashed[n] == '/');
    }
    if is_below(path, directory) {
        if path != directory {
            assert(path.subrange(0, n + 1).take(n) =~= path.take(n));
            assert(slashed.take(n) =~= directory);
        } else {
            assert(path.take(n) =~= directory);
        }
    }
}

/// The first 32 reads and the first 16 contacts are reported, each with its
/// number; the next one of each says that there will be no more, and all after
/// it are silent. Each read and each contact counts one, and counting stops at
/// the largest number.
pub proof fn law_diagnostics_are_bounded(number: u32)
    ensures
        number <= 32 ==> diagnostic_of(number, MAX_INPUT_DIAGNOSTIC_READS) == (
        Diagnostic::Report { number }),
        diagnostic_of(33, MAX_INPUT_DIAGNOSTIC_READS) == Diagnostic::Suppressed,
        number > 33 ==> diagnostic_of(number, MAX_INPUT_DIAGNOSTIC_READS) == Diagnostic::Silent,
        number <= 16 ==> diagnostic_of(number, MAX_INPUT_DIAGNOSTIC_CONTACTS) == (
        Diagnostic::Report { number }),
        diagnostic_of(17, MAX_INPUT_DIAGNOSTIC_CONTACTS) == Diagnostic::Suppressed,
        number > 17 ==> diagnostic_of(number, MAX_INPUT_DIAGNOSTIC_CONTACTS)
            == Diagnostic::Silent,
        number < u32::MAX ==> counted(number) == number + 1,
        counted(u32::MAX) == u32::MAX,
{
}

/// The port takes on one command: an attached guardian gets the first that is
/// submitted, which ends the session, and no other; without a guardian none is
/// taken on.
pub proof fn law_the_guardian_gets_one_command(
    port: GuardianCommandPort,
    first: ShellCommand,
    after_first: GuardianCommandPort,
    first_outcome: ShellCommandOutcome,
    second: ShellCommand,
    after_second: GuardianCommandPort,
    second_outcome: ShellCommandOutcome,
)
    requires
        port.spec_request() is None,
        !port.spec_exit_requested(),
        GuardianCommandPort::answers(port, first, after_first, first_outcome),
        GuardianCommandPort::answers(after_first, second, after_second, second_outcome),
    ensures
        second_outcome == ShellCommandOutcome::Unavailable,
        port.spec_attached() ==> first_outcome == ShellCommandOutcome::Accepted
            && after_second.spec_request() == Some(first) && after_second.spec_exit_requested(),
        !port.spec_attached() ==> first_outcome == ShellCommandOutcome::Unavailable
            && after_second.spec_request() is None && !after_second.spec_exit_requested(),
{
}

/// The flags that take a value.
pub open spec fn takes_value(argument: Option<Seq<char>>) -> bool {
    ||| argument == Some("--profile"@)
    ||| argument == Some("--report"@)
    ||| argument == Some("--application-manifest"@)
    ||| argument == Some("--ready-fd"@)
    ||| argument == Some("--command-fd"@)
}

/// A command line that runs is made of flags, each with its value behind it. The
/// profile, the report and the manifests are the values of their own flags, the
/// manifests are at most 64 and come in their order, and the two descriptors are
/// given together, as 3 and 4, or not at all.
pub proof fn law_runs_take_the_values_of_their_flags(arguments: Seq<Option<Seq<char>>>)
    requires
        arguments.len() <= usize::MAX,
        asked_from(arguments, 0, Asked::nothing()) is Ok,
        asked_from(arguments, 0, Asked::nothing())->Ok_0 is Run,
    ensures
        ({
            let asked = asked_from(arguments, 0, Asked::nothing())->Ok_0->asked;
            &&& arguments.len() % 2 == 0
            &&& forall|j: int|
                0 <= j < arguments.len() && j % 2 == 0 ==> takes_value(#[trigger] arguments[j])
            &&& asked.profile is Some && 1 <= asked.profile->0 < arguments.len()
                && arguments[asked.profile->0 - 1] == Some("--profile"@)
            &&& asked.report is Some && 1 <= asked.report->0 < arguments.len()
                && arguments[asked.report->0 - 1] == Some("--report"@)
            &&& asked.manifests.len() <= 64
            &&& forall|k: int|
                0 <= k < asked.manifests.len() ==> 1 <= (#[trigger] asked.manifests[k])
                    < arguments.len() && arguments[asked.manifests[k] - 1] == Some(
                    "--application-manifest"@,
                )
            &&& forall|j: int, k: int|
                0 <= j < k < asked.manifests.len() ==> asked.manifests[j] < asked.manifests[k]
            &&& forall|j: int|
                0 <= j < arguments.len() && j % 2 == 0 && (#[trigger] arguments[j]) == Some(
                    "--application-manifest"@,
                ) ==> asked.manifests.contains((j + 1) as usize)
            &&& asked.ready == asked.command
            &&& forall|j: int|
                0 <= j < arguments.len() && j % 2 == 0 && (#[trigger] arguments[j]) == Some(
                    "--ready-fd"@,
                ) ==> asked.ready && arguments[j + 1] == Some("3"@)
            &&& forall|j: int|
                0 <= j < arguments.len() && j % 2 == 0 && (#[trigger] arguments[j]) == Some(
                    "--command-fd"@,
                ) ==> asked.command && arguments[j + 1] == Some("4"@)
            &&& asked.ready ==> exists|j: int|
                0 <= j < arguments.len() && j % 2 == 0 && (#[trigger] arguments[j]) == Some(
                    "--ready-fd"@,
                )
        }),
{
    reveal(read_up_to);
    assert(read_up_to(arguments, 0, Asked::nothing()));
    runs_grow(arguments, 0, Asked::nothing());
}

/// What was read of a command line up to `i`.
#[verifier::opaque]
spec fn read_up_to(arguments: Seq<Option<Seq<char>>>, i: int, asked: Asked) -> bool {
    &&& forall|j: int|
        0 <= j < i && j % 2 == 0 ==> takes_value(#[trigger] arguments[j])
    &&& asked.profile is Some ==> 1 <= asked.profile->0 < i && arguments[asked.profile->0 - 1]
        == Some("--profile"@)
    &&& asked.report is Some ==> 1 <= asked.report->0 < i && arguments[asked.report->0 - 1]
        == Some("--report"@)
    &&& asked.manifests.len() <= 64
    &&& forall|k: int|
        0 <= k < asked.manifests.len() ==> 1 <= (#[trigger] asked.manifests[k]) < i
            && arguments[asked.manifests[k] - 1] == Some("--application-manifest"@)
    &&& forall|j: int, k: int|
        0 <= j < k < asked.manifests.len() ==> asked.manifests[j] < asked.manifests[k]
    &&& forall|j: int|
        0 <= j < i && j % 2 == 0 && (#[trigger] arguments[j]) == Some(
            "--application-manifest"@,
        ) ==> asked.manifests.contains((j + 1) as usize)
    &&& forall|j: int|
        0 <= j < i && j % 2 == 0 && (#[trigger] arguments[j]) == Some("--ready-fd"@)
            ==> asked.ready && arguments[j + 1] == Some("3"@)
    &&& forall|j: int|
        0 <= j < i && j % 2 == 0 && (#[trigger] arguments[j]) == Some("--command-fd"@)
            ==> asked.command && arguments[j + 1] == Some("4"@)
    &&& asked.ready ==> exists|j: int|
        0 <= j < i && j % 2 == 0 && (#[trigger] arguments[j]) == Some("--ready-fd"@)
}

/// What is asked for once the flag at `i` was read with its value.
spec fn next_asked(argument: Seq<char>, at: usize, so_far: Asked) -> Asked {
    if argument == "--profile"@ {
        Asked { profile: Some(at), ..so_far }
    } else if argument == "--report"@ {
        Asked { report: Some(at), ..so_far }
    } else if argument == "--application-manifest"@ {
        Asked { manifests: so_far.manifests.push(at), ..so_far }
    } else if argument == "--ready-fd"@ {
        Asked { ready: true, ..so_far }
    } else {
        Asked { command: true, ..so_far }
    }
}

#[verifier::spinoff_prover]
#[verifier::rlimit(40)]
proof fn reading_goes_on(arguments: Seq<Option<Seq<char>>>, i: int, so_far: Asked)
    requires
        0 <= i,
        i + 2 <= arguments.len() <= usize::MAX,
        i % 2 == 0,
        read_up_to(arguments, i, so_far),
        arguments[i] is Some,
        takes_value(arguments[i]),
        so_far.manifests.len() == 64 ==> arguments[i] != Some("--application-manifest"@),
        arguments[i] == Some("--ready-fd"@) ==> arguments[i + 1] == Some("3"@),
        arguments[i] == Some("--command-fd"@) ==> arguments[i + 1] == Some("4"@),
    ensures
        read_up_to(
            arguments,
            i + 2,
            next_asked(arguments[i]->0, (i + 1) as usize, so_far),
        ),
{
    reveal(read_up_to);
    flags_differ();
    let at = (i + 1) as usize;
    let next = next_asked(arguments[i]->0, at, so_far);
    assert forall|j: int|
        0 <= j < i + 2 && j % 2 == 0 && (#[trigger] arguments[j]) == Some(
            "--application-manifest"@,
        ) implies next.manifests.contains((j + 1) as usize) by {
        if j < i {
            let k = choose|k: int|
                0 <= k < so_far.manifests.len() && so_far.manifests[k] == (j + 1) as usize;
            assert(next.manifests[k] == (j + 1) as usize);
        } else {
            assert(j == i);
            assert(next.manifests.last() == at);
        }
    }
    if next.ready {
        if so_far.ready {
            let j = choose|j: int|
                0 <= j < i && j % 2 == 0 && (#[trigger] arguments[j]) == Some("--ready-fd"@);
            assert(0 <= j < i + 2 && j % 2 == 0 && arguments[j] == Some("--ready-fd"@));
        } else {
            assert(arguments[i] == Some("--ready-fd"@));
        }
    }
}

proof fn runs_grow(arguments: Seq<Option<Seq<char>>>, i: int, so_far: Asked)
    requires
        arguments.len() <= usize::MAX,
        0 <= i <= arguments.len(),
        i % 2 == 0,
        read_up_to(arguments, i, so_far),
        asked_from(arguments, i, so_far) is Ok,
        asked_from(arguments, i, so_far)->Ok_0 is Run,
    ensures
        arguments.len() % 2 == 0,
        read_up_to(
            arguments,
            arguments.len() as int,
            asked_from(arguments, i, so_far)->Ok_0->asked,
        ),
        ({
            let asked = asked_from(arguments, i, so_far)->Ok_0->asked;
            asked.profile is Some && asked.report is Some && asked.ready == asked.command
        }),
    decreases arguments.len() - i,
{
    if i < arguments.len() {
        let next = next_asked(arguments[i]->0, (i + 1) as usize, so_far);
        flags_differ();
        assert(takes_value(arguments[i]));
        assert(asked_from(arguments, i, so_far) == asked_from(arguments, i + 2, next));
        reading_goes_on(arguments, i, so_far);
        runs_grow(arguments, i + 2, next);
    }
}

proof fn flags_differ()
    ensures
        "--profile"@ != "--report"@,
        "--profile"@ != "--application-manifest"@,
        "--profile"@ != "--ready-fd"@,
        "--profile"@ != "--command-fd"@,
        "--report"@ != "--application-manifest"@,
        "--report"@ != "--ready-fd"@,
        "--report"@ != "--command-fd"@,
        "--application-manifest"@ != "--ready-fd"@,
        "--application-manifest"@ != "--command-fd"@,
        "--ready-fd"@ != "--command-fd"@,
{
    reveal_strlit("--profile");
    reveal_strlit("--report");
    reveal_strlit("--application-manifest");
    reveal_strlit("--ready-fd");
    reveal_strlit("--command-fd");
    assert("--ready-fd"@[2] == 'r' && "--command-fd"@[2] == 'c');
    assert("--profile"@[2] == 'p' && "--report"@[2] == 'r');
    assert("--application-manifest"@[2] == 'a');
    assert("--report"@.len() == 8 && "--ready-fd"@.len() == 10);
}

/// What is answered is what was asked: help for help, an error for an error with
/// the same words, and for a run its paths and, where asked for, the descriptors
/// 3 and 4.
pub proof fn law_answers_are_what_was_asked(
    result: Result<ParseResult, String>,
    asked: Result<Request, Seq<char>>,
)
    requires
        answers(result, asked),
    ensures
        result is Ok <==> asked is Ok,
        result matches Ok(ParseResult::Help) <==> asked == Ok::<_, Seq<char>>(Request::Help),
        asked matches Err(message) ==> result->Err_0@ == message,
        asked matches Ok(Request::Run { asked }) ==> (result matches Ok(ParseResult::Run(run)) && {
            &&& asked.profile == Some(run.profile) && asked.report == Some(run.report)
            &&& run.application_manifests@ == asked.manifests
            &&& asked.ready ==> run.ready_fd == Some(3i32)
            &&& !asked.ready ==> run.ready_fd is None
            &&& asked.command ==> run.command_fd == Some(4i32)
            &&& !asked.command ==> run.command_fd is None
        }),
{
}

} // verus!
