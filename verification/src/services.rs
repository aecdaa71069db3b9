//! Service properties and start jobs.

use crate::power::{safe_kernel_name, safe_names};
use crate::probe::{LipcPropertyCapability, ServiceCapability, UpstartJobCapability};
use crate::redaction::redact_text;
use crate::string_map::StringMap;
use crate::text::{
    from_chars, push_signed_decimal, push_string, slices, spells, split_lines, strip_prefix,
    strip_suffix, test_ends, to_chars, trim, CharSet,
};
use vstd::prelude::*;

verus! {

/// One service property.
#[derive(Debug, Clone, Copy)]
pub struct LipcProperty {
    /// Service name.
    pub service: &'static str,
    /// Property name.
    pub property: &'static str,
}

/// The service properties that are asked for.
pub open spec fn asked_properties() -> Seq<LipcProperty> {
    seq![
        LipcProperty { service: "com.lab126.powerd", property: "battLevel" },
        LipcProperty { service: "com.lab126.powerd", property: "isCharging" },
        LipcProperty { service: "com.lab126.powerd", property: "status" },
        LipcProperty { service: "com.lab126.powerd", property: "flIntensity" },
        LipcProperty { service: "com.lab126.powerd", property: "currentAmberLevel" },
        LipcProperty { service: "com.lab126.powerd", property: "alsLux" },
        LipcProperty { service: "com.lab126.powerd", property: "state" },
        LipcProperty { service: "com.lab126.powerd", property: "rtcWakeup" },
        LipcProperty { service: "com.lab126.powerd", property: "powerButton" },
        LipcProperty { service: "com.lab126.powerd", property: "touchScreenSaverTimeout" },
        LipcProperty { service: "com.lab126.powerd", property: "preventScreenSaver" },
        LipcProperty { service: "com.lab126.cmd", property: "wirelessEnable" },
        LipcProperty { service: "com.lab126.pillow", property: "disableEnablePillow" },
        LipcProperty { service: "com.lab126.wifid", property: "cmState" },
        LipcProperty { service: "com.lab126.wifid", property: "enable" },
        LipcProperty { service: "com.lab126.wifid", property: "signalStrength" },
        LipcProperty { service: "com.lab126.winmgr", property: "accelerometer" },
    ]
}

/// Returns the service properties that are asked for.
pub fn lipc_properties() -> (properties: Vec<LipcProperty>)
    ensures
        properties@ == asked_properties(),
{
    let properties: Vec<LipcProperty> = vec![
        LipcProperty { service: "com.lab126.powerd", property: "battLevel" },
        LipcProperty { service: "com.lab126.powerd", property: "isCharging" },
        LipcProperty { service: "com.lab126.powerd", property: "status" },
        LipcProperty { service: "com.lab126.powerd", property: "flIntensity" },
        LipcProperty { service: "com.lab126.powerd", property: "currentAmberLevel" },
        LipcProperty { service: "com.lab126.powerd", property: "alsLux" },
        LipcProperty { service: "com.lab126.powerd", property: "state" },
        LipcProperty { service: "com.lab126.powerd", property: "rtcWakeup" },
        LipcProperty { service: "com.lab126.powerd", property: "powerButton" },
        LipcProperty { service: "com.lab126.powerd", property: "touchScreenSaverTimeout" },
        LipcProperty { service: "com.lab126.powerd", property: "preventScreenSaver" },
        LipcProperty { service: "com.lab126.cmd", property: "wirelessEnable" },
        LipcProperty { service: "com.lab126.pillow", property: "disableEnablePillow" },
        LipcProperty { service: "com.lab126.wifid", property: "cmState" },
        LipcProperty { service: "com.lab126.wifid", property: "enable" },
        LipcProperty { service: "com.lab126.wifid", property: "signalStrength" },
        LipcProperty { service: "com.lab126.winmgr", property: "accelerometer" },
    ];
    assert(properties@ =~= asked_properties());
    properties
}

/// What came of asking for a property.
#[derive(Debug, Clone, Copy, PartialEq, Eq, Structural)]
pub enum LipcOutcome {
    /// There is no program to ask with, or the files are not those of the
    /// running system.
    GetterUnavailable,
    /// The program could not be started.
    SpawnError,
    /// The program succeeded.
    Succeeded,
    /// The program failed with an exit code.
    Exited { code: i32 },
    /// The program was ended by a signal.
    Signalled,
    /// The program could not be waited for.
    WaitError,
    /// The program took too long.
    TimedOut,
}

impl LipcOutcome {
    /// The reported outcome.
    pub open spec fn spec_result(self) -> Seq<char> {
        match self {
            LipcOutcome::GetterUnavailable => "getter_unavailable"@,
            LipcOutcome::SpawnError => "spawn_error"@,
            LipcOutcome::Succeeded => "ok"@,
            LipcOutcome::Exited { code } => "exit_"@ + crate::text::signed_decimal(code as int),
            LipcOutcome::Signalled => "terminated_by_signal"@,
            LipcOutcome::WaitError => "wait_error"@,
            LipcOutcome::TimedOut => "timeout"@,
        }
    }

    /// Returns the reported outcome.
    pub fn result(self) -> (result: String)
        ensures
            result@ == self.spec_result(),
    {
        match self {
            LipcOutcome::GetterUnavailable => "getter_unavailable".to_owned(),
            LipcOutcome::SpawnError => "spawn_error".to_owned(),
            LipcOutcome::Succeeded => "ok".to_owned(),
            LipcOutcome::Exited { code } => {
                let mut result: String = "exit_".to_owned();
                push_signed_decimal(&mut result, code as i64);
                result
            },
            LipcOutcome::Signalled => "terminated_by_signal".to_owned(),
            LipcOutcome::WaitError => "wait_error".to_owned(),
            LipcOutcome::TimedOut => "timeout".to_owned(),
        }
    }
}

/// How often a running program is looked at before it is given up.
pub const LIPC_POLLS: u32 = 50;

/// What was seen when a running program was looked at.
#[derive(Debug, Clone, Copy, PartialEq, Eq, Structural)]
pub enum LipcPoll {
    /// It is still running.
    Running,
    /// It ended with success.
    Succeeded,
    /// It ended without success, with an exit code or by a signal.
    Failed { code: Option<i32> },
    /// It could not be looked at.
    Error,
}

/// What to do about a running program.
#[derive(Debug, Clone, Copy, PartialEq, Eq, Structural)]
pub enum LipcStep {
    /// Sleep for ten milliseconds, then look again.
    Sleep,
    /// It is over.
    Finish { outcome: LipcOutcome },
}

/// What to do after a look at a running program, which is the look with the
/// given number: a program that still runs at the last look is given up.
pub fn lipc_step(polls: u32, poll: LipcPoll) -> (step: LipcStep)
    ensures
        step == (match poll {
            LipcPoll::Running => if polls < LIPC_POLLS {
                LipcStep::Sleep
            } else {
                LipcStep::Finish { outcome: LipcOutcome::TimedOut }
            },
            LipcPoll::Succeeded => LipcStep::Finish { outcome: LipcOutcome::Succeeded },
            LipcPoll::Failed { code: Some(code) } => LipcStep::Finish {
                outcome: LipcOutcome::Exited { code },
            },
            LipcPoll::Failed { code: None } => LipcStep::Finish {
                outcome: LipcOutcome::Signalled,
            },
            LipcPoll::Error => LipcStep::Finish { outcome: LipcOutcome::WaitError },
        }),
{
    match poll {
        LipcPoll::Running => if polls < LIPC_POLLS {
            LipcStep::Sleep
        } else {
            LipcStep::Finish { outcome: LipcOutcome::TimedOut }
        },
        LipcPoll::Succeeded => LipcStep::Finish { outcome: LipcOutcome::Succeeded },
        LipcPoll::Failed { code: Some(code) } => LipcStep::Finish {
            outcome: LipcOutcome::Exited { code },
        },
        LipcPoll::Failed { code: None } => LipcStep::Finish { outcome: LipcOutcome::Signalled },
        LipcPoll::Error => LipcStep::Finish { outcome: LipcOutcome::WaitError },
    }
}

/// Describes a service property from what came of asking for it.
pub fn describe_property(property: LipcProperty, outcome: LipcOutcome) -> (capability:
    LipcPropertyCapability)
    ensures
        capability.service@ == property.service@,
        capability.property@ == property.property@,
        capability.readable == (outcome == LipcOutcome::Succeeded),
        capability.result@ == outcome.spec_result(),
{
    let readable: bool = match outcome {
        LipcOutcome::Succeeded => true,
        _ => false,
    };
    LipcPropertyCapability {
        service: property.service.to_owned(),
        property: property.property.to_owned(),
        readable,
        result: outcome.result(),
    }
}

/// Where a program may be found, in order of preference.
pub open spec fn program_places(name: Seq<char>) -> Seq<Seq<char>> {
    seq![
        "/usr/bin"@ + "/"@ + name,
        "/usr/sbin"@ + "/"@ + name,
        "/bin"@ + "/"@ + name,
        "/sbin"@ + "/"@ + name,
    ]
}

/// Returns where a program may be found, in order of preference.
pub fn executable_candidates(name: &str) -> (paths: Vec<String>)
    ensures
        crate::text::texts(paths@) == program_places(name@),
{
    let directories: [&'static str; 4] = ["/usr/bin", "/usr/sbin", "/bin", "/sbin"];
    let mut paths: Vec<String> = Vec::new();
    for i in 0..4usize
        invariant
            directories@ == seq!["/usr/bin", "/usr/sbin", "/bin", "/sbin"],
            crate::text::texts(paths@) == program_places(name@).take(i as int),
    {
        let mut path: String = directories[i].to_owned();
        path.append("/");
        path.append(name);
        assert(path@ == program_places(name@)[i as int]);
        push_string(&mut paths, path);
        assert(program_places(name@).take(i + 1) =~= program_places(name@).take(i as int).push(
            program_places(name@)[i as int],
        ));
    }
    assert(program_places(name@).take(4) =~= program_places(name@));
    paths
}

// ---------------------------------------------------------------------------
// Upstart jobs
// ---------------------------------------------------------------------------
/// What is reported of one job.
pub struct Job {
    /// Job name.
    pub name: Seq<char>,
    /// Redacted start conditions.
    pub start_on: Seq<Seq<char>>,
    /// Redacted stop conditions.
    pub stop_on: Seq<Seq<char>>,
    /// Whether it is restarted.
    pub respawn: bool,
    /// Whether it is a task.
    pub task: bool,
}

impl View for UpstartJobCapability {
    type V = Job;

    open spec fn view(&self) -> Job {
        Job {
            name: self.name@,
            start_on: crate::text::texts(self.start_on@),
            stop_on: crate::text::texts(self.stop_on@),
            respawn: self.respawn,
            task: self.task,
        }
    }
}

impl Job {
    /// The job after one more line of its file.
    pub open spec fn after(self, line: Seq<char>) -> Job {
        let line = crate::text::trimmed(line, CharSet::Whitespace);
        match (
            crate::text::after_prefix(line, "start on "@),
            crate::text::after_prefix(line, "stop on "@),
        ) {
            (Some(expression), _) => Job {
                start_on: self.start_on.push(crate::redaction::redacted_text(expression)),
                ..self
            },
            (None, Some(expression)) => Job {
                stop_on: self.stop_on.push(crate::redaction::redacted_text(expression)),
                ..self
            },
            (None, None) => if line == "respawn"@ {
                Job { respawn: true, ..self }
            } else if line == "task"@ {
                Job { task: true, ..self }
            } else {
                self
            },
        }
    }

    /// The job after the first `n` lines of its file.
    pub open spec fn after_all(name: Seq<char>, lines: Seq<Seq<char>>, n: int) -> Job
        decreases n,
    {
        if n <= 0 {
            Job { name, start_on: seq![], stop_on: seq![], respawn: false, task: false }
        } else {
            Job::after_all(name, lines, n - 1).after(lines[n - 1])
        }
    }
}

fn read_job_line(job: &mut UpstartJobCapability, line: &[char])
    ensures
        final(job)@ == old(job)@.after(line@),
{
    let line: &[char] = trim(line, CharSet::Whitespace);
    if let Some(expression) = strip_prefix(line, "start on ") {
        push_string(&mut job.start_on, redact_text(from_chars(expression).as_str()));
    } else if let Some(expression) = strip_prefix(line, "stop on ") {
        push_string(&mut job.stop_on, redact_text(from_chars(expression).as_str()));
    } else if spells(line, "respawn") {
        job.respawn = true;
    } else if spells(line, "task") {
        job.task = true;
    }
}

/// Reads the file of one job.
pub fn parse_upstart_job(name: &str, contents: &str) -> (job: UpstartJobCapability)
    ensures
        job@ == Job::after_all(
            name@,
            crate::text::lines(contents@),
            crate::text::lines(contents@).len() as int,
        ),
{
    let chars: Vec<char> = to_chars(contents);
    let rows: Vec<&[char]> = split_lines(chars.as_slice());
    let ghost all = crate::text::lines(contents@);
    let mut job: UpstartJobCapability = UpstartJobCapability {
        name: name.to_owned(),
        start_on: Vec::new(),
        stop_on: Vec::new(),
        respawn: false,
        task: false,
    };
    assert(crate::text::texts(job.start_on@) =~= seq![]);
    assert(crate::text::texts(job.stop_on@) =~= seq![]);
    for i in 0..rows.len()
        invariant
            all == slices(rows@),
            job@ == Job::after_all(name@, all, i as int),
    {
        assert(all[i as int] == rows@[i as int]@);
        read_job_line(&mut job, rows[i]);
    }
    job
}

/// A file of a job directory.
#[derive(Debug, Clone, PartialEq, Eq)]
pub struct JobFile {
    /// File name.
    pub filename: String,
    /// Trimmed contents, if there are any.
    pub contents: Option<String>,
}

/// The text without any number of `suffix` at its end.
pub open spec fn without_suffixes(s: Seq<char>, suffix: Seq<char>) -> Seq<char>
    decreases s.len(),
{
    if suffix.len() > 0 && crate::text::ends(s, suffix) {
        without_suffixes(s.take(s.len() - suffix.len()), suffix)
    } else {
        s
    }
}

/// The name of the job that a file describes, if it describes one.
pub open spec fn job_name(filename: Seq<char>) -> Option<Seq<char>> {
    let name = without_suffixes(filename, ".conf"@);
    if crate::text::ends(filename, ".conf"@) && crate::power::is_kernel_name(name) {
        Some(name)
    } else {
        None
    }
}

/// Returns the name of the job that a file describes, if it describes one.
pub fn upstart_job_name(filename: &str) -> (name: Option<String>)
    ensures
        crate::text::optional_text(name) == job_name(filename@),
{
    proof {
        reveal_strlit(".conf");
    }
    let chars: Vec<char> = to_chars(filename);
    if !test_ends(chars.as_slice(), ".conf") {
        return None;
    }
    let mut rest: &[char] = chars.as_slice();
    loop
        invariant_except_break
            ".conf"@.len() == 5,
            without_suffixes(rest@, ".conf"@) == without_suffixes(filename@, ".conf"@),
        ensures
            rest@ == without_suffixes(filename@, ".conf"@),
        decreases rest@.len(),
    {
        match strip_suffix(rest, ".conf") {
            Some(shorter) => {
                rest = shorter;
            },
            None => {
                break;
            },
        }
    }
    let name: String = from_chars(rest);
    if safe_kernel_name(name.as_str()) {
        Some(name)
    } else {
        None
    }
}

/// The jobs that the first `n` files describe: of two files for one job, the
/// first one counts.
pub open spec fn jobs_of(files: Seq<JobFile>, n: int) -> Map<Seq<char>, Job>
    decreases n,
{
    if n <= 0 {
        Map::empty()
    } else {
        let before = jobs_of(files, n - 1);
        match (
            job_name(files[n - 1].filename@),
            crate::text::optional_text(files[n - 1].contents),
        ) {
            (Some(name), Some(contents)) => if before.contains_key(name) {
                before
            } else {
                before.insert(
                    name,
                    Job::after_all(
                        name,
                        crate::text::lines(contents),
                        crate::text::lines(contents).len() as int,
                    ),
                )
            },
            _ => before,
        }
    }
}

/// What is reported of each job.
pub open spec fn job_views(map: Map<Seq<char>, UpstartJobCapability>) -> Map<Seq<char>, Job> {
    map.map_values(|job: UpstartJobCapability| job@)
}

/// Whether a list holds exactly the jobs of a map, in ascending order of their
/// names.
pub open spec fn lists_jobs(map: Map<Seq<char>, Job>, list: Seq<UpstartJobCapability>) -> bool {
    &&& forall|i: int, j: int|
        0 <= i < j < list.len() ==> crate::string_map::precedes(
            (#[trigger] list[i]).name@,
            (#[trigger] list[j]).name@,
        )
    &&& forall|i: int|
        0 <= i < list.len() ==> map.contains_key((#[trigger] list[i]).name@) && map[list[i].name@]
            == list[i]@
    &&& forall|name: Seq<char>| #[trigger]
        map.contains_key(name) ==> exists|i: int|
            0 <= i < list.len() && (#[trigger] list[i]).name@ == name
}

/// The jobs of the files are filed under their own names.
proof fn jobs_are_named(files: Seq<JobFile>, n: int, name: Seq<char>)
    requires
        jobs_of(files, n).contains_key(name),
    ensures
        jobs_of(files, n)[name].name == name,
    decreases n,
{
    if n > 0 {
        if jobs_of(files, n - 1).contains_key(name) {
            jobs_are_named(files, n - 1, name);
        } else {
            let contents = files[n - 1].contents->0@;
            let rows = crate::text::lines(contents);
            job_keeps_its_name(name, rows, rows.len() as int);
        }
    }
}

proof fn job_keeps_its_name(name: Seq<char>, lines: Seq<Seq<char>>, n: int)
    ensures
        Job::after_all(name, lines, n).name == name,
    decreases n,
{
    if n > 0 {
        job_keeps_its_name(name, lines, n - 1);
    }
}

/// Reads the files of the job directories, in the order of the directories and
/// of the file names in each.
pub fn collect_upstart_jobs(files: &Vec<JobFile>) -> (list: Vec<UpstartJobCapability>)
    ensures
        lists_jobs(jobs_of(files@, files@.len() as int), list@),
{
    let mut jobs: StringMap<UpstartJobCapability> = StringMap::new();
    assert(job_views(jobs@) =~= jobs_of(files@, 0));
    for i in 0..files.len()
        invariant
            job_views(jobs@) == jobs_of(files@, i as int),
    {
        let ghost before = jobs@;
        if let Some(name) = upstart_job_name(files[i].filename.as_str()) {
            if let Some(contents) = &files[i].contents {
                if !jobs.contains_key(name.as_str()) {
                    let job: UpstartJobCapability = parse_upstart_job(
                        name.as_str(),
                        contents.as_str(),
                    );
                    jobs.insert(name, job);
                    assert(job_views(jobs@) =~= job_views(before).insert(name@, job@));
                }
            }
        }
    }
    let ghost map = jobs@;
    let ghost named = jobs_of(files@, files@.len() as int);
    let mut entries: Vec<(String, UpstartJobCapability)> = jobs.into_entries();
    let ghost all = entries@;
    proof {
        assert forall|i: int| 0 <= i < all.len() implies (#[trigger] all[i]).1@.name
            == all[i].0@ by {
            assert(named.contains_key(all[i].0@));
            jobs_are_named(files@, files@.len() as int, all[i].0@);
        }
    }
    let mut list: Vec<UpstartJobCapability> = Vec::new();
    let ghost mut taken: int = 0;
    while entries.len() > 0
        invariant
            taken == list@.len(),
            taken + entries@.len() == all.len(),
            entries@ == all.skip(taken),
            list@ == all.take(taken).map_values(
                |entry: (String, UpstartJobCapability)| entry.1,
            ),
        decreases entries@.len(),
    {
        let (name, job): (String, UpstartJobCapability) = entries.remove(0);
        list.push(job);
        proof {
            taken = taken + 1;
            assert(entries@ =~= all.skip(taken));
            assert(list@ =~= all.take(taken).map_values(
                |entry: (String, UpstartJobCapability)| entry.1,
            ));
        }
    }
    proof {
        assert(all.take(taken) =~= all);
        assert forall|i: int| 0 <= i < list@.len() implies #[trigger] list@[i] == all[i].1
            && list@[i].name@ == all[i].0@ by {
            assert(all[i].1@.name == all[i].0@);
        }
        assert forall|i: int, j: int|
            0 <= i < j < list@.len() implies crate::string_map::precedes(
            (#[trigger] list@[i]).name@,
            (#[trigger] list@[j]).name@,
        ) by {
            assert(crate::string_map::precedes(all[i].0@, all[j].0@));
        }
        assert forall|i: int| 0 <= i < list@.len() implies named.contains_key(
            (#[trigger] list@[i]).name@,
        ) && named[list@[i].name@] == list@[i]@ by {
            assert(map.contains_key(all[i].0@));
        }
        assert forall|name: Seq<char>| #[trigger] named.contains_key(name) implies exists|i: int|
            0 <= i < list@.len() && (#[trigger] list@[i]).name@ == name by {
            assert(map.contains_key(name));
            let i = choose|i: int| 0 <= i < all.len() && (#[trigger] all[i]).0@ == name;
            assert(list@[i].name@ == name);
        }
    }
    list
}

/// Describes the services from what was found and asked.
pub fn collect_services(
    getter: Option<String>,
    properties: Vec<LipcPropertyCapability>,
    job_files: &Vec<JobFile>,
    scripts: &Vec<String>,
) -> (services: ServiceCapability)
    ensures
        services.lipc_getter == getter,
        services.lipc_properties == properties,
        lists_jobs(jobs_of(job_files@, job_files@.len() as int), services.upstart_jobs@),
        crate::text::texts(services.sysv_scripts@) == crate::text::texts(scripts@).filter(
            |name: Seq<char>| crate::power::is_kernel_name(name),
        ),
{
    ServiceCapability {
        lipc_getter: getter,
        lipc_properties: properties,
        upstart_jobs: collect_upstart_jobs(job_files),
        sysv_scripts: safe_names(scripts),
    }
}

// ---------------------------------------------------------------------------
// What jobs and properties tell
// ---------------------------------------------------------------------------
/// Each outcome has a name of its own, and that of an exit holds its code.
pub proof fn law_outcomes_are_told_apart(outcome: LipcOutcome)
    ensures
        outcome == LipcOutcome::Succeeded <==> outcome.spec_result() == "ok"@,
        outcome == LipcOutcome::TimedOut <==> outcome.spec_result() == "timeout"@,
        outcome == LipcOutcome::WaitError <==> outcome.spec_result() == "wait_error"@,
        outcome == LipcOutcome::SpawnError <==> outcome.spec_result() == "spawn_error"@,
        outcome == LipcOutcome::Signalled <==> outcome.spec_result() == "terminated_by_signal"@,
        outcome == LipcOutcome::GetterUnavailable <==> outcome.spec_result()
            == "getter_unavailable"@,
        outcome matches LipcOutcome::Exited { code } ==> outcome.spec_result() == "exit_"@
            + crate::text::signed_decimal(code as int),
{
    reveal_strlit("ok");
    reveal_strlit("timeout");
    reveal_strlit("wait_error");
    reveal_strlit("spawn_error");
    reveal_strlit("terminated_by_signal");
    reveal_strlit("getter_unavailable");
    reveal_strlit("exit_");
    assert("ok"@.len() == 2 && "timeout"@.len() == 7 && "wait_error"@.len() == 10);
    assert("spawn_error"@.len() == 11 && "terminated_by_signal"@.len() == 20);
    assert("getter_unavailable"@.len() == 18);
    assert("exit_"@[0] == 'e');
    if let LipcOutcome::Exited { code } = outcome {
        assert(outcome.spec_result()[0] == 'e');
        assert("ok"@[0] == 'o' && "timeout"@[0] == 't' && "wait_error"@[0] == 'w');
        assert("spawn_error"@[0] == 's' && "terminated_by_signal"@[0] == 't');
        assert("getter_unavailable"@[0] == 'g');
    }
}

/// A line of a job, white space around it aside, adds a condition to start on or
/// to stop on, marks the job, or tells nothing.
pub proof fn law_job_lines_tell_one_thing(job: Job, line: Seq<char>, expression: Seq<char>)
    ensures
        ({
            let bare = crate::text::trimmed(line, CharSet::Whitespace);
            let after = job.after(line);
            &&& bare == "start on "@ + expression ==> after == (Job {
                start_on: job.start_on.push(crate::redaction::redacted_text(expression)),
                ..job
            })
            &&& bare == "stop on "@ + expression ==> after == (Job {
                stop_on: job.stop_on.push(crate::redaction::redacted_text(expression)),
                ..job
            })
            &&& bare == "respawn"@ ==> after == (Job { respawn: true, ..job })
            &&& bare == "task"@ ==> after == (Job { task: true, ..job })
            &&& !crate::text::begins(bare, "start on "@) && !crate::text::begins(
                bare,
                "stop on "@,
            ) && bare != "respawn"@ && bare != "task"@ ==> after == job
        }),
{
    reveal_strlit("start on ");
    reveal_strlit("stop on ");
    reveal_strlit("respawn");
    reveal_strlit("task");
    assert("start on "@.len() == 9 && "stop on "@.len() == 8);
    assert("respawn"@.len() == 7 && "task"@.len() == 4);
    assert("start on "@[2] == 'a' && "stop on "@[2] == 'o');
    let bare = crate::text::trimmed(line, CharSet::Whitespace);
    let none = Seq::<char>::empty();
    crate::text::law_finding_is_cutting_out(none, "start on "@, expression);
    crate::text::law_finding_is_cutting_out(none, "stop on "@, expression);
    if bare == "stop on "@ + expression {
        assert(bare[2] == 'o');
        if crate::text::begins(bare, "start on "@) {
            assert(bare.subrange(0, 9)[2] == "start on "@[2]);
        }
    }
}

/// A job is marked exactly when one of its lines marks it.
pub proof fn law_jobs_are_marked_by_a_line(name: Seq<char>, lines: Seq<Seq<char>>, n: int)
    requires
        0 <= n <= lines.len(),
    ensures
        ({
            let job = Job::after_all(name, lines, n);
            &&& job.name == name
            &&& job.respawn <==> exists|i: int|
                0 <= i < n && crate::text::trimmed(#[trigger] lines[i], CharSet::Whitespace)
                    == "respawn"@
            &&& job.task <==> exists|i: int|
                0 <= i < n && crate::text::trimmed(#[trigger] lines[i], CharSet::Whitespace)
                    == "task"@
        }),
    decreases n,
{
    if n > 0 {
        law_jobs_are_marked_by_a_line(name, lines, n - 1);
        let before = Job::after_all(name, lines, n - 1);
        let line = lines[n - 1];
        law_job_lines_tell_one_thing(before, line, Seq::empty());
        reveal_strlit("start on ");
        reveal_strlit("stop on ");
        reveal_strlit("respawn");
        reveal_strlit("task");
        assert("start on "@.len() == 9 && "stop on "@.len() == 8);
        assert("respawn"@.len() == 7 && "task"@.len() == 4);
        if before.respawn {
            let i = choose|i: int|
                0 <= i < n - 1 && crate::text::trimmed(#[trigger] lines[i], CharSet::Whitespace)
                    == "respawn"@;
            assert(crate::text::trimmed(lines[i], CharSet::Whitespace) == "respawn"@);
        }
        if before.task {
            let i = choose|i: int|
                0 <= i < n - 1 && crate::text::trimmed(#[trigger] lines[i], CharSet::Whitespace)
                    == "task"@;
            assert(crate::text::trimmed(lines[i], CharSet::Whitespace) == "task"@);
        }
    }
}

proof fn suffixes_are_cut_off(s: Seq<char>, suffix: Seq<char>)
    ensures
        without_suffixes(s, suffix).len() <= s.len(),
        suffix.len() > 0 ==> !crate::text::ends(without_suffixes(s, suffix), suffix),
        without_suffixes(s, suffix) == s.take(without_suffixes(s, suffix).len() as int),
    decreases s.len(),
{
    if suffix.len() > 0 && crate::text::ends(s, suffix) {
        let rest = s.take(s.len() - suffix.len());
        suffixes_are_cut_off(rest, suffix);
        let kept = without_suffixes(rest, suffix).len() as int;
        assert(rest.take(kept) =~= s.take(kept));
    } else {
        assert(s.take(s.len() as int) =~= s);
    }
}

/// A job has the name of its file without the ending `.conf`, which the file
/// must have and the name has not.
pub proof fn law_jobs_are_named_by_their_files(base: Seq<char>, filename: Seq<char>)
    ensures
        crate::power::is_kernel_name(base) && !crate::text::ends(base, ".conf"@) ==> job_name(
            base + ".conf"@,
        ) == Some(base),
        job_name(filename) matches Some(name) ==> {
            &&& crate::text::ends(filename, ".conf"@)
            &&& !crate::text::ends(name, ".conf"@)
            &&& crate::power::is_kernel_name(name)
            &&& crate::text::begins(filename, name)
        },
        !crate::text::ends(filename, ".conf"@) ==> job_name(filename) is None,
{
    reveal_strlit(".conf");
    let suffix = ".conf"@;
    assert(suffix.len() == 5);
    let whole = base + suffix;
    crate::text::law_finding_is_cutting_out(base, suffix, Seq::empty());
    assert(whole.take(whole.len() - 5) =~= base);
    if !crate::text::ends(base, suffix) {
        assert(without_suffixes(base, suffix) == base);
        assert(without_suffixes(whole, suffix) == base);
    }
    suffixes_are_cut_off(filename, suffix);
    let kept = without_suffixes(filename, suffix).len() as int;
    assert(filename.take(kept) =~= filename.subrange(0, kept));
}

/// A job is known exactly when a file of its name could be read, and it is the
/// first of them that describes it.
pub proof fn law_the_first_job_file_counts(files: Seq<JobFile>, n: int, name: Seq<char>)
    requires
        0 <= n <= files.len(),
    ensures
        jobs_of(files, n).contains_key(name) <==> exists|i: int|
            0 <= i < n && job_name((#[trigger] files[i]).filename@) == Some(name)
                && files[i].contents is Some,
        jobs_of(files, n).contains_key(name) ==> exists|i: int|
            0 <= i < n && job_name((#[trigger] files[i]).filename@) == Some(name)
                && files[i].contents is Some && (forall|j: int|
                0 <= j < i ==> !(job_name((#[trigger] files[j]).filename@) == Some(name)
                    && files[j].contents is Some)) && {
                let rows = crate::text::lines(files[i].contents->0@);
                jobs_of(files, n)[name] == Job::after_all(name, rows, rows.len() as int)
            },
    decreases n,
{
    if n > 0 {
        law_the_first_job_file_counts(files, n - 1, name);
        let before = jobs_of(files, n - 1);
        let file = files[n - 1];
        if before.contains_key(name) {
            let i = choose|i: int|
                0 <= i < n - 1 && job_name((#[trigger] files[i]).filename@) == Some(name)
                    && files[i].contents is Some && (forall|j: int|
                    0 <= j < i ==> !(job_name((#[trigger] files[j]).filename@) == Some(name)
                        && files[j].contents is Some)) && {
                    let rows = crate::text::lines(files[i].contents->0@);
                    before[name] == Job::after_all(name, rows, rows.len() as int)
                };
            assert(job_name(files[i].filename@) == Some(name));
            assert(jobs_of(files, n)[name] == before[name]);
        } else if job_name(file.filename@) == Some(name) && file.contents is Some {
            let i = n - 1;
            assert(job_name(files[i].filename@) == Some(name));
        }
    }
}

/// Programs are looked for in the four system directories, in this order.
pub proof fn law_programs_stand_in_four_places(name: Seq<char>)
    ensures
        program_places(name).len() == 4,
        program_places(name)[0] == "/usr/bin/"@ + name,
        program_places(name)[1] == "/usr/sbin/"@ + name,
        program_places(name)[2] == "/bin/"@ + name,
        program_places(name)[3] == "/sbin/"@ + name,
{
    reveal_strlit("/usr/bin");
    reveal_strlit("/usr/sbin");
    reveal_strlit("/bin");
    reveal_strlit("/sbin");
    reveal_strlit("/");
    reveal_strlit("/usr/bin/");
    reveal_strlit("/usr/sbin/");
    reveal_strlit("/bin/");
    reveal_strlit("/sbin/");
    assert("/usr/bin"@ + "/"@ =~= "/usr/bin/"@);
    assert("/usr/sbin"@ + "/"@ =~= "/usr/sbin/"@);
    assert("/bin"@ + "/"@ =~= "/bin/"@);
    assert("/sbin"@ + "/"@ =~= "/sbin/"@);
}

/// The jobs are listed by their names, ascending, each of them once.
pub proof fn law_jobs_are_listed_once(
    map: Map<Seq<char>, Job>,
    list: Seq<UpstartJobCapability>,
    name: Seq<char>,
    i: int,
    j: int,
)
    requires
        lists_jobs(map, list),
        0 <= i < j < list.len(),
    ensures
        crate::string_map::precedes(list[i].name@, list[j].name@),
        list[i].name@ != list[j].name@,
        map.contains_key(list[i].name@) && map[list[i].name@] == list[i]@,
        map.contains_key(name) <==> exists|k: int|
            0 <= k < list.len() && (#[trigger] list[k]).name@ == name,
{
    crate::string_map::precedes_is_irreflexive(list[i].name@);
}

/// Seventeen properties are asked for, each of its service.
pub proof fn law_properties_are_asked_of_their_services(i: int)
    requires
        0 <= i < asked_properties().len(),
    ensures
        asked_properties().len() == 17,
        i < 11 <==> asked_properties()[i].service@ == "com.lab126.powerd"@,
        i == 11 <==> asked_properties()[i].service@ == "com.lab126.cmd"@,
        i == 12 <==> asked_properties()[i].service@ == "com.lab126.pillow"@,
        13 <= i <= 15 <==> asked_properties()[i].service@ == "com.lab126.wifid"@,
        i == 16 <==> asked_properties()[i].service@ == "com.lab126.winmgr"@,
{
    reveal_strlit("com.lab126.powerd");
    reveal_strlit("com.lab126.cmd");
    reveal_strlit("com.lab126.pillow");
    reveal_strlit("com.lab126.wifid");
    reveal_strlit("com.lab126.winmgr");
    assert("com.lab126.powerd"@.len() == 17 && "com.lab126.powerd"@[12] == 'o');
    assert("com.lab126.cmd"@.len() == 14);
    assert("com.lab126.pillow"@.len() == 17 && "com.lab126.pillow"@[12] == 'i');
    assert("com.lab126.pillow"@[13] == 'l' && "com.lab126.winmgr"@[13] == 'n');
    assert("com.lab126.wifid"@.len() == 16);
    assert("com.lab126.winmgr"@.len() == 17 && "com.lab126.winmgr"@[12] == 'i');
}

} // verus!
