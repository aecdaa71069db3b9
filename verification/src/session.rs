//! The foreground session on a device: its event loop, and how it ends.

use crate::guardian::{
    encode_guardian_command, GUARDIAN_COMMAND_FD, GUARDIAN_READY_FD, INPUT_RECORD_RENEW_AT,
};
use crate::refresh::RefreshMode;
use crate::shell::ShellCommand;
use vstd::prelude::*;

verus! {

/// What the event loop waits for.
#[derive(Debug, Clone, Copy, PartialEq, Eq, Structural)]
pub enum SessionPhase {
    /// The first frame is being drawn.
    FirstFrame,
    /// The guardian is being told that the shell is ready.
    Announcing,
    /// Input is being read.
    Waiting,
    /// A later frame is being drawn.
    Drawing,
    /// The loop has ended.
    Ended,
}

/// What became of the last action of the event loop.
#[derive(Debug, Clone, Copy, PartialEq, Eq, Structural)]
pub enum SessionEvent {
    /// A frame reached the display.
    FramePresented,
    /// There was nothing to draw.
    FrameUnchanged,
    /// The guardian was told, or there is none.
    ReadySent,
    /// Input was read and handed on, or none came.
    InputHandled,
    /// The action failed.
    Failed,
}

/// Why the event loop ended.
#[derive(Debug, Clone, Copy, PartialEq, Eq, Structural)]
pub enum SessionEnd {
    /// A command was accepted.
    Requested,
    /// The first frame was not presented.
    NoFirstFrame,
    /// An action failed.
    Failed,
}

/// What the event loop does next.
#[derive(Debug, Clone, Copy, PartialEq, Eq, Structural)]
pub enum SessionAction {
    /// Draw a frame, if there is something to draw.
    Present(RefreshMode),
    /// Tell the guardian that the shell is ready.
    SendReady,
    /// Read input and hand it on, after the record budget was renewed if so
    /// told.
    ReadInput {
        /// Whether the record budget is renewed first.
        renew_budget: bool,
    },
    /// End the loop.
    End(SessionEnd),
}

/// The start of a turn: a requested exit ends the loop, otherwise input is
/// read.
pub open spec fn turn(exit_requested: bool, decoded_records: u32) -> (SessionPhase, SessionAction) {
    if exit_requested {
        (SessionPhase::Ended, SessionAction::End(SessionEnd::Requested))
    } else {
        (
            SessionPhase::Waiting,
            SessionAction::ReadInput { renew_budget: decoded_records >= INPUT_RECORD_RENEW_AT },
        )
    }
}

impl SessionPhase {
    /// The phase and the action that follow an event. An event that does not
    /// belong to the phase is a failure.
    pub open spec fn after(
        self,
        event: SessionEvent,
        exit_requested: bool,
        decoded_records: u32,
    ) -> (SessionPhase, SessionAction) {
        match (self, event) {
            (SessionPhase::FirstFrame, SessionEvent::FramePresented) => (
                SessionPhase::Announcing,
                SessionAction::SendReady,
            ),
            (SessionPhase::FirstFrame, SessionEvent::FrameUnchanged) => (
                SessionPhase::Ended,
                SessionAction::End(SessionEnd::NoFirstFrame),
            ),
            (SessionPhase::Announcing, SessionEvent::ReadySent) => turn(
                exit_requested,
                decoded_records,
            ),
            (SessionPhase::Waiting, SessionEvent::InputHandled) => if exit_requested {
                (SessionPhase::Ended, SessionAction::End(SessionEnd::Requested))
            } else {
                (SessionPhase::Drawing, SessionAction::Present(RefreshMode::Partial))
            },
            (SessionPhase::Drawing, SessionEvent::FramePresented) => turn(
                exit_requested,
                decoded_records,
            ),
            (SessionPhase::Drawing, SessionEvent::FrameUnchanged) => turn(
                exit_requested,
                decoded_records,
            ),
            _ => (SessionPhase::Ended, SessionAction::End(SessionEnd::Failed)),
        }
    }
}

fn take_turn(exit_requested: bool, decoded_records: u32) -> (next: (SessionPhase, SessionAction))
    ensures
        next == turn(exit_requested, decoded_records),
{
    if exit_requested {
        (SessionPhase::Ended, SessionAction::End(SessionEnd::Requested))
    } else {
        (
            SessionPhase::Waiting,
            SessionAction::ReadInput { renew_budget: decoded_records >= INPUT_RECORD_RENEW_AT },
        )
    }
}

/// The event loop of a foreground session.
#[derive(Debug, Clone, Copy, PartialEq, Eq, Structural)]
pub struct SessionLoop {
    phase: SessionPhase,
}

impl SessionLoop {
    /// What the loop waits for.
    pub closed spec fn spec_phase(self) -> SessionPhase {
        self.phase
    }

    /// Starts the loop. Its first action is a complete refresh.
    pub fn start() -> (started: (Self, SessionAction))
        ensures
            started.0.spec_phase() == SessionPhase::FirstFrame,
            started.1 == SessionAction::Present(RefreshMode::Full),
    {
        (
            SessionLoop { phase: SessionPhase::FirstFrame },
            SessionAction::Present(RefreshMode::Full),
        )
    }

    /// Returns what the loop waits for.
    pub fn phase(&self) -> (phase: SessionPhase)
        ensures
            phase == self.spec_phase(),
    {
        self.phase
    }

    /// Takes the event that the last action led to, and returns the next
    /// action.
    pub fn advance(
        &mut self,
        event: SessionEvent,
        exit_requested: bool,
        decoded_records: u32,
    ) -> (action: SessionAction)
        ensures
            (final(self).spec_phase(), action) == old(self).spec_phase().after(
                event,
                exit_requested,
                decoded_records,
            ),
    {
        let next: (SessionPhase, SessionAction) = match (self.phase, event) {
            (SessionPhase::FirstFrame, SessionEvent::FramePresented) => (
                SessionPhase::Announcing,
                SessionAction::SendReady,
            ),
            (SessionPhase::FirstFrame, SessionEvent::FrameUnchanged) => (
                SessionPhase::Ended,
                SessionAction::End(SessionEnd::NoFirstFrame),
            ),
            (SessionPhase::Announcing, SessionEvent::ReadySent) => take_turn(
                exit_requested,
                decoded_records,
            ),
            (SessionPhase::Waiting, SessionEvent::InputHandled) => if exit_requested {
                (SessionPhase::Ended, SessionAction::End(SessionEnd::Requested))
            } else {
                (SessionPhase::Drawing, SessionAction::Present(RefreshMode::Partial))
            },
            (SessionPhase::Drawing, SessionEvent::FramePresented) => take_turn(
                exit_requested,
                decoded_records,
            ),
            (SessionPhase::Drawing, SessionEvent::FrameUnchanged) => take_turn(
                exit_requested,
                decoded_records,
            ),
            _ => (SessionPhase::Ended, SessionAction::End(SessionEnd::Failed)),
        };
        self.phase = next.0;
        next.1
    }
}

/// The guardian is told of readiness only once the first frame is on the
/// display.
pub proof fn law_readiness_follows_the_first_frame(
    phase: SessionPhase,
    event: SessionEvent,
    exit_requested: bool,
    decoded_records: u32,
)
    ensures
        phase.after(event, exit_requested, decoded_records).1 == SessionAction::SendReady ==> phase
            == SessionPhase::FirstFrame && event == SessionEvent::FramePresented,
{
}

/// Only the first frame is a complete refresh.
pub proof fn law_later_frames_are_partial(
    phase: SessionPhase,
    event: SessionEvent,
    exit_requested: bool,
    decoded_records: u32,
)
    ensures
        phase.after(event, exit_requested, decoded_records).1 != SessionAction::Present(
            RefreshMode::Full,
        ),
{
}

/// Once an exit was requested, nothing more is read or drawn.
pub proof fn law_exit_ends_the_loop(
    phase: SessionPhase,
    event: SessionEvent,
    decoded_records: u32,
)
    requires
        phase != SessionPhase::FirstFrame,
    ensures
        phase.after(event, true, decoded_records).0 == SessionPhase::Ended,
{
}

/// A loop that has ended stays ended.
pub proof fn law_an_ended_loop_stays_ended(
    event: SessionEvent,
    exit_requested: bool,
    decoded_records: u32,
)
    ensures
        SessionPhase::Ended.after(event, exit_requested, decoded_records).0 == SessionPhase::Ended,
{
}

/// Returns the failure that a session reports: that of the loop, or of the
/// first step of its clean-up that failed.
pub fn session_failure(
    event_loop: Option<String>,
    pointer: Option<String>,
    release: Option<String>,
    close: Option<String>,
) -> (failure: Option<String>)
    ensures
        failure == (if event_loop is Some {
            event_loop
        } else if pointer is Some {
            pointer
        } else if release is Some {
            release
        } else {
            close
        }),
{
    if event_loop.is_some() {
        event_loop
    } else if pointer.is_some() {
        pointer
    } else if release.is_some() {
        release
    } else {
        close
    }
}

/// Accepts only the fixed readiness descriptor, or none.
pub fn check_ready_descriptor(descriptor: Option<i32>) -> (result: Result<(), &'static str>)
    ensures
        match result {
            Ok(()) => descriptor is None || descriptor == Some(GUARDIAN_READY_FD),
            Err(message) => descriptor is Some && descriptor != Some(GUARDIAN_READY_FD) && message@
                == "guardian readiness descriptor is not the fixed descriptor"@,
        },
{
    if let Some(descriptor) = descriptor {
        if descriptor != GUARDIAN_READY_FD {
            return Err("guardian readiness descriptor is not the fixed descriptor");
        }
    }
    Ok(())
}

/// Accepts only the fixed command descriptor, or none.
pub fn check_command_descriptor(descriptor: Option<i32>) -> (result: Result<(), &'static str>)
    ensures
        match result {
            Ok(()) => descriptor is None || descriptor == Some(GUARDIAN_COMMAND_FD),
            Err(message) => descriptor is Some && descriptor != Some(GUARDIAN_COMMAND_FD)
                && message@ == "guardian command descriptor is not the fixed descriptor"@,
        },
{
    if let Some(descriptor) = descriptor {
        if descriptor != GUARDIAN_COMMAND_FD {
            return Err("guardian command descriptor is not the fixed descriptor");
        }
    }
    Ok(())
}

/// Returns the bytes that are sent to the guardian after the loop.
pub fn closing_bytes(request: Option<ShellCommand>, has_channel: bool) -> (result: Result<
    Vec<u8>,
    &'static str,
>)
    ensures
        match result {
            Ok(bytes) => {
                &&& has_channel
                &&& request is Some
                &&& bytes@ == crate::guardian::guardian_bytes(request->Some_0)
            },
            Err(message) => if request is None {
                message@ == "Kindle event loop exited without a guardian command"@
            } else {
                !has_channel && message@ == "accepted command has no guardian channel"@
            },
        },
{
    let command: ShellCommand = match request {
        Some(command) => command,
        None => {
            return Err("Kindle event loop exited without a guardian command");
        },
    };
    if !has_channel {
        return Err("accepted command has no guardian channel");
    }
    match encode_guardian_command(command) {
        Some((bytes, length)) => {
            let mut sent: Vec<u8> = Vec::new();
            for i in 0..length
                invariant
                    length <= 2,
                    sent@ == bytes@.take(i as int),
            {
                sent.push(bytes[i]);
            }
            Ok(sent)
        },
        None => Err("unsupported command escaped shell policy"),
    }
}

/// A session draws its first frame and says that it is ready, and ends where
/// that frame does not come; then it reads input and draws in turn. Input that
/// was handled is drawn, and after a drawing, changed or not, input is read.
pub proof fn law_input_and_drawing_take_turns(event: SessionEvent, decoded_records: u32)
    ensures
        SessionPhase::FirstFrame.after(SessionEvent::FramePresented, false, decoded_records) == (
            SessionPhase::Announcing,
            SessionAction::SendReady,
        ),
        SessionPhase::FirstFrame.after(SessionEvent::FrameUnchanged, false, decoded_records).1
            == SessionAction::End(SessionEnd::NoFirstFrame),
        SessionPhase::Announcing.after(SessionEvent::ReadySent, false, decoded_records).1
            is ReadInput,
        SessionPhase::Waiting.after(SessionEvent::InputHandled, false, decoded_records) == (
            SessionPhase::Drawing,
            SessionAction::Present(RefreshMode::Partial),
        ),
        event == SessionEvent::FramePresented || event == SessionEvent::FrameUnchanged
            ==> SessionPhase::Drawing.after(event, false, decoded_records).1 is ReadInput
            && SessionPhase::Drawing.after(event, false, decoded_records).0
            == SessionPhase::Waiting,
{
}

/// The record budget is renewed before a read exactly when 8,000 records or more
/// were decoded.
pub proof fn law_budgets_are_renewed_in_time(
    phase: SessionPhase,
    event: SessionEvent,
    exit_requested: bool,
    decoded_records: u32,
)
    ensures
        phase.after(event, exit_requested, decoded_records).1 matches SessionAction::ReadInput {
            renew_budget,
        } ==> (renew_budget <==> decoded_records >= 8_000),
{
}

/// A session ends as it was asked to only where an exit was requested, without a
/// first frame only at the start, and in failure on every event that its phase
/// does not wait for. An action to end and the end of the phases go together.
pub proof fn law_sessions_end_for_a_reason(
    phase: SessionPhase,
    event: SessionEvent,
    exit_requested: bool,
    decoded_records: u32,
)
    ensures
        ({
            let (next, action) = phase.after(event, exit_requested, decoded_records);
            &&& action is End <==> next == SessionPhase::Ended
            &&& action == SessionAction::End(SessionEnd::Requested) ==> exit_requested && phase
                != SessionPhase::FirstFrame && phase != SessionPhase::Ended
            &&& action == SessionAction::End(SessionEnd::NoFirstFrame) ==> phase
                == SessionPhase::FirstFrame && event == SessionEvent::FrameUnchanged
            &&& event == SessionEvent::Failed ==> action == SessionAction::End(SessionEnd::Failed)
            &&& action == SessionAction::End(SessionEnd::Failed) ==> match phase {
                SessionPhase::FirstFrame | SessionPhase::Drawing => event
                    != SessionEvent::FramePresented && event != SessionEvent::FrameUnchanged,
                SessionPhase::Announcing => event != SessionEvent::ReadySent,
                SessionPhase::Waiting => event != SessionEvent::InputHandled,
                SessionPhase::Ended => true,
            }
        }),
{
}

} // verus!
