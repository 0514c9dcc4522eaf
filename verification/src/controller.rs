//! The host controller: the decisions of one control cycle for one host.
//! The caller fetches the reading and runs the session; what to do with
//! either is decided here.

use crate::config::TargetIlo;
use crate::cputemp::{hottest, TempData};
use crate::gen_ssh::{commands_of, generate_fan_commands, texts};
use crate::ssh::SshError;
use vstd::prelude::*;

verus! {

/// The classes of failure of a host's cycle.
#[derive(Debug, Clone, Copy, PartialEq, Eq, Structural)]
pub enum FailureCause {
    /// No reading could be had.
    Telemetry,
    /// The transport or the handshake failed.
    Connectivity,
    /// The credentials were rejected.
    Authentication,
    /// A command failed after the login.
    Execution,
    /// The host's unit of work broke down by itself.
    Fatal,
}

/// How the cycle of one host ended. `executed` counts the commands that ran to
/// completion; after a failure they stay applied.
#[derive(Debug, Clone, Copy, PartialEq, Eq, Structural)]
pub enum ControlOutcome {
    /// The cycle went through.
    Success { executed: usize },
    /// The cycle failed.
    Failure { cause: FailureCause, executed: usize },
}

/// Where a host's cycle stands.
#[derive(Debug, Clone, Copy, PartialEq, Eq, Structural)]
pub enum HostState {
    /// The reading has been asked for.
    AwaitingReading,
    /// The commands have been handed out.
    Applying,
    /// The outcome has been reported.
    Finished,
}

/// What the caller reports back.
#[derive(Debug, Clone)]
pub enum HostEvent {
    /// The reading came.
    Reading(TempData),
    /// The reading could not be had.
    ReadingFailed,
    /// The session ran every command; this is their number.
    SessionCompleted(usize),
    /// The session failed.
    SessionFailed(SshError),
}

/// What the caller is to do next.
#[derive(Debug, Clone)]
pub enum HostAction {
    /// Connect, log in and run these commands in order.
    Apply(Vec<String>),
    /// The cycle is over, with this outcome.
    Report(ControlOutcome),
}

/// The class of a session failure and the number of commands that had run.
/// A request out of order can only come from a defect of the caller, and is
/// fatal.
pub open spec fn classified(error: SshError) -> ControlOutcome {
    match error {
        SshError::Transport => ControlOutcome::Failure {
            cause: FailureCause::Connectivity,
            executed: 0,
        },
        SshError::Handshake => ControlOutcome::Failure {
            cause: FailureCause::Connectivity,
            executed: 0,
        },
        SshError::Authentication => ControlOutcome::Failure {
            cause: FailureCause::Authentication,
            executed: 0,
        },
        SshError::ChannelOpen { completed } => ControlOutcome::Failure {
            cause: FailureCause::Execution,
            executed: completed,
        },
        SshError::Command { completed } => ControlOutcome::Failure {
            cause: FailureCause::Execution,
            executed: completed,
        },
        SshError::OutOfOrder => ControlOutcome::Failure { cause: FailureCause::Fatal, executed: 0 },
    }
}

/// The state of the cycle after `event`.
pub open spec fn next_state(target: TargetIlo, state: HostState, event: HostEvent) -> HostState {
    match (state, event) {
        (HostState::AwaitingReading, HostEvent::Reading(reading)) => {
            if reading.cpu_temps@.len() > 0 && commands_of(
                target,
                hottest(reading.cpu_temps@),
            ).len() > 0 {
                HostState::Applying
            } else {
                HostState::Finished
            }
        },
        _ => HostState::Finished,
    }
}

/// `action` is what `event` calls for in `state`.
pub open spec fn is_next_action(
    target: TargetIlo,
    state: HostState,
    event: HostEvent,
    action: HostAction,
) -> bool {
    match (state, event) {
        (HostState::AwaitingReading, HostEvent::Reading(reading)) => {
            let top = hottest(reading.cpu_temps@);
            if reading.cpu_temps@.len() == 0 {
                action matches HostAction::Report(outcome) && outcome == (ControlOutcome::Failure {
                    cause: FailureCause::Telemetry,
                    executed: 0,
                })
            } else if commands_of(target, top).len() == 0 {
                action matches HostAction::Report(outcome) && outcome
                    == (ControlOutcome::Success { executed: 0 })
            } else {
                action matches HostAction::Apply(commands) && texts(commands@) == commands_of(
                    target,
                    top,
                )
            }
        },
        (HostState::AwaitingReading, HostEvent::ReadingFailed) => action matches HostAction::Report(
            outcome,
        ) && outcome == (ControlOutcome::Failure { cause: FailureCause::Telemetry, executed: 0 }),
        (HostState::Applying, HostEvent::SessionCompleted(count)) => action matches HostAction::Report(
            outcome,
        ) && outcome == (ControlOutcome::Success { executed: count }),
        (HostState::Applying, HostEvent::SessionFailed(error)) => action matches HostAction::Report(
            outcome,
        ) && outcome == classified(error),
        _ => action matches HostAction::Report(outcome) && outcome == (ControlOutcome::Failure {
            cause: FailureCause::Fatal,
            executed: 0,
        }),
    }
}

/// Classifies a session failure.
pub fn classify(error: SshError) -> (outcome: ControlOutcome)
    ensures
        outcome == classified(error),
{
    match error {
        SshError::Transport | SshError::Handshake => ControlOutcome::Failure {
            cause: FailureCause::Connectivity,
            executed: 0,
        },
        SshError::Authentication => ControlOutcome::Failure {
            cause: FailureCause::Authentication,
            executed: 0,
        },
        SshError::ChannelOpen { completed } | SshError::Command { completed } => {
            ControlOutcome::Failure { cause: FailureCause::Execution, executed: completed }
        },
        SshError::OutOfOrder => ControlOutcome::Failure { cause: FailureCause::Fatal, executed: 0 },
    }
}

/// One decision of a host's cycle. The cycle starts in
/// [`HostState::AwaitingReading`], with the reading asked for. A reading
/// without any processor is no reading: it ends the cycle as a telemetry
/// failure. A reading that falls outside every interval ends the cycle as a
/// success without any session; an event that does not fit the state ends it
/// as fatal.
pub fn runner(target: &TargetIlo, state: HostState, event: HostEvent) -> (next: (
    HostState,
    HostAction,
))
    requires
        target.target_fans.wf(),
    ensures
        next.0 == next_state(*target, state, event),
        is_next_action(*target, state, event, next.1),
{
    match (state, event) {
        (HostState::AwaitingReading, HostEvent::Reading(reading)) => {
            if reading.cpu_temps.len() == 0 {
                return (
                    HostState::Finished,
                    HostAction::Report(
                        ControlOutcome::Failure { cause: FailureCause::Telemetry, executed: 0 },
                    ),
                );
            }
            let top = reading.max_cpu_temp();
            let commands = generate_fan_commands(target, top);
            if commands.len() == 0 {
                (HostState::Finished, HostAction::Report(ControlOutcome::Success { executed: 0 }))
            } else {
                (HostState::Applying, HostAction::Apply(commands))
            }
        },
        (HostState::AwaitingReading, HostEvent::ReadingFailed) => (
            HostState::Finished,
            HostAction::Report(
                ControlOutcome::Failure { cause: FailureCause::Telemetry, executed: 0 },
            ),
        ),
        (HostState::Applying, HostEvent::SessionCompleted(count)) => (
            HostState::Finished,
            HostAction::Report(ControlOutcome::Success { executed: count }),
        ),
        (HostState::Applying, HostEvent::SessionFailed(error)) => (
            HostState::Finished,
            HostAction::Report(classify(error)),
        ),
        _ => (
            HostState::Finished,
            HostAction::Report(ControlOutcome::Failure { cause: FailureCause::Fatal, executed: 0 }),
        ),
    }
}

/// A reading that names no processor is a telemetry failure, whatever else
/// it holds: no temperature is made up for it and nothing is sent.
pub proof fn lemma_empty_reading_sends_nothing(
    target: TargetIlo,
    reading: TempData,
    action: HostAction,
)
    requires
        reading.cpu_temps@.len() == 0,
        is_next_action(target, HostState::AwaitingReading, HostEvent::Reading(reading), action),
    ensures
        action matches HostAction::Report(outcome) && outcome == (ControlOutcome::Failure {
            cause: FailureCause::Telemetry,
            executed: 0,
        }),
        next_state(target, HostState::AwaitingReading, HostEvent::Reading(reading))
            == HostState::Finished,
{
}

/// A failed reading is a telemetry failure: nothing is generated and nothing
/// is sent.
pub proof fn lemma_failed_reading_sends_nothing(target: TargetIlo, action: HostAction)
    requires
        is_next_action(target, HostState::AwaitingReading, HostEvent::ReadingFailed, action),
    ensures
        action matches HostAction::Report(outcome) && outcome == (ControlOutcome::Failure {
            cause: FailureCause::Telemetry,
            executed: 0,
        }),
        next_state(target, HostState::AwaitingReading, HostEvent::ReadingFailed)
            == HostState::Finished,
{
}

/// A failure before the login leaves nothing applied; one after it keeps the
/// count of the commands that had run.
pub proof fn lemma_classified_keeps_count(error: SshError)
    ensures
        classified(error) is Failure,
        error matches SshError::ChannelOpen { completed } ==> classified(error)
            == (ControlOutcome::Failure { cause: FailureCause::Execution, executed: completed }),
        error matches SshError::Command { completed } ==> classified(error)
            == (ControlOutcome::Failure { cause: FailureCause::Execution, executed: completed }),
        !(error is ChannelOpen || error is Command) ==> classified(error)->Failure_executed == 0,
{
}

} // verus!
