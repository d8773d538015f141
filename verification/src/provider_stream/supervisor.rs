//! The life of one provider source: announced, connected, run, reconnected while the budget
//! lasts, and withdrawn.
//!
//! The supervisor decides; whoever drives it performs the action it returns and reports back
//! what happened.
use crate::provider_stream::fan_in::{source_removed_event, QueueAnswer};
use crate::provider_stream::source::{
    ProviderSourceHealthEvent, ProviderSourceHealthReason, ProviderSourceHealthStatus,
    ProviderSourceIdentity, ProviderSourceReadiness,
};
use crate::text::{decimal, decimal_text, joined3};
use crate::time::Duration;
use vstd::prelude::*;

verus! {

/// The message of the event that withdraws a source whose task stopped.
pub const SOURCE_TASK_STOPPED: &'static str = "provider source task stopped and was removed from tracking";

/// The message that reports an acknowledged subscription.
pub const PROVIDER_SUBSCRIPTION_ACKNOWLEDGED: &'static str = "subscription acknowledged";

/// The texts that one kind of source reports with.
#[derive(Debug)]
pub struct SourceMessages {
    /// Reported before the first session.
    pub waiting: String,
    /// Reported when a session ends without an error.
    pub ended: String,
    /// What comes before the number of failures when the budget is used up.
    pub exhausted: String,
}

/// Why a session or an attempt to connect failed.
#[derive(Debug)]
pub struct SourceFailure {
    /// Typed reason.
    pub reason: ProviderSourceHealthReason,
    /// Text of the error.
    pub message: String,
}

/// Where a source stands.
#[derive(Clone, Copy, Debug, PartialEq, Eq, Structural)]
pub enum SourcePhase {
    /// The first health event is offered to the queue.
    Announcing,
    /// The first session is being opened. The announcement may still have to be queued.
    Opening {
        /// The queue had no room for the announcement.
        announcement_pending: bool,
    },
    /// The announcement waits for room in the queue.
    AnnouncingLate,
    /// A later session is being opened.
    Connecting,
    /// A session runs.
    Running,
    /// A disruption is being reported.
    Reporting {
        /// The session before it was established.
        established: bool,
    },
    /// The used-up budget is being reported.
    GivingUp,
    /// Waiting before the next attempt.
    Waiting,
    /// Nothing happens any more.
    Stopped,
}

/// What happened.
#[derive(Debug)]
pub enum SourceEvent {
    /// The queue answered the last health event.
    Queue(QueueAnswer),
    /// A session is open.
    Connected,
    /// No session could be opened.
    ConnectFailed(SourceFailure),
    /// The session ended without an error.
    SessionEnded {
        /// The session had been established.
        established: bool,
    },
    /// The session failed.
    SessionFailed {
        /// The session had been established.
        established: bool,
        /// Why it failed.
        failure: SourceFailure,
    },
    /// The session found the queue closed.
    SessionQueueClosed,
    /// The pause is over.
    Waited,
}

/// How a source ended.
#[derive(Clone, Copy, Debug, PartialEq, Eq, Structural)]
pub enum SourceExit {
    /// Nobody receives updates any more.
    QueueClosed,
    /// No reconnect attempts are left.
    ReconnectBudgetExhausted {
        /// Failures in a row.
        attempts: u32,
    },
    /// The first session could not be opened.
    StartupFailed,
}

/// What to do next.
#[derive(Debug)]
pub enum SourceAction {
    /// Offer the event to the queue without waiting.
    TryAnnounce(ProviderSourceHealthEvent),
    /// Put the event into the queue, waiting for room.
    Report(ProviderSourceHealthEvent),
    /// Open a session.
    Connect,
    /// Run the open session.
    Run,
    /// Pause.
    Wait(Duration),
    /// Stop. The event, if there is one, withdraws the source.
    Stop {
        /// How the source ended.
        exit: SourceExit,
        /// Withdrawal of the source.
        removal: Option<ProviderSourceHealthEvent>,
    },
}

/// Decides what one provider source does next.
#[derive(Debug)]
pub struct SourceSupervisor {
    /// The source.
    pub source: ProviderSourceIdentity,
    /// Whether the source takes part in readiness.
    pub readiness: ProviderSourceReadiness,
    /// Its texts.
    pub messages: SourceMessages,
    /// Failures in a row after which the source gives up, never if absent.
    pub max_reconnect_attempts: Option<u32>,
    /// Pause before a reconnect.
    pub reconnect_delay: Duration,
    /// Whether the source is announced before it connects, and withdrawn when it ends.
    pub registered: bool,
    /// Failures in a row.
    pub attempts: u32,
    /// Where the source stands.
    pub phase: SourcePhase,
}

/// The failures in a row after one more round.
pub open spec fn attempts_after(attempts: u32, established: bool) -> u32 {
    if established {
        0
    } else if attempts == u32::MAX {
        attempts
    } else {
        (attempts + 1) as u32
    }
}

/// Whether the budget is used up.
pub open spec fn budget_exhausted(max: Option<u32>, attempts: u32) -> bool {
    max matches Some(most) && attempts >= most
}

impl SourceSupervisor {
    /// Whether two supervisors differ at most in phase and failure count.
    pub open spec fn same_source_as(self, other: SourceSupervisor) -> bool {
        self == (SourceSupervisor { attempts: self.attempts, phase: self.phase, ..other })
    }

    /// Whether `action` puts a health event with this content into the queue.
    pub open spec fn reports(
        self,
        action: SourceAction,
        status: ProviderSourceHealthStatus,
        reason: ProviderSourceHealthReason,
        message: Seq<char>,
    ) -> bool {
        action matches SourceAction::Report(event) && event.tells(
            self.source,
            self.readiness,
            status,
            reason,
            message,
        )
    }

    /// Whether `removal` withdraws this source with `message`, or is absent where the source is
    /// not registered.
    pub open spec fn withdrawn(self, removal: Option<ProviderSourceHealthEvent>, message: Seq<char>) -> bool {
        if self.registered {
            removal matches Some(event) && event.tells(
                self.source,
                self.readiness,
                ProviderSourceHealthStatus::Removed,
                ProviderSourceHealthReason::SourceRemoved,
                message,
            )
        } else {
            removal is None
        }
    }

    /// Whether `action` stops the source with `exit`, its task having started.
    pub open spec fn stops(self, action: SourceAction, exit: SourceExit) -> bool {
        action matches SourceAction::Stop { exit: actual, removal } && actual == exit && self.withdrawn(
            removal,
            SOURCE_TASK_STOPPED@,
        )
    }

    /// The text that reports a used-up budget.
    pub open spec fn exhausted_text(self, attempts: u32) -> Seq<char> {
        self.messages.exhausted@ + decimal_text(attempts as nat) + " failures"@
    }

    /// Whether an event can happen in a phase.
    pub open spec fn fits(phase: SourcePhase, event: SourceEvent) -> bool {
        match phase {
            SourcePhase::Announcing => event is Queue,
            SourcePhase::Opening { .. } => event is Connected || event is ConnectFailed,
            SourcePhase::AnnouncingLate => event matches SourceEvent::Queue(answer) && answer
                != QueueAnswer::Full,
            SourcePhase::Connecting => event is Connected || event is ConnectFailed,
            SourcePhase::Running => event is SessionEnded || event is SessionFailed
                || event is SessionQueueClosed,
            SourcePhase::Reporting { .. } => event matches SourceEvent::Queue(answer) && answer
                != QueueAnswer::Full,
            SourcePhase::GivingUp => event matches SourceEvent::Queue(answer) && answer != QueueAnswer::Full,
            SourcePhase::Waiting => event is Waited,
            SourcePhase::Stopped => false,
        }
    }

    /// Whether the step from this supervisor to `next`, on an event that fits, takes `action`.
    pub open spec fn step(self, event: SourceEvent, next: SourceSupervisor, action: SourceAction) -> bool {
        &&& next.same_source_as(self)
        &&& match (self.phase, event) {
            (SourcePhase::Announcing, SourceEvent::Queue(answer)) => {
                &&& next.attempts == self.attempts
                &&& match answer {
                    QueueAnswer::Accepted => {
                        &&& next.phase == SourcePhase::Opening { announcement_pending: false }
                        &&& action is Connect
                    },
                    QueueAnswer::Full => {
                        &&& next.phase == SourcePhase::Opening { announcement_pending: true }
                        &&& action is Connect
                    },
                    QueueAnswer::Closed => {
                        &&& next.phase == SourcePhase::Stopped
                        &&& action matches SourceAction::Stop { exit, removal } && exit
                            == SourceExit::QueueClosed && removal is None
                    },
                }
            },
            (SourcePhase::Opening { announcement_pending }, SourceEvent::Connected) => {
                &&& next.attempts == self.attempts
                &&& if announcement_pending {
                    &&& next.phase == SourcePhase::AnnouncingLate
                    &&& self.reports(
                        action,
                        ProviderSourceHealthStatus::Reconnecting,
                        ProviderSourceHealthReason::InitialConnectPending,
                        self.messages.waiting@,
                    )
                } else {
                    &&& next.phase == SourcePhase::Running
                    &&& action is Run
                }
            },
            (SourcePhase::Opening { .. }, SourceEvent::ConnectFailed(failure)) => {
                &&& next.attempts == self.attempts
                &&& next.phase == SourcePhase::Stopped
                &&& action matches SourceAction::Stop { exit, removal } && exit
                    == SourceExit::StartupFailed && self.withdrawn(removal, failure.message@)
            },
            (SourcePhase::AnnouncingLate, SourceEvent::Queue(answer)) => {
                &&& next.attempts == self.attempts
                &&& if answer == QueueAnswer::Accepted {
                    &&& next.phase == SourcePhase::Running
                    &&& action is Run
                } else {
                    &&& next.phase == SourcePhase::Stopped
                    &&& self.stops(action, SourceExit::QueueClosed)
                }
            },
            (SourcePhase::Connecting, SourceEvent::Connected) => {
                &&& next.attempts == self.attempts
                &&& next.phase == SourcePhase::Running
                &&& action is Run
            },
            (SourcePhase::Connecting, SourceEvent::ConnectFailed(failure)) => {
                &&& next.attempts == self.attempts
                &&& next.phase == SourcePhase::Reporting { established: false }
                &&& self.reports(
                    action,
                    ProviderSourceHealthStatus::Reconnecting,
                    failure.reason,
                    failure.message@,
                )
            },
            (SourcePhase::Running, SourceEvent::SessionEnded { established }) => {
                &&& next.attempts == self.attempts
                &&& next.phase == SourcePhase::Reporting { established }
                &&& self.reports(
                    action,
                    ProviderSourceHealthStatus::Reconnecting,
                    ProviderSourceHealthReason::UpstreamStreamClosedUnexpectedly,
                    self.messages.ended@,
                )
            },
            (SourcePhase::Running, SourceEvent::SessionFailed { established, failure }) => {
                &&& next.attempts == self.attempts
                &&& next.phase == SourcePhase::Reporting { established }
                &&& self.reports(
                    action,
                    ProviderSourceHealthStatus::Reconnecting,
                    failure.reason,
                    failure.message@,
                )
            },
            (SourcePhase::Running, SourceEvent::SessionQueueClosed) => {
                &&& next.attempts == self.attempts
                &&& next.phase == SourcePhase::Stopped
                &&& self.stops(action, SourceExit::QueueClosed)
            },
            (SourcePhase::Reporting { established }, SourceEvent::Queue(answer)) => if answer
                == QueueAnswer::Accepted {
                &&& next.attempts == attempts_after(self.attempts, established)
                &&& if budget_exhausted(self.max_reconnect_attempts, next.attempts) {
                    &&& next.phase == SourcePhase::GivingUp
                    &&& self.reports(
                        action,
                        ProviderSourceHealthStatus::Unhealthy,
                        ProviderSourceHealthReason::ReconnectBudgetExhausted,
                        self.exhausted_text(next.attempts),
                    )
                } else {
                    &&& next.phase == SourcePhase::Waiting
                    &&& action matches SourceAction::Wait(pause) && pause == self.reconnect_delay
                }
            } else {
                &&& next.attempts == self.attempts
                &&& next.phase == SourcePhase::Stopped
                &&& self.stops(action, SourceExit::QueueClosed)
            },
            (SourcePhase::GivingUp, SourceEvent::Queue(answer)) => {
                &&& next.attempts == self.attempts
                &&& next.phase == SourcePhase::Stopped
                &&& self.stops(
                    action,
                    if answer == QueueAnswer::Accepted {
                        SourceExit::ReconnectBudgetExhausted { attempts: self.attempts }
                    } else {
                        SourceExit::QueueClosed
                    },
                )
            },
            (SourcePhase::Waiting, SourceEvent::Waited) => {
                &&& next.attempts == self.attempts
                &&& next.phase == SourcePhase::Connecting
                &&& action is Connect
            },
            _ => false,
        }
    }

    /// Creates the supervisor of a registered source and says what to do first: announce it.
    pub fn announced(
        source: ProviderSourceIdentity,
        readiness: ProviderSourceReadiness,
        messages: SourceMessages,
        max_reconnect_attempts: Option<u32>,
        reconnect_delay: Duration,
    ) -> (r: (Self, SourceAction))
        ensures
            r.0 == (SourceSupervisor {
                source,
                readiness,
                messages,
                max_reconnect_attempts,
                reconnect_delay,
                registered: true,
                attempts: 0,
                phase: SourcePhase::Announcing,
            }),
            r.1 matches SourceAction::TryAnnounce(event) && event.tells(
                source,
                readiness,
                ProviderSourceHealthStatus::Reconnecting,
                ProviderSourceHealthReason::InitialConnectPending,
                messages.waiting@,
            ),
    {
        let event = ProviderSourceHealthEvent::about(
            &source,
            readiness,
            ProviderSourceHealthStatus::Reconnecting,
            ProviderSourceHealthReason::InitialConnectPending,
            messages.waiting.clone(),
        );
        let supervisor = SourceSupervisor {
            source,
            readiness,
            messages,
            max_reconnect_attempts,
            reconnect_delay,
            registered: true,
            attempts: 0,
            phase: SourcePhase::Announcing,
        };
        (supervisor, SourceAction::TryAnnounce(event))
    }

    /// Creates the supervisor of a source that is neither announced nor withdrawn, and says what
    /// to do first: open a session.
    pub fn unannounced(
        source: ProviderSourceIdentity,
        readiness: ProviderSourceReadiness,
        messages: SourceMessages,
        max_reconnect_attempts: Option<u32>,
        reconnect_delay: Duration,
    ) -> (r: (Self, SourceAction))
        ensures
            r.0 == (SourceSupervisor {
                source,
                readiness,
                messages,
                max_reconnect_attempts,
                reconnect_delay,
                registered: false,
                attempts: 0,
                phase: SourcePhase::Opening { announcement_pending: false },
            }),
            r.1 is Connect,
    {
        let supervisor = SourceSupervisor {
            source,
            readiness,
            messages,
            max_reconnect_attempts,
            reconnect_delay,
            registered: false,
            attempts: 0,
            phase: SourcePhase::Opening { announcement_pending: false },
        };
        (supervisor, SourceAction::Connect)
    }

    fn report(
        &self,
        status: ProviderSourceHealthStatus,
        reason: ProviderSourceHealthReason,
        message: String,
    ) -> (r: SourceAction)
        ensures
            self.reports(r, status, reason, message@),
    {
        SourceAction::Report(
            ProviderSourceHealthEvent::about(&self.source, self.readiness, status, reason, message),
        )
    }

    fn stop(&mut self, exit: SourceExit, message: String) -> (r: SourceAction)
        ensures
            *final(self) == (SourceSupervisor { phase: SourcePhase::Stopped, ..*old(self) }),
            r matches SourceAction::Stop { exit: actual, removal } && actual == exit && old(self).withdrawn(
                removal,
                message@,
            ),
    {
        self.phase = SourcePhase::Stopped;
        let removal = if self.registered {
            Some(source_removed_event(&self.source, self.readiness, message))
        } else {
            None
        };
        SourceAction::Stop { exit, removal }
    }

    fn stop_task(&mut self, exit: SourceExit) -> (r: SourceAction)
        ensures
            *final(self) == (SourceSupervisor { phase: SourcePhase::Stopped, ..*old(self) }),
            old(self).stops(r, exit),
    {
        self.stop(exit, SOURCE_TASK_STOPPED.to_owned())
    }

    /// Says what follows an event. An event that cannot happen in the present phase changes
    /// nothing and has no action.
    pub fn on_event(&mut self, event: SourceEvent) -> (r: Option<SourceAction>)
        ensures
            match r {
                Some(action) => Self::fits(old(self).phase, event) && old(self).step(event, *final(self), action),
                None => !Self::fits(old(self).phase, event) && *final(self) == *old(self),
            },
    {
        match (self.phase, event) {
            (SourcePhase::Announcing, SourceEvent::Queue(answer)) => match answer {
                QueueAnswer::Accepted => {
                    self.phase = SourcePhase::Opening { announcement_pending: false };
                    Some(SourceAction::Connect)
                },
                QueueAnswer::Full => {
                    self.phase = SourcePhase::Opening { announcement_pending: true };
                    Some(SourceAction::Connect)
                },
                QueueAnswer::Closed => {
                    self.phase = SourcePhase::Stopped;
                    Some(SourceAction::Stop { exit: SourceExit::QueueClosed, removal: None })
                },
            },
            (SourcePhase::Opening { announcement_pending }, SourceEvent::Connected) => {
                if announcement_pending {
                    self.phase = SourcePhase::AnnouncingLate;
                    let message = self.messages.waiting.clone();
                    Some(
                        self.report(
                            ProviderSourceHealthStatus::Reconnecting,
                            ProviderSourceHealthReason::InitialConnectPending,
                            message,
                        ),
                    )
                } else {
                    self.phase = SourcePhase::Running;
                    Some(SourceAction::Run)
                }
            },
            (SourcePhase::Opening { .. }, SourceEvent::ConnectFailed(failure)) => {
                Some(self.stop(SourceExit::StartupFailed, failure.message))
            },
            (SourcePhase::AnnouncingLate, SourceEvent::Queue(answer)) => match answer {
                QueueAnswer::Accepted => {
                    self.phase = SourcePhase::Running;
                    Some(SourceAction::Run)
                },
                QueueAnswer::Closed => Some(self.stop_task(SourceExit::QueueClosed)),
                QueueAnswer::Full => None,
            },
            (SourcePhase::Connecting, SourceEvent::Connected) => {
                self.phase = SourcePhase::Running;
                Some(SourceAction::Run)
            },
            (SourcePhase::Connecting, SourceEvent::ConnectFailed(failure)) => {
                self.phase = SourcePhase::Reporting { established: false };
                Some(
                    self.report(ProviderSourceHealthStatus::Reconnecting, failure.reason, failure.message),
                )
            },
            (SourcePhase::Running, SourceEvent::SessionEnded { established }) => {
                self.phase = SourcePhase::Reporting { established };
                let message = self.messages.ended.clone();
                Some(
                    self.report(
                        ProviderSourceHealthStatus::Reconnecting,
                        ProviderSourceHealthReason::UpstreamStreamClosedUnexpectedly,
                        message,
                    ),
                )
            },
            (SourcePhase::Running, SourceEvent::SessionFailed { established, failure }) => {
                self.phase = SourcePhase::Reporting { established };
                Some(
                    self.report(ProviderSourceHealthStatus::Reconnecting, failure.reason, failure.message),
                )
            },
            (SourcePhase::Running, SourceEvent::SessionQueueClosed) => Some(
                self.stop_task(SourceExit::QueueClosed),
            ),
            (SourcePhase::Reporting { established }, SourceEvent::Queue(answer)) => match answer {
                QueueAnswer::Accepted => Some(self.next_round(established)),
                QueueAnswer::Closed => Some(self.stop_task(SourceExit::QueueClosed)),
                QueueAnswer::Full => None,
            },
            (SourcePhase::GivingUp, SourceEvent::Queue(answer)) => match answer {
                QueueAnswer::Accepted => {
                    let attempts: u32 = self.attempts;
                    Some(self.stop_task(SourceExit::ReconnectBudgetExhausted { attempts }))
                },
                QueueAnswer::Closed => Some(self.stop_task(SourceExit::QueueClosed)),
                QueueAnswer::Full => None,
            },
            (SourcePhase::Waiting, SourceEvent::Waited) => {
                self.phase = SourcePhase::Connecting;
                Some(SourceAction::Connect)
            },
            _ => None,
        }
    }

    fn next_round(&mut self, established: bool) -> (r: SourceAction)
        ensures
            final(self).same_source_as(*old(self)),
            final(self).attempts == attempts_after(old(self).attempts, established),
            if budget_exhausted(old(self).max_reconnect_attempts, final(self).attempts) {
                &&& final(self).phase == SourcePhase::GivingUp
                &&& old(self).reports(
                    r,
                    ProviderSourceHealthStatus::Unhealthy,
                    ProviderSourceHealthReason::ReconnectBudgetExhausted,
                    old(self).exhausted_text(final(self).attempts),
                )
            } else {
                &&& final(self).phase == SourcePhase::Waiting
                &&& r matches SourceAction::Wait(pause) && pause == old(self).reconnect_delay
            },
    {
        if established {
            self.attempts = 0;
        } else {
            self.attempts = self.attempts.saturating_add(1);
        }
        let exhausted: bool = match self.max_reconnect_attempts {
            Some(most) => self.attempts >= most,
            None => false,
        };
        if exhausted {
            self.phase = SourcePhase::GivingUp;
            let number = decimal(self.attempts as u64);
            let message = joined3(self.messages.exhausted.as_str(), number.as_str(), " failures");
            self.report(
                ProviderSourceHealthStatus::Unhealthy,
                ProviderSourceHealthReason::ReconnectBudgetExhausted,
                message,
            )
        } else {
            self.phase = SourcePhase::Waiting;
            SourceAction::Wait(self.reconnect_delay)
        }
    }
}

/// The failures in a row after `rounds` rounds in which no session was established.
pub open spec fn attempts_after_failures(attempts: u32, rounds: nat) -> u32
    decreases rounds,
{
    if rounds == 0 {
        attempts
    } else {
        attempts_after(attempts_after_failures(attempts, (rounds - 1) as nat), false)
    }
}

/// An established session clears the failure count, and without one a budget of `most` failures
/// in a row is used up exactly from the `most`-th on.
pub proof fn reconnect_budget_counts_consecutive_failures(before: u32, most: u32, rounds: nat)
    requires
        1 <= most,
        rounds <= u32::MAX,
    ensures
        attempts_after(before, true) == 0,
        attempts_after_failures(0, rounds) == rounds,
        budget_exhausted(Some(most), attempts_after_failures(0, rounds)) <==> rounds >= most,
        !budget_exhausted(None, attempts_after_failures(0, rounds)),
    decreases rounds,
{
    if rounds > 0 {
        reconnect_budget_counts_consecutive_failures(before, most, (rounds - 1) as nat);
    }
}

/// A step that stops a source whose task had started withdraws the source if it is registered, and
/// a closed queue stops the source whatever it was doing.
pub proof fn stopped_source_is_withdrawn(
    supervisor: SourceSupervisor,
    event: SourceEvent,
    next: SourceSupervisor,
    action: SourceAction,
)
    requires
        SourceSupervisor::fits(supervisor.phase, event),
        supervisor.step(event, next, action),
    ensures
        next.phase == SourcePhase::Stopped <==> action is Stop,
        next.phase == SourcePhase::Stopped && supervisor.phase != SourcePhase::Announcing && supervisor.registered
            ==> action->removal is Some && action->removal->0.status == ProviderSourceHealthStatus::Removed,
        event matches SourceEvent::Queue(QueueAnswer::Closed) ==> next.phase == SourcePhase::Stopped,
        event is SessionQueueClosed ==> next.phase == SourcePhase::Stopped,
{
}

/// Failures in a row are counted where a disruption was reported and nowhere else: one more for a round
/// without an established session, as far as they can be counted, and none after an established one. The
/// source gives up then exactly if it has a budget and the failures have reached it.
pub proof fn rounds_are_counted_once(
    supervisor: SourceSupervisor,
    event: SourceEvent,
    next: SourceSupervisor,
    action: SourceAction,
)
    requires
        SourceSupervisor::fits(supervisor.phase, event),
        supervisor.step(event, next, action),
    ensures
        !(supervisor.phase is Reporting && event == SourceEvent::Queue(QueueAnswer::Accepted)) ==> next.attempts
            == supervisor.attempts,
        supervisor.phase is Reporting && event == SourceEvent::Queue(QueueAnswer::Accepted) ==> {
            &&& supervisor.phase->Reporting_established ==> next.attempts == 0
            &&& !supervisor.phase->Reporting_established && supervisor.attempts < u32::MAX ==> next.attempts
                == supervisor.attempts + 1
            &&& !supervisor.phase->Reporting_established && supervisor.attempts == u32::MAX ==> next.attempts
                == u32::MAX
            &&& next.phase == SourcePhase::GivingUp <==> supervisor.max_reconnect_attempts is Some
                && next.attempts >= supervisor.max_reconnect_attempts->0
            &&& next.phase != SourcePhase::GivingUp ==> action == SourceAction::Wait(supervisor.reconnect_delay)
        },
        next.phase == SourcePhase::GivingUp ==> supervisor.phase is Reporting,
        next.source == supervisor.source && next.readiness == supervisor.readiness && next.registered
            == supervisor.registered && next.max_reconnect_attempts == supervisor.max_reconnect_attempts
            && next.reconnect_delay == supervisor.reconnect_delay,
{
}

/// What a source does is what its phase says: a session is opened, run or waited for exactly in the
/// phases of these names. A session that opened is run, unless the announcement still has to be queued,
/// and a pause is followed by an attempt to connect.
pub proof fn phases_follow_actions(
    supervisor: SourceSupervisor,
    event: SourceEvent,
    next: SourceSupervisor,
    action: SourceAction,
)
    requires
        SourceSupervisor::fits(supervisor.phase, event),
        supervisor.step(event, next, action),
    ensures
        action is Connect <==> next.phase is Opening || next.phase is Connecting,
        action is Run <==> next.phase is Running,
        action is Wait <==> next.phase is Waiting,
        action is Stop <==> next.phase is Stopped,
        action is Report <==> next.phase is AnnouncingLate || next.phase is Reporting || next.phase is GivingUp,
        !(action is TryAnnounce),
        event is Connected && supervisor.phase != (SourcePhase::Opening { announcement_pending: true })
            ==> action is Run,
        supervisor.phase == (SourcePhase::Opening { announcement_pending: true }) && event is Connected
            ==> next.phase is AnnouncingLate,
        next.phase == (SourcePhase::Opening { announcement_pending: true }) <==> supervisor.phase is Announcing
            && event == SourceEvent::Queue(QueueAnswer::Full),
        event is Waited ==> next.phase is Connecting,
        supervisor.phase is AnnouncingLate && event == SourceEvent::Queue(QueueAnswer::Accepted)
            ==> next.phase is Running,
{
}

/// A disruption is reported with the reason and the text of what failed; a session that ended without an
/// error is reported as closed unexpectedly; only a used-up budget is reported as unhealthy.
pub proof fn disruptions_are_reported(
    supervisor: SourceSupervisor,
    event: SourceEvent,
    next: SourceSupervisor,
    action: SourceAction,
)
    requires
        SourceSupervisor::fits(supervisor.phase, event),
        supervisor.step(event, next, action),
    ensures
        action matches SourceAction::Report(told) ==> {
            &&& told.source == supervisor.source
            &&& told.readiness == supervisor.readiness
            &&& told.status == ProviderSourceHealthStatus::Unhealthy <==> next.phase is GivingUp
            &&& told.status != ProviderSourceHealthStatus::Unhealthy ==> told.status
                == ProviderSourceHealthStatus::Reconnecting
            &&& next.phase is GivingUp ==> told.reason == ProviderSourceHealthReason::ReconnectBudgetExhausted
                && told.message@ == supervisor.messages.exhausted@ + decimal_text(next.attempts as nat)
                + " failures"@
            &&& next.phase is AnnouncingLate ==> told.reason
                == ProviderSourceHealthReason::InitialConnectPending && told.message@
                == supervisor.messages.waiting@
        },
        event matches SourceEvent::SessionFailed { established, failure } ==> {
            &&& next.phase == (SourcePhase::Reporting { established })
            &&& action is Report && action->Report_0.reason == failure.reason && action->Report_0.message@
                == failure.message@
        },
        event matches SourceEvent::SessionEnded { established } ==> {
            &&& next.phase == (SourcePhase::Reporting { established })
            &&& action is Report && action->Report_0.reason
                == ProviderSourceHealthReason::UpstreamStreamClosedUnexpectedly && action->Report_0.message@
                == supervisor.messages.ended@
        },
        supervisor.phase is Connecting ==> (event matches SourceEvent::ConnectFailed(failure) ==> {
            &&& next.phase == (SourcePhase::Reporting { established: false })
            &&& action is Report && action->Report_0.reason == failure.reason && action->Report_0.message@
                == failure.message@
        }),
{
}

/// A source says truly how it ended: a first session that did not open, a budget used up by as many
/// failures as are told, or a closed queue; a source that is not registered is never withdrawn.
pub proof fn exits_are_told(
    supervisor: SourceSupervisor,
    event: SourceEvent,
    next: SourceSupervisor,
    action: SourceAction,
)
    requires
        SourceSupervisor::fits(supervisor.phase, event),
        supervisor.step(event, next, action),
        action is Stop,
    ensures
        action->exit == SourceExit::StartupFailed <==> event is ConnectFailed,
        action->exit is ReconnectBudgetExhausted <==> supervisor.phase is GivingUp && event
            == SourceEvent::Queue(QueueAnswer::Accepted),
        action->exit is ReconnectBudgetExhausted ==> action->exit->attempts == supervisor.attempts,
        action->exit == SourceExit::QueueClosed <==> event is SessionQueueClosed || event
            == SourceEvent::Queue(QueueAnswer::Closed),
        !supervisor.registered || supervisor.phase is Announcing ==> action->removal is None,
        supervisor.registered && !(supervisor.phase is Announcing) ==> {
            let told = action->removal->0;
            &&& action->removal is Some
            &&& told.source == supervisor.source
            &&& told.readiness == supervisor.readiness
            &&& told.reason == ProviderSourceHealthReason::SourceRemoved
            &&& told.message@ == if event is ConnectFailed {
                event->ConnectFailed_0.message@
            } else {
                SOURCE_TASK_STOPPED@
            }
        },
{
}

} // verus!
