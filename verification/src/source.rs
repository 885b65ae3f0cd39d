//! What the loop records of one registered source, and what a readiness
//! report for it leads to.

use crate::flags::IoFlags;
use crate::time::Timespec;
use signal::Signal;
use vstd::prelude::*;

verus! {

/// A POSIX signal, as the `signal` crate names it. The loop carries the value
/// through and never looks inside.
#[verifier::external_type_specification]
#[verifier::external_body]
pub struct ExSignal(Signal);

/// The kind of a source together with the part of its setting that decides
/// whether a report leads to a callback.
#[derive(Clone, Copy, Debug, PartialEq, Eq)]
pub enum SourceState {
    /// Watches descriptor `fd` for the conditions in `mask`.
    Io { fd: i32, mask: IoFlags },
    /// Runs on every iteration while `enabled`.
    Idle { enabled: bool },
    /// Runs when the process receives `signal`.
    Signal { signal: Signal },
    /// Runs after it was signalled; `pending` counts the signals since the
    /// callback last ran, and stops counting at `u64::MAX`.
    Event { pending: u64 },
    /// Runs when the timer expires. A zero `value` means the timer is
    /// disarmed; a zero `interval` means it fires once.
    Timer { value: Timespec, interval: Timespec },
}

/// What the native loop reports of a source that became ready.
#[derive(Clone, Copy, Debug, PartialEq, Eq, Structural)]
pub enum Report {
    /// The watched descriptor is ready.
    Io,
    /// The loop is idle.
    Idle,
    /// The signal arrived.
    Signal,
    /// The event was signalled.
    Event,
    /// The timer expired `expirations` times since it was last reported.
    Timer { expirations: u64 },
}

/// The callback that is owed, with its argument.
#[derive(Clone, Copy, Debug, PartialEq, Eq, Structural)]
pub enum Call {
    /// The I/O callback, with mutable access to the watched object.
    Io,
    /// The idle callback.
    Idle,
    /// The signal callback.
    Signal,
    /// The event callback; `count` signals were merged into this call.
    Event { count: u64 },
    /// The timer callback, with the number of expirations.
    Timer { expirations: u64 },
}

impl SourceState {
    /// Whether a timer in this state is armed.
    pub open spec fn armed(self) -> bool {
        self matches SourceState::Timer { value, .. } && !value.is_zero()
    }

    /// The state after the event was signalled once more.
    pub open spec fn signalled(self) -> SourceState {
        match self {
            SourceState::Event { pending } => SourceState::Event {
                pending: if pending < u64::MAX {
                    (pending + 1) as u64
                } else {
                    pending
                },
            },
            _ => self,
        }
    }

    /// What a report does to a source: its next state and the callback owed.
    ///
    /// A report of another kind than the source leads to nothing. A disabled
    /// idle source, an event that nobody signalled and a disarmed timer are
    /// passed over. An event hands over its count and starts from zero; a
    /// timer without interval is disarmed by its first expiry.
    pub open spec fn on_report(self, report: Report) -> (SourceState, Option<Call>) {
        match (self, report) {
            (SourceState::Io { .. }, Report::Io) => (self, Some(Call::Io)),
            (SourceState::Idle { enabled }, Report::Idle) => (
                self,
                if enabled {
                    Some(Call::Idle)
                } else {
                    None
                },
            ),
            (SourceState::Signal { .. }, Report::Signal) => (self, Some(Call::Signal)),
            (SourceState::Event { pending }, Report::Event) => if pending > 0 {
                (SourceState::Event { pending: 0 }, Some(Call::Event { count: pending }))
            } else {
                (self, None)
            },
            (SourceState::Timer { value, interval }, Report::Timer { expirations }) => if value.is_zero() {
                (self, None)
            } else if interval.is_zero() {
                (
                    SourceState::Timer { value: Timespec { tv_sec: 0, tv_nsec: 0 }, interval },
                    Some(Call::Timer { expirations }),
                )
            } else {
                (self, Some(Call::Timer { expirations }))
            },
            _ => (self, None),
        }
    }

    /// Computes [`SourceState::on_report`].
    pub fn react(self, report: Report) -> (out: (SourceState, Option<Call>))
        ensures
            out == self.on_report(report),
    {
        match (self, report) {
            (SourceState::Io { .. }, Report::Io) => (self, Some(Call::Io)),
            (SourceState::Idle { enabled }, Report::Idle) => {
                if enabled {
                    (self, Some(Call::Idle))
                } else {
                    (self, None)
                }
            },
            (SourceState::Signal { .. }, Report::Signal) => (self, Some(Call::Signal)),
            (SourceState::Event { pending }, Report::Event) => {
                if pending > 0 {
                    (SourceState::Event { pending: 0 }, Some(Call::Event { count: pending }))
                } else {
                    (self, None)
                }
            },
            (SourceState::Timer { value, interval }, Report::Timer { expirations }) => {
                if value.tv_sec == 0 && value.tv_nsec == 0 {
                    (self, None)
                } else if interval.tv_sec == 0 && interval.tv_nsec == 0 {
                    (
                        SourceState::Timer { value: Timespec { tv_sec: 0, tv_nsec: 0 }, interval },
                        Some(Call::Timer { expirations }),
                    )
                } else {
                    (self, Some(Call::Timer { expirations }))
                }
            },
            _ => (self, None),
        }
    }
}

} // verus!
