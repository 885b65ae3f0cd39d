//! The loop as contracts see it: its native handle, the thread that entered
//! it, and the registered sources in the order of their registration.

use crate::result::accepted;
use crate::source::{Call, Report, SourceState};
use crate::time::Timespec;
use vstd::prelude::*;

verus! {

/// The native loop as a plain value: its address and the descriptor that
/// stands for it in an outside poll.
#[derive(Clone, Copy, Debug, PartialEq, Eq, Structural)]
pub struct RawLoop {
    /// The address of the native loop; zero where there is none.
    pub ptr: usize,
    /// The descriptor that becomes readable when the loop has work.
    pub fd: i32,
}

/// A readiness report: the native handle of the source and what is reported
/// of it.
#[derive(Clone, Copy, Debug, PartialEq, Eq, Structural)]
pub struct Ready {
    pub source: usize,
    pub report: Report,
}

/// A callback to run: the native handle of its source and the call owed.
#[derive(Clone, Copy, Debug, PartialEq, Eq, Structural)]
pub struct Dispatch {
    pub source: usize,
    pub call: Call,
}

/// The mathematical model of a loop.
pub struct LoopState {
    /// The native loop.
    pub raw: RawLoop,
    /// The thread that is between `enter` and `leave`, if one is.
    pub owner: Option<u64>,
    /// The thread that last called `enter`.
    pub last_entered: Option<u64>,
    /// The registered sources by native handle.
    pub sources: Map<usize, SourceState>,
    /// The native handles in the order of registration.
    pub order: Seq<usize>,
}

impl LoopState {
    /// The native loop exists, no source has the null handle, and `order`
    /// lists each registered handle exactly once.
    pub open spec fn wf(self) -> bool {
        &&& self.raw.ptr != 0
        &&& !self.sources.dom().contains(0)
        &&& self.order.no_duplicates()
        &&& forall|p: usize| self.sources.dom().contains(p) <==> self.order.contains(p)
    }

    /// A loop around `raw` that nobody entered and that has no source.
    pub open spec fn fresh(raw: RawLoop) -> LoopState {
        LoopState {
            raw,
            owner: None,
            last_entered: None,
            sources: Map::empty(),
            order: Seq::empty(),
        }
    }

    /// Whether `source` is registered.
    pub open spec fn registered(self, source: usize) -> bool {
        self.sources.dom().contains(source)
    }

    /// Whether `source` can be taken as the handle of a new registration: it
    /// is not null and not the handle of a source that is still registered.
    pub open spec fn accepts(self, source: usize) -> bool {
        source != 0 && !self.registered(source)
    }

    /// The loop with the state of `source` replaced.
    pub open spec fn with_state(self, source: usize, state: SourceState) -> LoopState {
        LoopState { sources: self.sources.insert(source, state), ..self }
    }

    /// The loop after `thread` entered it.
    pub open spec fn enter(self, thread: u64) -> LoopState {
        LoopState { owner: Some(thread), last_entered: Some(thread), ..self }
    }

    /// The loop after the thread inside left it.
    pub open spec fn leave(self) -> LoopState {
        LoopState { owner: None, ..self }
    }

    /// The loop after `source` was registered in `state`.
    pub open spec fn register(self, source: usize, state: SourceState) -> LoopState {
        LoopState {
            sources: self.sources.insert(source, state),
            order: self.order.push(source),
            ..self
        }
    }

    /// The loop after the registration of `source` was removed; unchanged
    /// where there was none.
    pub open spec fn destroy_source(self, source: usize) -> LoopState {
        if self.registered(source) {
            LoopState {
                sources: self.sources.remove(source),
                order: self.order.remove(self.order.index_of(source)),
                ..self
            }
        } else {
            self
        }
    }

    /// The loop after the idle source `source` was enabled or disabled;
    /// unchanged where `source` is no registered idle source.
    pub open spec fn enable_idle(self, source: usize, enable: bool) -> LoopState {
        if self.registered(source) && self.sources[source] is Idle {
            self.with_state(source, SourceState::Idle { enabled: enable })
        } else {
            self
        }
    }

    /// The loop after the native loop answered `res` to signalling the event
    /// `source`: where it accepted, one more signal is pending.
    pub open spec fn signal_event(self, source: usize, res: i32) -> LoopState {
        if self.registered(source) && self.sources[source] is Event && accepted(res) {
            self.with_state(source, self.sources[source].signalled())
        } else {
            self
        }
    }

    /// The loop after the native loop answered `res` to setting the timer
    /// `source`: where it accepted, the timer has the new setting.
    pub open spec fn update_timer(
        self,
        source: usize,
        value: Timespec,
        interval: Timespec,
        res: i32,
    ) -> LoopState {
        if self.registered(source) && self.sources[source] is Timer && accepted(res) {
            self.with_state(source, SourceState::Timer { value, interval })
        } else {
            self
        }
    }

    /// What one readiness report leads to: the loop afterwards and the
    /// callback owed. A report for a handle that is not registered leads to
    /// nothing.
    pub open spec fn dispatch(self, ready: Ready) -> (LoopState, Option<Dispatch>) {
        if self.registered(ready.source) {
            let (state, call) = self.sources[ready.source].on_report(ready.report);
            (
                self.with_state(ready.source, state),
                match call {
                    Some(call) => Some(Dispatch { source: ready.source, call }),
                    None => None,
                },
            )
        } else {
            (self, None)
        }
    }

    /// What a round of reports leads to, taken one after the other in the
    /// order given: the loop afterwards and the callbacks owed, in that order.
    pub open spec fn iterate(self, reports: Seq<Ready>) -> (LoopState, Seq<Dispatch>)
        decreases reports.len(),
    {
        if reports.len() == 0 {
            (self, Seq::empty())
        } else {
            let (next, owed) = self.dispatch(reports.first());
            let (last, rest) = next.iterate(reports.drop_first());
            (
                last,
                match owed {
                    Some(d) => seq![d] + rest,
                    None => rest,
                },
            )
        }
    }
}

} // verus!
