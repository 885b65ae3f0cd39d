//! What holds of every loop, whatever the native loop reports.
//!
//! A round of reports touches each source only through the reports for its
//! own handle, so what a source is owed can be read off its own state and
//! those reports alone. On that rest the laws of the single kinds: an idle
//! source that fires while enabled, a timer that fires once or keeps firing,
//! an event whose signals are merged into one call, and a destroyed source
//! that never fires again.

use crate::result::accepted;
use crate::source::{Call, Report, SourceState};
use crate::state::{Dispatch, LoopState, Ready};
use vstd::prelude::*;

verus! {

/// The calls owed to `source` among `owed`, in order.
pub open spec fn calls_of(owed: Seq<Dispatch>, source: usize) -> Seq<Call>
    decreases owed.len(),
{
    if owed.len() == 0 {
        Seq::empty()
    } else if owed.first().source == source {
        seq![owed.first().call] + calls_of(owed.drop_first(), source)
    } else {
        calls_of(owed.drop_first(), source)
    }
}

/// The reports for `source` among `reports`, in order.
pub open spec fn reports_of(reports: Seq<Ready>, source: usize) -> Seq<Report>
    decreases reports.len(),
{
    if reports.len() == 0 {
        Seq::empty()
    } else if reports.first().source == source {
        seq![reports.first().report] + reports_of(reports.drop_first(), source)
    } else {
        reports_of(reports.drop_first(), source)
    }
}

/// What a row of reports does to a single source: its last state and the
/// calls owed, in order.
pub open spec fn run(state: SourceState, reports: Seq<Report>) -> (SourceState, Seq<Call>)
    decreases reports.len(),
{
    if reports.len() == 0 {
        (state, Seq::empty())
    } else {
        let (next, call) = state.on_report(reports.first());
        let (last, rest) = run(next, reports.drop_first());
        (
            last,
            match call {
                Some(c) => seq![c] + rest,
                None => rest,
            },
        )
    }
}

/// A round never registers or removes a source, and it leaves the native
/// loop and the record of threads as they were.
pub proof fn law_iterate_keeps_registrations(s: LoopState, reports: Seq<Ready>)
    ensures
        s.iterate(reports).0.sources.dom() == s.sources.dom(),
        s.iterate(reports).0.order == s.order,
        s.iterate(reports).0.raw == s.raw,
        s.iterate(reports).0.owner == s.owner,
        s.iterate(reports).0.last_entered == s.last_entered,
        s.wf() ==> s.iterate(reports).0.wf(),
    decreases reports.len(),
{
    if reports.len() > 0 {
        let next = s.dispatch(reports.first()).0;
        assert(next.sources.dom() =~= s.sources.dom());
        law_iterate_keeps_registrations(next, reports.drop_first());
    }
}

/// What a round owes to a source, and the state it leaves the source in,
/// depend on nothing but the state of that source and the reports for its
/// handle. A handle that is not registered is owed nothing.
pub proof fn law_iterate_is_local(s: LoopState, reports: Seq<Ready>, source: usize)
    ensures
        s.registered(source) ==> {
            &&& s.iterate(reports).0.registered(source)
            &&& s.iterate(reports).0.sources[source] == run(
                s.sources[source],
                reports_of(reports, source),
            ).0
            &&& calls_of(s.iterate(reports).1, source) == run(
                s.sources[source],
                reports_of(reports, source),
            ).1
        },
        !s.registered(source) ==> {
            &&& !s.iterate(reports).0.registered(source)
            &&& calls_of(s.iterate(reports).1, source) == Seq::<Call>::empty()
        },
    decreases reports.len(),
{
    if reports.len() > 0 {
        let first = reports.first();
        let (next, owed) = s.dispatch(first);
        let (last, rest) = next.iterate(reports.drop_first());
        let tail = reports_of(reports.drop_first(), source);
        law_iterate_is_local(next, reports.drop_first(), source);
        assert(next.registered(source) == s.registered(source));
        match owed {
            Some(d) => {
                let all = seq![d] + rest;
                assert(all.first() == d);
                assert(all.drop_first() =~= rest);
                assert(d.source == first.source);
            },
            None => {},
        }
        if first.source == source {
            let mine = seq![first.report] + tail;
            assert(mine.first() == first.report);
            assert(mine.drop_first() =~= tail);
            assert(reports_of(reports, source) == mine);
        } else {
            assert(reports_of(reports, source) == tail);
            if s.registered(source) {
                assert(next.sources[source] == s.sources[source]);
            }
        }
    }
}

/// How often `ready` occurs among `reports`.
pub open spec fn count_of(reports: Seq<Ready>, ready: Ready) -> nat
    decreases reports.len(),
{
    if reports.len() == 0 {
        0
    } else if reports.first() == ready {
        1 + count_of(reports.drop_first(), ready)
    } else {
        count_of(reports.drop_first(), ready)
    }
}

/// The timer calls that the expiry reports for `source` among `reports` ask
/// for, in order, each with the expirations that were reported.
pub open spec fn expiries(reports: Seq<Ready>, source: usize) -> Seq<Call>
    decreases reports.len(),
{
    if reports.len() == 0 {
        Seq::empty()
    } else {
        let rest = expiries(reports.drop_first(), source);
        match reports.first().report {
            Report::Timer { expirations } => if reports.first().source == source {
                seq![Call::Timer { expirations }] + rest
            } else {
                rest
            },
            _ => rest,
        }
    }
}

/// The loop after the event `source` was signalled once for each of
/// `results`, the answers of the native loop, in order.
pub open spec fn signal_all(s: LoopState, source: usize, results: Seq<i32>) -> LoopState
    decreases results.len(),
{
    if results.len() == 0 {
        s
    } else {
        signal_all(s.signal_event(source, results.first()), source, results.drop_first())
    }
}

/// One step of [`run`] along the reports of a round.
proof fn lemma_run_step(state: SourceState, reports: Seq<Ready>, source: usize)
    requires
        reports.len() > 0,
    ensures
        reports.first().source != source ==> run(state, reports_of(reports, source)) == run(
            state,
            reports_of(reports.drop_first(), source),
        ),
        reports.first().source == source ==> run(state, reports_of(reports, source)) == ({
            let (next, call) = state.on_report(reports.first().report);
            let (last, rest) = run(next, reports_of(reports.drop_first(), source));
            (
                last,
                match call {
                    Some(c) => seq![c] + rest,
                    None => rest,
                },
            )
        }),
{
    let first = reports.first();
    let tail = reports_of(reports.drop_first(), source);
    if first.source == source {
        let mine = seq![first.report] + tail;
        assert(mine.first() == first.report);
        assert(mine.drop_first() =~= tail);
        assert(reports_of(reports, source) == mine);
    }
}

/// A source that no report changes is owed what each report for it asks for
/// by itself.
proof fn lemma_run_unchanged(state: SourceState, reports: Seq<Ready>, source: usize)
    requires
        forall|r: Report| (#[trigger] state.on_report(r)).0 == state,
    ensures
        run(state, reports_of(reports, source)).0 == state,
    decreases reports.len(),
{
    if reports.len() > 0 {
        lemma_run_step(state, reports, source);
        lemma_run_unchanged(state, reports.drop_first(), source);
    }
}

/// A source that no report changes and that no report makes fire is owed
/// nothing.
proof fn lemma_run_quiet(state: SourceState, reports: Seq<Ready>, source: usize)
    requires
        forall|r: Report| #[trigger] state.on_report(r) == (state, None::<Call>),
    ensures
        run(state, reports_of(reports, source)) == (state, Seq::<Call>::empty()),
    decreases reports.len(),
{
    if reports.len() > 0 {
        lemma_run_step(state, reports, source);
        lemma_run_quiet(state, reports.drop_first(), source);
    }
}

/// An enabled idle source is owed one call for each idle report.
proof fn lemma_run_idle(reports: Seq<Ready>, source: usize)
    ensures
        run(SourceState::Idle { enabled: true }, reports_of(reports, source)) == (
            SourceState::Idle { enabled: true },
            Seq::new(
                count_of(reports, Ready { source, report: Report::Idle }),
                |i: int| Call::Idle,
            ),
        ),
    decreases reports.len(),
{
    let state = SourceState::Idle { enabled: true };
    let ready = Ready { source, report: Report::Idle };
    if reports.len() > 0 {
        lemma_run_step(state, reports, source);
        lemma_run_idle(reports.drop_first(), source);
        let n = count_of(reports.drop_first(), ready);
        if reports.first() == ready {
            assert(seq![Call::Idle] + Seq::new(n, |i: int| Call::Idle) =~= Seq::new(
                n + 1,
                |i: int| Call::Idle,
            ));
        }
    }
    assert(run(state, reports_of(reports, source)).1 =~= Seq::new(
        count_of(reports, ready),
        |i: int| Call::Idle,
    ));
}

/// A source for I/O or for a signal is owed one call for each report of its
/// kind.
proof fn lemma_run_plain(state: SourceState, report: Report, call: Call, reports: Seq<Ready>, source: usize)
    requires
        (state is Io && report == Report::Io && call == Call::Io) || (state is Signal && report
            == Report::Signal && call == Call::Signal),
    ensures
        run(state, reports_of(reports, source)) == (
            state,
            Seq::new(count_of(reports, Ready { source, report }), |i: int| call),
        ),
    decreases reports.len(),
{
    let ready = Ready { source, report };
    if reports.len() > 0 {
        lemma_run_step(state, reports, source);
        lemma_run_plain(state, report, call, reports.drop_first(), source);
        let n = count_of(reports.drop_first(), ready);
        if reports.first() == ready {
            assert(seq![call] + Seq::new(n, |i: int| call) =~= Seq::new(n + 1, |i: int| call));
        }
    }
    assert(run(state, reports_of(reports, source)).1 =~= Seq::new(
        count_of(reports, ready),
        |i: int| call,
    ));
}

/// A timer with an interval is owed every expiry that is reported.
proof fn lemma_run_periodic(state: SourceState, reports: Seq<Ready>, source: usize)
    requires
        state matches SourceState::Timer { value, interval } && !value.is_zero()
            && !interval.is_zero(),
    ensures
        run(state, reports_of(reports, source)) == (state, expiries(reports, source)),
    decreases reports.len(),
{
    if reports.len() > 0 {
        lemma_run_step(state, reports, source);
        lemma_run_periodic(state, reports.drop_first(), source);
    }
}

/// A timer without interval is owed the first expiry that is reported, and
/// that expiry disarms it.
proof fn lemma_run_one_shot(state: SourceState, reports: Seq<Ready>, source: usize)
    requires
        state matches SourceState::Timer { value, interval } && !value.is_zero()
            && interval.is_zero(),
    ensures
        expiries(reports, source).len() == 0 ==> run(state, reports_of(reports, source)) == (
            state,
            Seq::<Call>::empty(),
        ),
        expiries(reports, source).len() > 0 ==> run(state, reports_of(reports, source)) == (
            state.on_report(Report::Timer { expirations: 0 }).0,
            seq![expiries(reports, source)[0]],
        ),
    decreases reports.len(),
{
    if reports.len() > 0 {
        lemma_run_step(state, reports, source);
        lemma_run_one_shot(state, reports.drop_first(), source);
        let first = reports.first();
        if first.source == source && first.report is Timer {
            let spent = state.on_report(first.report).0;
            assert(spent == state.on_report(Report::Timer { expirations: 0 }).0);
            lemma_run_quiet(spent, reports.drop_first(), source);
            let call = state.on_report(first.report).1.unwrap();
            assert(seq![call] + Seq::<Call>::empty() =~= seq![call]);
        }
    }
}

/// An event with signals pending is owed one call at its first report, with
/// the number of those signals, and then has none pending.
proof fn lemma_run_event(pending: u64, reports: Seq<Ready>, source: usize)
    requires
        pending > 0,
    ensures
        count_of(reports, Ready { source, report: Report::Event }) == 0 ==> run(
            SourceState::Event { pending },
            reports_of(reports, source),
        ) == (SourceState::Event { pending }, Seq::<Call>::empty()),
        count_of(reports, Ready { source, report: Report::Event }) > 0 ==> run(
            SourceState::Event { pending },
            reports_of(reports, source),
        ) == (SourceState::Event { pending: 0 }, seq![Call::Event { count: pending }]),
    decreases reports.len(),
{
    let state = SourceState::Event { pending };
    if reports.len() > 0 {
        lemma_run_step(state, reports, source);
        lemma_run_event(pending, reports.drop_first(), source);
        if reports.first() == (Ready { source, report: Report::Event }) {
            lemma_run_quiet(SourceState::Event { pending: 0 }, reports.drop_first(), source);
            let call = Call::Event { count: pending };
            assert(seq![call] + Seq::<Call>::empty() =~= seq![call]);
        }
    }
}

/// While an idle source is enabled, every idle report for it leads to
/// exactly one call of its callback: one report in each round makes it fire
/// once per round. The round leaves it enabled.
pub proof fn law_idle_fires_once_per_report(s: LoopState, reports: Seq<Ready>, source: usize)
    requires
        s.registered(source),
        s.sources[source] == (SourceState::Idle { enabled: true }),
    ensures
        calls_of(s.iterate(reports).1, source) == Seq::new(
            count_of(reports, Ready { source, report: Report::Idle }),
            |i: int| Call::Idle,
        ),
        s.iterate(reports).0.sources[source] == s.sources[source],
{
    law_iterate_is_local(s, reports, source);
    lemma_run_idle(reports, source);
}

/// Once an idle source was disabled, no round leads to a call of its
/// callback, whatever is reported, and every round leaves it disabled: so
/// neither does any later round.
pub proof fn law_disabled_idle_never_fires(s: LoopState, reports: Seq<Ready>, source: usize)
    requires
        s.registered(source),
        s.sources[source] is Idle,
    ensures
        s.enable_idle(source, false).sources[source] == (SourceState::Idle { enabled: false }),
        calls_of(s.enable_idle(source, false).iterate(reports).1, source) == Seq::<Call>::empty(),
        s.enable_idle(source, false).iterate(reports).0.sources[source] == (SourceState::Idle {
            enabled: false,
        }),
{
    let off = s.enable_idle(source, false);
    law_iterate_is_local(off, reports, source);
    lemma_run_quiet(SourceState::Idle { enabled: false }, reports, source);
}

/// A timer that was armed without interval fires exactly once, at the first
/// expiry that is reported, with the expirations of that report; that
/// expiry disarms it. Before any expiry is reported it stays as it was.
pub proof fn law_one_shot_timer_fires_once(s: LoopState, reports: Seq<Ready>, source: usize)
    requires
        s.registered(source),
        s.sources[source] is Timer,
        s.sources[source].armed(),
        s.sources[source]->Timer_interval.is_zero(),
    ensures
        expiries(reports, source).len() == 0 ==> {
            &&& calls_of(s.iterate(reports).1, source) == Seq::<Call>::empty()
            &&& s.iterate(reports).0.sources[source] == s.sources[source]
        },
        expiries(reports, source).len() > 0 ==> {
            &&& calls_of(s.iterate(reports).1, source) == seq![expiries(reports, source)[0]]
            &&& s.iterate(reports).0.sources[source] is Timer
            &&& !s.iterate(reports).0.sources[source].armed()
        },
{
    law_iterate_is_local(s, reports, source);
    lemma_run_one_shot(s.sources[source], reports, source);
}

/// A timer that is disarmed, be it from the start, by a zero value or by
/// the expiry of a single shot, never fires, and no round arms it.
pub proof fn law_disarmed_timer_never_fires(s: LoopState, reports: Seq<Ready>, source: usize)
    requires
        s.registered(source),
        s.sources[source] is Timer,
        !s.sources[source].armed(),
    ensures
        calls_of(s.iterate(reports).1, source) == Seq::<Call>::empty(),
        s.iterate(reports).0.sources[source] == s.sources[source],
{
    law_iterate_is_local(s, reports, source);
    lemma_run_quiet(s.sources[source], reports, source);
}

/// A timer that was armed with an interval fires at every expiry that is
/// reported, each time with the expirations of that report, and stays armed
/// with the same setting.
pub proof fn law_periodic_timer_keeps_firing(s: LoopState, reports: Seq<Ready>, source: usize)
    requires
        s.registered(source),
        s.sources[source] is Timer,
        s.sources[source].armed(),
        !s.sources[source]->Timer_interval.is_zero(),
    ensures
        calls_of(s.iterate(reports).1, source) == expiries(reports, source),
        s.iterate(reports).0.sources[source] == s.sources[source],
{
    law_iterate_is_local(s, reports, source);
    lemma_run_periodic(s.sources[source], reports, source);
}

/// Signals that the native loop accepted are counted, one by one, up to
/// `u64::MAX`; nothing else in the loop changes.
pub proof fn law_signals_are_counted(s: LoopState, source: usize, results: Seq<i32>)
    requires
        s.registered(source),
        s.sources[source] is Event,
        forall|i: int| 0 <= i < results.len() ==> accepted(#[trigger] results[i]),
    ensures
        signal_all(s, source, results) == s.with_state(
            source,
            SourceState::Event {
                pending: if s.sources[source]->pending + results.len() <= u64::MAX {
                    (s.sources[source]->pending + results.len()) as u64
                } else {
                    u64::MAX
                },
            },
        ),
    decreases results.len(),
{
    if results.len() == 0 {
        assert(s.with_state(source, s.sources[source]).sources =~= s.sources);
    } else {
        let next = s.signal_event(source, results.first());
        assert(accepted(results[0]));
        assert forall|i: int| 0 <= i < results.drop_first().len() implies accepted(
            #[trigger] results.drop_first()[i],
        ) by {
            assert(results.drop_first()[i] == results[i + 1]);
        }
        law_signals_are_counted(next, source, results.drop_first());
        let last = signal_all(next, source, results.drop_first());
        let want = s.with_state(
            source,
            SourceState::Event {
                pending: if s.sources[source]->pending + results.len() <= u64::MAX {
                    (s.sources[source]->pending + results.len()) as u64
                } else {
                    u64::MAX
                },
            },
        );
        assert(last.sources =~= want.sources);
    }
}

/// An event with signals pending fires exactly once in a round that reports
/// it, however often it is reported, and the call carries the number of the
/// signals. After that none is pending. A round that does not report it
/// leaves the signals pending.
pub proof fn law_pending_event_fires_once(s: LoopState, reports: Seq<Ready>, source: usize)
    requires
        s.registered(source),
        s.sources[source] is Event,
        s.sources[source]->pending > 0,
    ensures
        count_of(reports, Ready { source, report: Report::Event }) == 0 ==> {
            &&& calls_of(s.iterate(reports).1, source) == Seq::<Call>::empty()
            &&& s.iterate(reports).0.sources[source] == s.sources[source]
        },
        count_of(reports, Ready { source, report: Report::Event }) > 0 ==> {
            &&& calls_of(s.iterate(reports).1, source) == seq![
                Call::Event { count: s.sources[source]->pending },
            ]
            &&& s.iterate(reports).0.sources[source] == (SourceState::Event { pending: 0 })
        },
{
    law_iterate_is_local(s, reports, source);
    lemma_run_event(s.sources[source]->pending, reports, source);
}

/// An event that nobody signalled does not fire.
pub proof fn law_unsignalled_event_never_fires(s: LoopState, reports: Seq<Ready>, source: usize)
    requires
        s.registered(source),
        s.sources[source] == (SourceState::Event { pending: 0 }),
    ensures
        calls_of(s.iterate(reports).1, source) == Seq::<Call>::empty(),
        s.iterate(reports).0.sources[source] == s.sources[source],
{
    law_iterate_is_local(s, reports, source);
    lemma_run_quiet(s.sources[source], reports, source);
}

/// Signalling an event `results.len()` times between two rounds, each time
/// accepted by the native loop, leads to exactly one call in the next round
/// that reports the event, and the call carries that number.
pub proof fn law_signals_merge_into_one_call(
    s: LoopState,
    source: usize,
    results: Seq<i32>,
    reports: Seq<Ready>,
)
    requires
        s.registered(source),
        s.sources[source] == (SourceState::Event { pending: 0 }),
        0 < results.len() <= u64::MAX,
        forall|i: int| 0 <= i < results.len() ==> accepted(#[trigger] results[i]),
        count_of(reports, Ready { source, report: Report::Event }) > 0,
    ensures
        calls_of(signal_all(s, source, results).iterate(reports).1, source) == seq![
            Call::Event { count: results.len() as u64 },
        ],
        signal_all(s, source, results).iterate(reports).0.sources[source] == (SourceState::Event {
            pending: 0,
        }),
{
    law_signals_are_counted(s, source, results);
    law_pending_event_fires_once(signal_all(s, source, results), reports, source);
}

/// After a source was destroyed its handle is not registered, and no round
/// leads to a call of its callback, whatever is reported.
pub proof fn law_destroyed_source_never_fires(s: LoopState, reports: Seq<Ready>, source: usize)
    ensures
        !s.destroy_source(source).registered(source),
        calls_of(s.destroy_source(source).iterate(reports).1, source) == Seq::<Call>::empty(),
        !s.destroy_source(source).iterate(reports).0.registered(source),
{
    law_iterate_is_local(s.destroy_source(source), reports, source);
}

/// Destroying a source leaves every other source as it was.
pub proof fn law_destroy_leaves_others(s: LoopState, source: usize, other: usize)
    requires
        other != source,
    ensures
        s.destroy_source(source).registered(other) == s.registered(other),
        s.registered(other) ==> s.destroy_source(source).sources[other] == s.sources[other],
{
}

/// An I/O source is owed one call for each report of readiness, and a
/// signal source one for each report of its signal.
pub proof fn law_io_and_signal_fire_per_report(s: LoopState, reports: Seq<Ready>, source: usize)
    requires
        s.registered(source),
        s.sources[source] is Io || s.sources[source] is Signal,
    ensures
        s.sources[source] is Io ==> calls_of(s.iterate(reports).1, source) == Seq::new(
            count_of(reports, Ready { source, report: Report::Io }),
            |i: int| Call::Io,
        ),
        s.sources[source] is Signal ==> calls_of(s.iterate(reports).1, source) == Seq::new(
            count_of(reports, Ready { source, report: Report::Signal }),
            |i: int| Call::Signal,
        ),
        s.iterate(reports).0.sources[source] == s.sources[source],
{
    law_iterate_is_local(s, reports, source);
    if s.sources[source] is Io {
        lemma_run_plain(s.sources[source], Report::Io, Call::Io, reports, source);
    } else {
        lemma_run_plain(s.sources[source], Report::Signal, Call::Signal, reports, source);
    }
}

/// Two rounds in a row come to the same as one round with the reports of
/// both.
pub proof fn law_rounds_compose(s: LoopState, first: Seq<Ready>, second: Seq<Ready>)
    ensures
        s.iterate(first + second) == (
            s.iterate(first).0.iterate(second).0,
            s.iterate(first).1 + s.iterate(first).0.iterate(second).1,
        ),
    decreases first.len(),
{
    if first.len() == 0 {
        assert(first + second =~= second);
        assert(Seq::<Dispatch>::empty() + s.iterate(second).1 =~= s.iterate(second).1);
    } else {
        let all = first + second;
        assert(all.first() == first.first());
        assert(all.drop_first() =~= first.drop_first() + second);
        let (next, owed) = s.dispatch(first.first());
        law_rounds_compose(next, first.drop_first(), second);
        let a = next.iterate(first.drop_first());
        let b = a.0.iterate(second);
        match owed {
            Some(d) => {
                assert(seq![d] + (a.1 + b.1) =~= (seq![d] + a.1) + b.1);
            },
            None => {},
        }
    }
}

} // verus!
