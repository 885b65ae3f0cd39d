use pipewire::error::Error;
use pipewire::flags::IoFlags;
use pipewire::loop_::{IsLoop, IsSource, Loop};
use pipewire::source::{Call, Report, SourceState};
use pipewire::state::{Dispatch, RawLoop, Ready};
use pipewire::time::Timespec;
use signal::Signal;

fn ready(source: usize, report: Report) -> Ready {
    Ready { source, report }
}

fn owed(source: usize, call: Call) -> Dispatch {
    Dispatch { source, call }
}

fn new_loop() -> Loop {
    Loop::new(RawLoop { ptr: 0x1000, fd: 5 }).unwrap()
}

#[test]
fn idle_source_fires_once_per_iteration_until_disabled() {
    let mut owned = new_loop();
    let l = owned.as_loop_mut();
    let idle = l.add_idle(true, 0x2000);
    let reports = vec![ready(0x2000, Report::Idle)];
    let mut counter = 0;
    for _ in 0..3 {
        let (calls, count) = l.iterate(&reports);
        assert_eq!(calls, vec![owed(0x2000, Call::Idle)]);
        assert_eq!(count, 1);
        counter += calls.len();
    }
    assert_eq!(counter, 3);
    idle.enable(l, false);
    let (calls, count) = l.iterate(&reports);
    assert!(calls.is_empty());
    assert_eq!(count, 0);
    counter += calls.len();
    assert_eq!(counter, 3);
}

#[test]
fn disabled_idle_source_stays_silent_for_many_rounds() {
    let mut owned = new_loop();
    let l = owned.as_loop_mut();
    let idle = l.add_idle(true, 0x2000);
    idle.enable(l, false);
    for _ in 0..10 {
        let (calls, count) = l.iterate(&vec![ready(0x2000, Report::Idle), ready(0x2000, Report::Idle)]);
        assert!(calls.is_empty());
        assert_eq!(count, 0);
    }
    idle.enable(l, true);
    let (calls, _) = l.iterate(&vec![ready(0x2000, Report::Idle)]);
    assert_eq!(calls, vec![owed(0x2000, Call::Idle)]);
}

#[test]
fn idle_source_registered_disabled_does_not_fire() {
    let mut owned = new_loop();
    let l = owned.as_loop_mut();
    let _idle = l.add_idle(false, 0x2000);
    assert_eq!(l.state_of(0x2000), Some(SourceState::Idle { enabled: false }));
    assert_eq!(l.dispatch(ready(0x2000, Report::Idle)), None);
}

#[test]
fn one_shot_timer_fires_exactly_once() {
    let mut owned = new_loop();
    let l = owned.as_loop_mut();
    let timer = l.add_timer(0x3000);
    let value = Timespec { tv_sec: 0, tv_nsec: 50_000_000 };
    let zero = Timespec { tv_sec: 0, tv_nsec: 0 };
    let res = timer.update_timer(l, value, zero, 0);
    assert_eq!(res.code(), 0);
    assert_eq!(l.state_of(0x3000), Some(SourceState::Timer { value, interval: zero }));
    let (calls, count) = l.iterate(&vec![ready(0x3000, Report::Timer { expirations: 1 })]);
    assert_eq!(calls, vec![owed(0x3000, Call::Timer { expirations: 1 })]);
    assert_eq!(count, 1);
    assert_eq!(l.state_of(0x3000), Some(SourceState::Timer { value: zero, interval: zero }));
    let (calls, count) = l.iterate(&vec![
        ready(0x3000, Report::Timer { expirations: 1 }),
        ready(0x3000, Report::Timer { expirations: 4 }),
    ]);
    assert!(calls.is_empty());
    assert_eq!(count, 0);
}

#[test]
fn one_shot_timer_reported_twice_in_a_round_fires_once() {
    let mut owned = new_loop();
    let l = owned.as_loop_mut();
    let timer = l.add_timer(0x3000);
    let zero = Timespec { tv_sec: 0, tv_nsec: 0 };
    timer.update_timer(l, Timespec { tv_sec: 1, tv_nsec: 0 }, zero, 0);
    let (calls, _) = l.iterate(&vec![
        ready(0x3000, Report::Timer { expirations: 2 }),
        ready(0x3000, Report::Timer { expirations: 9 }),
    ]);
    assert_eq!(calls, vec![owed(0x3000, Call::Timer { expirations: 2 })]);
}

#[test]
fn periodic_timer_fires_until_disarmed() {
    let mut owned = new_loop();
    let l = owned.as_loop_mut();
    let timer = l.add_timer(0x3000);
    let value = Timespec { tv_sec: 0, tv_nsec: 50_000_000 };
    let interval = Timespec { tv_sec: 0, tv_nsec: 10_000_000 };
    let zero = Timespec { tv_sec: 0, tv_nsec: 0 };
    timer.update_timer(l, value, interval, 0);
    for n in 1..5u64 {
        let (calls, _) = l.iterate(&vec![ready(0x3000, Report::Timer { expirations: n })]);
        assert_eq!(calls, vec![owed(0x3000, Call::Timer { expirations: n })]);
        assert_eq!(l.state_of(0x3000), Some(SourceState::Timer { value, interval }));
    }
    timer.update_timer(l, zero, interval, 0);
    let (calls, _) = l.iterate(&vec![ready(0x3000, Report::Timer { expirations: 1 })]);
    assert!(calls.is_empty());
}

#[test]
fn periodic_timer_stops_when_dropped() {
    let mut owned = new_loop();
    let l = owned.as_loop_mut();
    let timer = l.add_timer(0x3000);
    timer.update_timer(l, Timespec { tv_sec: 1, tv_nsec: 0 }, Timespec { tv_sec: 1, tv_nsec: 0 }, 0);
    assert_eq!(
        l.dispatch(ready(0x3000, Report::Timer { expirations: 1 })),
        Some(owed(0x3000, Call::Timer { expirations: 1 }))
    );
    l.destroy_source(timer);
    assert_eq!(l.dispatch(ready(0x3000, Report::Timer { expirations: 1 })), None);
}

#[test]
fn timer_starts_disarmed() {
    let mut owned = new_loop();
    let l = owned.as_loop_mut();
    let _timer = l.add_timer(0x3000);
    let zero = Timespec { tv_sec: 0, tv_nsec: 0 };
    assert_eq!(l.state_of(0x3000), Some(SourceState::Timer { value: zero, interval: zero }));
    assert_eq!(l.dispatch(ready(0x3000, Report::Timer { expirations: 1 })), None);
}

#[test]
fn refused_timer_setting_changes_nothing() {
    let mut owned = new_loop();
    let l = owned.as_loop_mut();
    let timer = l.add_timer(0x3000);
    let zero = Timespec { tv_sec: 0, tv_nsec: 0 };
    let res = timer.update_timer(l, Timespec { tv_sec: 1, tv_nsec: 0 }, zero, -22);
    assert_eq!(res.code(), -22);
    assert!(!res.is_ok());
    assert_eq!(l.state_of(0x3000), Some(SourceState::Timer { value: zero, interval: zero }));
    assert_eq!(l.dispatch(ready(0x3000, Report::Timer { expirations: 1 })), None);
}

#[test]
fn signals_between_rounds_merge_into_one_call() {
    let mut owned = new_loop();
    let l = owned.as_loop_mut();
    let event = l.add_event(0x4000);
    for _ in 0..7 {
        let res = event.signal(l, 0);
        assert!(res.is_ok());
        assert_eq!(res.code(), 0);
    }
    assert_eq!(l.state_of(0x4000), Some(SourceState::Event { pending: 7 }));
    let (calls, count) = l.iterate(&vec![ready(0x4000, Report::Event)]);
    assert_eq!(calls, vec![owed(0x4000, Call::Event { count: 7 })]);
    assert_eq!(count, 1);
    let (calls, count) = l.iterate(&vec![ready(0x4000, Report::Event)]);
    assert!(calls.is_empty());
    assert_eq!(count, 0);
}

#[test]
fn event_that_was_not_signalled_does_not_fire() {
    let mut owned = new_loop();
    let l = owned.as_loop_mut();
    let _event = l.add_event(0x4000);
    assert_eq!(l.dispatch(ready(0x4000, Report::Event)), None);
}

#[test]
fn refused_signal_is_not_counted_and_comes_back_as_it_was() {
    let mut owned = new_loop();
    let l = owned.as_loop_mut();
    let event = l.add_event(0x4000);
    let res = event.signal(l, -9);
    assert_eq!(res.code(), -9);
    assert!(!res.is_ok());
    assert_eq!(l.state_of(0x4000), Some(SourceState::Event { pending: 0 }));
    let res = event.signal(l, 3);
    assert_eq!(res.code(), 3);
    assert_eq!(l.state_of(0x4000), Some(SourceState::Event { pending: 1 }));
}

#[test]
fn dropped_source_receives_nothing() {
    let mut owned = new_loop();
    let l = owned.as_loop_mut();
    let idle = l.add_idle(true, 0x2000);
    let event = l.add_event(0x4000);
    event.signal(l, 0);
    assert!(l.is_registered(0x2000));
    l.destroy_source(idle);
    assert!(!l.is_registered(0x2000));
    assert_eq!(l.state_of(0x2000), None);
    let (calls, count) = l.iterate(&vec![ready(0x2000, Report::Idle), ready(0x4000, Report::Event)]);
    assert_eq!(calls, vec![owed(0x4000, Call::Event { count: 1 })]);
    assert_eq!(count, 1);
    assert_eq!(l.sources(), vec![0x4000]);
}

#[test]
fn handle_of_a_dropped_source_can_be_registered_again() {
    let mut owned = new_loop();
    let l = owned.as_loop_mut();
    let idle = l.add_idle(true, 0x2000);
    assert!(!l.accepts(0x2000));
    l.destroy_source(idle);
    assert!(l.accepts(0x2000));
    let _event = l.add_event(0x2000);
    assert_eq!(l.state_of(0x2000), Some(SourceState::Event { pending: 0 }));
}

#[test]
fn io_callback_gets_the_object_that_was_registered() {
    let mut owned = new_loop();
    let l = owned.as_loop_mut();
    let mut io = l.add_io(vec![1u8, 2, 3], 9, IoFlags::input(), 0x5000);
    assert_eq!(io.as_ptr(), 0x5000);
    assert_eq!(io.get_ref(), &vec![1u8, 2, 3]);
    assert_eq!(
        l.state_of(0x5000),
        Some(SourceState::Io { fd: 9, mask: IoFlags::input() })
    );
    assert_eq!(l.dispatch(ready(0x5000, Report::Io)), Some(owed(0x5000, Call::Io)));
    io.get_mut().push(4);
    assert_eq!(l.dispatch(ready(0x5000, Report::Io)), Some(owed(0x5000, Call::Io)));
    io.get_mut().push(5);
    assert_eq!(io.get_ref(), &vec![1u8, 2, 3, 4, 5]);
    assert_eq!(io.as_ptr(), 0x5000);
}

#[test]
fn signal_source_fires_for_each_report() {
    let mut owned = new_loop();
    let l = owned.as_loop_mut();
    l.enter(42);
    assert!(l.entered_by(42));
    let sig = l.add_signal_local(Signal::SIGTERM, 42, 0x6000);
    assert_eq!(sig.as_ptr(), 0x6000);
    assert_eq!(l.state_of(0x6000), Some(SourceState::Signal { signal: Signal::SIGTERM }));
    let (calls, count) = l.iterate(&vec![ready(0x6000, Report::Signal), ready(0x6000, Report::Signal)]);
    assert_eq!(calls, vec![owed(0x6000, Call::Signal), owed(0x6000, Call::Signal)]);
    assert_eq!(count, 2);
}

#[test]
fn thread_that_entered_last_is_on_record() {
    let mut owned = new_loop();
    let l = owned.as_loop_mut();
    assert_eq!(l.owner(), None);
    assert!(!l.entered_by(1));
    l.enter(1);
    assert_eq!(l.owner(), Some(1));
    assert!(l.entered_by(1));
    assert!(!l.entered_by(2));
    l.leave();
    assert_eq!(l.owner(), None);
    assert!(l.entered_by(1));
    l.enter(2);
    assert!(l.entered_by(2));
    assert!(!l.entered_by(1));
}

#[test]
fn report_of_another_kind_leads_to_nothing() {
    let mut owned = new_loop();
    let l = owned.as_loop_mut();
    let _idle = l.add_idle(true, 0x2000);
    let event = l.add_event(0x4000);
    event.signal(l, 0);
    assert_eq!(l.dispatch(ready(0x2000, Report::Event)), None);
    assert_eq!(l.dispatch(ready(0x2000, Report::Timer { expirations: 1 })), None);
    assert_eq!(l.dispatch(ready(0x4000, Report::Idle)), None);
    assert_eq!(l.state_of(0x4000), Some(SourceState::Event { pending: 1 }));
}

#[test]
fn calls_come_out_in_the_order_of_the_reports() {
    let mut owned = new_loop();
    let l = owned.as_loop_mut();
    let _idle = l.add_idle(true, 0x2000);
    let timer = l.add_timer(0x3000);
    let event = l.add_event(0x4000);
    timer.update_timer(l, Timespec { tv_sec: 1, tv_nsec: 0 }, Timespec { tv_sec: 1, tv_nsec: 0 }, 0);
    event.signal(l, 0);
    event.signal(l, 0);
    let (calls, count) = l.iterate(&vec![
        ready(0x4000, Report::Event),
        ready(0x7777, Report::Idle),
        ready(0x3000, Report::Timer { expirations: 3 }),
        ready(0x2000, Report::Idle),
        ready(0x4000, Report::Event),
    ]);
    assert_eq!(
        calls,
        vec![
            owed(0x4000, Call::Event { count: 2 }),
            owed(0x3000, Call::Timer { expirations: 3 }),
            owed(0x2000, Call::Idle),
        ]
    );
    assert_eq!(count, 3);
}

#[test]
fn empty_round_owes_nothing() {
    let mut owned = new_loop();
    let l = owned.as_loop_mut();
    let _idle = l.add_idle(true, 0x2000);
    let (calls, count) = l.iterate(&Vec::new());
    assert!(calls.is_empty());
    assert_eq!(count, 0);
}

#[test]
fn loop_without_native_loop_cannot_be_made() {
    assert!(matches!(Loop::new(RawLoop { ptr: 0, fd: -1 }), Err(Error::CreationFailed)));
}

#[test]
fn loop_keeps_its_descriptor() {
    let mut owned = Loop::from_raw(RawLoop { ptr: 0x1000, fd: 5 });
    assert_eq!(owned.as_loop().fd(), 5);
    assert_eq!(owned.as_loop().as_ptr(), 0x1000);
    assert_eq!(*owned.as_loop().as_raw(), RawLoop { ptr: 0x1000, fd: 5 });
    let l = owned.as_loop_mut();
    let idle = l.add_idle(true, 0x2000);
    l.enter(1);
    l.iterate(&vec![ready(0x2000, Report::Idle)]);
    l.leave();
    l.destroy_source(idle);
    assert_eq!(l.fd(), 5);
    assert_eq!(owned.into_raw(), RawLoop { ptr: 0x1000, fd: 5 });
}

#[test]
fn ending_a_loop_names_the_sources_that_are_left() {
    let mut owned = new_loop();
    let l = owned.as_loop_mut();
    let _a = l.add_idle(true, 0x2000);
    let b = l.add_event(0x4000);
    let _c = l.add_timer(0x3000);
    l.destroy_source(b);
    let (left, raw) = owned.destroy();
    assert_eq!(left, vec![0x2000, 0x3000]);
    assert_eq!(raw, RawLoop { ptr: 0x1000, fd: 5 });
}

#[test]
fn null_and_taken_handles_are_not_accepted() {
    let mut owned = new_loop();
    let l = owned.as_loop_mut();
    assert!(!l.accepts(0));
    assert!(l.accepts(0x2000));
    let _idle = l.add_idle(true, 0x2000);
    assert!(!l.accepts(0x2000));
    assert!(l.accepts(0x2001));
}

#[test]
fn pending_signals_stop_counting_at_the_largest_number() {
    assert_eq!(
        SourceState::Event { pending: u64::MAX - 1 }.react(Report::Event),
        (SourceState::Event { pending: 0 }, Some(Call::Event { count: u64::MAX - 1 }))
    );
}

#[test]
fn two_rounds_come_to_one_round_with_the_reports_of_both() {
    let first = vec![ready(0x4000, Report::Event), ready(0x2000, Report::Idle)];
    let second = vec![ready(0x3000, Report::Timer { expirations: 2 }), ready(0x4000, Report::Event)];
    let build = || {
        let mut owned = new_loop();
        let l = owned.as_loop_mut();
        let _idle = l.add_idle(true, 0x2000);
        let timer = l.add_timer(0x3000);
        let event = l.add_event(0x4000);
        timer.update_timer(l, Timespec { tv_sec: 1, tv_nsec: 0 }, Timespec { tv_sec: 0, tv_nsec: 0 }, 0);
        event.signal(l, 0);
        owned
    };
    let mut split = build();
    let (mut calls, a) = split.as_loop_mut().iterate(&first);
    let (more, b) = split.as_loop_mut().iterate(&second);
    calls.extend(more);
    let mut joined = build();
    let all: Vec<Ready> = first.iter().chain(second.iter()).copied().collect();
    let (together, c) = joined.as_loop_mut().iterate(&all);
    assert_eq!(calls, together);
    assert_eq!(a + b, c);
    assert_eq!(
        together,
        vec![
            owed(0x4000, Call::Event { count: 1 }),
            owed(0x2000, Call::Idle),
            owed(0x3000, Call::Timer { expirations: 2 }),
        ]
    );
    for source in [0x2000usize, 0x3000, 0x4000] {
        assert_eq!(split.as_loop().state_of(source), joined.as_loop().state_of(source));
    }
}
