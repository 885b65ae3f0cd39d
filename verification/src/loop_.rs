//! The loop and its sources.
//!
//! A [`LoopRef`] keeps, for one native loop, the table of the sources that
//! are registered with it. The embedding code makes each native call itself
//! and hands the outcome over: the handle that a registration returned, the
//! result code of a request, the readiness reports of an iteration. What the
//! table then holds, and which callbacks are owed, is decided here.

use crate::error::Error;
use crate::flags::IoFlags;
use crate::result::SpaResult;
use crate::source::SourceState;
use crate::state::{Dispatch, LoopState, RawLoop, Ready};
use crate::time::{duration_secs, duration_subsec_nanos, duration_to_timespec, timespec_of, Timespec};
use signal::Signal;
use std::time::Duration;
use vstd::prelude::*;

verus! {

/// One row of the table: a native handle and the state of its source.
struct Entry {
    ptr: usize,
    state: SourceState,
}

/// No row has the null handle and no two rows have the same handle.
spec fn table_wf(table: Seq<Entry>) -> bool {
    &&& forall|i: int| 0 <= i < table.len() ==> (#[trigger] table[i]).ptr != 0
    &&& forall|i: int, j: int|
        0 <= i < j < table.len() ==> (#[trigger] table[i]).ptr != (#[trigger] table[j]).ptr
}

/// Whether row `i` of `table` belongs to `ptr`.
spec fn row_of(table: Seq<Entry>, ptr: usize, i: int) -> bool {
    0 <= i < table.len() && table[i].ptr == ptr
}

/// The table as a map from handle to state.
spec fn table_sources(table: Seq<Entry>) -> Map<usize, SourceState> {
    Map::new(
        |p: usize| exists|i: int| #[trigger] row_of(table, p, i),
        |p: usize| table[choose|i: int| #[trigger] row_of(table, p, i)].state,
    )
}

/// The handles of the table, row by row.
spec fn table_order(table: Seq<Entry>) -> Seq<usize> {
    Seq::new(table.len(), |i: int| table[i].ptr)
}

/// A row is found under its handle.
proof fn lemma_row(table: Seq<Entry>, i: int)
    requires
        table_wf(table),
        0 <= i < table.len(),
    ensures
        table_sources(table).dom().contains(table[i].ptr),
        table_sources(table)[table[i].ptr] == table[i].state,
        table_order(table).index_of(table[i].ptr) == i,
{
    let p = table[i].ptr;
    assert(row_of(table, p, i));
    let j = choose|j: int| #[trigger] row_of(table, p, j);
    assert(j == i);
    let order = table_order(table);
    assert(order[i] == p);
    let k = order.index_of(p);
    assert(0 <= k < order.len() && order[k] == p);
    assert(row_of(table, p, k));
    assert(k == i);
}

/// A handle without a row is not in the map.
proof fn lemma_absent(table: Seq<Entry>, ptr: usize)
    requires
        forall|i: int| 0 <= i < table.len() ==> (#[trigger] table[i]).ptr != ptr,
    ensures
        !table_sources(table).dom().contains(ptr),
{
    assert forall|i: int| !#[trigger] row_of(table, ptr, i) by {
        if 0 <= i < table.len() {
            assert(table[i].ptr != ptr);
        }
    }
}

/// The model of a well-formed table is well formed.
proof fn lemma_table_model(table: Seq<Entry>)
    requires
        table_wf(table),
    ensures
        !table_sources(table).dom().contains(0),
        table_order(table).no_duplicates(),
        forall|p: usize|
            table_sources(table).dom().contains(p) <==> table_order(table).contains(p),
{
    let order = table_order(table);
    lemma_absent(table, 0);
    assert forall|p: usize| table_sources(table).dom().contains(p) <==> order.contains(p) by {
        if table_sources(table).dom().contains(p) {
            let i = choose|i: int| #[trigger] row_of(table, p, i);
            assert(order[i] == p);
        }
        if order.contains(p) {
            let i = choose|i: int| 0 <= i < order.len() && order[i] == p;
            assert(row_of(table, p, i));
        }
    }
}

/// Appending a row with a new handle registers it last.
proof fn lemma_push(table: Seq<Entry>, entry: Entry)
    requires
        table_wf(table),
        entry.ptr != 0,
        !table_sources(table).dom().contains(entry.ptr),
    ensures
        table_wf(table.push(entry)),
        table_sources(table.push(entry)) == table_sources(table).insert(entry.ptr, entry.state),
        table_order(table.push(entry)) == table_order(table).push(entry.ptr),
{
    let after = table.push(entry);
    assert forall|i: int| 0 <= i < table.len() implies (#[trigger] table[i]).ptr != entry.ptr by {
        assert(row_of(table, table[i].ptr, i));
    }
    assert(table_wf(after));
    assert(table_order(after) =~= table_order(table).push(entry.ptr));
    let want = table_sources(table).insert(entry.ptr, entry.state);
    assert forall|p: usize| table_sources(after).dom().contains(p) <==> want.dom().contains(p) by {
        if table_sources(after).dom().contains(p) {
            let i = choose|i: int| #[trigger] row_of(after, p, i);
            if i < table.len() {
                assert(row_of(table, p, i));
            }
        }
        if want.dom().contains(p) {
            if p == entry.ptr {
                assert(row_of(after, p, table.len() as int));
            } else {
                let i = choose|i: int| #[trigger] row_of(table, p, i);
                assert(row_of(after, p, i));
            }
        }
    }
    assert forall|p: usize| table_sources(after).dom().contains(p) implies table_sources(after)[p]
        == want[p] by {
        let i = choose|i: int| #[trigger] row_of(after, p, i);
        lemma_row(after, i);
        if i < table.len() {
            lemma_row(table, i);
        }
    }
    assert(table_sources(after) =~= want);
}

/// Replacing the state in row `i` replaces it in the map.
proof fn lemma_update(table: Seq<Entry>, i: int, state: SourceState)
    requires
        table_wf(table),
        0 <= i < table.len(),
    ensures
        table_wf(table.update(i, Entry { ptr: table[i].ptr, state })),
        table_sources(table.update(i, Entry { ptr: table[i].ptr, state })) == table_sources(
            table,
        ).insert(table[i].ptr, state),
        table_order(table.update(i, Entry { ptr: table[i].ptr, state })) == table_order(table),
{
    let after = table.update(i, Entry { ptr: table[i].ptr, state });
    assert(table_wf(after));
    assert(table_order(after) =~= table_order(table));
    let want = table_sources(table).insert(table[i].ptr, state);
    assert forall|p: usize| table_sources(after).dom().contains(p) <==> want.dom().contains(p) by {
        if table_sources(after).dom().contains(p) {
            let k = choose|k: int| #[trigger] row_of(after, p, k);
            assert(row_of(table, p, k));
        }
        if want.dom().contains(p) {
            if p == table[i].ptr {
                assert(row_of(after, p, i));
            } else {
                let k = choose|k: int| #[trigger] row_of(table, p, k);
                assert(row_of(after, p, k));
            }
        }
    }
    assert forall|p: usize| table_sources(after).dom().contains(p) implies table_sources(after)[p]
        == want[p] by {
        let k = choose|k: int| #[trigger] row_of(after, p, k);
        lemma_row(after, k);
        lemma_row(table, k);
    }
    assert(table_sources(after) =~= want);
}

/// Taking out row `i` takes its handle out of the map and out of the order.
proof fn lemma_remove(table: Seq<Entry>, i: int)
    requires
        table_wf(table),
        0 <= i < table.len(),
    ensures
        table_wf(table.remove(i)),
        table_sources(table.remove(i)) == table_sources(table).remove(table[i].ptr),
        table_order(table.remove(i)) == table_order(table).remove(i),
{
    let after = table.remove(i);
    assert forall|a: int, b: int| 0 <= a < b < after.len() implies (#[trigger] after[a]).ptr != (
    #[trigger] after[b]).ptr by {
        let a0 = if a < i { a } else { a + 1 };
        let b0 = if b < i { b } else { b + 1 };
        assert(after[a] == table[a0]);
        assert(after[b] == table[b0]);
    }
    assert forall|a: int| 0 <= a < after.len() implies (#[trigger] after[a]).ptr != 0 by {
        let a0 = if a < i { a } else { a + 1 };
        assert(after[a] == table[a0]);
    }
    assert(table_order(after) =~= table_order(table).remove(i));
    let want = table_sources(table).remove(table[i].ptr);
    assert forall|p: usize| table_sources(after).dom().contains(p) <==> want.dom().contains(p) by {
        if table_sources(after).dom().contains(p) {
            let k = choose|k: int| #[trigger] row_of(after, p, k);
            let k0 = if k < i { k } else { k + 1 };
            assert(after[k] == table[k0]);
            assert(row_of(table, p, k0));
            assert(table[k0].ptr != table[i].ptr);
        }
        if want.dom().contains(p) {
            let k0 = choose|k: int| #[trigger] row_of(table, p, k);
            assert(k0 != i);
            let k = if k0 < i { k0 } else { k0 - 1 };
            assert(after[k] == table[k0]);
            assert(row_of(after, p, k));
        }
    }
    assert forall|p: usize| table_sources(after).dom().contains(p) implies table_sources(after)[p]
        == want[p] by {
        let k = choose|k: int| #[trigger] row_of(after, p, k);
        let k0 = if k < i { k } else { k + 1 };
        assert(after[k] == table[k0]);
        lemma_row(after, k);
        lemma_row(table, k0);
    }
    assert(table_sources(after) =~= want);
}

/// The control surface of one native loop, with the table of its sources.
pub struct LoopRef {
    raw: RawLoop,
    owner: Option<u64>,
    last_entered: Option<u64>,
    table: Vec<Entry>,
}

impl LoopRef {
    /// The invariant of the table: the native loop exists, and the rows have
    /// distinct handles, none of them null.
    pub closed spec fn wf(&self) -> bool {
        self.raw.ptr != 0 && table_wf(self.table@)
    }

    /// The loop as contracts see it.
    pub closed spec fn view(&self) -> LoopState {
        LoopState {
            raw: self.raw,
            owner: self.owner,
            last_entered: self.last_entered,
            sources: table_sources(self.table@),
            order: table_order(self.table@),
        }
    }

    /// The model of a well-formed loop is well formed.
    pub proof fn lemma_view_wf(&self)
        requires
            self.wf(),
        ensures
            self@.wf(),
    {
        lemma_table_model(self.table@);
    }

    /// The native loop.
    pub fn as_raw(&self) -> (raw: &RawLoop)
        ensures
            *raw == self@.raw,
    {
        &self.raw
    }

    /// The address of the native loop.
    pub fn as_ptr(&self) -> (ptr: usize)
        ensures
            ptr == self@.raw.ptr,
    {
        self.raw.ptr
    }

    /// The descriptor that stands for this loop in an outside poll. It is
    /// the one the loop was made with: no operation changes it.
    pub fn fd(&self) -> (fd: i32)
        ensures
            fd == self@.raw.fd,
    {
        self.raw.fd
    }

    /// Records that `thread` starts an iteration.
    pub fn enter(&mut self, thread: u64)
        requires
            old(self).wf(),
        ensures
            final(self).wf(),
            final(self)@ == old(self)@.enter(thread),
    {
        self.owner = Some(thread);
        self.last_entered = Some(thread);
    }

    /// Records that the iteration ended. The thread that entered last stays
    /// on record.
    pub fn leave(&mut self)
        requires
            old(self).wf(),
        ensures
            final(self).wf(),
            final(self)@ == old(self)@.leave(),
    {
        self.owner = None;
    }

    /// The thread that is between `enter` and `leave`, if one is.
    pub fn owner(&self) -> (owner: Option<u64>)
        ensures
            owner == self@.owner,
    {
        self.owner
    }

    /// Whether `thread` is the one that last entered this loop.
    pub fn entered_by(&self, thread: u64) -> (yes: bool)
        ensures
            yes == (self@.last_entered == Some(thread)),
    {
        match self.last_entered {
            Some(t) => t == thread,
            None => false,
        }
    }

    /// The row of `source`, if it has one.
    fn find(&self, source: usize) -> (row: Option<usize>)
        requires
            self.wf(),
        ensures
            match row {
                Some(i) => i < self.table@.len() && self.table@[i as int].ptr == source
                    && self@.registered(source),
                None => !self@.registered(source),
            },
    {
        let mut i: usize = 0;
        while i < self.table.len()
            invariant
                i <= self.table@.len(),
                self.wf(),
                forall|k: int| 0 <= k < i ==> (#[trigger] self.table@[k]).ptr != source,
            decreases self.table@.len() - i,
        {
            if self.table[i].ptr == source {
                proof {
                    lemma_row(self.table@, i as int);
                }
                return Some(i);
            }
            i = i + 1;
        }
        proof {
            lemma_absent(self.table@, source);
        }
        None
    }

    /// Whether `source` is registered with this loop.
    pub fn is_registered(&self, source: usize) -> (yes: bool)
        requires
            self.wf(),
        ensures
            yes == self@.registered(source),
    {
        self.find(source).is_some()
    }

    /// Whether `source` can be the handle of a new registration.
    pub fn accepts(&self, source: usize) -> (yes: bool)
        requires
            self.wf(),
        ensures
            yes == self@.accepts(source),
    {
        source != 0 && self.find(source).is_none()
    }

    /// The state on record for `source`; `None` exactly when it is not
    /// registered.
    pub fn state_of(&self, source: usize) -> (state: Option<SourceState>)
        requires
            self.wf(),
        ensures
            state == if self@.registered(source) {
                Some(self@.sources[source])
            } else {
                None
            },
    {
        match self.find(source) {
            Some(i) => {
                proof {
                    lemma_row(self.table@, i as int);
                }
                Some(self.table[i].state)
            },
            None => None,
        }
    }

    /// Enters `source` into the table in `state`.
    fn register(&mut self, source: usize, state: SourceState)
        requires
            old(self).wf(),
            old(self)@.accepts(source),
        ensures
            final(self).wf(),
            final(self)@ == old(self)@.register(source, state),
    {
        proof {
            lemma_push(self.table@, Entry { ptr: source, state });
        }
        self.table.push(Entry { ptr: source, state });
    }

    /// Replaces the state in row `row`.
    fn set_state(&mut self, row: usize, state: SourceState)
        requires
            old(self).wf(),
            row < old(self).table@.len(),
        ensures
            final(self).wf(),
            final(self)@ == old(self)@.with_state(old(self).table@[row as int].ptr, state),
    {
        let ptr: usize = self.table[row].ptr;
        proof {
            lemma_update(self.table@, row as int, state);
        }
        self.table.set(row, Entry { ptr, state });
    }

    /// Registers an I/O source: `source` is the handle that the native loop
    /// returned for watching descriptor `fd` of `io` for `event_mask`.
    ///
    /// The returned source owns `io`, and its callback is given mutable
    /// access to that same object. The native loop is never asked to close
    /// the descriptor: that is left to `io` itself.
    #[must_use]
    pub fn add_io<I>(&mut self, io: I, fd: i32, event_mask: IoFlags, source: usize) -> (registered:
        IoSource<I>)
        requires
            old(self).wf(),
            old(self)@.accepts(source),
        ensures
            final(self).wf(),
            final(self)@ == old(self)@.register(source, SourceState::Io { fd, mask: event_mask }),
            registered.source() == source,
            registered.io() == io,
    {
        self.register(source, SourceState::Io { fd, mask: event_mask });
        IoSource { ptr: source, io }
    }

    /// Registers an idle source: `source` is the handle that the native loop
    /// returned. While enabled, its callback runs once for every idle report.
    #[must_use]
    pub fn add_idle(&mut self, enabled: bool, source: usize) -> (registered: IdleSource)
        requires
            old(self).wf(),
            old(self)@.accepts(source),
        ensures
            final(self).wf(),
            final(self)@ == old(self)@.register(source, SourceState::Idle { enabled }),
            registered.source() == source,
    {
        self.register(source, SourceState::Idle { enabled });
        IdleSource { ptr: source }
    }

    /// Registers a source for `signal`: `source` is the handle that the
    /// native loop returned. Signals may only be registered by the thread
    /// that last entered the loop; `thread` is the caller's.
    #[must_use]
    pub fn add_signal_local(&mut self, signal: Signal, thread: u64, source: usize) -> (registered:
        SignalSource)
        requires
            old(self).wf(),
            old(self)@.last_entered == Some(thread),
            old(self)@.accepts(source),
        ensures
            final(self).wf(),
            final(self)@ == old(self)@.register(source, SourceState::Signal { signal }),
            registered.source() == source,
    {
        self.register(source, SourceState::Signal { signal });
        SignalSource { ptr: source }
    }

    /// Registers an event source: `source` is the handle that the native
    /// loop returned. No signal is pending yet.
    #[must_use]
    pub fn add_event(&mut self, source: usize) -> (registered: EventSource)
        requires
            old(self).wf(),
            old(self)@.accepts(source),
        ensures
            final(self).wf(),
            final(self)@ == old(self)@.register(source, SourceState::Event { pending: 0 }),
            registered.source() == source,
    {
        self.register(source, SourceState::Event { pending: 0 });
        EventSource { ptr: source }
    }

    /// Registers a timer: `source` is the handle that the native loop
    /// returned. The timer starts out disarmed.
    #[must_use]
    pub fn add_timer(&mut self, source: usize) -> (registered: TimerSource)
        requires
            old(self).wf(),
            old(self)@.accepts(source),
        ensures
            final(self).wf(),
            final(self)@ == old(self)@.register(
                source,
                SourceState::Timer {
                    value: Timespec { tv_sec: 0, tv_nsec: 0 },
                    interval: Timespec { tv_sec: 0, tv_nsec: 0 },
                },
            ),
            registered.source() == source,
    {
        let zero = Timespec { tv_sec: 0, tv_nsec: 0 };
        self.register(source, SourceState::Timer { value: zero, interval: zero });
        TimerSource { ptr: source }
    }

    /// Removes the registration of `source` and gives the source up. From
    /// then on no report for its handle leads to a callback.
    pub fn destroy_source<S: IsSource>(&mut self, source: S)
        requires
            old(self).wf(),
        ensures
            final(self).wf(),
            final(self)@ == old(self)@.destroy_source(source.source()),
    {
        let ptr: usize = source.as_ptr();
        match self.find(ptr) {
            Some(i) => {
                proof {
                    lemma_row(self.table@, i as int);
                    lemma_remove(self.table@, i as int);
                }
                let _ = self.table.remove(i);
            },
            None => {},
        }
    }

    /// Decides what one readiness report leads to: the callback owed, if
    /// any, and what the table holds afterwards.
    pub fn dispatch(&mut self, ready: Ready) -> (owed: Option<Dispatch>)
        requires
            old(self).wf(),
        ensures
            final(self).wf(),
            (final(self)@, owed) == old(self)@.dispatch(ready),
    {
        match self.find(ready.source) {
            Some(i) => {
                proof {
                    lemma_row(self.table@, i as int);
                }
                let (state, call) = self.table[i].state.react(ready.report);
                self.set_state(i, state);
                match call {
                    Some(call) => Some(Dispatch { source: ready.source, call }),
                    None => None,
                }
            },
            None => None,
        }
    }

    /// Decides what a round of readiness reports leads to. The reports are
    /// taken in the order in which the native loop gave them; the callbacks
    /// owed come out in that order, with their number.
    pub fn iterate(&mut self, reports: &Vec<Ready>) -> (round: (Vec<Dispatch>, i32))
        requires
            old(self).wf(),
            reports@.len() <= i32::MAX,
        ensures
            final(self).wf(),
            (final(self)@, round.0@) == old(self)@.iterate(reports@),
            round.1 == round.0@.len(),
    {
        let mut owed: Vec<Dispatch> = Vec::new();
        let mut i: usize = 0;
        proof {
            assert(reports@.skip(0) =~= reports@);
        }
        while i < reports.len()
            invariant
                i <= reports@.len(),
                reports@.len() <= i32::MAX,
                self.wf(),
                owed@.len() <= i,
                old(self)@.iterate(reports@) == (
                    self@.iterate(reports@.skip(i as int)).0,
                    owed@ + self@.iterate(reports@.skip(i as int)).1,
                ),
            decreases reports@.len() - i,
        {
            let ghost before = self@;
            let ghost rest = reports@.skip(i as int);
            proof {
                assert(rest.first() == reports@[i as int]);
                assert(rest.drop_first() =~= reports@.skip(i + 1));
            }
            match self.dispatch(reports[i]) {
                Some(d) => {
                    proof {
                        let tail = self@.iterate(reports@.skip(i + 1)).1;
                        assert(owed@ + (seq![d] + tail) =~= owed@.push(d) + tail);
                    }
                    owed.push(d);
                },
                None => {},
            }
            i = i + 1;
        }
        proof {
            assert(reports@.skip(i as int) =~= Seq::<Ready>::empty());
            assert(owed@ + Seq::<Dispatch>::empty() =~= owed@);
        }
        let count: i32 = owed.len() as i32;
        (owed, count)
    }

    /// The handles of the registered sources, in the order of registration.
    pub fn sources(&self) -> (handles: Vec<usize>)
        requires
            self.wf(),
        ensures
            handles@ == self@.order,
    {
        let mut handles: Vec<usize> = Vec::new();
        let mut i: usize = 0;
        while i < self.table.len()
            invariant
                i <= self.table@.len(),
                handles@ == table_order(self.table@).take(i as int),
            decreases self.table@.len() - i,
        {
            handles.push(self.table[i].ptr);
            proof {
                assert(table_order(self.table@).take(i + 1) =~= table_order(self.table@).take(
                    i as int,
                ).push(self.table@[i as int].ptr));
            }
            i = i + 1;
        }
        proof {
            assert(table_order(self.table@).take(i as int) =~= table_order(self.table@));
        }
        handles
    }
}

/// What every source has: the handle under which the native loop knows it.
pub trait IsSource {
    /// The native handle of the source.
    spec fn source(&self) -> usize;

    /// The native handle of the source.
    fn as_ptr(&self) -> (ptr: usize)
        ensures
            ptr == self.source(),
    ;
}

/// A source that reacts to I/O on an object it owns.
pub struct IoSource<I> {
    ptr: usize,
    io: I,
}

impl<I> IoSource<I> {
    /// The watched object.
    pub closed spec fn io(&self) -> I {
        self.io
    }

    /// The watched object.
    pub fn get_ref(&self) -> (io: &I)
        ensures
            *io == self.io(),
    {
        &self.io
    }

    /// Mutable access to the watched object, for the callback: the object is
    /// the one that was given at registration, and the source keeps its
    /// handle.
    pub fn get_mut(&mut self) -> (io: &mut I)
        ensures
            *io == old(self).io(),
            final(self).io() == *final(io),
            final(self).source() == old(self).source(),
    {
        &mut self.io
    }
}

impl<I> IsSource for IoSource<I> {
    closed spec fn source(&self) -> usize {
        self.ptr
    }

    fn as_ptr(&self) -> (ptr: usize) {
        self.ptr
    }
}

/// A source whose callback runs whenever the loop is idle.
pub struct IdleSource {
    ptr: usize,
}

impl IdleSource {
    /// Records that the source was enabled or disabled. A disabled source is
    /// passed over by every report until it is enabled again.
    pub fn enable(&self, loop_: &mut LoopRef, enable: bool)
        requires
            old(loop_).wf(),
        ensures
            final(loop_).wf(),
            final(loop_)@ == old(loop_)@.enable_idle(self.source(), enable),
    {
        match loop_.find(self.ptr) {
            Some(i) => {
                proof {
                    lemma_row(loop_.table@, i as int);
                }
                match loop_.table[i].state {
                    SourceState::Idle { .. } => {
                        loop_.set_state(i, SourceState::Idle { enabled: enable });
                    },
                    _ => {},
                }
            },
            None => {},
        }
    }
}

impl IsSource for IdleSource {
    closed spec fn source(&self) -> usize {
        self.ptr
    }

    fn as_ptr(&self) -> (ptr: usize) {
        self.ptr
    }
}

/// A source whose callback runs when the process receives a signal.
pub struct SignalSource {
    ptr: usize,
}

impl IsSource for SignalSource {
    closed spec fn source(&self) -> usize {
        self.ptr
    }

    fn as_ptr(&self) -> (ptr: usize) {
        self.ptr
    }
}

/// A source that the program itself triggers.
pub struct EventSource {
    ptr: usize,
}

impl EventSource {
    /// Records the outcome of signalling the event: `res` is what the native
    /// loop answered, and it is returned as it came. Where the native loop
    /// accepted, one more signal is pending; the signals that gather before
    /// the next report are merged into one call that carries their number.
    pub fn signal(&self, loop_: &mut LoopRef, res: i32) -> (result: SpaResult)
        requires
            old(loop_).wf(),
        ensures
            final(loop_).wf(),
            final(loop_)@ == old(loop_)@.signal_event(self.source(), res),
            result@ == res,
    {
        if res >= 0 {
            match loop_.find(self.ptr) {
                Some(i) => {
                    proof {
                        lemma_row(loop_.table@, i as int);
                    }
                    match loop_.table[i].state {
                        SourceState::Event { pending } => {
                            let next: u64 = if pending < u64::MAX {
                                pending + 1
                            } else {
                                pending
                            };
                            loop_.set_state(i, SourceState::Event { pending: next });
                        },
                        _ => {},
                    }
                },
                None => {},
            }
        }
        SpaResult::from_c(res)
    }
}

impl IsSource for EventSource {
    closed spec fn source(&self) -> usize {
        self.ptr
    }

    fn as_ptr(&self) -> (ptr: usize) {
        self.ptr
    }
}

/// The native form of an optional duration: absent counts as zero.
pub open spec fn setting_of(duration: Option<Duration>) -> Option<Timespec> {
    match duration {
        Some(d) => timespec_of(duration_secs(d), duration_subsec_nanos(d)),
        None => Some(Timespec { tv_sec: 0, tv_nsec: 0 }),
    }
}

/// A source whose callback runs when its timer expires.
pub struct TimerSource {
    ptr: usize,
}

impl TimerSource {
    /// The native form of a timer setting: `value` is the delay to the first
    /// expiry, `interval` the period of the later ones, and an absent
    /// duration counts as zero. `None` exactly when the seconds of either
    /// exceed `i64::MAX`.
    pub fn setting(value: Option<Duration>, interval: Option<Duration>) -> (native: Option<
        (Timespec, Timespec),
    >)
        ensures
            native == match (setting_of(value), setting_of(interval)) {
                (Some(v), Some(i)) => Some((v, i)),
                _ => None,
            },
    {
        let v = match value {
            Some(d) => duration_to_timespec(d),
            None => Some(Timespec { tv_sec: 0, tv_nsec: 0 }),
        };
        let i = match interval {
            Some(d) => duration_to_timespec(d),
            None => Some(Timespec { tv_sec: 0, tv_nsec: 0 }),
        };
        match (v, i) {
            (Some(v), Some(i)) => Some((v, i)),
            _ => None,
        }
    }

    /// Records the outcome of arming or disarming the timer: `res` is what
    /// the native loop answered to the setting, and it is returned as it
    /// came. Where the native loop accepted, the timer has the new setting:
    /// a zero `value` disarms it, a zero `interval` makes it fire once.
    pub fn update_timer(&self, loop_: &mut LoopRef, value: Timespec, interval: Timespec, res: i32)
        -> (result: SpaResult)
        requires
            old(loop_).wf(),
        ensures
            final(loop_).wf(),
            final(loop_)@ == old(loop_)@.update_timer(self.source(), value, interval, res),
            result@ == res,
    {
        if res >= 0 {
            match loop_.find(self.ptr) {
                Some(i) => {
                    proof {
                        lemma_row(loop_.table@, i as int);
                    }
                    match loop_.table[i].state {
                        SourceState::Timer { .. } => {
                            loop_.set_state(i, SourceState::Timer { value, interval });
                        },
                        _ => {},
                    }
                },
                None => {},
            }
        }
        SpaResult::from_c(res)
    }
}

impl IsSource for TimerSource {
    closed spec fn source(&self) -> usize {
        self.ptr
    }

    fn as_ptr(&self) -> (ptr: usize) {
        self.ptr
    }
}

/// What can be used as a loop.
pub trait IsLoop {
    /// The loop behind this value.
    fn as_loop(&self) -> &LoopRef;
}

/// A loop that owns its native loop.
pub struct Loop {
    inner: LoopRef,
}

impl Loop {
    /// The loop inside.
    pub closed spec fn loop_ref(&self) -> LoopRef {
        self.inner
    }

    /// Whether the loop inside is well formed.
    pub open spec fn wf(&self) -> bool {
        self.loop_ref().wf()
    }

    /// The loop as contracts see it.
    pub open spec fn view(&self) -> LoopState {
        self.loop_ref()@
    }

    /// Takes ownership of a native loop that was made elsewhere.
    pub fn from_raw(raw: RawLoop) -> (owned: Loop)
        requires
            raw.ptr != 0,
        ensures
            owned.wf(),
            owned@ == LoopState::fresh(raw),
    {
        let owned = Loop {
            inner: LoopRef { raw, owner: None, last_entered: None, table: Vec::new() },
        };
        proof {
            assert(owned.inner@.sources =~= Map::<usize, SourceState>::empty());
            assert(owned.inner@.order =~= Seq::<usize>::empty());
        }
        owned
    }

    /// Makes a loop from what the native constructor returned: it fails
    /// exactly when that is the null handle.
    pub fn new(raw: RawLoop) -> (made: Result<Loop, Error>)
        ensures
            match made {
                Ok(owned) => raw.ptr != 0 && owned.wf() && owned@ == LoopState::fresh(raw),
                Err(e) => raw.ptr == 0 && e == Error::CreationFailed,
            },
    {
        if raw.ptr == 0 {
            Err(Error::CreationFailed)
        } else {
            Ok(Loop::from_raw(raw))
        }
    }

    /// Gives the native loop back to the caller, who from then on has to
    /// destroy it. Sources that are still registered stay with it.
    pub fn into_raw(self) -> (raw: RawLoop)
        ensures
            raw == self@.raw,
    {
        self.inner.raw
    }

    /// Ends the loop: returns the handles of the sources that are still
    /// registered, in the order of registration, and the native loop. The
    /// sources are to be destroyed first, then the native loop.
    pub fn destroy(self) -> (plan: (Vec<usize>, RawLoop))
        requires
            self.wf(),
        ensures
            plan.0@ == self@.order,
            plan.1 == self@.raw,
    {
        let handles = self.inner.sources();
        (handles, self.inner.raw)
    }

    /// The loop, for operations that change what it has on record.
    pub fn as_loop_mut(&mut self) -> (loop_: &mut LoopRef)
        ensures
            *loop_ == old(self).loop_ref(),
            final(self).loop_ref() == *final(loop_),
    {
        &mut self.inner
    }
}

impl IsLoop for Loop {
    fn as_loop(&self) -> (loop_: &LoopRef)
        ensures
            *loop_ == self.loop_ref(),
    {
        &self.inner
    }
}

} // verus!
