//! The control model: it pairs temperature readings with pump states as both arrive, keeps
//! a short history of the pairs, and derives the next pump command from the latest one.

use vstd::prelude::*;
use heapless::HistoryBuffer;
use crate::types::pump::PumpState;
use crate::types::temperature::Temperature;

verus! {

/// How many entries the history retains.
pub const HISTORY_DEPTH: usize = 8;

/// `heapless::HistoryBuffer`, a ring of the `N` most recently written values. Its fields
/// are not visible here: what it holds is known only through [`history_entries`].
#[verifier::external_type_specification]
#[verifier::external_body]
#[verifier::reject_recursive_types(T)]
pub struct ExHistoryBuffer<T, const N: usize>(HistoryBuffer<T, N>);

/// One paired observation: the temperature and the pump state of the same cycle, and
/// when the pair was completed.
#[derive(Clone, Copy, Debug, PartialEq, Eq, Structural)]
pub struct Entry {
    /// Ticks of the monotonic clock at the moment the pair was completed.
    pub timestamp: u64,
    /// The temperature reading.
    pub temperature: Temperature,
    /// The state that the pump acknowledged.
    pub pump_state: PumpState,
}

/// The entries a history buffer retains, oldest first: what
/// `heapless::HistoryBuffer::oldest_ordered` walks through.
pub uninterp spec fn history_entries(history: &HistoryBuffer<Entry, 8>) -> Seq<Entry>;

/// `entries` after one more entry is written to a ring of [`HISTORY_DEPTH`] slots: the
/// new entry goes to the back, and when the ring was full the oldest one leaves.
pub open spec fn ring_push(entries: Seq<Entry>, entry: Entry) -> Seq<Entry> {
    if entries.len() < HISTORY_DEPTH {
        entries.push(entry)
    } else {
        entries.skip(1).push(entry)
    }
}

/// `entries` after each of `more` has been written in turn.
pub open spec fn ring_push_all(entries: Seq<Entry>, more: Seq<Entry>) -> Seq<Entry>
    decreases more.len(),
{
    if more.len() == 0 {
        entries
    } else {
        ring_push(ring_push_all(entries, more.drop_last()), more.last())
    }
}

/// The last [`HISTORY_DEPTH`] of `entries`, or all of them if there are fewer, in their
/// order.
pub open spec fn newest(entries: Seq<Entry>) -> Seq<Entry> {
    if entries.len() <= HISTORY_DEPTH {
        entries
    } else {
        entries.skip(entries.len() - HISTORY_DEPTH)
    }
}

/// Calls `heapless::HistoryBuffer::new`, which returns a buffer that retains nothing.
#[verifier::external_body]
fn history_new() -> (history: HistoryBuffer<Entry, 8>)
    ensures
        history_entries(&history) == Seq::<Entry>::empty(),
{
    HistoryBuffer::new()
}

/// Calls `heapless::HistoryBuffer::write`, which stores `entry` as the newest value and,
/// when all slots were taken, overwrites the oldest. It has no failing path.
#[verifier::external_body]
fn history_write(history: &mut HistoryBuffer<Entry, 8>, entry: Entry)
    ensures
        history_entries(final(history)) == ring_push(history_entries(old(history)), entry),
    no_unwind
{
    history.write(entry)
}

/// Calls `heapless::HistoryBuffer::recent`, which returns the value written last, or
/// `None` while nothing has been written.
#[verifier::external_body]
fn history_recent(history: &HistoryBuffer<Entry, 8>) -> (entry: Option<Entry>)
    ensures
        entry == if history_entries(history).len() == 0 {
            None
        } else {
            Some(history_entries(history).last())
        },
{
    history.recent().copied()
}

/// Calls `heapless::HistoryBuffer::oldest_ordered` and collects what it yields, which is
/// every retained value from the oldest to the newest.
#[verifier::external_body]
fn history_oldest_ordered(history: &HistoryBuffer<Entry, 8>) -> (entries: Vec<Entry>)
    ensures
        entries@ == history_entries(history),
{
    history.oldest_ordered().copied().collect()
}

/// The control model.
///
/// It holds the setpoint, which never changes, the history of paired observations, and
/// one pending slot for each half of the next pair.
pub struct Model {
    target_temp: Temperature,
    history: HistoryBuffer<Entry, 8>,
    pending: (Option<Temperature>, Option<PumpState>),
}

/// One update of the model: a value for one of its two pending slots.
#[derive(Clone, Copy, Debug, PartialEq, Eq, Structural)]
pub enum Update {
    /// A temperature reading.
    Temperature(Temperature),
    /// A pump state.
    PumpState(PumpState),
}

/// What a [`Model`] holds, as plain values.
pub struct ModelView {
    /// The setpoint.
    pub target_temp: Temperature,
    /// The retained entries, oldest first.
    pub history: Seq<Entry>,
    /// The temperature and the pump state that wait for their counterpart.
    pub pending: (Option<Temperature>, Option<PumpState>),
}

impl ModelView {
    /// The model after a temperature is stored in its pending slot. A temperature that was
    /// waiting there is overwritten.
    pub open spec fn with_temperature(self, temperature: Temperature) -> ModelView {
        ModelView { pending: (Some(temperature), self.pending.1), ..self }
    }

    /// The model after a pump state is stored in its pending slot. A state that was
    /// waiting there is overwritten.
    pub open spec fn with_pump_state(self, pump_state: PumpState) -> ModelView {
        ModelView { pending: (self.pending.0, Some(pump_state)), ..self }
    }

    /// The model after `update` has put its value in its pending slot.
    pub open spec fn store(self, update: Update) -> ModelView {
        match update {
            Update::Temperature(temperature) => self.with_temperature(temperature),
            Update::PumpState(pump_state) => self.with_pump_state(pump_state),
        }
    }

    /// The model after each of `updates` has been pushed in turn, each with its own
    /// timestamp.
    pub open spec fn push_all(self, updates: Seq<(Update, u64)>) -> ModelView
        decreases updates.len(),
    {
        if updates.len() == 0 {
            self
        } else {
            self.push_all(updates.drop_last()).store(updates.last().0).commit(updates.last().1)
        }
    }

    /// The entries made while `updates` are pushed in turn, in the order they are made:
    /// one for each update that finds the other slot occupied, and none for any other.
    pub open spec fn committed(self, updates: Seq<(Update, u64)>) -> Seq<Entry>
        decreases updates.len(),
    {
        if updates.len() == 0 {
            Seq::empty()
        } else {
            let stored = self.push_all(updates.drop_last()).store(updates.last().0);
            if stored.pair_complete() {
                self.committed(updates.drop_last()).push(
                    Entry {
                        timestamp: updates.last().1,
                        temperature: stored.pending.0.unwrap(),
                        pump_state: stored.pending.1.unwrap(),
                    },
                )
            } else {
                self.committed(updates.drop_last())
            }
        }
    }

    /// Whether both halves of a pair are waiting.
    pub open spec fn pair_complete(self) -> bool {
        self.pending.0.is_some() && self.pending.1.is_some()
    }

    /// The commit rule: when both pending slots are occupied, one entry made of the two
    /// values and of `now` is written to the history and both slots are cleared;
    /// otherwise nothing changes.
    pub open spec fn commit(self, now: u64) -> ModelView {
        match self.pending {
            (Some(temperature), Some(pump_state)) => ModelView {
                history: ring_push(
                    self.history,
                    Entry { timestamp: now, temperature, pump_state },
                ),
                pending: (None, None),
                ..self
            },
            _ => self,
        }
    }

    /// The control law, a bang-bang controller without hysteresis: with no history the
    /// pump runs, which is the safe assumption; otherwise it runs exactly when the latest
    /// temperature is strictly above the setpoint.
    pub open spec fn pump_target(self) -> PumpState {
        if self.history.len() == 0 {
            PumpState::On
        } else if self.history.last().temperature > self.target_temp {
            PumpState::On
        } else {
            PumpState::Off
        }
    }
}

impl View for Model {
    type V = ModelView;

    closed spec fn view(&self) -> ModelView {
        ModelView {
            target_temp: self.target_temp,
            history: history_entries(&self.history),
            pending: self.pending,
        }
    }
}

impl Model {
    #[verifier::type_invariant]
    spec fn history_bounded(self) -> bool {
        history_entries(&self.history).len() <= HISTORY_DEPTH
    }

    /// Creates a model with the given setpoint, no history and nothing pending.
    pub fn new(target_temp: Temperature) -> (model: Model)
        ensures
            model@ == (ModelView {
                target_temp,
                history: Seq::<Entry>::empty(),
                pending: (None, None),
            }),
    {
        Model { target_temp, history: history_new(), pending: (None, None) }
    }

    /// Applies the commit rule with `now` as the timestamp of the entry, if one is made.
    pub fn try_push_pending(&mut self, now: u64)
        ensures
            final(self)@ == old(self)@.commit(now),
            !final(self)@.pair_complete(),
            final(self)@.history.len() <= HISTORY_DEPTH,
    {
        proof {
            use_type_invariant(&*self);
        }
        let temperature = match self.pending.0 {
            Some(temperature) => temperature,
            None => {
                return ;
            },
        };
        let pump_state = match self.pending.1 {
            Some(pump_state) => pump_state,
            None => {
                return ;
            },
        };
        history_write(&mut self.history, Entry { timestamp: now, temperature, pump_state });
        self.pending = (None, None);
    }

    /// Stores `temp` as the pending temperature, overwriting one that was still waiting,
    /// then applies the commit rule.
    pub fn push_temperature(&mut self, temp: Temperature, now: u64)
        ensures
            final(self)@ == old(self)@.store(Update::Temperature(temp)).commit(now),
            !final(self)@.pair_complete(),
            final(self)@.history.len() <= HISTORY_DEPTH,
    {
        proof {
            use_type_invariant(&*self);
        }
        self.pending.0 = Some(temp);
        self.try_push_pending(now);
    }

    /// Stores `state` as the pending pump state, overwriting one that was still waiting,
    /// then applies the commit rule.
    pub fn push_pump_state(&mut self, state: PumpState, now: u64)
        ensures
            final(self)@ == old(self)@.store(Update::PumpState(state)).commit(now),
            !final(self)@.pair_complete(),
            final(self)@.history.len() <= HISTORY_DEPTH,
    {
        proof {
            use_type_invariant(&*self);
        }
        self.pending.1 = Some(state);
        self.try_push_pending(now);
    }

    /// Returns the state the pump should be commanded to, by the control law.
    pub fn pump_target(&self) -> (target: PumpState)
        ensures
            target == self@.pump_target(),
    {
        match history_recent(&self.history) {
            None => PumpState::On,
            Some(entry) => {
                if entry.temperature > self.target_temp {
                    PumpState::On
                } else {
                    PumpState::Off
                }
            },
        }
    }

    /// Returns the setpoint.
    pub fn target_temp(&self) -> (target_temp: Temperature)
        ensures
            target_temp == self@.target_temp,
    {
        self.target_temp
    }

    /// Returns the retained entries, oldest first.
    pub fn history(&self) -> (entries: Vec<Entry>)
        ensures
            entries@ == self@.history,
            entries@.len() <= HISTORY_DEPTH,
    {
        proof {
            use_type_invariant(self);
        }
        history_oldest_ordered(&self.history)
    }

    /// Returns the temperature and the pump state that wait for their counterpart.
    pub fn pending(&self) -> (pending: (Option<Temperature>, Option<PumpState>))
        ensures
            pending == self@.pending,
    {
        self.pending
    }
}

/// Ring eviction: however many entries are written, the history holds the newest
/// [`HISTORY_DEPTH`] of them and nothing else, oldest first and newest last.
pub proof fn lemma_ring_keeps_newest(entries: Seq<Entry>, more: Seq<Entry>)
    requires
        entries.len() <= HISTORY_DEPTH,
    ensures
        ring_push_all(entries, more) == newest(entries + more),
        ring_push_all(entries, more).len() <= HISTORY_DEPTH,
    decreases more.len(),
{
    if more.len() == 0 {
        assert(entries + more =~= entries);
    } else {
        lemma_ring_keeps_newest(entries, more.drop_last());
        assert(entries + more =~= (entries + more.drop_last()).push(more.last()));
        assert(ring_push_all(entries, more) =~= newest(entries + more));
    }
}

/// The pair-commit rule, as it shows in any state and so along any interleaving of
/// updates. Let `stored` be the model right after an update has put its value in its
/// pending slot. Then the update appends an entry if and only if both slots of `stored`
/// are occupied, it appends exactly one, made of the two pending values, and both slots
/// are empty afterwards. Otherwise the history and what `stored` has pending stay.
pub proof fn lemma_pair_commit(stored: ModelView, now: u64)
    ensures
        stored.pair_complete() ==> stored.commit(now).history == ring_push(
            stored.history,
            Entry {
                timestamp: now,
                temperature: stored.pending.0.unwrap(),
                pump_state: stored.pending.1.unwrap(),
            },
        ) && stored.commit(now).pending == (None::<Temperature>, None::<PumpState>),
        !stored.pair_complete() ==> stored.commit(now) == stored,
        !stored.commit(now).pair_complete(),
        stored.commit(now).target_temp == stored.target_temp,
{
}

/// The pair-commit rule along any interleaving of updates. The history grows by the
/// entries made on the way and by nothing else, each update makes one entry at most,
/// the setpoint stays, and after any update the two slots are never both occupied.
pub proof fn lemma_interleaving(model: ModelView, updates: Seq<(Update, u64)>)
    ensures
        model.push_all(updates).history == ring_push_all(
            model.history,
            model.committed(updates),
        ),
        model.committed(updates).len() <= updates.len(),
        model.push_all(updates).target_temp == model.target_temp,
        updates.len() > 0 ==> !model.push_all(updates).pair_complete(),
    decreases updates.len(),
{
    if updates.len() > 0 {
        lemma_interleaving(model, updates.drop_last());
        let stored = model.push_all(updates.drop_last()).store(updates.last().0);
        lemma_pair_commit(stored, updates.last().1);
        if stored.pair_complete() {
            let entries = model.committed(updates);
            assert(entries.drop_last() =~= model.committed(updates.drop_last()));
        }
    }
}

} // verus!
