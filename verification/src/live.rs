use crate::transport::{JourneyUpdateEvent, RunnerUpdateOut};
use std::collections::{BTreeSet, HashMap};
use vstd::prelude::*;

verus! {

broadcast use {
    vstd::laws_cmp::group_laws_cmp,
    vstd::std_specs::btree::group_btree_axioms,
    vstd::std_specs::hash::group_hash_axioms,
};

/// Marker for a viewer theme that applies to any animal.
pub struct AnyAnimal;

/// Whether a view shows a static journey shape or a live journey.
#[derive(Debug, Clone, Copy, PartialEq, Eq)]
pub enum Phase<T> {
    Static,
    Live(T),
}

/// The runtime state shown for a node of a live journey.
#[derive(Debug, Clone, Copy, PartialEq, Eq, Structural)]
pub enum RuntimeState {
    Pending,
    Running,
    Completed,
    Failed,
}

/// What the members of a cluster are doing in a live journey.
#[derive(Debug, Clone, Copy)]
pub struct ClusterLive {
    pub has_running: bool,
    pub has_failed: bool,
    pub has_completed: bool,
}

/// What a live view knows of a journey from its update stream: which
/// runtime nodes are active, finished or failed, the sequence number of the
/// last update of each node, and the last sequence number seen.
#[derive(Debug)]
pub struct LiveData {
    pub active_runtime_ids: BTreeSet<u32>,
    pub finished_runtime_ids: BTreeSet<u32>,
    pub failed_runtime_ids: BTreeSet<u32>,
    pub runtime_update_sequence: HashMap<u32, usize>,
    pub latest_event_count: usize,
}

/// Mathematical model of [`LiveData`].
pub struct LiveView {
    pub active: Set<u32>,
    pub finished: Set<u32>,
    pub failed: Set<u32>,
    pub sequence: Map<u32, usize>,
    pub latest_event_count: usize,
}

impl View for LiveData {
    type V = LiveView;

    open spec fn view(&self) -> LiveView {
        LiveView {
            active: self.active_runtime_ids@,
            finished: self.finished_runtime_ids@,
            failed: self.failed_runtime_ids@,
            sequence: self.runtime_update_sequence@,
            latest_event_count: self.latest_event_count,
        }
    }
}

pub open spec fn empty_live() -> LiveView {
    LiveView {
        active: Set::empty(),
        finished: Set::empty(),
        failed: Set::empty(),
        sequence: Map::empty(),
        latest_event_count: 0,
    }
}

impl Default for LiveData {
    fn default() -> (live: LiveData)
        ensures
            live@ == empty_live(),
    {
        LiveData {
            active_runtime_ids: BTreeSet::new(),
            finished_runtime_ids: BTreeSet::new(),
            failed_runtime_ids: BTreeSet::new(),
            runtime_update_sequence: HashMap::new(),
            latest_event_count: 0,
        }
    }
}

/// The live state after `update`, whose sequence number is `seq`: an effect
/// input makes its node active (and no longer finished or failed), a success
/// moves it from active to finished, a failure from active to failed; each
/// of these records `seq` as the node's latest update. Other events change
/// nothing but the latest sequence number.
pub open spec fn apply_update_spec(live: LiveView, event: RunnerUpdateOut, seq: usize) -> LiveView {
    let live = LiveView { latest_event_count: seq, ..live };
    match event {
        RunnerUpdateOut::EffectInput { node_id, .. } => LiveView {
            finished: live.finished.remove(node_id),
            failed: live.failed.remove(node_id),
            active: live.active.insert(node_id),
            sequence: live.sequence.insert(node_id, seq),
            ..live
        },
        RunnerUpdateOut::EffectSuccessOutput { node_id, .. } => LiveView {
            active: live.active.remove(node_id),
            finished: live.finished.insert(node_id),
            sequence: live.sequence.insert(node_id, seq),
            ..live
        },
        RunnerUpdateOut::EffectFailureOutput { node_id, .. } => LiveView {
            active: live.active.remove(node_id),
            failed: live.failed.insert(node_id),
            sequence: live.sequence.insert(node_id, seq),
            ..live
        },
        _ => live,
    }
}

/// Whether `update` changes which nodes are highlighted as active, finished
/// or failed.
pub open spec fn highlight_changed_spec(live: LiveView, event: RunnerUpdateOut) -> bool {
    match event {
        RunnerUpdateOut::EffectInput { node_id, .. } =>
            live.finished.contains(node_id) || live.failed.contains(node_id) || !live.active.contains(node_id),
        RunnerUpdateOut::EffectSuccessOutput { node_id, .. } =>
            live.active.contains(node_id) || !live.finished.contains(node_id),
        RunnerUpdateOut::EffectFailureOutput { node_id, .. } =>
            live.active.contains(node_id) || !live.failed.contains(node_id),
        _ => false,
    }
}

impl LiveData {
    /// Folds one journey update into the live state and reports whether the
    /// highlighted node sets changed.
    pub fn apply_update(&mut self, update: JourneyUpdateEvent) -> (highlight_changed: bool)
        ensures
            final(self)@ == apply_update_spec(old(self)@, update.event, update.sequence_id as usize),
            highlight_changed == highlight_changed_spec(old(self)@, update.event),
    {
        let mut highlight_changed = false;
        let sequence = update.sequence_id as usize;
        self.latest_event_count = sequence;
        match update.event {
            RunnerUpdateOut::EffectInput { node_id, .. } => {
                let a = self.finished_runtime_ids.remove(&node_id);
                let b = self.failed_runtime_ids.remove(&node_id);
                let c = self.active_runtime_ids.insert(node_id);
                highlight_changed = a || b || c;
                self.runtime_update_sequence.insert(node_id, sequence);
            },
            RunnerUpdateOut::EffectSuccessOutput { node_id, .. } => {
                let a = self.active_runtime_ids.remove(&node_id);
                let b = self.finished_runtime_ids.insert(node_id);
                highlight_changed = a || b;
                self.runtime_update_sequence.insert(node_id, sequence);
            },
            RunnerUpdateOut::EffectFailureOutput { node_id, .. } => {
                let a = self.active_runtime_ids.remove(&node_id);
                let b = self.failed_runtime_ids.insert(node_id);
                highlight_changed = a || b;
                self.runtime_update_sequence.insert(node_id, sequence);
            },
            _ => {},
        }
        highlight_changed
    }
}

/// The state shown for a runtime node: failed wins over running, and running
/// over completed; a node with no update is pending.
pub open spec fn runtime_state_spec(live: LiveView, runtime_id: u32) -> RuntimeState {
    if live.failed.contains(runtime_id) {
        RuntimeState::Failed
    } else if live.active.contains(runtime_id) {
        RuntimeState::Running
    } else if live.finished.contains(runtime_id) {
        RuntimeState::Completed
    } else {
        RuntimeState::Pending
    }
}

/// The state shown for runtime node `runtime_id`.
pub fn runtime_state_for_live_data(live: &LiveData, runtime_id: u32) -> (state: RuntimeState)
    ensures
        state == runtime_state_spec(live@, runtime_id),
{
    if live.failed_runtime_ids.contains(&runtime_id) {
        RuntimeState::Failed
    } else if live.active_runtime_ids.contains(&runtime_id) {
        RuntimeState::Running
    } else if live.finished_runtime_ids.contains(&runtime_id) {
        RuntimeState::Completed
    } else {
        RuntimeState::Pending
    }
}

/// Among `ids`, the most recently updated node: its update sequence number
/// and state. A later id replaces an earlier one only when its sequence
/// number is strictly greater; ids never updated are skipped.
pub open spec fn newest_update(live: LiveView, ids: Seq<u32>) -> Option<(usize, RuntimeState)>
    decreases ids.len(),
{
    if ids.len() == 0 {
        None
    } else {
        let prev = newest_update(live, ids.drop_last());
        let id = ids.last();
        if live.sequence.contains_key(id) {
            let seq = live.sequence[id];
            match prev {
                Some((best, _)) => if seq > best { Some((seq, runtime_state_spec(live, id))) } else { prev },
                None => Some((seq, runtime_state_spec(live, id))),
            }
        } else {
            prev
        }
    }
}

/// The state shown for a condition node: that of its most recently updated
/// successor, or pending when none has been updated.
pub open spec fn condition_state_spec(live: LiveView, successors: Seq<u32>) -> RuntimeState {
    match newest_update(live, successors) {
        Some((_, state)) => state,
        None => RuntimeState::Pending,
    }
}

/// The state shown for a condition node, inferred from the branch it took:
/// the state of its most recently updated successor.
pub fn infer_condition_runtime_state(live: &LiveData, successor_runtime_ids: &[u32]) -> (state: RuntimeState)
    ensures
        state == condition_state_spec(live@, successor_runtime_ids@),
{
    let mut newest: Option<(usize, RuntimeState)> = None;
    let mut i: usize = 0;
    while i < successor_runtime_ids.len()
        invariant
            i <= successor_runtime_ids.len(),
            newest == newest_update(live@, successor_runtime_ids@.take(i as int)),
        decreases successor_runtime_ids.len() - i,
    {
        let runtime_id = successor_runtime_ids[i];
        proof {
            let t = successor_runtime_ids@.take(i as int + 1);
            assert(t.drop_last() =~= successor_runtime_ids@.take(i as int));
            assert(t.last() == runtime_id);
        }
        match live.runtime_update_sequence.get(&runtime_id) {
            Some(sequence) => {
                let sequence = *sequence;
                let replace = match newest {
                    Some((best, _)) => sequence > best,
                    None => true,
                };
                if replace {
                    newest = Some((sequence, runtime_state_for_live_data(live, runtime_id)));
                }
            },
            None => {},
        }
        i = i + 1;
    }
    proof {
        assert(successor_runtime_ids@.take(i as int) =~= successor_runtime_ids@);
    }
    match newest {
        Some((_, state)) => state,
        None => RuntimeState::Pending,
    }
}

/// The phase shown for display node `display_id`: static without live data;
/// otherwise the state of its runtime node, or for a condition node the state
/// inferred from its successors (pending when it has none).
pub open spec fn node_phase_spec(
    live: Option<LiveView>,
    display_id: u32,
    runtime_id: Option<u32>,
    successors: Map<u32, Vec<u32>>,
) -> Phase<RuntimeState> {
    match live {
        None => Phase::Static,
        Some(l) => Phase::Live(
            match runtime_id {
                Some(id) => runtime_state_spec(l, id),
                None => if successors.contains_key(display_id) {
                    condition_state_spec(l, successors[display_id]@)
                } else {
                    RuntimeState::Pending
                },
            },
        ),
    }
}

pub open spec fn opt_live_view(live: Option<&LiveData>) -> Option<LiveView> {
    match live {
        Some(l) => Some(l@),
        None => None,
    }
}

/// The phase shown for a display node.
pub fn node_phase_for_display(
    live_data: Option<&LiveData>,
    display_id: u32,
    runtime_id: Option<u32>,
    condition_successor_runtime_ids: &HashMap<u32, Vec<u32>>,
) -> (phase: Phase<RuntimeState>)
    ensures
        phase == node_phase_spec(opt_live_view(live_data), display_id, runtime_id, condition_successor_runtime_ids@),
{
    let live = match live_data {
        Some(live) => live,
        None => return Phase::Static,
    };
    let state = match runtime_id {
        Some(id) => runtime_state_for_live_data(live, id),
        None => match condition_successor_runtime_ids.get(&display_id) {
            Some(successors) => infer_condition_runtime_state(live, successors.as_slice()),
            None => RuntimeState::Pending,
        },
    };
    Phase::Live(state)
}

/// A node is never shown both as running and as finished or failed: every
/// update keeps the active set apart from the finished and failed sets.
pub proof fn lemma_active_stays_apart(live: LiveView, event: RunnerUpdateOut, seq: usize)
    requires
        live.active.disjoint(live.finished),
        live.active.disjoint(live.failed),
    ensures
        apply_update_spec(live, event, seq).active.disjoint(apply_update_spec(live, event, seq).finished),
        apply_update_spec(live, event, seq).active.disjoint(apply_update_spec(live, event, seq).failed),
{
}

/// After an update that names a node, that node's latest sequence number is
/// the update's, so a condition whose successors include it reports the
/// state of the most recently updated successor.
pub proof fn lemma_update_records_sequence(live: LiveView, node_id: u32, uuid: uuid::Uuid, seq: usize)
    ensures
        apply_update_spec(live, RunnerUpdateOut::EffectInput { node_id, uuid }, seq).sequence[node_id] == seq,
        runtime_state_spec(apply_update_spec(live, RunnerUpdateOut::EffectInput { node_id, uuid }, seq), node_id)
            == RuntimeState::Running,
        runtime_state_spec(apply_update_spec(live, RunnerUpdateOut::EffectFailureOutput { node_id, uuid }, seq), node_id)
            == RuntimeState::Failed,
        !live.failed.contains(node_id) ==> runtime_state_spec(
            apply_update_spec(live, RunnerUpdateOut::EffectSuccessOutput { node_id, uuid }, seq),
            node_id,
        ) == RuntimeState::Completed,
{
}

} // verus!
