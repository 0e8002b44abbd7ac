use crate::transport::{NodeLifecycle, NodeLifecyclePhase};
use vstd::prelude::*;

verus! {

/// Mathematical model of a [`NodeLifecycle`] event.
pub struct LifecycleEvent {
    pub node_id: u32,
    pub activation_path: Seq<u64>,
    pub phase: NodeLifecyclePhase,
    pub uuid: uuid::Uuid,
}

impl View for NodeLifecycle {
    type V = LifecycleEvent;

    open spec fn view(&self) -> LifecycleEvent {
        LifecycleEvent {
            node_id: self.node_id,
            activation_path: self.activation_path@,
            phase: self.phase,
            uuid: self.uuid,
        }
    }
}

/// Tracks the activations of one flow node and the lifecycle events they
/// produce: each activation gets the next activation id appended to the
/// parent's activation path, and events are recorded only once a journey id
/// is known.
pub struct LifecycleState {
    node_id: u32,
    journey_id: Option<uuid::Uuid>,
    next_activation_id: u64,
    parent_activation_path: Vec<u64>,
    current_activation_path: Option<Vec<u64>>,
    updates: Vec<NodeLifecycle>,
}

/// Mathematical model of a [`LifecycleState`].
pub struct LifecycleView {
    pub node_id: u32,
    pub journey_id: Option<uuid::Uuid>,
    pub next_activation_id: u64,
    pub parent_activation_path: Seq<u64>,
    pub current_activation_path: Option<Seq<u64>>,
    pub updates: Seq<LifecycleEvent>,
}

pub open spec fn opt_path_view(p: Option<Vec<u64>>) -> Option<Seq<u64>> {
    match p {
        Some(v) => Some(v@),
        None => None,
    }
}

impl View for LifecycleState {
    type V = LifecycleView;

    closed spec fn view(&self) -> LifecycleView {
        LifecycleView {
            node_id: self.node_id,
            journey_id: self.journey_id,
            next_activation_id: self.next_activation_id,
            parent_activation_path: self.parent_activation_path@,
            current_activation_path: opt_path_view(self.current_activation_path),
            updates: self.updates@.map_values(|u: NodeLifecycle| u@),
        }
    }
}

/// The state of a node that has never been activated.
pub open spec fn initial_lifecycle() -> LifecycleView {
    LifecycleView {
        node_id: 0,
        journey_id: None,
        next_activation_id: 0,
        parent_activation_path: Seq::empty(),
        current_activation_path: None,
        updates: Seq::empty(),
    }
}

/// `s` with event `phase` for activation `path` recorded, when a journey id is known.
pub open spec fn record(s: LifecycleView, path: Seq<u64>, phase: NodeLifecyclePhase) -> Seq<LifecycleEvent> {
    match s.journey_id {
        Some(j) => s.updates.push(LifecycleEvent { node_id: s.node_id, activation_path: path, phase, uuid: j }),
        None => s.updates,
    }
}

/// Starting an activation: nothing happens while one is open; otherwise the
/// new activation's path is the parent path followed by the next activation
/// id, the id counter advances (stopping at `u64::MAX`), and `Entered` is recorded.
pub open spec fn enter_spec(s: LifecycleView) -> LifecycleView {
    if s.current_activation_path is Some {
        s
    } else {
        let path = s.parent_activation_path.push(s.next_activation_id);
        LifecycleView {
            next_activation_id: if s.next_activation_id == u64::MAX { u64::MAX } else { (s.next_activation_id + 1) as u64 },
            current_activation_path: Some(path),
            updates: record(s, path, NodeLifecyclePhase::Entered),
            ..s
        }
    }
}

/// Closing the open activation with `phase`: nothing happens when none is
/// open; otherwise the activation ends and `phase` is recorded for its path.
pub open spec fn finish_spec(s: LifecycleView, phase: NodeLifecyclePhase) -> LifecycleView {
    match s.current_activation_path {
        None => s,
        Some(path) => LifecycleView { current_activation_path: None, updates: record(s, path, phase), ..s },
    }
}

impl LifecycleState {
    /// A node with no activations, no journey and no recorded events.
    pub fn new() -> (s: LifecycleState)
        ensures
            s@ == initial_lifecycle(),
    {
        let s = LifecycleState {
            node_id: 0,
            journey_id: None,
            next_activation_id: 0,
            parent_activation_path: Vec::new(),
            current_activation_path: None,
            updates: Vec::new(),
        };
        assert(s@.updates =~= Seq::<LifecycleEvent>::empty());
        s
    }

    pub fn set_node_id(&mut self, node_id: u32)
        ensures
            final(self)@ == (LifecycleView { node_id, ..old(self)@ }),
    {
        self.node_id = node_id;
    }

    pub fn set_journey_id(&mut self, journey_id: uuid::Uuid)
        ensures
            final(self)@ == (LifecycleView { journey_id: Some(journey_id), ..old(self)@ }),
    {
        self.journey_id = Some(journey_id);
    }

    /// Sets the path under which the next activation is numbered; ignored
    /// while an activation is open.
    pub fn set_parent_activation_path(&mut self, path: &[u64])
        ensures
            old(self)@.current_activation_path is Some ==> final(self)@ == old(self)@,
            old(self)@.current_activation_path is None ==> final(self)@ == (LifecycleView {
                parent_activation_path: path@,
                ..old(self)@
            }),
    {
        if self.current_activation_path.is_none() {
            let mut parent: Vec<u64> = Vec::new();
            let mut i: usize = 0;
            while i < path.len()
                invariant
                    i <= path.len(),
                    parent@ == path@.take(i as int),
                decreases path.len() - i,
            {
                parent.push(path[i]);
                proof {
                    assert(path@.take(i as int + 1) =~= path@.take(i as int).push(path@[i as int]));
                }
                i = i + 1;
            }
            proof {
                assert(path@.take(i as int) =~= path@);
            }
            self.parent_activation_path = parent;
        }
    }

    /// Opens a new activation, unless one is already open.
    pub fn enter(&mut self)
        ensures
            final(self)@ == enter_spec(old(self)@),
    {
        if self.current_activation_path.is_some() {
            return;
        }
        let activation_id = self.next_activation_id;
        self.next_activation_id = self.next_activation_id.saturating_add(1);
        let mut activation_path = copy_path(&self.parent_activation_path);
        activation_path.push(activation_id);
        if let Some(journey_id) = self.journey_id {
            let ghost old_updates = self.updates@;
            let event = NodeLifecycle {
                node_id: self.node_id,
                activation_path: copy_path(&activation_path),
                phase: NodeLifecyclePhase::Entered,
                uuid: journey_id,
            };
            self.updates.push(event);
            proof {
                assert(self.updates@.map_values(|u: NodeLifecycle| u@) =~= old_updates.map_values(|u: NodeLifecycle| u@).push(event@));
            }
        }
        self.current_activation_path = Some(activation_path);
    }

    /// Closes the open activation as succeeded.
    pub fn succeed(&mut self)
        ensures
            final(self)@ == finish_spec(old(self)@, NodeLifecyclePhase::Succeeded),
    {
        self.finish(NodeLifecyclePhase::Succeeded);
    }

    /// Closes the open activation as failed.
    pub fn fail(&mut self)
        ensures
            final(self)@ == finish_spec(old(self)@, NodeLifecyclePhase::Failed),
    {
        self.finish(NodeLifecyclePhase::Failed);
    }

    fn finish(&mut self, phase: NodeLifecyclePhase)
        ensures
            final(self)@ == finish_spec(old(self)@, phase),
    {
        let activation_path = match self.current_activation_path.take() {
            Some(path) => path,
            None => return,
        };
        if let Some(journey_id) = self.journey_id {
            let ghost old_updates = self.updates@;
            let event = NodeLifecycle { node_id: self.node_id, activation_path, phase, uuid: journey_id };
            self.updates.push(event);
            proof {
                assert(self.updates@.map_values(|u: NodeLifecycle| u@) =~= old_updates.map_values(|u: NodeLifecycle| u@).push(event@));
            }
        }
    }

    /// The path of the open activation, if one is open.
    pub fn current_activation_path(&self) -> (path: Option<&[u64]>)
        ensures
            match path {
                Some(p) => self@.current_activation_path == Some(p@),
                None => self@.current_activation_path is None,
            },
    {
        match &self.current_activation_path {
            Some(p) => Some(p.as_slice()),
            None => None,
        }
    }

    pub fn journey_id(&self) -> (id: Option<uuid::Uuid>)
        ensures
            id == self@.journey_id,
    {
        self.journey_id
    }

    pub fn node_id(&self) -> (id: u32)
        ensures
            id == self@.node_id,
    {
        self.node_id
    }

    /// Hands out the recorded events, oldest first, and forgets them.
    pub fn take_updates(&mut self) -> (updates: Vec<NodeLifecycle>)
        ensures
            updates@.map_values(|u: NodeLifecycle| u@) == old(self)@.updates,
            final(self)@ == (LifecycleView { updates: Seq::empty(), ..old(self)@ }),
    {
        let mut updates: Vec<NodeLifecycle> = Vec::new();
        std::mem::swap(&mut updates, &mut self.updates);
        assert(self@.updates =~= Seq::<LifecycleEvent>::empty());
        updates
    }
}

fn copy_path(v: &Vec<u64>) -> (out: Vec<u64>)
    ensures
        out@ == v@,
{
    let mut out: Vec<u64> = Vec::new();
    let mut i: usize = 0;
    while i < v.len()
        invariant
            i <= v.len(),
            out@ == v@.take(i as int),
        decreases v.len() - i,
    {
        out.push(v[i]);
        proof {
            assert(v@.take(i as int + 1) =~= v@.take(i as int).push(v@[i as int]));
        }
        i = i + 1;
    }
    proof {
        assert(v@.take(i as int) =~= v@);
    }
    out
}

/// An activation that is entered and then finished with `phase`, on a node
/// that knows its journey and has no open activation, records exactly two
/// events for the same path: `Entered`, then `phase`; the path is the parent
/// path followed by the activation id, and the node is left with no open
/// activation.
pub proof fn lemma_enter_then_finish(s: LifecycleView, phase: NodeLifecyclePhase)
    requires
        s.current_activation_path is None,
        s.journey_id is Some,
    ensures
        ({
            let path = s.parent_activation_path.push(s.next_activation_id);
            let t = finish_spec(enter_spec(s), phase);
            &&& t.current_activation_path is None
            &&& t.updates.len() == s.updates.len() + 2
            &&& t.updates.subrange(0, s.updates.len() as int) == s.updates
            &&& t.updates[s.updates.len() as int] == (LifecycleEvent {
                node_id: s.node_id,
                activation_path: path,
                phase: NodeLifecyclePhase::Entered,
                uuid: s.journey_id->0,
            })
            &&& t.updates[s.updates.len() as int + 1] == (LifecycleEvent {
                node_id: s.node_id,
                activation_path: path,
                phase,
                uuid: s.journey_id->0,
            })
        }),
{
    let t = finish_spec(enter_spec(s), phase);
    assert(t.updates.subrange(0, s.updates.len() as int) =~= s.updates);
}

/// Successive activations of a node are numbered apart: after an activation
/// is entered and finished, the next one gets a larger activation id, so no
/// two activations under the same parent share a path (until the id counter
/// reaches `u64::MAX`).
pub proof fn lemma_activation_ids_increase(s: LifecycleView, phase: NodeLifecyclePhase)
    requires
        s.current_activation_path is None,
        s.next_activation_id < u64::MAX,
    ensures
        finish_spec(enter_spec(s), phase).next_activation_id == s.next_activation_id + 1,
        enter_spec(finish_spec(enter_spec(s), phase)).current_activation_path == Some(
            s.parent_activation_path.push((s.next_activation_id + 1) as u64),
        ),
{
}

/// Entering is idempotent while an activation is open, and finishing is a
/// no-op when none is open.
pub proof fn lemma_lifecycle_idempotent(s: LifecycleView, phase: NodeLifecyclePhase)
    ensures
        enter_spec(enter_spec(s)) == enter_spec(s),
        finish_spec(finish_spec(s, phase), phase) == finish_spec(s, phase),
{
}

} // verus!
