use crate::error::ExecutorError;
use crate::join::JoinSide;
use crate::transport::NodeLifecycle;
use vstd::prelude::*;

verus! {


/// Encoded bytes, as the contracts speak of them.
pub type ByteSeq = Seq<u8>;

/// Text, as the contracts speak of it.
pub type CharSeq = Seq<char>;

/// An effect request a flow hands out: the node that made it, the effect
/// it asks for and whether that effect is the built-in sleep, the encoded
/// effect input, the sides of the merging joins its completion is to be
/// addressed to (innermost first), the completion it is answered with
/// before it runs, if any, and, for a select's race, the ids of the first
/// nodes of its left and right branches.
#[derive(Debug)]
pub struct ExecRequest {
    pub node_id: u32,
    pub effect_type: String,
    pub is_sleep: bool,
    pub request_bytes: Vec<u8>,
    pub join_route: Vec<JoinSide>,
    pub suspended_completion: Option<Result<Vec<u8>, Vec<u8>>>,
    pub race_start_ids: Option<(u32, u32)>,
}

/// A node of a running flow over state `S`: asked for a request with the
/// encoded input it is to run on, it hands one out or tells why not; given
/// the completion of its request, it takes it in and emits an encoded
/// value; settled without a request, it runs what needs no effect.
/// Whether an error is one a node may give: any but `NotEnoughCompletions`,
/// which only a run to the end reports.
pub open spec fn node_error(e: ExecutorError) -> bool {
    !(e is NotEnoughCompletions)
}

pub trait ErasedFlow<S> {
    /// Whether the node has run to its end.
    spec fn flow_complete(&self) -> bool;

    /// Whether a request of the node is in flight.
    spec fn flow_waiting(&self) -> bool;

    /// The node's own consistency, which every operation keeps.
    spec fn flow_wf(&self) -> bool;

    /// Asks for the node's next effect request, to be run by the caller
    /// (`executable`) or only sent on as its encoded input; joins and
    /// selects serve the first mode only. In the first mode a node that has
    /// run to its end answers `Complete`, keeps the state as it was and
    /// stays complete.
    fn request(&mut self, state: S, input: Vec<u8>, executable: bool) -> (r: Result<(S, ExecRequest), (S, ExecutorError)>)
        requires
            old(self).flow_wf(),
        ensures
            final(self).flow_wf(),
            executable && old(self).flow_complete() ==> (r matches Err((s, ExecutorError::Complete)) && s == state
                && final(self).flow_complete()),
            r matches Err((_, e)) ==> node_error(e),
    ;

    /// Gives the node the completion of its request; a node that has run
    /// to its end answers `Complete` and stays complete.
    fn complete(&mut self, state: S, completion: Result<Vec<u8>, Vec<u8>>) -> (r: Result<(S, Vec<u8>), ExecutorError>)
        requires
            old(self).flow_wf(),
        ensures
            final(self).flow_wf(),
            old(self).flow_complete() ==> (r matches Err(ExecutorError::Complete) && final(self).flow_complete()),
            r matches Err(e) ==> node_error(e),
    ;

    /// Runs what needs no effect; gives the state, the value emitted, if
    /// any, and whether the node has completed.
    fn try_complete_without_progress(&mut self, state: S) -> (r: Result<(S, Option<Vec<u8>>, bool), ExecutorError>)
        requires
            old(self).flow_wf(),
        ensures
            final(self).flow_wf(),
            r matches Err(e) ==> node_error(e),
    ;

    fn is_waiting_completion(&self) -> (b: bool)
        requires
            self.flow_wf(),
        ensures
            b == self.flow_waiting(),
    ;

    fn is_complete(&self) -> (b: bool)
        ensures
            b == self.flow_complete(),
    ;

    fn set_parent_activation_path(&mut self, path: &[u64])
        requires
            old(self).flow_wf(),
        ensures
            final(self).flow_wf(),
    ;

    fn set_journey_id(&mut self, journey_id: uuid::Uuid)
        requires
            old(self).flow_wf(),
        ensures
            final(self).flow_wf(),
    ;

    fn take_node_lifecycle_updates(&mut self) -> (updates: Vec<NodeLifecycle>)
        requires
            old(self).flow_wf(),
        ensures
            final(self).flow_wf(),
    ;

    fn node_id(&self) -> u32;

    /// Numbers the node, and the nodes inside it, from `*next_id` on.
    fn assign_node_ids(&mut self, next_id: &mut u32)
        requires
            old(self).flow_wf(),
        ensures
            final(self).flow_wf(),
    ;
}

/// Every node of a flow is consistent.
pub open spec fn all_wf<S>(f: Seq<Box<dyn ErasedFlow<S>>>) -> bool {
    forall|i: int| 0 <= i < f.len() ==> (#[trigger] f[i]).flow_wf()
}

/// The nodes of a flow, run in order.
pub type DynFlow<S> = Vec<Box<dyn ErasedFlow<S>>>;

/// Numbers the nodes of `steps` in order from `*next_id` on.
pub fn assign_flow_node_ids<S>(steps: &mut DynFlow<S>, next_id: &mut u32)
    requires
        all_wf(old(steps)@),
    ensures
        final(steps).len() == old(steps).len(),
        all_wf(final(steps)@),
{
    let n = steps.len();
    let mut i: usize = 0;
    while i < n
        invariant
            i <= n,
            steps.len() == n,
            all_wf(steps@),
        decreases n - i,
    {
        steps[i].assign_node_ids(next_id);
        i = i + 1;
    }
}

/// Gives every node of `steps` the journey id.
pub fn assign_flow_journey_id<S>(steps: &mut DynFlow<S>, journey_id: uuid::Uuid)
    requires
        all_wf(old(steps)@),
    ensures
        final(steps).len() == old(steps).len(),
        all_wf(final(steps)@),
{
    let n = steps.len();
    let mut i: usize = 0;
    while i < n
        invariant
            i <= n,
            steps.len() == n,
            all_wf(steps@),
        decreases n - i,
    {
        steps[i].set_journey_id(journey_id);
        i = i + 1;
    }
}

/// Sets the parent activation path of every node of `steps`.
pub fn assign_flow_parent_activation_path<S>(steps: &mut DynFlow<S>, path: &[u64])
    requires
        all_wf(old(steps)@),
    ensures
        final(steps).len() == old(steps).len(),
        all_wf(final(steps)@),
{
    let n = steps.len();
    let mut i: usize = 0;
    while i < n
        invariant
            i <= n,
            steps.len() == n,
            all_wf(steps@),
        decreases n - i,
    {
        steps[i].set_parent_activation_path(path);
        i = i + 1;
    }
}

/// The recorded lifecycle events of every node of `steps`, in node order.
pub fn take_flow_node_lifecycle_updates<S>(steps: &mut DynFlow<S>) -> (updates: Vec<NodeLifecycle>)
    requires
        all_wf(old(steps)@),
    ensures
        final(steps).len() == old(steps).len(),
        all_wf(final(steps)@),
{
    let mut updates: Vec<NodeLifecycle> = Vec::new();
    let n = steps.len();
    let mut i: usize = 0;
    while i < n
        invariant
            i <= n,
            steps.len() == n,
            all_wf(steps@),
        decreases n - i,
    {
        let mut more = steps[i].take_node_lifecycle_updates();
        updates.append(&mut more);
        i = i + 1;
    }
    updates
}

/// The id of the first node of `steps`, or 0 when there is none.
pub fn first_flow_node_id<S>(steps: &DynFlow<S>) -> u32 {
    if steps.len() == 0 {
        0
    } else {
        steps[0].node_id()
    }
}

/// Runs the nodes of `flow` from `*cursor` that need no effect: a node
/// waiting for a completion stops the walk; a node's emitted value becomes
/// `*last_input`; a completed node is passed. The position only moves
/// forward and never past the end.
pub fn settle_subflow_without_progress<S>(
    flow: &mut DynFlow<S>,
    cursor: &mut usize,
    state: S,
    last_input: &mut Vec<u8>,
) -> (r: Result<S, ExecutorError>)
    requires
        *old(cursor) <= old(flow).len(),
        all_wf(old(flow)@),
    ensures
        final(flow).len() == old(flow).len(),
        all_wf(final(flow)@),
        *old(cursor) <= *final(cursor) <= final(flow).len(),
        *old(cursor) == old(flow).len() ==> r is Ok && *final(cursor) == *old(cursor),
        r matches Err(e) ==> node_error(e),
{
    let n = flow.len();
    let mut state = state;
    while *cursor < n
        invariant
            *old(cursor) <= *cursor <= n,
            flow.len() == n,
            n == old(flow).len(),
            all_wf(flow@),
        decreases n - *cursor,
    {
        let at = *cursor;
        assert(flow@[at as int].flow_wf());
        if flow[at].is_waiting_completion() {
            break;
        }
        let settled = flow[at].try_complete_without_progress(state);
        match settled {
            Err(err) => return Err(err),
            Ok((next, emitted, completed)) => {
                state = next;
                if let Some(emitted) = emitted {
                    *last_input = emitted;
                }
                if completed {
                    *cursor = *cursor + 1;
                } else {
                    break;
                }
            },
        }
    }
    Ok(state)
}

/// Asks the nodes of `flow` from `*cursor` for the next request, running
/// what needs no effect on the way; answers `Complete` once every node has
/// run. After `u64::MAX` rounds that make no progress it gives up with
/// `Complete`.
pub fn subflow_next_request<S: Clone>(
    flow: &mut DynFlow<S>,
    cursor: &mut usize,
    state: S,
    last_input: &mut Vec<u8>,
    executable: bool,
) -> (r: Result<(S, ExecRequest), (S, ExecutorError)>)
    requires
        *old(cursor) <= old(flow).len(),
        all_wf(old(flow)@),
    ensures
        final(flow).len() == old(flow).len(),
        all_wf(final(flow)@),
        *old(cursor) <= *final(cursor) <= final(flow).len(),
        *final(cursor) == final(flow).len() ==> r is Err,
        *old(cursor) == old(flow).len() ==> r matches Err((_, ExecutorError::Complete)),
        r matches Err((_, e)) ==> node_error(e),
{
    let n = flow.len();
    let mut state = state;
    let mut budget: u64 = u64::MAX;
    loop
        invariant
            *old(cursor) <= *cursor <= n,
            flow.len() == n,
            n == old(flow).len(),
            all_wf(flow@),
        decreases budget,
    {
        state = match settle_subflow_without_progress(flow, cursor, state.clone(), last_input) {
            Ok(s) => s,
            Err(err) => return Err((state, err)),
        };
        if *cursor >= n || budget == 0 {
            return Err((state, ExecutorError::Complete));
        }
        budget = budget - 1;
        let at = *cursor;
        let asked = flow[at].request(state, copy_bytes(last_input), executable);
        match asked {
            Ok((next, request)) => {
                return Ok((next, request));
            },
            Err((next, ExecutorError::Complete)) => {
                let settled = flow[at].try_complete_without_progress(next.clone());
                match settled {
                    Err(err) => return Err((next, err)),
                    Ok((after, emitted, completed)) => {
                        state = after;
                        if let Some(emitted) = emitted {
                            *last_input = emitted;
                        }
                        if completed {
                            *cursor = *cursor + 1;
                            continue;
                        }
                        state = match settle_subflow_without_progress(flow, cursor, state.clone(), last_input) {
                            Ok(s) => s,
                            Err(err) => return Err((state, err)),
                        };
                        if *cursor >= n {
                            return Err((state, ExecutorError::Complete));
                        }
                    },
                }
            },
            Err((next, err)) => {
                return Err((next, err));
            },
        }
    }
}

/// Gives a completion to the node of `flow` at `*cursor`, after settling
/// what needs no effect: a completed node is passed, its emitted value
/// becomes `*last_input`, and the nodes after it are settled.
pub fn subflow_complete_serialized<S>(
    flow: &mut DynFlow<S>,
    cursor: &mut usize,
    state: S,
    last_input: &mut Vec<u8>,
    completion: Result<Vec<u8>, Vec<u8>>,
) -> (r: Result<(S, Vec<u8>), ExecutorError>)
    requires
        *old(cursor) <= old(flow).len(),
        all_wf(old(flow)@),
    ensures
        final(flow).len() == old(flow).len(),
        all_wf(final(flow)@),
        *old(cursor) <= *final(cursor) <= final(flow).len(),
        *old(cursor) == old(flow).len() ==> r matches Err(ExecutorError::Complete),
        r matches Err(e) ==> node_error(e),
{
    let state = settle_subflow_without_progress(flow, cursor, state, last_input)?;
    if *cursor >= flow.len() {
        return Err(ExecutorError::Complete);
    }
    let at = *cursor;
    let taken = flow[at].complete(state, completion);
    let node_complete = flow[at].is_complete();
    let (next, emitted) = taken?;
    if node_complete {
        *cursor = *cursor + 1;
    }
    *last_input = copy_bytes(&emitted);
    let next = settle_subflow_without_progress(flow, cursor, next, last_input)?;
    Ok((next, emitted))
}

pub(crate) fn copy_bytes(v: &Vec<u8>) -> (out: Vec<u8>)
    ensures
        out@ == v@,
{
    vstd::slice::slice_to_vec(v.as_slice())
}

} // verus!
