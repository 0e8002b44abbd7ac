use crate::error::{refusal_error, ExecutorError};
use crate::flow::{
    all_wf, assign_flow_journey_id, assign_flow_node_ids, copy_bytes, settle_subflow_without_progress,
    take_flow_node_lifecycle_updates, DynFlow, ErasedFlow, ExecRequest,
};
use crate::transparent::{transparent_wf, TransparentProgress, TransparentSettle, TransparentView};
use crate::transport::NodeLifecycle;
use vstd::prelude::*;

verus! {

/// A transparent boundary: runs its inner flow as one node with an
/// activation of its own; the inner flow's values and failures pass
/// through unchanged.
#[verifier::reject_recursive_types(S)]
pub struct TransparentFlow<S> {
    progress: TransparentProgress,
    inner: DynFlow<S>,    handed_completions: Ghost<nat>,
}

impl<S: Clone> TransparentFlow<S> {
    /// The boundary's control state.
    pub closed spec fn progress_view(&self) -> TransparentView {
        self.progress@
    }

    /// How many completions the node has handed on to the node whose
    /// request was in flight.
    pub closed spec fn handed_completions_view(&self) -> nat {
        self.handed_completions@
    }

    /// The control state matches the inner flow.
    pub closed spec fn wf(&self) -> bool {
        &&& transparent_wf(self.progress@)
        &&& self.progress@.inner_len == self.inner.len()
        &&& all_wf(self.inner@)
    }

    pub fn new(inner: DynFlow<S>) -> (t: Self)
        requires
            all_wf(inner@),
        ensures
            t.wf(),
            t.progress_view().inner_len == inner.len(),
            t.progress_view().cursor == 0,
            !t.progress_view().complete,
            !t.progress_view().waiting_completion,
            t.progress_view().pending_input is None,
    {
        let progress = TransparentProgress::new(inner.len());
        TransparentFlow { progress, inner, handed_completions: Ghost(0) }
    }
}

impl<S: Clone> ErasedFlow<S> for TransparentFlow<S> {
    open spec fn flow_complete(&self) -> bool {
        self.progress_view().complete
    }

    open spec fn flow_waiting(&self) -> bool {
        self.progress_view().waiting_completion
    }

    open spec fn flow_wf(&self) -> bool {
        self.wf()
    }

    /// Serves a request: a complete boundary answers `Complete` and one with
    /// a request in flight `AwaitingCompletion`, both with the state
    /// unchanged. Otherwise the inner flow is settled from `input` and its
    /// current node asked; an inner action failure fails the boundary's
    /// activation and passes through.
    fn request(&mut self, state: S, input: Vec<u8>, executable: bool) -> (r: Result<(S, ExecRequest), (S, ExecutorError)>)
        ensures
            old(self).progress_view().complete ==> (r matches Err((s, ExecutorError::Complete)) && s == state
                && *final(self) == *old(self)),
            !old(self).progress_view().complete && old(self).progress_view().waiting_completion ==> (r matches Err(
                (s, ExecutorError::AwaitingCompletion),
            ) && s == state && *final(self) == *old(self)),
            r is Ok ==> final(self).progress_view().waiting_completion && !final(self).progress_view().complete,
            !old(self).progress_view().complete && final(self).progress_view().complete ==> (r matches Err(
                (_, ExecutorError::Complete),
            ) && final(self).progress_view().cursor == final(self).progress_view().inner_len
                && final(self).progress_view().pending_input is Some),
    {
        if let Some(refusal) = self.progress.begin_request() {
            return Err((state, refusal_error(refusal)));
        }
        let mut last_input = input;
        let mut cursor = self.progress.cursor();
        let settled = settle_subflow_without_progress(&mut self.inner, &mut cursor, state.clone(), &mut last_input);
        self.progress.settled_to(cursor);
        let current = match settled {
            Ok(s) => s,
            Err(ExecutorError::ActionFailure(f)) => {
                self.progress.fail();
                return Err((state, ExecutorError::ActionFailure(f)));
            },
            Err(e) => return Err((state, e)),
        };
        if cursor >= self.inner.len() {
            self.progress.keep_finished(last_input);
            return Err((current, ExecutorError::Complete));
        }
        let parent = self.progress.child_parent_path();
        self.inner[cursor].set_parent_activation_path(parent.as_slice());
        match self.inner[cursor].request(current, copy_bytes(&last_input), executable) {
            Ok((next, request)) => {
                self.progress.handed_request(last_input);
                Ok((next, request))
            },
            Err((next, ExecutorError::Complete)) => {
                assert(self.inner@[cursor as int].flow_wf());
                match self.inner[cursor].try_complete_without_progress(next.clone()) {
                    Ok((after, emitted, completed)) => {
                        self.progress.after_inline_complete(last_input, emitted, completed);
                        Err((after, ExecutorError::Complete))
                    },
                    Err(ExecutorError::ActionFailure(f)) => {
                        self.progress.fail();
                        Err((next, ExecutorError::ActionFailure(f)))
                    },
                    Err(e) => Err((next, e)),
                }
            },
            Err((next, ExecutorError::ActionFailure(f))) => {
                self.progress.fail();
                Err((next, ExecutorError::ActionFailure(f)))
            },
            Err((next, e)) => Err((next, e)),
        }
    }

    /// Gives a completion to the inner node whose request is in flight, and
    /// settles what follows; the inner flow's value passes through, and the
    /// boundary completes when the inner flow ends.
    fn complete(&mut self, state: S, completion: Result<Vec<u8>, Vec<u8>>) -> (r: Result<(S, Vec<u8>), ExecutorError>)
        ensures
            old(self).progress_view().complete ==> (r matches Err(ExecutorError::Complete) && *final(self)
                == *old(self)),
            !old(self).progress_view().complete && !old(self).progress_view().waiting_completion ==> (r matches Err(
                ExecutorError::NoPendingRequest,
            ) && *final(self) == *old(self)),
            r is Ok ==> !final(self).progress_view().waiting_completion && (final(self).progress_view().complete
                <==> final(self).progress_view().cursor == final(self).progress_view().inner_len),
            !old(self).progress_view().complete && old(self).progress_view().waiting_completion && old(self).progress_view().pending_input is Some ==> final(self).handed_completions_view() == old(self).handed_completions_view() + 1,
    {
        let last_input = match self.progress.completion_check() {
            Ok(p) => p,
            Err(refusal) => return Err(refusal_error(refusal)),
        };
        let at = self.progress.cursor();
        let parent = self.progress.child_parent_path();
        self.inner[at].set_parent_activation_path(parent.as_slice());
        self.handed_completions = Ghost(self.handed_completions@ + 1);
        let taken = self.inner[at].complete(state, completion);
        match taken {
            Ok((next, emitted)) => {
                let node_complete = self.inner[at].is_complete();
                self.progress.after_completion(node_complete);
                let mut last = emitted;
                let mut cursor = self.progress.cursor();
                let settled = settle_subflow_without_progress(&mut self.inner, &mut cursor, next, &mut last);
                self.progress.settled_to(cursor);
                match settled {
                    Ok(after) => {
                        self.progress.finish_if_done();
                        Ok((after, last))
                    },
                    Err(ExecutorError::ActionFailure(f)) => {
                        self.progress.fail();
                        Err(ExecutorError::ActionFailure(f))
                    },
                    Err(e) => Err(e),
                }
            },
            Err(ExecutorError::ActionFailure(f)) => {
                self.progress.completion_failed(true, last_input);
                Err(ExecutorError::ActionFailure(f))
            },
            Err(e) => {
                self.progress.completion_failed(false, last_input);
                Err(e)
            },
        }
    }

    /// Settles the inner flow from the kept input; a complete boundary
    /// hands out its kept value once.
    fn try_complete_without_progress(&mut self, state: S) -> (r: Result<(S, Option<Vec<u8>>, bool), ExecutorError>)
        ensures
            old(self).progress_view().complete ==> (r matches Ok((s, d, true)) && s == state
                && crate::envelope::opt_bytes_view(d) == old(self).progress_view().pending_input),
    {
        let mut last = match self.progress.settle_check() {
            TransparentSettle::Finished(d) => return Ok((state, d, true)),
            TransparentSettle::Busy => return Ok((state, None, false)),
            TransparentSettle::Walk(p) => p,
        };
        let mut cursor = self.progress.cursor();
        let settled = settle_subflow_without_progress(&mut self.inner, &mut cursor, state, &mut last);
        self.progress.settled_to(cursor);
        match settled {
            Ok(after) => {
                if self.progress.finish_if_done() {
                    Ok((after, Some(last), true))
                } else {
                    self.progress.keep_input(last);
                    Ok((after, None, false))
                }
            },
            Err(ExecutorError::ActionFailure(f)) => {
                self.progress.fail();
                Err(ExecutorError::ActionFailure(f))
            },
            Err(e) => Err(e),
        }
    }

    fn is_waiting_completion(&self) -> (b: bool) {
        self.progress.is_waiting_completion()
    }

    fn is_complete(&self) -> (b: bool) {
        self.progress.is_complete()
    }

    fn set_parent_activation_path(&mut self, path: &[u64]) {
        self.progress.set_parent_activation_path(path);
    }

    fn set_journey_id(&mut self, journey_id: uuid::Uuid) {
        self.progress.set_journey_id(journey_id);
        assign_flow_journey_id(&mut self.inner, journey_id);
    }

    fn take_node_lifecycle_updates(&mut self) -> (updates: Vec<NodeLifecycle>) {
        let mut updates = self.progress.take_node_lifecycle_updates();
        let mut inner = take_flow_node_lifecycle_updates(&mut self.inner);
        updates.append(&mut inner);
        updates
    }

    fn node_id(&self) -> u32 {
        self.progress.node_id()
    }

    fn assign_node_ids(&mut self, next_id: &mut u32) {
        self.progress.assign_node_id(next_id);
        assign_flow_node_ids(&mut self.inner, next_id);
    }
}

} // verus!
