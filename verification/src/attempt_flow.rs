use crate::attempt::{attempt_wf, AttemptProgress, AttemptSettle, AttemptView};
use crate::envelope::opt_bytes_view;
use crate::attempt::{attempt_failure_spec, attempt_success_spec};
use crate::error::{failure_text, refusal_error, ExecutorError, Failure};
use crate::flow::{
    all_wf, assign_flow_journey_id, copy_bytes, settle_subflow_without_progress, take_flow_node_lifecycle_updates,
    DynFlow, ErasedFlow, ExecRequest,
};
use crate::transport::NodeLifecycle;
use vstd::prelude::*;

verus! {

/// Whether a result hands an action failure up to the caller.
pub open spec fn passes_failure<T, S>(r: Result<T, (S, ExecutorError)>) -> bool {
    r matches Err((_, ExecutorError::ActionFailure(_)))
}

/// An attempt node: runs its inner flow and turns the inner flow's action
/// failures into its own result, so that no failure leaves it.
#[verifier::reject_recursive_types(S)]
pub struct AttemptFlow<S> {
    progress: AttemptProgress,
    inner: DynFlow<S>,    handed_completions: Ghost<nat>,
}

impl<S: Clone> AttemptFlow<S> {
    /// The attempt's control state.
    pub closed spec fn progress_view(&self) -> AttemptView {
        self.progress@
    }

    /// How many completions the node has handed on to the node whose
    /// request was in flight.
    pub closed spec fn handed_completions_view(&self) -> nat {
        self.handed_completions@
    }

    /// The control state matches the inner flow.
    pub closed spec fn wf(&self) -> bool {
        &&& attempt_wf(self.progress@)
        &&& self.progress@.inner_len == self.inner.len()
        &&& all_wf(self.inner@)
    }

    pub fn new(inner: DynFlow<S>) -> (a: Self)
        requires
            all_wf(inner@),
        ensures
            a.wf(),
            a.progress_view().inner_len == inner.len(),
            a.progress_view().cursor == 0,
            !a.progress_view().complete,
            !a.progress_view().waiting_completion,
            a.progress_view().pending_input is None,
    {
        let progress = AttemptProgress::new(inner.len());
        AttemptFlow { progress, inner, handed_completions: Ghost(0) }
    }
}

impl<S: Clone> ErasedFlow<S> for AttemptFlow<S> {
    open spec fn flow_complete(&self) -> bool {
        self.progress_view().complete
    }

    open spec fn flow_waiting(&self) -> bool {
        self.progress_view().waiting_completion
    }

    open spec fn flow_wf(&self) -> bool {
        self.wf()
    }

    /// Serves a request: a complete attempt answers `Complete` and one with
    /// a request in flight `AwaitingCompletion`, both with the state
    /// unchanged. Otherwise the inner flow is settled from `input` and its
    /// current node asked; an inner action failure completes the attempt
    /// with the failure kept as its result, so it is never handed up.
    fn request(&mut self, state: S, input: Vec<u8>, executable: bool) -> (r: Result<(S, ExecRequest), (S, ExecutorError)>)
        ensures
            old(self).progress_view().complete ==> (r matches Err((s, ExecutorError::Complete)) && s == state
                && *final(self) == *old(self)),
            !old(self).progress_view().complete && old(self).progress_view().waiting_completion ==> (r matches Err(
                (s, ExecutorError::AwaitingCompletion),
            ) && s == state && *final(self) == *old(self)),
            !passes_failure(r),
            r is Ok ==> final(self).progress_view().waiting_completion && !final(self).progress_view().complete,
            !old(self).progress_view().complete && final(self).progress_view().complete ==> final(self).progress_view().pending_input
                is Some,
    {
        if let Some(refusal) = self.progress.begin_request() {
            return Err((state, refusal_error(refusal)));
        }
        let mut last_input = input;
        let mut cursor = self.progress.cursor();
        let settled = settle_subflow_without_progress(&mut self.inner, &mut cursor, state.clone(), &mut last_input);
        self.progress.settled_to(cursor);
        let current = match settled {
            Ok(s) => s,
            Err(ExecutorError::ActionFailure(f)) => {
                self.progress.keep_failure(&f);
                return Err((state, ExecutorError::Complete));
            },
            Err(e) => return Err((state, e)),
        };
        if cursor >= self.inner.len() {
            self.progress.keep_success(last_input);
            return Err((current, ExecutorError::Complete));
        }
        let parent = self.progress.child_parent_path();
        self.inner[cursor].set_parent_activation_path(parent.as_slice());
        match self.inner[cursor].request(current, copy_bytes(&last_input), executable) {
            Ok((next, request)) => {
                self.progress.handed_request(last_input);
                Ok((next, request))
            },
            Err((next, ExecutorError::Complete)) => {
                assert(self.inner@[cursor as int].flow_wf());
                match self.inner[cursor].try_complete_without_progress(next.clone()) {
                    Ok((after, emitted, completed)) => {
                        self.progress.after_inline_complete(last_input, emitted, completed);
                        Err((after, ExecutorError::Complete))
                    },
                    Err(ExecutorError::ActionFailure(f)) => {
                        self.progress.keep_failure(&f);
                        Err((next, ExecutorError::Complete))
                    },
                    Err(e) => Err((next, e)),
                }
            },
            Err((next, ExecutorError::ActionFailure(f))) => {
                self.progress.keep_failure(&f);
                Err((next, ExecutorError::Complete))
            },
            Err((next, e)) => Err((next, e)),
        }
    }

    /// Gives a completion to the inner node whose request is in flight. An
    /// inner action failure completes the attempt and becomes its result;
    /// when the inner flow runs to its end the attempt completes with the
    /// successful result.
    fn complete(&mut self, state: S, completion: Result<Vec<u8>, Vec<u8>>) -> (r: Result<(S, Vec<u8>), ExecutorError>)
        ensures
            old(self).progress_view().complete ==> (r matches Err(ExecutorError::Complete) && *final(self)
                == *old(self)),
            !old(self).progress_view().complete && !old(self).progress_view().waiting_completion ==> (r matches Err(
                ExecutorError::NoPendingRequest,
            ) && *final(self) == *old(self)),
            !(r matches Err(ExecutorError::ActionFailure(_))),
            r is Ok ==> !final(self).progress_view().waiting_completion,
            final(self).progress_view().complete ==> (r matches Ok((_, out)) ==> (exists|v: Seq<u8>|
                out@ == #[trigger] attempt_success_spec(v)) || (exists|f: Failure|
                out@ == #[trigger] attempt_failure_spec(failure_text(f)))),
            !old(self).progress_view().complete && old(self).progress_view().waiting_completion && old(self).progress_view().pending_input is Some ==> final(self).handed_completions_view() == old(self).handed_completions_view() + 1,
    {
        let last_input = match self.progress.completion_check() {
            Ok(p) => p,
            Err(refusal) => return Err(refusal_error(refusal)),
        };
        let at = self.progress.cursor();
        let parent = self.progress.child_parent_path();
        self.inner[at].set_parent_activation_path(parent.as_slice());
        self.handed_completions = Ghost(self.handed_completions@ + 1);
        let taken = self.inner[at].complete(state.clone(), completion);
        match taken {
            Ok((next, emitted)) => {
                let node_complete = self.inner[at].is_complete();
                self.progress.after_completion(node_complete);
                let mut last = emitted;
                let mut cursor = self.progress.cursor();
                let settled = settle_subflow_without_progress(&mut self.inner, &mut cursor, next.clone(), &mut last);
                self.progress.settled_to(cursor);
                match settled {
                    Ok(after) => {
                        if cursor >= self.inner.len() {
                            let out = self.progress.finish_with_success(last, true);
                            Ok((after, out))
                        } else {
                            Ok((after, last))
                        }
                    },
                    Err(ExecutorError::ActionFailure(f)) => {
                        let out = self.progress.finish_with_failure(&f);
                        Ok((next, out))
                    },
                    Err(e) => Err(e),
                }
            },
            Err(ExecutorError::ActionFailure(f)) => {
                let out = self.progress.finish_with_failure(&f);
                Ok((state, out))
            },
            Err(e) => {
                self.progress.completion_refused(last_input);
                Err(e)
            },
        }
    }

    /// Settles the inner flow from the kept input; a complete attempt hands
    /// out its kept result once.
    fn try_complete_without_progress(&mut self, state: S) -> (r: Result<(S, Option<Vec<u8>>, bool), ExecutorError>)
        ensures
            old(self).progress_view().complete ==> (r matches Ok((s, d, true)) && s == state
                && opt_bytes_view(d) == old(self).progress_view().pending_input),
            !(r matches Err(ExecutorError::ActionFailure(_))),
    {
        let mut last = match self.progress.settle_check() {
            AttemptSettle::Finished(d) => return Ok((state, d, true)),
            AttemptSettle::Busy => return Ok((state, None, false)),
            AttemptSettle::Walk(p) => p,
        };
        let mut cursor = self.progress.cursor();
        let settled = settle_subflow_without_progress(&mut self.inner, &mut cursor, state.clone(), &mut last);
        self.progress.settled_to(cursor);
        match settled {
            Ok(after) => {
                if cursor >= self.inner.len() {
                    let out = self.progress.finish_with_success(last, false);
                    Ok((after, Some(out), true))
                } else {
                    self.progress.keep_input(last);
                    Ok((after, None, false))
                }
            },
            Err(ExecutorError::ActionFailure(f)) => {
                let out = self.progress.finish_with_failure(&f);
                Ok((state, Some(out), true))
            },
            Err(e) => Err(e),
        }
    }

    fn is_waiting_completion(&self) -> (b: bool) {
        self.progress.is_waiting_completion()
    }

    fn is_complete(&self) -> (b: bool) {
        self.progress.is_complete()
    }

    fn set_parent_activation_path(&mut self, path: &[u64]) {
        self.progress.set_parent_activation_path(path);
    }

    fn set_journey_id(&mut self, journey_id: uuid::Uuid) {
        self.progress.set_journey_id(journey_id);
        assign_flow_journey_id(&mut self.inner, journey_id);
    }

    fn take_node_lifecycle_updates(&mut self) -> (updates: Vec<NodeLifecycle>) {
        let mut updates = self.progress.take_node_lifecycle_updates();
        let mut inner = take_flow_node_lifecycle_updates(&mut self.inner);
        updates.append(&mut inner);
        updates
    }

    fn node_id(&self) -> u32 {
        self.progress.node_id()
    }

    fn assign_node_ids(&mut self, next_id: &mut u32) {
        self.progress.assign_node_id(next_id);
        crate::flow::assign_flow_node_ids(&mut self.inner, next_id);
    }
}

} // verus!
