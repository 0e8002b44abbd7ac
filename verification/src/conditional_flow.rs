use crate::conditional::{branch_len_spec, completion_spec, conditional_wf, ConditionalProgress, ConditionalSettle, ConditionalStep, ConditionalView};
use crate::control::{controlled_error_spec, controlled_input_spec, decode_controlled_input, ControlInput};
use crate::envelope::ActiveBranch;
use crate::error::ExecutorError;
use crate::flow::{
    node_error,
    all_wf, assign_flow_journey_id, assign_flow_node_ids, copy_bytes, take_flow_node_lifecycle_updates, DynFlow,
    ErasedFlow, ExecRequest,
};
use crate::transport::NodeLifecycle;
use vstd::prelude::*;

verus! {

/// A conditional node: chooses its left or its right branch at run time,
/// from its input or its condition, runs that branch, and emits the
/// branch's last value tagged with the branch.
#[verifier::reject_recursive_types(S)]
pub struct ConditionalFlow<S, C> {
    progress: ConditionalProgress,
    left: DynFlow<S>,
    right: DynFlow<S>,
    condition: C,
    branch_input: Ghost<Option<Seq<u8>>>,    handed_completions: Ghost<nat>,
}

impl<S: Clone, C: ControlInput<S>> ConditionalFlow<S, C> {
    /// The conditional's control state.
    pub closed spec fn progress_view(&self) -> ConditionalView {
        self.progress@
    }

    /// The conditional's input type and condition.
    pub closed spec fn condition_view(&self) -> C {
        self.condition
    }

    /// The input the chosen branch was started on.
    pub closed spec fn branch_input_view(&self) -> Option<Seq<u8>> {
        self.branch_input@
    }

    /// How many completions the node has handed on to the node whose
    /// request was in flight.
    pub closed spec fn handed_completions_view(&self) -> nat {
        self.handed_completions@
    }

    /// The control state matches the branches.
    pub closed spec fn wf(&self) -> bool {
        &&& conditional_wf(self.progress@)
        &&& self.progress@.left_len == self.left.len()
        &&& self.progress@.right_len == self.right.len()
        &&& all_wf(self.left@)
        &&& all_wf(self.right@)
    }

    pub fn new(left: DynFlow<S>, right: DynFlow<S>, condition: C) -> (c: Self)
        requires
            all_wf(left@),
            all_wf(right@),
        ensures
            c.wf(),
            c.progress_view().active_branch is None,
    {
        let progress = ConditionalProgress::new(left.len(), right.len());
        ConditionalFlow { progress, left, right, condition, branch_input: Ghost(None), handed_completions: Ghost(0) }
    }

    /// Runs the chosen branch from its current node with `start_input`.
    fn run_branch(&mut self, state: S, start_input: Vec<u8>, executable: bool) -> (r: Result<(S, ExecRequest), (S, ExecutorError)>)
        requires
            old(self).wf(),
            old(self).progress@.active_branch is Some,
        ensures
            final(self).wf(),
            final(self).progress@.active_branch == old(self).progress@.active_branch,
            r matches Err((_, e)) ==> node_error(e),
            final(self).branch_input@ == Some(start_input@),
    {
        self.branch_input = Ghost(Some(start_input@));
        let ghost started = start_input@;
        let mut state = state;
        let mut branch_input = start_input;
        let branch = match self.progress.active_branch() {
            Some(b) => b,
            None => return Err((state, ExecutorError::Complete)),
        };
        let n = self.progress.branch_len();
        let ghost chosen = self.progress@.active_branch;
        loop
            invariant
                self.wf(),
                self.progress@.active_branch == chosen,
                chosen == Some(branch),
                chosen == old(self).progress@.active_branch,
                self.branch_input@ == Some(started),
                start_input@ == started,
                n == branch_len_spec(self.progress@),
            decreases n - self.progress@.cursor,
        {
            let at = match self.progress.current_node() {
                Some(i) => i,
                None => return Err((state, ExecutorError::Complete)),
            };
            let parent = self.progress.child_parent_path();
            let flow = match branch {
                ActiveBranch::Left => &mut self.left,
                ActiveBranch::Right => &mut self.right,
            };
            flow[at].set_parent_activation_path(parent.as_slice());
            match flow[at].request(state, copy_bytes(&branch_input), executable) {
                Ok((next, request)) => return Ok((next, request)),
                Err((next, ExecutorError::Complete)) => {
                    match flow[at].try_complete_without_progress(next.clone()) {
                        Err(ExecutorError::ActionFailure(f)) => {
                            self.progress.fail();
                            return Err((next, ExecutorError::ActionFailure(f)));
                        },
                        Err(e) => return Err((next, e)),
                        Ok((after, emitted, completed)) => {
                            state = after;
                            let (step, input) = self.progress.after_inline_complete(branch_input, emitted, completed);
                            branch_input = input;
                            match step {
                                ConditionalStep::Continue => {},
                                ConditionalStep::Complete => return Err((state, ExecutorError::Complete)),
                            }
                        },
                    }
                },
                Err((next, ExecutorError::ActionFailure(f))) => {
                    self.progress.fail();
                    return Err((next, ExecutorError::ActionFailure(f)));
                },
                Err((next, e)) => return Err((next, e)),
            }
        }
    }
}

impl<S: Clone, C: ControlInput<S>> ErasedFlow<S> for ConditionalFlow<S, C> {
    open spec fn flow_complete(&self) -> bool {
        crate::conditional::conditional_complete(self.progress_view())
    }

    closed spec fn flow_waiting(&self) -> bool {
        match self.progress@.active_branch {
            Some(ActiveBranch::Left) => self.progress@.cursor < self.left.len()
                && self.left[self.progress@.cursor as int].flow_waiting(),
            Some(ActiveBranch::Right) => self.progress@.cursor < self.right.len()
                && self.right[self.progress@.cursor as int].flow_waiting(),
            None => false,
        }
    }

    open spec fn flow_wf(&self) -> bool {
        self.wf()
    }

    /// Serves a request. Before a branch is chosen, the input is read: an
    /// input that cannot be read is refused with the state and the
    /// conditional unchanged; otherwise the branch is chosen by the input
    /// or the condition and runs on the input. Once chosen, the branch
    /// never changes.
    fn request(&mut self, state: S, input: Vec<u8>, executable: bool) -> (r: Result<(S, ExecRequest), (S, ExecutorError)>)
        ensures
            old(self).progress_view().active_branch is Some ==> final(self).progress_view().active_branch
                == old(self).progress_view().active_branch,
            old(self).progress_view().active_branch is None && controlled_input_spec::<S, C>(old(self).condition_view(), state, input@) is None
                ==> (r matches Err((s, ExecutorError::InputDeserialize(t))) && s == state && t@
                == controlled_error_spec::<S, C>(input@) && *final(self) == *old(self)),
            old(self).progress_view().active_branch is Some && old(self).progress_view().cursor >= branch_len_spec(
                old(self).progress_view(),
            ) ==> (r matches Err((s, ExecutorError::Complete)) && s == state && *final(self) == *old(self)),
            old(self).progress_view().active_branch is None ==> (controlled_input_spec::<S, C>(old(self).condition_view(), state, input@) matches Some((choice, carry))
                ==> final(self).progress_view().active_branch == Some(
                if choice { ActiveBranch::Left } else { ActiveBranch::Right },
            ) && final(self).branch_input_view() == Some(carry)),
    {
        if self.progress.active_branch().is_none() {
            let (choose_left, branch_input) = match decode_controlled_input(&self.condition, &state, input.as_slice()) {
                Ok(p) => p,
                Err(e) => return Err((state, e)),
            };
            self.progress.pick_branch(choose_left);
            return self.run_branch(state, branch_input, executable);
        }
        let at = match self.progress.current_node() {
            Some(i) => i,
            None => return Err((state, ExecutorError::Complete)),
        };
        let parent = self.progress.child_parent_path();
        let flow = match self.progress.active_branch() {
            Some(ActiveBranch::Left) => &mut self.left,
            _ => &mut self.right,
        };
        flow[at].set_parent_activation_path(parent.as_slice());
        flow[at].request(state, input, executable)
    }

    /// Gives a completion to the current node of the chosen branch; when
    /// it was the branch's last, emits the node's value tagged with the
    /// branch.
    fn complete(&mut self, state: S, completion: Result<Vec<u8>, Vec<u8>>) -> (r: Result<(S, Vec<u8>), ExecutorError>)
        ensures
            final(self).progress_view().active_branch == old(self).progress_view().active_branch,
            old(self).progress_view().cursor >= branch_len_spec(old(self).progress_view()) ==> (r matches Err(
                ExecutorError::Complete,
            ) && *final(self) == *old(self)),
            r matches Ok((_, out)) ==> exists|node_complete: bool, emitted: Seq<u8>|
                (#[trigger] completion_spec(old(self).progress_view(), node_complete, emitted)) == (
                final(self).progress_view(),
                out@,
            ),
            old(self).progress_view().active_branch is Some && old(self).progress_view().cursor < branch_len_spec(old(self).progress_view()) ==> final(self).handed_completions_view() == old(self).handed_completions_view() + 1,
    {
        let at = match self.progress.current_node() {
            Some(i) => i,
            None => return Err(ExecutorError::Complete),
        };
        let parent = self.progress.child_parent_path();
        let flow = match self.progress.active_branch() {
            Some(ActiveBranch::Left) => &mut self.left,
            _ => &mut self.right,
        };
        flow[at].set_parent_activation_path(parent.as_slice());
        self.handed_completions = Ghost(self.handed_completions@ + 1);
        let taken = flow[at].complete(state, completion);
        let node_complete = flow[at].is_complete();
        match taken {
            Err(ExecutorError::ActionFailure(f)) => {
                self.progress.fail();
                Err(ExecutorError::ActionFailure(f))
            },
            Err(e) => Err(e),
            Ok((next, emitted)) => {
                let out = self.progress.after_completion(node_complete, emitted);
                Ok((next, out))
            },
        }
    }

    fn try_complete_without_progress(&mut self, state: S) -> (r: Result<(S, Option<Vec<u8>>, bool), ExecutorError>) {
        match self.progress.settle_check() {
            ConditionalSettle::Finished(d) => Ok((state, d, true)),
            ConditionalSettle::Idle => Ok((state, None, false)),
            ConditionalSettle::AskNode => {
                let at = match self.progress.current_node() {
                    Some(i) => i,
                    None => return Ok((state, None, false)),
                };
                let parent = self.progress.child_parent_path();
                let flow = match self.progress.active_branch() {
                    Some(ActiveBranch::Left) => &mut self.left,
                    _ => &mut self.right,
                };
                flow[at].set_parent_activation_path(parent.as_slice());
                assert(flow@[at as int].flow_wf());
                if flow[at].is_waiting_completion() {
                    return Ok((state, None, false));
                }
                match flow[at].try_complete_without_progress(state) {
                    Err(ExecutorError::ActionFailure(f)) => {
                        self.progress.fail();
                        Err(ExecutorError::ActionFailure(f))
                    },
                    Err(e) => Err(e),
                    Ok((next, emitted, completed)) => {
                        let (out, done) = self.progress.after_settle_node(emitted, completed);
                        Ok((next, out, done))
                    },
                }
            },
        }
    }

    fn is_waiting_completion(&self) -> (b: bool) {
        let at = match self.progress.current_node() {
            Some(i) => i,
            None => return false,
        };
        match self.progress.active_branch() {
            Some(ActiveBranch::Left) => {
                assert(self.left@[at as int].flow_wf());
                self.left[at].is_waiting_completion()
            },
            Some(ActiveBranch::Right) => {
                assert(self.right@[at as int].flow_wf());
                self.right[at].is_waiting_completion()
            },
            None => false,
        }
    }

    fn is_complete(&self) -> (b: bool) {
        self.progress.is_complete()
    }

    fn set_parent_activation_path(&mut self, path: &[u64]) {
        self.progress.set_parent_activation_path(path);
    }

    fn set_journey_id(&mut self, journey_id: uuid::Uuid) {
        self.progress.set_journey_id(journey_id);
        assign_flow_journey_id(&mut self.left, journey_id);
        assign_flow_journey_id(&mut self.right, journey_id);
    }

    fn take_node_lifecycle_updates(&mut self) -> (updates: Vec<NodeLifecycle>) {
        let mut updates = self.progress.take_node_lifecycle_updates();
        let mut l = take_flow_node_lifecycle_updates(&mut self.left);
        let mut r = take_flow_node_lifecycle_updates(&mut self.right);
        updates.append(&mut l);
        updates.append(&mut r);
        updates
    }

    fn node_id(&self) -> u32 {
        self.progress.node_id()
    }

    fn assign_node_ids(&mut self, next_id: &mut u32) {
        self.progress.assign_node_id(next_id);
        assign_flow_node_ids(&mut self.left, next_id);
        assign_flow_node_ids(&mut self.right, next_id);
    }
}

} // verus!
