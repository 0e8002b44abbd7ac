use crate::error::ExecutorError;
use crate::flow::{
    node_error,
    assign_flow_journey_id, assign_flow_node_ids, assign_flow_parent_activation_path, copy_bytes,
    subflow_complete_serialized, subflow_next_request, settle_subflow_without_progress,
    take_flow_node_lifecycle_updates, all_wf, DynFlow, ErasedFlow, ExecRequest,
};
use crate::join::{
    join_emitted, join_wf, lemma_first_poll_pollable, lemma_poll_records_only_requests, lemma_polls_stay_pollable, pollable,
    suspended_sleep_completion, BranchPoll, IdleCheck, JoinProgress, JoinRouteError, JoinSide, JoinStep,
    JoinView, completion_view, route_error_view, route_spec, RouteErrorView,
};
use crate::transport::NodeLifecycle;
use vstd::prelude::*;
use vstd::string::StringExecFns;

verus! {

/// Folds the state a branch of a merging join ended with into the join's state.
pub trait StateMerge<S> {
    fn merge_into(&self, target: &mut S, branch_state: S);
}

/// Where one branch of a join is: its own state, its position, and the
/// last value it emitted.
struct JoinBranch<S> {
    state: S,
    cursor: usize,
    last_input: Vec<u8>,
}

/// A join node: runs its left branch and then its right branch, or, when
/// merging, both at once on copies of the state that are merged back; it
/// resolves when both branches complete, emitting the left branch's last
/// value followed by the right branch's.
#[verifier::reject_recursive_types(S)]
pub struct JoinFlow<S> {
    progress: JoinProgress,
    left: DynFlow<S>,
    right: DynFlow<S>,
    merge_left: Box<dyn StateMerge<S>>,
    merge_right: Box<dyn StateMerge<S>>,
    join_input: Option<Vec<u8>>,
    base_state: Option<S>,
    left_branch: Option<JoinBranch<S>>,
    right_branch: Option<JoinBranch<S>>,
    completed_emitted: Option<Vec<u8>>,
    right_start: Ghost<Option<(S, Seq<u8>)>>,
    polled: Ghost<Option<(JoinSide, ExecRequest)>>,
}

/// Changes `request` so that its completion comes back addressed to `side`:
/// the side is added to its route, and a sleep is answered beforehand with
/// an empty success addressed to the side.
pub fn wrap_branch_request(side: JoinSide, request: ExecRequest) -> (r: ExecRequest)
    ensures
        r.node_id == request.node_id,
        r.effect_type == request.effect_type,
        r.is_sleep == request.is_sleep,
        r.request_bytes == request.request_bytes,
        r.join_route@ == request.join_route@.push(side),
        request.is_sleep ==> (r.suspended_completion matches Some(Ok(b)) && b@
            == crate::join::join_completion_spec(side, Ok(Seq::<u8>::empty()))),
        !request.is_sleep ==> r.suspended_completion is None,
        r.race_start_ids == request.race_start_ids,
{
    let ExecRequest {
        node_id,
        effect_type,
        is_sleep,
        request_bytes,
        join_route,
        suspended_completion: _,
        race_start_ids,
    } = request;
    let mut route = join_route;
    route.push(side);
    let suspended = if is_sleep {
        Some(Ok(suspended_sleep_completion(side)))
    } else {
        None
    };
    ExecRequest {
        node_id,
        effect_type,
        is_sleep,
        request_bytes,
        join_route: route,
        suspended_completion: suspended,
        race_start_ids,
    }
}

/// The text of bytes read as UTF-8, invalid sequences replaced: a call of
/// std's `String::from_utf8_lossy`. Nothing is stated of the text.
#[verifier::external_body]
pub(crate) fn lossy_text(bytes: &[u8]) -> String {
    String::from_utf8_lossy(bytes).into_owned()
}

fn route_error(e: JoinRouteError) -> (r: ExecutorError)
    ensures
        node_error(r),
        match route_error_view(e) {
            RouteErrorView::NoPendingRequest => r is NoPendingRequest,
            RouteErrorView::Complete => r is Complete,
            RouteErrorView::OutputDeserialize => r is OutputDeserialize,
            RouteErrorView::ErrorDeserialize(_) => r is ErrorDeserialize,
        },
{
    match e {
        JoinRouteError::Complete => ExecutorError::Complete,
        JoinRouteError::NoPendingRequest => ExecutorError::NoPendingRequest,
        JoinRouteError::OutputDeserialize => ExecutorError::OutputDeserialize(
            String::from_str("focused join completion envelope failed"),
        ),
        JoinRouteError::ErrorDeserialize(bytes) => {
            let mut text = String::from_str("join completion envelope failed: ");
            let tail = lossy_text(bytes.as_slice());
            text.append(tail.as_str());
            ExecutorError::ErrorDeserialize(text)
        },
    }
}

impl<S: Clone> JoinFlow<S> {
    /// The join's control state.
    pub closed spec fn progress_view(&self) -> JoinView {
        self.progress@
    }

    /// The last value each branch emitted, or its input if it emitted
    /// none; `None` before the branch started.
    pub closed spec fn branch_last_view(&self, side: JoinSide) -> Option<Seq<u8>> {
        match side {
            JoinSide::Left => match self.left_branch {
                Some(b) => Some(b.last_input@),
                None => None,
            },
            JoinSide::Right => match self.right_branch {
                Some(b) => Some(b.last_input@),
                None => None,
            },
        }
    }

    /// The joined value: the left branch's last value followed by the
    /// right branch's.
    pub open spec fn joined_spec(&self) -> Seq<u8> {
        match (self.branch_last_view(JoinSide::Left), self.branch_last_view(JoinSide::Right)) {
            (Some(l), Some(r)) => l + r,
            _ => Seq::empty(),
        }
    }

    /// The state and input a sequential join's right branch started on.
    pub closed spec fn right_start_view(&self) -> Option<(S, Seq<u8>)> {
        self.right_start@
    }

    /// The branch last asked for a request that handed one out, and that
    /// request.
    pub closed spec fn polled_view(&self) -> Option<(JoinSide, ExecRequest)> {
        self.polled@
    }

    /// The state of the left branch, once it has started.
    pub closed spec fn left_state_view(&self) -> Option<S> {
        match self.left_branch {
            Some(b) => Some(b.state),
            None => None,
        }
    }

    /// The join's input, once it has started.
    pub closed spec fn join_input_view(&self) -> Option<Seq<u8>> {
        match self.join_input {
            Some(i) => Some(i@),
            None => None,
        }
    }

    /// A sequential join's right branch starts once the left one has
    /// finished, on a clone of the left branch's final state and on the
    /// join's input.
    pub open spec fn right_starts_from_left(&self) -> bool {
        !self.progress_view().focused_merge ==> {
            &&& self.progress_view().right_started ==> self.right_start_view() is Some
            &&& self.right_start_view() matches Some((s, i)) ==> (self.progress_view().left_complete
                && (self.left_state_view() matches Some(l) && vstd::pervasive::cloned(l, s))
                && self.join_input_view() == Some(i))
        }
    }

    /// The right branch's start is recorded with the left branch's state it
    /// was cloned from.
    closed spec fn handoff_recorded(&self) -> bool {
        !self.progress@.focused_merge ==> {
            &&& self.right_branch is Some <==> self.right_start@ is Some
            &&& self.right_start@ matches Some((s, i)) ==> ((self.left_branch matches Some(l)
                && vstd::pervasive::cloned(l.state, s)) && (self.join_input matches Some(ji) && ji@ == i))
        }
    }

    /// The branches' bookkeeping matches the control state.
    pub closed spec fn wf(&self) -> bool {
        &&& join_wf(self.progress@)
        &&& self.progress@.initialized == self.left_branch is Some
        &&& self.progress@.initialized == self.join_input is Some
        &&& self.progress@.right_started == self.right_branch is Some
        &&& (self.left_branch matches Some(b) ==> b.cursor <= self.left.len())
        &&& (self.right_branch matches Some(b) ==> b.cursor <= self.right.len())
        &&& all_wf(self.left@)
        &&& all_wf(self.right@)
        &&& self.handoff_recorded()
    }

    /// A join of `left` and `right`; `focused_merge` runs them at once and
    /// merges their states back with `merge_left` and `merge_right`.
    pub fn new(
        left: DynFlow<S>,
        right: DynFlow<S>,
        focused_merge: bool,
        merge_left: Box<dyn StateMerge<S>>,
        merge_right: Box<dyn StateMerge<S>>,
    ) -> (j: Self)
        requires
            all_wf(left@),
            all_wf(right@),
        ensures
            j.wf(),
            j.progress_view() == crate::join::new_join(focused_merge),
    {
        JoinFlow {
            progress: JoinProgress::new(focused_merge),
            left,
            right,
            merge_left,
            merge_right,
            join_input: None,
            base_state: None,
            left_branch: None,
            right_branch: None,
            completed_emitted: None,
            right_start: Ghost(None),
            polled: Ghost(None),
        }
    }

    fn initialize_if_needed(&mut self, state: S, input: Vec<u8>)
        requires
            join_wf(old(self).progress@),
            old(self).join_input is Some ==> old(self).wf(),
            all_wf(old(self).left@),
            all_wf(old(self).right@),
            old(self).join_input is None ==> old(self).left_branch is None && old(self).right_branch is None
                && old(self).progress@.initialized && old(self).progress@.right_started
                == old(self).progress@.focused_merge,
            !old(self).progress@.focused_merge && old(self).join_input is None ==> old(self).right_start@ is None,
        ensures
            final(self).wf(),
            final(self).progress@ == old(self).progress@,
    {
        if self.join_input.is_some() {
            return;
        }
        self.join_input = Some(copy_bytes(&input));
        self.left_branch = Some(JoinBranch { state: state.clone(), cursor: 0, last_input: copy_bytes(&input) });
        if self.progress.is_focused() {
            self.base_state = Some(state.clone());
            self.right_branch = Some(JoinBranch { state, cursor: 0, last_input: input });
        }
    }

    /// Starts the right branch, from the left branch's state and the
    /// join's input, once the control state says it has started.
    fn sync_right_branch(&mut self)
        requires
            join_wf(old(self).progress@),
            old(self).progress@.initialized == old(self).left_branch is Some,
            old(self).progress@.initialized == old(self).join_input is Some,
            old(self).right_branch is Some ==> old(self).progress@.right_started,
            old(self).left_branch matches Some(b) ==> b.cursor <= old(self).left.len(),
            old(self).right_branch matches Some(b) ==> b.cursor <= old(self).right.len(),
            all_wf(old(self).left@),
            all_wf(old(self).right@),
            old(self).handoff_recorded(),
        ensures
            final(self).wf(),
            final(self).progress@ == old(self).progress@,
            final(self).left_branch == old(self).left_branch,
            final(self).completed_emitted == old(self).completed_emitted,
            final(self).polled == old(self).polled,
    {
        if self.progress.right_started() && self.right_branch.is_none() {
            let right_input = match &self.join_input {
                Some(i) => copy_bytes(i),
                None => Vec::new(),
            };
            let right_state = match &self.left_branch {
                Some(b) => b.state.clone(),
                None => {
                    return;
                },
            };
            if !self.progress.is_focused() {
                self.right_start = Ghost(Some((right_state, right_input@)));
            }
            self.right_branch = Some(JoinBranch { state: right_state, cursor: 0, last_input: right_input });
        }
    }

    /// The join's state: the base state with both branches merged back in
    /// for a merging join, else the state of the branch run last, or
    /// `fallback` before any branch started.
    fn current_state(&self, fallback: S) -> S {
        if self.progress.is_focused() {
            match &self.base_state {
                None => fallback,
                Some(base) => {
                    let mut merged = base.clone();
                    if let Some(l) = &self.left_branch {
                        self.merge_left.merge_into(&mut merged, l.state.clone());
                    }
                    if let Some(r) = &self.right_branch {
                        self.merge_right.merge_into(&mut merged, r.state.clone());
                    }
                    merged
                },
            }
        } else {
            match &self.right_branch {
                Some(r) => r.state.clone(),
                None => match &self.left_branch {
                    Some(l) => l.state.clone(),
                    None => fallback,
                },
            }
        }
    }

    fn apply_parent_path(&mut self)
        requires
            old(self).wf(),
        ensures
            final(self).wf(),
            final(self).progress@ == old(self).progress@,
    {
        let parent = self.progress.child_parent_path();
        assign_flow_parent_activation_path(&mut self.left, parent.as_slice());
        assign_flow_parent_activation_path(&mut self.right, parent.as_slice());
    }

    /// Records the joined value once the join has just completed.
    fn note_completion(&mut self, was_complete: bool)
        requires
            old(self).wf(),
        ensures
            final(self).wf(),
            final(self).progress@ == old(self).progress@,
            final(self).left_branch == old(self).left_branch,
            final(self).right_branch == old(self).right_branch,
            final(self).polled == old(self).polled,
            !was_complete && final(self).progress@.complete ==> (final(self).completed_emitted matches Some(e) && e@
                == final(self).joined_spec()),
    {
        if !was_complete && self.progress.is_complete() {
            let emitted = match (&self.left_branch, &self.right_branch) {
                (Some(l), Some(r)) => join_emitted(l.last_input.as_slice(), r.last_input.as_slice()),
                _ => Vec::new(),
            };
            self.completed_emitted = Some(emitted);
        }
    }

    /// Settles the branch on `side`, if it is running, and records whether
    /// it reached its end.
    fn settle_branch(&mut self, side: JoinSide) -> (r: Result<(), ExecutorError>)
        requires
            old(self).wf(),
            old(self).progress@.active_request is None,
        ensures
            r matches Err(e) ==> node_error(e),
            final(self).wf(),
            final(self).progress@.active_request is None,
            final(self).progress@.focused_merge == old(self).progress@.focused_merge,
            final(self).progress@.complete == old(self).progress@.complete,
            final(self).progress@.initialized == old(self).progress@.initialized,
            final(self).progress@.left_in_flight == old(self).progress@.left_in_flight,
            final(self).progress@.right_in_flight == old(self).progress@.right_in_flight,
    {
        match side {
            JoinSide::Left => {
                if self.progress.side_complete(JoinSide::Left) {
                    return Ok(());
                }
                let mut b = match self.left_branch.take() {
                    Some(b) => b,
                    None => return Ok(()),
                };
                let settled = settle_subflow_without_progress(
                    &mut self.left,
                    &mut b.cursor,
                    b.state.clone(),
                    &mut b.last_input,
                );
                let finished = b.cursor >= self.left.len();
                match settled {
                    Err(e) => {
                        self.left_branch = Some(b);
                        return Err(e);
                    },
                    Ok(s) => {
                        b.state = s;
                        self.left_branch = Some(b);
                        self.progress.settle(JoinSide::Left, finished);
                        self.sync_right_branch();
                        Ok(())
                    },
                }
            },
            JoinSide::Right => {
                if self.progress.side_complete(JoinSide::Right) {
                    return Ok(());
                }
                let mut b = match self.right_branch.take() {
                    Some(b) => b,
                    None => return Ok(()),
                };
                let settled = settle_subflow_without_progress(
                    &mut self.right,
                    &mut b.cursor,
                    b.state.clone(),
                    &mut b.last_input,
                );
                let finished = b.cursor >= self.right.len();
                match settled {
                    Err(e) => {
                        self.right_branch = Some(b);
                        return Err(e);
                    },
                    Ok(s) => {
                        b.state = s;
                        self.right_branch = Some(b);
                        self.progress.settle(JoinSide::Right, finished);
                        Ok(())
                    },
                }
            },
        }
    }

    /// Settles both branches without a request; completes the join when
    /// both are done; gives the join's state.
    fn settle_without_external_requests(&mut self, fallback: S) -> (r: Result<S, ExecutorError>)
        requires
            old(self).wf(),
            old(self).progress@.active_request is None,
        ensures
            r matches Err(e) ==> node_error(e),
            final(self).wf(),
            final(self).progress@.active_request is None,
            final(self).progress@.focused_merge == old(self).progress@.focused_merge,
            final(self).progress@.initialized == old(self).progress@.initialized,
            !old(self).progress@.complete && final(self).progress@.complete ==> (final(self).completed_emitted matches Some(e) && e@ == final(self).joined_spec()),
            old(self).progress@.complete ==> final(self).progress@.complete,
            r is Ok ==> final(self).progress@.complete || !(final(self).progress@.left_complete && final(self).progress@.right_complete),
            final(self).progress@.left_in_flight == old(self).progress@.left_in_flight,
            final(self).progress@.right_in_flight == old(self).progress@.right_in_flight,
    {
        self.settle_branch(JoinSide::Left)?;
        self.settle_branch(JoinSide::Right)?;
        let current = self.current_state(fallback);
        let was = self.progress.is_complete();
        self.progress.finish_if_done();
        self.note_completion(was);
        Ok(current)
    }

    /// Asks the branch on `side` for its next request.
    fn ask_branch(&mut self, side: JoinSide) -> (r: (BranchPoll, Option<ExecRequest>, Option<ExecutorError>))
        requires
            old(self).wf(),
            pollable(old(self).progress@, side),
        ensures
            r.2 matches Some(e) ==> node_error(e),
            r.0 is Requested ==> (r.1 matches Some(q) && final(self).polled@ == Some((side, q))),
            final(self).wf(),
            final(self).progress@ == old(self).progress@,
    {
        let taken = match side {
            JoinSide::Left => self.left_branch.take(),
            JoinSide::Right => self.right_branch.take(),
        };
        let mut branch = match taken {
            Some(branch) => branch,
            None => return (BranchPoll::OtherError, None, Some(ExecutorError::Complete)),
        };
        let flow = match side {
            JoinSide::Left => &mut self.left,
            JoinSide::Right => &mut self.right,
        };
        let asked = subflow_next_request(flow, &mut branch.cursor, branch.state.clone(), &mut branch.last_input, true);
        let answer = match asked {
            Ok((s, request)) => {
                branch.state = s;
                self.polled = Ghost(Some((side, request)));
                (BranchPoll::Requested, Some(request), None)
            },
            Err((s, ExecutorError::Complete)) => {
                branch.state = s;
                (BranchPoll::Complete, None, None)
            },
            Err((s, ExecutorError::ActionFailure(f))) => {
                branch.state = s;
                (BranchPoll::ActionFailure, None, Some(ExecutorError::ActionFailure(f)))
            },
            Err((s, ExecutorError::AwaitingCompletion)) => {
                branch.state = s;
                (BranchPoll::AwaitingCompletion, None, Some(ExecutorError::AwaitingCompletion))
            },
            Err((s, e)) => {
                branch.state = s;
                (BranchPoll::OtherError, None, Some(e))
            },
        };
        match side {
            JoinSide::Left => self.left_branch = Some(branch),
            JoinSide::Right => self.right_branch = Some(branch),
        }
        answer
    }
}

impl<S: Clone> ErasedFlow<S> for JoinFlow<S> {
    open spec fn flow_complete(&self) -> bool {
        self.progress_view().complete
    }

    open spec fn flow_waiting(&self) -> bool {
        self.progress_view().active_request is Some || self.progress_view().left_in_flight > 0
            || self.progress_view().right_in_flight > 0
    }

    open spec fn flow_wf(&self) -> bool {
        self.wf()
    }

    /// Serves a request: only executable requests are served, since the
    /// completions must come back addressed to a branch. A finished join
    /// answers `Complete` and a sequential join with a request in flight
    /// answers `AwaitingCompletion`, both unchanged; otherwise it asks its
    /// branches in turn, and a request it hands out is, in a sequential
    /// join, one of the left branch exactly while that branch has not
    /// finished.
    fn request(&mut self, state: S, input: Vec<u8>, executable: bool) -> (r: Result<(S, ExecRequest), (S, ExecutorError)>)
        ensures
            r matches Ok((_, req)) ==> (final(self).polled_view() matches Some((side, q)) && (if old(self).progress_view().focused_merge {
                req.join_route@ == q.join_route@.push(side) && req.request_bytes == q.request_bytes && req.node_id
                    == q.node_id && req.effect_type == q.effect_type
            } else {
                req == q && final(self).progress_view().active_request == Some(side)
            })),
            final(self).right_starts_from_left(),
            !executable ==> (r matches Err((s, ExecutorError::ClientTransport(_))) && s == state && *final(self)
                == *old(self)),
            executable && old(self).progress_view().complete ==> (r matches Err((s, ExecutorError::Complete)) && s == state
                && *final(self) == *old(self)),
            executable && !old(self).progress_view().complete && !old(self).progress_view().focused_merge
                && old(self).progress_view().active_request is Some ==> (r matches Err(
                (s, ExecutorError::AwaitingCompletion),
            ) && s == state && *final(self) == *old(self)),
            r is Err ==> final(self).progress_view().active_request == old(self).progress_view().active_request
                && final(self).progress_view().left_in_flight == old(self).progress_view().left_in_flight
                && final(self).progress_view().right_in_flight == old(self).progress_view().right_in_flight,
            old(self).progress_view().focused_merge ==> (r matches Ok((_, req)) ==> req.join_route@.len() > 0 && (
            req.join_route@.last() == JoinSide::Left ==> final(self).progress_view().left_in_flight > 0) && (
            req.join_route@.last() == JoinSide::Right ==> final(self).progress_view().right_in_flight > 0)),
            r is Ok && !old(self).progress_view().focused_merge ==> (final(self).progress_view().active_request
                == Some(JoinSide::Left) <==> !final(self).progress_view().left_complete)
                && final(self).progress_view().active_request is Some,
            r is Ok && old(self).progress_view().focused_merge ==> final(self).progress_view().active_request is None,
    {
        if !executable {
            return Err(
                (state, ExecutorError::ClientTransport(String::from_str("Join requires executable request mode"))),
            );
        }
        match self.progress.begin_request() {
            Some(JoinStep::Complete) => return Err((state, ExecutorError::Complete)),
            Some(_) => return Err((state, ExecutorError::AwaitingCompletion)),
            None => {},
        }
        self.initialize_if_needed(state.clone(), input);
        self.apply_parent_path();
        let mut current = match self.settle_without_external_requests(state.clone()) {
            Ok(c) => c,
            Err(ExecutorError::ActionFailure(f)) => {
                self.progress.fail_activation();
                return Err((self.current_state(state), ExecutorError::ActionFailure(f)));
            },
            Err(e) => return Err((self.current_state(state), e)),
        };
        if self.progress.is_complete() {
            return Err((current, ExecutorError::Complete));
        }
        proof {
            lemma_first_poll_pollable(self.progress@);
        }
        let mut step = self.progress.first_poll();
        let mut budget: usize = 2;
        loop
            invariant
                self.wf(),
                step matches JoinStep::Poll(side) ==> pollable(self.progress@, side),
                !self.progress@.focused_merge ==> step matches JoinStep::Poll(_),
                self.progress@.active_request is None,
                self.progress@.focused_merge == old(self).progress@.focused_merge,
                self.progress@.left_in_flight == old(self).progress@.left_in_flight,
                self.progress@.right_in_flight == old(self).progress@.right_in_flight,
                old(self).progress@.active_request is None,
                !old(self).progress@.complete,
                old(self).progress@.focused_merge || old(self).progress@.active_request is None,
                executable,
            decreases budget,
        {
            match step {
                JoinStep::Poll(side) => {
                    let (poll, request, error) = self.ask_branch(side);
                    current = self.current_state(current);
                    let was = self.progress.is_complete();
                    proof {
                        lemma_polls_stay_pollable(self.progress@, side, poll);
                        lemma_poll_records_only_requests(self.progress@, side, poll);
                    }
                    step = self.progress.after_poll(side, poll);
                    self.sync_right_branch();
                    self.note_completion(was);
                    match step {
                        JoinStep::Request(s) => {
                            let request = match request {
                                Some(r) => r,
                                None => return Err((current, ExecutorError::NoPendingRequest)),
                            };
                            if self.progress.is_focused() {
                                return Ok((current, wrap_branch_request(s, request)));
                            }
                            return Ok((current, request));
                        },
                        JoinStep::Poll(_) => {
                            if budget == 0 {
                                return Err((current, ExecutorError::AwaitingCompletion));
                            }
                            budget = budget - 1;
                        },
                        JoinStep::Complete => return Err((current, ExecutorError::Complete)),
                        JoinStep::Awaiting => return Err((current, ExecutorError::AwaitingCompletion)),
                        JoinStep::Failed | JoinStep::PassUp => {
                            let e = match error {
                                Some(e) => e,
                                None => ExecutorError::AwaitingCompletion,
                            };
                            return Err((current, e));
                        },
                    }
                },
                _ => return Err((current, ExecutorError::AwaitingCompletion)),
            }
        }
    }

    /// Takes a completion: routes it to its branch, gives it to that
    /// branch, settles both branches, and emits the branch's value, or the
    /// joined value once the join has completed.
    fn complete(&mut self, state: S, completion: Result<Vec<u8>, Vec<u8>>) -> (r: Result<(S, Vec<u8>), ExecutorError>)
        ensures
            final(self).right_starts_from_left(),
            old(self).progress_view().complete ==> (r matches Err(ExecutorError::Complete) && *final(self)
                == *old(self)),
            !old(self).progress_view().complete ==> match route_spec(old(self).progress_view(), completion_view(completion)).1 {
                Err(RouteErrorView::NoPendingRequest) => r matches Err(ExecutorError::NoPendingRequest) && *final(self)
                    == *old(self),
                Err(RouteErrorView::Complete) => r matches Err(ExecutorError::Complete) && *final(self) == *old(self),
                Err(RouteErrorView::OutputDeserialize) => r matches Err(ExecutorError::OutputDeserialize(_))
                    && *final(self) == *old(self),
                Err(RouteErrorView::ErrorDeserialize(_)) => r matches Err(ExecutorError::ErrorDeserialize(_))
                    && *final(self) == *old(self),
                Ok(_) => final(self).progress_view().active_request == route_spec(
                    old(self).progress_view(),
                    completion_view(completion),
                ).0.active_request && final(self).progress_view().left_in_flight == route_spec(
                    old(self).progress_view(),
                    completion_view(completion),
                ).0.left_in_flight && final(self).progress_view().right_in_flight == route_spec(
                    old(self).progress_view(),
                    completion_view(completion),
                ).0.right_in_flight,
            },
            final(self).progress_view().complete ==> (r matches Ok((_, e)) ==> e@ == final(self).joined_spec()),
    {
        if self.progress.is_complete() {
            return Err(ExecutorError::Complete);
        }
        let (side, completion) = match self.progress.route_completion(completion) {
            Ok(x) => x,
            Err(e) => return Err(route_error(e)),
        };
        self.sync_right_branch();
        self.apply_parent_path();
        let taken = match side {
            JoinSide::Left => self.left_branch.take(),
            JoinSide::Right => self.right_branch.take(),
        };
        let mut b = match taken {
            Some(b) => b,
            None => return Err(ExecutorError::NoPendingRequest),
        };
        let flow = match side {
            JoinSide::Left => &mut self.left,
            JoinSide::Right => &mut self.right,
        };
        let done = subflow_complete_serialized(flow, &mut b.cursor, b.state.clone(), &mut b.last_input, completion);
        let finished = b.cursor >= flow.len();
        let emitted = match done {
            Err(e) => {
                match side {
                    JoinSide::Left => self.left_branch = Some(b),
                    JoinSide::Right => self.right_branch = Some(b),
                }
                return Err(e);
            },
            Ok((s, emitted)) => {
                b.state = s;
                match side {
                    JoinSide::Left => self.left_branch = Some(b),
                    JoinSide::Right => self.right_branch = Some(b),
                }
                emitted
            },
        };
        self.progress.settle(side, finished);
        self.sync_right_branch();
        let current = self.current_state(state);
        let current = self.settle_without_external_requests(current)?;
        if self.progress.is_complete() {
            let joined = match &self.completed_emitted {
                Some(e) => copy_bytes(e),
                None => Vec::new(),
            };
            return Ok((current, joined));
        }
        Ok((current, emitted))
    }

    fn try_complete_without_progress(&mut self, state: S) -> (r: Result<(S, Option<Vec<u8>>, bool), ExecutorError>) {
        match self.progress.idle_check() {
            IdleCheck::Finished => Ok((state, self.completed_emitted.take(), true)),
            IdleCheck::Busy => Ok((state, None, false)),
            IdleCheck::Settle => {
                self.apply_parent_path();
                let current = self.settle_without_external_requests(state)?;
                if self.progress.is_complete() {
                    Ok((current, self.completed_emitted.take(), true))
                } else {
                    Ok((current, None, false))
                }
            },
        }
    }

    fn is_waiting_completion(&self) -> (b: bool) {
        self.progress.is_waiting_completion()
    }

    fn is_complete(&self) -> (b: bool) {
        self.progress.is_complete()
    }

    fn set_parent_activation_path(&mut self, path: &[u64]) {
        self.progress.set_parent_activation_path(path);
    }

    fn set_journey_id(&mut self, journey_id: uuid::Uuid) {
        self.progress.set_journey_id(journey_id);
        assign_flow_journey_id(&mut self.left, journey_id);
        assign_flow_journey_id(&mut self.right, journey_id);
    }

    fn take_node_lifecycle_updates(&mut self) -> (updates: Vec<NodeLifecycle>) {
        let mut updates = self.progress.take_node_lifecycle_updates();
        let mut l = take_flow_node_lifecycle_updates(&mut self.left);
        let mut r = take_flow_node_lifecycle_updates(&mut self.right);
        updates.append(&mut l);
        updates.append(&mut r);
        updates
    }

    fn node_id(&self) -> u32 {
        self.progress.node_id()
    }

    fn assign_node_ids(&mut self, next_id: &mut u32) {
        self.progress.assign_node_id(next_id);
        assign_flow_node_ids(&mut self.left, next_id);
        assign_flow_node_ids(&mut self.right, next_id);
    }
}

} // verus!
