use crate::envelope::{
    decode_either_envelope, either_decode_spec, either_envelope_spec, encode_conditional_emitted,
    lemma_envelope_roundtrip, lemma_pow128_nine, lemma_varint_decode_bound, lemma_varint_roundtrip,
    pow128, push_varint, take_varint, varint_decode, varint_spec, ActiveBranch,
};
use crate::lifecycle::{enter_spec, finish_spec, initial_lifecycle, LifecycleState, LifecycleView};
use crate::transport::NodeLifecyclePhase;
use vstd::prelude::*;

verus! {

/// One of the two branches of a join.
#[derive(Debug, Clone, Copy, PartialEq, Eq, Structural)]
pub enum JoinSide {
    Left,
    Right,
}

/// What a branch answered when asked for its next executable request.
#[derive(Debug, Clone, Copy, PartialEq, Eq, Structural)]
pub enum BranchPoll {
    /// The branch handed out an effect request.
    Requested,
    /// The branch has no node left to run.
    Complete,
    /// An action of the branch failed.
    ActionFailure,
    /// The branch waits for a completion before it can go on.
    AwaitingCompletion,
    /// The branch reported any other error.
    OtherError,
}

/// What a join does next while it serves a request.
#[derive(Debug, Clone, Copy, PartialEq, Eq, Structural)]
pub enum JoinStep {
    /// Ask this branch for its next request.
    Poll(JoinSide),
    /// Hand out the request this branch just made.
    Request(JoinSide),
    /// The join has finished; no request can be made.
    Complete,
    /// An action failed: the join's activation fails and the failure is passed up.
    Failed,
    /// Nothing can go on until a completion arrives.
    Awaiting,
    /// The branch's error is passed up unchanged.
    PassUp,
}

/// Why a completion could not be routed to a branch.
#[derive(Debug, Clone, PartialEq, Eq)]
pub enum JoinRouteError {
    /// The join has already finished.
    Complete,
    /// A sequential join has no request in flight.
    NoPendingRequest,
    /// A successful completion of a merging join carried no side envelope
    /// and more than one request was in flight.
    OutputDeserialize,
    /// A failed completion of a merging join, with these bytes, arrived
    /// while more than one request was in flight.
    ErrorDeserialize(Vec<u8>),
}

/// The control state of a join: which of its branches have started and
/// finished, which requests are in flight, and the join node's own
/// lifecycle. A sequential join runs its left branch to its end before it
/// starts the right one; a merging join runs both at once, each on its own
/// copy of the state, and routes completions by a side envelope.
pub struct JoinProgress {
    lifecycle: LifecycleState,
    node_id: u32,
    focused_merge: bool,
    initialized: bool,
    left_complete: bool,
    right_started: bool,
    right_complete: bool,
    active_request: Option<JoinSide>,
    left_requests_in_flight: usize,
    right_requests_in_flight: usize,
    complete: bool,
}

/// Mathematical model of a [`JoinProgress`].
pub struct JoinView {
    pub node_id: u32,
    pub focused_merge: bool,
    pub initialized: bool,
    pub left_complete: bool,
    pub right_started: bool,
    pub right_complete: bool,
    pub active_request: Option<JoinSide>,
    pub left_in_flight: usize,
    pub right_in_flight: usize,
    pub complete: bool,
    pub lifecycle: LifecycleView,
}

impl View for JoinProgress {
    type V = JoinView;

    closed spec fn view(&self) -> JoinView {
        JoinView {
            node_id: self.node_id,
            focused_merge: self.focused_merge,
            initialized: self.initialized,
            left_complete: self.left_complete,
            right_started: self.right_started,
            right_complete: self.right_complete,
            active_request: self.active_request,
            left_in_flight: self.left_requests_in_flight,
            right_in_flight: self.right_requests_in_flight,
            complete: self.complete,
            lifecycle: self.lifecycle@,
        }
    }
}

/// The states a join can reach: it is complete only once both branches
/// are; a branch finishes only after it started; a merging join starts
/// both branches together and counts its requests in flight; a sequential
/// join starts its right branch exactly when its left branch has finished,
/// and its one request in flight belongs to a running branch.
pub open spec fn join_wf(v: JoinView) -> bool {
    &&& v.complete ==> v.left_complete && v.right_complete
    &&& v.left_complete ==> v.initialized
    &&& v.right_started ==> v.initialized
    &&& v.right_complete ==> v.right_started
    &&& v.focused_merge ==> v.right_started == v.initialized && v.active_request is None
    &&& !v.focused_merge ==> v.right_started == v.left_complete && v.left_in_flight == 0
        && v.right_in_flight == 0
    &&& v.active_request == Some(JoinSide::Left) ==> v.initialized && !v.left_complete
    &&& v.active_request == Some(JoinSide::Right) ==> v.right_started && !v.right_complete
}

/// A join that has not been asked for anything yet.
pub open spec fn new_join(focused_merge: bool) -> JoinView {
    JoinView {
        node_id: 0,
        focused_merge,
        initialized: false,
        left_complete: false,
        right_started: false,
        right_complete: false,
        active_request: None,
        left_in_flight: 0,
        right_in_flight: 0,
        complete: false,
        lifecycle: initial_lifecycle(),
    }
}

/// The first time a join is asked for a request it starts its left branch,
/// and a merging join its right branch too.
pub open spec fn initialize_spec(v: JoinView) -> JoinView {
    if v.initialized {
        v
    } else {
        JoinView { initialized: true, right_started: v.focused_merge, ..v }
    }
}

/// The start of serving a request: a finished join answers `Complete`, a
/// sequential join with a request in flight answers `Awaiting`; otherwise
/// the join's activation is entered and its branches are started.
pub open spec fn begin_spec(v: JoinView) -> (JoinView, Option<JoinStep>) {
    if v.complete {
        (v, Some(JoinStep::Complete))
    } else if !v.focused_merge && v.active_request is Some {
        (v, Some(JoinStep::Awaiting))
    } else {
        (initialize_spec(JoinView { lifecycle: enter_spec(v.lifecycle), ..v }), None)
    }
}

/// Records whether a started branch reached its end after its nodes were
/// settled; the right branch starts once the left one is done.
pub open spec fn settle_spec(v: JoinView, side: JoinSide, finished: bool) -> JoinView {
    match side {
        JoinSide::Left => if !v.initialized || v.left_complete || !finished {
            v
        } else {
            JoinView { left_complete: true, right_started: true, ..v }
        },
        JoinSide::Right => if !v.right_started || v.right_complete || !finished {
            v
        } else {
            JoinView { right_complete: true, ..v }
        },
    }
}

/// Once both branches are done the join becomes complete and its
/// activation succeeds.
pub open spec fn finish_spec_join(v: JoinView) -> JoinView {
    if v.left_complete && v.right_complete && !v.complete {
        JoinView { complete: true, lifecycle: finish_spec(v.lifecycle, NodeLifecyclePhase::Succeeded), ..v }
    } else {
        v
    }
}

/// The branch a join asks first while serving a request.
pub open spec fn first_poll_spec(v: JoinView) -> JoinStep {
    if !v.left_complete {
        JoinStep::Poll(JoinSide::Left)
    } else if !v.right_complete {
        JoinStep::Poll(JoinSide::Right)
    } else {
        JoinStep::Awaiting
    }
}

/// Whether the join may ask `side` for a request: the branch has started
/// and not finished, and no request of a sequential join is in flight.
pub open spec fn pollable(v: JoinView, side: JoinSide) -> bool {
    &&& v.initialized && !v.complete && v.active_request is None
    &&& match side {
        JoinSide::Left => !v.left_complete,
        JoinSide::Right => v.right_started && !v.right_complete,
    }
}

/// What follows a branch that neither made a request nor stopped the join:
/// a merging join goes on to its right branch if that one is still
/// running, and otherwise waits; a sequential join goes on to its right
/// branch after its left one.
pub open spec fn next_after(v: JoinView, side: JoinSide) -> JoinStep {
    match side {
        JoinSide::Left => if !v.right_complete {
            JoinStep::Poll(JoinSide::Right)
        } else {
            JoinStep::Awaiting
        },
        JoinSide::Right => JoinStep::Awaiting,
    }
}

/// The side's branch marked finished.
pub open spec fn mark_side_complete(v: JoinView, side: JoinSide) -> JoinView {
    match side {
        JoinSide::Left => JoinView { left_complete: true, right_started: true, ..v },
        JoinSide::Right => JoinView { right_complete: true, ..v },
    }
}

/// The side's count of requests in flight, one higher, stopping at the
/// largest `usize`.
pub open spec fn count_request(v: JoinView, side: JoinSide) -> JoinView {
    match side {
        JoinSide::Left => JoinView {
            left_in_flight: if v.left_in_flight == usize::MAX { usize::MAX } else { (v.left_in_flight + 1) as usize },
            ..v
        },
        JoinSide::Right => JoinView {
            right_in_flight: if v.right_in_flight == usize::MAX { usize::MAX } else { (v.right_in_flight + 1) as usize },
            ..v
        },
    }
}

/// How a join answers what `side` gave when asked for a request.
/// A request is handed out, counted in flight by a merging join and
/// remembered by a sequential one. A finished branch is marked; when both
/// are done the join completes. A failed action fails the join's
/// activation. A merging join passes over a waiting branch to the other
/// one; a sequential join passes the wait up, as it does any other error.
pub open spec fn poll_spec(v: JoinView, side: JoinSide, outcome: BranchPoll) -> (JoinView, JoinStep) {
    match outcome {
        BranchPoll::Requested => if v.focused_merge {
            (count_request(v, side), JoinStep::Request(side))
        } else {
            (JoinView { active_request: Some(side), ..v }, JoinStep::Request(side))
        },
        BranchPoll::Complete => {
            let c = mark_side_complete(v, side);
            if c.left_complete && c.right_complete {
                (finish_spec_join(c), JoinStep::Complete)
            } else {
                (c, next_after(c, side))
            }
        },
        BranchPoll::ActionFailure => (
            JoinView { lifecycle: finish_spec(v.lifecycle, NodeLifecyclePhase::Failed), ..v },
            JoinStep::Failed,
        ),
        BranchPoll::AwaitingCompletion => if v.focused_merge {
            (v, next_after(v, side))
        } else {
            (v, JoinStep::PassUp)
        },
        BranchPoll::OtherError => (v, JoinStep::PassUp),
    }
}

/// The view of a serialized completion.
pub open spec fn completion_view(c: Result<Vec<u8>, Vec<u8>>) -> Result<Seq<u8>, Seq<u8>> {
    match c {
        Ok(b) => Ok(b@),
        Err(b) => Err(b@),
    }
}

/// The view of a routing error.
pub enum RouteErrorView {
    Complete,
    NoPendingRequest,
    OutputDeserialize,
    ErrorDeserialize(Seq<u8>),
}

pub open spec fn route_error_view(e: JoinRouteError) -> RouteErrorView {
    match e {
        JoinRouteError::Complete => RouteErrorView::Complete,
        JoinRouteError::NoPendingRequest => RouteErrorView::NoPendingRequest,
        JoinRouteError::OutputDeserialize => RouteErrorView::OutputDeserialize,
        JoinRouteError::ErrorDeserialize(b) => RouteErrorView::ErrorDeserialize(b@),
    }
}


/// A merging join's count for `side`, one lower, stopping at zero.
pub open spec fn uncount_request(v: JoinView, side: JoinSide) -> JoinView {
    match side {
        JoinSide::Left => JoinView {
            left_in_flight: if v.left_in_flight == 0 { 0 } else { (v.left_in_flight - 1) as usize },
            ..v
        },
        JoinSide::Right => JoinView {
            right_in_flight: if v.right_in_flight == 0 { 0 } else { (v.right_in_flight - 1) as usize },
            ..v
        },
    }
}

/// Exactly one request of a merging join is in flight.
pub open spec fn single_flight(v: JoinView) -> bool {
    (v.left_in_flight == 1 && v.right_in_flight == 0) || (v.left_in_flight == 0 && v.right_in_flight == 1)
}

/// The side of the one request in flight.
pub open spec fn single_side(v: JoinView) -> JoinSide {
    if v.left_in_flight == 1 {
        JoinSide::Left
    } else {
        JoinSide::Right
    }
}

/// The routing of a completion to the branch whose request it answers.
/// A finished join takes none. A sequential join gives it to the branch
/// of its request in flight. A merging join reads the side from the
/// completion's envelope and unwraps it; a completion without envelope
/// goes, unchanged, to the side of the one request in flight, and is
/// refused when there is not exactly one.
pub open spec fn route_spec(v: JoinView, c: Result<Seq<u8>, Seq<u8>>) -> (
    JoinView,
    Result<(JoinSide, Result<Seq<u8>, Seq<u8>>), RouteErrorView>,
) {
    if v.complete {
        (v, Err(RouteErrorView::Complete))
    } else if v.focused_merge {
        match c {
            Ok(b) => match join_completion_decode_spec(b) {
                Some((side, inner)) => (uncount_request(v, side), Ok((side, inner))),
                None => if single_flight(v) {
                    (uncount_request(v, single_side(v)), Ok((single_side(v), c)))
                } else {
                    (v, Err(RouteErrorView::OutputDeserialize))
                },
            },
            Err(b) => if single_flight(v) {
                (uncount_request(v, single_side(v)), Ok((single_side(v), c)))
            } else {
                (v, Err(RouteErrorView::ErrorDeserialize(b)))
            },
        }
    } else {
        match v.active_request {
            None => (v, Err(RouteErrorView::NoPendingRequest)),
            Some(side) => (JoinView { active_request: None, ..v }, Ok((side, c))),
        }
    }
}

/// What a join without a request to serve can do: a finished join hands
/// out its result; one with a request in flight, or never started, must
/// wait; otherwise its branches may be settled.
#[derive(Debug, Clone, Copy, PartialEq, Eq, Structural)]
pub enum IdleCheck {
    Finished,
    Busy,
    Settle,
}

pub open spec fn idle_check_spec(v: JoinView) -> IdleCheck {
    if v.complete {
        IdleCheck::Finished
    } else if v.active_request is Some || v.left_in_flight > 0 || v.right_in_flight > 0 || !v.initialized {
        IdleCheck::Busy
    } else {
        IdleCheck::Settle
    }
}

impl JoinProgress {
    /// A join that has not been asked for anything yet; `focused_merge`
    /// makes it run both branches at once.
    pub fn new(focused_merge: bool) -> (j: JoinProgress)
        ensures
            j@ == new_join(focused_merge),
            join_wf(j@),
    {
        JoinProgress {
            lifecycle: LifecycleState::new(),
            node_id: 0,
            focused_merge,
            initialized: false,
            left_complete: false,
            right_started: false,
            right_complete: false,
            active_request: None,
            left_requests_in_flight: 0,
            right_requests_in_flight: 0,
            complete: false,
        }
    }

    pub fn is_complete(&self) -> (b: bool)
        ensures
            b == self@.complete,
    {
        self.complete
    }

    /// Whether a request of the join is in flight.
    pub fn is_waiting_completion(&self) -> (b: bool)
        ensures
            b == (self@.active_request is Some || self@.left_in_flight > 0 || self@.right_in_flight > 0),
    {
        self.active_request.is_some() || self.left_requests_in_flight > 0 || self.right_requests_in_flight > 0
    }

    /// Whether both branches have finished.
    pub fn all_complete(&self) -> (b: bool)
        ensures
            b == (self@.left_complete && self@.right_complete),
    {
        self.left_complete && self.right_complete
    }

    /// The number of requests of `side` in flight in a merging join.
    pub fn requests_in_flight(&self, side: JoinSide) -> (n: usize)
        ensures
            n == match side {
                JoinSide::Left => self@.left_in_flight,
                JoinSide::Right => self@.right_in_flight,
            },
    {
        match side {
            JoinSide::Left => self.left_requests_in_flight,
            JoinSide::Right => self.right_requests_in_flight,
        }
    }

    pub fn node_id(&self) -> (id: u32)
        ensures
            id == self@.node_id,
    {
        self.node_id
    }

    /// Gives the join node the id `*next_id` and moves `*next_id` on by one,
    /// stopping at the largest `u32`; the branches' nodes are numbered from there.
    pub fn assign_node_id(&mut self, next_id: &mut u32)
        requires
            join_wf(old(self)@),
        ensures
            final(self)@ == (JoinView {
                node_id: *old(next_id),
                lifecycle: LifecycleView { node_id: *old(next_id), ..old(self)@.lifecycle },
                ..old(self)@
            }),
            *final(next_id) == if *old(next_id) == u32::MAX { u32::MAX } else { (*old(next_id) + 1) as u32 },
            join_wf(final(self)@),
    {
        self.node_id = *next_id;
        self.lifecycle.set_node_id(*next_id);
        *next_id = next_id.saturating_add(1);
    }

    pub fn set_journey_id(&mut self, journey_id: uuid::Uuid)
        requires
            join_wf(old(self)@),
        ensures
            final(self)@ == (JoinView {
                lifecycle: LifecycleView { journey_id: Some(journey_id), ..old(self)@.lifecycle },
                ..old(self)@
            }),
            join_wf(final(self)@),
    {
        self.lifecycle.set_journey_id(journey_id);
    }

    /// Sets the path the join's next activation is numbered under; ignored
    /// while an activation is open.
    pub fn set_parent_activation_path(&mut self, path: &[u64])
        requires
            join_wf(old(self)@),
        ensures
            old(self)@.lifecycle.current_activation_path is Some ==> final(self)@ == old(self)@,
            old(self)@.lifecycle.current_activation_path is None ==> final(self)@ == (JoinView {
                lifecycle: LifecycleView { parent_activation_path: path@, ..old(self)@.lifecycle },
                ..old(self)@
            }),
            join_wf(final(self)@),
    {
        self.lifecycle.set_parent_activation_path(path);
    }

    /// The path the branches' activations are numbered under: the join's
    /// open activation, or the empty path.
    pub fn child_parent_path(&self) -> (path: Vec<u64>)
        ensures
            path@ == match self@.lifecycle.current_activation_path {
                Some(p) => p,
                None => Seq::empty(),
            },
    {
        match self.lifecycle.current_activation_path() {
            Some(p) => vstd::slice::slice_to_vec(p),
            None => Vec::new(),
        }
    }

    /// Hands out the join node's own recorded lifecycle events and forgets them.
    pub fn take_node_lifecycle_updates(&mut self) -> (updates: Vec<crate::transport::NodeLifecycle>)
        requires
            join_wf(old(self)@),
        ensures
            updates@.map_values(|u: crate::transport::NodeLifecycle| u@) == old(self)@.lifecycle.updates,
            final(self)@ == (JoinView {
                lifecycle: LifecycleView { updates: Seq::empty(), ..old(self)@.lifecycle },
                ..old(self)@
            }),
            join_wf(final(self)@),
    {
        self.lifecycle.take_updates()
    }

    /// Whether the join runs its branches at once, merging their states.
    pub fn is_focused(&self) -> (b: bool)
        ensures
            b == self@.focused_merge,
    {
        self.focused_merge
    }

    /// Whether the right branch has started.
    pub fn right_started(&self) -> (b: bool)
        ensures
            b == self@.right_started,
    {
        self.right_started
    }

    /// Whether the branch on `side` has finished.
    pub fn side_complete(&self, side: JoinSide) -> (b: bool)
        ensures
            b == match side {
                JoinSide::Left => self@.left_complete,
                JoinSide::Right => self@.right_complete,
            },
    {
        match side {
            JoinSide::Left => self.left_complete,
            JoinSide::Right => self.right_complete,
        }
    }

    /// Closes the join's open activation as failed.
    pub fn fail_activation(&mut self)
        requires
            join_wf(old(self)@),
        ensures
            final(self)@ == (JoinView {
                lifecycle: finish_spec(old(self)@.lifecycle, NodeLifecyclePhase::Failed),
                ..old(self)@
            }),
            join_wf(final(self)@),
    {
        self.lifecycle.fail();
    }

    /// Starts serving a request; `Some` is the answer when the join cannot
    /// serve one.
    pub fn begin_request(&mut self) -> (step: Option<JoinStep>)
        requires
            join_wf(old(self)@),
        ensures
            (final(self)@, step) == begin_spec(old(self)@),
            join_wf(final(self)@),
            step is Some ==> *final(self) == *old(self),
    {
        if self.complete {
            return Some(JoinStep::Complete);
        }
        if !self.focused_merge && self.active_request.is_some() {
            return Some(JoinStep::Awaiting);
        }
        self.lifecycle.enter();
        if !self.initialized {
            self.initialized = true;
            self.right_started = self.focused_merge;
        }
        None
    }

    /// Records whether the branch on `side`, if started, reached its end
    /// after its nodes were settled.
    pub fn settle(&mut self, side: JoinSide, finished: bool)
        requires
            join_wf(old(self)@),
            old(self)@.active_request is None,
        ensures
            final(self)@ == settle_spec(old(self)@, side, finished),
            join_wf(final(self)@),
    {
        match side {
            JoinSide::Left => {
                if self.initialized && !self.left_complete && finished {
                    self.left_complete = true;
                    self.right_started = true;
                }
            },
            JoinSide::Right => {
                if self.right_started && !self.right_complete && finished {
                    self.right_complete = true;
                }
            },
        }
    }

    /// Completes the join, and its activation, once both branches are
    /// done; tells whether the join is complete.
    pub fn finish_if_done(&mut self) -> (done: bool)
        requires
            join_wf(old(self)@),
        ensures
            final(self)@ == finish_spec_join(old(self)@),
            done == final(self)@.complete,
            join_wf(final(self)@),
    {
        if self.left_complete && self.right_complete && !self.complete {
            self.complete = true;
            self.lifecycle.succeed();
        }
        self.complete
    }

    /// The branch to ask first while serving a request.
    pub fn first_poll(&self) -> (step: JoinStep)
        ensures
            step == first_poll_spec(self@),
    {
        if !self.left_complete {
            JoinStep::Poll(JoinSide::Left)
        } else if !self.right_complete {
            JoinStep::Poll(JoinSide::Right)
        } else {
            JoinStep::Awaiting
        }
    }

    /// Takes what the branch on `side` answered and tells what to do next.
    pub fn after_poll(&mut self, side: JoinSide, outcome: BranchPoll) -> (step: JoinStep)
        requires
            join_wf(old(self)@),
            pollable(old(self)@, side),
        ensures
            (final(self)@, step) == poll_spec(old(self)@, side, outcome),
            join_wf(final(self)@),
    {
        match outcome {
            BranchPoll::Requested => {
                if self.focused_merge {
                    match side {
                        JoinSide::Left => {
                            self.left_requests_in_flight = self.left_requests_in_flight.saturating_add(1);
                        },
                        JoinSide::Right => {
                            self.right_requests_in_flight = self.right_requests_in_flight.saturating_add(1);
                        },
                    }
                } else {
                    self.active_request = Some(side);
                }
                JoinStep::Request(side)
            },
            BranchPoll::Complete => {
                match side {
                    JoinSide::Left => {
                        self.left_complete = true;
                        self.right_started = true;
                    },
                    JoinSide::Right => {
                        self.right_complete = true;
                    },
                }
                if self.left_complete && self.right_complete {
                    self.finish_if_done();
                    JoinStep::Complete
                } else {
                    match side {
                        JoinSide::Left => if !self.right_complete {
                            JoinStep::Poll(JoinSide::Right)
                        } else {
                            JoinStep::Awaiting
                        },
                        JoinSide::Right => JoinStep::Awaiting,
                    }
                }
            },
            BranchPoll::ActionFailure => {
                self.lifecycle.fail();
                JoinStep::Failed
            },
            BranchPoll::AwaitingCompletion => {
                if self.focused_merge {
                    match side {
                        JoinSide::Left => if !self.right_complete {
                            JoinStep::Poll(JoinSide::Right)
                        } else {
                            JoinStep::Awaiting
                        },
                        JoinSide::Right => JoinStep::Awaiting,
                    }
                } else {
                    JoinStep::PassUp
                }
            },
            BranchPoll::OtherError => JoinStep::PassUp,
        }
    }

    /// Finds the branch a completion answers, and the completion it
    /// carries for that branch.
    pub fn route_completion(&mut self, completion: Result<Vec<u8>, Vec<u8>>) -> (r: Result<
        (JoinSide, Result<Vec<u8>, Vec<u8>>),
        JoinRouteError,
    >)
        requires
            join_wf(old(self)@),
        ensures
            final(self)@ == route_spec(old(self)@, completion_view(completion)).0,
            match r {
                Ok((side, c)) => route_spec(old(self)@, completion_view(completion)).1 == Ok::<
                    (JoinSide, Result<Seq<u8>, Seq<u8>>),
                    RouteErrorView,
                >((side, completion_view(c))),
                Err(e) => route_spec(old(self)@, completion_view(completion)).1 == Err::<
                    (JoinSide, Result<Seq<u8>, Seq<u8>>),
                    RouteErrorView,
                >(route_error_view(e)),
            },
            join_wf(final(self)@),
            r is Err ==> *final(self) == *old(self),
    {
        if self.complete {
            return Err(JoinRouteError::Complete);
        }
        if self.focused_merge {
            let decoded = match &completion {
                Ok(bytes) => decode_join_completion(bytes.as_slice()),
                Err(_) => None,
            };
            match decoded {
                Some((side, inner)) => {
                    match side {
                        JoinSide::Left => {
                            self.left_requests_in_flight = self.left_requests_in_flight.saturating_sub(1);
                        },
                        JoinSide::Right => {
                            self.right_requests_in_flight = self.right_requests_in_flight.saturating_sub(1);
                        },
                    }
                    Ok((side, inner))
                },
                None => {
                    let l = self.left_requests_in_flight;
                    let r = self.right_requests_in_flight;
                    if l == 1 && r == 0 {
                        self.left_requests_in_flight = 0;
                        Ok((JoinSide::Left, completion))
                    } else if l == 0 && r == 1 {
                        self.right_requests_in_flight = 0;
                        Ok((JoinSide::Right, completion))
                    } else {
                        match completion {
                            Ok(_) => Err(JoinRouteError::OutputDeserialize),
                            Err(bytes) => Err(JoinRouteError::ErrorDeserialize(bytes)),
                        }
                    }
                },
            }
        } else {
            match self.active_request.take() {
                None => Err(JoinRouteError::NoPendingRequest),
                Some(side) => Ok((side, completion)),
            }
        }
    }

    /// What the join can do without a request to serve.
    pub fn idle_check(&self) -> (c: IdleCheck)
        ensures
            c == idle_check_spec(self@),
    {
        if self.complete {
            IdleCheck::Finished
        } else if self.active_request.is_some() || self.left_requests_in_flight > 0
            || self.right_requests_in_flight > 0 || !self.initialized {
            IdleCheck::Busy
        } else {
            IdleCheck::Settle
        }
    }
}

/// The value a finished join emits: the last value emitted by its left
/// branch followed by the last one emitted by its right branch.
pub fn join_emitted(left: &[u8], right: &[u8]) -> (emitted: Vec<u8>)
    ensures
        emitted@ == left@ + right@,
{
    let mut out: Vec<u8> = Vec::new();
    let mut i: usize = 0;
    while i < left.len()
        invariant
            i <= left@.len(),
            out@ == left@.take(i as int),
        decreases left.len() - i,
    {
        out.push(left[i]);
        proof {
            assert(left@.take(i as int + 1) =~= left@.take(i as int).push(left@[i as int]));
        }
        i = i + 1;
    }
    let mut j: usize = 0;
    while j < right.len()
        invariant
            j <= right@.len(),
            out@ == left@ + right@.take(j as int),
            left@.take(left@.len() as int) =~= left@,
        decreases right.len() - j,
    {
        out.push(right[j]);
        proof {
            assert(right@.take(j as int + 1) =~= right@.take(j as int).push(right@[j as int]));
            assert(left@ + right@.take(j as int + 1) =~= (left@ + right@.take(j as int)).push(right@[j as int]));
        }
        j = j + 1;
    }
    proof {
        assert(right@.take(j as int) =~= right@);
    }
    out
}

/// The tag a side is written with.
pub open spec fn side_tag(side: JoinSide) -> nat {
    match side {
        JoinSide::Left => 0,
        JoinSide::Right => 1,
    }
}

/// The bytes of a completion addressed to one branch of a merging join:
/// the side's tag, then the completion as an envelope whose left side is a
/// success and whose right side is a failure.
pub open spec fn join_completion_spec(side: JoinSide, completion: Result<Seq<u8>, Seq<u8>>) -> Seq<u8> {
    varint_spec(side_tag(side)) + match completion {
        Ok(b) => either_envelope_spec(ActiveBranch::Left, b),
        Err(b) => either_envelope_spec(ActiveBranch::Right, b),
    }
}

/// What the front of `bytes` holds as a side-addressed completion,
/// trailing bytes ignored: a side tag of at most five bytes that is 0 or 1,
/// then a completion envelope.
pub open spec fn join_completion_decode_spec(bytes: Seq<u8>) -> Option<(JoinSide, Result<Seq<u8>, Seq<u8>>)> {
    match varint_decode(bytes, 0, 5, 15) {
        None => None,
        Some((tag, tc)) => if tag > 1 {
            None
        } else {
            match either_decode_spec(bytes.skip(tc as int)) {
                None => None,
                Some((b, p)) => Some((
                    if tag == 0 { JoinSide::Left } else { JoinSide::Right },
                    if b == ActiveBranch::Left { Ok(p) } else { Err(p) },
                )),
            }
        },
    }
}

/// Addresses `completion` to the branch on `side`.
pub fn encode_join_completion(side: JoinSide, completion: Result<Vec<u8>, Vec<u8>>) -> (bytes: Vec<u8>)
    ensures
        bytes@ == join_completion_spec(side, completion_view(completion)),
{
    let mut out: Vec<u8> = Vec::new();
    let tag: u64 = match side {
        JoinSide::Left => 0,
        JoinSide::Right => 1,
    };
    push_varint(&mut out, tag);
    let mut inner = match completion {
        Ok(b) => encode_conditional_emitted(ActiveBranch::Left, b),
        Err(b) => encode_conditional_emitted(ActiveBranch::Right, b),
    };
    let ghost head = out@;
    let ghost tail = inner@;
    out.append(&mut inner);
    proof {
        assert(out@ =~= head + tail);
        assert(head =~= Seq::<u8>::empty() + varint_spec(side_tag(side)));
    }
    out
}

/// The completion a branch's sleep request is answered with before it
/// runs: a success with no bytes, addressed to `side`.
pub fn suspended_sleep_completion(side: JoinSide) -> (bytes: Vec<u8>)
    ensures
        bytes@ == join_completion_spec(side, Ok(Seq::<u8>::empty())),
{
    let empty: Vec<u8> = Vec::new();
    encode_join_completion(side, Ok(empty))
}

/// Reads a side-addressed completion from the front of `bytes`, if it
/// holds one; trailing bytes are ignored.
pub fn decode_join_completion(bytes: &[u8]) -> (r: Option<(JoinSide, Result<Vec<u8>, Vec<u8>>)>)
    ensures
        match join_completion_decode_spec(bytes@) {
            Some((side, completion)) => match r {
                Some((s, c)) => s == side && completion_view(c) == completion,
                None => false,
            },
            None => r is None,
        },
{
    proof {
        assert(bytes@.skip(0) =~= bytes@);
        lemma_pow128_nine();
        lemma_varint_decode_bound(bytes@, 0, 5, 15);
    }
    let (tag, tc) = match take_varint(bytes, 0, 0, 5, 15) {
        Some(t) => t,
        None => return None,
    };
    if tag > 1 {
        return None;
    }
    let rest = vstd::slice::slice_subrange(bytes, tc, bytes.len());
    proof {
        assert(rest@ =~= bytes@.skip(tc as int));
    }
    let side = if tag == 0 { JoinSide::Left } else { JoinSide::Right };
    match decode_either_envelope(rest) {
        None => None,
        Some((ActiveBranch::Left, p)) => Some((side, Ok(p))),
        Some((ActiveBranch::Right, p)) => Some((side, Err(p))),
    }
}

/// Reading back a side-addressed completion gives exactly the side and the
/// completion it was built from, whatever bytes follow it.
pub proof fn lemma_join_completion_roundtrip(side: JoinSide, completion: Result<Seq<u8>, Seq<u8>>, rest: Seq<u8>)
    requires
        match completion {
            Ok(b) => b.len() <= u64::MAX,
            Err(b) => b.len() <= u64::MAX,
        },
    ensures
        join_completion_decode_spec(join_completion_spec(side, completion) + rest) == Some((side, completion)),
{
    let (branch, payload) = match completion {
        Ok(b) => (ActiveBranch::Left, b),
        Err(b) => (ActiveBranch::Right, b),
    };
    let inner = either_envelope_spec(branch, payload);
    let bytes = join_completion_spec(side, completion) + rest;
    lemma_pow128_nine();
    assert(pow128(4) * 16 == 4294967296) by (nonlinear_arith)
        requires
            pow128(4) == 268435456,
    ;
    assert(bytes =~= varint_spec(side_tag(side)) + (inner + rest));
    lemma_varint_roundtrip(side_tag(side), inner + rest, 0, 5, 15);
    assert(varint_spec(side_tag(side)).len() == 1);
    assert(bytes.skip(1) =~= inner + rest);
    lemma_envelope_roundtrip(branch, payload, rest);
}

/// A completion that answers a request just handed out by a branch goes
/// back to that branch, unchanged, and leaves the join as it was before
/// the request: in a merging join when it comes addressed to the branch's
/// side, in a sequential join as it is.
pub proof fn lemma_routing_undoes_request(v: JoinView, side: JoinSide, c: Result<Seq<u8>, Seq<u8>>)
    requires
        join_wf(v),
        pollable(v, side),
        v.left_in_flight < usize::MAX,
        v.right_in_flight < usize::MAX,
        match c {
            Ok(b) => b.len() <= u64::MAX,
            Err(b) => b.len() <= u64::MAX,
        },
    ensures
        poll_spec(v, side, BranchPoll::Requested).1 == JoinStep::Request(side),
        v.focused_merge ==> route_spec(poll_spec(v, side, BranchPoll::Requested).0, Ok(join_completion_spec(side, c)))
            == (v, Ok::<(JoinSide, Result<Seq<u8>, Seq<u8>>), RouteErrorView>((side, c))),
        !v.focused_merge ==> route_spec(poll_spec(v, side, BranchPoll::Requested).0, c)
            == (v, Ok::<(JoinSide, Result<Seq<u8>, Seq<u8>>), RouteErrorView>((side, c))),
{
    lemma_join_completion_roundtrip(side, c, Seq::empty());
    assert(join_completion_spec(side, c) + Seq::<u8>::empty() =~= join_completion_spec(side, c));
    let w = poll_spec(v, side, BranchPoll::Requested).0;
    if v.focused_merge {
        assert(uncount_request(w, side) == v);
    } else {
        assert((JoinView { active_request: None, ..w }) == v);
    }
}

/// Serving a request keeps a join in a reachable state and only ever asks
/// a branch that has started and not finished: a sequential join asks its
/// right branch only after its left branch has finished.
/// A poll records a request in flight only when it hands one out.
pub proof fn lemma_poll_records_only_requests(v: JoinView, side: JoinSide, outcome: BranchPoll)
    ensures
        !(poll_spec(v, side, outcome).1 is Request) ==> poll_spec(v, side, outcome).0.active_request == v.active_request
            && poll_spec(v, side, outcome).0.left_in_flight == v.left_in_flight
            && poll_spec(v, side, outcome).0.right_in_flight == v.right_in_flight,
{
}

pub proof fn lemma_polls_stay_pollable(v: JoinView, side: JoinSide, outcome: BranchPoll)
    requires
        join_wf(v),
        pollable(v, side),
    ensures
        join_wf(poll_spec(v, side, outcome).0),
        poll_spec(v, side, outcome).1 matches JoinStep::Poll(next) ==> pollable(poll_spec(v, side, outcome).0, next),
        poll_spec(v, side, outcome).1 == JoinStep::Poll(JoinSide::Right) && !v.focused_merge
            ==> poll_spec(v, side, outcome).0.left_complete,
{
}

/// Once a join has been started and settled without finishing, the first
/// branch it asks is one it may ask.
pub proof fn lemma_first_poll_pollable(v: JoinView)
    requires
        join_wf(v),
        v.initialized,
        !v.complete,
        v.active_request is None,
        !(v.left_complete && v.right_complete),
    ensures
        first_poll_spec(v) matches JoinStep::Poll(side) && pollable(v, side),
{
}

/// A finished join serves no request and takes no completion, and stays
/// as it is.
pub proof fn lemma_finished_join_refuses(v: JoinView, c: Result<Seq<u8>, Seq<u8>>)
    requires
        join_wf(v),
        v.complete,
    ensures
        begin_spec(v) == (v, Some(JoinStep::Complete)),
        route_spec(v, c) == (v, Err::<(JoinSide, Result<Seq<u8>, Seq<u8>>), RouteErrorView>(RouteErrorView::Complete)),
        idle_check_spec(v) == IdleCheck::Finished,
{
}

/// A join completes exactly when both branches are done, and its
/// activation then succeeds.
pub proof fn lemma_join_completes_with_both_branches(v: JoinView)
    requires
        join_wf(v),
    ensures
        finish_spec_join(v).complete == (v.left_complete && v.right_complete),
        v.left_complete && v.right_complete && !v.complete ==> finish_spec_join(v).lifecycle
            == finish_spec(v.lifecycle, NodeLifecyclePhase::Succeeded),
{
}

} // verus!
