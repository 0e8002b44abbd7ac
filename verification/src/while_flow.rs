use crate::control::{decode_loop_input, loop_error_spec, loop_input_spec, ControlInput};
use crate::error::ExecutorError;
use crate::flow::{
    all_wf, assign_flow_journey_id, assign_flow_node_ids, copy_bytes, take_flow_node_lifecycle_updates, DynFlow,
    ErasedFlow, ExecRequest,
};
use crate::transport::NodeLifecycle;
use crate::while_loop::{start_spec, while_wf, BodyAdvance, WhileProgress, WhileSettle, WhileStart, WhileStep, WhileView};
use vstd::prelude::*;

verus! {

/// Builds a fresh body for every iteration of a loop.
pub trait BodyBuilder<S> {
    /// The number of nodes of every body it builds.
    spec fn body_len_spec(&self) -> usize;

    fn build(&self) -> (body: DynFlow<S>)
        ensures
            body.len() == self.body_len_spec(),
            all_wf(body@),
    ;
}

/// The control value a loop between iterations reads, given `input`: the
/// value it keeps, or else `input`.
pub open spec fn loop_control(v: WhileView, input: Seq<u8>) -> Seq<u8> {
    match v.control_input {
        Some(k) => k,
        None => input,
    }
}

/// Whether a loop between iterations, given `input`, reads a control value
/// whose condition is false.
pub open spec fn loop_stops<S, C: ControlInput<S>>(v: WhileView, c: C, state: S, input: Seq<u8>) -> bool {
    match loop_input_spec::<S, C>(c, state, loop_control(v, input)) {
        Some((go_on, _)) => !go_on,
        None => false,
    }
}

/// A loop node: reads its control value, runs a fresh body while its
/// condition holds, and stops when it does not; each iteration's last value
/// is the next control value.
#[verifier::reject_recursive_types(S)]
pub struct WhileFlow<S, C, B> {
    progress: WhileProgress,
    condition: C,
    builder: B,
    active_body: DynFlow<S>,
    iteration_inputs: Ghost<Seq<Seq<u8>>>,    handed_completions: Ghost<nat>,
}

impl<S: Clone, C: ControlInput<S>, B: BodyBuilder<S>> WhileFlow<S, C, B> {
    /// The loop's control state.
    pub closed spec fn progress_view(&self) -> WhileView {
        self.progress@
    }

    /// The inputs the loop's iterations started on, in order.
    pub closed spec fn iteration_inputs_view(&self) -> Seq<Seq<u8>> {
        self.iteration_inputs@
    }

    /// How many completions the node has handed on to the node whose
    /// request was in flight.
    pub closed spec fn handed_completions_view(&self) -> nat {
        self.handed_completions@
    }

    /// The loop's input type and condition.
    pub closed spec fn condition_view(&self) -> C {
        self.condition
    }

    /// The control state matches the body under way.
    pub closed spec fn wf(&self) -> bool {
        &&& while_wf(self.progress@)
        &&& self.progress@.body_len == self.builder.body_len_spec()
        &&& (self.progress@.body_active ==> self.active_body.len() == self.progress@.body_len)
        &&& all_wf(self.active_body@)
    }

    pub fn new(condition: C, builder: B) -> (w: Self)
        ensures
            w.wf(),
            !w.progress_view().complete,
    {
        let template = builder.build();
        let progress = WhileProgress::new(template.len());
        WhileFlow { progress, condition, builder, active_body: Vec::new(), iteration_inputs: Ghost(Seq::empty()), handed_completions: Ghost(0) }
    }

    /// Builds a fresh body, numbered from the loop's body id and carrying
    /// the loop's journey.
    fn build_body(&mut self)
        requires
            while_wf(old(self).progress@),
            old(self).progress@.body_len == old(self).builder.body_len_spec(),
            old(self).progress@.body_active,
        ensures
            final(self).wf(),
            final(self).progress@ == old(self).progress@,
            final(self).condition == old(self).condition,
            final(self).builder == old(self).builder,
            final(self).iteration_inputs == old(self).iteration_inputs,
    {
        let mut body = self.builder.build();
        if let Some(journey_id) = self.progress.journey_id() {
            assign_flow_journey_id(&mut body, journey_id);
        }
        let mut next = self.progress.body_node_id_start();
        assign_flow_node_ids(&mut body, &mut next);
        self.active_body = body;
    }
}

impl<S: Clone, C: ControlInput<S>, B: BodyBuilder<S>> ErasedFlow<S> for WhileFlow<S, C, B> {
    open spec fn flow_complete(&self) -> bool {
        self.progress_view().complete
    }

    closed spec fn flow_waiting(&self) -> bool {
        self.progress@.body_active && self.progress@.body_cursor < self.active_body.len()
            && self.active_body[self.progress@.body_cursor as int].flow_waiting()
    }

    open spec fn flow_wf(&self) -> bool {
        self.wf()
    }

    /// Serves a request: a stopped loop answers `Complete` with the state
    /// unchanged; between iterations the control value is read, an
    /// unreadable one is refused, and a false condition stops the loop for
    /// good; otherwise the body runs. After `u64::MAX` rounds that hand out
    /// nothing it gives up with `AwaitingCompletion`.
    fn request(&mut self, state: S, input: Vec<u8>, executable: bool) -> (r: Result<(S, ExecRequest), (S, ExecutorError)>)
        ensures
            old(self).progress_view().complete ==> (r matches Err((s, ExecutorError::Complete)) && s == state
                && *final(self) == *old(self)),
            !old(self).progress_view().complete && !old(self).progress_view().body_active && loop_stops::<S, C>(
                old(self).progress_view(),
                old(self).condition_view(),
                state,
                input@,
            ) ==> (r matches Err((s, ExecutorError::Complete)) && s == state && final(self).progress_view().complete),
            !old(self).progress_view().complete && !old(self).progress_view().body_active && loop_input_spec::<S, C>(
                old(self).condition_view(),
                state,
                loop_control(old(self).progress_view(), input@),
            ) is None ==> (r matches Err((s, ExecutorError::InputDeserialize(t))) && s == state && t@
                == loop_error_spec::<S, C>(loop_control(old(self).progress_view(), input@)) && final(self).progress_view()
                == start_spec(old(self).progress_view(), input@).0),
            !old(self).progress_view().complete && !old(self).progress_view().body_active && old(self).progress_view().body_len
                > 0 ==> (loop_input_spec::<S, C>(
                old(self).condition_view(),
                state,
                loop_control(old(self).progress_view(), input@),
            ) matches Some((true, carry)) ==> final(self).iteration_inputs_view().len() > old(self).iteration_inputs_view().len() && final(self).iteration_inputs_view()[old(self).iteration_inputs_view().len() as int] == carry),
    {
        let ghost state0 = state;
        let ghost input0 = input@;
        let mut cur = state;
        let mut body_input = input;
        let mut budget: u64 = u64::MAX;
        loop
            invariant
                self.wf(),
                self.condition == old(self).condition,
                state == state0,
                input@ == input0,
                budget == u64::MAX ==> *self == *old(self) && cur == state0 && body_input@ == input0,
                budget < u64::MAX ==> !old(self).progress@.complete && !self.progress@.complete,
                budget < u64::MAX ==> (!old(self).progress@.body_active ==> loop_input_spec::<S, C>(
                    old(self).condition,
                    state0,
                    loop_control(old(self).progress@, input0),
                ) matches Some((true, _))),
                self.iteration_inputs@.len() >= old(self).iteration_inputs@.len(),
                budget < u64::MAX && !old(self).progress@.body_active && old(self).progress@.body_len > 0
                    ==> (self.iteration_inputs@.len() > old(self).iteration_inputs@.len() && (loop_input_spec::<S, C>(
                    old(self).condition,
                    state0,
                    loop_control(old(self).progress@, input0),
                ) matches Some((_, carry)) && self.iteration_inputs@[old(self).iteration_inputs@.len() as int] == carry)),
            decreases budget,
        {
            if budget == 0 {
                return Err((cur, ExecutorError::AwaitingCompletion));
            }
            match self.progress.start(&body_input) {
                WhileStart::Complete => return Err((cur, ExecutorError::Complete)),
                WhileStart::Resume => {},
                WhileStart::Decide(control) => {
                    match decode_loop_input(&self.condition, &cur, control.as_slice()) {
                        Err(e) => return Err((cur, e)),
                        Ok((go_on, carry)) => {
                            if !go_on {
                                self.progress.stop();
                                return Err((cur, ExecutorError::Complete));
                            }
                            body_input = carry;
                        },
                    }
                },
            }
            budget = budget - 1;
            if self.progress.body_len() == 0 {
                return Err((cur, ExecutorError::Complete));
            }
            let fresh = self.progress.enter_iteration();
            if fresh {
                self.build_body();
                self.iteration_inputs = Ghost(self.iteration_inputs@.push(body_input@));
            }
            let at = match self.progress.current_node() {
                Some(i) => i,
                None => return Err((cur, ExecutorError::Complete)),
            };
            let parent = self.progress.child_parent_path();
            self.active_body[at].set_parent_activation_path(parent.as_slice());
            let advance = match self.active_body[at].request(cur, copy_bytes(&body_input), executable) {
                Ok((next, request)) => {
                    self.progress.after_node(BodyAdvance::Request, None, body_input);
                    return Ok((next, request));
                },
                Err((next, ExecutorError::Complete)) => {
                    let node_complete = self.active_body[at].is_complete();
                    match self.active_body[at].try_complete_without_progress(next.clone()) {
                        Err(e) => return Err((next, e)),
                        Ok((after, emitted, completed)) => {
                            cur = after;
                            if node_complete || completed {
                                (BodyAdvance::Completed, emitted)
                            } else if emitted.is_some() {
                                (BodyAdvance::Progress, emitted)
                            } else {
                                return Err((cur, ExecutorError::Complete));
                            }
                        },
                    }
                },
                Err((next, ExecutorError::ActionFailure(f))) => {
                    self.progress.after_node(BodyAdvance::ActionFailure, None, body_input);
                    return Err((next, ExecutorError::ActionFailure(f)));
                },
                Err((next, e)) => return Err((next, e)),
            };
            let (kind, emitted) = advance;
            let (_, next_input) = self.progress.after_node(kind, emitted, body_input);
            body_input = next_input;
            if !self.progress.body_active() {
                self.active_body = Vec::new();
            }
        }
    }

    /// Gives a completion to the current body node; a stopped loop
    /// answers `Complete`.
    fn complete(&mut self, state: S, completion: Result<Vec<u8>, Vec<u8>>) -> (r: Result<(S, Vec<u8>), ExecutorError>)
        ensures
            old(self).progress_view().complete ==> (r matches Err(ExecutorError::Complete) && *final(self) == *old(self)),
            !old(self).progress_view().complete && !old(self).progress_view().body_active ==> (r matches Err(
                ExecutorError::NoPendingRequest,
            ) && *final(self) == *old(self)),
            !old(self).progress_view().complete && old(self).progress_view().body_active ==> final(self).handed_completions_view() == old(self).handed_completions_view() + 1,
    {
        if self.progress.is_complete() {
            return Err(ExecutorError::Complete);
        }
        let at = match self.progress.current_node() {
            Some(i) => i,
            None => return Err(ExecutorError::NoPendingRequest),
        };
        let parent = self.progress.child_parent_path();
        self.active_body[at].set_parent_activation_path(parent.as_slice());
        self.handed_completions = Ghost(self.handed_completions@ + 1);
        let taken = self.active_body[at].complete(state, completion);
        let node_complete = self.active_body[at].is_complete();
        match taken {
            Err(ExecutorError::ActionFailure(f)) => {
                self.progress.fail();
                Err(ExecutorError::ActionFailure(f))
            },
            Err(e) => Err(e),
            Ok((next, emitted)) => {
                self.progress.after_completion(node_complete, &emitted);
                if !self.progress.body_active() {
                    self.active_body = Vec::new();
                }
                Ok((next, emitted))
            },
        }
    }

    fn try_complete_without_progress(&mut self, state: S) -> (r: Result<(S, Option<Vec<u8>>, bool), ExecutorError>) {
        let mut carried = match self.progress.settle_begin() {
            WhileSettle::Finished(d) => return Ok((state, d, true)),
            WhileSettle::Walk(d) => d,
        };
        let mut state = state;
        let n = self.progress.body_len();
        loop
            invariant
                self.wf(),
                n == self.progress@.body_len,
            decreases n - self.progress@.body_cursor,
        {
            let at = match self.progress.current_node() {
                Some(i) => i,
                None => break,
            };
            let parent = self.progress.child_parent_path();
            self.active_body[at].set_parent_activation_path(parent.as_slice());
            assert(self.active_body@[at as int].flow_wf());
            if self.active_body[at].is_waiting_completion() {
                break;
            }
            match self.active_body[at].try_complete_without_progress(state) {
                Err(ExecutorError::ActionFailure(f)) => {
                    self.progress.fail();
                    return Err(ExecutorError::ActionFailure(f));
                },
                Err(e) => return Err(e),
                Ok((next, emitted, completed)) => {
                    state = next;
                    let (out, more) = self.progress.settle_node(emitted, completed, carried);
                    carried = out;
                    if !self.progress.body_active() {
                        self.active_body = Vec::new();
                    }
                    if !more {
                        break;
                    }
                },
            }
        }
        Ok((state, carried, false))
    }

    fn is_waiting_completion(&self) -> (b: bool) {
        match self.progress.current_node() {
            Some(at) => {
                assert(self.active_body@[at as int].flow_wf());
                self.active_body[at].is_waiting_completion()
            },
            None => false,
        }
    }

    fn is_complete(&self) -> (b: bool) {
        self.progress.is_complete()
    }

    fn set_parent_activation_path(&mut self, path: &[u64]) {
        self.progress.set_parent_activation_path(path);
    }

    fn set_journey_id(&mut self, journey_id: uuid::Uuid) {
        self.progress.set_journey_id(journey_id);
        assign_flow_journey_id(&mut self.active_body, journey_id);
    }

    fn take_node_lifecycle_updates(&mut self) -> (updates: Vec<NodeLifecycle>) {
        let mut updates = self.progress.take_node_lifecycle_updates();
        let mut body = take_flow_node_lifecycle_updates(&mut self.active_body);
        updates.append(&mut body);
        updates
    }

    fn node_id(&self) -> u32 {
        self.progress.node_id()
    }

    fn assign_node_ids(&mut self, next_id: &mut u32) {
        self.progress.assign_node_id(next_id);
        let mut template = self.builder.build();
        assign_flow_node_ids(&mut template, next_id);
    }
}

} // verus!
