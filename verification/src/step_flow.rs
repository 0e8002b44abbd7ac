use crate::envelope::{branch_tag, decode_either_envelope, either_decode_spec, ActiveBranch};
use crate::error::{ExecutorError, Failure};
use crate::flow::{ByteSeq, CharSeq, ErasedFlow, ExecRequest};
use crate::join::completion_view;
use crate::lifecycle::{enter_spec, finish_spec, LifecycleState, LifecycleView};
use crate::transport::{NodeLifecycle, NodeLifecyclePhase};
use vstd::prelude::*;
use vstd::string::StringExecFns;

verus! {

/// A text result as the contracts see it.
pub open spec fn text_result_view(r: Result<Vec<u8>, String>) -> Result<Seq<u8>, Seq<char>> {
    match r {
        Ok(b) => Ok(b@),
        Err(t) => Err(t@),
    }
}

/// A bound action seen through encodings: it reads its encoded input,
/// emits the effect's encoded input and a carry from the state, and
/// absorbs the effect's encoded completion into the state, giving its
/// encoded output. Each operation is a function of its arguments, named by
/// a spec function.
pub trait StepAction<S> {
    type Carry;

    /// Whether the action's effect is the built-in one that needs no I/O.
    spec fn inline_spec(&self) -> bool;

    /// Whether the action's effect is the built-in sleep.
    spec fn sleep_spec(&self) -> bool;

    /// The name of the action's effect.
    spec fn effect_type_spec(&self) -> CharSeq;

    /// Whether `bytes` are exactly the encoding of one input value, with
    /// nothing after it.
    spec fn reads_exactly_spec(&self, bytes: ByteSeq) -> bool;

    /// Why `bytes` are not an input value.
    spec fn read_error_spec(&self, bytes: ByteSeq) -> CharSeq;

    /// Emitting from `state` on the input encoded by `input`: the state
    /// written back, the encoded effect input (or why it could not be
    /// encoded), and the carry.
    spec fn emit_spec(&self, state: S, input: ByteSeq) -> (S, Result<ByteSeq, CharSeq>, Self::Carry);

    /// The error, if any, of reading a completion as the effect's output or
    /// error.
    spec fn completion_error_spec(&self, completion: Result<ByteSeq, ByteSeq>) -> Option<ExecutorError>;

    /// Absorbing a readable completion into `state` with `carry`: the state
    /// and the encoded output (or why it could not be encoded), or the
    /// action's failure.
    spec fn absorb_spec(&self, state: S, completion: Result<ByteSeq, ByteSeq>, carry: Self::Carry) -> Result<
        (S, Result<ByteSeq, CharSeq>),
        Failure,
    >;

    fn is_inline(&self) -> (b: bool)
        ensures
            b == self.inline_spec(),
    ;

    fn is_sleep(&self) -> (b: bool)
        ensures
            b == self.sleep_spec(),
    ;

    fn effect_type(&self) -> (t: String)
        ensures
            t@ == self.effect_type_spec(),
    ;

    /// Reads `bytes` as exactly one input value.
    fn read_exact(&self, bytes: &[u8]) -> (r: Result<(), String>)
        ensures
            r is Ok <==> self.reads_exactly_spec(bytes@),
            r matches Err(t) ==> t@ == self.read_error_spec(bytes@),
    ;

    fn emit(&self, state: S, input: &[u8]) -> (r: (S, Result<Vec<u8>, String>, Self::Carry))
        requires
            self.reads_exactly_spec(input@),
        ensures
            (r.0, text_result_view(r.1), r.2) == self.emit_spec(state, input@),
    ;

    fn check_completion(&self, completion: &Result<Vec<u8>, Vec<u8>>) -> (r: Result<(), ExecutorError>)
        ensures
            match self.completion_error_spec(completion_view(*completion)) {
                Some(e) => r == Err::<(), ExecutorError>(e),
                None => r is Ok,
            },
            r matches Err(e) ==> e is OutputDeserialize || e is ErrorDeserialize,
    ;

    fn absorb(&self, state: S, completion: Result<Vec<u8>, Vec<u8>>, carry: Self::Carry) -> (r: Result<
        (S, Result<Vec<u8>, String>),
        Failure,
    >)
        requires
            self.completion_error_spec(completion_view(completion)) is None,
        ensures
            match r {
                Ok((s, out)) => self.absorb_spec(state, completion_view(completion), carry) == Ok::<
                    (S, Result<Seq<u8>, Seq<char>>),
                    Failure,
                >((s, text_result_view(out))),
                Err(f) => self.absorb_spec(state, completion_view(completion), carry) == Err::<
                    (S, Result<Seq<u8>, Seq<char>>),
                    Failure,
                >(f),
            },
    ;
}

/// The tag byte of a branch.
pub open spec fn branch_byte(branch: ActiveBranch) -> u8 {
    branch_tag(branch) as u8
}

/// What a step reads as its input from inside branch envelopes, at most
/// seventeen deep: an envelope's payload, if it is an input value or holds
/// one further in; else the payload behind its tag byte, likewise.
pub open spec fn either_input_spec<S, A: StepAction<S>>(a: A, bytes: Seq<u8>, depth: nat) -> Option<Seq<u8>>
    decreases 17 - depth,
{
    if depth > 16 {
        None
    } else {
        match either_decode_spec(bytes) {
            None => None,
            Some((branch, payload)) => if a.reads_exactly_spec(payload) {
                Some(payload)
            } else {
                match either_input_spec::<S, A>(a, payload, depth + 1) {
                    Some(v) => Some(v),
                    None => {
                        let tagged = seq![branch_byte(branch)] + payload;
                        if a.reads_exactly_spec(tagged) {
                            Some(tagged)
                        } else {
                            either_input_spec::<S, A>(a, tagged, depth + 1)
                        }
                    },
                }
            },
        }
    }
}

proof fn lemma_either_input_reads<S, A: StepAction<S>>(a: A, bytes: Seq<u8>, depth: nat)
    ensures
        either_input_spec::<S, A>(a, bytes, depth) matches Some(v) ==> a.reads_exactly_spec(v),
    decreases 17 - depth,
{
    if depth <= 16 {
        match either_decode_spec(bytes) {
            None => {},
            Some((branch, payload)) => {
                lemma_either_input_reads::<S, A>(a, payload, depth + 1);
                lemma_either_input_reads::<S, A>(a, seq![branch_byte(branch)] + payload, depth + 1);
            },
        }
    }
}

/// A step's input, once read, is exactly one input value.
pub proof fn lemma_step_input_reads<S, A: StepAction<S>>(a: A, bytes: Seq<u8>)
    ensures
        step_input_spec::<S, A>(a, bytes) matches Some(v) ==> a.reads_exactly_spec(v),
{
    lemma_either_input_reads::<S, A>(a, bytes, 0);
}

/// The encoded input value a step reads from `bytes`: the bytes
/// themselves when they are exactly one, else what branch envelopes hold.
pub open spec fn step_input_spec<S, A: StepAction<S>>(a: A, bytes: Seq<u8>) -> Option<Seq<u8>> {
    if a.reads_exactly_spec(bytes) {
        Some(bytes)
    } else {
        either_input_spec::<S, A>(a, bytes, 0)
    }
}

/// The text of the error when a step can read no input from `bytes`.
pub open spec fn step_input_error_spec<S, A: StepAction<S>>(a: A, bytes: Seq<u8>) -> Seq<char> {
    if either_decode_spec(bytes) is Some {
        "step either envelope: "@ + a.read_error_spec(bytes)
    } else {
        "step direct input: "@ + a.read_error_spec(bytes)
    }
}

fn input_from_either<S, A: StepAction<S>>(a: &A, bytes: &[u8], depth: usize) -> (r: Option<Vec<u8>>)
    requires
        depth <= 17,
    ensures
        match either_input_spec::<S, A>(*a, bytes@, depth as nat) {
            Some(v) => r matches Some(w) && w@ == v,
            None => r is None,
        },
    decreases 17 - depth,
{
    if depth > 16 {
        return None;
    }
    let (branch, payload) = match decode_either_envelope(bytes) {
        Some(found) => found,
        None => return None,
    };
    if let Ok(_) = a.read_exact(payload.as_slice()) {
        return Some(payload);
    }
    if let Some(v) = input_from_either::<S, A>(a, payload.as_slice(), depth + 1) {
        return Some(v);
    }
    let mut tagged: Vec<u8> = Vec::new();
    tagged.push(
        match branch {
            ActiveBranch::Left => 0u8,
            ActiveBranch::Right => 1u8,
        },
    );
    let mut rest = vstd::slice::slice_to_vec(payload.as_slice());
    tagged.append(&mut rest);
    proof {
        assert(tagged@ =~= seq![branch_byte(branch)] + payload@);
    }
    if let Ok(_) = a.read_exact(tagged.as_slice()) {
        return Some(tagged);
    }
    input_from_either::<S, A>(a, tagged.as_slice(), depth + 1)
}

/// Reads a step's input from `bytes`: the encoded input value, or the
/// input error.
pub fn decode_step_input<S, A: StepAction<S>>(a: &A, bytes: &[u8]) -> (r: Result<Vec<u8>, ExecutorError>)
    ensures
        match step_input_spec::<S, A>(*a, bytes@) {
            Some(v) => r matches Ok(w) && w@ == v,
            None => r matches Err(ExecutorError::InputDeserialize(t)) && t@ == step_input_error_spec::<S, A>(
                *a,
                bytes@,
            ),
        },
{
    let direct = match a.read_exact(bytes) {
        Ok(_) => return Ok(vstd::slice::slice_to_vec(bytes)),
        Err(t) => t,
    };
    if let Some(v) = input_from_either::<S, A>(a, bytes, 0) {
        return Ok(v);
    }
    let mut text = match decode_either_envelope(bytes) {
        Some(_) => String::from_str("step either envelope: "),
        None => String::from_str("step direct input: "),
    };
    text.append(direct.as_str());
    Err(ExecutorError::InputDeserialize(text))
}

/// The control state of a step.
pub struct StepView {
    pub complete: bool,
    pub waiting_completion: bool,
    pub pending_inline_input: Option<Seq<u8>>,
    pub lifecycle: LifecycleView,
}

/// A single step of a flow: one bound action, run once. An action whose
/// effect needs no I/O runs inline, without a request.
#[verifier::reject_recursive_types(S)]
pub struct TypedErasedStep<S, A: StepAction<S>> {
    action: A,
    lifecycle: LifecycleState,
    complete: bool,
    waiting_completion: bool,
    pending_inline_input: Option<Vec<u8>>,
    pending_carry: Option<A::Carry>,
}

impl<S, A: StepAction<S>> TypedErasedStep<S, A> {
    pub closed spec fn step_view(&self) -> StepView {
        StepView {
            complete: self.complete,
            waiting_completion: self.waiting_completion,
            pending_inline_input: match self.pending_inline_input {
                Some(p) => Some(p@),
                None => None,
            },
            lifecycle: self.lifecycle@,
        }
    }

    pub closed spec fn action_view(&self) -> A {
        self.action
    }

    /// The carry the request in flight keeps for its completion.
    pub closed spec fn carry_view(&self) -> Option<A::Carry> {
        self.pending_carry
    }

    /// A request in flight has its carry kept and belongs to a step that
    /// has not completed.
    pub closed spec fn wf(&self) -> bool {
        self.waiting_completion ==> !self.complete && self.pending_carry is Some
    }

    pub fn new(action: A) -> (s: Self)
        ensures
            s.wf(),
            s.action_view() == action,
            !s.step_view().complete,
            !s.step_view().waiting_completion,
            s.step_view().pending_inline_input is None,
            s.carry_view() is None,
    {
        TypedErasedStep {
            action,
            lifecycle: LifecycleState::new(),
            complete: false,
            waiting_completion: false,
            pending_inline_input: None,
            pending_carry: None,
        }
    }

    /// Takes the completion of the request in flight, once it is known to
    /// be readable.
    fn absorb_completion(&mut self, state: S, completion: Result<Vec<u8>, Vec<u8>>) -> (r: Result<
        (S, Vec<u8>),
        ExecutorError,
    >)
        requires
            old(self).wf(),
            old(self).waiting_completion,
            old(self).action.completion_error_spec(completion_view(completion)) is None,
        ensures
            final(self).wf(),
            final(self).action == old(self).action,
            final(self).pending_inline_input == old(self).pending_inline_input,
            final(self).pending_carry is None,
            !final(self).waiting_completion,
            match old(self).action.absorb_spec(state, completion_view(completion), old(self).pending_carry->Some_0) {
                Ok((s, Ok(b))) => r matches Ok((s2, out)) && s2 == s && out@ == b && final(self).complete
                    && final(self).lifecycle@ == finish_spec(old(self).lifecycle@, NodeLifecyclePhase::Succeeded),
                Ok((_, Err(t))) => r matches Err(ExecutorError::EmitSerialize(t2)) && t2@ == t
                    && final(self).complete == old(self).complete && final(self).lifecycle@ == old(self).lifecycle@,
                Err(f) => r == Err::<(S, Vec<u8>), ExecutorError>(ExecutorError::ActionFailure(f))
                    && final(self).complete == old(self).complete && final(self).lifecycle@ == finish_spec(
                    old(self).lifecycle@,
                    NodeLifecyclePhase::Failed,
                ),
            },
    {
        let carry = self.pending_carry.take().unwrap();
        self.waiting_completion = false;
        match self.action.absorb(state, completion, carry) {
            Ok((next, Ok(emitted))) => {
                self.complete = true;
                self.lifecycle.succeed();
                Ok((next, emitted))
            },
            Ok((_, Err(t))) => Err(ExecutorError::EmitSerialize(t)),
            Err(f) => {
                self.lifecycle.fail();
                Err(ExecutorError::ActionFailure(f))
            },
        }
    }
}

impl<S, A: StepAction<S>> ErasedFlow<S> for TypedErasedStep<S, A> {
    open spec fn flow_complete(&self) -> bool {
        self.step_view().complete
    }

    open spec fn flow_waiting(&self) -> bool {
        self.step_view().waiting_completion
    }

    open spec fn flow_wf(&self) -> bool {
        self.wf()
    }

    /// Hands out the action's effect request. A complete step answers
    /// `Complete` and one with a request in flight `AwaitingCompletion`; an
    /// input it cannot read is refused; all three leave the state and the
    /// step as they were. Otherwise the step's activation is entered. An
    /// inline action keeps its input to run when settled and answers
    /// `Complete`; any other emits from the state on the input read, keeps
    /// the carry, and hands out the encoded effect input.
    fn request(&mut self, state: S, input: Vec<u8>, executable: bool) -> (r: Result<(S, ExecRequest), (S, ExecutorError)>)
        ensures
            old(self).step_view().complete ==> (r matches Err((s, ExecutorError::Complete)) && s == state
                && *final(self) == *old(self)),
            !old(self).step_view().complete && old(self).step_view().waiting_completion ==> (r matches Err(
                (s, ExecutorError::AwaitingCompletion),
            ) && s == state && *final(self) == *old(self)),
            !old(self).step_view().complete && !old(self).step_view().waiting_completion && step_input_spec::<S, A>(
                old(self).action_view(),
                input@,
            ) is None ==> (r matches Err((s, ExecutorError::InputDeserialize(t))) && s == state
                && t@ == step_input_error_spec::<S, A>(old(self).action_view(), input@) && *final(self) == *old(self)),
            !old(self).step_view().complete && !old(self).step_view().waiting_completion && step_input_spec::<S, A>(
                old(self).action_view(),
                input@,
            ) is Some && old(self).action_view().inline_spec() ==> (r matches Err((s, ExecutorError::Complete)) && s
                == state && final(self).step_view() == (StepView {
                pending_inline_input: Some(input@),
                lifecycle: enter_spec(old(self).step_view().lifecycle),
                ..old(self).step_view()
            }) && final(self).carry_view() == old(self).carry_view()),
            !old(self).step_view().complete && !old(self).step_view().waiting_completion && !old(self).action_view().inline_spec() ==> match step_input_spec::<S, A>(old(self).action_view(), input@) {
                Some(p) => {
                    let (s, req, carry) = old(self).action_view().emit_spec(state, p);
                    &&& final(self).step_view().lifecycle == enter_spec(old(self).step_view().lifecycle)
                    &&& final(self).carry_view() == Some(carry)
                    &&& !final(self).step_view().complete
                    &&& final(self).step_view().pending_inline_input == old(self).step_view().pending_inline_input
                    &&& match req {
                        Ok(b) => r matches Ok((s2, rq)) && s2 == s && rq.request_bytes@ == b && rq.node_id == old(self).step_view().lifecycle.node_id && rq.effect_type@ == old(self).action_view().effect_type_spec()
                            && rq.is_sleep == old(self).action_view().sleep_spec() && rq.join_route@.len() == 0
                            && rq.suspended_completion is None && rq.race_start_ids is None
                            && final(self).step_view().waiting_completion,
                        Err(t) => r matches Err((s2, ExecutorError::RequestSerialize(t2))) && s2 == s && t2@ == t
                            && !final(self).step_view().waiting_completion,
                    }
                },
                None => true,
            },
            final(self).action_view() == old(self).action_view(),
    {
        if self.complete {
            return Err((state, ExecutorError::Complete));
        }
        if self.waiting_completion {
            return Err((state, ExecutorError::AwaitingCompletion));
        }
        let payload = match decode_step_input::<S, A>(&self.action, input.as_slice()) {
            Ok(p) => p,
            Err(e) => return Err((state, e)),
        };
        if self.action.is_inline() {
            self.lifecycle.enter();
            self.pending_inline_input = Some(input);
            return Err((state, ExecutorError::Complete));
        }
        self.lifecycle.enter();
        proof {
            lemma_step_input_reads::<S, A>(self.action, input@);
        }
        let (next, request_bytes, carry) = self.action.emit(state, payload.as_slice());
        self.pending_carry = Some(carry);
        let request_bytes = match request_bytes {
            Ok(b) => b,
            Err(t) => return Err((next, ExecutorError::RequestSerialize(t))),
        };
        self.waiting_completion = true;
        let request = ExecRequest {
            node_id: self.lifecycle.node_id(),
            effect_type: self.action.effect_type(),
            is_sleep: self.action.is_sleep(),
            request_bytes,
            join_route: Vec::new(),
            suspended_completion: None,
            race_start_ids: None,
        };
        Ok((next, request))
    }

    /// Takes the completion of the request in flight. A complete step
    /// answers `Complete`, one with no request in flight
    /// `NoPendingRequest`, and a completion that cannot be read its reading
    /// error; all three leave the step as it was. Otherwise the action
    /// absorbs it with the kept carry: on success the step completes with
    /// the encoded output and its activation succeeds; a failed action
    /// leaves the step incomplete with its activation failed.
    fn complete(&mut self, state: S, completion: Result<Vec<u8>, Vec<u8>>) -> (r: Result<(S, Vec<u8>), ExecutorError>)
        ensures
            old(self).step_view().complete ==> (r matches Err(ExecutorError::Complete) && *final(self) == *old(self)),
            !old(self).step_view().complete && !old(self).step_view().waiting_completion ==> (r matches Err(
                ExecutorError::NoPendingRequest,
            ) && *final(self) == *old(self)),
            !old(self).step_view().complete && old(self).step_view().waiting_completion ==> match old(self).action_view().completion_error_spec(completion_view(completion)) {
                Some(e) => r == Err::<(S, Vec<u8>), ExecutorError>(e) && *final(self) == *old(self),
                None => {
                    &&& !final(self).step_view().waiting_completion
                    &&& final(self).carry_view() is None
                    &&& match old(self).action_view().absorb_spec(
                        state,
                        completion_view(completion),
                        old(self).carry_view()->Some_0,
                    ) {
                        Ok((s, Ok(b))) => r matches Ok((s2, out)) && s2 == s && out@ == b
                            && final(self).step_view().complete && final(self).step_view().lifecycle == finish_spec(
                            old(self).step_view().lifecycle,
                            NodeLifecyclePhase::Succeeded,
                        ),
                        Ok((_, Err(t))) => r matches Err(ExecutorError::EmitSerialize(t2)) && t2@ == t
                            && !final(self).step_view().complete,
                        Err(f) => r == Err::<(S, Vec<u8>), ExecutorError>(ExecutorError::ActionFailure(f))
                            && !final(self).step_view().complete && final(self).step_view().lifecycle == finish_spec(
                            old(self).step_view().lifecycle,
                            NodeLifecyclePhase::Failed,
                        ),
                    }
                },
            },
            final(self).step_view().pending_inline_input == old(self).step_view().pending_inline_input,
            final(self).action_view() == old(self).action_view(),
    {
        if self.complete {
            return Err(ExecutorError::Complete);
        }
        if !self.waiting_completion {
            return Err(ExecutorError::NoPendingRequest);
        }
        if let Err(e) = self.action.check_completion(&completion) {
            return Err(e);
        }
        self.absorb_completion(state, completion)
    }

    /// Runs a kept inline input: the input is read again, the action emits
    /// from the state, and absorbs an empty success at once; the step
    /// completes with the encoded output. With no kept input nothing
    /// happens.
    fn try_complete_without_progress(&mut self, state: S) -> (r: Result<(S, Option<Vec<u8>>, bool), ExecutorError>)
        ensures
            old(self).step_view().pending_inline_input is None ==> (r matches Ok((s, None, false)) && s == state
                && *final(self) == *old(self)),
            final(self).step_view().pending_inline_input is None,
            final(self).action_view() == old(self).action_view(),
            old(self).step_view().pending_inline_input matches Some(i) ==> {
                if old(self).step_view().complete {
                    r matches Ok((s, None, true)) && s == state
                } else if old(self).step_view().waiting_completion {
                    r matches Ok((s, None, false)) && s == state
                } else {
                    match step_input_spec::<S, A>(old(self).action_view(), i) {
                        None => r matches Err(ExecutorError::InputDeserialize(t)) && t@ == step_input_error_spec::<
                            S,
                            A,
                        >(old(self).action_view(), i),
                        Some(p) => {
                            let (s1, _, carry) = old(self).action_view().emit_spec(state, p);
                            match old(self).action_view().completion_error_spec(Ok(Seq::<u8>::empty())) {
                                Some(e) => r == Err::<(S, Option<Vec<u8>>, bool), ExecutorError>(e),
                                None => match old(self).action_view().absorb_spec(s1, Ok(Seq::<u8>::empty()), carry) {
                                    Ok((s2, Ok(b))) => r matches Ok((s3, Some(out), true)) && s3 == s2 && out@ == b
                                        && final(self).step_view().complete && !final(self).step_view().waiting_completion,
                                    Ok((_, Err(t))) => r matches Err(ExecutorError::EmitSerialize(t2)) && t2@ == t,
                                    Err(f) => r == Err::<(S, Option<Vec<u8>>, bool), ExecutorError>(
                                        ExecutorError::ActionFailure(f),
                                    ),
                                },
                            }
                        },
                    }
                }
            },
    {
        let input = match self.pending_inline_input.take() {
            Some(i) => i,
            None => return Ok((state, None, false)),
        };
        if self.complete {
            return Ok((state, None, true));
        }
        if self.waiting_completion {
            return Ok((state, None, false));
        }
        let payload = decode_step_input::<S, A>(&self.action, input.as_slice())?;
        self.lifecycle.enter();
        proof {
            lemma_step_input_reads::<S, A>(self.action, input@);
        }
        let (next, _request, carry) = self.action.emit(state, payload.as_slice());
        self.pending_carry = Some(carry);
        self.waiting_completion = true;
        let empty: Vec<u8> = Vec::new();
        let completion: Result<Vec<u8>, Vec<u8>> = Ok(empty);
        if let Err(e) = self.action.check_completion(&completion) {
            return Err(e);
        }
        let (after, emitted) = self.absorb_completion(next, completion)?;
        Ok((after, Some(emitted), true))
    }

    fn is_waiting_completion(&self) -> (b: bool) {
        self.waiting_completion
    }

    fn is_complete(&self) -> (b: bool) {
        self.complete
    }

    fn set_parent_activation_path(&mut self, path: &[u64]) {
        self.lifecycle.set_parent_activation_path(path);
    }

    fn set_journey_id(&mut self, journey_id: uuid::Uuid) {
        self.lifecycle.set_journey_id(journey_id);
    }

    fn take_node_lifecycle_updates(&mut self) -> (updates: Vec<NodeLifecycle>) {
        self.lifecycle.take_updates()
    }

    fn node_id(&self) -> u32 {
        self.lifecycle.node_id()
    }

    fn assign_node_ids(&mut self, next_id: &mut u32) {
        self.lifecycle.set_node_id(*next_id);
        *next_id = next_id.saturating_add(1);
    }
}

} // verus!
