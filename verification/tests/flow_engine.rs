use jungle::attempt::{encode_attempt_failure, encode_attempt_success};
use jungle::control::{decode_controlled_input, decode_loop_input};
use jungle::envelope::{encode_conditional_emitted, ActiveBranch};
use jungle::join::{encode_join_completion, join_emitted, JoinSide};
use jungle::join_flow::wrap_branch_request;
use jungle::select_flow::decode_select_trace;
use jungle::step_flow::decode_step_input;
use jungle::{
    AttemptFlow, BodyBuilder, ByteSeq, CharSeq, ConditionalFlow, ControlInput, DynFlow, ErasedFlow, ExecRequest,
    ExecutorError, Failure, JoinFlow, ManualExecutor, SelectFlow, StateMerge, StepAction, TransparentFlow, TypedErasedStep,
    WhileFlow,
};

/// Adds `k` to the state; the request is the step input, and the step
/// emits the completion followed by `k`. An error completion fails.
struct Add {
    k: u8,
    inline: bool,
}

// The `_spec` functions are read by the verifier only, as names for what
// the methods compute; they are never called at run time.
impl StepAction<u32> for Add {
    type Carry = u8;

    fn inline_spec(&self) -> bool {
        self.inline
    }

    fn sleep_spec(&self) -> bool {
        false
    }

    fn effect_type_spec(&self) -> CharSeq {
        unreachable!("contract-only function")
    }

    fn reads_exactly_spec(&self, _bytes: ByteSeq) -> bool {
        unreachable!("contract-only function")
    }

    fn read_error_spec(&self, _bytes: ByteSeq) -> CharSeq {
        unreachable!("contract-only function")
    }

    fn emit_spec(&self, _state: u32, _input: ByteSeq) -> (u32, Result<ByteSeq, CharSeq>, u8) {
        unreachable!("contract-only function")
    }

    fn completion_error_spec(&self, _completion: Result<ByteSeq, ByteSeq>) -> Option<ExecutorError> {
        unreachable!("contract-only function")
    }

    fn absorb_spec(
        &self,
        _state: u32,
        _completion: Result<ByteSeq, ByteSeq>,
        _carry: u8,
    ) -> Result<(u32, Result<ByteSeq, CharSeq>), Failure> {
        unreachable!("contract-only function")
    }

    fn is_inline(&self) -> bool {
        self.inline
    }

    fn is_sleep(&self) -> bool {
        false
    }

    fn effect_type(&self) -> String {
        "add".to_string()
    }

    fn read_exact(&self, bytes: &[u8]) -> Result<(), String> {
        if bytes.len() <= 4 {
            Ok(())
        } else {
            Err("too long".to_string())
        }
    }

    fn emit(&self, state: u32, input: &[u8]) -> (u32, Result<Vec<u8>, String>, u8) {
        (state, Ok(input.to_vec()), self.k)
    }

    fn check_completion(&self, completion: &Result<Vec<u8>, Vec<u8>>) -> Result<(), ExecutorError> {
        match completion {
            Ok(bytes) if bytes.len() > 4 => Err(ExecutorError::OutputDeserialize("too long".to_string())),
            _ => Ok(()),
        }
    }

    fn absorb(
        &self,
        state: u32,
        completion: Result<Vec<u8>, Vec<u8>>,
        carry: u8,
    ) -> Result<(u32, Result<Vec<u8>, String>), Failure> {
        match completion {
            Ok(mut bytes) => {
                bytes.push(carry);
                Ok((state + carry as u32, Ok(bytes)))
            },
            Err(_) => Err(Failure::Message("boom".to_string())),
        }
    }
}

/// Adds `k` to one slot of a pair state.
struct SlotAdd {
    k: u8,
    slot: usize,
}

// The `_spec` functions are read by the verifier only, as names for what
// the methods compute; they are never called at run time.
impl StepAction<(u32, u32)> for SlotAdd {
    type Carry = u8;

    fn inline_spec(&self) -> bool {
        false
    }

    fn sleep_spec(&self) -> bool {
        false
    }

    fn effect_type_spec(&self) -> CharSeq {
        unreachable!("contract-only function")
    }

    fn reads_exactly_spec(&self, _bytes: ByteSeq) -> bool {
        unreachable!("contract-only function")
    }

    fn read_error_spec(&self, _bytes: ByteSeq) -> CharSeq {
        unreachable!("contract-only function")
    }

    fn emit_spec(&self, _state: (u32, u32), _input: ByteSeq) -> ((u32, u32), Result<ByteSeq, CharSeq>, u8) {
        unreachable!("contract-only function")
    }

    fn completion_error_spec(&self, _completion: Result<ByteSeq, ByteSeq>) -> Option<ExecutorError> {
        unreachable!("contract-only function")
    }

    fn absorb_spec(
        &self,
        _state: (u32, u32),
        _completion: Result<ByteSeq, ByteSeq>,
        _carry: u8,
    ) -> Result<((u32, u32), Result<ByteSeq, CharSeq>), Failure> {
        unreachable!("contract-only function")
    }

    fn is_inline(&self) -> bool {
        false
    }

    fn is_sleep(&self) -> bool {
        false
    }

    fn effect_type(&self) -> String {
        "slot-add".to_string()
    }

    fn read_exact(&self, bytes: &[u8]) -> Result<(), String> {
        if bytes.len() <= 4 {
            Ok(())
        } else {
            Err("too long".to_string())
        }
    }

    fn emit(&self, state: (u32, u32), input: &[u8]) -> ((u32, u32), Result<Vec<u8>, String>, u8) {
        (state, Ok(input.to_vec()), self.k)
    }

    fn check_completion(&self, completion: &Result<Vec<u8>, Vec<u8>>) -> Result<(), ExecutorError> {
        match completion {
            Ok(bytes) if bytes.len() > 4 => Err(ExecutorError::OutputDeserialize("too long".to_string())),
            _ => Ok(()),
        }
    }

    fn absorb(
        &self,
        state: (u32, u32),
        completion: Result<Vec<u8>, Vec<u8>>,
        carry: u8,
    ) -> Result<((u32, u32), Result<Vec<u8>, String>), Failure> {
        match completion {
            Ok(mut bytes) => {
                bytes.push(carry);
                let next = if self.slot == 0 {
                    (state.0 + carry as u32, state.1)
                } else {
                    (state.0, state.1 + carry as u32)
                };
                Ok((next, Ok(bytes)))
            },
            Err(_) => Err(Failure::Message("boom".to_string())),
        }
    }
}

struct TakeSlot(usize);

impl StateMerge<(u32, u32)> for TakeSlot {
    fn merge_into(&self, target: &mut (u32, u32), branch_state: (u32, u32)) {
        if self.0 == 0 {
            target.0 = branch_state.0;
        } else {
            target.1 = branch_state.1;
        }
    }
}

/// Reads a one-byte input; the condition holds while the state is below
/// `limit`.
struct Gate {
    limit: u32,
}

impl ControlInput<u32> for Gate {
    fn canonical_spec(_bytes: ByteSeq) -> Result<ByteSeq, CharSeq> {
        unreachable!("contract-only function")
    }

    fn holds_spec(&self, state: u32, _carry: ByteSeq) -> bool {
        state < self.limit
    }

    fn canonical(&self, bytes: &[u8]) -> Result<Vec<u8>, String> {
        match bytes.first() {
            Some(b) => Ok(vec![*b]),
            None => Err("empty input".to_string()),
        }
    }

    fn holds(&self, state: &u32, _carry: &[u8]) -> bool {
        *state < self.limit
    }
}

struct OneAdd;

impl BodyBuilder<u32> for OneAdd {
    fn body_len_spec(&self) -> usize {
        1
    }

    fn build(&self) -> DynFlow<u32> {
        vec![step(1)]
    }
}

fn step(k: u8) -> Box<dyn ErasedFlow<u32>> {
    Box::new(TypedErasedStep::new(Add { k, inline: false }))
}

fn slot_step(k: u8, slot: usize) -> Box<dyn ErasedFlow<(u32, u32)>> {
    Box::new(TypedErasedStep::new(SlotAdd { k, slot }))
}

#[test]
fn executor_runs_steps_in_order() {
    let mut exec = ManualExecutor::new(vec![step(3), step(4)], 10u32);
    let first = exec.next_executable_request(vec![1]).unwrap();
    assert_eq!(first.node_id, 0);
    assert_eq!(first.request_bytes, vec![1]);
    assert_eq!(first.effect_type, "add");
    assert!(first.join_route.is_empty());
    assert_eq!(exec.complete_serialized(Ok(vec![2])).unwrap(), vec![2, 3]);
    assert_eq!(*exec.state(), 13);
    let second = exec.next_executable_request(vec![]).unwrap();
    assert_eq!(second.node_id, 1);
    assert_eq!(second.request_bytes, vec![2, 3]);
    assert_eq!(exec.complete_serialized(Ok(vec![5])).unwrap(), vec![5, 4]);
    assert!(exec.is_complete());
    assert!(matches!(exec.next_executable_request(vec![]), Err(ExecutorError::Complete)));
    assert!(matches!(exec.complete_serialized(Ok(vec![])), Err(ExecutorError::Complete)));
    assert_eq!(exec.into_state(), 17);
}

#[test]
fn executor_refuses_second_request_while_waiting() {
    let mut exec = ManualExecutor::new(vec![step(3)], 0u32);
    assert!(exec.next_executable_request(vec![1]).is_ok());
    assert!(matches!(exec.next_executable_request(vec![1]), Err(ExecutorError::AwaitingCompletion)));
}

#[test]
fn executor_passes_step_failure_up() {
    let mut exec = ManualExecutor::new(vec![step(3)], 5u32);
    exec.next_executable_request(vec![1]).unwrap();
    let r = exec.complete_serialized(Err(vec![9]));
    assert!(matches!(r, Err(ExecutorError::ActionFailure(Failure::Message(ref m))) if m == "boom"));
    assert_eq!(*exec.state(), 5);
}

#[test]
fn inline_step_runs_without_request() {
    let inline: Box<dyn ErasedFlow<u32>> = Box::new(TypedErasedStep::new(Add { k: 2, inline: true }));
    let mut exec = ManualExecutor::new(vec![inline, step(4)], 0u32);
    let r = exec.next_executable_request(vec![7]).unwrap();
    assert_eq!(r.node_id, 1);
    assert_eq!(r.request_bytes, vec![2]);
    assert_eq!(*exec.state(), 2);
}

#[test]
fn advance_to_end_collects_emitted_values() {
    let mut exec = ManualExecutor::new(vec![step(3), step(4)], 0u32);
    let out = exec.advance_to_end(vec![(vec![1], Ok(vec![2])), (vec![], Ok(vec![5]))]).unwrap();
    assert_eq!(out, vec![vec![2, 3], vec![5, 4]]);
    assert_eq!(*exec.state(), 7);
    let mut short = ManualExecutor::new(vec![step(3), step(4)], 0u32);
    let r = short.advance_to_end(vec![(vec![1], Ok(vec![2]))]);
    assert!(matches!(r, Err(ExecutorError::NotEnoughCompletions)));
}

#[test]
fn attempt_turns_failure_into_data() {
    let attempt: Box<dyn ErasedFlow<u32>> = Box::new(AttemptFlow::new(vec![step(3)]));
    let mut exec = ManualExecutor::new(vec![attempt], 5u32);
    let r = exec.next_executable_request(vec![1]).unwrap();
    assert_eq!(r.node_id, 1);
    let out = exec.complete_serialized(Err(vec![9])).unwrap();
    assert_eq!(out, encode_attempt_failure(&Failure::Message("boom".to_string())));
    assert!(exec.is_complete());
}

#[test]
fn attempt_wraps_success() {
    let attempt: Box<dyn ErasedFlow<u32>> = Box::new(AttemptFlow::new(vec![step(3)]));
    let mut exec = ManualExecutor::new(vec![attempt], 5u32);
    exec.next_executable_request(vec![1]).unwrap();
    let out = exec.complete_serialized(Ok(vec![2])).unwrap();
    assert_eq!(out, encode_attempt_success(vec![2, 3]));
    assert_eq!(*exec.state(), 8);
    assert!(exec.is_complete());
}

#[test]
fn executor_join_runs_left_branch_before_right() {
    let join: Box<dyn ErasedFlow<u32>> =
        Box::new(JoinFlow::new(vec![step(3)], vec![step(4)], false, Box::new(NoMerge), Box::new(NoMerge)));
    let mut exec = ManualExecutor::new(vec![join], 10u32);
    let left = exec.next_executable_request(vec![1]).unwrap();
    assert_eq!(left.node_id, 1);
    assert_eq!(left.request_bytes, vec![1]);
    assert!(matches!(exec.next_executable_request(vec![1]), Err(ExecutorError::AwaitingCompletion)));
    exec.complete_serialized(Ok(vec![2])).unwrap();
    let right = exec.next_executable_request(vec![]).unwrap();
    assert_eq!(right.node_id, 2);
    assert_eq!(right.request_bytes, vec![1]);
    let out = exec.complete_serialized(Ok(vec![5])).unwrap();
    assert_eq!(out, join_emitted(&[2, 3], &[5, 4]));
    assert_eq!(*exec.state(), 17);
    assert!(exec.is_complete());
}

struct NoMerge;

impl StateMerge<u32> for NoMerge {
    fn merge_into(&self, _target: &mut u32, _branch_state: u32) {}
}

#[test]
fn merging_join_routes_and_merges_both_branches() {
    let join: Box<dyn ErasedFlow<(u32, u32)>> = Box::new(JoinFlow::new(
        vec![slot_step(3, 0)],
        vec![slot_step(4, 1)],
        true,
        Box::new(TakeSlot(0)),
        Box::new(TakeSlot(1)),
    ));
    let mut exec = ManualExecutor::new(vec![join], (0u32, 0u32));
    let left = exec.next_executable_request(vec![1]).unwrap();
    assert_eq!(left.join_route, vec![JoinSide::Left]);
    exec.complete_serialized(Ok(encode_join_completion(JoinSide::Left, Ok(vec![2])))).unwrap();
    let right = exec.next_executable_request(vec![]).unwrap();
    assert_eq!(right.join_route, vec![JoinSide::Right]);
    assert_eq!(right.request_bytes, vec![1]);
    let out = exec.complete_serialized(Ok(encode_join_completion(JoinSide::Right, Ok(vec![5])))).unwrap();
    assert_eq!(out, join_emitted(&[2, 3], &[5, 4]));
    assert_eq!(*exec.state(), (3, 4));
    assert!(exec.is_complete());
}

#[test]
fn conditional_follows_flag_and_condition() {
    let cond: Box<dyn ErasedFlow<u32>> = Box::new(ConditionalFlow::new(vec![step(3)], vec![step(4)], Gate { limit: 5 }));
    let mut exec = ManualExecutor::new(vec![cond], 10u32);
    let r = exec.next_executable_request(vec![0, 7]).unwrap();
    assert_eq!(r.node_id, 2);
    assert_eq!(r.request_bytes, vec![7]);
    let out = exec.complete_serialized(Ok(vec![2])).unwrap();
    assert_eq!(out, encode_conditional_emitted(ActiveBranch::Right, vec![2, 4]));
    assert_eq!(*exec.state(), 14);

    let cond: Box<dyn ErasedFlow<u32>> = Box::new(ConditionalFlow::new(vec![step(3)], vec![step(4)], Gate { limit: 5 }));
    let mut exec = ManualExecutor::new(vec![cond], 1u32);
    let r = exec.next_executable_request(vec![9]).unwrap();
    assert_eq!(r.node_id, 1);
    assert_eq!(r.request_bytes, vec![9]);
}

#[test]
fn conditional_refuses_unreadable_input() {
    let cond: Box<dyn ErasedFlow<u32>> = Box::new(ConditionalFlow::new(vec![step(3)], vec![step(4)], Gate { limit: 5 }));
    let mut exec = ManualExecutor::new(vec![cond], 1u32);
    assert!(matches!(exec.next_executable_request(vec![]), Err(ExecutorError::InputDeserialize(_))));
}

#[test]
fn while_repeats_until_condition_fails() {
    let w: Box<dyn ErasedFlow<u32>> = Box::new(WhileFlow::new(Gate { limit: 2 }, OneAdd));
    let mut exec = ManualExecutor::new(vec![w], 0u32);
    let first = exec.next_executable_request(vec![5]).unwrap();
    assert_eq!(first.request_bytes, vec![5]);
    exec.complete_serialized(Ok(vec![6])).unwrap();
    assert_eq!(*exec.state(), 1);
    let second = exec.next_executable_request(vec![]).unwrap();
    assert_eq!(second.request_bytes, vec![6]);
    exec.complete_serialized(Ok(vec![7])).unwrap();
    assert_eq!(*exec.state(), 2);
    assert!(matches!(exec.next_executable_request(vec![]), Err(ExecutorError::Complete)));
    assert!(exec.is_complete());
}

#[test]
fn while_stops_on_false_flag() {
    let w: Box<dyn ErasedFlow<u32>> = Box::new(WhileFlow::new(Gate { limit: 100 }, OneAdd));
    let mut exec = ManualExecutor::new(vec![w], 0u32);
    assert!(matches!(exec.next_executable_request(vec![0, 3]), Err(ExecutorError::Complete)));
    assert!(exec.is_complete());
    assert_eq!(*exec.state(), 0);
}

#[test]
fn controlled_input_forms() {
    let gate = Gate { limit: 5 };
    assert!(matches!(decode_controlled_input(&gate, &0, &[1, 7]), Ok((true, ref v)) if *v == vec![7]));
    assert!(matches!(decode_controlled_input(&gate, &0, &[0, 7]), Ok((false, ref v)) if *v == vec![7]));
    assert!(matches!(decode_controlled_input(&gate, &0, &[0, 1, 9]), Ok((true, ref v)) if *v == vec![9]));
    assert!(matches!(decode_controlled_input(&gate, &0, &[1, 1, 9]), Ok((false, ref v)) if *v == vec![9]));
    assert!(matches!(decode_controlled_input(&gate, &0, &[5]), Ok((true, ref v)) if *v == vec![5]));
    assert!(matches!(decode_controlled_input(&gate, &9, &[5]), Ok((false, ref v)) if *v == vec![5]));
    assert!(matches!(decode_controlled_input(&gate, &0, &[]), Err(ExecutorError::InputDeserialize(_))));
}

#[test]
fn loop_input_forms() {
    let gate = Gate { limit: 5 };
    assert!(matches!(decode_loop_input(&gate, &0, &[0, 7]), Ok((false, ref v)) if *v == vec![7]));
    assert!(matches!(decode_loop_input(&gate, &0, &[0, 1, 9]), Ok((true, ref v)) if *v == vec![9]));
    assert!(matches!(decode_loop_input(&gate, &9, &[0, 1, 9]), Ok((false, ref v)) if *v == vec![9]));
    assert!(matches!(decode_loop_input(&gate, &0, &[]), Err(ExecutorError::InputDeserialize(_))));
}

#[test]
fn branch_request_gets_route_and_sleep_completion() {
    let request = ExecRequest {
        node_id: 4,
        effect_type: "sleep".to_string(),
        is_sleep: true,
        request_bytes: vec![1, 2],
        join_route: vec![JoinSide::Left],
        suspended_completion: None,
        race_start_ids: None,
    };
    let wrapped = wrap_branch_request(JoinSide::Right, request);
    assert_eq!(wrapped.node_id, 4);
    assert_eq!(wrapped.request_bytes, vec![1, 2]);
    assert_eq!(wrapped.join_route, vec![JoinSide::Left, JoinSide::Right]);
    assert_eq!(wrapped.suspended_completion, Some(Ok(encode_join_completion(JoinSide::Right, Ok(vec![])))));
    assert_eq!(wrapped.race_start_ids, None);
}

fn race_report(tag: u8, completions: Vec<Result<Vec<u8>, Vec<u8>>>, emitted: Vec<u8>) -> Vec<u8> {
    let mut bytes = vec![tag];
    bytes.extend(postcard::to_allocvec(&(completions, emitted)).unwrap());
    bytes
}

#[test]
fn select_replays_the_winning_branch() {
    let select: Box<dyn ErasedFlow<u32>> = Box::new(SelectFlow::new(vec![step(3)], vec![step(4)]));
    let mut exec = ManualExecutor::new(vec![select], 10u32);
    let r = exec.next_executable_request(vec![1]).unwrap();
    assert_eq!(r.node_id, 0);
    assert_eq!(r.effect_type, "jungle_types::Select");
    assert_eq!(r.request_bytes, vec![1, 1, 1, 1]);
    assert_eq!(r.race_start_ids, Some((1, 2)));
    let report = race_report(1, vec![Ok(vec![5])], vec![5, 4]);
    let out = exec.complete_serialized(Ok(report)).unwrap();
    assert_eq!(out, vec![1, 5, 4]);
    assert_eq!(*exec.state(), 14);
    assert!(exec.is_complete());
}

#[test]
fn select_left_winner_is_tagged_zero() {
    let select: Box<dyn ErasedFlow<u32>> = Box::new(SelectFlow::new(vec![step(3)], vec![step(4)]));
    let mut exec = ManualExecutor::new(vec![select], 0u32);
    exec.next_executable_request(vec![2]).unwrap();
    let out = exec.complete_serialized(Ok(race_report(0, vec![Ok(vec![8])], vec![8, 3]))).unwrap();
    assert_eq!(out, vec![0, 8, 3]);
    assert_eq!(*exec.state(), 3);
}

#[test]
fn select_refuses_unreadable_or_short_reports() {
    let select: Box<dyn ErasedFlow<u32>> = Box::new(SelectFlow::new(vec![step(3)], vec![step(4)]));
    let mut exec = ManualExecutor::new(vec![select], 0u32);
    exec.next_executable_request(vec![2]).unwrap();
    assert!(matches!(exec.complete_serialized(Err(vec![104, 105])), Err(ExecutorError::ErrorDeserialize(ref m)) if m.ends_with("hi")));
    assert!(matches!(exec.complete_serialized(Ok(vec![7])), Err(ExecutorError::OutputDeserialize(_))));
    let short = race_report(0, vec![], vec![]);
    assert!(matches!(exec.complete_serialized(Ok(short)), Err(ExecutorError::NoPendingRequest)));
}

#[test]
fn select_trace_decodes_postcard_reports() {
    let bytes = race_report(1, vec![Ok(vec![1, 2]), Err(vec![3])], vec![9]);
    let (winner, completions, emitted) = decode_select_trace(&bytes).unwrap();
    assert_eq!(winner, ActiveBranch::Right);
    assert_eq!(completions, vec![Ok(vec![1, 2]), Err(vec![3])]);
    assert_eq!(emitted, vec![9]);
    assert!(decode_select_trace(&[2, 0, 0]).is_none());
    assert!(decode_select_trace(&[0, 1, 0, 5, 1]).is_none());
}

#[test]
fn transparent_passes_values_and_failures_through() {
    let t: Box<dyn ErasedFlow<u32>> = Box::new(TransparentFlow::new(vec![step(3), step(4)]));
    let mut exec = ManualExecutor::new(vec![t], 0u32);
    let first = exec.next_executable_request(vec![1]).unwrap();
    assert_eq!(first.node_id, 1);
    assert_eq!(exec.complete_serialized(Ok(vec![2])).unwrap(), vec![2, 3]);
    let second = exec.next_executable_request(vec![]).unwrap();
    assert_eq!(second.node_id, 2);
    assert_eq!(second.request_bytes, vec![2, 3]);
    assert_eq!(exec.complete_serialized(Ok(vec![5])).unwrap(), vec![5, 4]);
    assert!(exec.is_complete());

    let t: Box<dyn ErasedFlow<u32>> = Box::new(TransparentFlow::new(vec![step(3)]));
    let mut exec = ManualExecutor::new(vec![t], 0u32);
    exec.next_executable_request(vec![1]).unwrap();
    let r = exec.complete_serialized(Err(vec![]));
    assert!(matches!(r, Err(ExecutorError::ActionFailure(_))));
}

#[test]
fn starting_at_numbers_from_given_id() {
    let mut exec = ManualExecutor::starting_at(vec![step(3)], 0u32, 7);
    assert_eq!(exec.next_executable_request(vec![1]).unwrap().node_id, 7);
}

#[test]
fn serialized_mode_gives_request_bytes() {
    let mut exec = ManualExecutor::new(vec![step(3), step(4)], 0u32);
    assert_eq!(exec.next_request(vec![6]).unwrap(), vec![6]);
    assert_eq!(exec.complete_serialized(Ok(vec![1])).unwrap(), vec![1, 3]);
    assert_eq!(exec.next(vec![], Ok(vec![2])).unwrap(), vec![2, 4]);
    assert!(exec.is_complete());
}

#[test]
fn serialized_mode_is_refused_by_joins_and_selects() {
    let join: Box<dyn ErasedFlow<u32>> =
        Box::new(JoinFlow::new(vec![step(3)], vec![step(4)], false, Box::new(NoMerge), Box::new(NoMerge)));
    let mut exec = ManualExecutor::new(vec![join], 0u32);
    assert!(matches!(exec.next_request(vec![1]), Err(ExecutorError::ClientTransport(ref m)) if m == "Join requires executable request mode"));
    let select: Box<dyn ErasedFlow<u32>> = Box::new(SelectFlow::new(vec![step(3)], vec![step(4)]));
    let mut exec = ManualExecutor::new(vec![select], 0u32);
    let r = exec.advance_to_end(vec![(vec![1], Ok(vec![]))]);
    assert!(matches!(r, Err(ExecutorError::ClientTransport(ref m)) if m == "Select requires executable request mode"));
}

#[test]
fn step_input_is_read_through_branch_envelopes() {
    let add = Add { k: 1, inline: false };
    assert_eq!(decode_step_input::<u32, Add>(&add, &[7, 8]).unwrap(), vec![7, 8]);
    assert_eq!(decode_step_input::<u32, Add>(&add, &[0, 5, 1, 2, 3, 4, 5]).unwrap(), vec![3, 4]);
    let direct = decode_step_input::<u32, Add>(&add, &[9, 9, 9, 9, 9, 9]);
    assert!(matches!(direct, Err(ExecutorError::InputDeserialize(ref m)) if m == "step direct input: too long"));
    let either = decode_step_input::<u32, Add>(&add, &[0, 5, 9, 9, 9, 9, 9]);
    assert!(matches!(either, Err(ExecutorError::InputDeserialize(ref m)) if m == "step either envelope: too long"));
}

#[test]
fn step_refusals_leave_it_as_it_was() {
    let mut exec = ManualExecutor::new(vec![step(3)], 4u32);
    let r = exec.next_executable_request(vec![9, 9, 9, 9, 9, 9]);
    assert!(matches!(r, Err(ExecutorError::InputDeserialize(_))));
    assert_eq!(*exec.state(), 4);
    assert!(exec.next_executable_request(vec![1]).is_ok());
    assert!(matches!(exec.complete_serialized(Ok(vec![1, 2, 3, 4, 5])), Err(ExecutorError::OutputDeserialize(_))));
    assert_eq!(exec.complete_serialized(Ok(vec![2])).unwrap(), vec![2, 3]);
}

#[test]
fn join_without_request_in_flight_refuses_completion() {
    let mut join = JoinFlow::new(vec![step(3)], vec![step(4)], false, Box::new(NoMerge), Box::new(NoMerge));
    assert!(matches!(join.complete(0u32, Ok(vec![1])), Err(ExecutorError::NoPendingRequest)));
    let mut merging = JoinFlow::new(vec![step(3)], vec![step(4)], true, Box::new(NoMerge), Box::new(NoMerge));
    assert!(matches!(merging.complete(0u32, Ok(vec![1, 2])), Err(ExecutorError::OutputDeserialize(_))));
}

#[test]
fn unreadable_control_inputs_name_their_form() {
    let gate = Gate { limit: 5 };
    let r = decode_controlled_input(&gate, &0, &[]);
    assert!(matches!(r, Err(ExecutorError::InputDeserialize(ref m)) if m == "conditional direct carry: empty input"));
    let r = decode_controlled_input(&gate, &0, &[1, 0, 5]);
    assert!(matches!(r, Err(ExecutorError::InputDeserialize(ref m)) if m == "conditional either right carry: empty input"));
    let w: Box<dyn ErasedFlow<u32>> = Box::new(WhileFlow::new(Gate { limit: 2 }, OneAdd));
    let mut exec = ManualExecutor::new(vec![w], 0u32);
    let r = exec.next_executable_request(vec![]);
    assert!(matches!(r, Err(ExecutorError::InputDeserialize(ref m)) if m == "while direct carry: empty input"));
}
