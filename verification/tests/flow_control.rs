use jungle::attempt::{encode_attempt_failure, encode_attempt_success, AttemptProgress, AttemptSettle};
use jungle::conditional::{ConditionalProgress, ConditionalSettle, ConditionalStep};
use jungle::envelope::{decode_either_envelope, ActiveBranch};
use jungle::join::{
    decode_join_completion, encode_join_completion, join_emitted, suspended_sleep_completion, BranchPoll,
    IdleCheck, JoinProgress, JoinRouteError, JoinSide, JoinStep,
};
use jungle::select::{encode_select_request, select_emitted, SelectProgress};
use jungle::sequence::{InlineStep, SequenceProgress};
use jungle::transparent::{TransparentProgress, TransparentSettle};
use jungle::while_loop::{BodyAdvance, WhileProgress, WhileSettle, WhileStart, WhileStep};
use jungle::error::Refusal;
use jungle::Failure;
use uuid::Uuid;

type Completion = Result<Vec<u8>, Vec<u8>>;

#[test]
fn join_completion_envelope_matches_postcard() {
    let left_ok: Result<Completion, Completion> = Ok(Ok(vec![1, 2]));
    assert_eq!(encode_join_completion(JoinSide::Left, Ok(vec![1, 2])), postcard::to_allocvec(&left_ok).unwrap());
    let right_err: Result<Completion, Completion> = Err(Err(vec![]));
    assert_eq!(encode_join_completion(JoinSide::Right, Err(vec![])), postcard::to_allocvec(&right_err).unwrap());
    assert_eq!(encode_join_completion(JoinSide::Left, Ok(vec![1, 2])), vec![0, 0, 2, 1, 2]);
    assert_eq!(suspended_sleep_completion(JoinSide::Right), vec![1, 0, 0]);
}

#[test]
fn join_completion_envelope_reads_back() {
    let mut bytes = encode_join_completion(JoinSide::Right, Err(vec![7, 8, 9]));
    bytes.extend_from_slice(&[42, 43]);
    assert_eq!(decode_join_completion(&bytes), Some((JoinSide::Right, Err(vec![7, 8, 9]))));
    assert_eq!(decode_join_completion(&[2, 0, 0]), None);
    assert_eq!(decode_join_completion(&[0, 0, 3, 1]), None);
    assert_eq!(decode_join_completion(&[]), None);
}

#[test]
fn join_emits_left_then_right() {
    assert_eq!(join_emitted(&[1, 2], &[3]), vec![1, 2, 3]);
    assert_eq!(join_emitted(&[], &[]), Vec::<u8>::new());
}

#[test]
fn sequential_join_runs_left_then_right() {
    let mut join = JoinProgress::new(false);
    join.set_journey_id(Uuid::nil());
    assert_eq!(join.begin_request(), None);
    assert_eq!(join.first_poll(), JoinStep::Poll(JoinSide::Left));
    assert_eq!(join.after_poll(JoinSide::Left, BranchPoll::Requested), JoinStep::Request(JoinSide::Left));
    assert!(join.is_waiting_completion());
    assert_eq!(join.begin_request(), Some(JoinStep::Awaiting));
    assert_eq!(join.idle_check(), IdleCheck::Busy);

    assert_eq!(join.route_completion(Ok(vec![5])), Ok((JoinSide::Left, Ok(vec![5]))));
    assert!(!join.is_waiting_completion());
    assert_eq!(join.route_completion(Ok(vec![5])), Err(JoinRouteError::NoPendingRequest));

    join.settle(JoinSide::Left, true);
    join.settle(JoinSide::Right, false);
    assert!(!join.finish_if_done());
    assert_eq!(join.begin_request(), None);
    assert_eq!(join.first_poll(), JoinStep::Poll(JoinSide::Right));
    assert_eq!(join.after_poll(JoinSide::Right, BranchPoll::Complete), JoinStep::Complete);
    assert!(join.is_complete());
    assert!(join.all_complete());
    assert_eq!(join.begin_request(), Some(JoinStep::Complete));
    assert_eq!(join.route_completion(Ok(vec![])), Err(JoinRouteError::Complete));
    assert_eq!(join.idle_check(), IdleCheck::Finished);

    let updates = join.take_node_lifecycle_updates();
    assert_eq!(updates.len(), 2);
    assert_eq!(updates[0].activation_path, vec![0]);
}

#[test]
fn sequential_join_passes_a_waiting_left_branch_up() {
    let mut join = JoinProgress::new(false);
    assert_eq!(join.begin_request(), None);
    assert_eq!(join.after_poll(JoinSide::Left, BranchPoll::AwaitingCompletion), JoinStep::PassUp);
    assert_eq!(join.after_poll(JoinSide::Left, BranchPoll::Complete), JoinStep::Poll(JoinSide::Right));
    assert_eq!(join.after_poll(JoinSide::Right, BranchPoll::ActionFailure), JoinStep::Failed);
    assert!(!join.is_complete());
}

#[test]
fn merging_join_routes_completions_by_side() {
    let mut join = JoinProgress::new(true);
    assert_eq!(join.begin_request(), None);
    assert_eq!(join.first_poll(), JoinStep::Poll(JoinSide::Left));
    assert_eq!(join.after_poll(JoinSide::Left, BranchPoll::Requested), JoinStep::Request(JoinSide::Left));
    assert_eq!(join.requests_in_flight(JoinSide::Left), 1);
    assert_eq!(join.begin_request(), None);
    assert_eq!(join.after_poll(JoinSide::Left, BranchPoll::AwaitingCompletion), JoinStep::Poll(JoinSide::Right));
    assert_eq!(join.after_poll(JoinSide::Right, BranchPoll::Requested), JoinStep::Request(JoinSide::Right));
    assert_eq!(join.requests_in_flight(JoinSide::Right), 1);

    assert_eq!(join.route_completion(Ok(vec![9])), Err(JoinRouteError::OutputDeserialize));
    assert_eq!(join.route_completion(Err(vec![104, 105])), Err(JoinRouteError::ErrorDeserialize(vec![104, 105])));

    let wrapped = encode_join_completion(JoinSide::Right, Ok(vec![3, 4]));
    assert_eq!(join.route_completion(Ok(wrapped)), Ok((JoinSide::Right, Ok(vec![3, 4]))));
    assert_eq!(join.requests_in_flight(JoinSide::Right), 0);

    assert_eq!(join.route_completion(Err(vec![1])), Ok((JoinSide::Left, Err(vec![1]))));
    assert_eq!(join.requests_in_flight(JoinSide::Left), 0);
    assert!(!join.is_waiting_completion());
    assert_eq!(join.idle_check(), IdleCheck::Settle);

    join.settle(JoinSide::Left, true);
    join.settle(JoinSide::Right, true);
    assert!(join.finish_if_done());
    assert!(join.is_complete());
}

#[test]
fn join_numbers_itself_and_moves_on() {
    let mut join = JoinProgress::new(false);
    let mut next: u32 = 7;
    join.assign_node_id(&mut next);
    assert_eq!(join.node_id(), 7);
    assert_eq!(next, 8);
    let mut last: u32 = u32::MAX;
    join.assign_node_id(&mut last);
    assert_eq!(last, u32::MAX);
}

#[test]
fn conditional_tags_the_last_value_of_its_branch() {
    let mut cond = ConditionalProgress::new(2, 1);
    assert!(!cond.is_complete());
    cond.pick_branch(false);
    assert_eq!(cond.active_branch(), Some(ActiveBranch::Right));
    assert_eq!(cond.branch_len(), 1);
    assert_eq!(cond.current_node(), Some(0));
    let out = cond.after_completion(true, vec![6, 7]);
    assert_eq!(out, vec![1, 2, 6, 7]);
    assert_eq!(decode_either_envelope(&out), Some((ActiveBranch::Right, vec![6, 7])));
    assert!(cond.is_complete());
    assert_eq!(cond.current_node(), None);
    match cond.settle_check() {
        ConditionalSettle::Finished(Some(kept)) => assert_eq!(kept, vec![1, 2, 6, 7]),
        other => panic!("unexpected settle result {other:?}"),
    }
}

#[test]
fn conditional_runs_inline_nodes() {
    let mut cond = ConditionalProgress::new(2, 0);
    match cond.settle_check() {
        ConditionalSettle::Idle => {}
        other => panic!("unexpected settle result {other:?}"),
    }
    cond.pick_branch(true);
    let (step, input) = cond.after_inline_complete(vec![1], Some(vec![2]), true);
    assert_eq!(step, ConditionalStep::Continue);
    assert_eq!(input, vec![2]);
    let (step, input) = cond.after_inline_complete(input, None, false);
    assert_eq!(step, ConditionalStep::Complete);
    assert_eq!(input, vec![2]);
    assert!(!cond.is_complete());
    let (step, input) = cond.after_inline_complete(input, None, true);
    assert_eq!(step, ConditionalStep::Complete);
    assert_eq!(input, vec![2]);
    assert!(cond.is_complete());
    match cond.settle_check() {
        ConditionalSettle::Finished(Some(kept)) => assert_eq!(kept, vec![0, 1, 2]),
        other => panic!("unexpected settle result {other:?}"),
    }
}

#[test]
fn conditional_with_an_empty_branch_ends_at_once() {
    let mut cond = ConditionalProgress::new(0, 3);
    cond.pick_branch(true);
    assert!(cond.is_complete());
    assert_eq!(cond.current_node(), None);
    match cond.settle_check() {
        ConditionalSettle::Finished(None) => {}
        other => panic!("unexpected settle result {other:?}"),
    }
}

#[test]
fn conditional_settles_its_last_node() {
    let mut cond = ConditionalProgress::new(1, 1);
    cond.pick_branch(true);
    match cond.settle_check() {
        ConditionalSettle::AskNode => {}
        other => panic!("unexpected settle result {other:?}"),
    }
    assert_eq!(cond.after_settle_node(Some(vec![4]), false), (Some(vec![4]), false));
    assert_eq!(cond.after_settle_node(Some(vec![5]), true), (Some(vec![0, 1, 5]), true));
    assert!(cond.is_complete());
}

#[test]
fn while_loop_decides_each_iteration_on_the_last_value() {
    let mut w = WhileProgress::new(2);
    match w.start(&vec![1]) {
        WhileStart::Decide(c) => assert_eq!(c, vec![1]),
        other => panic!("unexpected start {other:?}"),
    }
    assert!(w.enter_iteration());
    assert_eq!(w.current_node(), Some(0));
    assert_eq!(w.after_node(BodyAdvance::Completed, Some(vec![2]), vec![1]), (WhileStep::Continue, vec![2]));
    assert_eq!(w.current_node(), Some(1));
    match w.start(&vec![99]) {
        WhileStart::Resume => {}
        other => panic!("unexpected start {other:?}"),
    }
    assert!(!w.enter_iteration());
    assert_eq!(w.after_node(BodyAdvance::Request, None, vec![2]), (WhileStep::Request, vec![2]));
    w.after_completion(true, &vec![3]);
    assert_eq!(w.current_node(), None);
    match w.start(&vec![99]) {
        WhileStart::Decide(c) => assert_eq!(c, vec![3]),
        other => panic!("unexpected start {other:?}"),
    }
    w.stop();
    assert!(w.is_complete());
    match w.start(&vec![1]) {
        WhileStart::Complete => {}
        other => panic!("unexpected start {other:?}"),
    }
    match w.settle_begin() {
        WhileSettle::Finished(None) => {}
        other => panic!("unexpected settle {other:?}"),
    }
}

#[test]
fn while_loop_keeps_the_last_emitted_value_for_settling() {
    let mut w = WhileProgress::new(1);
    let mut next: u32 = 4;
    w.assign_node_id(&mut next);
    assert_eq!(w.body_node_id_start(), 4);
    assert_eq!(next, 5);
    assert!(matches!(w.start(&vec![0]), WhileStart::Decide(_)));
    assert!(w.enter_iteration());
    assert_eq!(w.after_node(BodyAdvance::Progress, Some(vec![8]), vec![0]), (WhileStep::Continue, vec![8]));
    assert_eq!(w.after_node(BodyAdvance::ActionFailure, None, vec![8]), (WhileStep::PassUp, vec![8]));
    match w.settle_begin() {
        WhileSettle::Walk(Some(v)) => assert_eq!(v, vec![8]),
        other => panic!("unexpected settle {other:?}"),
    }
    assert_eq!(w.settle_node(None, true, Some(vec![8])), (Some(vec![8]), false));
    assert_eq!(w.current_node(), None);
    match w.start(&vec![0]) {
        WhileStart::Decide(c) => assert_eq!(c, vec![8]),
        other => panic!("unexpected start {other:?}"),
    }
}

#[test]
fn attempt_results_match_postcard() {
    let failure = Failure::Message("boom".to_string());
    let as_result: Result<Vec<u8>, Result<String, ()>> = Err(Ok("boom".to_string()));
    assert_eq!(encode_attempt_failure(&failure), postcard::to_allocvec(&as_result).unwrap());
    assert_eq!(encode_attempt_failure(&failure), vec![1, 0, 4, b'b', b'o', b'o', b'm']);
    let ok: Result<u8, ()> = Ok(5);
    assert_eq!(encode_attempt_success(vec![5]), postcard::to_allocvec(&ok).unwrap());
}

#[test]
fn attempt_turns_a_failure_into_its_result() {
    let mut a = AttemptProgress::new(2);
    assert_eq!(a.begin_request(), None);
    a.handed_request(vec![1]);
    assert_eq!(a.begin_request(), Some(Refusal::AwaitingCompletion));
    assert_eq!(a.completion_check(), Ok(vec![1]));
    let result = a.finish_with_failure(&Failure::Message("no".to_string()));
    assert_eq!(result, vec![1, 0, 2, b'n', b'o']);
    assert!(a.is_complete());
    assert!(!a.is_waiting_completion());
    assert_eq!(a.begin_request(), Some(Refusal::Complete));
    assert_eq!(a.completion_check(), Err(Refusal::Complete));
}

#[test]
fn attempt_wraps_a_finished_inner_flow() {
    let mut a = AttemptProgress::new(1);
    assert_eq!(a.completion_check(), Err(Refusal::NoPendingRequest));
    assert_eq!(a.begin_request(), None);
    assert_eq!(a.current_node(), Some(0));
    a.after_inline_complete(vec![3], Some(vec![4]), true);
    assert_eq!(a.current_node(), None);
    match a.settle_check() {
        AttemptSettle::Walk(p) => assert_eq!(p, vec![4]),
        other => panic!("unexpected settle {other:?}"),
    }
    let result = a.finish_with_success(vec![4], false);
    assert_eq!(result, vec![0, 4]);
    match a.settle_check() {
        AttemptSettle::Finished(None) => {}
        other => panic!("unexpected settle {other:?}"),
    }
}

#[test]
fn select_request_matches_postcard() {
    let pair = (vec![7u8, 8], vec![7u8, 8]);
    assert_eq!(encode_select_request(&[7, 8]), postcard::to_allocvec(&pair).unwrap());
    assert_eq!(encode_select_request(&[7, 8]), vec![2, 7, 8, 2, 7, 8]);
    assert_eq!(select_emitted(true, &[9]), vec![0, 9]);
    assert_eq!(select_emitted(false, &[]), vec![1]);
}

#[test]
fn select_runs_one_race() {
    let mut s = SelectProgress::new();
    assert_eq!(s.take_race_input(), Err(Refusal::NoPendingRequest));
    s.set_journey_id(Uuid::nil());
    assert_eq!(s.start_race(vec![1]), None);
    assert!(s.suppresses_child_lifecycle_replay());
    assert!(s.is_waiting_completion());
    assert_eq!(s.start_race(vec![2]), Some(Refusal::AwaitingCompletion));
    assert_eq!(s.take_race_input(), Ok(vec![1]));
    s.finish();
    assert!(s.is_complete());
    assert_eq!(s.start_race(vec![3]), Some(Refusal::Complete));
    assert_eq!(s.take_node_lifecycle_updates().len(), 2);
}

#[test]
fn transparent_passes_the_inner_value_through() {
    let mut t = TransparentProgress::new(1);
    assert_eq!(t.begin_request(), None);
    t.handed_request(vec![1]);
    assert_eq!(t.begin_request(), Some(Refusal::AwaitingCompletion));
    assert_eq!(t.completion_check(), Ok(vec![1]));
    t.after_completion(true);
    assert!(t.finish_if_done());
    assert!(t.is_complete());
    assert_eq!(t.completion_check(), Err(Refusal::Complete));

    let mut u = TransparentProgress::new(0);
    assert_eq!(u.begin_request(), None);
    u.keep_finished(vec![5, 6]);
    match u.settle_check() {
        TransparentSettle::Finished(Some(v)) => assert_eq!(v, vec![5, 6]),
        other => panic!("unexpected settle {other:?}"),
    }
}

#[test]
fn transparent_failure_keeps_the_input_for_other_errors() {
    let mut t = TransparentProgress::new(2);
    assert_eq!(t.completion_check(), Err(Refusal::NoPendingRequest));
    assert_eq!(t.begin_request(), None);
    t.after_inline_complete(vec![1], None, true);
    assert_eq!(t.current_node(), Some(1));
    match t.settle_check() {
        TransparentSettle::Walk(p) => assert_eq!(p, vec![1]),
        other => panic!("unexpected settle {other:?}"),
    }
    t.keep_input(vec![1]);
    t.handed_request(vec![1]);
    assert_eq!(t.completion_check(), Ok(vec![1]));
    t.completion_failed(false, vec![1]);
    assert!(!t.is_waiting_completion());
    match t.settle_check() {
        TransparentSettle::Walk(p) => assert_eq!(p, vec![1]),
        other => panic!("unexpected settle {other:?}"),
    }
    t.settled_to(2);
    assert!(t.finish_if_done());
    assert_eq!(t.take_node_lifecycle_updates().len(), 0);
}

#[test]
fn sequence_runs_nodes_in_order_feeding_each_the_last_value() {
    let mut seq = SequenceProgress::new(3);
    assert_eq!(seq.take_input(vec![0]), vec![0]);
    assert_eq!(seq.current_node(), Some(0));
    assert!(seq.settle_node(Some(vec![1]), true));
    assert!(!seq.settle_node(None, false));
    assert_eq!(seq.current_node(), Some(1));
    assert_eq!(seq.take_input(vec![9]), vec![1]);
    assert_eq!(seq.take_input(vec![9]), vec![9]);
    assert_eq!(seq.after_inline_complete(None, false), InlineStep::SettleAgain);
    assert_eq!(seq.after_inline_complete(Some(vec![2]), false), InlineStep::Continue);
    assert_eq!(seq.take_input(vec![9]), vec![2]);
    seq.pass_completed(true);
    seq.record_emitted(vec![3]);
    assert!(!seq.is_complete());
    assert_eq!(seq.after_inline_complete(None, true), InlineStep::Continue);
    assert!(seq.is_complete());
    assert_eq!(seq.current_node(), None);
    assert_eq!(seq.take_input(vec![9]), vec![3]);
}
