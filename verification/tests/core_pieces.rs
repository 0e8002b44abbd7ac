use jungle::lifecycle::LifecycleState;
use jungle::behavior::{Animal, BoundAction, SleepError, SleepStep};
use jungle::{dedup, short_type_name_str, truncate_label, BackendError, Failure, Identity, JourneyAst, NodeLifecyclePhase};
use uuid::Uuid;

#[test]
fn dedup_keeps_first_occurrences_in_order() {
    assert_eq!(dedup(vec![3, 1, 3, 2, 1]), vec![3, 1, 2]);
    assert_eq!(dedup(vec![]), Vec::<u32>::new());
}

#[test]
fn short_type_name_takes_last_non_empty_segment() {
    assert_eq!(short_type_name_str("a::b::Cat"), "Cat");
    assert_eq!(short_type_name_str("Cat"), "Cat");
    assert_eq!(short_type_name_str("a::"), "a");
    assert_eq!(short_type_name_str(":::"), ":");
    assert_eq!(short_type_name_str("::"), "::");
    assert_eq!(short_type_name_str(""), "");
    assert_eq!(short_type_name_str("Select :: race"), " race");
}

#[test]
fn truncate_label_marks_cuts_with_ellipsis() {
    assert_eq!(truncate_label("hello", 10), "hello");
    assert_eq!(truncate_label("hello", 5), "hello");
    assert_eq!(truncate_label("hello", 4), "hel…");
    assert_eq!(truncate_label("héllo", 2), "h…");
    assert_eq!(truncate_label("hello", 0), "…");
}

#[test]
fn sequence_flattens_one_level() {
    let seq = JourneyAst::sequence(vec![
        JourneyAst::Empty,
        JourneyAst::Sequence(vec![JourneyAst::Step { label: "A" }, JourneyAst::Empty]),
        JourneyAst::Step { label: "B" },
    ]);
    match seq {
        JourneyAst::Sequence(items) => {
            assert_eq!(items.len(), 2);
            assert!(matches!(items[0], JourneyAst::Step { label: "A" }));
            assert!(matches!(items[1], JourneyAst::Step { label: "B" }));
        }
        other => panic!("expected a sequence, got {other:?}"),
    }
    assert!(matches!(JourneyAst::sequence(vec![]), JourneyAst::Empty));
    assert!(matches!(
        JourneyAst::sequence(vec![JourneyAst::Empty, JourneyAst::Sequence(vec![JourneyAst::Empty])]),
        JourneyAst::Empty
    ));
    assert!(matches!(
        JourneyAst::sequence(vec![JourneyAst::Sequence(vec![JourneyAst::Step { label: "Only" }])]),
        JourneyAst::Step { label: "Only" }
    ));
}

#[test]
fn lifecycle_records_enter_then_success_with_one_path() {
    let mut state = LifecycleState::new();
    state.set_node_id(7);
    state.set_parent_activation_path(&[2, 5]);
    // without a journey id nothing is recorded
    state.enter();
    assert_eq!(state.current_activation_path(), Some(&[2u64, 5, 0][..]));
    state.succeed();
    assert!(state.take_updates().is_empty());

    let journey = Uuid::from_u128(42);
    state.set_journey_id(journey);
    state.enter();
    state.enter();
    assert_eq!(state.current_activation_path(), Some(&[2u64, 5, 1][..]));
    state.set_parent_activation_path(&[9]);
    state.fail();
    state.fail();
    let updates = state.take_updates();
    assert_eq!(updates.len(), 2);
    assert_eq!(updates[0].phase, NodeLifecyclePhase::Entered);
    assert_eq!(updates[1].phase, NodeLifecyclePhase::Failed);
    assert_eq!(updates[0].activation_path, vec![2, 5, 1]);
    assert_eq!(updates[1].activation_path, vec![2, 5, 1]);
    assert_eq!(updates[1].node_id, 7);
    assert_eq!(updates[0].uuid, journey);
    assert!(state.take_updates().is_empty());
    assert_eq!(state.current_activation_path(), None);

    state.set_parent_activation_path(&[9]);
    state.enter();
    assert_eq!(state.current_activation_path(), Some(&[9u64, 2][..]));
}

#[test]
fn failures_and_errors_carry_their_message() {
    let f: Failure = String::from("boom").into();
    assert_eq!(f.message(), "boom");
    let g: Failure = "bang".into();
    assert_eq!(g.message(), "bang");
    assert_eq!(BackendError::Message("down".to_string()).message(), "down");
}

struct Sloth;

impl Animal for Sloth {
    type Id = ();
    type Generation = ();
    type State = u32;
    type Seed = ();
    type Flow = ();
}

#[test]
fn sleep_step_maps_errors_to_failures() {
    let mut view: u32 = 3;
    assert!(<SleepStep<Identity> as BoundAction<Sloth>>::absorb(&mut view, Ok(())).is_ok());
    let r = <SleepStep<Identity> as BoundAction<Sloth>>::absorb_with_carry(
        &mut view,
        Err(SleepError { message: "late".to_string() }),
        (),
    );
    match r {
        Err(f) => assert_eq!(f.message(), "late"),
        Ok(()) => panic!("expected a failure"),
    }
    assert_eq!(view, 3);
    let d = std::time::Duration::from_millis(5);
    assert_eq!(<SleepStep<Identity> as BoundAction<Sloth>>::emit(&view, d), d);
    assert_eq!(<SleepStep<Identity> as BoundAction<Sloth>>::emit_with_carry(&view, d), (d, ()));
    assert_eq!(SleepStep::<Identity>::name(), "SleepStep");
}
