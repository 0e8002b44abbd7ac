use jungle::live::LiveData;
use jungle::panel::{
    cluster_display_id, cluster_entry_runtime_ids, cluster_hidden_by_collapsed_ancestor,
    cluster_member_runtime_ids, cluster_phase, cluster_successor_runtime_ids,
    condition_successor_runtime_ids, owner_for_node, visible_cluster_members, visible_edges,
};
use jungle::{
    infer_condition_runtime_state, node_phase_for_display, runtime_state_for_live_data, ClusterLive,
    GraphModel, JourneyAst, JourneyUpdateEvent, Phase, RunnerUpdateOut, RuntimeState, VisibleOwner,
};
use std::collections::HashMap;
use uuid::Uuid;

fn update(sequence_id: u64, event: RunnerUpdateOut) -> JourneyUpdateEvent {
    JourneyUpdateEvent { sequence_id, event_unix_ms: 0, event }
}

#[test]
fn live_data_apply_update_reports_runtime_highlight_changes() {
    let mut live = LiveData::default();

    assert!(live.apply_update(update(1, RunnerUpdateOut::EffectInput { node_id: 9, uuid: Uuid::nil() })));
    assert!(live.active_runtime_ids.contains(&9));

    assert!(!live.apply_update(update(2, RunnerUpdateOut::EffectInput { node_id: 9, uuid: Uuid::nil() })));

    assert!(live.apply_update(update(
        3,
        RunnerUpdateOut::EffectSuccessOutput { node_id: 9, uuid: Uuid::nil() }
    )));
    assert!(!live.active_runtime_ids.contains(&9));
    assert!(live.finished_runtime_ids.contains(&9));

    assert!(live.apply_update(update(4, RunnerUpdateOut::EffectInput { node_id: 9, uuid: Uuid::nil() })));
    assert!(live.active_runtime_ids.contains(&9));
    assert!(!live.finished_runtime_ids.contains(&9));

    assert!(!live.apply_update(update(
        5,
        RunnerUpdateOut::SleepScheduled { uuid: Uuid::nil(), timer_id: Uuid::nil(), wake_at_unix_ms: 1 }
    )));
    assert_eq!(live.latest_event_count, 5);
}

#[test]
fn condition_runtime_state_tracks_latest_branch_event() {
    let mut live = LiveData::default();

    assert!(live.apply_update(update(1, RunnerUpdateOut::EffectInput { node_id: 11, uuid: Uuid::nil() })));
    assert!(live.apply_update(update(
        2,
        RunnerUpdateOut::EffectSuccessOutput { node_id: 11, uuid: Uuid::nil() }
    )));
    assert_eq!(infer_condition_runtime_state(&live, &[11, 12]), RuntimeState::Completed);

    assert!(live.apply_update(update(3, RunnerUpdateOut::EffectInput { node_id: 12, uuid: Uuid::nil() })));
    assert_eq!(infer_condition_runtime_state(&live, &[11, 12]), RuntimeState::Running);
}

#[test]
fn failure_moves_node_from_active_to_failed() {
    let mut live = LiveData::default();
    live.apply_update(update(7, RunnerUpdateOut::EffectInput { node_id: 3, uuid: Uuid::nil() }));
    assert!(live.apply_update(update(
        8,
        RunnerUpdateOut::EffectFailureOutput { node_id: 3, uuid: Uuid::nil() }
    )));
    assert_eq!(runtime_state_for_live_data(&live, 3), RuntimeState::Failed);
    assert_eq!(runtime_state_for_live_data(&live, 4), RuntimeState::Pending);
    assert_eq!(live.runtime_update_sequence.get(&3), Some(&8));
    // a second failure report changes nothing
    assert!(!live.apply_update(update(
        9,
        RunnerUpdateOut::EffectFailureOutput { node_id: 3, uuid: Uuid::nil() }
    )));
}

#[test]
fn condition_without_updates_is_pending_and_ties_keep_first() {
    let mut live = LiveData::default();
    assert_eq!(infer_condition_runtime_state(&live, &[1, 2]), RuntimeState::Pending);
    assert_eq!(infer_condition_runtime_state(&live, &[]), RuntimeState::Pending);
    live.apply_update(update(4, RunnerUpdateOut::EffectInput { node_id: 1, uuid: Uuid::nil() }));
    live.apply_update(update(4, RunnerUpdateOut::EffectFailureOutput { node_id: 2, uuid: Uuid::nil() }));
    assert_eq!(infer_condition_runtime_state(&live, &[1, 2]), RuntimeState::Running);
    assert_eq!(infer_condition_runtime_state(&live, &[2, 1]), RuntimeState::Failed);
}

#[test]
fn node_phase_uses_runtime_or_condition_successors() {
    let mut live = LiveData::default();
    live.apply_update(update(1, RunnerUpdateOut::EffectInput { node_id: 5, uuid: Uuid::nil() }));
    let mut successors = HashMap::new();
    successors.insert(2u32, vec![5u32, 6]);
    assert_eq!(node_phase_for_display(None, 2, None, &successors), Phase::Static);
    assert_eq!(
        node_phase_for_display(Some(&live), 2, None, &successors),
        Phase::Live(RuntimeState::Running)
    );
    assert_eq!(
        node_phase_for_display(Some(&live), 3, None, &successors),
        Phase::Live(RuntimeState::Pending)
    );
    assert_eq!(
        node_phase_for_display(Some(&live), 3, Some(5), &successors),
        Phase::Live(RuntimeState::Running)
    );
}

fn looped_model() -> GraphModel {
    GraphModel::from_ast(JourneyAst::Sequence(vec![
        JourneyAst::Step { label: "Start" },
        JourneyAst::While {
            label: "Outer",
            metadata: "",
            body: Box::new(JourneyAst::Sequence(vec![
                JourneyAst::Conditional {
                    label: "Gate",
                    metadata: "",
                    left: Box::new(JourneyAst::Step { label: "L" }),
                    right: Box::new(JourneyAst::Step { label: "R" }),
                },
                JourneyAst::While {
                    label: "Inner",
                    metadata: "",
                    body: Box::new(JourneyAst::Step { label: "Deep" }),
                },
            ])),
        },
        JourneyAst::Step { label: "End" },
    ]))
}

#[test]
fn panel_runtime_ids_of_conditions_and_clusters() {
    // nodes: 0 Start(r0), 1 Gate, 2 L(r1), 3 R(r2), 4 Deep(r3), 5 End(r4)
    let model = looped_model();
    let cond = condition_successor_runtime_ids(&model);
    assert_eq!(cond.len(), 1);
    assert_eq!(cond.get(&1), Some(&vec![1, 2]));

    let outer = &model.cluster_info[0];
    let inner = &model.cluster_info[1];
    assert_eq!(outer.nodes, vec![1, 2, 3, 4]);
    assert_eq!(inner.parent, Some(0));
    assert_eq!(inner.depth, 1);
    assert_eq!(cluster_member_runtime_ids(&model, outer), vec![1, 2, 3]);
    assert_eq!(cluster_entry_runtime_ids(&model, outer), Vec::<u32>::new());
    assert_eq!(cluster_entry_runtime_ids(&model, inner), vec![3]);
    assert_eq!(cluster_successor_runtime_ids(&model, outer), vec![4]);
    assert_eq!(cluster_successor_runtime_ids(&model, inner), vec![4]);
}

#[test]
fn panel_cluster_phase_reports_member_states() {
    let model = looped_model();
    let outer = &model.cluster_info[0];
    assert!(matches!(cluster_phase(None, &model, outer), Phase::Static));
    let mut live = LiveData::default();
    live.apply_update(update(1, RunnerUpdateOut::EffectInput { node_id: 1, uuid: Uuid::nil() }));
    live.apply_update(update(2, RunnerUpdateOut::EffectSuccessOutput { node_id: 2, uuid: Uuid::nil() }));
    match cluster_phase(Some(&live), &model, outer) {
        Phase::Live(ClusterLive { has_running, has_failed, has_completed }) => {
            assert!(has_running);
            assert!(!has_failed);
            assert!(has_completed);
        }
        Phase::Static => panic!("expected a live phase"),
    }
}

#[test]
fn panel_collapsing_redirects_edges_to_the_cluster() {
    let model = looped_model();
    let collapsed = vec![true, false];
    assert_eq!(owner_for_node(&model, &collapsed, 4), VisibleOwner::Cluster(0));
    assert_eq!(owner_for_node(&model, &collapsed, 0), VisibleOwner::Node(0));
    assert!(cluster_hidden_by_collapsed_ancestor(&model, &collapsed, 1));
    assert!(!cluster_hidden_by_collapsed_ancestor(&model, &collapsed, 0));
    assert_eq!(cluster_display_id(&model, 0), Some(6));
    assert_eq!(visible_edges(&model, &collapsed), vec![(0, 6), (6, 5)]);
    assert!(visible_cluster_members(&model, &collapsed, &model.cluster_info[1]).is_empty());

    let inner_only = vec![false, true];
    assert_eq!(owner_for_node(&model, &inner_only, 4), VisibleOwner::Cluster(1));
    assert_eq!(visible_cluster_members(&model, &inner_only, &model.cluster_info[0]), vec![1, 2, 3]);

    let none = vec![false, false];
    // only the inner loop's self-edge disappears
    assert_eq!(visible_edges(&model, &none).len(), model.edges.len() - 1);
}
