use jungle::{ClusterKind, DebugGraph, GraphModel, JourneyAst, StepKind};
use std::collections::HashSet;

fn id_for(model: &GraphModel, label: &str) -> u32 {
    model
        .nodes
        .iter()
        .find(|node| node.label == label)
        .map(|node| node.id)
        .unwrap_or_else(|| panic!("missing node with label {label}"))
}

fn cluster_labels(model: &GraphModel) -> Vec<String> {
    model.cluster_info.iter().map(|c| c.label.clone()).collect()
}

#[test]
fn graph_model_uses_unique_display_node_ids() {
    let ast = JourneyAst::Sequence(vec![
        JourneyAst::While {
            label: "Loop",
            metadata: "",
            body: Box::new(JourneyAst::Sequence(vec![
                JourneyAst::Step { label: "A1" },
                JourneyAst::Conditional {
                    label: "Branch",
                    metadata: "",
                    left: Box::new(JourneyAst::Step { label: "A2" }),
                    right: Box::new(JourneyAst::Step { label: "A3" }),
                },
            ])),
        },
        JourneyAst::Select {
            label: "Select",
            metadata: "",
            left: Box::new(JourneyAst::Step { label: "A4" }),
            right: Box::new(JourneyAst::Step { label: "A5" }),
        },
        JourneyAst::Join {
            label: "Join",
            metadata: "",
            left: Box::new(JourneyAst::Step { label: "A6" }),
            right: Box::new(JourneyAst::Step { label: "A7" }),
        },
    ]);

    let model = GraphModel::from_ast(ast);
    let ids = model.nodes.iter().map(|node| node.id).collect::<Vec<_>>();
    let unique = ids.iter().copied().collect::<HashSet<_>>();

    assert_eq!(
        ids.len(),
        unique.len(),
        "display node IDs must be unique for iced-sugiyama indexing"
    );

    let max_id = ids.iter().copied().max().unwrap_or(0);
    assert_eq!(
        max_id as usize + 1,
        ids.len(),
        "display node IDs should be dense for stable layout indexing"
    );

    for (from, to) in &model.edges {
        assert!(unique.contains(from), "edge source must reference a known node");
        assert!(unique.contains(to), "edge destination must reference a known node");
    }

    for cluster in &model.cluster_info {
        for node in &cluster.nodes {
            assert!(unique.contains(node), "cluster node must reference a known node");
        }
    }
}

#[test]
fn graph_model_control_flow_edges_match_runtime_shape() {
    let ast = JourneyAst::Sequence(vec![
        JourneyAst::While {
            label: "flow::LoopCondition",
            metadata: "",
            body: Box::new(JourneyAst::Conditional {
                label: "flow::Branch",
                metadata: "",
                left: Box::new(JourneyAst::Step { label: "LoopL" }),
                right: Box::new(JourneyAst::Step { label: "LoopR" }),
            }),
        },
        JourneyAst::Join {
            label: "Join",
            metadata: "",
            left: Box::new(JourneyAst::Step { label: "JoinL" }),
            right: Box::new(JourneyAst::Step { label: "JoinR" }),
        },
        JourneyAst::Select {
            label: "Select",
            metadata: "",
            left: Box::new(JourneyAst::Step { label: "SelL" }),
            right: Box::new(JourneyAst::Step { label: "SelR" }),
        },
        JourneyAst::Step { label: "Tail" },
    ]);

    let model = GraphModel::from_ast(ast);

    let unique_id_for = |label: &str| -> u32 {
        let mut matches = model
            .nodes
            .iter()
            .filter(|node| node.label == label)
            .map(|node| node.id);
        let id = matches
            .next()
            .unwrap_or_else(|| panic!("missing node with label {label}"));
        assert!(
            matches.next().is_none(),
            "expected unique node label in test: {label}"
        );
        id
    };

    let branch_id = unique_id_for("Branch");
    let loop_l_id = unique_id_for("LoopL");
    let loop_r_id = unique_id_for("LoopR");
    let join_id = unique_id_for("Join");
    let join_l_id = unique_id_for("JoinL");
    let join_r_id = unique_id_for("JoinR");
    let select_id = unique_id_for("Select");
    let sel_l_id = unique_id_for("SelL");
    let sel_r_id = unique_id_for("SelR");
    let tail_id = unique_id_for("Tail");

    assert!(
        model.nodes.iter().all(|node| node.label != "LoopCondition"),
        "while loops should not render as standalone nodes"
    );

    let edges = model.edges.iter().copied().collect::<HashSet<_>>();

    assert!(edges.contains(&(branch_id, loop_l_id)));
    assert!(edges.contains(&(branch_id, loop_r_id)));
    assert!(edges.contains(&(loop_l_id, branch_id)));
    assert!(edges.contains(&(loop_r_id, branch_id)));
    assert!(edges.contains(&(loop_l_id, join_id)));
    assert!(edges.contains(&(loop_r_id, join_id)));
    assert!(!edges.contains(&(branch_id, join_id)));

    assert!(edges.contains(&(join_id, join_l_id)));
    assert!(edges.contains(&(join_id, join_r_id)));
    assert!(edges.contains(&(join_id, select_id)));
    assert!(!edges.contains(&(join_l_id, select_id)));
    assert!(!edges.contains(&(join_r_id, select_id)));

    assert!(edges.contains(&(select_id, sel_l_id)));
    assert!(edges.contains(&(select_id, sel_r_id)));
    assert!(edges.contains(&(select_id, tail_id)));
    assert!(!edges.contains(&(sel_l_id, tail_id)));
    assert!(!edges.contains(&(sel_r_id, tail_id)));
}

#[test]
fn while_cluster_stays_scoped_to_loop_body() {
    let ast = JourneyAst::Sequence(vec![
        JourneyAst::While {
            label: "flow::LoopCondition",
            metadata: "",
            body: Box::new(JourneyAst::Conditional {
                label: "flow::StaticCondition",
                metadata: "",
                left: Box::new(JourneyAst::Step { label: "InLoopL" }),
                right: Box::new(JourneyAst::Step { label: "InLoopR" }),
            }),
        },
        JourneyAst::Join {
            label: "Join",
            metadata: "",
            left: Box::new(JourneyAst::Step { label: "OutJoinL" }),
            right: Box::new(JourneyAst::Step { label: "OutJoinR" }),
        },
        JourneyAst::Select {
            label: "Select",
            metadata: "",
            left: Box::new(JourneyAst::Step { label: "OutSelL" }),
            right: Box::new(JourneyAst::Step { label: "OutSelR" }),
        },
    ]);

    let model = GraphModel::from_ast(ast);

    let cond_id = id_for(&model, "StaticCondition");
    let in_l_id = id_for(&model, "InLoopL");
    let in_r_id = id_for(&model, "InLoopR");
    let join_id = id_for(&model, "Join");
    let select_id = id_for(&model, "Select");

    assert_eq!(model.cluster_info.len(), 1);
    let cluster = &model.cluster_info[0];
    let cluster_nodes = cluster.nodes.iter().copied().collect::<HashSet<_>>();
    assert!(cluster_nodes.contains(&cond_id));
    assert!(cluster_nodes.contains(&in_l_id));
    assert!(cluster_nodes.contains(&in_r_id));
    assert!(!cluster_nodes.contains(&join_id));
    assert!(!cluster_nodes.contains(&select_id));
    assert_eq!(cluster_labels(&model), vec!["while: LoopCondition"]);

    let edges = model.edges.iter().copied().collect::<HashSet<_>>();
    assert!(edges.contains(&(cond_id, in_l_id)));
    assert!(edges.contains(&(cond_id, in_r_id)));
    assert!(edges.contains(&(in_l_id, cond_id)));
    assert!(edges.contains(&(in_r_id, cond_id)));
    assert!(edges.contains(&(in_l_id, join_id)));
    assert!(edges.contains(&(in_r_id, join_id)));
    assert!(!edges.contains(&(cond_id, join_id)));
}

#[test]
fn while_loop_exit_edges_do_not_attach_to_loop_entry_step() {
    let ast = JourneyAst::Sequence(vec![
        JourneyAst::Step {
            label: "GorillaBirthday",
        },
        JourneyAst::While {
            label: "flow::GorillaDaylightRemaining",
            metadata: "",
            body: Box::new(JourneyAst::Sequence(vec![
                JourneyAst::Step {
                    label: "EvaluateActivityWindow",
                },
                JourneyAst::Conditional {
                    label: "flow::GorillaIsActiveNow",
                    metadata: "",
                    left: Box::new(JourneyAst::Step { label: "DoDay" }),
                    right: Box::new(JourneyAst::Step { label: "RestDay" }),
                },
                JourneyAst::Step {
                    label: "TickPerceivedTime",
                },
            ])),
        },
        JourneyAst::Step {
            label: "AdvanceAge",
        },
    ]);

    let model = GraphModel::from_ast(ast);

    let birthday_id = id_for(&model, "GorillaBirthday");
    let evaluate_id = id_for(&model, "EvaluateActivityWindow");
    let active_now_id = id_for(&model, "GorillaIsActiveNow");
    let tick_id = id_for(&model, "TickPerceivedTime");
    let advance_age_id = id_for(&model, "AdvanceAge");

    let edges = model.edges.iter().copied().collect::<HashSet<_>>();
    assert!(edges.contains(&(birthday_id, evaluate_id)));
    assert!(edges.contains(&(evaluate_id, active_now_id)));
    assert!(edges.contains(&(tick_id, advance_age_id)));
    assert!(!edges.contains(&(evaluate_id, advance_age_id)));
}

#[test]
fn nested_while_clusters_use_parent_relationship() {
    let ast = JourneyAst::While {
        label: "flow::OuterLoop",
        metadata: "",
        body: Box::new(JourneyAst::While {
            label: "flow::InnerLoop",
            metadata: "",
            body: Box::new(JourneyAst::Step { label: "LoopStep" }),
        }),
    };

    let model = GraphModel::from_ast(ast);

    assert_eq!(model.cluster_info.len(), 2);
    assert_eq!(
        cluster_labels(&model),
        vec!["while: OuterLoop", "while: InnerLoop"]
    );
    assert_eq!(model.cluster_info[0].parent, None);
    assert_eq!(model.cluster_info[1].parent, Some(0));
    assert!(!model.cluster_info[0].nodes.is_empty());
    assert!(!model.cluster_info[1].nodes.is_empty());
}

#[test]
fn transparent_cluster_scopes_body_and_preserves_direct_sequence_edges() {
    let ast = JourneyAst::Sequence(vec![
        JourneyAst::Step { label: "Start" },
        JourneyAst::Transparent {
            label: "flow::Boundary",
            metadata: "section:gorilla/lifecycle",
            body: Box::new(JourneyAst::Conditional {
                label: "flow::Gate",
                metadata: "",
                left: Box::new(JourneyAst::Step { label: "InL" }),
                right: Box::new(JourneyAst::Step { label: "InR" }),
            }),
        },
        JourneyAst::Step { label: "Tail" },
    ]);

    let model = GraphModel::from_ast(ast);

    let start_id = id_for(&model, "Start");
    let gate_id = id_for(&model, "Gate");
    let in_l_id = id_for(&model, "InL");
    let in_r_id = id_for(&model, "InR");
    let tail_id = id_for(&model, "Tail");

    assert!(
        model.nodes.iter().all(|node| !node.label.contains("Boundary")),
        "transparent boundaries should not render as standalone nodes"
    );

    assert_eq!(model.cluster_info.len(), 1);
    assert_eq!(
        cluster_labels(&model),
        vec!["transparent: Boundary :: section:gorilla/lifecycle"]
    );
    let cluster = &model.cluster_info[0];
    let cluster_nodes = cluster.nodes.iter().copied().collect::<HashSet<_>>();
    assert!(cluster_nodes.contains(&gate_id));
    assert!(cluster_nodes.contains(&in_l_id));
    assert!(cluster_nodes.contains(&in_r_id));
    assert!(!cluster_nodes.contains(&start_id));
    assert!(!cluster_nodes.contains(&tail_id));

    let edges = model.edges.iter().copied().collect::<HashSet<_>>();
    assert!(edges.contains(&(start_id, gate_id)));
    assert!(edges.contains(&(gate_id, in_l_id)));
    assert!(edges.contains(&(gate_id, in_r_id)));
    assert!(edges.contains(&(in_l_id, tail_id)));
    assert!(edges.contains(&(in_r_id, tail_id)));
}

#[test]
fn repeated_labels_are_numbered_from_the_second_occurrence() {
    let ast = JourneyAst::Sequence(vec![
        JourneyAst::Step { label: "a::Feed" },
        JourneyAst::Step { label: "b::Feed" },
        JourneyAst::Step { label: "Feed" },
    ]);
    let model = GraphModel::from_ast(ast);
    let labels: Vec<&str> = model.nodes.iter().map(|n| n.label.as_str()).collect();
    assert_eq!(labels, vec!["Feed", "Feed #2", "Feed #3"]);
    let runtime: Vec<Option<u32>> = model.nodes.iter().map(|n| n.runtime_node_id).collect();
    assert_eq!(runtime, vec![Some(0), Some(1), Some(2)]);
    assert_eq!(model.edges, vec![(0, 1), (1, 2)]);
}

#[test]
fn select_and_join_labels_carry_metadata_and_kind() {
    let ast = JourneyAst::Sequence(vec![
        JourneyAst::Select {
            label: "Select",
            metadata: "race",
            left: Box::new(JourneyAst::Empty),
            right: Box::new(JourneyAst::Step { label: "R" }),
        },
        JourneyAst::Join {
            label: "Join",
            metadata: "  ",
            left: Box::new(JourneyAst::Step { label: "L" }),
            right: Box::new(JourneyAst::Empty),
        },
        JourneyAst::Conditional {
            label: "m::Cond",
            metadata: "why",
            left: Box::new(JourneyAst::Empty),
            right: Box::new(JourneyAst::Empty),
        },
    ]);
    let model = GraphModel::from_ast(ast);
    assert_eq!(model.nodes[0].label, " race");
    assert_eq!(model.nodes[0].metadata.as_deref(), Some("race"));
    assert_eq!(model.nodes[0].kind(), StepKind::Select);
    assert_eq!(model.nodes[2].label, "Join");
    assert_eq!(model.nodes[2].metadata, None);
    assert_eq!(model.nodes[2].kind(), StepKind::Join);
    assert_eq!(model.nodes[4].label, "Cond :: why");
    assert_eq!(model.nodes[4].kind(), StepKind::Conditional);
    assert_eq!(model.nodes[4].runtime_node_id, None);
    assert_eq!(model.nodes[1].kind(), StepKind::Step);
    // a conditional with empty branches exits nowhere, so nothing follows it
    assert!(model.edges.contains(&(0, 2)));
}

#[test]
fn empty_ast_gives_empty_graph() {
    let model = GraphModel::from_ast(JourneyAst::Empty);
    assert!(model.nodes.is_empty());
    assert!(model.edges.is_empty());
    assert!(model.cluster_info.is_empty());
}

#[test]
fn while_with_empty_body_keeps_an_empty_cluster() {
    let model = GraphModel::from_ast(JourneyAst::While {
        label: "Spin",
        metadata: "",
        body: Box::new(JourneyAst::Empty),
    });
    assert_eq!(model.cluster_info.len(), 1);
    assert!(model.cluster_info[0].nodes.is_empty());
    assert_eq!(model.cluster_info[0].kind, ClusterKind::While);
    assert_eq!(model.cluster_info[0].depth, 0);
}

#[test]
fn debug_graph_copies_model() {
    let ast = JourneyAst::While {
        label: "L",
        metadata: "",
        body: Box::new(JourneyAst::Sequence(vec![
            JourneyAst::Step { label: "A" },
            JourneyAst::Step { label: "B" },
        ])),
    };
    let g = DebugGraph::from_ast(ast);
    assert_eq!(g.nodes.len(), 2);
    assert_eq!(g.nodes[0].label, "A");
    assert_eq!(g.nodes[1].id, 1);
    assert_eq!(g.edges, vec![(0, 1), (1, 0)]);
    assert_eq!(g.while_clusters, vec![vec![0, 1]]);
}
