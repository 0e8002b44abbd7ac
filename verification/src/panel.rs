use crate::graph::{ClusterInfo, ClusterInfoView, ClusterKind, GraphModel, GraphModelView, StepKind, graph_well_formed};
use crate::live::{ClusterLive, LiveData, LiveView, Phase, RuntimeState, opt_live_view};
use std::collections::HashMap;
use vstd::prelude::*;

verus! {

broadcast use {
    vstd::laws_cmp::group_laws_cmp,
    vstd::std_specs::btree::group_btree_axioms,
    vstd::std_specs::hash::group_hash_axioms,
};

/// What a theme is told about a step node it renders.
#[derive(Debug, Clone)]
pub struct StepViewCtx<'a> {
    pub display_id: u32,
    pub runtime_id: Option<u32>,
    pub successor_runtime_ids: Vec<u32>,
    pub kind: StepKind,
    pub label: &'a str,
    pub metadata: Option<&'a str>,
    pub phase: Phase<RuntimeState>,
}

/// What a theme is told about a cluster it renders.
#[derive(Debug, Clone)]
pub struct ClusterViewCtx<'a> {
    pub cluster_id: u32,
    pub cluster_index: usize,
    pub kind: ClusterKind,
    pub label: &'a str,
    pub metadata: Option<&'a str>,
    pub parent_cluster_id: Option<u32>,
    pub depth: usize,
    pub member_display_ids: &'a [u32],
    pub entry_runtime_ids: Vec<u32>,
    pub member_runtime_ids: Vec<u32>,
    pub successor_runtime_ids: Vec<u32>,
    pub phase: Phase<ClusterLive>,
}

/// The runtime node behind display node `id`, if it has one.
pub open spec fn runtime_of(g: GraphModelView, id: u32) -> Option<u32> {
    if (id as int) < g.nodes.len() {
        g.nodes[id as int].runtime_node_id
    } else {
        None
    }
}

/// One edge's contribution to the successor lists of condition nodes: an
/// edge from a condition node to a runtime-backed node adds that runtime id
/// to the condition's list, once.
pub open spec fn condition_successor_step(g: GraphModelView, m: Map<u32, Seq<u32>>, e: (u32, u32)) -> Map<u32, Seq<u32>> {
    let (from, to) = e;
    if (from as int) < g.nodes.len() && g.nodes[from as int].is_conditional_branch && runtime_of(g, to) is Some {
        let r = runtime_of(g, to)->0;
        let cur = if m.contains_key(from) { m[from] } else { Seq::empty() };
        if cur.contains(r) { m } else { m.insert(from, cur.push(r)) }
    } else {
        m
    }
}

/// The runtime successors of each condition node, over the edges `edges`
/// taken in order.
pub open spec fn condition_successors_spec(g: GraphModelView, edges: Seq<(u32, u32)>) -> Map<u32, Seq<u32>>
    decreases edges.len(),
{
    if edges.len() == 0 {
        Map::empty()
    } else {
        condition_successor_step(g, condition_successors_spec(g, edges.drop_last()), edges.last())
    }
}

pub open spec fn vec_map_view(m: Map<u32, Vec<u32>>) -> Map<u32, Seq<u32>> {
    m.map_values(|v: Vec<u32>| v@)
}

fn contains_id(v: &Vec<u32>, x: u32) -> (b: bool)
    ensures
        b == v@.contains(x),
{
    let mut i: usize = 0;
    while i < v.len()
        invariant
            i <= v.len(),
            forall|k: int| 0 <= k < i ==> v@[k] != x,
        decreases v.len() - i,
    {
        if v[i] == x {
            return true;
        }
        i = i + 1;
    }
    false
}

fn runtime_id_of(model: &GraphModel, id: u32) -> (r: Option<u32>)
    requires
        graph_well_formed(model@),
    ensures
        r == runtime_of(model@, id),
{
    match model.node(id) {
        Some(node) => node.runtime_node_id,
        None => None,
    }
}

/// For each condition node, the runtime ids of the nodes its edges lead to,
/// each once, in edge order.
pub fn condition_successor_runtime_ids(model: &GraphModel) -> (m: HashMap<u32, Vec<u32>>)
    requires
        graph_well_formed(model@),
    ensures
        vec_map_view(m@) == condition_successors_spec(model@, model@.edges),
{
    let mut m: HashMap<u32, Vec<u32>> = HashMap::new();
    let mut i: usize = 0;
    proof {
        assert(vec_map_view(m@) =~= Map::<u32, Seq<u32>>::empty());
    }
    while i < model.edges.len()
        invariant
            i <= model.edges.len(),
            graph_well_formed(model@),
            vec_map_view(m@) == condition_successors_spec(model@, model@.edges.take(i as int)),
        decreases model.edges.len() - i,
    {
        let (from, to) = model.edges[i];
        proof {
            let t = model@.edges.take(i as int + 1);
            assert(t.drop_last() =~= model@.edges.take(i as int));
            assert(t.last() == (from, to));
        }
        let is_branch = match model.node(from) {
            Some(node) => node.is_conditional_branch,
            None => false,
        };
        if is_branch {
            match runtime_id_of(model, to) {
                Some(r) => {
                    let ghost before = m@;
                    let mut cur = match m.remove(&from) {
                        Some(v) => v,
                        None => Vec::new(),
                    };
                    proof {
                        assert(cur@ == (if vec_map_view(before).contains_key(from) { vec_map_view(before)[from] } else { Seq::<u32>::empty() }));
                    }
                    if !contains_id(&cur, r) {
                        cur.push(r);
                    }
                    m.insert(from, cur);
                    proof {
                        assert(vec_map_view(m@) =~= condition_successor_step(model@, vec_map_view(before), (from, to)));
                    }
                },
                None => {},
            }
        }
        i = i + 1;
    }
    proof {
        assert(model@.edges.take(i as int) =~= model@.edges);
    }
    m
}

/// The runtime ids behind the display nodes `ids`, in order, each once.
pub open spec fn runtime_ids_spec(g: GraphModelView, ids: Seq<u32>) -> Seq<u32>
    decreases ids.len(),
{
    if ids.len() == 0 {
        Seq::empty()
    } else {
        let prev = runtime_ids_spec(g, ids.drop_last());
        match runtime_of(g, ids.last()) {
            Some(r) => if prev.contains(r) { prev } else { prev.push(r) },
            None => prev,
        }
    }
}

fn runtime_ids(model: &GraphModel, ids: &Vec<u32>) -> (out: Vec<u32>)
    requires
        graph_well_formed(model@),
    ensures
        out@ == runtime_ids_spec(model@, ids@),
{
    let mut out: Vec<u32> = Vec::new();
    let mut i: usize = 0;
    while i < ids.len()
        invariant
            i <= ids.len(),
            graph_well_formed(model@),
            out@ == runtime_ids_spec(model@, ids@.take(i as int)),
        decreases ids.len() - i,
    {
        proof {
            let t = ids@.take(i as int + 1);
            assert(t.drop_last() =~= ids@.take(i as int));
            assert(t.last() == ids@[i as int]);
        }
        match runtime_id_of(model, ids[i]) {
            Some(r) => {
                if !contains_id(&out, r) {
                    out.push(r);
                }
            },
            None => {},
        }
        i = i + 1;
    }
    proof {
        assert(ids@.take(i as int) =~= ids@);
    }
    out
}

/// The runtime ids of a cluster's members, each once.
pub fn cluster_member_runtime_ids(model: &GraphModel, cluster: &ClusterInfo) -> (out: Vec<u32>)
    requires
        graph_well_formed(model@),
    ensures
        out@ == runtime_ids_spec(model@, cluster@.nodes),
{
    runtime_ids(model, &cluster.nodes)
}

/// The runtime ids of the nodes where a cluster is entered, each once.
pub fn cluster_entry_runtime_ids(model: &GraphModel, cluster: &ClusterInfo) -> (out: Vec<u32>)
    requires
        graph_well_formed(model@),
    ensures
        out@ == runtime_ids_spec(model@, cluster@.root_nodes),
{
    runtime_ids(model, &cluster.root_nodes)
}

/// The runtime ids of the nodes that edges leaving cluster `c` lead to,
/// over `edges` in order, each once.
pub open spec fn cluster_successors_spec(g: GraphModelView, c: ClusterInfoView, edges: Seq<(u32, u32)>) -> Seq<u32>
    decreases edges.len(),
{
    if edges.len() == 0 {
        Seq::empty()
    } else {
        let prev = cluster_successors_spec(g, c, edges.drop_last());
        let (from, to) = edges.last();
        if c.nodes.contains(from) && !c.nodes.contains(to) {
            match runtime_of(g, to) {
                Some(r) => if prev.contains(r) { prev } else { prev.push(r) },
                None => prev,
            }
        } else {
            prev
        }
    }
}

/// The runtime ids of the nodes that edges leaving a cluster lead to, each once.
pub fn cluster_successor_runtime_ids(model: &GraphModel, cluster: &ClusterInfo) -> (out: Vec<u32>)
    requires
        graph_well_formed(model@),
    ensures
        out@ == cluster_successors_spec(model@, cluster@, model@.edges),
{
    let mut out: Vec<u32> = Vec::new();
    let mut i: usize = 0;
    while i < model.edges.len()
        invariant
            i <= model.edges.len(),
            graph_well_formed(model@),
            out@ == cluster_successors_spec(model@, cluster@, model@.edges.take(i as int)),
        decreases model.edges.len() - i,
    {
        let (from, to) = model.edges[i];
        proof {
            let t = model@.edges.take(i as int + 1);
            assert(t.drop_last() =~= model@.edges.take(i as int));
            assert(t.last() == (from, to));
        }
        if contains_id(&cluster.nodes, from) && !contains_id(&cluster.nodes, to) {
            match runtime_id_of(model, to) {
                Some(r) => {
                    if !contains_id(&out, r) {
                        out.push(r);
                    }
                },
                None => {},
            }
        }
        i = i + 1;
    }
    proof {
        assert(model@.edges.take(i as int) =~= model@.edges);
    }
    out
}

/// Whether some member of `ids` has a runtime node in `set`.
pub open spec fn some_member_in(g: GraphModelView, ids: Seq<u32>, set: Set<u32>) -> bool {
    exists|k: int| 0 <= k < ids.len() && (#[trigger] runtime_of(g, ids[k])) is Some && set.contains(runtime_of(g, ids[k])->0)
}

/// The phase shown for a cluster: static without live data; otherwise whether
/// any member is running, has failed, or has completed.
pub open spec fn cluster_phase_spec(live: Option<LiveView>, g: GraphModelView, c: ClusterInfoView) -> Phase<ClusterLive> {
    match live {
        None => Phase::Static,
        Some(l) => Phase::Live(
            ClusterLive {
                has_running: some_member_in(g, c.nodes, l.active),
                has_failed: some_member_in(g, c.nodes, l.failed),
                has_completed: some_member_in(g, c.nodes, l.finished),
            },
        ),
    }
}

/// Whether some member of `c` has its runtime node in `set`, stated
/// member by member.
pub open spec fn member_in(g: GraphModelView, c: ClusterInfoView, set: Set<u32>) -> bool {
    exists|k: int, r: u32|
        0 <= k < c.nodes.len() && runtime_of(g, #[trigger] c.nodes[k]) == Some(r) && #[trigger] set.contains(r)
}

/// A cluster's live phase: it is running exactly when one of its members'
/// runtime nodes is active, has failed exactly when one of them failed, and
/// has completed exactly when one of them finished; without live data it is
/// static.
pub proof fn lemma_cluster_phase_members(live: Option<LiveView>, g: GraphModelView, c: ClusterInfoView)
    ensures
        live is None <==> cluster_phase_spec(live, g, c) is Static,
        live matches Some(l) ==> (cluster_phase_spec(live, g, c) matches Phase::Live(cl) && (cl.has_running
            <==> (exists|k: int, r: u32| 0 <= k < c.nodes.len() && runtime_of(g, #[trigger] c.nodes[k]) == Some(r) && #[trigger] l.active.contains(r))) && (cl.has_failed <==> (exists|k: int, r: u32| 0 <= k < c.nodes.len() && runtime_of(g, #[trigger] c.nodes[k]) == Some(r) && #[trigger] l.failed.contains(r))) && (cl.has_completed
            <==> (exists|k: int, r: u32| 0 <= k < c.nodes.len() && runtime_of(g, #[trigger] c.nodes[k]) == Some(r) && #[trigger] l.finished.contains(r)))),
{
    if let Some(l) = live {
        lemma_member_in(g, c, l.active);
        lemma_member_in(g, c, l.failed);
        lemma_member_in(g, c, l.finished);
    }
}

proof fn lemma_member_in(g: GraphModelView, c: ClusterInfoView, set: Set<u32>)
    ensures
        some_member_in(g, c.nodes, set) <==> member_in(g, c, set),
{
    if some_member_in(g, c.nodes, set) {
        let k = choose|k: int| 0 <= k < c.nodes.len() && (#[trigger] runtime_of(g, c.nodes[k])) is Some && set.contains(
            runtime_of(g, c.nodes[k])->0,
        );
        let r = runtime_of(g, c.nodes[k])->0;
        assert(runtime_of(g, c.nodes[k]) == Some(r) && set.contains(r));
    }
    if member_in(g, c, set) {
        let (k, r) = choose|k: int, r: u32|
            0 <= k < c.nodes.len() && runtime_of(g, #[trigger] c.nodes[k]) == Some(r) && #[trigger] set.contains(r);
        assert(runtime_of(g, c.nodes[k]) is Some && set.contains(runtime_of(g, c.nodes[k])->0));
    }
}

/// The phase shown for a cluster.
pub fn cluster_phase(live_data: Option<&LiveData>, model: &GraphModel, cluster: &ClusterInfo) -> (phase: Phase<ClusterLive>)
    requires
        graph_well_formed(model@),
    ensures
        phase == cluster_phase_spec(opt_live_view(live_data), model@, cluster@),
        live_data is None <==> phase is Static,
        live_data matches Some(l) ==> (phase matches Phase::Live(cl) && (cl.has_running <==> (exists|k: int, r: u32| 0 <= k < cluster@.nodes.len() && runtime_of(model@, #[trigger] cluster@.nodes[k]) == Some(r) && #[trigger] l@.active.contains(r))) && (cl.has_failed <==> (exists|k: int, r: u32| 0 <= k < cluster@.nodes.len() && runtime_of(model@, #[trigger] cluster@.nodes[k]) == Some(r) && #[trigger] l@.failed.contains(r))) && (cl.has_completed <==> (exists|k: int, r: u32| 0 <= k < cluster@.nodes.len() && runtime_of(model@, #[trigger] cluster@.nodes[k]) == Some(r) && #[trigger] l@.finished.contains(r)))),
{
    proof {
        lemma_cluster_phase_members(opt_live_view(live_data), model@, cluster@);
    }
    let live = match live_data {
        Some(live) => live,
        None => return Phase::Static,
    };
    let mut has_running = false;
    let mut has_failed = false;
    let mut has_completed = false;
    let mut i: usize = 0;
    while i < cluster.nodes.len()
        invariant
            i <= cluster.nodes.len(),
            graph_well_formed(model@),
            has_running == some_member_in(model@, cluster@.nodes.take(i as int), live@.active),
            has_failed == some_member_in(model@, cluster@.nodes.take(i as int), live@.failed),
            has_completed == some_member_in(model@, cluster@.nodes.take(i as int), live@.finished),
        decreases cluster.nodes.len() - i,
    {
        let ghost prefix = cluster@.nodes.take(i as int);
        let ghost next = cluster@.nodes.take(i as int + 1);
        let ghost node_id = cluster@.nodes[i as int];
        proof {
            assert forall|k: int| 0 <= k < i implies next[k] == prefix[k] by {}
            assert(next[i as int] == node_id);
        }
        match runtime_id_of(model, cluster.nodes[i]) {
            Some(r) => {
                if live.active_runtime_ids.contains(&r) {
                    has_running = true;
                }
                if live.failed_runtime_ids.contains(&r) {
                    has_failed = true;
                }
                if live.finished_runtime_ids.contains(&r) {
                    has_completed = true;
                }
            },
            None => {},
        }
        proof {
            lemma_some_member_step(model@, cluster@.nodes, i as int, live@.active);
            lemma_some_member_step(model@, cluster@.nodes, i as int, live@.failed);
            lemma_some_member_step(model@, cluster@.nodes, i as int, live@.finished);
        }
        i = i + 1;
    }
    proof {
        assert(cluster@.nodes.take(i as int) =~= cluster@.nodes);
    }
    Phase::Live(ClusterLive { has_running, has_failed, has_completed })
}

proof fn lemma_some_member_step(g: GraphModelView, ids: Seq<u32>, i: int, set: Set<u32>)
    requires
        0 <= i < ids.len(),
    ensures
        some_member_in(g, ids.take(i + 1), set) == (some_member_in(g, ids.take(i), set) || (runtime_of(g, ids[i]) is Some
            && set.contains(runtime_of(g, ids[i])->0))),
{
    let next = ids.take(i + 1);
    let prefix = ids.take(i);
    if some_member_in(g, next, set) {
        let k = choose|k: int| 0 <= k < next.len() && (#[trigger] runtime_of(g, next[k])) is Some && set.contains(runtime_of(g, next[k])->0);
        if k < i {
            assert(prefix[k] == next[k]);
        }
    }
    if some_member_in(g, prefix, set) {
        let k = choose|k: int| 0 <= k < prefix.len() && (#[trigger] runtime_of(g, prefix[k])) is Some && set.contains(runtime_of(g, prefix[k])->0);
        assert(next[k] == prefix[k]);
    }
    if runtime_of(g, ids[i]) is Some && set.contains(runtime_of(g, ids[i])->0) {
        assert(next[i] == ids[i]);
    }
}


/// Who stands for a display node in the drawn graph: the node itself, or a
/// collapsed cluster that contains it.
#[derive(Debug, Clone, Copy, PartialEq, Eq, Structural)]
pub enum VisibleOwner {
    Node(u32),
    Cluster(usize),
}

/// Among clusters `0..n`, the collapsed cluster containing `node` with the
/// smallest depth (the lowest index among equal depths).
pub open spec fn collapsed_owner(g: GraphModelView, collapsed: Seq<bool>, node: u32, n: int) -> Option<usize>
    decreases n,
{
    if n <= 0 {
        None
    } else {
        let prev = collapsed_owner(g, collapsed, node, n - 1);
        let c = n - 1;
        if collapsed[c] && g.clusters[c].nodes.contains(node) {
            match prev {
                Some(p) => if g.clusters[c].depth < g.clusters[p as int].depth { Some(c as usize) } else { prev },
                None => Some(c as usize),
            }
        } else {
            prev
        }
    }
}

/// The owner of display node `node` when the clusters flagged in `collapsed`
/// are drawn collapsed.
pub open spec fn owner_spec(g: GraphModelView, collapsed: Seq<bool>, node: u32) -> VisibleOwner {
    match collapsed_owner(g, collapsed, node, g.clusters.len() as int) {
        Some(c) => VisibleOwner::Cluster(c),
        None => VisibleOwner::Node(node),
    }
}

proof fn lemma_collapsed_owner_range(g: GraphModelView, collapsed: Seq<bool>, node: u32, n: int)
    ensures
        match collapsed_owner(g, collapsed, node, n) {
            Some(c) => 0 <= c < n,
            None => true,
        },
    decreases n,
{
    if n > 0 {
        lemma_collapsed_owner_range(g, collapsed, node, n - 1);
    }
}

/// Whether cluster `c` is drawn collapsed and contains display node `node`.
spec fn collapsed_holder(g: GraphModelView, collapsed: Seq<bool>, node: u32, c: int) -> bool {
    0 <= c < g.clusters.len() && c < collapsed.len() && collapsed[c] && g.clusters[c].nodes.contains(node)
}

proof fn lemma_collapsed_owner_shallowest(g: GraphModelView, collapsed: Seq<bool>, node: u32, n: int)
    requires
        collapsed.len() == g.clusters.len(),
        n <= g.clusters.len(),
        g.clusters.len() <= usize::MAX,
    ensures
        match collapsed_owner(g, collapsed, node, n) {
            Some(c) => {
                &&& 0 <= c < n
                &&& collapsed_holder(g, collapsed, node, c as int)
                &&& forall|d: int| 0 <= d < n && #[trigger] collapsed_holder(g, collapsed, node, d) ==> g.clusters[c as int].depth
                    <= g.clusters[d].depth
                &&& forall|d: int| 0 <= d < c && #[trigger] collapsed_holder(g, collapsed, node, d) ==> g.clusters[c as int].depth
                    < g.clusters[d].depth
            },
            None => forall|d: int| 0 <= d < n ==> !#[trigger] collapsed_holder(g, collapsed, node, d),
        },
    decreases n,
{
    if n > 0 {
        lemma_collapsed_owner_shallowest(g, collapsed, node, n - 1);
        let prev = collapsed_owner(g, collapsed, node, n - 1);
        let last = n - 1;
        if collapsed[last] && g.clusters[last].nodes.contains(node) {
            assert(collapsed_holder(g, collapsed, node, last));
            match prev {
                Some(p) => {
                    if g.clusters[last].depth < g.clusters[p as int].depth {
                        assert forall|d: int| 0 <= d < n && #[trigger] collapsed_holder(g, collapsed, node, d) implies g.clusters[last].depth
                            <= g.clusters[d].depth by {
                            if d < n - 1 {
                                assert(g.clusters[p as int].depth <= g.clusters[d].depth);
                            }
                        }
                        assert forall|d: int| 0 <= d < last && #[trigger] collapsed_holder(g, collapsed, node, d) implies g.clusters[last].depth
                            < g.clusters[d].depth by {
                            assert(g.clusters[p as int].depth <= g.clusters[d].depth);
                        }
                    } else {
                        assert forall|d: int| 0 <= d < n && #[trigger] collapsed_holder(g, collapsed, node, d) implies g.clusters[p as int].depth
                            <= g.clusters[d].depth by {
                            if d == n - 1 {
                            }
                        }
                    }
                },
                None => {
                    assert forall|d: int| 0 <= d < last && #[trigger] collapsed_holder(g, collapsed, node, d) implies g.clusters[last].depth
                        < g.clusters[d].depth by {
                        assert(false);
                    }
                    assert forall|d: int| 0 <= d < n && #[trigger] collapsed_holder(g, collapsed, node, d) implies g.clusters[last].depth
                        <= g.clusters[d].depth by {
                        if d < last {
                            assert(false);
                        }
                    }
                },
            }
        } else {
            assert(!collapsed_holder(g, collapsed, node, last));
            match prev {
                Some(p) => {
                    assert forall|d: int| 0 <= d < n && #[trigger] collapsed_holder(g, collapsed, node, d) implies g.clusters[p as int].depth
                        <= g.clusters[d].depth by {
                        if d == last {
                            assert(false);
                        }
                    }
                },
                None => {
                    assert forall|d: int| 0 <= d < n implies !#[trigger] collapsed_holder(g, collapsed, node, d) by {
                        if d == last {
                        }
                    }
                },
            }
        }
    }
}

/// The owner of a node is the shallowest collapsed cluster containing it
/// (the first such cluster among equally shallow ones), never a deeper
/// collapsed cluster; a node no collapsed cluster contains stands for
/// itself.
pub proof fn lemma_owner_is_shallowest_collapsed(g: GraphModelView, collapsed: Seq<bool>, node: u32)
    requires
        collapsed.len() == g.clusters.len(),
        g.clusters.len() <= usize::MAX,
    ensures
        match owner_spec(g, collapsed, node) {
            VisibleOwner::Cluster(c) => {
                &&& c < collapsed.len() && collapsed[c as int] && g.clusters[c as int].nodes.contains(node)
                &&& forall|d: int|
                    0 <= d < g.clusters.len() && collapsed[d] && #[trigger] g.clusters[d].nodes.contains(node)
                        ==> g.clusters[c as int].depth <= g.clusters[d].depth
                &&& forall|d: int|
                    0 <= d < c && collapsed[d] && #[trigger] g.clusters[d].nodes.contains(node)
                        ==> g.clusters[c as int].depth < g.clusters[d].depth
            },
            VisibleOwner::Node(n) => n == node && forall|d: int|
                0 <= d < g.clusters.len() && collapsed[d] ==> !#[trigger] g.clusters[d].nodes.contains(node),
        },
{
    lemma_collapsed_owner_shallowest(g, collapsed, node, g.clusters.len() as int);
    match owner_spec(g, collapsed, node) {
        VisibleOwner::Cluster(c) => {
            assert forall|d: int|
                0 <= d < g.clusters.len() && collapsed[d] && #[trigger] g.clusters[d].nodes.contains(node) implies g.clusters[c as int].depth
                <= g.clusters[d].depth by {
                assert(collapsed_holder(g, collapsed, node, d));
            }
            assert forall|d: int|
                0 <= d < c && collapsed[d] && #[trigger] g.clusters[d].nodes.contains(node) implies g.clusters[c as int].depth
                < g.clusters[d].depth by {
                assert(collapsed_holder(g, collapsed, node, d));
            }
        },
        VisibleOwner::Node(_) => {
            assert forall|d: int| 0 <= d < g.clusters.len() && collapsed[d] implies !#[trigger] g.clusters[d].nodes.contains(
                node,
            ) by {
                assert(!collapsed_holder(g, collapsed, node, d));
            }
        },
    }
}

/// The owner that stands for display node `node_id`: the shallowest collapsed
/// cluster containing it, or the node itself.
pub fn owner_for_node(model: &GraphModel, collapsed: &Vec<bool>, node_id: u32) -> (owner: VisibleOwner)
    requires
        collapsed.len() == model@.clusters.len(),
    ensures
        owner == owner_spec(model@, collapsed@, node_id),
        match owner {
            VisibleOwner::Cluster(c) => {
                &&& c < collapsed@.len() && collapsed@[c as int] && model@.clusters[c as int].nodes.contains(node_id)
                &&& forall|d: int|
                    0 <= d < model@.clusters.len() && collapsed@[d] && #[trigger] model@.clusters[d].nodes.contains(node_id)
                        ==> model@.clusters[c as int].depth <= model@.clusters[d].depth
                &&& forall|d: int|
                    0 <= d < c && collapsed@[d] && #[trigger] model@.clusters[d].nodes.contains(node_id)
                        ==> model@.clusters[c as int].depth < model@.clusters[d].depth
            },
            VisibleOwner::Node(n) => n == node_id && forall|d: int|
                0 <= d < model@.clusters.len() && collapsed@[d] ==> !#[trigger] model@.clusters[d].nodes.contains(node_id),
        },
{
    proof {
        lemma_owner_is_shallowest_collapsed(model@, collapsed@, node_id);
    }
    let mut best: Option<usize> = None;
    let mut c: usize = 0;
    while c < model.cluster_info.len()
        invariant
            c <= model.cluster_info.len(),
            collapsed.len() == model@.clusters.len(),
            best == collapsed_owner(model@, collapsed@, node_id, c as int),
            match best {
                Some(b) => b < c,
                None => true,
            },
        decreases model.cluster_info.len() - c,
    {
        let cluster = &model.cluster_info[c];
        proof {
            assert(model@.clusters[c as int] == cluster@);
        }
        if collapsed[c] && contains_id(&cluster.nodes, node_id) {
            let better = match best {
                Some(b) => cluster.depth < model.cluster_info[b].depth,
                None => true,
            };
            if better {
                best = Some(c);
            }
        }
        c = c + 1;
    }
    match best {
        Some(index) => VisibleOwner::Cluster(index),
        None => VisibleOwner::Node(node_id),
    }
}

/// Whether some ancestor of cluster `index` is collapsed.
pub open spec fn hidden_spec(g: GraphModelView, collapsed: Seq<bool>, index: int) -> bool
    decreases index,
{
    if 0 <= index < g.clusters.len() {
        match g.clusters[index].parent {
            Some(p) => if p < index { collapsed[p as int] || hidden_spec(g, collapsed, p as int) } else { false },
            None => false,
        }
    } else {
        false
    }
}

/// The cluster `k` parent links above cluster `i`, if there is one.
pub open spec fn ancestor_at(g: GraphModelView, i: int, k: nat) -> Option<int>
    decreases k,
{
    if k == 0 {
        Some(i)
    } else {
        match ancestor_at(g, i, (k - 1) as nat) {
            Some(j) => if 0 <= j < g.clusters.len() {
                match g.clusters[j].parent {
                    Some(p) => Some(p as int),
                    None => None,
                }
            } else {
                None
            },
            None => None,
        }
    }
}

/// Whether some ancestor of cluster `i`, any number of parent links up, is
/// drawn collapsed.
spec fn collapsed_ancestor(g: GraphModelView, collapsed: Seq<bool>, i: int) -> bool {
    exists|k: nat| k >= 1 && #[trigger] collapsed_at(g, collapsed, i, k)
}

/// Whether the cluster `k` parent links above cluster `i` exists and is
/// drawn collapsed.
spec fn collapsed_at(g: GraphModelView, collapsed: Seq<bool>, i: int, k: nat) -> bool {
    match ancestor_at(g, i, k) {
        Some(a) => 0 <= a < collapsed.len() && collapsed[a],
        None => false,
    }
}

proof fn lemma_ancestor_shift(g: GraphModelView, i: int, p: usize, k: nat)
    requires
        0 <= i < g.clusters.len(),
        g.clusters[i].parent == Some(p),
    ensures
        ancestor_at(g, i, k + 1) == ancestor_at(g, p as int, k),
    decreases k,
{
    if k > 0 {
        lemma_ancestor_shift(g, i, p, (k - 1) as nat);
        assert(ancestor_at(g, i, k + 1) == match ancestor_at(g, i, k) {
            Some(j) => if 0 <= j < g.clusters.len() {
                match g.clusters[j].parent {
                    Some(q) => Some(q as int),
                    None => None,
                }
            } else {
                None
            },
            None => None,
        });
    } else {
        assert(ancestor_at(g, i, 0) == Some(i));
    }
}

proof fn lemma_no_ancestor(g: GraphModelView, i: int, k: nat)
    requires
        0 <= i < g.clusters.len(),
        g.clusters[i].parent is None,
        k >= 1,
    ensures
        ancestor_at(g, i, k) is None,
    decreases k,
{
    if k > 1 {
        lemma_no_ancestor(g, i, (k - 1) as nat);
    } else {
        assert(ancestor_at(g, i, 0) == Some(i));
    }
}

proof fn lemma_collapsed_ancestor_inline(g: GraphModelView, collapsed: Seq<bool>, i: int)
    ensures
        collapsed_ancestor(g, collapsed, i) <==> (exists|k: nat| k >= 1 && #[trigger] ancestor_at(g, i, k) is Some && 0 <= ancestor_at(g, i, k)->Some_0 < collapsed.len() && collapsed[ancestor_at(g, i, k)->Some_0]),
{
    if collapsed_ancestor(g, collapsed, i) {
        let k = choose|k: nat| k >= 1 && #[trigger] collapsed_at(g, collapsed, i, k);
        assert(ancestor_at(g, i, k) is Some);
    }
    if (exists|k: nat| k >= 1 && #[trigger] ancestor_at(g, i, k) is Some && 0 <= ancestor_at(g, i, k)->Some_0 < collapsed.len() && collapsed[ancestor_at(g, i, k)->Some_0]) {
        let k = choose|k: nat| k >= 1 && #[trigger] ancestor_at(g, i, k) is Some && 0 <= ancestor_at(g, i, k)->Some_0 < collapsed.len()
            && collapsed[ancestor_at(g, i, k)->Some_0];
        assert(collapsed_at(g, collapsed, i, k));
    }
}

/// A cluster is hidden exactly when some ancestor of it, any number of
/// parent links up, is drawn collapsed: a collapsed cluster hides every
/// cluster nested in it at any depth, and nothing else hides a cluster.
pub proof fn lemma_hidden_iff_collapsed_ancestor(g: GraphModelView, collapsed: Seq<bool>, i: int)
    requires
        graph_well_formed(g),
        collapsed.len() == g.clusters.len(),
        0 <= i < g.clusters.len(),
    ensures
        hidden_spec(g, collapsed, i) <==> (exists|k: nat| k >= 1 && #[trigger] ancestor_at(g, i, k) is Some && 0 <= ancestor_at(g, i, k)->Some_0 < collapsed.len() && collapsed[ancestor_at(g, i, k)->Some_0]),
    decreases i,
{
    lemma_collapsed_ancestor_inline(g, collapsed, i);
    assert(ancestor_at(g, i, 0) == Some(i));
    match g.clusters[i].parent {
        None => {
            assert forall|k: nat| k >= 1 implies !#[trigger] collapsed_at(g, collapsed, i, k) by {
                lemma_no_ancestor(g, i, k);
            }
        },
        Some(p) => {
            assert(p < i);
            let pi = p as int;
            lemma_hidden_iff_collapsed_ancestor(g, collapsed, pi);
            lemma_collapsed_ancestor_inline(g, collapsed, pi);
            lemma_ancestor_shift(g, i, p, 0);
            assert(ancestor_at(g, pi, 0) == Some(pi));
            if hidden_spec(g, collapsed, i) {
                if collapsed[pi] {
                    assert(ancestor_at(g, i, 1) == Some(pi));
                    assert(collapsed_at(g, collapsed, i, 1));
                } else {
                    let k = choose|k: nat| k >= 1 && #[trigger] collapsed_at(g, collapsed, pi, k);
                    lemma_ancestor_shift(g, i, p, k);
                    assert(ancestor_at(g, i, k + 1) == ancestor_at(g, pi, k));
                    assert(collapsed_at(g, collapsed, i, k + 1));
                }
            }
            if collapsed_ancestor(g, collapsed, i) {
                let k = choose|k: nat| k >= 1 && #[trigger] collapsed_at(g, collapsed, i, k);
                lemma_ancestor_shift(g, i, p, (k - 1) as nat);
                if k == 1 {
                    assert(ancestor_at(g, i, 1) == Some(pi));
                } else {
                    assert(ancestor_at(g, pi, (k - 1) as nat) == ancestor_at(g, i, k));
                    assert(collapsed_at(g, collapsed, pi, (k - 1) as nat));
                    assert(collapsed_ancestor(g, collapsed, pi));
                }
            }
        },
    }
}

/// Whether cluster `cluster_index` is hidden because an enclosing cluster is
/// drawn collapsed.
pub fn cluster_hidden_by_collapsed_ancestor(model: &GraphModel, collapsed: &Vec<bool>, cluster_index: usize) -> (hidden: bool)
    requires
        graph_well_formed(model@),
        collapsed.len() == model@.clusters.len(),
        cluster_index < model@.clusters.len(),
    ensures
        hidden == hidden_spec(model@, collapsed@, cluster_index as int),
        hidden == (exists|k: nat| k >= 1 && #[trigger] ancestor_at(model@, cluster_index as int, k) is Some && 0 <= ancestor_at(model@, cluster_index as int, k)->Some_0 < collapsed@.len() && collapsed@[ancestor_at(model@, cluster_index as int, k)->Some_0]),
{
    proof {
        lemma_hidden_iff_collapsed_ancestor(model@, collapsed@, cluster_index as int);
    }
    let mut current = cluster_index;
    let mut parent = model.cluster_info[cluster_index].parent;
    while parent.is_some()
        invariant
            graph_well_formed(model@),
            collapsed.len() == model@.clusters.len(),
            current < model@.clusters.len(),
            parent == model@.clusters[current as int].parent,
            hidden_spec(model@, collapsed@, cluster_index as int) == hidden_spec(model@, collapsed@, current as int),
            hidden_spec(model@, collapsed@, cluster_index as int) == (exists|k: nat| k >= 1 && #[trigger] ancestor_at(model@, cluster_index as int, k) is Some && 0 <= ancestor_at(model@, cluster_index as int, k)->Some_0 < collapsed@.len() && collapsed@[ancestor_at(model@, cluster_index as int, k)->Some_0]),
        decreases current,
    {
        let p = parent.unwrap();
        proof {
            assert(model@.clusters[current as int] == model@.clusters[current as int]);
        }
        if collapsed[p] {
            return true;
        }
        current = p;
        parent = model.cluster_info[p].parent;
    }
    false
}

/// The largest display id, or 0 for a graph without nodes.
pub open spec fn max_node_id_spec(g: GraphModelView) -> u32 {
    if g.nodes.len() == 0 { 0 } else { g.nodes[g.nodes.len() - 1].id }
}

/// The display id a collapsed cluster is drawn under: one past the largest
/// node id, plus the cluster's index (stopping at `u32::MAX`); none when the
/// index does not fit in a `u32`.
pub open spec fn cluster_display_id_spec(g: GraphModelView, index: usize) -> Option<u32> {
    if index > u32::MAX {
        None
    } else {
        let base = max_node_id_spec(g) as int + 1 + index;
        Some(if base > u32::MAX { u32::MAX } else { base as u32 })
    }
}

/// The display id a collapsed cluster is drawn under.
pub fn cluster_display_id(model: &GraphModel, index: usize) -> (id: Option<u32>)
    requires
        graph_well_formed(model@),
    ensures
        id == cluster_display_id_spec(model@, index),
{
    if index > u32::MAX as usize {
        return None;
    }
    let max_node_id = if model.nodes.len() == 0 { 0 } else { model.nodes[model.nodes.len() - 1].id };
    Some(max_node_id.saturating_add(1).saturating_add(index as u32))
}

/// The display id that stands for an owner.
pub open spec fn owner_display_spec(g: GraphModelView, owner: VisibleOwner) -> Option<u32> {
    match owner {
        VisibleOwner::Node(id) => Some(id),
        VisibleOwner::Cluster(index) => cluster_display_id_spec(g, index),
    }
}

/// The drawn edges over `edges` in order: each edge is redirected to the
/// owners of its ends, edges inside one owner are dropped, and repeats are
/// kept once.
pub open spec fn visible_edges_spec(g: GraphModelView, collapsed: Seq<bool>, edges: Seq<(u32, u32)>) -> Seq<(u32, u32)>
    decreases edges.len(),
{
    if edges.len() == 0 {
        Seq::empty()
    } else {
        let prev = visible_edges_spec(g, collapsed, edges.drop_last());
        let (from, to) = edges.last();
        match (owner_display_spec(g, owner_spec(g, collapsed, from)), owner_display_spec(g, owner_spec(g, collapsed, to))) {
            (Some(a), Some(b)) => if a == b || prev.contains((a, b)) { prev } else { prev.push((a, b)) },
            _ => prev,
        }
    }
}

fn contains_edge(v: &Vec<(u32, u32)>, e: (u32, u32)) -> (b: bool)
    ensures
        b == v@.contains(e),
{
    let mut i: usize = 0;
    while i < v.len()
        invariant
            i <= v.len(),
            forall|k: int| 0 <= k < i ==> v@[k] != e,
        decreases v.len() - i,
    {
        if v[i].0 == e.0 && v[i].1 == e.1 {
            return true;
        }
        i = i + 1;
    }
    false
}

fn owner_display(model: &GraphModel, owner: VisibleOwner) -> (id: Option<u32>)
    requires
        graph_well_formed(model@),
    ensures
        id == owner_display_spec(model@, owner),
{
    match owner {
        VisibleOwner::Node(id) => Some(id),
        VisibleOwner::Cluster(index) => cluster_display_id(model, index),
    }
}

/// The edges drawn when the clusters flagged in `collapsed` are collapsed.
pub fn visible_edges(model: &GraphModel, collapsed: &Vec<bool>) -> (edges: Vec<(u32, u32)>)
    requires
        graph_well_formed(model@),
        collapsed.len() == model@.clusters.len(),
    ensures
        edges@ == visible_edges_spec(model@, collapsed@, model@.edges),
{
    let mut out: Vec<(u32, u32)> = Vec::new();
    let mut i: usize = 0;
    while i < model.edges.len()
        invariant
            i <= model.edges.len(),
            graph_well_formed(model@),
            collapsed.len() == model@.clusters.len(),
            out@ == visible_edges_spec(model@, collapsed@, model@.edges.take(i as int)),
        decreases model.edges.len() - i,
    {
        let (from, to) = model.edges[i];
        proof {
            let t = model@.edges.take(i as int + 1);
            assert(t.drop_last() =~= model@.edges.take(i as int));
            assert(t.last() == (from, to));
        }
        let a = owner_display(model, owner_for_node(model, collapsed, from));
        let b = owner_display(model, owner_for_node(model, collapsed, to));
        match (a, b) {
            (Some(a), Some(b)) => {
                if a != b && !contains_edge(&out, (a, b)) {
                    out.push((a, b));
                }
            },
            _ => {},
        }
        i = i + 1;
    }
    proof {
        assert(model@.edges.take(i as int) =~= model@.edges);
    }
    out
}

/// The members of cluster `c` that stand for themselves, in order.
pub open spec fn own_members_spec(g: GraphModelView, collapsed: Seq<bool>, ids: Seq<u32>) -> Seq<u32>
    decreases ids.len(),
{
    if ids.len() == 0 {
        Seq::empty()
    } else {
        let prev = own_members_spec(g, collapsed, ids.drop_last());
        if owner_spec(g, collapsed, ids.last()) == VisibleOwner::Node(ids.last()) {
            prev.push(ids.last())
        } else {
            prev
        }
    }
}

/// The members of an expanded cluster that are drawn as themselves (not
/// folded into a collapsed cluster), in order.
pub fn visible_cluster_members(model: &GraphModel, collapsed: &Vec<bool>, cluster: &ClusterInfo) -> (members: Vec<u32>)
    requires
        collapsed.len() == model@.clusters.len(),
    ensures
        members@ == own_members_spec(model@, collapsed@, cluster@.nodes),
{
    let mut out: Vec<u32> = Vec::new();
    let mut i: usize = 0;
    while i < cluster.nodes.len()
        invariant
            i <= cluster.nodes.len(),
            collapsed.len() == model@.clusters.len(),
            out@ == own_members_spec(model@, collapsed@, cluster@.nodes.take(i as int)),
        decreases cluster.nodes.len() - i,
    {
        let node_id = cluster.nodes[i];
        proof {
            let t = cluster@.nodes.take(i as int + 1);
            assert(t.drop_last() =~= cluster@.nodes.take(i as int));
            assert(t.last() == node_id);
        }
        if owner_for_node(model, collapsed, node_id) == VisibleOwner::Node(node_id) {
            out.push(node_id);
        }
        i = i + 1;
    }
    proof {
        assert(cluster@.nodes.take(i as int) =~= cluster@.nodes);
    }
    out
}

/// Collapsing no cluster leaves every node standing for itself, so the drawn
/// edges are the graph's edges without self-loops and repeats.
pub proof fn lemma_nothing_collapsed(g: GraphModelView, collapsed: Seq<bool>, node: u32)
    requires
        collapsed.len() == g.clusters.len(),
        forall|c: int| 0 <= c < collapsed.len() ==> !collapsed[c],
    ensures
        owner_spec(g, collapsed, node) == VisibleOwner::Node(node),
{
    lemma_no_collapsed_owner(g, collapsed, node, g.clusters.len() as int);
}

proof fn lemma_no_collapsed_owner(g: GraphModelView, collapsed: Seq<bool>, node: u32, n: int)
    requires
        n <= collapsed.len(),
        forall|c: int| 0 <= c < collapsed.len() ==> !collapsed[c],
    ensures
        collapsed_owner(g, collapsed, node, n) is None,
    decreases n,
{
    if n > 0 {
        lemma_no_collapsed_owner(g, collapsed, node, n - 1);
    }
}

} // verus!
