use crate::ast::JourneyAst;
use crate::labels::{
    dedup, dedup_spec, decimal_spec, is_blank, is_blank_spec, push_char, push_decimal,
    short_type_name_spec, short_type_name_str,
};
use vstd::pervasive::VecAdditionalExecFns;
use vstd::prelude::*;
use vstd::string::StringExecFns;

verus! {

/// The shape of a rendered step node.
#[derive(Debug, Clone, Copy, PartialEq, Eq, Structural)]
pub enum StepKind {
    Step,
    Conditional,
    Select,
    Join,
}

/// The kind of a rendered cluster of nodes.
#[derive(Debug, Clone, Copy, PartialEq, Eq, Structural)]
pub enum ClusterKind {
    While,
    Transparent,
}

/// A node of the display graph.
#[derive(Debug)]
pub struct NodeDisplay {
    pub id: u32,
    pub label: String,
    pub metadata: Option<String>,
    pub runtime_node_id: Option<u32>,
    pub is_conditional_branch: bool,
    pub is_select: bool,
    pub is_join: bool,
}

/// Mathematical model of a [`NodeDisplay`].
pub struct NodeView {
    pub id: u32,
    pub label: Seq<char>,
    pub metadata: Option<Seq<char>>,
    pub runtime_node_id: Option<u32>,
    pub is_conditional_branch: bool,
    pub is_select: bool,
    pub is_join: bool,
}

pub open spec fn opt_string_view(s: Option<String>) -> Option<Seq<char>> {
    match s {
        Some(t) => Some(t@),
        None => None,
    }
}

impl View for NodeDisplay {
    type V = NodeView;

    open spec fn view(&self) -> NodeView {
        NodeView {
            id: self.id,
            label: self.label@,
            metadata: opt_string_view(self.metadata),
            runtime_node_id: self.runtime_node_id,
            is_conditional_branch: self.is_conditional_branch,
            is_select: self.is_select,
            is_join: self.is_join,
        }
    }
}

/// The kind a node is displayed as; the branch flag wins over select, and
/// select over join.
pub open spec fn node_kind_spec(node: NodeView) -> StepKind {
    if node.is_conditional_branch {
        StepKind::Conditional
    } else if node.is_select {
        StepKind::Select
    } else if node.is_join {
        StepKind::Join
    } else {
        StepKind::Step
    }
}

impl NodeDisplay {
    /// The kind this node is displayed as.
    pub fn kind(&self) -> (kind: StepKind)
        ensures
            kind == node_kind_spec(self@),
    {
        if self.is_conditional_branch {
            StepKind::Conditional
        } else if self.is_select {
            StepKind::Select
        } else if self.is_join {
            StepKind::Join
        } else {
            StepKind::Step
        }
    }
}

/// A cluster of display nodes drawn around the body of a `While` or a
/// `Transparent` boundary.
#[derive(Debug)]
pub struct ClusterInfo {
    pub id: u32,
    pub kind: ClusterKind,
    pub label: String,
    pub metadata: Option<String>,
    pub parent: Option<usize>,
    pub nodes: Vec<u32>,
    pub root_nodes: Vec<u32>,
    pub depth: usize,
}

/// Mathematical model of a [`ClusterInfo`].
pub struct ClusterInfoView {
    pub id: u32,
    pub kind: ClusterKind,
    pub label: Seq<char>,
    pub metadata: Option<Seq<char>>,
    pub parent: Option<usize>,
    pub nodes: Seq<u32>,
    pub root_nodes: Seq<u32>,
    pub depth: usize,
}

impl View for ClusterInfo {
    type V = ClusterInfoView;

    open spec fn view(&self) -> ClusterInfoView {
        ClusterInfoView {
            id: self.id,
            kind: self.kind,
            label: self.label@,
            metadata: opt_string_view(self.metadata),
            parent: self.parent,
            nodes: self.nodes@,
            root_nodes: self.root_nodes@,
            depth: self.depth,
        }
    }
}

/// The entry points, exit points and member nodes of a flattened subflow.
pub struct Flattened {
    pub roots: Vec<u32>,
    pub exits: Vec<u32>,
    pub members: Vec<u32>,
}

/// Mathematical model of a [`Flattened`].
pub struct FlatView {
    pub roots: Seq<u32>,
    pub exits: Seq<u32>,
    pub members: Seq<u32>,
}

impl View for Flattened {
    type V = FlatView;

    open spec fn view(&self) -> FlatView {
        FlatView { roots: self.roots@, exits: self.exits@, members: self.members@ }
    }
}

pub open spec fn empty_flat() -> FlatView {
    FlatView { roots: Seq::empty(), exits: Seq::empty(), members: Seq::empty() }
}

/// Model of the graph builder's state while it walks an AST.
pub struct BuilderView {
    pub nodes: Seq<NodeView>,
    pub edges: Seq<(u32, u32)>,
    pub clusters: Seq<ClusterInfoView>,
    pub stack: Seq<usize>,
    pub cluster_next_id: u32,
    pub runtime_next_id: u32,
    pub display_next_id: u32,
    pub occurrences: Seq<(Seq<char>, u32)>,
}

pub open spec fn empty_builder() -> BuilderView {
    BuilderView {
        nodes: Seq::empty(),
        edges: Seq::empty(),
        clusters: Seq::empty(),
        stack: Seq::empty(),
        cluster_next_id: 0,
        runtime_next_id: 0,
        display_next_id: 0,
        occurrences: Seq::empty(),
    }
}

/// `x + 1`, stopping at `u32::MAX`.
pub open spec fn sat_inc(x: u32) -> u32 {
    if x == u32::MAX { x } else { (x + 1) as u32 }
}

pub open spec fn sep_text() -> Seq<char> {
    seq![' ', ':', ':', ' ']
}

pub open spec fn while_prefix() -> Seq<char> {
    seq!['w', 'h', 'i', 'l', 'e', ':', ' ']
}

pub open spec fn transparent_prefix() -> Seq<char> {
    seq!['t', 'r', 'a', 'n', 's', 'p', 'a', 'r', 'e', 'n', 't', ':', ' ']
}

/// `prefix`, the short name of `label`, and ` :: metadata` unless the metadata is blank.
pub open spec fn decorated_label_spec(prefix: Seq<char>, label: Seq<char>, metadata: Seq<char>) -> Seq<char> {
    if is_blank_spec(metadata) {
        prefix + short_type_name_spec(label)
    } else {
        prefix + short_type_name_spec(label) + sep_text() + metadata
    }
}

/// `label`, followed by ` :: metadata` unless the metadata is blank.
pub open spec fn raw_label_spec(label: Seq<char>, metadata: Seq<char>) -> Seq<char> {
    if is_blank_spec(metadata) {
        label
    } else {
        label + sep_text() + metadata
    }
}

pub open spec fn metadata_spec(metadata: Seq<char>) -> Option<Seq<char>> {
    if is_blank_spec(metadata) { None } else { Some(metadata) }
}

/// Index of the first entry of `occ` keyed by `key`, searching from `i`.
pub open spec fn find_occurrence(occ: Seq<(Seq<char>, u32)>, key: Seq<char>, i: int) -> Option<int>
    decreases occ.len() - i,
{
    if i < 0 || i >= occ.len() {
        None
    } else if occ[i].0 == key {
        Some(i)
    } else {
        find_occurrence(occ, key, i + 1)
    }
}

/// The label given to the next node whose raw label is `raw`, and the
/// updated occurrence counts: the short name the first time, and
/// `short #n` the n-th time.
pub open spec fn unique_label_spec(occ: Seq<(Seq<char>, u32)>, raw: Seq<char>) -> (Seq<char>, Seq<(Seq<char>, u32)>) {
    let short = short_type_name_spec(raw);
    match find_occurrence(occ, short, 0) {
        None => (short, occ.push((short, 1u32))),
        Some(k) => {
            let count = occ[k].1;
            let label = if count == 0 {
                short
            } else {
                short + seq![' ', '#'] + decimal_spec((count + 1) as nat)
            };
            (label, occ.update(k, (short, sat_inc(count))))
        },
    }
}

/// Edges from every node of `froms` to every node of `tos`, grouped by source.
pub open spec fn cross_edges(froms: Seq<u32>, tos: Seq<u32>) -> Seq<(u32, u32)>
    decreases froms.len(),
{
    if froms.len() == 0 {
        Seq::empty()
    } else {
        cross_edges(froms.drop_last(), tos) + tos.map_values(|t: u32| (froms.last(), t))
    }
}

pub open spec fn plain_node(id: u32, label: Seq<char>, metadata: Option<Seq<char>>, runtime: Option<u32>) -> NodeView {
    NodeView {
        id,
        label,
        metadata,
        runtime_node_id: runtime,
        is_conditional_branch: false,
        is_select: false,
        is_join: false,
    }
}

/// Adds a node with a fresh display id to the builder.
pub open spec fn push_node(b: BuilderView, node: NodeView) -> BuilderView {
    BuilderView { nodes: b.nodes.push(node), display_next_id: sat_inc(b.display_next_id), ..b }
}

pub open spec fn add_edges(b: BuilderView, edges: Seq<(u32, u32)>) -> BuilderView {
    BuilderView { edges: b.edges + edges, ..b }
}

/// Adds a runtime-backed node (a step, a select or a join) whose raw label is `raw`.
pub open spec fn push_runtime_node(b: BuilderView, raw: Seq<char>, metadata: Option<Seq<char>>, select: bool, join: bool) -> BuilderView {
    let rid = b.runtime_next_id;
    let (label, occ) = unique_label_spec(b.occurrences, raw);
    let b1 = BuilderView { runtime_next_id: sat_inc(rid), occurrences: occ, ..b };
    push_node(b1, NodeView { is_select: select, is_join: join, ..plain_node(b.display_next_id, label, metadata, Some(rid)) })
}

/// Opens a new cluster nested in the innermost open one.
pub open spec fn open_cluster(b: BuilderView, kind: ClusterKind, label: Seq<char>, metadata: Option<Seq<char>>) -> BuilderView {
    let parent = if b.stack.len() > 0 { Some(b.stack.last()) } else { None };
    let info = ClusterInfoView {
        id: b.cluster_next_id,
        kind,
        label,
        metadata,
        parent,
        nodes: Seq::empty(),
        root_nodes: Seq::empty(),
        depth: b.stack.len() as usize,
    };
    BuilderView {
        clusters: b.clusters.push(info),
        stack: b.stack.push(b.clusters.len() as usize),
        cluster_next_id: sat_inc(b.cluster_next_id),
        ..b
    }
}

/// Closes cluster `index` around the flattened body `body`.
pub open spec fn close_cluster(b: BuilderView, index: int, body: FlatView) -> BuilderView {
    let members = dedup_spec(body.members);
    let info = b.clusters[index];
    let info1 = if members.len() > 0 { ClusterInfoView { nodes: members, ..info } } else { info };
    let info2 = ClusterInfoView { root_nodes: dedup_spec(body.roots), ..info1 };
    BuilderView { clusters: b.clusters.update(index, info2), stack: b.stack.drop_last(), ..b }
}

/// The builder state and flattened result after adding `ast` to `b`.
pub open spec fn flatten_spec(b: BuilderView, ast: JourneyAst) -> (BuilderView, FlatView)
    decreases ast,
{
    match ast {
        JourneyAst::Empty => (b, empty_flat()),
        JourneyAst::Sequence(items) => flatten_seq(b, items@, empty_flat(), Seq::empty()),
        JourneyAst::Step { label } => {
            let id = b.display_next_id;
            (push_runtime_node(b, label@, None, false, false), FlatView { roots: seq![id], exits: seq![id], members: seq![id] })
        },
        JourneyAst::Conditional { label, metadata, left, right } => {
            let id = b.display_next_id;
            let node = NodeView {
                is_conditional_branch: true,
                ..plain_node(id, decorated_label_spec(Seq::empty(), label@, metadata@), metadata_spec(metadata@), None)
            };
            let b1 = push_node(b, node);
            let (b2, lf) = flatten_spec(b1, *left);
            let (b3, rf) = flatten_spec(b2, *right);
            (
                add_edges(b3, cross_edges(seq![id], lf.roots) + cross_edges(seq![id], rf.roots)),
                FlatView {
                    roots: seq![id],
                    exits: dedup_spec(lf.exits + rf.exits),
                    members: seq![id] + lf.members + rf.members,
                },
            )
        },
        JourneyAst::While { label, metadata, body } => {
            let index = b.clusters.len() as int;
            let b1 = open_cluster(b, ClusterKind::While, decorated_label_spec(while_prefix(), label@, metadata@), metadata_spec(metadata@));
            let (b2, bf) = flatten_spec(b1, *body);
            let b3 = close_cluster(b2, index, bf);
            (add_edges(b3, cross_edges(bf.exits, bf.roots)), bf)
        },
        JourneyAst::Transparent { label, metadata, body } => {
            let index = b.clusters.len() as int;
            let b1 = open_cluster(b, ClusterKind::Transparent, decorated_label_spec(transparent_prefix(), label@, metadata@), metadata_spec(metadata@));
            let (b2, bf) = flatten_spec(b1, *body);
            (close_cluster(b2, index, bf), bf)
        },
        JourneyAst::Select { label, metadata, left, right } => {
            let id = b.display_next_id;
            let b1 = push_runtime_node(b, raw_label_spec(label@, metadata@), metadata_spec(metadata@), true, false);
            let (b2, lf) = flatten_spec(b1, *left);
            let (b3, rf) = flatten_spec(b2, *right);
            (
                add_edges(b3, cross_edges(seq![id], lf.roots) + cross_edges(seq![id], rf.roots)),
                FlatView { roots: seq![id], exits: seq![id], members: seq![id] + lf.members + rf.members },
            )
        },
        JourneyAst::Join { label, metadata, left, right } => {
            let id = b.display_next_id;
            let b1 = push_runtime_node(b, raw_label_spec(label@, metadata@), metadata_spec(metadata@), false, true);
            let (b2, lf) = flatten_spec(b1, *left);
            let (b3, rf) = flatten_spec(b2, *right);
            (
                add_edges(b3, cross_edges(seq![id], lf.roots) + cross_edges(seq![id], rf.roots)),
                FlatView { roots: seq![id], exits: seq![id], members: seq![id] + lf.members + rf.members },
            )
        },
    }
}

/// Flattens the remaining `items` of a sequence: each item that has a root
/// is linked from the exits `prev` of the previous such item.
pub open spec fn flatten_seq(b: BuilderView, items: Seq<JourneyAst>, acc: FlatView, prev: Seq<u32>) -> (BuilderView, FlatView)
    decreases items,
{
    if items.len() == 0 {
        (b, acc)
    } else {
        let (b1, cur) = flatten_spec(b, items[0]);
        if cur.roots.len() == 0 {
            flatten_seq(b1, items.skip(1), acc, prev)
        } else {
            let acc1 = FlatView {
                roots: if acc.roots.len() == 0 { cur.roots } else { acc.roots },
                exits: cur.exits,
                members: acc.members + cur.members,
            };
            flatten_seq(add_edges(b1, cross_edges(prev, cur.roots)), items.skip(1), acc1, cur.exits)
        }
    }
}

/// Number of display nodes an AST produces.
pub open spec fn node_count(ast: JourneyAst) -> nat
    decreases ast,
{
    match ast {
        JourneyAst::Empty => 0,
        JourneyAst::Sequence(items) => node_count_seq(items@),
        JourneyAst::Step { .. } => 1,
        JourneyAst::Conditional { left, right, .. } => 1 + node_count(*left) + node_count(*right),
        JourneyAst::While { body, .. } => node_count(*body),
        JourneyAst::Transparent { body, .. } => node_count(*body),
        JourneyAst::Select { left, right, .. } => 1 + node_count(*left) + node_count(*right),
        JourneyAst::Join { left, right, .. } => 1 + node_count(*left) + node_count(*right),
    }
}

pub open spec fn node_count_seq(items: Seq<JourneyAst>) -> nat
    decreases items,
{
    if items.len() == 0 {
        0
    } else {
        node_count(items[0]) + node_count_seq(items.skip(1))
    }
}

/// The invariant the builder keeps: display ids are dense and equal to
/// positions, and every edge, cluster member, cluster parent and open
/// cluster refers to something that exists.
pub open spec fn builder_wf(b: BuilderView) -> bool {
    builder_core_wf(b) && occurrences_bounded(b.occurrences, b.nodes.len())
}

pub open spec fn builder_core_wf(b: BuilderView) -> bool {
    &&& b.display_next_id == b.nodes.len()
    &&& forall|i: int| 0 <= i < b.nodes.len() ==> (#[trigger] b.nodes[i]).id == i
    &&& forall|i: int| 0 <= i < b.edges.len() ==> (#[trigger] b.edges[i]).0 < b.nodes.len() && b.edges[i].1 < b.nodes.len()
    &&& forall|c: int, k: int| 0 <= c < b.clusters.len() && 0 <= k < b.clusters[c].nodes.len() ==> #[trigger] b.clusters[c].nodes[k] < b.nodes.len()
    &&& forall|c: int, k: int| 0 <= c < b.clusters.len() && 0 <= k < b.clusters[c].root_nodes.len() ==> #[trigger] b.clusters[c].root_nodes[k] < b.nodes.len()
    &&& forall|c: int| 0 <= c < b.clusters.len() ==> match (#[trigger] b.clusters[c]).parent {
        Some(p) => p < c,
        None => true,
    }
    &&& forall|k: int| 0 <= k < b.stack.len() ==> #[trigger] b.stack[k] < b.clusters.len()
}

/// No label has been counted more than `n` times.
pub open spec fn occurrences_bounded(occ: Seq<(Seq<char>, u32)>, n: nat) -> bool {
    forall|k: int| 0 <= k < occ.len() ==> (#[trigger] occ[k]).1 <= n
}

/// Every id of `s` lies in `[lo, hi)`.
pub open spec fn ids_within(s: Seq<u32>, lo: int, hi: int) -> bool {
    forall|k: int| 0 <= k < s.len() ==> lo <= #[trigger] s[k] < hi
}

pub open spec fn flat_within(f: FlatView, lo: int, hi: int) -> bool {
    ids_within(f.roots, lo, hi) && ids_within(f.exits, lo, hi) && ids_within(f.members, lo, hi)
}

proof fn lemma_dedup_within(s: Seq<u32>, lo: int, hi: int)
    requires
        ids_within(s, lo, hi),
    ensures
        ids_within(dedup_spec(s), lo, hi),
    decreases s.len(),
{
    if s.len() > 0 {
        lemma_dedup_within(s.drop_last(), lo, hi);
    }
}

proof fn lemma_cross_within(froms: Seq<u32>, tos: Seq<u32>, n: int)
    requires
        ids_within(froms, 0, n),
        ids_within(tos, 0, n),
    ensures
        forall|i: int| 0 <= i < cross_edges(froms, tos).len() ==> (#[trigger] cross_edges(froms, tos)[i]).0 < n
            && cross_edges(froms, tos)[i].1 < n,
    decreases froms.len(),
{
    if froms.len() > 0 {
        lemma_cross_within(froms.drop_last(), tos, n);
        let a = cross_edges(froms.drop_last(), tos);
        let m = tos.map_values(|t: u32| (froms.last(), t));
        assert forall|i: int| 0 <= i < (a + m).len() implies (#[trigger] (a + m)[i]).0 < n && (a + m)[i].1 < n by {
            if i >= a.len() {
                assert(m[i - a.len()] == (froms.last(), tos[i - a.len()]));
            }
        }
    }
}

proof fn lemma_add_edges_wf(b: BuilderView, e: Seq<(u32, u32)>)
    requires
        builder_wf(b),
        forall|i: int| 0 <= i < e.len() ==> (#[trigger] e[i]).0 < b.nodes.len() && e[i].1 < b.nodes.len(),
    ensures
        builder_wf(add_edges(b, e)),
{
    let b2 = add_edges(b, e);
    assert forall|i: int| 0 <= i < b2.edges.len() implies (#[trigger] b2.edges[i]).0 < b2.nodes.len() && b2.edges[i].1 < b2.nodes.len() by {
        if i >= b.edges.len() {
            assert(b2.edges[i] == e[i - b.edges.len()]);
        }
    }
}

struct GraphBuilder {
    nodes: Vec<NodeDisplay>,
    edges: Vec<(u32, u32)>,
    cluster_info: Vec<ClusterInfo>,
    cluster_stack: Vec<usize>,
    cluster_next_id: u32,
    runtime_next_id: u32,
    display_next_id: u32,
    label_occurrences: Vec<(String, u32)>,
}

impl View for GraphBuilder {
    type V = BuilderView;

    closed spec fn view(&self) -> BuilderView {
        BuilderView {
            nodes: self.nodes@.map_values(|n: NodeDisplay| n@),
            edges: self.edges@,
            clusters: self.cluster_info@.map_values(|c: ClusterInfo| c@),
            stack: self.cluster_stack@,
            cluster_next_id: self.cluster_next_id,
            runtime_next_id: self.runtime_next_id,
            display_next_id: self.display_next_id,
            occurrences: self.label_occurrences@.map_values(|o: (String, u32)| (o.0@, o.1)),
        }
    }
}

impl GraphBuilder {
    fn new() -> (b: GraphBuilder)
        ensures
            b@ == empty_builder(),
    {
        let b = GraphBuilder {
            nodes: Vec::new(),
            edges: Vec::new(),
            cluster_info: Vec::new(),
            cluster_stack: Vec::new(),
            cluster_next_id: 0,
            runtime_next_id: 0,
            display_next_id: 0,
            label_occurrences: Vec::new(),
        };
        assert(b@.nodes =~= Seq::<NodeView>::empty());
        assert(b@.clusters =~= Seq::<ClusterInfoView>::empty());
        assert(b@.occurrences =~= Seq::<(Seq<char>, u32)>::empty());
        b
    }

    /// Appends an edge from every node of `froms` to every node of `tos`.
    fn push_cross_edges(&mut self, froms: &Vec<u32>, tos: &Vec<u32>)
        ensures
            final(self)@ == add_edges(old(self)@, cross_edges(froms@, tos@)),
    {
        let ghost base = self.edges@;
        let mut i: usize = 0;
        while i < froms.len()
            invariant
                i <= froms.len(),
                self.edges@ == base + cross_edges(froms@.take(i as int), tos@),
                self@ == add_edges(old(self)@, cross_edges(froms@.take(i as int), tos@)),
                base == old(self)@.edges,
            decreases froms.len() - i,
        {
            let from = froms[i];
            let ghost before = self.edges@;
            let mut j: usize = 0;
            while j < tos.len()
                invariant
                    j <= tos.len(),
                    i < froms.len(),
                    from == froms@[i as int],
                    self.edges@ == before + tos@.take(j as int).map_values(|t: u32| (from, t)),
                    self@ == (BuilderView { edges: self.edges@, ..old(self)@ }),
                decreases tos.len() - j,
            {
                self.edges.push((from, tos[j]));
                proof {
                    assert(tos@.take(j as int + 1).map_values(|t: u32| (from, t)) =~= tos@.take(j as int).map_values(
                        |t: u32| (from, t),
                    ).push((from, tos@[j as int])));
                }
                j = j + 1;
            }
            proof {
                assert(tos@.take(j as int) =~= tos@);
                assert(froms@.take(i as int + 1).drop_last() =~= froms@.take(i as int));
                assert(base + cross_edges(froms@.take(i as int + 1), tos@) =~= before + tos@.map_values(|t: u32| (from, t)));
            }
            i = i + 1;
        }
        proof {
            assert(froms@.take(i as int) =~= froms@);
        }
    }

    /// A label unique among those given so far: the short name the first
    /// time it occurs, then `short #2`, `short #3`, and so on.
    fn unique_label(&mut self, raw: String) -> (label: String)
        requires
            forall|k: int| 0 <= k < old(self)@.occurrences.len() ==> (#[trigger] old(self)@.occurrences[k]).1 < u32::MAX,
        ensures
            (label@, final(self)@.occurrences) == unique_label_spec(old(self)@.occurrences, raw@),
            final(self)@ == (BuilderView { occurrences: final(self)@.occurrences, ..old(self)@ }),
    {
        let short = short_type_name_str(raw.as_str());
        let ghost occ = old(self)@.occurrences;
        let mut k: usize = 0;
        let mut found = false;
        while k < self.label_occurrences.len() && !found
            invariant
                self@ == old(self)@,
                occ == self@.occurrences,
                k <= self.label_occurrences.len(),
                found ==> k < self.label_occurrences.len() && occ[k as int].0 == short@,
                find_occurrence(occ, short@, 0) == find_occurrence(occ, short@, k as int),
            decreases self.label_occurrences.len() - k, if found { 0int } else { 1int },
        {
            proof {
                assert(occ[k as int] == (self.label_occurrences@[k as int].0@, self.label_occurrences@[k as int].1));
            }
            if self.label_occurrences[k].0 == short {
                found = true;
            } else {
                k = k + 1;
            }
        }
        if !found {
            self.label_occurrences.push((short.clone(), 1));
            proof {
                assert(self@.occurrences =~= occ.push((short@, 1u32)));
            }
            short
        } else {
            let count = self.label_occurrences[k].1;
            proof {
                assert(occ[k as int] == (self.label_occurrences@[k as int].0@, self.label_occurrences@[k as int].1));
            }
            let label = if count == 0 {
                short.clone()
            } else {
                let mut l = short.clone();
                push_char(&mut l, ' ');
                push_char(&mut l, '#');
                push_decimal(&mut l, (count + 1) as u64);
                proof {
                    assert(l@ =~= short@ + seq![' ', '#'] + decimal_spec((count + 1) as nat));
                }
                l
            };
            self.label_occurrences.set(k, (short, count.saturating_add(1)));
            proof {
                assert(self@.occurrences =~= occ.update(k as int, (short@, sat_inc(count))));
            }
            label
        }
    }
}


proof fn lemma_find_occurrence_range(occ: Seq<(Seq<char>, u32)>, key: Seq<char>, i: int)
    ensures
        match find_occurrence(occ, key, i) {
            Some(k) => i <= k < occ.len() && occ[k].0 == key,
            None => true,
        },
    decreases occ.len() - i,
{
    if 0 <= i < occ.len() && occ[i].0 != key {
        lemma_find_occurrence_range(occ, key, i + 1);
    }
}

proof fn lemma_unique_label_bounded(occ: Seq<(Seq<char>, u32)>, raw: Seq<char>, n: nat)
    requires
        occurrences_bounded(occ, n),
        n < u32::MAX,
    ensures
        occurrences_bounded(unique_label_spec(occ, raw).1, n + 1),
{
    let short = short_type_name_spec(raw);
    lemma_find_occurrence_range(occ, short, 0);
    let occ2 = unique_label_spec(occ, raw).1;
    assert forall|k: int| 0 <= k < occ2.len() implies (#[trigger] occ2[k]).1 <= n + 1 by {
        if k < occ.len() {
            assert(occ[k].1 <= n);
        }
    }
}

fn copy_ids(v: &Vec<u32>) -> (out: Vec<u32>)
    ensures
        out@ == v@,
{
    let mut out: Vec<u32> = Vec::new();
    let mut i: usize = 0;
    while i < v.len()
        invariant
            i <= v.len(),
            out@ == v@.take(i as int),
        decreases v.len() - i,
    {
        out.push(v[i]);
        proof {
            assert(v@.take(i as int + 1) =~= v@.take(i as int).push(v@[i as int]));
        }
        i = i + 1;
    }
    proof {
        assert(v@.take(i as int) =~= v@);
    }
    out
}

fn append_sep(out: &mut String)
    ensures
        final(out)@ == old(out)@ + sep_text(),
{
    push_char(out, ' ');
    push_char(out, ':');
    push_char(out, ':');
    push_char(out, ' ');
    assert(final(out)@ =~= old(out)@ + sep_text());
}

/// `prefix`, the short name of `label`, and ` :: metadata` unless the metadata is blank.
fn decorated_label(prefix: String, label: &str, metadata: &str) -> (out: String)
    ensures
        out@ == decorated_label_spec(prefix@, label@, metadata@),
{
    let mut out = prefix;
    let short = short_type_name_str(label);
    out.append(short.as_str());
    if !is_blank(metadata) {
        append_sep(&mut out);
        out.append(metadata);
    }
    out
}

/// `label`, followed by ` :: metadata` unless the metadata is blank.
fn raw_label(label: &str, metadata: &str) -> (out: String)
    ensures
        out@ == raw_label_spec(label@, metadata@),
{
    let mut out = String::from_str(label);
    if !is_blank(metadata) {
        append_sep(&mut out);
        out.append(metadata);
    }
    out
}

fn metadata_of(metadata: &str) -> (out: Option<String>)
    ensures
        opt_string_view(out) == metadata_spec(metadata@),
{
    if is_blank(metadata) {
        None
    } else {
        Some(String::from_str(metadata))
    }
}

fn while_prefix_text() -> (out: String)
    ensures
        out@ == while_prefix(),
{
    let out = String::from_str("while: ");
    proof {
        reveal_strlit("while: ");
    }
    assert(out@ =~= while_prefix());
    out
}

fn transparent_prefix_text() -> (out: String)
    ensures
        out@ == transparent_prefix(),
{
    let out = String::from_str("transparent: ");
    proof {
        reveal_strlit("transparent: ");
    }
    assert(out@ =~= transparent_prefix());
    out
}


impl GraphBuilder {
    fn push_node_display(&mut self, node: NodeDisplay)
        requires
            builder_core_wf(old(self)@),
            occurrences_bounded(old(self)@.occurrences, old(self)@.nodes.len() + 1),
            node.id == old(self)@.display_next_id,
            old(self)@.nodes.len() + 1 < u32::MAX,
        ensures
            final(self)@ == push_node(old(self)@, node@),
            builder_wf(final(self)@),
    {
        let ghost old_nodes = self.nodes@;
        self.nodes.push(node);
        self.display_next_id = self.display_next_id + 1;
        proof {
            assert(self.nodes@.map_values(|n: NodeDisplay| n@) =~= old_nodes.map_values(|n: NodeDisplay| n@).push(node@));
            let b = old(self)@;
            let b2 = push_node(b, node@);
            assert(self@ == b2);
            assert forall|i: int| 0 <= i < b2.nodes.len() implies (#[trigger] b2.nodes[i]).id == i by {
                if i < b.nodes.len() {
                    assert(b2.nodes[i] == b.nodes[i]);
                }
            }
            assert forall|c: int, k: int| 0 <= c < b2.clusters.len() && 0 <= k < b2.clusters[c].nodes.len() implies #[trigger] b2.clusters[c].nodes[k] < b2.nodes.len() by {
                assert(b.clusters[c].nodes[k] < b.nodes.len());
            }
            assert forall|c: int, k: int| 0 <= c < b2.clusters.len() && 0 <= k < b2.clusters[c].root_nodes.len() implies #[trigger] b2.clusters[c].root_nodes[k] < b2.nodes.len() by {
                assert(b.clusters[c].root_nodes[k] < b.nodes.len());
            }
            assert forall|i: int| 0 <= i < b2.edges.len() implies (#[trigger] b2.edges[i]).0 < b2.nodes.len() && b2.edges[i].1 < b2.nodes.len() by {
                assert(b.edges[i].0 < b.nodes.len());
            }
        }
    }

    fn push_runtime_node(&mut self, raw: String, metadata: Option<String>, select: bool, join: bool)
        requires
            builder_wf(old(self)@),
            old(self)@.nodes.len() + 1 < u32::MAX,
        ensures
            final(self)@ == push_runtime_node(old(self)@, raw@, opt_string_view(metadata), select, join),
            builder_wf(final(self)@),
    {
        proof {
            lemma_unique_label_bounded(self@.occurrences, raw@, self@.nodes.len());
        }
        let rid = self.runtime_next_id;
        self.runtime_next_id = rid.saturating_add(1);
        let label = self.unique_label(raw);
        proof {
            let b = old(self)@;
            assert(self@.nodes == b.nodes);
            assert(self@.edges == b.edges);
            assert(self@.clusters == b.clusters);
            assert(self@.stack == b.stack);
            assert(self@.display_next_id == b.display_next_id);
            assert(builder_core_wf(self@));
        }
        let node = NodeDisplay {
            id: self.display_next_id,
            label,
            metadata,
            runtime_node_id: Some(rid),
            is_conditional_branch: false,
            is_select: select,
            is_join: join,
        };
        self.push_node_display(node);
    }

    fn open_cluster(&mut self, kind: ClusterKind, label: String, metadata: Option<String>) -> (index: usize)
        requires
            builder_wf(old(self)@),
        ensures
            index == old(self)@.clusters.len(),
            final(self)@ == open_cluster(old(self)@, kind, label@, opt_string_view(metadata)),
            builder_wf(final(self)@),
    {
        let ghost old_clusters = self.cluster_info@;
        let parent = if self.cluster_stack.len() > 0 {
            Some(self.cluster_stack[self.cluster_stack.len() - 1])
        } else {
            None
        };
        let index = self.cluster_info.len();
        let id = self.cluster_next_id;
        self.cluster_next_id = id.saturating_add(1);
        let depth = self.cluster_stack.len();
        let info = ClusterInfo {
            id,
            kind,
            label,
            metadata,
            parent,
            nodes: Vec::new(),
            root_nodes: Vec::new(),
            depth,
        };
        self.cluster_info.push(info);
        self.cluster_stack.push(index);
        proof {
            assert(self.cluster_info@.map_values(|c: ClusterInfo| c@) =~= old_clusters.map_values(|c: ClusterInfo| c@).push(info@));
            assert(info@.nodes =~= Seq::<u32>::empty());
            assert(info@.root_nodes =~= Seq::<u32>::empty());
            let b = old(self)@;
            let b2 = open_cluster(b, kind, label@, opt_string_view(metadata));
            assert(self@ == b2);
            assert forall|c: int, k: int| 0 <= c < b2.clusters.len() && 0 <= k < b2.clusters[c].nodes.len() implies #[trigger] b2.clusters[c].nodes[k] < b2.nodes.len() by {
                assert(b2.clusters[c] == b.clusters[c]);
            }
            assert forall|c: int, k: int| 0 <= c < b2.clusters.len() && 0 <= k < b2.clusters[c].root_nodes.len() implies #[trigger] b2.clusters[c].root_nodes[k] < b2.nodes.len() by {
                assert(b2.clusters[c] == b.clusters[c]);
            }
            assert forall|c: int| 0 <= c < b2.clusters.len() implies match (#[trigger] b2.clusters[c]).parent {
                Some(p) => p < c,
                None => true,
            } by {
                if c < b.clusters.len() {
                    assert(b2.clusters[c] == b.clusters[c]);
                } else if b.stack.len() > 0 {
                    assert(b.stack[b.stack.len() - 1] < b.clusters.len());
                }
            }
            assert forall|k: int| 0 <= k < b2.stack.len() implies #[trigger] b2.stack[k] < b2.clusters.len() by {
                if k < b.stack.len() {
                    assert(b2.stack[k] == b.stack[k]);
                }
            }
        }
        index
    }

    fn close_cluster(&mut self, index: usize, body: &Flattened)
        requires
            builder_wf(old(self)@),
            index < old(self)@.clusters.len(),
            old(self)@.stack.len() > 0,
            flat_within(body@, 0, old(self)@.nodes.len() as int),
        ensures
            final(self)@ == close_cluster(old(self)@, index as int, body@),
            builder_wf(final(self)@),
    {
        let ghost b = self@;
        let _ = self.cluster_stack.pop();
        let members = dedup(copy_ids(&body.members));
        let roots = dedup(copy_ids(&body.roots));
        proof {
            lemma_dedup_within(body@.members, 0, b.nodes.len() as int);
            lemma_dedup_within(body@.roots, 0, b.nodes.len() as int);
        }
        let mut info = ClusterInfo {
            id: 0,
            kind: ClusterKind::While,
            label: String::new(),
            metadata: None,
            parent: None,
            nodes: Vec::new(),
            root_nodes: Vec::new(),
            depth: 0,
        };
        self.cluster_info.set_and_swap(index, &mut info);
        if members.len() > 0 {
            info.nodes = members;
        }
        info.root_nodes = roots;
        let ghost swapped = self.cluster_info@;
        self.cluster_info.set(index, info);
        proof {
            let b2 = close_cluster(b, index as int, body@);
            assert(self.cluster_info@.map_values(|c: ClusterInfo| c@) =~= b2.clusters);
            assert(self@.stack =~= b2.stack);
            assert(self@ == b2);
            let n = b2.nodes.len();
            assert forall|c: int, k: int| 0 <= c < b2.clusters.len() && 0 <= k < b2.clusters[c].nodes.len() implies #[trigger] b2.clusters[c].nodes[k] < n by {
                if c != index {
                    assert(b2.clusters[c] == b.clusters[c]);
                }
            }
            assert forall|c: int, k: int| 0 <= c < b2.clusters.len() && 0 <= k < b2.clusters[c].root_nodes.len() implies #[trigger] b2.clusters[c].root_nodes[k] < n by {
                if c != index {
                    assert(b2.clusters[c] == b.clusters[c]);
                }
            }
            assert forall|c: int| 0 <= c < b2.clusters.len() implies match (#[trigger] b2.clusters[c]).parent {
                Some(p) => p < c,
                None => true,
            } by {
                assert(b2.clusters[c].parent == b.clusters[c].parent);
            }
            assert forall|k: int| 0 <= k < b2.stack.len() implies #[trigger] b2.stack[k] < b2.clusters.len() by {
                assert(b2.stack[k] == b.stack[k]);
            }
        }
    }
}


proof fn lemma_within_widen(s: Seq<u32>, lo: int, hi: int, lo2: int, hi2: int)
    requires
        ids_within(s, lo, hi),
        lo2 <= lo,
        hi <= hi2,
    ensures
        ids_within(s, lo2, hi2),
{
}

proof fn lemma_within_concat(a: Seq<u32>, b: Seq<u32>, lo: int, hi: int)
    requires
        ids_within(a, lo, hi),
        ids_within(b, lo, hi),
    ensures
        ids_within(a + b, lo, hi),
{
    assert forall|k: int| 0 <= k < (a + b).len() implies lo <= #[trigger] (a + b)[k] < hi by {
        if k >= a.len() {
            assert((a + b)[k] == b[k - a.len()]);
        }
    }
}

impl GraphBuilder {
    /// Adds the nodes, edges and clusters of `ast` to the graph and reports
    /// the subflow's entry points, exit points and members.
    fn flatten(&mut self, ast: &JourneyAst) -> (out: Flattened)
        requires
            builder_wf(old(self)@),
            old(self)@.nodes.len() + node_count(*ast) < u32::MAX,
        ensures
            (final(self)@, out@) == flatten_spec(old(self)@, *ast),
            builder_wf(final(self)@),
            final(self)@.nodes.len() == old(self)@.nodes.len() + node_count(*ast),
            final(self)@.stack == old(self)@.stack,
            final(self)@.clusters.len() >= old(self)@.clusters.len(),
            flat_within(out@, old(self)@.nodes.len() as int, final(self)@.nodes.len() as int),
        decreases ast,
    {
        let ghost b0 = self@;
        let ghost n0 = self@.nodes.len() as int;
        match ast {
            JourneyAst::Empty => {
                let out = Flattened { roots: Vec::new(), exits: Vec::new(), members: Vec::new() };
                assert(out@ == empty_flat());
                out
            },
            JourneyAst::Sequence(items) => {
                let mut acc = Flattened { roots: Vec::new(), exits: Vec::new(), members: Vec::new() };
                let mut prev: Vec<u32> = Vec::new();
                let mut i: usize = 0;
                proof {
                    assert(acc@ == empty_flat());
                    assert(items@.skip(0) =~= items@);
                }
                while i < items.len()
                    invariant
                        i <= items.len(),
                        flatten_spec(b0, *ast) == flatten_seq(self@, items@.skip(i as int), acc@, prev@),
                        *ast == JourneyAst::Sequence(*items),
                        builder_wf(self@),
                        n0 == b0.nodes.len(),
                        n0 <= self@.nodes.len(),
                        n0 + node_count(*ast) < u32::MAX,
                        node_count(*ast) == node_count_seq(items@),
                        n0 + node_count_seq(items@) == self@.nodes.len() + node_count_seq(items@.skip(i as int)),
                        self@.stack == b0.stack,
                        self@.clusters.len() >= b0.clusters.len(),
                        flat_within(acc@, n0, self@.nodes.len() as int),
                        ids_within(prev@, n0, self@.nodes.len() as int),
                    decreases items.len() - i,
                {
                    let ghost rest = items@.skip(i as int);
                    let ghost before = self@;
                    proof {
                        assert(rest[0] == items@[i as int]);
                        assert(rest.skip(1) =~= items@.skip(i as int + 1));
                    }
                    let current = self.flatten(&items[i]);
                    let ghost mid = self@;
                    proof {
                        lemma_within_widen(acc@.roots, n0, before.nodes.len() as int, n0, mid.nodes.len() as int);
                        lemma_within_widen(acc@.exits, n0, before.nodes.len() as int, n0, mid.nodes.len() as int);
                        lemma_within_widen(acc@.members, n0, before.nodes.len() as int, n0, mid.nodes.len() as int);
                        lemma_within_widen(prev@, n0, before.nodes.len() as int, n0, mid.nodes.len() as int);
                        lemma_within_widen(current@.roots, before.nodes.len() as int, mid.nodes.len() as int, n0, mid.nodes.len() as int);
                        lemma_within_widen(current@.exits, before.nodes.len() as int, mid.nodes.len() as int, n0, mid.nodes.len() as int);
                        lemma_within_widen(current@.members, before.nodes.len() as int, mid.nodes.len() as int, n0, mid.nodes.len() as int);
                    }
                    if current.roots.len() > 0 {
                        if acc.roots.len() == 0 {
                            acc.roots = copy_ids(&current.roots);
                        }
                        proof {
                            lemma_within_widen(prev@, n0, mid.nodes.len() as int, 0, mid.nodes.len() as int);
                            lemma_within_widen(current@.roots, n0, mid.nodes.len() as int, 0, mid.nodes.len() as int);
                            lemma_cross_within(prev@, current@.roots, mid.nodes.len() as int);
                            lemma_add_edges_wf(mid, cross_edges(prev@, current@.roots));
                        }
                        self.push_cross_edges(&prev, &current.roots);
                        prev = copy_ids(&current.exits);
                        let ghost old_members = acc@.members;
                        let Flattened { roots: _, exits: cur_exits, members: cur_members } = current;
                        acc.exits = cur_exits;
                        let mut cur_members = cur_members;
                        acc.members.append(&mut cur_members);
                        proof {
                            lemma_within_concat(old_members, current@.members, n0, mid.nodes.len() as int);
                        }
                    }
                    i = i + 1;
                }
                proof {
                    assert(items@.skip(i as int) =~= Seq::<JourneyAst>::empty());
                }
                acc
            },
            JourneyAst::Step { label } => {
                let id = self.display_next_id;
                self.push_runtime_node(String::from_str(label), None, false, false);
                let out = Flattened { roots: vec![id], exits: vec![id], members: vec![id] };
                assert(out@.roots =~= seq![id]);
                assert(out@.exits =~= seq![id]);
                assert(out@.members =~= seq![id]);
                out
            },
            JourneyAst::Conditional { label, metadata, left, right } => {
                let id = self.display_next_id;
                let node = NodeDisplay {
                    id,
                    label: decorated_label(String::new(), label, metadata),
                    metadata: metadata_of(metadata),
                    runtime_node_id: None,
                    is_conditional_branch: true,
                    is_select: false,
                    is_join: false,
                };
                proof {
                    assert(Seq::<char>::empty() + short_type_name_spec(label@) =~= short_type_name_spec(label@));
                }
                self.push_node_display(node);
                let left_flow = self.flatten(left);
                let right_flow = self.flatten(right);
                self.finish_fork(id, left_flow, right_flow, true)
            },
            JourneyAst::While { label, metadata, body } => {
                let cluster_label = decorated_label(while_prefix_text(), label, metadata);
                let index = self.open_cluster(ClusterKind::While, cluster_label, metadata_of(metadata));
                let body_flow = self.flatten(body);
                proof {
                    lemma_within_widen(body_flow@.roots, n0, self@.nodes.len() as int, 0, self@.nodes.len() as int);
                    lemma_within_widen(body_flow@.exits, n0, self@.nodes.len() as int, 0, self@.nodes.len() as int);
                    lemma_within_widen(body_flow@.members, n0, self@.nodes.len() as int, 0, self@.nodes.len() as int);
                }
                self.close_cluster(index, &body_flow);
                proof {
                    lemma_cross_within(body_flow@.exits, body_flow@.roots, self@.nodes.len() as int);
                    lemma_add_edges_wf(self@, cross_edges(body_flow@.exits, body_flow@.roots));
                }
                self.push_cross_edges(&body_flow.exits, &body_flow.roots);
                proof {
                    assert(self@.stack =~= b0.stack);
                }
                body_flow
            },
            JourneyAst::Transparent { label, metadata, body } => {
                let cluster_label = decorated_label(transparent_prefix_text(), label, metadata);
                let index = self.open_cluster(ClusterKind::Transparent, cluster_label, metadata_of(metadata));
                let body_flow = self.flatten(body);
                proof {
                    lemma_within_widen(body_flow@.roots, n0, self@.nodes.len() as int, 0, self@.nodes.len() as int);
                    lemma_within_widen(body_flow@.exits, n0, self@.nodes.len() as int, 0, self@.nodes.len() as int);
                    lemma_within_widen(body_flow@.members, n0, self@.nodes.len() as int, 0, self@.nodes.len() as int);
                }
                self.close_cluster(index, &body_flow);
                proof {
                    assert(self@.stack =~= b0.stack);
                }
                body_flow
            },
            JourneyAst::Select { label, metadata, left, right } => {
                let id = self.display_next_id;
                self.push_runtime_node(raw_label(label, metadata), metadata_of(metadata), true, false);
                let left_flow = self.flatten(left);
                let right_flow = self.flatten(right);
                self.finish_fork(id, left_flow, right_flow, false)
            },
            JourneyAst::Join { label, metadata, left, right } => {
                let id = self.display_next_id;
                self.push_runtime_node(raw_label(label, metadata), metadata_of(metadata), false, true);
                let left_flow = self.flatten(left);
                let right_flow = self.flatten(right);
                self.finish_fork(id, left_flow, right_flow, false)
            },
        }
    }

    /// Links node `id` to the roots of both branches and reports the fork's
    /// flattened shape: its exits are the deduplicated branch exits when
    /// `conditional`, and the fork node itself otherwise.
    fn finish_fork(&mut self, id: u32, left: Flattened, right: Flattened, conditional: bool) -> (out: Flattened)
        requires
            builder_wf(old(self)@),
            id < old(self)@.nodes.len(),
            flat_within(left@, (id as int), old(self)@.nodes.len() as int),
            flat_within(right@, (id as int), old(self)@.nodes.len() as int),
        ensures
            final(self)@ == add_edges(old(self)@, cross_edges(seq![id], left@.roots) + cross_edges(seq![id], right@.roots)),
            builder_wf(final(self)@),
            out@.roots == seq![id],
            out@.members == seq![id] + left@.members + right@.members,
            conditional ==> out@.exits == dedup_spec(left@.exits + right@.exits),
            !conditional ==> out@.exits == seq![id],
            flat_within(out@, (id as int), final(self)@.nodes.len() as int),
    {
        let ghost b = self@;
        let ghost n = b.nodes.len() as int;
        let ids = vec![id];
        proof {
            assert(ids@ =~= seq![id]);
            lemma_within_widen(left@.roots, (id as int), n, 0, n);
            lemma_within_widen(right@.roots, (id as int), n, 0, n);
            lemma_cross_within(seq![id], left@.roots, n);
            lemma_cross_within(seq![id], right@.roots, n);
            lemma_add_edges_wf(b, cross_edges(seq![id], left@.roots));
            lemma_add_edges_wf(add_edges(b, cross_edges(seq![id], left@.roots)), cross_edges(seq![id], right@.roots));
        }
        self.push_cross_edges(&ids, &left.roots);
        self.push_cross_edges(&ids, &right.roots);
        proof {
            assert(b.edges + cross_edges(seq![id], left@.roots) + cross_edges(seq![id], right@.roots) =~= b.edges + (
            cross_edges(seq![id], left@.roots) + cross_edges(seq![id], right@.roots)));
        }
        let ghost lm = left@.members;
        let ghost rm = right@.members;
        let ghost le = left@.exits;
        let ghost re = right@.exits;
        let Flattened { roots: _, exits: left_exits, members: left_members } = left;
        let Flattened { roots: _, exits: right_exits, members: right_members } = right;
        let mut members = vec![id];
        let mut left_members = left_members;
        let mut right_members = right_members;
        members.append(&mut left_members);
        members.append(&mut right_members);
        proof {
            assert(members@ =~= seq![id] + lm + rm);
            lemma_within_concat(seq![id], lm, (id as int), n);
            lemma_within_concat(seq![id] + lm, rm, (id as int), n);
        }
        let exits = if conditional {
            let mut exits = left_exits;
            let mut right_exits = right_exits;
            exits.append(&mut right_exits);
            proof {
                lemma_within_concat(le, re, (id as int), n);
                lemma_dedup_within(le + re, (id as int), n);
            }
            dedup(exits)
        } else {
            vec![id]
        };
        let out = Flattened { roots: vec![id], exits, members };
        assert(out@.roots =~= seq![id]);
        assert(!conditional ==> out@.exits =~= seq![id]);
        out
    }
}


/// The display graph of a journey: nodes whose ids equal their positions,
/// edges between them, and the clusters drawn around loop bodies and
/// transparent boundaries.
pub struct GraphModel {
    pub nodes: Vec<NodeDisplay>,
    pub edges: Vec<(u32, u32)>,
    pub cluster_info: Vec<ClusterInfo>,
}

/// Mathematical model of a [`GraphModel`].
pub struct GraphModelView {
    pub nodes: Seq<NodeView>,
    pub edges: Seq<(u32, u32)>,
    pub clusters: Seq<ClusterInfoView>,
}

impl View for GraphModel {
    type V = GraphModelView;

    open spec fn view(&self) -> GraphModelView {
        GraphModelView {
            nodes: self.nodes@.map_values(|n: NodeDisplay| n@),
            edges: self.edges@,
            clusters: self.cluster_info@.map_values(|c: ClusterInfo| c@),
        }
    }
}

/// The display graph that a walk of `ast` builds.
pub open spec fn graph_of(ast: JourneyAst) -> GraphModelView {
    let b = flatten_spec(empty_builder(), ast).0;
    GraphModelView { nodes: b.nodes, edges: b.edges, clusters: b.clusters }
}

/// The structural guarantees of a display graph: ids are dense and equal to
/// positions (so they are unique), and every edge endpoint, cluster member,
/// cluster root and cluster parent refers to an existing node or cluster.
pub open spec fn graph_well_formed(g: GraphModelView) -> bool {
    &&& forall|i: int| 0 <= i < g.nodes.len() ==> (#[trigger] g.nodes[i]).id == i
    &&& forall|i: int| 0 <= i < g.edges.len() ==> (#[trigger] g.edges[i]).0 < g.nodes.len() && g.edges[i].1 < g.nodes.len()
    &&& forall|c: int, k: int| 0 <= c < g.clusters.len() && 0 <= k < g.clusters[c].nodes.len() ==> #[trigger] g.clusters[c].nodes[k] < g.nodes.len()
    &&& forall|c: int, k: int| 0 <= c < g.clusters.len() && 0 <= k < g.clusters[c].root_nodes.len() ==> #[trigger] g.clusters[c].root_nodes[k] < g.nodes.len()
    &&& forall|c: int| 0 <= c < g.clusters.len() ==> match (#[trigger] g.clusters[c]).parent {
        Some(p) => p < c,
        None => true,
    }
}

impl GraphModel {
    /// Lays out `ast` as a display graph. Steps, selects and joins become
    /// runtime-backed nodes, conditionals become branch nodes, sequences link
    /// each part's exits to the next part's roots, loops link their body's
    /// exits back to its roots, and loops and transparent boundaries become
    /// clusters.
    pub fn from_ast(ast: JourneyAst) -> (model: GraphModel)
        requires
            node_count(ast) < u32::MAX,
        ensures
            model@ == graph_of(ast),
            model@.nodes.len() == node_count(ast),
            graph_well_formed(model@),
    {
        let mut builder = GraphBuilder::new();
        let _ = builder.flatten(&ast);
        let ghost b = builder@;
        let GraphBuilder { nodes, edges, cluster_info, .. } = builder;
        let model = GraphModel { nodes, edges, cluster_info };
        proof {
            assert(model@.nodes == b.nodes);
            assert(model@.edges == b.edges);
            assert(model@.clusters == b.clusters);
            assert(builder_core_wf(b));
        }
        model
    }

    /// The node whose display id is `id`, if there is one.
    pub fn node(&self, id: u32) -> (node: Option<&NodeDisplay>)
        requires
            graph_well_formed(self@),
        ensures
            match node {
                Some(n) => (id as int) < self@.nodes.len() && n@ == self@.nodes[id as int],
                None => id >= self@.nodes.len(),
            },
    {
        if (id as usize) < self.nodes.len() {
            Some(&self.nodes[id as usize])
        } else {
            None
        }
    }
}

/// A node of the debug graph: its display id and label.
pub struct DebugGraphNode {
    pub id: u32,
    pub label: String,
}

/// A plain copy of a display graph, for inspecting layouts.
pub struct DebugGraph {
    pub nodes: Vec<DebugGraphNode>,
    pub edges: Vec<(u32, u32)>,
    pub while_clusters: Vec<Vec<u32>>,
}

impl DebugGraph {
    /// Copies the nodes (id and label), the edges and the member lists of the
    /// clusters of `model`.
    pub fn from_model(model: &GraphModel) -> (g: DebugGraph)
        ensures
            g.nodes.len() == model@.nodes.len(),
            forall|i: int| 0 <= i < g.nodes.len() ==> (#[trigger] g.nodes@[i]).id == model@.nodes[i].id
                && g.nodes@[i].label@ == model@.nodes[i].label,
            g.edges@ == model@.edges,
            g.while_clusters.len() == model@.clusters.len(),
            forall|i: int| 0 <= i < g.while_clusters.len() ==> (#[trigger] g.while_clusters@[i])@ == model@.clusters[i].nodes,
    {
        let mut nodes: Vec<DebugGraphNode> = Vec::new();
        let mut i: usize = 0;
        while i < model.nodes.len()
            invariant
                i <= model.nodes.len(),
                nodes.len() == i,
                forall|k: int| 0 <= k < i ==> (#[trigger] nodes@[k]).id == model@.nodes[k].id && nodes@[k].label@ == model@.nodes[k].label,
            decreases model.nodes.len() - i,
        {
            nodes.push(DebugGraphNode { id: model.nodes[i].id, label: model.nodes[i].label.clone() });
            i = i + 1;
        }
        let edges = copy_edges(&model.edges);
        let mut while_clusters: Vec<Vec<u32>> = Vec::new();
        let mut c: usize = 0;
        while c < model.cluster_info.len()
            invariant
                c <= model.cluster_info.len(),
                while_clusters.len() == c,
                forall|k: int| 0 <= k < c ==> (#[trigger] while_clusters@[k])@ == model@.clusters[k].nodes,
            decreases model.cluster_info.len() - c,
        {
            while_clusters.push(copy_ids(&model.cluster_info[c].nodes));
            c = c + 1;
        }
        DebugGraph { nodes, edges, while_clusters }
    }

    /// The debug graph of the display graph laid out from `ast`.
    pub fn from_ast(ast: JourneyAst) -> (g: DebugGraph)
        requires
            node_count(ast) < u32::MAX,
        ensures
            g.nodes.len() == graph_of(ast).nodes.len(),
            forall|i: int| 0 <= i < g.nodes.len() ==> (#[trigger] g.nodes@[i]).id == graph_of(ast).nodes[i].id
                && g.nodes@[i].label@ == graph_of(ast).nodes[i].label,
            g.edges@ == graph_of(ast).edges,
            g.while_clusters.len() == graph_of(ast).clusters.len(),
            forall|i: int| 0 <= i < g.while_clusters.len() ==> (#[trigger] g.while_clusters@[i])@ == graph_of(ast).clusters[i].nodes,
    {
        let model = GraphModel::from_ast(ast);
        DebugGraph::from_model(&model)
    }
}

fn copy_edges(v: &Vec<(u32, u32)>) -> (out: Vec<(u32, u32)>)
    ensures
        out@ == v@,
{
    let mut out: Vec<(u32, u32)> = Vec::new();
    let mut i: usize = 0;
    while i < v.len()
        invariant
            i <= v.len(),
            out@ == v@.take(i as int),
        decreases v.len() - i,
    {
        out.push(v[i]);
        proof {
            assert(v@.take(i as int + 1) =~= v@.take(i as int).push(v@[i as int]));
        }
        i = i + 1;
    }
    proof {
        assert(v@.take(i as int) =~= v@);
    }
    out
}

} // verus!
