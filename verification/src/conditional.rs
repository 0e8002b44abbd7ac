use crate::envelope::{
    copy_bytes, either_decode_spec, either_envelope_spec, encode_conditional_emitted, lemma_envelope_roundtrip,
    opt_bytes_view, ActiveBranch,
};
use crate::lifecycle::{enter_spec, finish_spec, initial_lifecycle, LifecycleState, LifecycleView};
use crate::transport::NodeLifecyclePhase;
use vstd::prelude::*;

verus! {

/// The control state of a conditional: the lengths of its two branches,
/// the branch chosen for this run and the position in it, the tagged value
/// kept for when the run is settled, and the node's own lifecycle.
pub struct ConditionalProgress {
    lifecycle: LifecycleState,
    node_id: u32,
    left_len: usize,
    right_len: usize,
    active_branch: Option<ActiveBranch>,
    cursor: usize,
    deferred_emitted: Option<Vec<u8>>,
}

/// Mathematical model of a [`ConditionalProgress`].
pub struct ConditionalView {
    pub node_id: u32,
    pub left_len: usize,
    pub right_len: usize,
    pub active_branch: Option<ActiveBranch>,
    pub cursor: usize,
    pub deferred_emitted: Option<Seq<u8>>,
    pub lifecycle: LifecycleView,
}

impl View for ConditionalProgress {
    type V = ConditionalView;

    closed spec fn view(&self) -> ConditionalView {
        ConditionalView {
            node_id: self.node_id,
            left_len: self.left_len,
            right_len: self.right_len,
            active_branch: self.active_branch,
            cursor: self.cursor,
            deferred_emitted: opt_bytes_view(self.deferred_emitted),
            lifecycle: self.lifecycle@,
        }
    }
}

/// The length of the chosen branch; no branch has length zero.
pub open spec fn branch_len_spec(v: ConditionalView) -> nat {
    match v.active_branch {
        Some(ActiveBranch::Left) => v.left_len as nat,
        Some(ActiveBranch::Right) => v.right_len as nat,
        None => 0,
    }
}

/// Before a branch is chosen nothing has run; afterwards the position
/// never passes the chosen branch's end, and a kept value is the branch's
/// last value tagged with the branch.
pub open spec fn conditional_wf(v: ConditionalView) -> bool {
    &&& v.active_branch is None ==> v.cursor == 0 && v.deferred_emitted is None
    &&& v.cursor <= branch_len_spec(v)
    &&& v.deferred_emitted matches Some(d) ==> v.active_branch matches Some(b) && exists|last: Seq<u8>|
        #![trigger either_envelope_spec(b, last)]
        d == either_envelope_spec(b, last) && last.len() <= u64::MAX
}

/// A run has ended once a branch is chosen and all its nodes have run.
pub open spec fn conditional_complete(v: ConditionalView) -> bool {
    v.active_branch is Some && v.cursor >= branch_len_spec(v)
}

/// The position advanced past a node that finished.
pub open spec fn advance(v: ConditionalView) -> ConditionalView {
    ConditionalView { cursor: (v.cursor + 1) as usize, ..v }
}

/// A run ending with `last` as the chosen branch's last value: the value,
/// tagged with the branch, is kept, and the activation succeeds.
pub open spec fn conclude(v: ConditionalView, last: Seq<u8>) -> ConditionalView {
    ConditionalView {
        deferred_emitted: Some(either_envelope_spec(v.active_branch->0, last)),
        lifecycle: finish_spec(v.lifecycle, NodeLifecyclePhase::Succeeded),
        ..v
    }
}

/// What a conditional does after its current node finished inline.
#[derive(Debug, Clone, Copy, PartialEq, Eq, Structural)]
pub enum ConditionalStep {
    /// Ask the next node of the chosen branch.
    Continue,
    /// Answer that no request can be made now.
    Complete,
}

/// How a conditional takes a node of its branch that answered `Complete`
/// and was then settled inline, giving `emitted` and `completed`: the
/// branch input becomes the emitted value, if any; a node that completed
/// is passed, and passing the last one ends the run with the input tagged
/// by the branch; a node that did not complete ends the request.
pub open spec fn inline_spec(v: ConditionalView, input: Seq<u8>, emitted: Option<Seq<u8>>, completed: bool) -> (
    ConditionalView,
    ConditionalStep,
    Seq<u8>,
) {
    let next_input = match emitted {
        Some(e) => e,
        None => input,
    };
    if completed {
        let a = advance(v);
        if a.cursor >= branch_len_spec(a) {
            (conclude(a, next_input), ConditionalStep::Complete, next_input)
        } else {
            (a, ConditionalStep::Continue, next_input)
        }
    } else {
        (v, ConditionalStep::Complete, next_input)
    }
}

/// How a conditional takes the result of a completion given to its current
/// node: a node that completed is passed, and when it was the last, the
/// node's value, tagged by the branch, is both kept and emitted.
pub open spec fn completion_spec(v: ConditionalView, node_complete: bool, emitted: Seq<u8>) -> (ConditionalView, Seq<u8>) {
    if node_complete {
        let a = advance(v);
        if a.cursor >= branch_len_spec(a) {
            (conclude(a, emitted), either_envelope_spec(v.active_branch->0, emitted))
        } else {
            (a, emitted)
        }
    } else {
        (v, emitted)
    }
}

/// What settling a conditional without a request gives.
#[derive(Debug)]
pub enum ConditionalSettle {
    /// The run has ended; the kept value, if any, is handed out.
    Finished(Option<Vec<u8>>),
    /// No branch has been chosen yet.
    Idle,
    /// The current node of the chosen branch is to be settled.
    AskNode,
}

/// How a conditional takes its current node settled without a request:
/// a node that did not complete passes on what it emitted; passing the last
/// node ends the run, and the node's value, if any, tagged by the branch, is
/// kept and emitted.
pub open spec fn settle_node_spec(v: ConditionalView, emitted: Option<Seq<u8>>, completed: bool) -> (
    ConditionalView,
    Option<Seq<u8>>,
    bool,
) {
    if !completed {
        (v, emitted, false)
    } else {
        let a = advance(v);
        if a.cursor >= branch_len_spec(a) {
            let out = match emitted {
                Some(e) => Some(either_envelope_spec(v.active_branch->0, e)),
                None => None,
            };
            (
                ConditionalView {
                    deferred_emitted: out,
                    lifecycle: finish_spec(a.lifecycle, NodeLifecyclePhase::Succeeded),
                    ..a
                },
                out,
                true,
            )
        } else {
            (a, emitted, false)
        }
    }
}

impl ConditionalProgress {
    /// A conditional over branches of `left_len` and `right_len` nodes.
    pub fn new(left_len: usize, right_len: usize) -> (c: ConditionalProgress)
        ensures
            c@ == (ConditionalView {
                node_id: 0,
                left_len,
                right_len,
                active_branch: None,
                cursor: 0,
                deferred_emitted: None,
                lifecycle: initial_lifecycle(),
            }),
            conditional_wf(c@),
    {
        ConditionalProgress {
            lifecycle: LifecycleState::new(),
            node_id: 0,
            left_len,
            right_len,
            active_branch: None,
            cursor: 0,
            deferred_emitted: None,
        }
    }

    /// The number of nodes of the chosen branch.
    pub fn branch_len(&self) -> (n: usize)
        ensures
            n == branch_len_spec(self@),
    {
        match self.active_branch {
            Some(ActiveBranch::Left) => self.left_len,
            Some(ActiveBranch::Right) => self.right_len,
            None => 0,
        }
    }

    pub fn active_branch(&self) -> (b: Option<ActiveBranch>)
        ensures
            b == self@.active_branch,
    {
        self.active_branch
    }

    /// Whether the run has ended.
    pub fn is_complete(&self) -> (b: bool)
        ensures
            b == conditional_complete(self@),
    {
        self.active_branch.is_some() && self.cursor >= self.branch_len()
    }

    /// The position of the node of the chosen branch to ask next, if the
    /// branch has one left.
    pub fn current_node(&self) -> (i: Option<usize>)
        ensures
            i == (if self@.cursor < branch_len_spec(self@) { Some(self@.cursor) } else { None::<usize> }),
    {
        if self.cursor < self.branch_len() {
            Some(self.cursor)
        } else {
            None
        }
    }

    /// Chooses the branch of this run and enters the node's activation.
    pub fn pick_branch(&mut self, choose_left: bool)
        requires
            conditional_wf(old(self)@),
            old(self)@.active_branch is None,
        ensures
            final(self)@ == (ConditionalView {
                active_branch: Some(if choose_left { ActiveBranch::Left } else { ActiveBranch::Right }),
                lifecycle: enter_spec(old(self)@.lifecycle),
                ..old(self)@
            }),
            conditional_wf(final(self)@),
    {
        self.lifecycle.enter();
        self.active_branch = Some(if choose_left { ActiveBranch::Left } else { ActiveBranch::Right });
    }

    /// Records that an action of the chosen branch failed.
    pub fn fail(&mut self)
        requires
            conditional_wf(old(self)@),
        ensures
            final(self)@ == (ConditionalView {
                lifecycle: finish_spec(old(self)@.lifecycle, NodeLifecyclePhase::Failed),
                ..old(self)@
            }),
            conditional_wf(final(self)@),
    {
        self.lifecycle.fail();
    }

    /// Takes a node that answered `Complete` and was settled inline, with
    /// `input` the branch input so far; gives the next step and the branch
    /// input that follows.
    pub fn after_inline_complete(&mut self, input: Vec<u8>, emitted: Option<Vec<u8>>, completed: bool) -> (r: (
        ConditionalStep,
        Vec<u8>,
    ))
        requires
            conditional_wf(old(self)@),
            old(self)@.active_branch is Some,
            old(self)@.cursor < branch_len_spec(old(self)@),
        ensures
            (final(self)@, r.0, r.1@) == inline_spec(old(self)@, input@, opt_bytes_view(emitted), completed),
            conditional_wf(final(self)@),
    {
        let next_input = match emitted {
            Some(e) => e,
            None => input,
        };
        if completed {
            self.cursor = self.cursor + 1;
            if self.cursor >= self.branch_len() {
                let branch = self.active_branch.unwrap();
                let last_len = next_input.len();
                let tagged = encode_conditional_emitted(branch, copy_bytes(&next_input));
                self.deferred_emitted = Some(tagged);
                self.lifecycle.succeed();
                assert(last_len <= u64::MAX);
                (ConditionalStep::Complete, next_input)
            } else {
                (ConditionalStep::Continue, next_input)
            }
        } else {
            (ConditionalStep::Complete, next_input)
        }
    }

    /// Takes the result of a completion given to the current node: whether
    /// the node completed, and what it emitted; gives what the conditional
    /// emits.
    pub fn after_completion(&mut self, node_complete: bool, emitted: Vec<u8>) -> (out: Vec<u8>)
        requires
            conditional_wf(old(self)@),
            old(self)@.cursor < branch_len_spec(old(self)@),
        ensures
            (final(self)@, out@) == completion_spec(old(self)@, node_complete, emitted@),
            conditional_wf(final(self)@),
    {
        if node_complete {
            self.cursor = self.cursor + 1;
            if self.cursor >= self.branch_len() {
                let branch = self.active_branch.unwrap();
                let last_len = emitted.len();
                assert(last_len <= u64::MAX);
                let tagged = encode_conditional_emitted(branch, emitted);
                self.deferred_emitted = Some(copy_bytes(&tagged));
                self.lifecycle.succeed();
                return tagged;
            }
        }
        emitted
    }

    /// The first part of settling without a request.
    pub fn settle_check(&mut self) -> (s: ConditionalSettle)
        requires
            conditional_wf(old(self)@),
        ensures
            conditional_wf(final(self)@),
            conditional_complete(old(self)@) ==> (s matches ConditionalSettle::Finished(d) && opt_bytes_view(d)
                == old(self)@.deferred_emitted && final(self)@ == (ConditionalView {
                deferred_emitted: None,
                lifecycle: finish_spec(old(self)@.lifecycle, NodeLifecyclePhase::Succeeded),
                ..old(self)@
            })),
            !conditional_complete(old(self)@) && old(self)@.active_branch is None ==> s is Idle && final(self)@
                == old(self)@,
            !conditional_complete(old(self)@) && old(self)@.active_branch is Some ==> s is AskNode && final(self)@
                == old(self)@,
    {
        if self.is_complete() {
            self.lifecycle.succeed();
            let d = self.deferred_emitted.take();
            return ConditionalSettle::Finished(d);
        }
        if self.active_branch.is_none() {
            return ConditionalSettle::Idle;
        }
        ConditionalSettle::AskNode
    }

    /// The second part of settling without a request: takes what the
    /// current node gave, and gives what the conditional emits and whether
    /// its run has ended.
    pub fn after_settle_node(&mut self, emitted: Option<Vec<u8>>, completed: bool) -> (r: (Option<Vec<u8>>, bool))
        requires
            conditional_wf(old(self)@),
            old(self)@.active_branch is Some,
            old(self)@.cursor < branch_len_spec(old(self)@),
        ensures
            (final(self)@, opt_bytes_view(r.0), r.1) == settle_node_spec(old(self)@, opt_bytes_view(emitted), completed),
            conditional_wf(final(self)@),
    {
        if !completed {
            return (emitted, false);
        }
        self.cursor = self.cursor + 1;
        if self.cursor >= self.branch_len() {
            let branch = self.active_branch.unwrap();
            let out = match emitted {
                Some(e) => {
                    let last_len = e.len();
                    assert(last_len <= u64::MAX);
                    Some(encode_conditional_emitted(branch, e))
                },
                None => None,
            };
            self.deferred_emitted = match &out {
                Some(o) => Some(copy_bytes(o)),
                None => None,
            };
            self.lifecycle.succeed();
            return (out, true);
        }
        (emitted, false)
    }

    pub fn node_id(&self) -> (id: u32)
        ensures
            id == self@.node_id,
    {
        self.node_id
    }

    /// The path the branch's activations are numbered under: the
    /// conditional's open activation, or the empty path.
    pub fn child_parent_path(&self) -> (path: Vec<u64>)
        ensures
            path@ == match self@.lifecycle.current_activation_path {
                Some(p) => p,
                None => Seq::empty(),
            },
    {
        match self.lifecycle.current_activation_path() {
            Some(p) => vstd::slice::slice_to_vec(p),
            None => Vec::new(),
        }
    }

    /// Gives the conditional node the id `*next_id` and moves `*next_id` on by
    /// one, stopping at the largest `u32`; its branches are numbered from there.
    pub fn assign_node_id(&mut self, next_id: &mut u32)
        requires
            conditional_wf(old(self)@),
        ensures
            final(self)@ == (ConditionalView {
                node_id: *old(next_id),
                lifecycle: LifecycleView { node_id: *old(next_id), ..old(self)@.lifecycle },
                ..old(self)@
            }),
            *final(next_id) == if *old(next_id) == u32::MAX { u32::MAX } else { (*old(next_id) + 1) as u32 },
            conditional_wf(final(self)@),
    {
        self.node_id = *next_id;
        self.lifecycle.set_node_id(*next_id);
        *next_id = next_id.saturating_add(1);
    }

    pub fn set_journey_id(&mut self, journey_id: uuid::Uuid)
        requires
            conditional_wf(old(self)@),
        ensures
            final(self)@ == (ConditionalView {
                lifecycle: LifecycleView { journey_id: Some(journey_id), ..old(self)@.lifecycle },
                ..old(self)@
            }),
            conditional_wf(final(self)@),
    {
        self.lifecycle.set_journey_id(journey_id);
    }

    /// Sets the path the next activation is numbered under; ignored while
    /// one is open.
    pub fn set_parent_activation_path(&mut self, path: &[u64])
        requires
            conditional_wf(old(self)@),
        ensures
            old(self)@.lifecycle.current_activation_path is Some ==> final(self)@ == old(self)@,
            old(self)@.lifecycle.current_activation_path is None ==> final(self)@ == (ConditionalView {
                lifecycle: LifecycleView { parent_activation_path: path@, ..old(self)@.lifecycle },
                ..old(self)@
            }),
            conditional_wf(final(self)@),
    {
        self.lifecycle.set_parent_activation_path(path);
    }

    /// Hands out the node's own recorded lifecycle events and forgets them.
    pub fn take_node_lifecycle_updates(&mut self) -> (updates: Vec<crate::transport::NodeLifecycle>)
        requires
            conditional_wf(old(self)@),
        ensures
            updates@.map_values(|u: crate::transport::NodeLifecycle| u@) == old(self)@.lifecycle.updates,
            final(self)@ == (ConditionalView {
                lifecycle: LifecycleView { updates: Seq::empty(), ..old(self)@.lifecycle },
                ..old(self)@
            }),
            conditional_wf(final(self)@),
    {
        self.lifecycle.take_updates()
    }
}

/// Once a conditional has chosen its branch, nothing it does afterwards
/// changes the choice.
pub proof fn lemma_choice_is_kept(
    v: ConditionalView,
    input: Seq<u8>,
    emitted: Option<Seq<u8>>,
    completed: bool,
    value: Seq<u8>,
)
    requires
        conditional_wf(v),
        v.active_branch is Some,
    ensures
        inline_spec(v, input, emitted, completed).0.active_branch == v.active_branch,
        completion_spec(v, completed, value).0.active_branch == v.active_branch,
        settle_node_spec(v, emitted, completed).0.active_branch == v.active_branch,
{
}

/// When the last node of the chosen branch completes with `value`, the
/// conditional's run ends and it emits, and keeps, the value tagged with
/// the branch, from which reading the envelope gives back the branch and
/// the value.
pub proof fn lemma_conditional_result_reads_back(v: ConditionalView, value: Seq<u8>)
    requires
        conditional_wf(v),
        v.active_branch is Some,
        v.cursor + 1 == branch_len_spec(v),
        value.len() <= u64::MAX,
    ensures
        conditional_complete(completion_spec(v, true, value).0),
        completion_spec(v, true, value).0.deferred_emitted == Some(completion_spec(v, true, value).1),
        either_decode_spec(completion_spec(v, true, value).1) == Some((v.active_branch->0, value)),
{
    let out = completion_spec(v, true, value).1;
    lemma_envelope_roundtrip(v.active_branch->0, value, Seq::empty());
    assert(out + Seq::<u8>::empty() =~= out);
}

} // verus!
