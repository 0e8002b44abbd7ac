use crate::envelope::{opt_bytes_view, push_varint, varint_spec};
use crate::error::Refusal;
use crate::lifecycle::{enter_spec, finish_spec, initial_lifecycle, LifecycleState, LifecycleView};
use crate::transport::NodeLifecyclePhase;
use vstd::prelude::*;

verus! {

/// The request a select sends to race its two branches: the same input
/// for the left and for the right branch, each written as its length and
/// its bytes.
pub open spec fn select_request_spec(input: Seq<u8>) -> Seq<u8> {
    varint_spec(input.len()) + input + varint_spec(input.len()) + input
}

/// What a select emits when the branch tagged `tag` (0 for left, 1 for
/// right) won the race with `emitted`: the tag byte, then the value.
pub open spec fn select_emitted_spec(tag: u8, emitted: Seq<u8>) -> Seq<u8> {
    seq![tag] + emitted
}

/// The race request for `input`.
pub fn encode_select_request(input: &[u8]) -> (bytes: Vec<u8>)
    ensures
        bytes@ == select_request_spec(input@),
{
    let mut out: Vec<u8> = Vec::new();
    let mut round: usize = 0;
    while round < 2
        invariant
            round <= 2,
            round == 0 ==> out@ == Seq::<u8>::empty(),
            round == 1 ==> out@ == varint_spec(input@.len()) + input@,
            round == 2 ==> out@ == select_request_spec(input@),
        decreases 2 - round,
    {
        let ghost before = out@;
        push_varint(&mut out, input.len() as u64);
        let ghost mid = out@;
        let mut i: usize = 0;
        while i < input.len()
            invariant
                i <= input@.len(),
                out@ == mid + input@.take(i as int),
            decreases input.len() - i,
        {
            out.push(input[i]);
            proof {
                assert(input@.take(i as int + 1) =~= input@.take(i as int).push(input@[i as int]));
                assert(mid + input@.take(i as int + 1) =~= (mid + input@.take(i as int)).push(input@[i as int]));
            }
            i = i + 1;
        }
        proof {
            assert(input@.take(i as int) =~= input@);
            assert(out@ =~= before + varint_spec(input@.len()) + input@);
            if round == 0 {
                assert(out@ =~= varint_spec(input@.len()) + input@);
            } else {
                assert(out@ =~= select_request_spec(input@));
            }
        }
        round = round + 1;
    }
    out
}

/// The value a select emits for the winning branch's `emitted` value,
/// `left_won` telling which branch won.
pub fn select_emitted(left_won: bool, emitted: &[u8]) -> (bytes: Vec<u8>)
    ensures
        bytes@ == select_emitted_spec(if left_won { 0u8 } else { 1u8 }, emitted@),
{
    let mut out: Vec<u8> = Vec::new();
    out.push(if left_won { 0u8 } else { 1u8 });
    let ghost head = out@;
    let mut i: usize = 0;
    while i < emitted.len()
        invariant
            i <= emitted@.len(),
            out@ == head + emitted@.take(i as int),
        decreases emitted.len() - i,
    {
        out.push(emitted[i]);
        proof {
            assert(emitted@.take(i as int + 1) =~= emitted@.take(i as int).push(emitted@[i as int]));
            assert(head + emitted@.take(i as int + 1) =~= (head + emitted@.take(i as int)).push(emitted@[i as int]));
        }
        i = i + 1;
    }
    proof {
        assert(emitted@.take(i as int) =~= emitted@);
    }
    out
}

/// The control state of a select, which races its two branches as one
/// request: the input of the race in flight, whether a race is in flight,
/// whether the select is complete, whether the branches' own lifecycle
/// events are dropped after the race was replayed, and the select node's
/// own lifecycle.
pub struct SelectProgress {
    lifecycle: LifecycleState,
    node_id: u32,
    pending_input: Option<Vec<u8>>,
    waiting_completion: bool,
    complete: bool,
    suppress_child_lifecycle_replay: bool,
}

/// Mathematical model of a [`SelectProgress`].
pub struct SelectView {
    pub node_id: u32,
    pub pending_input: Option<Seq<u8>>,
    pub waiting_completion: bool,
    pub complete: bool,
    pub suppress_child_lifecycle_replay: bool,
    pub lifecycle: LifecycleView,
}

impl View for SelectProgress {
    type V = SelectView;

    closed spec fn view(&self) -> SelectView {
        SelectView {
            node_id: self.node_id,
            pending_input: opt_bytes_view(self.pending_input),
            waiting_completion: self.waiting_completion,
            complete: self.complete,
            suppress_child_lifecycle_replay: self.suppress_child_lifecycle_replay,
            lifecycle: self.lifecycle@,
        }
    }
}

/// A race in flight belongs to a select that is not complete.
pub open spec fn select_wf(v: SelectView) -> bool {
    v.waiting_completion ==> !v.complete
}

/// Starting a race on `input`: a complete select, or one with a race in
/// flight, refuses; otherwise the select's activation is entered, the race
/// is in flight with `input` kept, and the branches' own lifecycle events
/// are dropped after the replay exactly when a journey is known.
pub open spec fn start_race_spec(v: SelectView, input: Seq<u8>) -> (SelectView, Option<Refusal>) {
    if v.complete {
        (v, Some(Refusal::Complete))
    } else if v.waiting_completion {
        (v, Some(Refusal::AwaitingCompletion))
    } else {
        (
            SelectView {
                lifecycle: enter_spec(v.lifecycle),
                suppress_child_lifecycle_replay: v.lifecycle.journey_id is Some,
                waiting_completion: true,
                pending_input: Some(input),
                ..v
            },
            None,
        )
    }
}

impl SelectProgress {
    pub fn new() -> (s: SelectProgress)
        ensures
            s@ == (SelectView {
                node_id: 0,
                pending_input: None,
                waiting_completion: false,
                complete: false,
                suppress_child_lifecycle_replay: false,
                lifecycle: initial_lifecycle(),
            }),
            select_wf(s@),
    {
        SelectProgress {
            lifecycle: LifecycleState::new(),
            node_id: 0,
            pending_input: None,
            waiting_completion: false,
            complete: false,
            suppress_child_lifecycle_replay: false,
        }
    }

    pub fn is_complete(&self) -> (b: bool)
        ensures
            b == self@.complete,
    {
        self.complete
    }

    pub fn is_waiting_completion(&self) -> (b: bool)
        ensures
            b == self@.waiting_completion,
    {
        self.waiting_completion
    }

    /// Starts a race on `input`; `None` when it started.
    pub fn start_race(&mut self, input: Vec<u8>) -> (r: Option<Refusal>)
        requires
            select_wf(old(self)@),
        ensures
            (final(self)@, r) == start_race_spec(old(self)@, input@),
            select_wf(final(self)@),
            r is Some ==> *final(self) == *old(self),
    {
        if self.complete {
            return Some(Refusal::Complete);
        }
        if self.waiting_completion {
            return Some(Refusal::AwaitingCompletion);
        }
        self.lifecycle.enter();
        self.suppress_child_lifecycle_replay = self.lifecycle.journey_id().is_some();
        self.waiting_completion = true;
        self.pending_input = Some(input);
        None
    }

    /// Checks that the race's result can be taken, and hands out the input
    /// the race ran on.
    pub fn take_race_input(&mut self) -> (r: Result<Vec<u8>, Refusal>)
        requires
            select_wf(old(self)@),
        ensures
            select_wf(final(self)@),
            old(self)@.complete ==> r == Err::<Vec<u8>, Refusal>(Refusal::Complete) && final(self)@
                == old(self)@,
            !old(self)@.complete && !old(self)@.waiting_completion ==> r == Err::<Vec<u8>, Refusal>(
                Refusal::NoPendingRequest,
            ) && final(self)@ == old(self)@,
            !old(self)@.complete && old(self)@.waiting_completion ==> final(self)@ == (SelectView {
                pending_input: None,
                ..old(self)@
            }) && match old(self)@.pending_input {
                Some(p) => r is Ok && r->Ok_0@ == p,
                None => r == Err::<Vec<u8>, Refusal>(Refusal::NoPendingRequest),
            },
    {
        if self.complete {
            return Err(Refusal::Complete);
        }
        if !self.waiting_completion {
            return Err(Refusal::NoPendingRequest);
        }
        match self.pending_input.take() {
            Some(p) => Ok(p),
            None => Err(Refusal::NoPendingRequest),
        }
    }

    /// Whether the branches' own lifecycle events are to be dropped after
    /// the race was replayed.
    pub fn suppresses_child_lifecycle_replay(&self) -> (b: bool)
        ensures
            b == self@.suppress_child_lifecycle_replay,
    {
        self.suppress_child_lifecycle_replay
    }

    /// The race's result was replayed: the select is complete and its
    /// activation succeeds.
    pub fn finish(&mut self)
        requires
            select_wf(old(self)@),
        ensures
            final(self)@ == (SelectView {
                waiting_completion: false,
                complete: true,
                lifecycle: finish_spec(old(self)@.lifecycle, NodeLifecyclePhase::Succeeded),
                ..old(self)@
            }),
            select_wf(final(self)@),
    {
        self.waiting_completion = false;
        self.complete = true;
        self.lifecycle.succeed();
    }

    /// The path the branches' activations are numbered under: the
    /// select's open activation, or the empty path.
    pub fn child_parent_path(&self) -> (path: Vec<u64>)
        ensures
            path@ == match self@.lifecycle.current_activation_path {
                Some(p) => p,
                None => Seq::empty(),
            },
    {
        match self.lifecycle.current_activation_path() {
            Some(p) => vstd::slice::slice_to_vec(p),
            None => Vec::new(),
        }
    }

    pub fn node_id(&self) -> (id: u32)
        ensures
            id == self@.node_id,
    {
        self.node_id
    }

    /// Gives the select node the id `*next_id` and moves `*next_id` on by
    /// one, stopping at the largest `u32`; its branches are numbered from there.
    pub fn assign_node_id(&mut self, next_id: &mut u32)
        requires
            select_wf(old(self)@),
        ensures
            final(self)@ == (SelectView {
                node_id: *old(next_id),
                lifecycle: LifecycleView { node_id: *old(next_id), ..old(self)@.lifecycle },
                ..old(self)@
            }),
            *final(next_id) == if *old(next_id) == u32::MAX { u32::MAX } else { (*old(next_id) + 1) as u32 },
            select_wf(final(self)@),
    {
        self.node_id = *next_id;
        self.lifecycle.set_node_id(*next_id);
        *next_id = next_id.saturating_add(1);
    }

    pub fn set_journey_id(&mut self, journey_id: uuid::Uuid)
        requires
            select_wf(old(self)@),
        ensures
            final(self)@ == (SelectView {
                lifecycle: LifecycleView { journey_id: Some(journey_id), ..old(self)@.lifecycle },
                ..old(self)@
            }),
            select_wf(final(self)@),
    {
        self.lifecycle.set_journey_id(journey_id);
    }

    /// Sets the path the next activation is numbered under; ignored while
    /// one is open.
    pub fn set_parent_activation_path(&mut self, path: &[u64])
        requires
            select_wf(old(self)@),
        ensures
            old(self)@.lifecycle.current_activation_path is Some ==> final(self)@ == old(self)@,
            old(self)@.lifecycle.current_activation_path is None ==> final(self)@ == (SelectView {
                lifecycle: LifecycleView { parent_activation_path: path@, ..old(self)@.lifecycle },
                ..old(self)@
            }),
            select_wf(final(self)@),
    {
        self.lifecycle.set_parent_activation_path(path);
    }

    /// Hands out the select node's own recorded lifecycle events and forgets them.
    pub fn take_node_lifecycle_updates(&mut self) -> (updates: Vec<crate::transport::NodeLifecycle>)
        requires
            select_wf(old(self)@),
        ensures
            updates@.map_values(|u: crate::transport::NodeLifecycle| u@) == old(self)@.lifecycle.updates,
            final(self)@ == (SelectView {
                lifecycle: LifecycleView { updates: Seq::empty(), ..old(self)@.lifecycle },
                ..old(self)@
            }),
            select_wf(final(self)@),
    {
        self.lifecycle.take_updates()
    }
}

/// A select runs one race: once it started one, it refuses another until
/// the result is taken, and once finished it refuses every later race.
pub proof fn lemma_one_race_at_a_time(v: SelectView, first: Seq<u8>, second: Seq<u8>)
    requires
        select_wf(v),
        !v.complete,
        !v.waiting_completion,
    ensures
        start_race_spec(v, first).1 is None,
        start_race_spec(start_race_spec(v, first).0, second) == (
            start_race_spec(v, first).0,
            Some(Refusal::AwaitingCompletion),
        ),
        start_race_spec(
            SelectView {
                waiting_completion: false,
                complete: true,
                ..start_race_spec(v, first).0
            },
            second,
        ).1 == Some(Refusal::Complete),
{
}

} // verus!
