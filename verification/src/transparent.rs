use crate::envelope::opt_bytes_view;
use crate::error::Refusal;
use crate::lifecycle::{enter_spec, finish_spec, initial_lifecycle, LifecycleState, LifecycleView};
use crate::transport::NodeLifecyclePhase;
use vstd::prelude::*;

verus! {

/// The control state of a transparent boundary around an inner flow: the
/// inner flow's length and the position in it, the value kept for the next
/// step (the current node's input, or the inner flow's last value once the
/// boundary is complete), whether a request is in flight, whether the
/// boundary is complete, and its own lifecycle. Values and failures pass
/// through unchanged.
pub struct TransparentProgress {
    lifecycle: LifecycleState,
    node_id: u32,
    inner_len: usize,
    cursor: usize,
    pending_input: Option<Vec<u8>>,
    waiting_completion: bool,
    complete: bool,
}

/// Mathematical model of a [`TransparentProgress`].
pub struct TransparentView {
    pub node_id: u32,
    pub inner_len: usize,
    pub cursor: usize,
    pub pending_input: Option<Seq<u8>>,
    pub waiting_completion: bool,
    pub complete: bool,
    pub lifecycle: LifecycleView,
}

impl View for TransparentProgress {
    type V = TransparentView;

    closed spec fn view(&self) -> TransparentView {
        TransparentView {
            node_id: self.node_id,
            inner_len: self.inner_len,
            cursor: self.cursor,
            pending_input: opt_bytes_view(self.pending_input),
            waiting_completion: self.waiting_completion,
            complete: self.complete,
            lifecycle: self.lifecycle@,
        }
    }
}

/// The position never passes the inner flow's end; a request in flight
/// belongs to an inner node of a boundary that is not complete.
pub open spec fn transparent_wf(v: TransparentView) -> bool {
    &&& v.cursor <= v.inner_len
    &&& v.waiting_completion ==> v.cursor < v.inner_len && !v.complete
}

/// What settling a boundary without a request starts with.
#[derive(Debug)]
pub enum TransparentSettle {
    /// The boundary is complete; its kept value, if any, is handed out.
    Finished(Option<Vec<u8>>),
    /// A request is in flight, or nothing was started: nothing to do.
    Busy,
    /// Settle the inner flow from the kept input.
    Walk(Vec<u8>),
}

impl TransparentProgress {
    /// A boundary around an inner flow of `inner_len` nodes.
    pub fn new(inner_len: usize) -> (t: TransparentProgress)
        ensures
            t@ == (TransparentView {
                node_id: 0,
                inner_len,
                cursor: 0,
                pending_input: None,
                waiting_completion: false,
                complete: false,
                lifecycle: initial_lifecycle(),
            }),
            transparent_wf(t@),
    {
        TransparentProgress {
            lifecycle: LifecycleState::new(),
            node_id: 0,
            inner_len,
            cursor: 0,
            pending_input: None,
            waiting_completion: false,
            complete: false,
        }
    }

    pub fn is_complete(&self) -> (b: bool)
        ensures
            b == self@.complete,
    {
        self.complete
    }

    pub fn is_waiting_completion(&self) -> (b: bool)
        ensures
            b == self@.waiting_completion,
    {
        self.waiting_completion
    }

    /// The position of the inner node to run next, if one is left.
    pub fn current_node(&self) -> (i: Option<usize>)
        ensures
            i == (if self@.cursor < self@.inner_len { Some(self@.cursor) } else { None::<usize> }),
    {
        if self.cursor < self.inner_len {
            Some(self.cursor)
        } else {
            None
        }
    }

    /// The position in the inner flow.
    pub fn cursor(&self) -> (c: usize)
        ensures
            c == self@.cursor,
    {
        self.cursor
    }

    /// The path the inner nodes' activations are numbered under: the
    /// boundary's open activation, or the empty path.
    pub fn child_parent_path(&self) -> (path: Vec<u64>)
        ensures
            path@ == match self@.lifecycle.current_activation_path {
                Some(p) => p,
                None => Seq::empty(),
            },
    {
        match self.lifecycle.current_activation_path() {
            Some(p) => vstd::slice::slice_to_vec(p),
            None => Vec::new(),
        }
    }

    /// Starts serving a request: a complete boundary, or one with a request
    /// in flight, refuses; otherwise its activation is entered.
    pub fn begin_request(&mut self) -> (r: Option<Refusal>)
        requires
            transparent_wf(old(self)@),
        ensures
            old(self)@.complete ==> r == Some(Refusal::Complete) && final(self)@ == old(self)@,
            !old(self)@.complete && old(self)@.waiting_completion ==> r == Some(Refusal::AwaitingCompletion)
                && final(self)@ == old(self)@,
            !old(self)@.complete && !old(self)@.waiting_completion ==> r is None && final(self)@ == (TransparentView {
                lifecycle: enter_spec(old(self)@.lifecycle),
                ..old(self)@
            }),
            transparent_wf(final(self)@),
            r is Some ==> *final(self) == *old(self),
    {
        if self.complete {
            return Some(Refusal::Complete);
        }
        if self.waiting_completion {
            return Some(Refusal::AwaitingCompletion);
        }
        self.lifecycle.enter();
        None
    }

    /// Moves the position to `cursor`, where settling the inner flow
    /// without a request left it.
    pub fn settled_to(&mut self, cursor: usize)
        requires
            transparent_wf(old(self)@),
            !old(self)@.waiting_completion,
            old(self)@.cursor <= cursor <= old(self)@.inner_len,
        ensures
            final(self)@ == (TransparentView { cursor, ..old(self)@ }),
            transparent_wf(final(self)@),
    {
        self.cursor = cursor;
    }

    /// An action of the inner flow failed: the boundary's activation fails
    /// and the failure passes through.
    pub fn fail(&mut self)
        requires
            transparent_wf(old(self)@),
        ensures
            final(self)@ == (TransparentView {
                lifecycle: finish_spec(old(self)@.lifecycle, NodeLifecyclePhase::Failed),
                ..old(self)@
            }),
            transparent_wf(final(self)@),
    {
        self.lifecycle.fail();
    }

    /// The inner flow ran to its end while serving a request: the boundary
    /// completes, keeps `last` as its value, and its activation succeeds.
    pub fn keep_finished(&mut self, last: Vec<u8>)
        requires
            transparent_wf(old(self)@),
            !old(self)@.waiting_completion,
        ensures
            final(self)@ == (TransparentView {
                complete: true,
                pending_input: Some(last@),
                lifecycle: finish_spec(old(self)@.lifecycle, NodeLifecyclePhase::Succeeded),
                ..old(self)@
            }),
            transparent_wf(final(self)@),
    {
        self.complete = true;
        self.pending_input = Some(last);
        self.lifecycle.succeed();
    }

    /// The current inner node handed out a request made with `input`: the
    /// input is kept and the boundary waits for the completion.
    pub fn handed_request(&mut self, input: Vec<u8>)
        requires
            transparent_wf(old(self)@),
            !old(self)@.complete,
            old(self)@.cursor < old(self)@.inner_len,
        ensures
            final(self)@ == (TransparentView { pending_input: Some(input@), waiting_completion: true, ..old(self)@ }),
            transparent_wf(final(self)@),
    {
        self.pending_input = Some(input);
        self.waiting_completion = true;
    }

    /// The current inner node answered `Complete` and was settled inline,
    /// with `input` its input: what it emitted, or else the input, is kept,
    /// and a node that completed is passed.
    pub fn after_inline_complete(&mut self, input: Vec<u8>, emitted: Option<Vec<u8>>, completed: bool)
        requires
            transparent_wf(old(self)@),
            !old(self)@.waiting_completion,
            old(self)@.cursor < old(self)@.inner_len,
        ensures
            final(self)@ == (TransparentView {
                pending_input: Some(
                    match emitted {
                        Some(e) => e@,
                        None => input@,
                    },
                ),
                cursor: if completed { (old(self)@.cursor + 1) as usize } else { old(self)@.cursor },
                ..old(self)@
            }),
            transparent_wf(final(self)@),
    {
        self.pending_input = Some(
            match emitted {
                Some(e) => e,
                None => input,
            },
        );
        if completed {
            self.cursor = self.cursor + 1;
        }
    }

    /// Checks that a completion can be taken, and hands out the input of
    /// the request it answers: a complete boundary, one with no request in
    /// flight or past its inner flow's end, or one keeping no input, refuses.
    pub fn completion_check(&mut self) -> (r: Result<Vec<u8>, Refusal>)
        requires
            transparent_wf(old(self)@),
        ensures
            transparent_wf(final(self)@),
            old(self)@.complete ==> r == Err::<Vec<u8>, Refusal>(Refusal::Complete) && final(self)@ == old(self)@,
            !old(self)@.complete && !old(self)@.waiting_completion ==> r == Err::<Vec<u8>, Refusal>(
                Refusal::NoPendingRequest,
            ) && final(self)@ == old(self)@,
            !old(self)@.complete && old(self)@.waiting_completion ==> final(self)@ == (TransparentView {
                pending_input: None,
                ..old(self)@
            }) && match old(self)@.pending_input {
                Some(p) => r is Ok && r->Ok_0@ == p,
                None => r == Err::<Vec<u8>, Refusal>(Refusal::NoPendingRequest),
            },
            r is Err ==> *final(self) == *old(self),
    {
        if self.complete {
            return Err(Refusal::Complete);
        }
        if !self.waiting_completion {
            return Err(Refusal::NoPendingRequest);
        }
        if self.cursor >= self.inner_len {
            return Err(Refusal::Complete);
        }
        match self.pending_input.take() {
            None => Err(Refusal::NoPendingRequest),
            Some(p) => Ok(p),
        }
    }

    /// The current inner node took the completion: the request is no
    /// longer in flight, and a node that completed is passed.
    pub fn after_completion(&mut self, node_complete: bool)
        requires
            transparent_wf(old(self)@),
            old(self)@.waiting_completion,
        ensures
            final(self)@ == (TransparentView {
                waiting_completion: false,
                cursor: if node_complete { (old(self)@.cursor + 1) as usize } else { old(self)@.cursor },
                ..old(self)@
            }),
            transparent_wf(final(self)@),
    {
        self.waiting_completion = false;
        if node_complete {
            self.cursor = self.cursor + 1;
        }
    }

    /// The current inner node failed to take the completion: the request
    /// is no longer in flight; an action failure also fails the boundary's
    /// activation, and any other error keeps `input` again.
    pub fn completion_failed(&mut self, action_failure: bool, input: Vec<u8>)
        requires
            transparent_wf(old(self)@),
        ensures
            action_failure ==> final(self)@ == (TransparentView {
                waiting_completion: false,
                lifecycle: finish_spec(old(self)@.lifecycle, NodeLifecyclePhase::Failed),
                ..old(self)@
            }),
            !action_failure ==> final(self)@ == (TransparentView {
                waiting_completion: false,
                pending_input: Some(input@),
                ..old(self)@
            }),
            transparent_wf(final(self)@),
    {
        self.waiting_completion = false;
        if action_failure {
            self.lifecycle.fail();
        } else {
            self.pending_input = Some(input);
        }
    }

    /// After a completion, or a settling walk, the inner flow is checked
    /// for its end: at the end the boundary completes and its activation
    /// succeeds. Tells whether it completed.
    pub fn finish_if_done(&mut self) -> (done: bool)
        requires
            transparent_wf(old(self)@),
            !old(self)@.waiting_completion,
        ensures
            done == (old(self)@.cursor >= old(self)@.inner_len),
            done ==> final(self)@ == (TransparentView {
                complete: true,
                lifecycle: finish_spec(old(self)@.lifecycle, NodeLifecyclePhase::Succeeded),
                ..old(self)@
            }),
            !done ==> final(self)@ == old(self)@,
            transparent_wf(final(self)@),
    {
        if self.cursor >= self.inner_len {
            self.complete = true;
            self.lifecycle.succeed();
            true
        } else {
            false
        }
    }

    /// Keeps `input` as the input of the inner node to run next.
    pub fn keep_input(&mut self, input: Vec<u8>)
        requires
            transparent_wf(old(self)@),
        ensures
            final(self)@ == (TransparentView { pending_input: Some(input@), ..old(self)@ }),
            transparent_wf(final(self)@),
    {
        self.pending_input = Some(input);
    }

    /// The first part of settling without a request.
    pub fn settle_check(&mut self) -> (s: TransparentSettle)
        requires
            transparent_wf(old(self)@),
        ensures
            transparent_wf(final(self)@),
            old(self)@.complete ==> (s matches TransparentSettle::Finished(d) && opt_bytes_view(d)
                == old(self)@.pending_input && final(self)@ == (TransparentView { pending_input: None, ..old(self)@ })),
            !old(self)@.complete && (old(self)@.waiting_completion || old(self)@.pending_input is None) ==> (s is Busy
                && final(self)@ == old(self)@),
            !old(self)@.complete && !old(self)@.waiting_completion && old(self)@.pending_input is Some ==> (s matches TransparentSettle::Walk(
                p,
            ) && Some(p@) == old(self)@.pending_input && final(self)@ == (TransparentView {
                pending_input: None,
                ..old(self)@
            })),
    {
        if self.complete {
            let d = self.pending_input.take();
            return TransparentSettle::Finished(d);
        }
        if self.waiting_completion {
            return TransparentSettle::Busy;
        }
        match self.pending_input.take() {
            None => TransparentSettle::Busy,
            Some(p) => TransparentSettle::Walk(p),
        }
    }

    pub fn node_id(&self) -> (id: u32)
        ensures
            id == self@.node_id,
    {
        self.node_id
    }

    /// Gives the boundary node the id `*next_id` and moves `*next_id` on by
    /// one, stopping at the largest `u32`; its inner nodes are numbered from there.
    pub fn assign_node_id(&mut self, next_id: &mut u32)
        requires
            transparent_wf(old(self)@),
        ensures
            final(self)@ == (TransparentView {
                node_id: *old(next_id),
                lifecycle: LifecycleView { node_id: *old(next_id), ..old(self)@.lifecycle },
                ..old(self)@
            }),
            *final(next_id) == if *old(next_id) == u32::MAX { u32::MAX } else { (*old(next_id) + 1) as u32 },
            transparent_wf(final(self)@),
    {
        self.node_id = *next_id;
        self.lifecycle.set_node_id(*next_id);
        *next_id = next_id.saturating_add(1);
    }

    pub fn set_journey_id(&mut self, journey_id: uuid::Uuid)
        requires
            transparent_wf(old(self)@),
        ensures
            final(self)@ == (TransparentView {
                lifecycle: LifecycleView { journey_id: Some(journey_id), ..old(self)@.lifecycle },
                ..old(self)@
            }),
            transparent_wf(final(self)@),
    {
        self.lifecycle.set_journey_id(journey_id);
    }

    /// Sets the path the next activation is numbered under; ignored while
    /// one is open.
    pub fn set_parent_activation_path(&mut self, path: &[u64])
        requires
            transparent_wf(old(self)@),
        ensures
            old(self)@.lifecycle.current_activation_path is Some ==> final(self)@ == old(self)@,
            old(self)@.lifecycle.current_activation_path is None ==> final(self)@ == (TransparentView {
                lifecycle: LifecycleView { parent_activation_path: path@, ..old(self)@.lifecycle },
                ..old(self)@
            }),
            transparent_wf(final(self)@),
    {
        self.lifecycle.set_parent_activation_path(path);
    }

    /// Hands out the boundary node's own recorded lifecycle events and forgets them.
    pub fn take_node_lifecycle_updates(&mut self) -> (updates: Vec<crate::transport::NodeLifecycle>)
        requires
            transparent_wf(old(self)@),
        ensures
            updates@.map_values(|u: crate::transport::NodeLifecycle| u@) == old(self)@.lifecycle.updates,
            final(self)@ == (TransparentView {
                lifecycle: LifecycleView { updates: Seq::empty(), ..old(self)@.lifecycle },
                ..old(self)@
            }),
            transparent_wf(final(self)@),
    {
        self.lifecycle.take_updates()
    }
}

} // verus!
