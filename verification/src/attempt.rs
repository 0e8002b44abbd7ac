use crate::envelope::{
    either_decode_spec, either_envelope_spec, lemma_envelope_roundtrip, opt_bytes_view, push_varint, varint_spec,
    ActiveBranch,
};
use crate::error::{failure_text, Failure, Refusal};
use crate::lifecycle::{enter_spec, finish_spec, initial_lifecycle, LifecycleState, LifecycleView};
use crate::transport::NodeLifecyclePhase;
use vstd::prelude::*;
use vstd::string::StringSliceAdditionalSpecFns;
use vstd::utf8::encode_utf8;

verus! {

/// The bytes of an attempt's successful result: the success tag, then the
/// encoded value the inner flow produced.
pub open spec fn attempt_success_spec(value: Seq<u8>) -> Seq<u8> {
    varint_spec(0) + value
}

/// The bytes of an attempt's failed result: the failure tag, then the
/// failure's message variant tag, the length of its UTF-8 text and the text.
pub open spec fn attempt_failure_spec(text: Seq<char>) -> Seq<u8> {
    varint_spec(1) + varint_spec(0) + varint_spec(encode_utf8(text).len()) + encode_utf8(text)
}

/// Wraps the encoded value an attempt's inner flow produced as the
/// attempt's successful result.
pub fn encode_attempt_success(value: Vec<u8>) -> (bytes: Vec<u8>)
    ensures
        bytes@ == attempt_success_spec(value@),
{
    let mut out: Vec<u8> = Vec::new();
    push_varint(&mut out, 0);
    let mut v = value;
    let ghost head = out@;
    let ghost tail = v@;
    out.append(&mut v);
    proof {
        assert(head =~= Seq::<u8>::empty() + varint_spec(0));
        assert(out@ =~= head + tail);
    }
    out
}

/// Encodes a failure as an attempt's failed result.
pub fn encode_attempt_failure(failure: &Failure) -> (bytes: Vec<u8>)
    ensures
        bytes@ == attempt_failure_spec(failure_text(*failure)),
{
    let text: &str = match failure {
        Failure::Message(m) => m.as_str(),
    };
    let utf8 = text.as_bytes();
    let mut out: Vec<u8> = Vec::new();
    push_varint(&mut out, 1);
    push_varint(&mut out, 0);
    push_varint(&mut out, utf8.len() as u64);
    let ghost head = out@;
    let mut i: usize = 0;
    while i < utf8.len()
        invariant
            i <= utf8@.len(),
            out@ == head + utf8@.take(i as int),
        decreases utf8.len() - i,
    {
        out.push(utf8[i]);
        proof {
            assert(utf8@.take(i as int + 1) =~= utf8@.take(i as int).push(utf8@[i as int]));
            assert(head + utf8@.take(i as int + 1) =~= (head + utf8@.take(i as int)).push(utf8@[i as int]));
        }
        i = i + 1;
    }
    proof {
        assert(utf8@.take(i as int) =~= utf8@);
        assert(head =~= Seq::<u8>::empty() + varint_spec(1) + varint_spec(0) + varint_spec(utf8@.len()));
        assert(utf8@ == encode_utf8(failure_text(*failure)));
    }
    out
}

/// An attempt's result tells a success from a caught failure by its first
/// byte, and a caught failure's text reads back from what follows it.
pub proof fn lemma_attempt_results_are_told_apart(value: Seq<u8>, text: Seq<char>)
    requires
        encode_utf8(text).len() <= u64::MAX,
    ensures
        attempt_success_spec(value)[0] == 0,
        attempt_failure_spec(text)[0] == 1,
        attempt_success_spec(value).skip(1) == value,
        either_decode_spec(attempt_failure_spec(text).skip(1)) == Some((ActiveBranch::Left, encode_utf8(text))),
{
    let utf8 = encode_utf8(text);
    assert(varint_spec(0) == seq![0u8]);
    assert(varint_spec(1) == seq![1u8]);
    assert(attempt_success_spec(value).skip(1) =~= value);
    assert(attempt_failure_spec(text).skip(1) =~= either_envelope_spec(ActiveBranch::Left, utf8) + Seq::<u8>::empty());
    lemma_envelope_roundtrip(ActiveBranch::Left, utf8, Seq::empty());
}

/// The control state of an attempt: the length of its inner flow and the
/// position in it, the value kept for the next step (the input of the
/// current node, or the attempt's result once it is complete), whether a
/// request is in flight, whether it is complete, and its own lifecycle.
/// An attempt catches the failures of its inner flow: a failure becomes
/// its result.
pub struct AttemptProgress {
    lifecycle: LifecycleState,
    node_id: u32,
    inner_len: usize,
    cursor: usize,
    pending_input: Option<Vec<u8>>,
    waiting_completion: bool,
    complete: bool,
}

/// Mathematical model of an [`AttemptProgress`].
pub struct AttemptView {
    pub node_id: u32,
    pub inner_len: usize,
    pub cursor: usize,
    pub pending_input: Option<Seq<u8>>,
    pub waiting_completion: bool,
    pub complete: bool,
    pub lifecycle: LifecycleView,
}

impl View for AttemptProgress {
    type V = AttemptView;

    closed spec fn view(&self) -> AttemptView {
        AttemptView {
            node_id: self.node_id,
            inner_len: self.inner_len,
            cursor: self.cursor,
            pending_input: opt_bytes_view(self.pending_input),
            waiting_completion: self.waiting_completion,
            complete: self.complete,
            lifecycle: self.lifecycle@,
        }
    }
}

/// The position never passes the inner flow's end; a request in flight
/// belongs to an inner node and to an attempt that is not complete.
pub open spec fn attempt_wf(v: AttemptView) -> bool {
    &&& v.cursor <= v.inner_len
    &&& v.waiting_completion ==> v.cursor < v.inner_len && !v.complete
}

/// The start of serving a request: a complete attempt, or one with a
/// request in flight, refuses; otherwise its activation is entered.
pub open spec fn begin_spec(v: AttemptView) -> (AttemptView, Option<Refusal>) {
    if v.complete {
        (v, Some(Refusal::Complete))
    } else if v.waiting_completion {
        (v, Some(Refusal::AwaitingCompletion))
    } else {
        (AttemptView { lifecycle: enter_spec(v.lifecycle), ..v }, None)
    }
}

/// The check before a completion is taken: a complete attempt, one with no
/// request in flight or past its inner flow's end, or one keeping no input,
/// refuses; otherwise the kept input is handed out.
pub open spec fn completion_check_spec(v: AttemptView) -> (AttemptView, Result<Seq<u8>, Refusal>) {
    if v.complete {
        (v, Err(Refusal::Complete))
    } else if !v.waiting_completion {
        (v, Err(Refusal::NoPendingRequest))
    } else if v.cursor >= v.inner_len {
        (v, Err(Refusal::Complete))
    } else {
        match v.pending_input {
            None => (v, Err(Refusal::NoPendingRequest)),
            Some(p) => (AttemptView { pending_input: None, ..v }, Ok(p)),
        }
    }
}

/// What settling an attempt without a request starts with.
#[derive(Debug)]
pub enum AttemptSettle {
    /// The attempt is complete; its kept result, if any, is handed out.
    Finished(Option<Vec<u8>>),
    /// A request is in flight, or nothing was started: nothing to do.
    Busy,
    /// Settle the inner flow from the kept input.
    Walk(Vec<u8>),
}

impl AttemptProgress {
    /// An attempt whose inner flow has `inner_len` nodes.
    pub fn new(inner_len: usize) -> (a: AttemptProgress)
        ensures
            a@ == (AttemptView {
                node_id: 0,
                inner_len,
                cursor: 0,
                pending_input: None,
                waiting_completion: false,
                complete: false,
                lifecycle: initial_lifecycle(),
            }),
            attempt_wf(a@),
    {
        AttemptProgress {
            lifecycle: LifecycleState::new(),
            node_id: 0,
            inner_len,
            cursor: 0,
            pending_input: None,
            waiting_completion: false,
            complete: false,
        }
    }

    pub fn is_complete(&self) -> (b: bool)
        ensures
            b == self@.complete,
    {
        self.complete
    }

    pub fn is_waiting_completion(&self) -> (b: bool)
        ensures
            b == self@.waiting_completion,
    {
        self.waiting_completion
    }

    /// The position of the inner node to run next, if one is left.
    pub fn current_node(&self) -> (i: Option<usize>)
        ensures
            i == (if self@.cursor < self@.inner_len { Some(self@.cursor) } else { None::<usize> }),
    {
        if self.cursor < self.inner_len {
            Some(self.cursor)
        } else {
            None
        }
    }

    /// The position in the inner flow.
    pub fn cursor(&self) -> (c: usize)
        ensures
            c == self@.cursor,
    {
        self.cursor
    }

    /// The path the inner nodes' activations are numbered under: the
    /// attempt's open activation, or the empty path.
    pub fn child_parent_path(&self) -> (path: Vec<u64>)
        ensures
            path@ == match self@.lifecycle.current_activation_path {
                Some(p) => p,
                None => Seq::empty(),
            },
    {
        match self.lifecycle.current_activation_path() {
            Some(p) => vstd::slice::slice_to_vec(p),
            None => Vec::new(),
        }
    }

    /// Starts serving a request.
    pub fn begin_request(&mut self) -> (r: Option<Refusal>)
        requires
            attempt_wf(old(self)@),
        ensures
            (final(self)@, r) == begin_spec(old(self)@),
            attempt_wf(final(self)@),
            r is Some ==> *final(self) == *old(self),
    {
        if self.complete {
            return Some(Refusal::Complete);
        }
        if self.waiting_completion {
            return Some(Refusal::AwaitingCompletion);
        }
        self.lifecycle.enter();
        None
    }

    /// Moves the position to `cursor`, where settling the inner flow
    /// without a request left it.
    pub fn settled_to(&mut self, cursor: usize)
        requires
            attempt_wf(old(self)@),
            !old(self)@.waiting_completion,
            old(self)@.cursor <= cursor <= old(self)@.inner_len,
        ensures
            final(self)@ == (AttemptView { cursor, ..old(self)@ }),
            attempt_wf(final(self)@),
    {
        self.cursor = cursor;
    }

    /// An inner failure while serving a request: the attempt completes
    /// and keeps the failure as its result; its activation stays open.
    pub fn keep_failure(&mut self, failure: &Failure)
        requires
            attempt_wf(old(self)@),
            !old(self)@.waiting_completion,
        ensures
            final(self)@ == (AttemptView {
                complete: true,
                pending_input: Some(attempt_failure_spec(failure_text(*failure))),
                ..old(self)@
            }),
            attempt_wf(final(self)@),
    {
        self.complete = true;
        self.pending_input = Some(encode_attempt_failure(failure));
    }

    /// The inner flow ran to its end while serving a request: the attempt
    /// completes and keeps its successful result, built from the encoded
    /// `value` the inner flow produced.
    pub fn keep_success(&mut self, value: Vec<u8>)
        requires
            attempt_wf(old(self)@),
            !old(self)@.waiting_completion,
        ensures
            final(self)@ == (AttemptView {
                complete: true,
                pending_input: Some(attempt_success_spec(value@)),
                ..old(self)@
            }),
            attempt_wf(final(self)@),
    {
        self.complete = true;
        self.pending_input = Some(encode_attempt_success(value));
    }

    /// The current inner node handed out a request made with `input`: the
    /// input is kept and the attempt waits for the completion.
    pub fn handed_request(&mut self, input: Vec<u8>)
        requires
            attempt_wf(old(self)@),
            !old(self)@.complete,
            old(self)@.cursor < old(self)@.inner_len,
        ensures
            final(self)@ == (AttemptView { pending_input: Some(input@), waiting_completion: true, ..old(self)@ }),
            attempt_wf(final(self)@),
    {
        self.pending_input = Some(input);
        self.waiting_completion = true;
    }

    /// The current inner node answered `Complete` and was settled inline,
    /// with `input` its input: what it emitted, or else the input, is kept,
    /// and a node that completed is passed.
    pub fn after_inline_complete(&mut self, input: Vec<u8>, emitted: Option<Vec<u8>>, completed: bool)
        requires
            attempt_wf(old(self)@),
            !old(self)@.waiting_completion,
            old(self)@.cursor < old(self)@.inner_len,
        ensures
            final(self)@ == (AttemptView {
                pending_input: Some(
                    match emitted {
                        Some(e) => e@,
                        None => input@,
                    },
                ),
                cursor: if completed { (old(self)@.cursor + 1) as usize } else { old(self)@.cursor },
                ..old(self)@
            }),
            attempt_wf(final(self)@),
    {
        self.pending_input = Some(
            match emitted {
                Some(e) => e,
                None => input,
            },
        );
        if completed {
            self.cursor = self.cursor + 1;
        }
    }

    /// Checks that a completion can be taken, and hands out the input of
    /// the request it answers.
    pub fn completion_check(&mut self) -> (r: Result<Vec<u8>, Refusal>)
        requires
            attempt_wf(old(self)@),
        ensures
            final(self)@ == completion_check_spec(old(self)@).0,
            match r {
                Ok(p) => completion_check_spec(old(self)@).1 == Ok::<Seq<u8>, Refusal>(p@),
                Err(e) => completion_check_spec(old(self)@).1 == Err::<Seq<u8>, Refusal>(e),
            },
            attempt_wf(final(self)@),
            r is Err ==> *final(self) == *old(self),
    {
        if self.complete {
            return Err(Refusal::Complete);
        }
        if !self.waiting_completion {
            return Err(Refusal::NoPendingRequest);
        }
        if self.cursor >= self.inner_len {
            return Err(Refusal::Complete);
        }
        match self.pending_input.take() {
            None => Err(Refusal::NoPendingRequest),
            Some(p) => Ok(p),
        }
    }

    /// The current inner node took the completion: the request is no
    /// longer in flight, and a node that completed is passed.
    pub fn after_completion(&mut self, node_complete: bool)
        requires
            attempt_wf(old(self)@),
            old(self)@.waiting_completion,
        ensures
            final(self)@ == (AttemptView {
                waiting_completion: false,
                cursor: if node_complete { (old(self)@.cursor + 1) as usize } else { old(self)@.cursor },
                ..old(self)@
            }),
            attempt_wf(final(self)@),
    {
        self.waiting_completion = false;
        if node_complete {
            self.cursor = self.cursor + 1;
        }
    }

    /// The current inner node could not take the completion for another
    /// reason than a failed action: the request is no longer in flight and
    /// its input is kept again.
    pub fn completion_refused(&mut self, input: Vec<u8>)
        requires
            attempt_wf(old(self)@),
        ensures
            final(self)@ == (AttemptView { waiting_completion: false, pending_input: Some(input@), ..old(self)@ }),
            attempt_wf(final(self)@),
    {
        self.waiting_completion = false;
        self.pending_input = Some(input);
    }

    /// An inner failure while a completion is taken or the inner flow is
    /// settled: the attempt completes, its activation succeeds, and the
    /// failure is its result.
    pub fn finish_with_failure(&mut self, failure: &Failure) -> (result: Vec<u8>)
        requires
            attempt_wf(old(self)@),
        ensures
            result@ == attempt_failure_spec(failure_text(*failure)),
            final(self)@ == (AttemptView {
                waiting_completion: false,
                complete: true,
                lifecycle: finish_spec(old(self)@.lifecycle, NodeLifecyclePhase::Succeeded),
                ..old(self)@
            }),
            attempt_wf(final(self)@),
    {
        self.waiting_completion = false;
        self.complete = true;
        self.lifecycle.succeed();
        encode_attempt_failure(failure)
    }

    /// The inner flow ran to its end after a completion: the attempt
    /// completes, its activation succeeds when `close` is set, and the
    /// encoded `value` the inner flow produced is its successful result.
    pub fn finish_with_success(&mut self, value: Vec<u8>, close: bool) -> (result: Vec<u8>)
        requires
            attempt_wf(old(self)@),
            !old(self)@.waiting_completion,
        ensures
            result@ == attempt_success_spec(value@),
            final(self)@ == (AttemptView {
                complete: true,
                lifecycle: if close {
                    finish_spec(old(self)@.lifecycle, NodeLifecyclePhase::Succeeded)
                } else {
                    old(self)@.lifecycle
                },
                ..old(self)@
            }),
            attempt_wf(final(self)@),
    {
        self.complete = true;
        if close {
            self.lifecycle.succeed();
        }
        encode_attempt_success(value)
    }

    /// Keeps `input` as the input of the inner node to run next.
    pub fn keep_input(&mut self, input: Vec<u8>)
        requires
            attempt_wf(old(self)@),
        ensures
            final(self)@ == (AttemptView { pending_input: Some(input@), ..old(self)@ }),
            attempt_wf(final(self)@),
    {
        self.pending_input = Some(input);
    }

    /// The first part of settling without a request.
    pub fn settle_check(&mut self) -> (s: AttemptSettle)
        requires
            attempt_wf(old(self)@),
        ensures
            attempt_wf(final(self)@),
            old(self)@.complete ==> (s matches AttemptSettle::Finished(d) && opt_bytes_view(d) == old(self)@.pending_input
                && final(self)@ == (AttemptView { pending_input: None, ..old(self)@ })),
            !old(self)@.complete && (old(self)@.waiting_completion || old(self)@.pending_input is None) ==> (s is Busy
                && final(self)@ == old(self)@),
            !old(self)@.complete && !old(self)@.waiting_completion && old(self)@.pending_input is Some ==> (s matches AttemptSettle::Walk(p)
                && Some(p@) == old(self)@.pending_input && final(self)@ == (AttemptView {
                pending_input: None,
                ..old(self)@
            })),
    {
        if self.complete {
            let d = self.pending_input.take();
            return AttemptSettle::Finished(d);
        }
        if self.waiting_completion {
            return AttemptSettle::Busy;
        }
        match self.pending_input.take() {
            None => AttemptSettle::Busy,
            Some(p) => AttemptSettle::Walk(p),
        }
    }

    pub fn node_id(&self) -> (id: u32)
        ensures
            id == self@.node_id,
    {
        self.node_id
    }

    /// Gives the attempt node the id `*next_id` and moves `*next_id` on by
    /// one, stopping at the largest `u32`; its inner nodes are numbered from there.
    pub fn assign_node_id(&mut self, next_id: &mut u32)
        requires
            attempt_wf(old(self)@),
        ensures
            final(self)@ == (AttemptView {
                node_id: *old(next_id),
                lifecycle: LifecycleView { node_id: *old(next_id), ..old(self)@.lifecycle },
                ..old(self)@
            }),
            *final(next_id) == if *old(next_id) == u32::MAX { u32::MAX } else { (*old(next_id) + 1) as u32 },
            attempt_wf(final(self)@),
    {
        self.node_id = *next_id;
        self.lifecycle.set_node_id(*next_id);
        *next_id = next_id.saturating_add(1);
    }

    pub fn set_journey_id(&mut self, journey_id: uuid::Uuid)
        requires
            attempt_wf(old(self)@),
        ensures
            final(self)@ == (AttemptView {
                lifecycle: LifecycleView { journey_id: Some(journey_id), ..old(self)@.lifecycle },
                ..old(self)@
            }),
            attempt_wf(final(self)@),
    {
        self.lifecycle.set_journey_id(journey_id);
    }

    /// Sets the path the next activation is numbered under; ignored while
    /// one is open.
    pub fn set_parent_activation_path(&mut self, path: &[u64])
        requires
            attempt_wf(old(self)@),
        ensures
            old(self)@.lifecycle.current_activation_path is Some ==> final(self)@ == old(self)@,
            old(self)@.lifecycle.current_activation_path is None ==> final(self)@ == (AttemptView {
                lifecycle: LifecycleView { parent_activation_path: path@, ..old(self)@.lifecycle },
                ..old(self)@
            }),
            attempt_wf(final(self)@),
    {
        self.lifecycle.set_parent_activation_path(path);
    }

    /// Hands out the attempt node's own recorded lifecycle events and forgets them.
    pub fn take_node_lifecycle_updates(&mut self) -> (updates: Vec<crate::transport::NodeLifecycle>)
        requires
            attempt_wf(old(self)@),
        ensures
            updates@.map_values(|u: crate::transport::NodeLifecycle| u@) == old(self)@.lifecycle.updates,
            final(self)@ == (AttemptView {
                lifecycle: LifecycleView { updates: Seq::empty(), ..old(self)@.lifecycle },
                ..old(self)@
            }),
            attempt_wf(final(self)@),
    {
        self.lifecycle.take_updates()
    }
}

} // verus!
