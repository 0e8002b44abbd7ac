use crate::envelope::{lemma_pow128_nine, lemma_varint_decode_bound, take_varint, varint_decode, ActiveBranch};
use crate::error::{refusal_error, ExecutorError};
use crate::flow::{
    node_error,
    all_wf, assign_flow_journey_id, first_flow_node_id, assign_flow_node_ids, assign_flow_parent_activation_path, copy_bytes,
    settle_subflow_without_progress, subflow_complete_serialized, subflow_next_request,
    take_flow_node_lifecycle_updates, DynFlow, ErasedFlow, ExecRequest,
};
use crate::join::completion_view;
use crate::join_flow::lossy_text;
use crate::select::{
    encode_select_request, select_emitted, select_emitted_spec, select_request_spec, select_wf, SelectProgress,
    SelectView,
};
use crate::transport::NodeLifecycle;
use vstd::prelude::*;
use vstd::string::StringExecFns;

verus! {

/// A tag at `pos`: a variable-length integer of at most five bytes that is
/// 0 or 1; gives it and the position after it.
pub open spec fn tag_at_spec(bytes: Seq<u8>, pos: nat) -> Option<(nat, nat)> {
    match varint_decode(bytes.skip(pos as int), 0, 5, 15) {
        Some((t, c)) => if t <= 1 { Some((t, pos + c)) } else { None },
        None => None,
    }
}

/// A length at `pos`: a variable-length integer of at most ten bytes;
/// gives it and the position after it.
pub open spec fn len_at_spec(bytes: Seq<u8>, pos: nat) -> Option<(nat, nat)> {
    match varint_decode(bytes.skip(pos as int), 0, 10, 1) {
        Some((n, c)) => Some((n, pos + c)),
        None => None,
    }
}

/// A byte string at `pos`: its length, then that many bytes; gives the
/// bytes and the position after them.
pub open spec fn bytes_at_spec(bytes: Seq<u8>, pos: nat) -> Option<(Seq<u8>, nat)> {
    match len_at_spec(bytes, pos) {
        Some((n, p)) => if p + n <= bytes.len() {
            Some((bytes.subrange(p as int, (p + n) as int), p + n))
        } else {
            None
        },
        None => None,
    }
}

/// A completion at `pos`: tag 0 for a success, 1 for an error, then its
/// bytes.
pub open spec fn completion_at_spec(bytes: Seq<u8>, pos: nat) -> Option<(Result<Seq<u8>, Seq<u8>>, nat)> {
    match tag_at_spec(bytes, pos) {
        Some((t, p)) => match bytes_at_spec(bytes, p) {
            Some((b, q)) => Some((if t == 0 { Ok(b) } else { Err(b) }, q)),
            None => None,
        },
        None => None,
    }
}

/// `n` completions one after another from `pos`.
pub open spec fn completions_at_spec(bytes: Seq<u8>, pos: nat, n: nat) -> Option<(Seq<Result<Seq<u8>, Seq<u8>>>, nat)>
    decreases n,
{
    if n == 0 {
        Some((Seq::empty(), pos))
    } else {
        match completion_at_spec(bytes, pos) {
            Some((c, p)) => match completions_at_spec(bytes, p, (n - 1) as nat) {
                Some((rest, q)) => Some((seq![c] + rest, q)),
                None => None,
            },
            None => None,
        }
    }
}

/// What a race reports, read from the front of `bytes` (trailing bytes
/// ignored): the branch that won (tag 0 left, 1 right), the completions
/// its effects were answered with, in order, and the value it emitted last.
pub open spec fn select_trace_spec(bytes: Seq<u8>) -> Option<(ActiveBranch, Seq<Result<Seq<u8>, Seq<u8>>>, Seq<u8>)> {
    match tag_at_spec(bytes, 0) {
        Some((t, p)) => match len_at_spec(bytes, p) {
            Some((n, q)) => match completions_at_spec(bytes, q, n) {
                Some((cs, r)) => match bytes_at_spec(bytes, r) {
                    Some((e, _)) => Some((if t == 0 { ActiveBranch::Left } else { ActiveBranch::Right }, cs, e)),
                    None => None,
                },
                None => None,
            },
            None => None,
        },
        None => None,
    }
}

fn take_tag(bytes: &[u8], pos: usize) -> (r: Option<(u64, usize)>)
    requires
        pos <= bytes@.len(),
    ensures
        match tag_at_spec(bytes@, pos as nat) {
            Some((t, p)) => r matches Some((t2, p2)) && t2 == t && p2 == p && p <= bytes@.len(),
            None => r is None,
        },
{
    proof {
        lemma_pow128_nine();
        lemma_varint_decode_bound(bytes@.skip(pos as int), 0, 5, 15);
    }
    let total = bytes.len();
    let got = take_varint(bytes, pos, 0, 5, 15);
    proof {
        assert(bytes@.skip(pos as int).len() == bytes@.len() - pos);
    }
    match got {
        Some((t, c)) => {
            proof {
                let d = varint_decode(bytes@.skip(pos as int), 0, 5, 15);
                assert(d is Some);
                let (sv, sc) = d->0;
                assert(got == Some((sv as u64, sc as usize)));
                assert(sc <= bytes@.len() - pos);
                assert(sc <= total);
                assert(c as nat == sc);
            }
            if t <= 1 {
                Some((t, pos + c))
            } else {
                None
            }
        },
        None => None,
    }
}

fn take_len(bytes: &[u8], pos: usize) -> (r: Option<(u64, usize)>)
    requires
        pos <= bytes@.len(),
    ensures
        match len_at_spec(bytes@, pos as nat) {
            Some((n, p)) => r matches Some((n2, p2)) && n2 == n && p2 == p && p <= bytes@.len(),
            None => r is None,
        },
{
    proof {
        lemma_pow128_nine();
        lemma_varint_decode_bound(bytes@.skip(pos as int), 0, 10, 1);
    }
    let total = bytes.len();
    let got = take_varint(bytes, pos, 0, 10, 1);
    proof {
        assert(bytes@.skip(pos as int).len() == bytes@.len() - pos);
    }
    match got {
        Some((n, c)) => {
            proof {
                let d = varint_decode(bytes@.skip(pos as int), 0, 10, 1);
                assert(d is Some);
                let (sv, sc) = d->0;
                assert(got == Some((sv as u64, sc as usize)));
                assert(sc <= bytes@.len() - pos);
                assert(sc <= total);
                assert(c as nat == sc);
            }
            Some((n, pos + c))
        },
        None => None,
    }
}

fn take_bytes(bytes: &[u8], pos: usize) -> (r: Option<(Vec<u8>, usize)>)
    requires
        pos <= bytes@.len(),
    ensures
        match bytes_at_spec(bytes@, pos as nat) {
            Some((b, p)) => r matches Some((b2, p2)) && b2@ == b && p2 == p && p <= bytes@.len(),
            None => r is None,
        },
{
    let (n, start) = match take_len(bytes, pos) {
        Some(x) => x,
        None => return None,
    };
    if n > (bytes.len() - start) as u64 {
        return None;
    }
    let end = start + n as usize;
    let mut out: Vec<u8> = Vec::new();
    let mut k = start;
    while k < end
        invariant
            start <= k <= end <= bytes@.len(),
            out@ == bytes@.subrange(start as int, k as int),
        decreases end - k,
    {
        out.push(bytes[k]);
        proof {
            assert(bytes@.subrange(start as int, k as int + 1) =~= bytes@.subrange(start as int, k as int).push(
                bytes@[k as int],
            ));
        }
        k = k + 1;
    }
    Some((out, end))
}

/// Reads a race report from the front of `bytes`.
pub fn decode_select_trace(bytes: &[u8]) -> (r: Option<(ActiveBranch, Vec<Result<Vec<u8>, Vec<u8>>>, Vec<u8>)>)
    ensures
        match select_trace_spec(bytes@) {
            Some((w, cs, e)) => r matches Some((w2, cs2, e2)) && w2 == w && cs2@.map_values(
                |c: Result<Vec<u8>, Vec<u8>>| completion_view(c),
            ) == cs && e2@ == e,
            None => r is None,
        },
{
    let (tag, p) = match take_tag(bytes, 0) {
        Some(x) => x,
        None => return None,
    };
    let (n, q) = match take_len(bytes, p) {
        Some(x) => x,
        None => return None,
    };
    let mut completions: Vec<Result<Vec<u8>, Vec<u8>>> = Vec::new();
    let mut pos = q;
    let mut i: u64 = 0;
    while i < n
        invariant
            i <= n,
            q <= pos <= bytes@.len(),
            tag_at_spec(bytes@, 0) == Some((tag as nat, p as nat)),
            len_at_spec(bytes@, p as nat) == Some((n as nat, q as nat)),
            completions_at_spec(bytes@, q as nat, n as nat) == match completions_at_spec(
                bytes@,
                pos as nat,
                (n - i) as nat,
            ) {
                Some((rest, e)) => Some(
                    (completions@.map_values(|c: Result<Vec<u8>, Vec<u8>>| completion_view(c)) + rest, e),
                ),
                None => None::<(Seq<Result<Seq<u8>, Seq<u8>>>, nat)>,
            },
        decreases n - i,
    {
        let ghost old_done = completions@.map_values(|c: Result<Vec<u8>, Vec<u8>>| completion_view(c));
        proof {
            assert(completions_at_spec(bytes@, pos as nat, (n - i) as nat) == match completion_at_spec(bytes@, pos as nat) {
                Some((c, p)) => match completions_at_spec(bytes@, p, (n - i - 1) as nat) {
                    Some((rest, q)) => Some((seq![c] + rest, q)),
                    None => None,
                },
                None => None,
            });
        }
        let (t, after_tag) = match take_tag(bytes, pos) {
            Some(x) => x,
            None => {
                proof {
                    assert(completion_at_spec(bytes@, pos as nat) is None);
                    assert(completions_at_spec(bytes@, q as nat, n as nat) is None);
                }
                return None;
            },
        };
        let (b, after) = match take_bytes(bytes, after_tag) {
            Some(x) => x,
            None => {
                proof {
                    assert(completion_at_spec(bytes@, pos as nat) is None);
                    assert(completions_at_spec(bytes@, q as nat, n as nat) is None);
                }
                return None;
            },
        };
        let c = if t == 0 { Ok(b) } else { Err(b) };
        completions.push(c);
        proof {
            let done = completions@.map_values(|c: Result<Vec<u8>, Vec<u8>>| completion_view(c));
            assert(done =~= old_done.push(completion_view(c)));
            match completions_at_spec(bytes@, after as nat, (n - i - 1) as nat) {
                Some((rest, e)) => {
                    assert(old_done + (seq![completion_view(c)] + rest) =~= done + rest);
                },
                None => {},
            }
        }
        pos = after;
        i = i + 1;
    }
    proof {
        assert(completions@.map_values(|c: Result<Vec<u8>, Vec<u8>>| completion_view(c)) + Seq::empty()
            =~= completions@.map_values(|c: Result<Vec<u8>, Vec<u8>>| completion_view(c)));
    }
    let (emitted, _) = match take_bytes(bytes, pos) {
        Some(x) => x,
        None => return None,
    };
    let winner = if tag == 0 { ActiveBranch::Left } else { ActiveBranch::Right };
    Some((winner, completions, emitted))
}

/// What a replay did, round by round: the input each request was asked
/// with, and the value each replayed completion emitted.
pub struct ReplayRounds {
    pub handed: Seq<Seq<u8>>,
    pub emitted: Seq<Seq<u8>>,
}

/// The rounds of a replay chain as a live run does: the first request is
/// asked with the race's input, and every later one with the value the
/// previous completion emitted.
spec fn rounds_chained(rounds: ReplayRounds, input: Seq<u8>) -> bool {
    &&& rounds.handed.len() > 0 ==> rounds.handed[0] == input
    &&& forall|k: int| 0 < k < rounds.handed.len() ==> #[trigger] rounds.handed[k] == rounds.emitted[k - 1]
    &&& rounds.emitted.len() <= rounds.handed.len() <= rounds.emitted.len() + 1
}

/// Asks `flow` for its next request from `*input`, as one round of a
/// replay; gives the input the round was asked with.
fn replay_ask<S: Clone>(flow: &mut DynFlow<S>, cursor: &mut usize, state: S, input: &mut Vec<u8>) -> (r: (
    Result<(S, ExecRequest), (S, ExecutorError)>,
    Ghost<Seq<u8>>,
))
    requires
        *old(cursor) <= old(flow).len(),
        all_wf(old(flow)@),
    ensures
        r.1@ == old(input)@,
        final(flow).len() == old(flow).len(),
        all_wf(final(flow)@),
        *old(cursor) <= *final(cursor) <= final(flow).len(),
        r.0 matches Err((_, e)) ==> node_error(e),
{
    let given = Ghost(input@);
    let asked = subflow_next_request(flow, cursor, state, input, true);
    (asked, given)
}

/// Replays a branch of a race on `flow` from `input`: each request the
/// branch makes is answered with the next recorded completion, and each
/// next request is asked with the value the previous completion emitted, as
/// in a live run; the branch must then run to its end with no request left
/// over. Gives its state, and the rounds it replayed.
pub fn replay_subflow_trace<S: Clone>(
    flow: &mut DynFlow<S>,
    state: S,
    input: Vec<u8>,
    completions: Vec<Result<Vec<u8>, Vec<u8>>>,
) -> (r: (Result<S, ExecutorError>, Ghost<ReplayRounds>))
    requires
        all_wf(old(flow)@),
    ensures
        final(flow).len() == old(flow).len(),
        all_wf(final(flow)@),
        r.0 matches Err(e) ==> node_error(e),
        r.1@.handed.len() > 0 ==> r.1@.handed[0] == input@,
        forall|k: int| 0 < k < r.1@.handed.len() ==> #[trigger] r.1@.handed[k] == r.1@.emitted[k - 1],
        r.1@.emitted.len() <= r.1@.handed.len() <= r.1@.emitted.len() + 1,
        r.1@.emitted.len() <= completions.len(),
        r.0 is Ok ==> r.1@.emitted.len() == completions.len() && r.1@.handed.len() == completions.len() + 1,
{
    let ghost input0 = input@;
    let n = flow.len();
    let mut cursor: usize = 0;
    let mut current = state;
    let mut next_input = input;
    let mut k: usize = 0;
    let mut rounds: Ghost<ReplayRounds> = Ghost(ReplayRounds { handed: Seq::empty(), emitted: Seq::empty() });
    while k < completions.len()
        invariant
            flow.len() == n,
            n == old(flow).len(),
            cursor <= n,
            all_wf(flow@),
            k <= completions.len(),
            rounds@.handed.len() == k,
            rounds@.emitted.len() == k,
            rounds_chained(rounds@, input0),
            input@ == input0,
            next_input@ == (if k == 0 { input0 } else { rounds@.emitted[k - 1] }),
        decreases completions.len() - k,
    {
        let completion = match &completions[k] {
            Ok(b) => Ok(copy_bytes(b)),
            Err(b) => Err(copy_bytes(b)),
        };
        let (asked, given) = replay_ask(flow, &mut cursor, current, &mut next_input);
        rounds = Ghost(ReplayRounds { handed: rounds@.handed.push(given@), emitted: rounds@.emitted });
        match asked {
            Ok((s, _)) => current = s,
            Err((_, e)) => return (Err(e), rounds),
        }
        match subflow_complete_serialized(flow, &mut cursor, current.clone(), &mut next_input, completion) {
            Ok((s, emitted)) => {
                current = s;
                rounds = Ghost(ReplayRounds { handed: rounds@.handed, emitted: rounds@.emitted.push(emitted@) });
                next_input = emitted;
            },
            Err(e) => return (Err(e), rounds),
        }
        k = k + 1;
    }
    let (asked, given) = replay_ask(flow, &mut cursor, current, &mut next_input);
    rounds = Ghost(ReplayRounds { handed: rounds@.handed.push(given@), emitted: rounds@.emitted });
    match asked {
        Ok(_) => return (Err(ExecutorError::NoPendingRequest), rounds),
        Err((s, ExecutorError::Complete)) => current = s,
        Err((_, e)) => return (Err(e), rounds),
    }
    let settled = match settle_subflow_without_progress(flow, &mut cursor, current, &mut next_input) {
        Ok(s) => s,
        Err(e) => return (Err(e), rounds),
    };
    if cursor < flow.len() {
        return (Err(ExecutorError::NoPendingRequest), rounds);
    }
    (Ok(settled), rounds)
}

/// A select node: races its two branches as one request, which a runner
/// answers with the report of the branch that finished first; the winner
/// is replayed here and its value, tagged with its side, is the select's.
#[verifier::reject_recursive_types(S)]
pub struct SelectFlow<S> {
    progress: SelectProgress,
    left: DynFlow<S>,
    right: DynFlow<S>,
    replayed: Ghost<Option<(ActiveBranch, Seq<u8>, Seq<Result<Seq<u8>, Seq<u8>>>)>>,
}

impl<S: Clone> SelectFlow<S> {
    /// The select's control state.
    pub closed spec fn progress_view(&self) -> SelectView {
        self.progress@
    }

    /// The branch last replayed, the race input it was replayed from, and
    /// the completions it was replayed with.
    pub closed spec fn replayed_view(&self) -> Option<(ActiveBranch, Seq<u8>, Seq<Result<Seq<u8>, Seq<u8>>>)> {
        self.replayed@
    }

    /// The control state is consistent and so is every node of both branches.
    pub closed spec fn wf(&self) -> bool {
        &&& select_wf(self.progress@)
        &&& all_wf(self.left@)
        &&& all_wf(self.right@)
    }

    pub fn new(left: DynFlow<S>, right: DynFlow<S>) -> (s: Self)
        requires
            all_wf(left@),
            all_wf(right@),
        ensures
            s.wf(),
            !s.progress_view().complete,
            !s.progress_view().waiting_completion,
    {
        SelectFlow { progress: SelectProgress::new(), left, right, replayed: Ghost(None) }
    }
}

impl<S: Clone> ErasedFlow<S> for SelectFlow<S> {
    open spec fn flow_complete(&self) -> bool {
        self.progress_view().complete
    }

    open spec fn flow_waiting(&self) -> bool {
        self.progress_view().waiting_completion
    }

    open spec fn flow_wf(&self) -> bool {
        self.wf()
    }

    /// Hands out the race request, executable requests only: both
    /// branches start from `input`. A complete select answers `Complete`
    /// and one with a race in flight `AwaitingCompletion`, both with the
    /// state unchanged.
    fn request(&mut self, state: S, input: Vec<u8>, executable: bool) -> (r: Result<(S, ExecRequest), (S, ExecutorError)>)
        ensures
            !executable ==> (r matches Err((s, ExecutorError::ClientTransport(_))) && s == state
                && *final(self) == *old(self)),
            executable && old(self).progress_view().complete ==> (r matches Err((s, ExecutorError::Complete)) && s == state
                && *final(self) == *old(self)),
            executable && !old(self).progress_view().complete && old(self).progress_view().waiting_completion ==> (r matches Err(
                (s, ExecutorError::AwaitingCompletion),
            ) && s == state && *final(self) == *old(self)),
            executable && !old(self).progress_view().complete && !old(self).progress_view().waiting_completion ==> (r matches Ok(
                (s, req),
            ) && s == state && req.request_bytes@ == select_request_spec(input@) && req.node_id
                == old(self).progress_view().node_id && !req.is_sleep && req.join_route@.len() == 0
                && req.suspended_completion is None && req.race_start_ids is Some
                && final(self).progress_view().waiting_completion
                && final(self).progress_view().pending_input == Some(input@)),
    {
        if !executable {
            return Err(
                (state, ExecutorError::ClientTransport(String::from_str("Select requires executable request mode"))),
            );
        }
        let request_bytes = encode_select_request(input.as_slice());
        if let Some(refusal) = self.progress.start_race(input) {
            return Err((state, refusal_error(refusal)));
        }
        let request = ExecRequest {
            node_id: self.progress.node_id(),
            effect_type: String::from_str("jungle_types::Select"),
            is_sleep: false,
            request_bytes,
            join_route: Vec::new(),
            suspended_completion: None,
            race_start_ids: Some((first_flow_node_id(&self.left), first_flow_node_id(&self.right))),
        };
        Ok((state, request))
    }

    /// Takes the race report: the winning branch is replayed from the
    /// race's input, and the select completes with the winner's value
    /// tagged 0 for left or 1 for right. A report that cannot be read is
    /// refused.
    fn complete(&mut self, state: S, completion: Result<Vec<u8>, Vec<u8>>) -> (r: Result<(S, Vec<u8>), ExecutorError>)
        ensures
            !old(self).progress_view().complete && old(self).progress_view().waiting_completion ==> (completion matches Ok(b)
                ==> (select_trace_spec(b@) matches Some((w, cs, _)) ==> (old(self).progress_view().pending_input matches Some(i)
                ==> final(self).replayed_view() == Some((w, i, cs))))),
            old(self).progress_view().complete ==> (r matches Err(ExecutorError::Complete) && *final(self)
                == *old(self)),
            !old(self).progress_view().complete && !old(self).progress_view().waiting_completion ==> (r matches Err(
                ExecutorError::NoPendingRequest,
            ) && *final(self) == *old(self)),
            !old(self).progress_view().complete && old(self).progress_view().waiting_completion && completion is Err
                ==> r matches Err(ExecutorError::ErrorDeserialize(_)),
            !old(self).progress_view().complete && old(self).progress_view().waiting_completion && (completion matches Ok(
                b,
            ) && select_trace_spec(b@) is None) ==> r matches Err(ExecutorError::OutputDeserialize(_)),
            r matches Ok((_, out)) ==> completion matches Ok(b) && select_trace_spec(b@) matches Some((w, _, e))
                && out@ == select_emitted_spec(if w == ActiveBranch::Left { 0u8 } else { 1u8 }, e)
                && final(self).progress_view().complete,
    {
        if self.progress.is_complete() {
            return Err(ExecutorError::Complete);
        }
        if !self.progress.is_waiting_completion() {
            return Err(ExecutorError::NoPendingRequest);
        }
        let report = match completion {
            Ok(bytes) => match decode_select_trace(bytes.as_slice()) {
                Some(t) => t,
                None => return Err(
                    ExecutorError::OutputDeserialize(String::from_str("select completion envelope failed")),
                ),
            },
            Err(bytes) => {
                let mut text = String::from_str("select completion envelope failed: ");
                let tail = lossy_text(bytes.as_slice());
                text.append(tail.as_str());
                return Err(ExecutorError::ErrorDeserialize(text));
            },
        };
        let (winner, completions, emitted) = report;
        let input = match self.progress.take_race_input() {
            Ok(i) => i,
            Err(refusal) => return Err(refusal_error(refusal)),
        };
        let parent = self.progress.child_parent_path();
        assign_flow_parent_activation_path(&mut self.left, parent.as_slice());
        assign_flow_parent_activation_path(&mut self.right, parent.as_slice());
        let left_won = winner == ActiveBranch::Left;
        self.replayed = Ghost(
            Some((winner, input@, completions@.map_values(|c: Result<Vec<u8>, Vec<u8>>| completion_view(c)))),
        );
        let replayed = if left_won {
            replay_subflow_trace(&mut self.left, state, input, completions).0
        } else {
            replay_subflow_trace(&mut self.right, state, input, completions).0
        };
        let next = replayed?;
        let out = select_emitted(left_won, emitted.as_slice());
        if self.progress.suppresses_child_lifecycle_replay() {
            let _ = take_flow_node_lifecycle_updates(&mut self.left);
            let _ = take_flow_node_lifecycle_updates(&mut self.right);
        }
        self.progress.finish();
        Ok((next, out))
    }

    fn try_complete_without_progress(&mut self, state: S) -> (r: Result<(S, Option<Vec<u8>>, bool), ExecutorError>)
        ensures
            r matches Ok((s, None, false)) && s == state,
    {
        Ok((state, None, false))
    }

    fn is_waiting_completion(&self) -> (b: bool) {
        self.progress.is_waiting_completion()
    }

    fn is_complete(&self) -> (b: bool) {
        self.progress.is_complete()
    }

    fn set_parent_activation_path(&mut self, path: &[u64]) {
        self.progress.set_parent_activation_path(path);
    }

    fn set_journey_id(&mut self, journey_id: uuid::Uuid) {
        self.progress.set_journey_id(journey_id);
        assign_flow_journey_id(&mut self.left, journey_id);
        assign_flow_journey_id(&mut self.right, journey_id);
    }

    fn take_node_lifecycle_updates(&mut self) -> (updates: Vec<NodeLifecycle>) {
        let mut updates = self.progress.take_node_lifecycle_updates();
        let mut left = take_flow_node_lifecycle_updates(&mut self.left);
        let mut right = take_flow_node_lifecycle_updates(&mut self.right);
        updates.append(&mut left);
        updates.append(&mut right);
        updates
    }

    fn node_id(&self) -> u32 {
        self.progress.node_id()
    }

    fn assign_node_ids(&mut self, next_id: &mut u32) {
        self.progress.assign_node_id(next_id);
        assign_flow_node_ids(&mut self.left, next_id);
        assign_flow_node_ids(&mut self.right, next_id);
    }
}

} // verus!
