use crate::error::ExecutorError;
use crate::flow::{
    node_error,
    all_wf, assign_flow_journey_id, assign_flow_node_ids, copy_bytes, subflow_complete_serialized,
    subflow_next_request, take_flow_node_lifecycle_updates, DynFlow, ExecRequest,
};
use crate::transport::NodeLifecycle;
use vstd::prelude::*;

verus! {

/// Runs a flow one request at a time: the caller asks for the next effect
/// request, performs it, and hands the completion back. The executor keeps
/// the flow's state, the position of the node under way, and the value the
/// last completion emitted, which is the next node's input.
#[verifier::reject_recursive_types(S)]
pub struct ManualExecutor<S> {
    state: S,
    steps: DynFlow<S>,
    cursor: usize,
    last_emitted: Option<Vec<u8>>,
    handed_input: Ghost<Option<Seq<u8>>>,
}

impl<S: Clone> ManualExecutor<S> {
    /// The position of the node under way.
    pub closed spec fn cursor_view(&self) -> nat {
        self.cursor as nat
    }

    /// The number of nodes of the flow.
    pub closed spec fn len_view(&self) -> nat {
        self.steps.len() as nat
    }

    /// The flow's state.
    pub closed spec fn state_view(&self) -> S {
        self.state
    }

    /// The value the last completion emitted, kept as the next input.
    /// The input the executor last handed its flow to ask for a request.
    pub closed spec fn handed_input_view(&self) -> Option<Seq<u8>> {
        self.handed_input@
    }

    pub closed spec fn last_emitted_view(&self) -> Option<Seq<u8>> {
        match self.last_emitted {
            Some(e) => Some(e@),
            None => None,
        }
    }

    /// Every node is consistent and the position never passes the end.
    pub closed spec fn wf(&self) -> bool {
        &&& self.cursor <= self.steps.len()
        &&& all_wf(self.steps@)
    }

    /// Whether every node has run.
    pub open spec fn complete_spec(&self) -> bool {
        self.cursor_view() >= self.len_view()
    }

    /// Runs the nodes from the position on that need no effect: a node
    /// waiting for a completion stops the walk, a value a node emits is
    /// kept as the next input, and a completed node is passed.
    fn settle_without_progress(&mut self) -> (r: Result<(), ExecutorError>)
        requires
            old(self).wf(),
        ensures
            final(self).wf(),
            final(self).len_view() == old(self).len_view(),
            old(self).cursor_view() <= final(self).cursor_view(),
            old(self).complete_spec() ==> r is Ok && final(self).cursor_view() == old(self).cursor_view(),
            r matches Err(e) ==> node_error(e),
    {
        let n = self.steps.len();
        while self.cursor < n
            invariant
                self.wf(),
                self.steps.len() == n,
                n == old(self).steps.len(),
                old(self).cursor <= self.cursor,
            decreases n - self.cursor,
        {
            let at = self.cursor;
            assert(self.steps@[at as int].flow_wf());
            if self.steps[at].is_waiting_completion() {
                break;
            }
            let settled = self.steps[at].try_complete_without_progress(self.state.clone());
            match settled {
                Err(err) => return Err(err),
                Ok((next, emitted, completed)) => {
                    self.state = next;
                    if let Some(emitted) = emitted {
                        self.last_emitted = Some(emitted);
                    }
                    if completed {
                        self.cursor = self.cursor + 1;
                    } else {
                        break;
                    }
                },
            }
        }
        Ok(())
    }

    /// An executor at the start of `steps`, with their nodes numbered from 0.
    pub fn new(steps: DynFlow<S>, state: S) -> (e: Self)
        requires
            all_wf(steps@),
        ensures
            e.wf(),
            e.cursor_view() == 0,
            e.len_view() == steps.len(),
            e.state_view() == state,
            e.last_emitted_view() is None,
    {
        Self::starting_at(steps, state, 0)
    }

    /// An executor at the start of `steps`, with their nodes numbered from
    /// `first_node_id`: a branch run on its own keeps the ids it has in
    /// the whole flow.
    pub fn starting_at(steps: DynFlow<S>, state: S, first_node_id: u32) -> (e: Self)
        requires
            all_wf(steps@),
        ensures
            e.wf(),
            e.cursor_view() == 0,
            e.len_view() == steps.len(),
            e.state_view() == state,
            e.last_emitted_view() is None,
    {
        let mut steps = steps;
        let mut next_id: u32 = first_node_id;
        assign_flow_node_ids(&mut steps, &mut next_id);
        ManualExecutor { state, steps, cursor: 0, last_emitted: None, handed_input: Ghost(None) }
    }

    pub fn is_complete(&self) -> (b: bool)
        ensures
            b == self.complete_spec(),
    {
        self.cursor >= self.steps.len()
    }

    pub fn set_journey_id(&mut self, journey_id: uuid::Uuid)
        requires
            old(self).wf(),
        ensures
            final(self).wf(),
            final(self).cursor_view() == old(self).cursor_view(),
            final(self).len_view() == old(self).len_view(),
            final(self).state_view() == old(self).state_view(),
    {
        assign_flow_journey_id(&mut self.steps, journey_id);
    }

    /// Hands out the lifecycle events the nodes recorded and forgets them.
    pub fn take_node_lifecycle_updates(&mut self) -> (updates: Vec<NodeLifecycle>)
        requires
            old(self).wf(),
        ensures
            final(self).wf(),
            final(self).cursor_view() == old(self).cursor_view(),
            final(self).len_view() == old(self).len_view(),
            final(self).state_view() == old(self).state_view(),
    {
        take_flow_node_lifecycle_updates(&mut self.steps)
    }

    pub fn state(&self) -> (s: &S)
        ensures
            *s == self.state_view(),
    {
        &self.state
    }

    pub fn into_state(self) -> (s: S)
        ensures
            s == self.state_view(),
    {
        self.state
    }

    /// The next effect request of the flow, running what needs no effect on
    /// the way, to be run by the caller (`executable`) or only sent on as
    /// its encoded input. The value the last completion emitted, if one is
    /// kept, is the input; otherwise `input` is. A finished flow answers
    /// `Complete`.
    fn next_in_mode(&mut self, input: Vec<u8>, executable: bool) -> (r: Result<ExecRequest, ExecutorError>)
        requires
            old(self).wf(),
        ensures
            final(self).wf(),
            final(self).len_view() == old(self).len_view(),
            old(self).cursor_view() <= final(self).cursor_view(),
            final(self).last_emitted_view() is None,
            final(self).handed_input_view() == Some(
                match old(self).last_emitted_view() {
                    Some(e) => e,
                    None => input@,
                },
            ),
            old(self).complete_spec() ==> r matches Err(ExecutorError::Complete),
            final(self).complete_spec() ==> r is Err,
            r matches Err(e) ==> node_error(e),
    {
        let mut last = match self.last_emitted.take() {
            Some(e) => e,
            None => input,
        };
        self.handed_input = Ghost(Some(last@));
        let asked = subflow_next_request(&mut self.steps, &mut self.cursor, self.state.clone(), &mut last, executable);
        match asked {
            Ok((next, request)) => {
                self.state = next;
                Ok(request)
            },
            Err((next, e)) => {
                self.state = next;
                Err(e)
            },
        }
    }

    /// The next effect request, to be run by the caller.
    pub fn next_executable_request(&mut self, input: Vec<u8>) -> (r: Result<ExecRequest, ExecutorError>)
        requires
            old(self).wf(),
        ensures
            final(self).wf(),
            final(self).len_view() == old(self).len_view(),
            old(self).cursor_view() <= final(self).cursor_view(),
            final(self).last_emitted_view() is None,
            final(self).handed_input_view() == Some(
                match old(self).last_emitted_view() {
                    Some(e) => e,
                    None => input@,
                },
            ),
            old(self).complete_spec() ==> r matches Err(ExecutorError::Complete),
            final(self).complete_spec() ==> r is Err,
            r matches Err(e) ==> node_error(e),
    {
        self.next_in_mode(input, true)
    }

    /// The encoded input of the next effect request; joins and selects
    /// refuse to serve this mode.
    pub fn next_request(&mut self, input: Vec<u8>) -> (r: Result<Vec<u8>, ExecutorError>)
        requires
            old(self).wf(),
        ensures
            final(self).wf(),
            final(self).len_view() == old(self).len_view(),
            old(self).cursor_view() <= final(self).cursor_view(),
            final(self).last_emitted_view() is None,
            final(self).handed_input_view() == Some(
                match old(self).last_emitted_view() {
                    Some(e) => e,
                    None => input@,
                },
            ),
            old(self).complete_spec() ==> r matches Err(ExecutorError::Complete),
            final(self).complete_spec() ==> r is Err,
            r matches Err(e) ==> node_error(e),
    {
        match self.next_in_mode(input, false) {
            Ok(request) => Ok(request.request_bytes),
            Err(e) => Err(e),
        }
    }

    /// Gives the completion of the request under way to its node, and
    /// settles what follows. The emitted value is returned and kept as the
    /// next input. On an error the state stays as it was.
    pub fn complete_serialized(&mut self, completion: Result<Vec<u8>, Vec<u8>>) -> (r: Result<Vec<u8>, ExecutorError>)
        requires
            old(self).wf(),
        ensures
            final(self).wf(),
            final(self).len_view() == old(self).len_view(),
            old(self).cursor_view() <= final(self).cursor_view(),
            old(self).complete_spec() ==> r matches Err(ExecutorError::Complete),
            r is Err ==> final(self).state_view() == old(self).state_view(),
            r matches Ok(e) ==> final(self).last_emitted_view() == Some(e@),
            r matches Err(e) ==> node_error(e),
    {
        let mut last = match &self.last_emitted {
            Some(e) => copy_bytes(e),
            None => Vec::new(),
        };
        let taken = subflow_complete_serialized(
            &mut self.steps,
            &mut self.cursor,
            self.state.clone(),
            &mut last,
            completion,
        );
        match taken {
            Ok((next, emitted)) => {
                self.state = next;
                self.last_emitted = Some(copy_bytes(&emitted));
                Ok(emitted)
            },
            Err(e) => Err(e),
        }
    }

    /// Asks for a request with `input` and answers it with `completion`,
    /// giving the value emitted.
    pub fn next(&mut self, input: Vec<u8>, completion: Result<Vec<u8>, Vec<u8>>) -> (r: Result<Vec<u8>, ExecutorError>)
        requires
            old(self).wf(),
        ensures
            final(self).wf(),
            final(self).len_view() == old(self).len_view(),
            old(self).cursor_view() <= final(self).cursor_view(),
            old(self).complete_spec() ==> r matches Err(ExecutorError::Complete),
            r matches Ok(e) ==> final(self).last_emitted_view() == Some(e@),
            r matches Err(e) ==> node_error(e),
    {
        match self.next_request(input) {
            Ok(_) => {},
            Err(e) => return Err(e),
        }
        self.complete_serialized(completion)
    }

    /// Runs the flow to its end, one input and completion pair per request,
    /// and gives the emitted values in order. Running out of pairs before
    /// the end is `NotEnoughCompletions`.
    pub fn advance_to_end(&mut self, inputs: Vec<(Vec<u8>, Result<Vec<u8>, Vec<u8>>)>) -> (r: Result<
        Vec<Vec<u8>>,
        ExecutorError,
    >)
        requires
            old(self).wf(),
        ensures
            final(self).wf(),
            final(self).len_view() == old(self).len_view(),
            old(self).cursor_view() <= final(self).cursor_view(),
            r is Ok ==> final(self).complete_spec(),
            r matches Ok(v) ==> v.len() <= inputs.len(),
            old(self).complete_spec() ==> (r matches Ok(v) && v.len() == 0),
            r matches Ok(v) ==> (v.len() > 0 ==> final(self).last_emitted_view() == Some(v@.last()@)),
            r matches Err(ExecutorError::NotEnoughCompletions) ==> !final(self).complete_spec(),
    {
        let mut emitted: Vec<Vec<u8>> = Vec::new();
        let mut pairs = inputs;
        let n: usize = pairs.len();
        self.settle_without_progress()?;
        let ghost cursor0 = old(self).cursor_view();
        while !self.is_complete()
            invariant
                self.wf(),
                self.len_view() == old(self).len_view(),
                cursor0 <= self.cursor_view(),
                cursor0 == old(self).cursor_view(),
                emitted.len() + pairs.len() == n,
                old(self).complete_spec() ==> emitted.len() == 0,
                emitted.len() > 0 ==> self.last_emitted_view() == Some(emitted@.last()@),
                n == inputs.len(),
            decreases pairs.len(),
        {
            if pairs.len() == 0 {
                return Err(ExecutorError::NotEnoughCompletions);
            }
            let (input, completion) = pairs.remove(0);
            let out = self.next(input, completion);
            match out {
                Ok(e) => emitted.push(e),
                Err(err) => return Err(err),
            }
        }
        Ok(emitted)
    }
}

} // verus!
