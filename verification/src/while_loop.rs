use crate::envelope::{copy_bytes, opt_bytes_view};
use crate::lifecycle::{enter_spec, finish_spec, initial_lifecycle, LifecycleState, LifecycleView};
use crate::transport::NodeLifecyclePhase;
use vstd::prelude::*;

verus! {

/// The control state of a loop: whether a body iteration is under way and
/// the position in it, whether the loop has stopped, the value that
/// decides the next iteration, the last value a body node emitted, and the
/// loop node's own lifecycle. Every iteration runs a fresh body of
/// `body_len` nodes, numbered from `body_node_id_start`.
pub struct WhileProgress {
    lifecycle: LifecycleState,
    node_id: u32,
    body_len: usize,
    body_node_id_start: u32,
    body_active: bool,
    body_cursor: usize,
    complete: bool,
    deferred_emitted: Option<Vec<u8>>,
    active_control_input: Option<Vec<u8>>,
}

/// Mathematical model of a [`WhileProgress`].
pub struct WhileView {
    pub node_id: u32,
    pub body_len: usize,
    pub body_node_id_start: u32,
    pub body_active: bool,
    pub body_cursor: usize,
    pub complete: bool,
    pub deferred_emitted: Option<Seq<u8>>,
    pub control_input: Option<Seq<u8>>,
    pub lifecycle: LifecycleView,
}

impl View for WhileProgress {
    type V = WhileView;

    closed spec fn view(&self) -> WhileView {
        WhileView {
            node_id: self.node_id,
            body_len: self.body_len,
            body_node_id_start: self.body_node_id_start,
            body_active: self.body_active,
            body_cursor: self.body_cursor,
            complete: self.complete,
            deferred_emitted: opt_bytes_view(self.deferred_emitted),
            control_input: opt_bytes_view(self.active_control_input),
            lifecycle: self.lifecycle@,
        }
    }
}

/// An iteration under way is inside a non-empty body; between iterations
/// the position is at the start; a stopped loop runs no iteration.
pub open spec fn while_wf(v: WhileView) -> bool {
    &&& v.body_active ==> v.body_cursor < v.body_len
    &&& !v.body_active ==> v.body_cursor == 0
    &&& v.complete ==> !v.body_active
}

/// How a request to a loop starts.
#[derive(Debug)]
pub enum WhileStart {
    /// The loop has stopped.
    Complete,
    /// An iteration is under way: its current node is asked.
    Resume,
    /// A new iteration may start: this value decides whether it does.
    Decide(Vec<u8>),
}

/// The start of a request with `input` as the body input: a stopped loop
/// answers `Complete`; between iterations, the value kept to decide the
/// next iteration is used, or `input` when none is kept, and is kept.
pub open spec fn start_spec(v: WhileView, input: Seq<u8>) -> (WhileView, Option<Seq<u8>>, bool) {
    if v.complete {
        (v, None, true)
    } else if v.body_active {
        (v, None, false)
    } else {
        let c = match v.control_input {
            Some(c) => c,
            None => input,
        };
        (WhileView { control_input: Some(c), ..v }, Some(c), false)
    }
}

/// The loop stops: it is complete, forgets its deciding value, and its
/// activation succeeds.
pub open spec fn stop_spec(v: WhileView) -> WhileView {
    WhileView {
        complete: true,
        control_input: None,
        lifecycle: finish_spec(v.lifecycle, NodeLifecyclePhase::Succeeded),
        ..v
    }
}

/// An iteration is entered: the loop's activation is entered if none is
/// open, and a fresh body starts at its first node unless one is under way.
pub open spec fn enter_iteration_spec(v: WhileView) -> WhileView {
    let e = WhileView { lifecycle: enter_spec(v.lifecycle), ..v };
    if v.body_active {
        e
    } else {
        WhileView { body_active: true, body_cursor: 0, ..e }
    }
}

/// What the current body node did when asked for a request.
#[derive(Debug, Clone, Copy, PartialEq, Eq, Structural)]
pub enum BodyAdvance {
    /// It handed out an effect request.
    Request,
    /// It completed inline.
    Completed,
    /// It emitted a value inline without completing.
    Progress,
    /// One of its actions failed.
    ActionFailure,
    /// It reported any other error, or could make no progress.
    OtherError,
}

/// What a loop does after its current body node answered.
#[derive(Debug, Clone, Copy, PartialEq, Eq, Structural)]
pub enum WhileStep {
    /// Hand out the node's request.
    Request,
    /// Go on serving the request.
    Continue,
    /// Pass the node's failure or error up.
    PassUp,
}

/// The position moved past a completed body node; past the last one the
/// iteration ends.
pub open spec fn pass_node(v: WhileView) -> WhileView {
    if v.body_cursor + 1 >= v.body_len {
        WhileView { body_active: false, body_cursor: 0, ..v }
    } else {
        WhileView { body_cursor: (v.body_cursor + 1) as usize, ..v }
    }
}

/// How a loop takes what its current body node did, with `input` the body
/// input so far. A request forgets the last emitted value. A completed
/// node is passed; what it emitted becomes the body input and the last
/// emitted value, and, when it ended the iteration, the value deciding the
/// next one. A node that only emitted passes the value on the same way
/// without moving. A failed action fails the loop's activation.
pub open spec fn after_node_spec(v: WhileView, advance: BodyAdvance, emitted: Option<Seq<u8>>, input: Seq<u8>) -> (
    WhileView,
    WhileStep,
    Seq<u8>,
) {
    match advance {
        BodyAdvance::Request => (WhileView { deferred_emitted: None, ..v }, WhileStep::Request, input),
        BodyAdvance::Completed => {
            let p = pass_node(v);
            match emitted {
                Some(e) => (
                    WhileView {
                        control_input: if p.body_active { p.control_input } else { Some(e) },
                        deferred_emitted: Some(e),
                        ..p
                    },
                    WhileStep::Continue,
                    e,
                ),
                None => (p, WhileStep::Continue, input),
            }
        },
        BodyAdvance::Progress => match emitted {
            Some(e) => (WhileView { deferred_emitted: Some(e), ..v }, WhileStep::Continue, e),
            None => (v, WhileStep::Continue, input),
        },
        BodyAdvance::ActionFailure => (
            WhileView { lifecycle: finish_spec(v.lifecycle, NodeLifecyclePhase::Failed), ..v },
            WhileStep::PassUp,
            input,
        ),
        BodyAdvance::OtherError => (v, WhileStep::PassUp, input),
    }
}

/// How a loop takes a completion given to its current body node that
/// `node_complete` tells whether it completed and `emitted` what it
/// emitted: a completed node is passed, and when it ended the iteration
/// its value decides the next one.
pub open spec fn after_completion_spec(v: WhileView, node_complete: bool, emitted: Seq<u8>) -> WhileView {
    if node_complete {
        let p = pass_node(v);
        if p.body_active {
            p
        } else {
            WhileView { control_input: Some(emitted), ..p }
        }
    } else {
        v
    }
}

/// What settling a loop without a request starts with.
#[derive(Debug)]
pub enum WhileSettle {
    /// The loop has stopped; this last emitted value, if any, is handed out.
    Finished(Option<Vec<u8>>),
    /// Walk the body's nodes, carrying this last emitted value.
    Walk(Option<Vec<u8>>),
}

/// How a loop takes a body node settled without a request, carrying
/// `carried`: what the node emitted replaces it; a completed node is
/// passed and the walk goes on, unless it ended the iteration, whose last
/// value then, if there is one, decides the next iteration.
pub open spec fn settle_node_spec(v: WhileView, emitted: Option<Seq<u8>>, completed: bool, carried: Option<Seq<u8>>) -> (
    WhileView,
    Option<Seq<u8>>,
    bool,
) {
    let out = if emitted is Some { emitted } else { carried };
    if completed {
        let p = pass_node(v);
        if p.body_active {
            (p, out, true)
        } else {
            (WhileView { control_input: if out is Some { out } else { p.control_input }, ..p }, out, false)
        }
    } else {
        (v, out, false)
    }
}

impl WhileProgress {
    /// A loop whose body has `body_len` nodes.
    pub fn new(body_len: usize) -> (w: WhileProgress)
        ensures
            w@ == (WhileView {
                node_id: 0,
                body_len,
                body_node_id_start: 0,
                body_active: false,
                body_cursor: 0,
                complete: false,
                deferred_emitted: None,
                control_input: None,
                lifecycle: initial_lifecycle(),
            }),
            while_wf(w@),
    {
        WhileProgress {
            lifecycle: LifecycleState::new(),
            node_id: 0,
            body_len,
            body_node_id_start: 0,
            body_active: false,
            body_cursor: 0,
            complete: false,
            deferred_emitted: None,
            active_control_input: None,
        }
    }

    /// Whether the loop has stopped.
    pub fn is_complete(&self) -> (b: bool)
        ensures
            b == self@.complete,
    {
        self.complete
    }

    /// The position of the current body node, while an iteration is under way.
    pub fn current_node(&self) -> (i: Option<usize>)
        ensures
            i == (if self@.body_active { Some(self@.body_cursor) } else { None::<usize> }),
    {
        if self.body_active {
            Some(self.body_cursor)
        } else {
            None
        }
    }

    /// The journey the loop runs in, once known.
    pub fn journey_id(&self) -> (id: Option<uuid::Uuid>)
        ensures
            id == self@.lifecycle.journey_id,
    {
        self.lifecycle.journey_id()
    }

    /// The number of nodes of the body.
    pub fn body_len(&self) -> (n: usize)
        ensures
            n == self@.body_len,
    {
        self.body_len
    }

    /// Whether a body iteration is under way.
    pub fn body_active(&self) -> (b: bool)
        ensures
            b == self@.body_active,
    {
        self.body_active
    }

    /// The id the first node of every body iteration is numbered from.
    pub fn body_node_id_start(&self) -> (id: u32)
        ensures
            id == self@.body_node_id_start,
    {
        self.body_node_id_start
    }

    /// Starts a request whose body input is `input`.
    pub fn start(&mut self, input: &Vec<u8>) -> (s: WhileStart)
        requires
            while_wf(old(self)@),
        ensures
            final(self)@ == start_spec(old(self)@, input@).0,
            while_wf(final(self)@),
            old(self)@.complete ==> *final(self) == *old(self),
            match s {
                WhileStart::Complete => start_spec(old(self)@, input@).2,
                WhileStart::Resume => !start_spec(old(self)@, input@).2 && start_spec(old(self)@, input@).1 is None,
                WhileStart::Decide(c) => start_spec(old(self)@, input@).1 == Some(c@),
            },
    {
        if self.complete {
            return WhileStart::Complete;
        }
        if self.body_active {
            return WhileStart::Resume;
        }
        let c = match &self.active_control_input {
            Some(c) => copy_bytes(c),
            None => copy_bytes(input),
        };
        self.active_control_input = Some(copy_bytes(&c));
        WhileStart::Decide(c)
    }

    /// Stops the loop, when its deciding value says not to go on.
    pub fn stop(&mut self)
        requires
            while_wf(old(self)@),
            !old(self)@.body_active,
        ensures
            final(self)@ == stop_spec(old(self)@),
            while_wf(final(self)@),
    {
        self.complete = true;
        self.active_control_input = None;
        self.lifecycle.succeed();
    }

    /// Enters an iteration; tells whether a fresh body is to be built.
    pub fn enter_iteration(&mut self) -> (fresh: bool)
        requires
            while_wf(old(self)@),
            !old(self)@.complete,
            old(self)@.body_len > 0,
        ensures
            final(self)@ == enter_iteration_spec(old(self)@),
            fresh == !old(self)@.body_active,
            while_wf(final(self)@),
    {
        self.lifecycle.enter();
        if self.body_active {
            false
        } else {
            self.body_active = true;
            self.body_cursor = 0;
            true
        }
    }

    fn pass_node(&mut self)
        requires
            while_wf(old(self)@),
            old(self)@.body_active,
        ensures
            final(self)@ == pass_node(old(self)@),
            while_wf(final(self)@),
    {
        if self.body_cursor + 1 >= self.body_len {
            self.body_active = false;
            self.body_cursor = 0;
        } else {
            self.body_cursor = self.body_cursor + 1;
        }
    }

    /// Takes what the current body node did, with `input` the body input
    /// so far; gives the next step and the body input that follows.
    pub fn after_node(&mut self, advance: BodyAdvance, emitted: Option<Vec<u8>>, input: Vec<u8>) -> (r: (
        WhileStep,
        Vec<u8>,
    ))
        requires
            while_wf(old(self)@),
            old(self)@.body_active,
        ensures
            (final(self)@, r.0, r.1@) == after_node_spec(old(self)@, advance, opt_bytes_view(emitted), input@),
            while_wf(final(self)@),
    {
        match advance {
            BodyAdvance::Request => {
                self.deferred_emitted = None;
                (WhileStep::Request, input)
            },
            BodyAdvance::Completed => {
                self.pass_node();
                match emitted {
                    Some(e) => {
                        if !self.body_active {
                            self.active_control_input = Some(copy_bytes(&e));
                        }
                        self.deferred_emitted = Some(copy_bytes(&e));
                        (WhileStep::Continue, e)
                    },
                    None => (WhileStep::Continue, input),
                }
            },
            BodyAdvance::Progress => match emitted {
                Some(e) => {
                    self.deferred_emitted = Some(copy_bytes(&e));
                    (WhileStep::Continue, e)
                },
                None => (WhileStep::Continue, input),
            },
            BodyAdvance::ActionFailure => {
                self.lifecycle.fail();
                (WhileStep::PassUp, input)
            },
            BodyAdvance::OtherError => (WhileStep::PassUp, input),
        }
    }

    /// Records that an action of the current body node failed while it
    /// took a completion.
    pub fn fail(&mut self)
        requires
            while_wf(old(self)@),
        ensures
            final(self)@ == (WhileView {
                lifecycle: finish_spec(old(self)@.lifecycle, NodeLifecyclePhase::Failed),
                ..old(self)@
            }),
            while_wf(final(self)@),
    {
        self.lifecycle.fail();
    }

    /// Takes the result of a completion given to the current body node.
    pub fn after_completion(&mut self, node_complete: bool, emitted: &Vec<u8>)
        requires
            while_wf(old(self)@),
            old(self)@.body_active,
        ensures
            final(self)@ == after_completion_spec(old(self)@, node_complete, emitted@),
            while_wf(final(self)@),
    {
        if node_complete {
            self.pass_node();
            if !self.body_active {
                self.active_control_input = Some(copy_bytes(emitted));
            }
        }
    }

    /// Starts settling without a request: a stopped loop hands out its last
    /// emitted value, forgets its deciding value and closes its activation
    /// as succeeded; otherwise the last emitted value is taken along the walk.
    pub fn settle_begin(&mut self) -> (s: WhileSettle)
        requires
            while_wf(old(self)@),
        ensures
            while_wf(final(self)@),
            old(self)@.complete ==> (s matches WhileSettle::Finished(d) && opt_bytes_view(d) == old(self)@.deferred_emitted
                && final(self)@ == (WhileView {
                deferred_emitted: None,
                control_input: None,
                lifecycle: finish_spec(old(self)@.lifecycle, NodeLifecyclePhase::Succeeded),
                ..old(self)@
            })),
            !old(self)@.complete ==> (s matches WhileSettle::Walk(d) && opt_bytes_view(d) == old(self)@.deferred_emitted
                && final(self)@ == (WhileView { deferred_emitted: None, ..old(self)@ })),
    {
        let d = self.deferred_emitted.take();
        if self.complete {
            self.active_control_input = None;
            self.lifecycle.succeed();
            return WhileSettle::Finished(d);
        }
        WhileSettle::Walk(d)
    }

    /// Takes the current body node settled without a request; gives the
    /// value carried on and whether the walk goes on to the next node.
    pub fn settle_node(&mut self, emitted: Option<Vec<u8>>, completed: bool, carried: Option<Vec<u8>>) -> (r: (
        Option<Vec<u8>>,
        bool,
    ))
        requires
            while_wf(old(self)@),
            old(self)@.body_active,
        ensures
            (final(self)@, opt_bytes_view(r.0), r.1) == settle_node_spec(
                old(self)@,
                opt_bytes_view(emitted),
                completed,
                opt_bytes_view(carried),
            ),
            while_wf(final(self)@),
    {
        let out = if emitted.is_some() { emitted } else { carried };
        if completed {
            self.pass_node();
            if self.body_active {
                (out, true)
            } else {
                if let Some(o) = &out {
                    self.active_control_input = Some(copy_bytes(o));
                }
                (out, false)
            }
        } else {
            (out, false)
        }
    }

    pub fn node_id(&self) -> (id: u32)
        ensures
            id == self@.node_id,
    {
        self.node_id
    }

    /// Gives the loop node the id `*next_id`, from which its body's nodes
    /// are numbered too, and moves `*next_id` on by one, stopping at the
    /// largest `u32`.
    pub fn assign_node_id(&mut self, next_id: &mut u32)
        requires
            while_wf(old(self)@),
        ensures
            final(self)@ == (WhileView {
                node_id: *old(next_id),
                body_node_id_start: *old(next_id),
                lifecycle: LifecycleView { node_id: *old(next_id), ..old(self)@.lifecycle },
                ..old(self)@
            }),
            *final(next_id) == if *old(next_id) == u32::MAX { u32::MAX } else { (*old(next_id) + 1) as u32 },
            while_wf(final(self)@),
    {
        self.node_id = *next_id;
        self.lifecycle.set_node_id(*next_id);
        self.body_node_id_start = *next_id;
        *next_id = next_id.saturating_add(1);
    }

    pub fn set_journey_id(&mut self, journey_id: uuid::Uuid)
        requires
            while_wf(old(self)@),
        ensures
            final(self)@ == (WhileView {
                lifecycle: LifecycleView { journey_id: Some(journey_id), ..old(self)@.lifecycle },
                ..old(self)@
            }),
            while_wf(final(self)@),
    {
        self.lifecycle.set_journey_id(journey_id);
    }

    /// Sets the path the next activation is numbered under; ignored while
    /// one is open.
    pub fn set_parent_activation_path(&mut self, path: &[u64])
        requires
            while_wf(old(self)@),
        ensures
            old(self)@.lifecycle.current_activation_path is Some ==> final(self)@ == old(self)@,
            old(self)@.lifecycle.current_activation_path is None ==> final(self)@ == (WhileView {
                lifecycle: LifecycleView { parent_activation_path: path@, ..old(self)@.lifecycle },
                ..old(self)@
            }),
            while_wf(final(self)@),
    {
        self.lifecycle.set_parent_activation_path(path);
    }

    /// The path the body's activations are numbered under: the loop's open
    /// activation, or the empty path.
    pub fn child_parent_path(&self) -> (path: Vec<u64>)
        ensures
            path@ == match self@.lifecycle.current_activation_path {
                Some(p) => p,
                None => Seq::empty(),
            },
    {
        match self.lifecycle.current_activation_path() {
            Some(p) => vstd::slice::slice_to_vec(p),
            None => Vec::new(),
        }
    }

    /// Hands out the loop node's own recorded lifecycle events and forgets them.
    pub fn take_node_lifecycle_updates(&mut self) -> (updates: Vec<crate::transport::NodeLifecycle>)
        requires
            while_wf(old(self)@),
        ensures
            updates@.map_values(|u: crate::transport::NodeLifecycle| u@) == old(self)@.lifecycle.updates,
            final(self)@ == (WhileView {
                lifecycle: LifecycleView { updates: Seq::empty(), ..old(self)@.lifecycle },
                ..old(self)@
            }),
            while_wf(final(self)@),
    {
        self.lifecycle.take_updates()
    }
}

/// A loop that has stopped answers every later request with `Complete`
/// and stays as it is.
pub proof fn lemma_stopped_loop_refuses(v: WhileView, input: Seq<u8>)
    requires
        while_wf(v),
        !v.body_active,
    ensures
        stop_spec(v).complete,
        start_spec(stop_spec(v), input) == (stop_spec(v), None::<Seq<u8>>, true),
{
}

/// The value emitted by the last node of an iteration ends the iteration
/// and decides the next one, whatever input the next request brings; the
/// next iteration starts at the first body node, inside the loop's one open
/// activation.
pub proof fn lemma_iteration_end_decides_next(v: WhileView, last: Seq<u8>, input: Seq<u8>, next_input: Seq<u8>)
    requires
        while_wf(v),
        v.body_active,
        v.body_cursor + 1 == v.body_len,
        v.lifecycle.current_activation_path is Some,
    ensures
        after_node_spec(v, BodyAdvance::Completed, Some(last), input).1 == WhileStep::Continue,
        after_node_spec(v, BodyAdvance::Completed, Some(last), input).2 == last,
        !after_node_spec(v, BodyAdvance::Completed, Some(last), input).0.body_active,
        start_spec(after_node_spec(v, BodyAdvance::Completed, Some(last), input).0, next_input).1 == Some(last),
        enter_iteration_spec(after_node_spec(v, BodyAdvance::Completed, Some(last), input).0).body_cursor == 0,
        enter_iteration_spec(after_node_spec(v, BodyAdvance::Completed, Some(last), input).0).lifecycle == v.lifecycle,
{
}

} // verus!
