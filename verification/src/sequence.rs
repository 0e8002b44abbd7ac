use crate::envelope::opt_bytes_view;
use vstd::prelude::*;

verus! {

/// The position of a run through a sequence of flow nodes, as an executor
/// or a branch keeps it: the number of nodes, the position of the node to
/// run next, and the last value a node emitted, which is the next node's
/// input.
pub struct SequenceProgress {
    len: usize,
    cursor: usize,
    last_emitted: Option<Vec<u8>>,
}

/// Mathematical model of a [`SequenceProgress`].
pub struct SequenceView {
    pub len: usize,
    pub cursor: usize,
    pub last_emitted: Option<Seq<u8>>,
}

impl View for SequenceProgress {
    type V = SequenceView;

    closed spec fn view(&self) -> SequenceView {
        SequenceView { len: self.len, cursor: self.cursor, last_emitted: opt_bytes_view(self.last_emitted) }
    }
}

/// The position never passes the end of the sequence.
pub open spec fn sequence_wf(v: SequenceView) -> bool {
    v.cursor <= v.len
}

/// What follows a node that answered `Complete` and was then settled inline.
#[derive(Debug, Clone, Copy, PartialEq, Eq, Structural)]
pub enum InlineStep {
    /// Ask the sequence for its next request again.
    Continue,
    /// Settle the sequence, then answer `Complete` if it has ended and ask
    /// again otherwise.
    SettleAgain,
}

/// A node settled without a request, having emitted `emitted` and
/// completed or not: an emitted value becomes the next input; a completed
/// node is passed and settling goes on.
pub open spec fn settle_node_spec(v: SequenceView, emitted: Option<Seq<u8>>, completed: bool) -> (SequenceView, bool) {
    let e = SequenceView { last_emitted: if emitted is Some { emitted } else { v.last_emitted }, ..v };
    if completed {
        (SequenceView { cursor: (v.cursor + 1) as usize, ..e }, true)
    } else {
        (e, false)
    }
}

/// A node that answered `Complete` and was settled inline: an emitted
/// value becomes the next input; a completed node is passed; the request
/// is asked again when the node completed or emitted, and the sequence is
/// settled first otherwise.
pub open spec fn inline_spec(v: SequenceView, emitted: Option<Seq<u8>>, completed: bool) -> (SequenceView, InlineStep) {
    let e = SequenceView { last_emitted: if emitted is Some { emitted } else { v.last_emitted }, ..v };
    if completed {
        (SequenceView { cursor: (v.cursor + 1) as usize, ..e }, InlineStep::Continue)
    } else if emitted is Some {
        (e, InlineStep::Continue)
    } else {
        (e, InlineStep::SettleAgain)
    }
}

impl SequenceProgress {
    /// A run at the start of a sequence of `len` nodes.
    pub fn new(len: usize) -> (s: SequenceProgress)
        ensures
            s@ == (SequenceView { len, cursor: 0, last_emitted: None }),
            sequence_wf(s@),
    {
        SequenceProgress { len, cursor: 0, last_emitted: None }
    }

    /// Whether every node of the sequence has run.
    pub fn is_complete(&self) -> (b: bool)
        ensures
            b == (self@.cursor >= self@.len),
    {
        self.cursor >= self.len
    }

    /// The position of the node to run next, if one is left.
    pub fn current_node(&self) -> (i: Option<usize>)
        ensures
            i == (if self@.cursor < self@.len { Some(self@.cursor) } else { None::<usize> }),
    {
        if self.cursor < self.len {
            Some(self.cursor)
        } else {
            None
        }
    }

    /// The input for the next request: the last emitted value, which is
    /// then forgotten, or `input` when there is none.
    pub fn take_input(&mut self, input: Vec<u8>) -> (next: Vec<u8>)
        requires
            sequence_wf(old(self)@),
        ensures
            next@ == match old(self)@.last_emitted {
                Some(e) => e,
                None => input@,
            },
            final(self)@ == (SequenceView { last_emitted: None, ..old(self)@ }),
            sequence_wf(final(self)@),
    {
        match self.last_emitted.take() {
            Some(e) => e,
            None => input,
        }
    }

    /// Takes the current node settled without a request; tells whether
    /// settling goes on with the next node.
    pub fn settle_node(&mut self, emitted: Option<Vec<u8>>, completed: bool) -> (more: bool)
        requires
            sequence_wf(old(self)@),
            old(self)@.cursor < old(self)@.len,
        ensures
            (final(self)@, more) == settle_node_spec(old(self)@, opt_bytes_view(emitted), completed),
            sequence_wf(final(self)@),
    {
        if emitted.is_some() {
            self.last_emitted = emitted;
        }
        if completed {
            self.cursor = self.cursor + 1;
            true
        } else {
            false
        }
    }

    /// Takes the current node that answered `Complete` and was settled inline.
    pub fn after_inline_complete(&mut self, emitted: Option<Vec<u8>>, completed: bool) -> (step: InlineStep)
        requires
            sequence_wf(old(self)@),
            old(self)@.cursor < old(self)@.len,
        ensures
            (final(self)@, step) == inline_spec(old(self)@, opt_bytes_view(emitted), completed),
            sequence_wf(final(self)@),
    {
        let made_progress = emitted.is_some();
        if made_progress {
            self.last_emitted = emitted;
        }
        if completed {
            self.cursor = self.cursor + 1;
            InlineStep::Continue
        } else if made_progress {
            InlineStep::Continue
        } else {
            InlineStep::SettleAgain
        }
    }

    /// The current node took a completion: it is passed when it completed.
    pub fn pass_completed(&mut self, node_complete: bool)
        requires
            sequence_wf(old(self)@),
            old(self)@.cursor < old(self)@.len,
        ensures
            final(self)@ == (SequenceView {
                cursor: if node_complete { (old(self)@.cursor + 1) as usize } else { old(self)@.cursor },
                ..old(self)@
            }),
            sequence_wf(final(self)@),
    {
        if node_complete {
            self.cursor = self.cursor + 1;
        }
    }

    /// Records `emitted` as the last emitted value.
    pub fn record_emitted(&mut self, emitted: Vec<u8>)
        requires
            sequence_wf(old(self)@),
        ensures
            final(self)@ == (SequenceView { last_emitted: Some(emitted@), ..old(self)@ }),
            sequence_wf(final(self)@),
    {
        self.last_emitted = Some(emitted);
    }
}

/// A run only moves forward: no step moves the position back, and
/// settling stops exactly at a node that did not complete.
pub proof fn lemma_sequence_moves_forward(v: SequenceView, emitted: Option<Seq<u8>>, completed: bool)
    requires
        sequence_wf(v),
        v.cursor < v.len,
    ensures
        settle_node_spec(v, emitted, completed).0.cursor >= v.cursor,
        inline_spec(v, emitted, completed).0.cursor >= v.cursor,
        settle_node_spec(v, emitted, completed).1 == completed,
        sequence_wf(settle_node_spec(v, emitted, completed).0),
        sequence_wf(inline_spec(v, emitted, completed).0),
{
}

} // verus!
