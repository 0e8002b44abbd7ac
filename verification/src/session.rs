use crate::graph::StepKind;
use crate::labels::{decimal_spec, push_decimal};
use crate::live::{apply_update_spec, empty_live, highlight_changed_spec, LiveData, LiveView};
use crate::transport::JourneyUpdateEvent;
use vstd::prelude::*;
use vstd::string::StringExecFns;

verus! {

broadcast use {
    vstd::laws_cmp::group_laws_cmp,
    vstd::std_specs::btree::group_btree_axioms,
};

/// What a viewer knows of the live journey it shows.
#[derive(Debug)]
pub enum LiveState {
    /// A static view: no live data is expected.
    Idle,
    /// Waiting for the live update stream.
    Loading,
    /// The live update stream failed with this message.
    Error(String),
    /// Live data folded from the updates received so far.
    Loaded(LiveData),
}

/// Mathematical model of a [`LiveState`].
pub enum LiveStateView {
    Idle,
    Loading,
    Error(Seq<char>),
    Loaded(LiveView),
}

impl View for LiveState {
    type V = LiveStateView;

    open spec fn view(&self) -> LiveStateView {
        match self {
            LiveState::Idle => LiveStateView::Idle,
            LiveState::Loading => LiveStateView::Loading,
            LiveState::Error(e) => LiveStateView::Error(e@),
            LiveState::Loaded(d) => LiveStateView::Loaded(d@),
        }
    }
}

/// The live data that the next update is folded into: the loaded data, or
/// nothing yet.
pub open spec fn live_base(s: LiveStateView) -> LiveView {
    match s {
        LiveStateView::Loaded(d) => d,
        _ => empty_live(),
    }
}

/// The status line shown in the sidebar.
pub open spec fn status_text_spec(s: LiveStateView) -> Seq<char> {
    match s {
        LiveStateView::Idle => seq!['i', 'd', 'l', 'e'],
        LiveStateView::Loading => "loading live history..."@,
        LiveStateView::Error(e) => "live update failed: "@ + e,
        LiveStateView::Loaded(d) => "events: "@ + decimal_spec(d.latest_event_count as nat) + "  active: "@
            + decimal_spec(d.active.len()) + "  done: "@ + decimal_spec(d.finished.len()) + "  failed: "@
            + decimal_spec(d.failed.len()),
    }
}

impl LiveState {
    /// The state a view starts in: loading for a live journey, idle otherwise.
    pub fn new(live: bool) -> (s: LiveState)
        ensures
            live ==> s@ is Loading,
            !live ==> s@ is Idle,
    {
        if live {
            LiveState::Loading
        } else {
            LiveState::Idle
        }
    }

    /// Records that the live update stream failed.
    pub fn fail(&mut self, error: String)
        ensures
            final(self)@ == LiveStateView::Error(error@),
    {
        *self = LiveState::Error(error);
    }

    /// Folds an update into the live data, starting from empty data unless
    /// some is loaded, and reports whether the highlighted nodes changed.
    pub fn apply(&mut self, update: JourneyUpdateEvent) -> (changed: bool)
        ensures
            final(self)@ == LiveStateView::Loaded(
                apply_update_spec(live_base(old(self)@), update.event, update.sequence_id as usize),
            ),
            changed == highlight_changed_spec(live_base(old(self)@), update.event),
    {
        let mut current = LiveState::Idle;
        std::mem::swap(&mut current, self);
        let mut data = match current {
            LiveState::Loaded(data) => data,
            _ => LiveData::default(),
        };
        let changed = data.apply_update(update);
        *self = LiveState::Loaded(data);
        changed
    }

    /// Asks for the live stream again: a live view starts a new subscription
    /// generation and waits for updates; a static view is left as it is.
    pub fn retry(&mut self, live: bool, generation: &mut u64)
        ensures
            live ==> final(self)@ is Loading && *final(generation) == (if *old(generation) == u64::MAX {
                u64::MAX
            } else {
                (*old(generation) + 1) as u64
            }),
            !live ==> final(self)@ == old(self)@ && *final(generation) == *old(generation),
    {
        if live {
            *generation = generation.saturating_add(1);
            *self = LiveState::Loading;
        }
    }

    /// The status line shown in the sidebar.
    pub fn status_text(&self) -> (s: String)
        ensures
            s@ == status_text_spec(self@),
    {
        match self {
            LiveState::Idle => {
                let s = String::from_str("idle");
                proof {
                    reveal_strlit("idle");
                }
                assert(s@ =~= seq!['i', 'd', 'l', 'e']);
                s
            },
            LiveState::Loading => String::from_str("loading live history..."),
            LiveState::Error(error) => {
                let mut s = String::from_str("live update failed: ");
                s.append(error.as_str());
                s
            },
            LiveState::Loaded(data) => {
                let mut s = String::from_str("events: ");
                push_decimal(&mut s, data.latest_event_count as u64);
                s.append("  active: ");
                push_decimal(&mut s, data.active_runtime_ids.len() as u64);
                s.append("  done: ");
                push_decimal(&mut s, data.finished_runtime_ids.len() as u64);
                s.append("  failed: ");
                push_decimal(&mut s, data.failed_runtime_ids.len() as u64);
                s
            },
        }
    }
}

/// The badge a default-themed step node carries.
pub fn step_badge(kind: StepKind) -> (badge: &'static str)
    ensures
        kind == StepKind::Conditional ==> badge@ == "condition"@,
        kind == StepKind::Select ==> badge@ == "select"@,
        kind == StepKind::Join ==> badge@ == "join"@,
        kind == StepKind::Step ==> badge@ == "step"@,
{
    match kind {
        StepKind::Conditional => "condition",
        StepKind::Select => "select",
        StepKind::Join => "join",
        StepKind::Step => "step",
    }
}

} // verus!
