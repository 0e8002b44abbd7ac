pub mod ast;
pub mod attempt;
pub mod attempt_flow;
pub mod behavior;
pub mod conditional;
pub mod conditional_flow;
pub mod control;
pub mod envelope;
pub mod flow;
pub mod error;
pub mod executor;
pub mod graph;
pub mod join;
pub mod join_flow;
pub mod labels;
pub mod lifecycle;
pub mod live;
pub mod panel;
pub mod select;
pub mod select_flow;
pub mod sequence;
pub mod session;
pub mod step_flow;
pub mod taxonomy;
pub mod transparent;
pub mod transparent_flow;
pub mod transport;
pub mod while_flow;
pub mod while_loop;

pub use ast::JourneyAst;
pub use behavior::{
    Absorb, AbsorbFn, AbsorbMapper, Animal, Aspect, BoundAction, BoundFlowStep, ComposeCarrier, EffectCompletion,
    EffectRequest, EffectSchema, Emit, EmitFn, EmitMapper, FocusedAbsorb, FocusedEmit, Fuse, Identity, NoEffect,
    PassthroughEmit, ScopeReboundAction, ScopedAnimal, Sleep, SleepError, SleepStep, StateCarrier, UnitEmit, Vessel,
};
pub use attempt_flow::AttemptFlow;
pub use conditional_flow::ConditionalFlow;
pub use control::ControlInput;
pub use error::{Error, ExecutorError, Failure, Refusal};
pub use executor::ManualExecutor;
pub use flow::{ByteSeq, CharSeq, DynFlow, ErasedFlow, ExecRequest};
pub use join_flow::{JoinFlow, StateMerge};
pub use select_flow::SelectFlow;
pub use step_flow::{StepAction, TypedErasedStep};
pub use transparent_flow::TransparentFlow;
pub use while_flow::{BodyBuilder, WhileFlow};
pub use graph::{ClusterInfo, ClusterKind, DebugGraph, DebugGraphNode, GraphModel, NodeDisplay, StepKind};
pub use labels::{dedup, short_type_name_str, truncate_label};
pub use lifecycle::LifecycleState;
pub use live::{
    infer_condition_runtime_state, node_phase_for_display, runtime_state_for_live_data, AnyAnimal, ClusterLive,
    LiveData, Phase, RuntimeState,
};
pub use panel::{ClusterViewCtx, StepViewCtx, VisibleOwner};
pub use taxonomy::{Class, Family, Genus, Order, Phylum, Species};
pub use transport::{
    BackendError, ClaimedPerturbable, JourneyEvent, JourneyRecord, JourneyStatus, JourneyUpdateEvent,
    NodeLifecycle, NodeLifecyclePhase, OwnerWake, RunnerOut, RunnerUpdateOut, SupportedAnimal, WireIn,
    WireOut, Work,
};
