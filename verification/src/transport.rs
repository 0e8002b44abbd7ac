use vstd::prelude::*;

verus! {

/// Journey and timer identifiers are `uuid::Uuid` values, carried through
/// unchanged.
#[verifier::external_type_specification]
#[verifier::external_body]
pub struct ExUuid(uuid::Uuid);

/// `Uuid::clone` (derived, and `Uuid` is `Copy`): the clone is the same value.
pub assume_specification[ <uuid::Uuid as Clone>::clone ](u: &uuid::Uuid) -> (res: uuid::Uuid)
    ensures
        res == *u,
;

/// An error reported by a persistence backend.
#[derive(Debug, Clone)]
pub enum BackendError {
    Message(String),
}

impl BackendError {
    /// The text the error displays.
    pub fn message(&self) -> (text: String)
        ensures
            match self {
                BackendError::Message(m) => text@ == m@,
            },
    {
        match self {
            BackendError::Message(m) => m.clone(),
        }
    }
}

/// Phase of a node activation reported in a journey's history.
#[derive(Debug, Clone, Copy, PartialEq, Eq, Structural)]
pub enum NodeLifecyclePhase {
    Entered,
    Succeeded,
    Failed,
}

/// One lifecycle event of one activation of a flow node.
#[derive(Debug, Clone)]
pub struct NodeLifecycle {
    pub node_id: u32,
    pub activation_path: Vec<u64>,
    pub phase: NodeLifecyclePhase,
    pub uuid: uuid::Uuid,
}

/// Transport messages sent from runners to external clients.
#[derive(Debug, Clone)]
pub enum RunnerOut {
    NodeLifecycle(NodeLifecycle),
    EffectInput { node_id: u32, data: Vec<u8>, uuid: uuid::Uuid },
    EffectSuccessOutput { node_id: u32, data: Vec<u8>, uuid: uuid::Uuid },
    EffectFailureOutput { node_id: u32, data: Vec<u8>, uuid: uuid::Uuid },
    Appearance { data: Vec<u8>, uuid: uuid::Uuid },
    SleepScheduled { uuid: uuid::Uuid, timer_id: uuid::Uuid, wake_at_unix_ms: i64 },
    SleepFired { uuid: uuid::Uuid, timer_id: uuid::Uuid, fired_at_unix_ms: i64 },
}

/// A runner message with its position in the journey's history.
#[derive(Debug, Clone)]
pub struct JourneyEvent {
    pub sequence_id: u64,
    pub event: RunnerOut,
}

/// Lightweight event payload for journey update subscriptions: effect
/// variants carry no payload bytes.
#[derive(Debug, Clone)]
pub enum RunnerUpdateOut {
    NodeLifecycle(NodeLifecycle),
    EffectInput { node_id: u32, uuid: uuid::Uuid },
    EffectSuccessOutput { node_id: u32, uuid: uuid::Uuid },
    EffectFailureOutput { node_id: u32, uuid: uuid::Uuid },
    SleepScheduled { uuid: uuid::Uuid, timer_id: uuid::Uuid, wake_at_unix_ms: i64 },
    SleepFired { uuid: uuid::Uuid, timer_id: uuid::Uuid, fired_at_unix_ms: i64 },
}

/// An update delivered to journey subscribers.
#[derive(Debug, Clone)]
pub struct JourneyUpdateEvent {
    pub sequence_id: u64,
    pub event_unix_ms: i64,
    pub event: RunnerUpdateOut,
}

/// A perturbation claimed for delivery to a journey.
#[derive(Debug, Clone)]
pub struct ClaimedPerturbable {
    pub id: u64,
    pub data: Vec<u8>,
}

/// An animal generation that a runner can execute.
#[derive(Debug, Clone, Copy, PartialEq, Eq, Structural)]
pub struct SupportedAnimal {
    pub animal_id: u32,
    pub generation: u32,
}

/// A timer wake-up owed to a journey owner.
#[derive(Debug, Clone, Copy)]
pub struct OwnerWake {
    pub journey_id: uuid::Uuid,
    pub timer_id: uuid::Uuid,
}

/// Lifecycle status of a journey.
#[derive(Debug, Clone, Copy, PartialEq, Eq, Structural)]
pub enum JourneyStatus {
    Created,
    Alive,
    Stopped,
    Completed,
    Dead,
}

/// A stored journey.
#[derive(Debug, Clone)]
pub struct JourneyRecord {
    pub journey_id: uuid::Uuid,
    pub namespace: String,
    pub animal_id: u32,
    pub generation: u32,
    pub status: JourneyStatus,
    pub seed: Vec<u8>,
}

/// Work messages sent from external clients to runners.
#[derive(Debug, Clone)]
pub enum Work {
    StartJourney { journey_id: uuid::Uuid, animal_id: u32, generation: u32, seed: Vec<u8> },
    ResumeJourney { journey_id: uuid::Uuid, animal_id: u32, generation: u32, seed: Vec<u8> },
}

/// Wire-level messages sent from external clients to runners.
#[derive(Debug, Clone)]
pub enum WireIn {
    /// Servers reject creation when `generation` exceeds their latest known
    /// generation of `animal_id`.
    CreateJourney { namespace: String, animal_id: u32, generation: u32, seed: Vec<u8> },
    JourneyHistory(uuid::Uuid),
    JourneyStatus(uuid::Uuid),
    ListJourneys { namespace: String },
    SubscribeJourneyUpdates { journey_id: uuid::Uuid, after_sequence_id: Option<u64> },
    AnimalAppearance(uuid::Uuid),
    PerturbAnimal { journey_id: uuid::Uuid, data: Vec<u8> },
    ClaimPerturbable(uuid::Uuid),
    AckPerturbable { journey_id: uuid::Uuid, perturbation_id: u64 },
    HeartbeatJourneyLease { journey_id: uuid::Uuid, owner_id: uuid::Uuid, lease_ttl_ms: i64 },
    PollOwnerWake { owner_id: uuid::Uuid },
    ScheduleSleep { journey_id: uuid::Uuid, timer_id: uuid::Uuid, wake_at_unix_ms: i64 },
    JourneyComplete(uuid::Uuid),
    JourneyDead(uuid::Uuid),
    PollStep { namespace: String, supported_animals: Vec<SupportedAnimal> },
    WaitForWorkerWake {
        owner_id: uuid::Uuid,
        namespace: String,
        supported_animals: Vec<SupportedAnimal>,
        timeout_ms: u64,
    },
    PollTimers,
    HistoryEvent { event: RunnerOut, event_unix_ms: i64 },
}

/// Wire-level messages sent from runners to external clients.
#[derive(Debug, Clone)]
pub enum WireOut {
    JourneyCreated(uuid::Uuid),
    JourneyHistory(Vec<RunnerOut>),
    JourneyStatus(JourneyStatus),
    Journeys(Vec<JourneyRecord>),
    JourneyUpdate(JourneyUpdateEvent),
    AnimalAppearance(Option<Vec<u8>>),
    ClaimedPerturbable(Option<ClaimedPerturbable>),
    OwnerWake(Option<OwnerWake>),
    NoAvailableSteps,
    PendingStep(Work),
    Ack,
}

} // verus!
