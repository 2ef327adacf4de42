//! The orchestrator state machine.
//!
//! The pipeline's decisions are a pure function from the current phase and an
//! incoming event to the next phase and one outside action. The shell around
//! the library performs the action (a network call, a fetch) and feeds the
//! outcome back as the next event; block processing is strictly sequential.
//!
//! The failure policy is fail-fast: any error from execution-input
//! acquisition or remote submission aborts the whole run, and an aborted run
//! absorbs every later event without further action. The one deliberate
//! exception is registration, whose failures are downgraded to a warning.

use vstd::prelude::*;
use crate::codec::ExecutionInput;
use crate::codec::copy_bytes;
use crate::codec::encode;
use crate::codec::encode_spec;
use crate::config::Config;
use crate::errors::FetchErrorKind;
use crate::errors::PipelineError;
use crate::errors::RegistrationOutcome;
use crate::ident::Application;
use crate::ident::task_id;
use crate::ident::task_id_spec;
use crate::subscription::triggers;

verus! {

/// Where the pipeline stands between two events.
pub enum Phase {
    /// Waiting for the registration attempt's outcome.
    Registering,
    /// Waiting for the next header from the subscription.
    Watching,
    /// Waiting for the execution input of `block`.
    Executing { block: u64 },
    /// Waiting for the proving service's answer to the submission for
    /// `block`; the canonical encoding is kept for an optional estimate.
    Submitting { block: u64, encoded: Vec<u8> },
    /// Waiting for the cost estimate for `block`.
    Estimating { block: u64 },
    /// The run failed; the error is kept and every later event is absorbed.
    Aborted { error: PipelineError },
    /// The subscription ended; the run is over.
    Ended,
}

/// What the shell reports back into the state machine.
pub enum Event {
    /// The registration attempt finished with the given outcome.
    RegistrationDone { outcome: RegistrationOutcome },
    /// The subscription delivered a header with this block number.
    HeaderArrived { number: u64 },
    /// The subscription ended cleanly; no further headers will arrive.
    StreamEnded,
    /// The subscription's connection dropped; there is no reconnection
    /// policy, so the run is over.
    StreamFailed,
    /// The execution input for the awaited block is available.
    InputReady { input: ExecutionInput },
    /// Execution-input acquisition failed for the awaited block.
    InputFailed { kind: FetchErrorKind },
    /// The submission call returned; `service_error` says whether the
    /// response embedded a service-side error field.
    SubmitDone { service_error: bool },
    /// The submission call itself failed at the transport level.
    SubmitFailed,
    /// The estimate call returned; its content is informational.
    EstimateDone { service_error: bool },
    /// The estimate call itself failed at the transport level.
    EstimateFailed,
}

/// The one piece of outside work the shell performs next.
pub enum Action {
    /// No outside work.
    Nothing,
    /// Surface the failed registration as a warning; the run continues.
    WarnRegistration,
    /// Acquire the execution input for `block`, waiting for availability.
    FetchInput { block: u64 },
    /// Submit a proving task for the encoded input.
    Submit { app_id: Vec<u8>, task_id: Vec<u8>, encoded: Vec<u8>, use_gpu: bool },
    /// Request a cost estimate for the same encoded bytes just submitted.
    Estimate { app_id: Vec<u8>, encoded: Vec<u8> },
}

/// Two phases that stand for the same point of the run, entry for entry.
pub open spec fn same_phase(a: Phase, b: Phase) -> bool {
    match (a, b) {
        (Phase::Registering, Phase::Registering) => true,
        (Phase::Watching, Phase::Watching) => true,
        (Phase::Executing { block: x }, Phase::Executing { block: y }) => x == y,
        (
            Phase::Submitting { block: x, encoded: e },
            Phase::Submitting { block: y, encoded: f },
        ) => x == y && e@ == f@,
        (Phase::Estimating { block: x }, Phase::Estimating { block: y }) => x == y,
        (Phase::Aborted { error: x }, Phase::Aborted { error: y }) => x == y,
        (Phase::Ended, Phase::Ended) => true,
        _ => false,
    }
}

/// One pipeline run: a validated configuration, the application identity,
/// and the current phase.
pub struct Pipeline {
    /// The validated configuration the run was started with.
    pub config: Config,
    /// The content-derived application identity, registered at start.
    pub app_id: Vec<u8>,
    /// Where the run stands.
    pub phase: Phase,
}

/// The orchestrator's transition relation: from `pre` and `event` to `next`
/// and the one outside `action`, one clause per phase.
pub open spec fn step_rel(pre: Pipeline, event: Event, next: Pipeline, action: Action) -> bool {
    &&& next.config == pre.config
    &&& next.app_id@ == pre.app_id@
    &&& pre.phase is Registering ==> (match event {
        Event::RegistrationDone { outcome } => next.phase is Watching && (if outcome
            is OtherFailure {
            action is WarnRegistration
        } else {
            action is Nothing
        }),
        _ => same_phase(next.phase, pre.phase) && action is Nothing,
    })
    &&& pre.phase is Watching ==> (match event {
        Event::HeaderArrived { number } => {
            if triggers(number, pre.config.block_interval) {
                &&& next.phase matches Phase::Executing { block } && block == number
                &&& action matches Action::FetchInput { block } && block == number
            } else {
                next.phase is Watching && action is Nothing
            }
        },
        Event::StreamEnded => next.phase is Ended && action is Nothing,
        Event::StreamFailed => next.phase matches Phase::Aborted { error } && error
            == PipelineError::ChainConnectivity && action is Nothing,
        _ => same_phase(next.phase, pre.phase) && action is Nothing,
    })
    &&& pre.phase matches Phase::Executing { block: n } ==> (match event {
        Event::InputReady { input } => {
            &&& next.phase matches Phase::Submitting { block, encoded } && block == n
                && encoded@ == encode_spec(seq![input@])
            &&& action matches Action::Submit { app_id, task_id, encoded, use_gpu } && app_id@
                == pre.app_id@ && task_id@ == task_id_spec(n) && encoded@ == encode_spec(
                seq![input@]) && use_gpu == pre.config.use_gpu
        },
        Event::InputFailed { kind } => {
            &&& next.phase matches Phase::Aborted { error } && error == (PipelineError::Fetch {
                block: n,
                kind,
            })
            &&& action is Nothing
        },
        _ => same_phase(next.phase, pre.phase) && action is Nothing,
    })
    &&& pre.phase matches Phase::Submitting { block: n, encoded: enc } ==> (match event {
        Event::SubmitDone { service_error } => {
            if pre.config.estimate_cost {
                &&& next.phase matches Phase::Estimating { block } && block == n
                &&& action matches Action::Estimate { app_id, encoded } && app_id@
                    == pre.app_id@ && encoded@ == enc@
            } else {
                next.phase is Watching && action is Nothing
            }
        },
        Event::SubmitFailed => {
            &&& next.phase matches Phase::Aborted { error } && error
                == (PipelineError::RemoteCall { block: n })
            &&& action is Nothing
        },
        _ => same_phase(next.phase, pre.phase) && action is Nothing,
    })
    &&& pre.phase matches Phase::Estimating { block: n } ==> (match event {
        Event::EstimateDone { service_error } => next.phase is Watching && action is Nothing,
        Event::EstimateFailed => {
            &&& next.phase matches Phase::Aborted { error } && error
                == (PipelineError::RemoteCall { block: n })
            &&& action is Nothing
        },
        _ => same_phase(next.phase, pre.phase) && action is Nothing,
    })
    &&& pre.phase matches Phase::Aborted { error: e } ==> next.phase matches Phase::Aborted {
        error } && error == e && action is Nothing
    &&& pre.phase is Ended ==> next.phase is Ended && action is Nothing
}

/// One run prefix: `states` are the pipeline values between the events,
/// related pairwise by the transition relation, and `actions` the action
/// each step named.
pub open spec fn run_rel(events: Seq<Event>, states: Seq<Pipeline>, actions: Seq<Action>) -> bool {
    &&& states.len() == events.len() + 1
    &&& actions.len() == events.len()
    &&& forall|i: int|
        0 <= i < events.len() ==> #[trigger] step_rel(states[i], events[i], states[i + 1],
            actions[i])
}

/// An aborted run absorbs everything: from the `k`-th state of a run that
/// starts aborted, the error is unchanged and no action was taken on the way.
proof fn lemma_aborted_prefix(
    events: Seq<Event>,
    states: Seq<Pipeline>,
    actions: Seq<Action>,
    err: PipelineError,
    k: int,
)
    requires
        run_rel(events, states, actions),
        states[0].phase matches Phase::Aborted { error } && error == err,
        0 <= k < states.len(),
    ensures
        states[k].phase matches Phase::Aborted { error } && error == err,
    decreases k,
{
    if k > 0 {
        lemma_aborted_prefix(events, states, actions, err, k - 1);
        let j = k - 1;
        assert(step_rel(states[j], events[j], states[j + 1], actions[j]));
    }
}

/// A watching run fed only off-interval headers keeps watching, with the
/// configuration unchanged along the way.
proof fn lemma_watching_prefix(
    events: Seq<Event>,
    states: Seq<Pipeline>,
    actions: Seq<Action>,
    k: int,
)
    requires
        run_rel(events, states, actions),
        states[0].phase is Watching,
        forall|i: int|
            0 <= i < events.len() ==> ((#[trigger] events[i]) matches Event::HeaderArrived {
                number } && !triggers(number, states[0].config.block_interval)),
        0 <= k < states.len(),
    ensures
        states[k].phase is Watching,
        states[k].config == states[0].config,
    decreases k,
{
    if k > 0 {
        lemma_watching_prefix(events, states, actions, k - 1);
        let j = k - 1;
        assert(step_rel(states[j], events[j], states[j + 1], actions[j]));
    }
}

/// Filter correctness over a whole run: a watching pipeline fed only headers
/// off the interval stays watching and performs no outside work — a
/// filtered-out header is discarded without side effect.
pub proof fn lemma_untriggered_headers_no_effect(
    events: Seq<Event>,
    states: Seq<Pipeline>,
    actions: Seq<Action>,
)
    requires
        run_rel(events, states, actions),
        states[0].phase is Watching,
        forall|i: int|
            0 <= i < events.len() ==> ((#[trigger] events[i]) matches Event::HeaderArrived {
                number } && !triggers(number, states[0].config.block_interval)),
    ensures
        forall|k: int| 0 <= k < states.len() ==> (#[trigger] states[k].phase) is Watching,
        forall|k: int| 0 <= k < actions.len() ==> (#[trigger] actions[k]) is Nothing,
{
    assert forall|k: int| 0 <= k < states.len() implies (#[trigger] states[k].phase)
        is Watching by {
        lemma_watching_prefix(events, states, actions, k);
    }
    assert forall|k: int| 0 <= k < actions.len() implies (#[trigger] actions[k]) is Nothing by {
        lemma_watching_prefix(events, states, actions, k);
        assert(step_rel(states[k], events[k], states[k + 1], actions[k]));
    }
}

/// Registration outcomes never abort the run. In particular, registering the
/// same program bytes twice — whose second attempt the service answers with
/// an "already registered" failure — leaves the pipeline watching, and only
/// an outcome other than success or "already registered" is even warned
/// about.
pub proof fn lemma_registration_never_aborts(
    pre: Pipeline,
    outcome: RegistrationOutcome,
    next: Pipeline,
    action: Action,
)
    requires
        pre.phase is Registering,
        step_rel(pre, Event::RegistrationDone { outcome }, next, action),
    ensures
        next.phase is Watching,
        !(next.phase is Aborted),
        action is WarnRegistration <==> outcome is OtherFailure,
{
}

/// Fail-fast: if execution-input acquisition fails for the awaited block,
/// that step performs no submission and no estimation, the run aborts with
/// the block identified, and however many events still arrive, every later
/// state stays aborted and every later action is `Nothing` — no subsequent
/// block is processed.
pub proof fn lemma_fail_fast(
    pre: Pipeline,
    n: u64,
    kind: FetchErrorKind,
    next: Pipeline,
    action: Action,
    events: Seq<Event>,
    states: Seq<Pipeline>,
    actions: Seq<Action>,
)
    requires
        pre.phase matches Phase::Executing { block } && block == n,
        step_rel(pre, Event::InputFailed { kind }, next, action),
        run_rel(events, states, actions),
        states[0] == next,
    ensures
        action is Nothing,
        next.phase matches Phase::Aborted { error } && error == (PipelineError::Fetch {
            block: n,
            kind,
        }),
        forall|k: int|
            0 <= k < states.len() ==> ((#[trigger] states[k].phase) matches Phase::Aborted {
                error } && error == (PipelineError::Fetch { block: n, kind })),
        forall|k: int| 0 <= k < actions.len() ==> !((#[trigger] actions[k]) is Submit),
        forall|k: int| 0 <= k < actions.len() ==> !((#[trigger] actions[k]) is Estimate),
{
    let err = PipelineError::Fetch { block: n, kind };
    assert forall|k: int| 0 <= k < states.len() implies (#[trigger] states[k].phase) matches
        Phase::Aborted { error } && error == err by {
        lemma_aborted_prefix(events, states, actions, err, k);
    }
    assert forall|k: int| 0 <= k < actions.len() implies (#[trigger] actions[k]) is Nothing by {
        lemma_aborted_prefix(events, states, actions, err, k);
        assert(step_rel(states[k], events[k], states[k + 1], actions[k]));
    }
}

impl Pipeline {
    /// A pipeline is well formed when its configuration is.
    pub open spec fn wf(self) -> bool {
        self.config.wf()
    }

    /// Starts a run: the first thing the shell does is attempt registration
    /// and report its outcome.
    pub fn new(config: Config, app: Application) -> (r: Pipeline)
        requires
            config.wf(),
        ensures
            r.wf(),
            r.config == config,
            r.app_id@ == app.id@,
            r.phase is Registering,
    {
        Pipeline { config, app_id: app.id, phase: Phase::Registering }
    }

    /// Advances the run by one event and names the next outside action.
    ///
    /// The contract is `step_rel`, which walks the phases. Registration
    /// outcomes never abort. A header is forwarded exactly when its number
    /// falls on the interval. A failed acquisition or a failed remote call
    /// aborts the run with the block identified, and an aborted or ended run
    /// absorbs every event. An embedded service-side error field never
    /// changes the transition: only transport-level failures do. An event
    /// out of phase is discarded.
    pub fn step(self, event: Event) -> (r: (Pipeline, Action))
        requires
            self.wf(),
        ensures
            r.0.wf(),
            step_rel(self, event, r.0, r.1),
    {
        let Pipeline { config, app_id, phase } = self;
        match (phase, event) {
            (Phase::Registering, Event::RegistrationDone { outcome }) => {
                let action = if matches!(outcome, RegistrationOutcome::OtherFailure) {
                    Action::WarnRegistration
                } else {
                    Action::Nothing
                };
                (Pipeline { config, app_id, phase: Phase::Watching }, action)
            },
            (Phase::Watching, Event::HeaderArrived { number }) => {
                if crate::subscription::block_triggers(number, config.block_interval) {
                    (
                        Pipeline { config, app_id, phase: Phase::Executing { block: number } },
                        Action::FetchInput { block: number },
                    )
                } else {
                    (Pipeline { config, app_id, phase: Phase::Watching }, Action::Nothing)
                }
            },
            (Phase::Watching, Event::StreamEnded) => {
                (Pipeline { config, app_id, phase: Phase::Ended }, Action::Nothing)
            },
            (Phase::Watching, Event::StreamFailed) => {
                (
                    Pipeline {
                        config,
                        app_id,
                        phase: Phase::Aborted { error: PipelineError::ChainConnectivity },
                    },
                    Action::Nothing,
                )
            },
            (Phase::Executing { block }, Event::InputReady { input }) => {
                let encoded: Vec<u8> = encode(input);
                let action_encoded: Vec<u8> = copy_bytes(&encoded);
                let action_app_id: Vec<u8> = copy_bytes(&app_id);
                let tid: Vec<u8> = task_id(block);
                let use_gpu: bool = config.use_gpu;
                (
                    Pipeline { config, app_id, phase: Phase::Submitting { block, encoded } },
                    Action::Submit {
                        app_id: action_app_id,
                        task_id: tid,
                        encoded: action_encoded,
                        use_gpu,
                    },
                )
            },
            (Phase::Executing { block }, Event::InputFailed { kind }) => {
                (
                    Pipeline {
                        config,
                        app_id,
                        phase: Phase::Aborted { error: PipelineError::Fetch { block, kind } },
                    },
                    Action::Nothing,
                )
            },
            (Phase::Submitting { block, encoded }, Event::SubmitDone { service_error: _ }) => {
                if config.estimate_cost {
                    let action_app_id: Vec<u8> = copy_bytes(&app_id);
                    (
                        Pipeline { config, app_id, phase: Phase::Estimating { block } },
                        Action::Estimate { app_id: action_app_id, encoded },
                    )
                } else {
                    (Pipeline { config, app_id, phase: Phase::Watching }, Action::Nothing)
                }
            },
            (Phase::Submitting { block, encoded: _ }, Event::SubmitFailed) => {
                (
                    Pipeline {
                        config,
                        app_id,
                        phase: Phase::Aborted { error: PipelineError::RemoteCall { block } },
                    },
                    Action::Nothing,
                )
            },
            (Phase::Estimating { block: _ }, Event::EstimateDone { service_error: _ }) => {
                (Pipeline { config, app_id, phase: Phase::Watching }, Action::Nothing)
            },
            (Phase::Estimating { block }, Event::EstimateFailed) => {
                (
                    Pipeline {
                        config,
                        app_id,
                        phase: Phase::Aborted { error: PipelineError::RemoteCall { block } },
                    },
                    Action::Nothing,
                )
            },
            (ph, _) => (Pipeline { config, app_id, phase: ph }, Action::Nothing),
        }
    }
}

} // verus!
