use vstd::prelude::*;
use crate::errors::CoreError;
use crate::transfer_actor::history::{
    history_start, history_step, history_step_spec, law_history_sync_failure,
    lemma_history_step_agrees, mentions_nothing_to_sync, ActorFailures, HistoryAction,
    HistoryConfig, HistoryEvent, HistoryStage, SyncOutcome,
};

verus! {

/// The replicas' public key set of threshold_crypto, held opaquely.
#[verifier::external_type_specification]
#[verifier::external_body]
pub struct ExPublicKeySet(threshold_crypto::PublicKeySet);

/// The price of a single write, in nanos of money.
pub const COST_OF_PUT: u64 = 1;

/// Whether the key set's commitment has a constant coefficient: the master public key
/// that `PublicKeySet::public_key` reads (it indexes that coefficient, and panics when the
/// commitment is empty).
pub uninterp spec fn has_master_key(replicas: threshold_crypto::PublicKeySet) -> bool;

/// The section key of a key set: its master public key, as the BLS variant of the
/// network's public key.
pub uninterp spec fn section_key_spec(replicas: threshold_crypto::PublicKeySet) -> safe_nd::PublicKey;

/// Whether the key set holds a master key: threshold_crypto's derived `PartialEq` of
/// `PublicKeySet` against the key set of the zero polynomial, whose commitment is the only
/// empty one (the derived equality compares the commitments' coefficient vectors).
#[verifier::external_body]
fn master_key_present(replicas: &threshold_crypto::PublicKeySet) -> (present: bool)
    ensures
        present == has_master_key(*replicas),
{
    *replicas != threshold_crypto::PublicKeySet::from(
        threshold_crypto::poly::Poly::zero().commitment(),
    )
}

/// The section key that a payment goes to: `PublicKeySet::public_key` of threshold_crypto,
/// as the BLS variant of the network's public key. It depends on the key set alone.
#[verifier::external_body]
fn section_key_of(replicas: &threshold_crypto::PublicKeySet) -> (key: safe_nd::PublicKey)
    requires
        has_master_key(*replicas),
    ensures
        key == section_key_spec(*replicas),
{
    safe_nd::PublicKey::Bls(replicas.public_key())
}

/// What the local transfer actor reported when asked for the payment transfer.
#[derive(Debug)]
pub enum TransferOutcome<S> {
    /// The actor produced this signed transfer.
    Initiated(S),
    /// The actor produced nothing.
    NothingProduced,
    /// The actor failed, with this message.
    Failed(String),
}

/// What a payment is run with: the history retrieval's settings and the section key that
/// the payment goes to.
pub struct PaymentConfig {
    /// The settings of the history retrieval that precedes the payment.
    pub history: HistoryConfig,
    /// The key of the section that the payment goes to.
    pub section_key: safe_nd::PublicKey,
}

/// Where the payment for a write stands; `S` is the signed transfer.
#[derive(Debug)]
pub enum PaymentStage<S> {
    /// The account history is being retrieved and applied; it stands at this stage.
    SyncingHistory(HistoryStage),
    /// The actor has been asked for a transfer to the section.
    Transferring,
    /// The envelope of the `ValidateTransfer` command for this signed transfer is being
    /// built (and signed).
    Enveloping(S),
    /// The actor is recording the initiated transfer.
    Recording,
    /// The connection is bootstrapping before the transfer is sent for validation.
    Bootstrapping,
    /// The transfer has been sent; its validation is awaited.
    Validating,
    /// Finished: no further event is accepted.
    Done,
}

/// What happened after the last action.
#[derive(Debug)]
pub enum PaymentEvent<H, T, S, P> {
    /// An event of the history retrieval.
    History(HistoryEvent<H, T>),
    /// The actor answered the transfer request.
    Transferred(TransferOutcome<S>),
    /// Building the command's envelope ended with this result.
    EnvelopeBuilt(Result<(), CoreError>),
    /// The actor recorded the initiated transfer.
    Recorded(Result<(), String>),
    /// The bootstrap ended (its result is not used).
    Bootstrapped,
    /// The network answered the validation request.
    Validated(Result<P, CoreError>),
}

/// What is to be done next.
#[derive(Debug)]
pub enum PaymentAction<H, T, S, P> {
    /// An action of the history retrieval (never its `Finish`).
    History(HistoryAction<H, T>),
    /// Ask the actor for a transfer of `amount` nanos to the key `to`.
    Transfer { amount: u64, to: safe_nd::PublicKey },
    /// Build the envelope of the `ValidateTransfer` command for the signed transfer that
    /// the stage holds (from a copy of it).
    BuildEnvelope,
    /// Record this signed transfer with the actor as initiated.
    Record(S),
    /// Bootstrap the connection.
    Bootstrap,
    /// Send the built `ValidateTransfer` envelope and await the validation of the transfer.
    AwaitValidation,
    /// The payment is over, with this result.
    Finish(Result<P, CoreError>),
}

impl<S> PaymentStage<S> {
    /// Whether the stage takes this event.
    pub open spec fn accepts<H, T, P>(self, event: PaymentEvent<H, T, S, P>) -> bool {
        match self {
            PaymentStage::SyncingHistory(history) => event matches PaymentEvent::History(e)
                && history.accepts(e),
            PaymentStage::Transferring => event is Transferred,
            PaymentStage::Enveloping(_) => event is EnvelopeBuilt,
            PaymentStage::Recording => event is Recorded,
            PaymentStage::Bootstrapping => event is Bootstrapped,
            PaymentStage::Validating => event is Validated,
            PaymentStage::Done => false,
        }
    }

    /// Whether the stage takes this event; the executable form of `accepts`.
    pub fn takes<H, T, P>(&self, event: &PaymentEvent<H, T, S, P>) -> (taken: bool)
        ensures
            taken == self.accepts(*event),
    {
        match self {
            PaymentStage::SyncingHistory(history) => match event {
                PaymentEvent::History(e) => history.takes(e),
                _ => false,
            },
            PaymentStage::Transferring => matches!(event, PaymentEvent::Transferred(_)),
            PaymentStage::Enveloping(_) => matches!(event, PaymentEvent::EnvelopeBuilt(_)),
            PaymentStage::Recording => matches!(event, PaymentEvent::Recorded(_)),
            PaymentStage::Bootstrapping => matches!(event, PaymentEvent::Bootstrapped),
            PaymentStage::Validating => matches!(event, PaymentEvent::Validated(_)),
            PaymentStage::Done => false,
        }
    }

    /// How far along the payment is; every step raises it.
    pub open spec fn rank(self) -> nat {
        match self {
            PaymentStage::SyncingHistory(history) => history.rank(),
            PaymentStage::Transferring => 5,
            PaymentStage::Enveloping(_) => 6,
            PaymentStage::Recording => 7,
            PaymentStage::Bootstrapping => 8,
            PaymentStage::Validating => 9,
            PaymentStage::Done => 10,
        }
    }
}

/// How the payment answers a step of the history retrieval that ended in `h_next` with
/// `h_action`.
pub open spec fn payment_after_history<H, T, S, P>(
    config: PaymentConfig,
    h_next: HistoryStage,
    h_action: HistoryAction<H, T>,
    next: PaymentStage<S>,
    action: PaymentAction<H, T, S, P>,
) -> bool {
    match h_action {
        HistoryAction::Finish(Ok(())) => next == PaymentStage::<S>::Transferring && action
            == PaymentAction::<H, T, S, P>::Transfer { amount: COST_OF_PUT, to: config.section_key },
        HistoryAction::Finish(Err(error)) => next == PaymentStage::<S>::Done && action
            == PaymentAction::<H, T, S, P>::Finish(Err(error)),
        _ => next == PaymentStage::<S>::SyncingHistory(h_next) && action == PaymentAction::<
            H,
            T,
            S,
            P,
        >::History(h_action),
    }
}

/// One step of the payment run with `config`: from `stage`, `event` leads to `next` and
/// `action`.
pub open spec fn payment_step_spec<H, T, S, P>(
    config: PaymentConfig,
    stage: PaymentStage<S>,
    event: PaymentEvent<H, T, S, P>,
    next: PaymentStage<S>,
    action: PaymentAction<H, T, S, P>,
) -> bool {
    &&& stage.accepts(event)
    &&& match event {
        PaymentEvent::History(e) => match stage {
            PaymentStage::SyncingHistory(history) => exists|
                h_next: HistoryStage,
                h_action: HistoryAction<H, T>,
            |
                #[trigger] history_step_spec(config.history, history, e, h_next, h_action)
                    && payment_after_history(config, h_next, h_action, next, action),
            _ => false,
        },
        PaymentEvent::Transferred(outcome) => match outcome {
            TransferOutcome::Initiated(signed) => next == PaymentStage::Enveloping(signed)
                && action is BuildEnvelope,
            TransferOutcome::NothingProduced => next == PaymentStage::<S>::Done && (action matches
                PaymentAction::Finish(Err(CoreError::Unexpected(message))) && message@
                == "No transfer produced by actor."@),
            TransferOutcome::Failed(message) => next == PaymentStage::<S>::Done && action
                == PaymentAction::<H, T, S, P>::Finish(Err(CoreError::TransferError(message))),
        },
        PaymentEvent::EnvelopeBuilt(built) => match built {
            Ok(()) => next == PaymentStage::<S>::Recording && action
                == PaymentAction::<H, T, S, P>::Record(stage->Enveloping_0),
            Err(error) => next == PaymentStage::<S>::Done && action == PaymentAction::<
                H,
                T,
                S,
                P,
            >::Finish(Err(error)),
        },
        PaymentEvent::Recorded(recorded) => match recorded {
            Ok(()) => next == PaymentStage::<S>::Bootstrapping && action is Bootstrap,
            Err(message) => match config.history.failures {
                ActorFailures::Reported => next == PaymentStage::<S>::Done && action
                    == PaymentAction::<H, T, S, P>::Finish(Err(CoreError::TransferError(message))),
                ActorFailures::Ignored => next == PaymentStage::<S>::Bootstrapping && action is Bootstrap,
            },
        },
        PaymentEvent::Bootstrapped => next == PaymentStage::<S>::Validating && action is AwaitValidation,
        PaymentEvent::Validated(validated) => next == PaymentStage::<S>::Done && action
            == PaymentAction::<H, T, S, P>::Finish(validated),
    }
}

/// The settings of a payment by the client with `client_key` to the section of these
/// replicas, whose key set must hold a master key.
pub fn payment_config(
    client_key: safe_nd::PublicKey,
    failures: ActorFailures,
    replicas: &threshold_crypto::PublicKeySet,
) -> (config: PaymentConfig)
    requires
        has_master_key(*replicas),
    ensures
        config == (PaymentConfig {
            history: HistoryConfig { client_key, failures },
            section_key: section_key_spec(*replicas),
        }),
{
    let section_key = section_key_of(replicas);
    PaymentConfig { history: HistoryConfig { client_key, failures }, section_key }
}

/// The settings of a payment to the section of these replicas, or `None` when their key
/// set holds no master key to pay to.
pub fn try_payment_config(
    client_key: safe_nd::PublicKey,
    failures: ActorFailures,
    replicas: &threshold_crypto::PublicKeySet,
) -> (config: Option<PaymentConfig>)
    ensures
        config is Some <==> has_master_key(*replicas),
        config matches Some(c) ==> c == (PaymentConfig {
            history: HistoryConfig { client_key, failures },
            section_key: section_key_spec(*replicas),
        }),
{
    if master_key_present(replicas) {
        Some(payment_config(client_key, failures, replicas))
    } else {
        None
    }
}

/// How a payment begins: by building the query message of the history retrieval.
pub fn payment_start<H, T, S, P>(config: &PaymentConfig) -> (start: (
    PaymentStage<S>,
    PaymentAction<H, T, S, P>,
))
    ensures
        start.0 == PaymentStage::<S>::SyncingHistory(HistoryStage::Building),
        (start.1 == PaymentAction::<H, T, S, P>::History(
            HistoryAction::BuildQuery { at: config.history.client_key, since_version: 0 },
        )),
{
    let (history, first) = history_start(&config.history);
    (PaymentStage::SyncingHistory(history), PaymentAction::History(first))
}

/// Decides what follows `event` in paying for a write: the history is synced, the
/// actor initiates a transfer of the cost of a write to the section, which is recorded,
/// sent and validated into a payment proof.
pub fn payment_step<H, T, S, P>(
    config: &PaymentConfig,
    stage: PaymentStage<S>,
    event: PaymentEvent<H, T, S, P>,
) -> (step: (PaymentStage<S>, PaymentAction<H, T, S, P>))
    requires
        stage.accepts(event),
    ensures
        payment_step_spec(*config, stage, event, step.0, step.1),
{
    match event {
        PaymentEvent::History(e) => {
            let ghost g_e = e;
            match stage {
                PaymentStage::SyncingHistory(history) => {
                    let (h_next, h_action) = history_step(&config.history, history, e);
                    assert(history_step_spec(config.history, history, g_e, h_next, h_action));
                    let ghost g_action = h_action;
                    let step = match h_action {
                        HistoryAction::Finish(Ok(())) => (
                            PaymentStage::Transferring,
                            PaymentAction::Transfer { amount: COST_OF_PUT, to: config.section_key },
                        ),
                        HistoryAction::Finish(Err(error)) => (
                            PaymentStage::Done,
                            PaymentAction::Finish(Err(error)),
                        ),
                        other => (PaymentStage::SyncingHistory(h_next), PaymentAction::History(other)),
                    };
                    assert(payment_after_history(*config, h_next, g_action, step.0, step.1));
                    step
                },
                _ => {
                    assert(false);
                    (PaymentStage::Done, PaymentAction::Bootstrap)
                },
            }
        },
        PaymentEvent::Transferred(outcome) => match outcome {
            TransferOutcome::Initiated(signed) => (
                PaymentStage::Enveloping(signed),
                PaymentAction::BuildEnvelope,
            ),
            TransferOutcome::NothingProduced => {
                let message = String::from_str("No transfer produced by actor.");
                (PaymentStage::Done, PaymentAction::Finish(Err(CoreError::Unexpected(message))))
            },
            TransferOutcome::Failed(message) => (
                PaymentStage::Done,
                PaymentAction::Finish(Err(CoreError::TransferError(message))),
            ),
        },
        PaymentEvent::EnvelopeBuilt(built) => match stage {
            PaymentStage::Enveloping(signed) => match built {
                Ok(()) => (PaymentStage::Recording, PaymentAction::Record(signed)),
                Err(error) => (PaymentStage::Done, PaymentAction::Finish(Err(error))),
            },
            _ => {
                assert(false);
                (PaymentStage::Done, PaymentAction::Bootstrap)
            },
        },
        PaymentEvent::Recorded(recorded) => match recorded {
            Ok(()) => (PaymentStage::Bootstrapping, PaymentAction::Bootstrap),
            Err(message) => match config.history.failures {
                ActorFailures::Reported => (
                    PaymentStage::Done,
                    PaymentAction::Finish(Err(CoreError::TransferError(message))),
                ),
                ActorFailures::Ignored => (PaymentStage::Bootstrapping, PaymentAction::Bootstrap),
            },
        },
        PaymentEvent::Bootstrapped => (PaymentStage::Validating, PaymentAction::AwaitValidation),
        PaymentEvent::Validated(validated) => (PaymentStage::Done, PaymentAction::Finish(validated)),
    }
}

/// Whether the actor has already been asked to sync the history by the time the payment
/// stands at `stage` (`Done` excepted, which a failure reaches from anywhere).
pub open spec fn past_synch<S>(stage: PaymentStage<S>) -> bool {
    match stage {
        PaymentStage::SyncingHistory(history) => history == HistoryStage::Synching
            || history == HistoryStage::Applying,
        PaymentStage::Done => false,
        _ => true,
    }
}

/// The action asks the actor to sync a history.
pub open spec fn is_history_synch<H, T, S, P>(action: PaymentAction<H, T, S, P>) -> bool {
    action matches PaymentAction::History(HistoryAction::Synch(_))
}

/// A run of the payment: `stages[i]` is where it stood before `events[i]`, `actions[0]`
/// is the first action and `actions[i + 1]` the answer to `events[i]`.
pub open spec fn payment_run<H, T, S, P>(
    config: PaymentConfig,
    stages: Seq<PaymentStage<S>>,
    events: Seq<PaymentEvent<H, T, S, P>>,
    actions: Seq<PaymentAction<H, T, S, P>>,
) -> bool {
    &&& stages.len() == events.len() + 1
    &&& actions.len() == events.len() + 1
    &&& stages[0] == PaymentStage::<S>::SyncingHistory(HistoryStage::Building)
    &&& actions[0] == PaymentAction::<H, T, S, P>::History(
        HistoryAction::BuildQuery { at: config.history.client_key, since_version: 0 },
    )
    &&& forall|i: int|
        0 <= i < events.len() ==> payment_step_spec(
            config,
            stages[i],
            #[trigger] events[i],
            stages[i + 1],
            actions[i + 1],
        )
}

/// What one step of the payment can and cannot do.
pub proof fn lemma_payment_step_facts<H, T, S, P>(
    config: PaymentConfig,
    stage: PaymentStage<S>,
    event: PaymentEvent<H, T, S, P>,
    next: PaymentStage<S>,
    action: PaymentAction<H, T, S, P>,
)
    requires
        payment_step_spec(config, stage, event, next, action),
    ensures
        next.rank() > stage.rank(),
        next == PaymentStage::<S>::Done <==> action is Finish,
        past_synch(next) && !past_synch(stage) ==> is_history_synch(action),
        action is Transfer ==> past_synch(stage) && stage is SyncingHistory,
        action is Transfer ==> (action == PaymentAction::<H, T, S, P>::Transfer {
            amount: COST_OF_PUT,
            to: config.section_key,
        }),
        action is AwaitValidation <==> next == PaymentStage::<S>::Validating,
        action is AwaitValidation ==> stage == PaymentStage::<S>::Bootstrapping,
        next == PaymentStage::<S>::Bootstrapping ==> stage == PaymentStage::<S>::Recording
            && action is Bootstrap,
        next == PaymentStage::<S>::Recording ==> stage is Enveloping && (action
            == PaymentAction::<H, T, S, P>::Record(stage->Enveloping_0)),
        next is Enveloping ==> action is BuildEnvelope && (event == PaymentEvent::<
            H,
            T,
            S,
            P,
        >::Transferred(TransferOutcome::Initiated(next->Enveloping_0))),
{
    match event {
        PaymentEvent::History(e) => {
            let history = stage->SyncingHistory_0;
            let (h_next, h_action) = choose|h_next: HistoryStage, h_action: HistoryAction<H, T>|
                #[trigger] history_step_spec(config.history, history, e, h_next, h_action)
                    && payment_after_history(config, h_next, h_action, next, action);
            crate::transfer_actor::history::lemma_history_step_advances(
                config.history,
                history,
                e,
                h_next,
                h_action,
            );
        },
        _ => {},
    }
}

/// Every transfer that a payment asks of the actor is of the cost of one write, to the
/// section key it was configured with.
pub proof fn law_payment_pays_cost_of_put_to_section<H, T, S, P>(
    config: PaymentConfig,
    stages: Seq<PaymentStage<S>>,
    events: Seq<PaymentEvent<H, T, S, P>>,
    actions: Seq<PaymentAction<H, T, S, P>>,
    j: int,
)
    requires
        payment_run(config, stages, events, actions),
        0 <= j < actions.len(),
        actions[j] is Transfer,
    ensures
        (actions[j] == PaymentAction::<H, T, S, P>::Transfer {
            amount: COST_OF_PUT,
            to: config.section_key,
        }),
{
    if j == 0 {
        assert(false);
    }
    let ev = events[j - 1];
    lemma_payment_step_facts(config, stages[j - 1], ev, stages[j], actions[j]);
}

/// The payment transfer is requested from the actor only after the account history has
/// been handed to the actor to sync: no payment is made on a stale balance.
pub proof fn law_payment_transfer_after_synch<H, T, S, P>(
    config: PaymentConfig,
    stages: Seq<PaymentStage<S>>,
    events: Seq<PaymentEvent<H, T, S, P>>,
    actions: Seq<PaymentAction<H, T, S, P>>,
    j: int,
)
    requires
        payment_run(config, stages, events, actions),
        0 <= j < actions.len(),
        actions[j] is Transfer,
    ensures
        exists|i: int| 0 <= i < j && #[trigger] is_history_synch(actions[i]),
{
    if j == 0 {
        assert(false);
    }
    let ev = events[j - 1];
    lemma_payment_step_facts(config, stages[j - 1], ev, stages[j], actions[j]);
    lemma_payment_synched_before(config, stages, events, actions, j - 1);
}

proof fn lemma_payment_synched_before<H, T, S, P>(
    config: PaymentConfig,
    stages: Seq<PaymentStage<S>>,
    events: Seq<PaymentEvent<H, T, S, P>>,
    actions: Seq<PaymentAction<H, T, S, P>>,
    k: int,
)
    requires
        payment_run(config, stages, events, actions),
        0 <= k <= events.len(),
        past_synch(stages[k]),
    ensures
        exists|i: int| 0 <= i <= k && #[trigger] is_history_synch(actions[i]),
    decreases k,
{
    if k == 0 {
        assert(!past_synch(stages[0]));
    } else {
        let ev = events[k - 1];
        lemma_payment_step_facts(config, stages[k - 1], ev, stages[k], actions[k]);
        if past_synch(stages[k - 1]) {
            lemma_payment_synched_before(config, stages, events, actions, k - 1);
            let i = choose|i: int| 0 <= i <= k - 1 && #[trigger] is_history_synch(actions[i]);
            assert(0 <= i <= k && is_history_synch(actions[i]));
        } else {
            assert(is_history_synch(actions[k]));
        }
    }
}

/// Validation of the payment is awaited only after the transfer that the actor initiated
/// has had its envelope built and been recorded (and the connection bootstrapped): the
/// three actions just before `AwaitValidation` are `BuildEnvelope`, `Record` of that very
/// transfer, and `Bootstrap`.
pub proof fn law_payment_validation_after_record<H, T, S, P>(
    config: PaymentConfig,
    stages: Seq<PaymentStage<S>>,
    events: Seq<PaymentEvent<H, T, S, P>>,
    actions: Seq<PaymentAction<H, T, S, P>>,
    j: int,
)
    requires
        payment_run(config, stages, events, actions),
        0 <= j < actions.len(),
        actions[j] is AwaitValidation,
    ensures
        j >= 4,
        actions[j - 3] is BuildEnvelope,
        actions[j - 2] is Record,
        actions[j - 1] is Bootstrap,
        (events[j - 4] == PaymentEvent::<H, T, S, P>::Transferred(
            TransferOutcome::Initiated(actions[j - 2]->Record_0),
        )),
{
    if j == 0 {
        assert(false);
    }
    let ev = events[j - 1];
    lemma_payment_step_facts(config, stages[j - 1], ev, stages[j], actions[j]);
    if j == 1 {
        assert(false);
    }
    let prev = events[j - 2];
    lemma_payment_step_facts(config, stages[j - 2], prev, stages[j - 1], actions[j - 1]);
    if j == 2 {
        assert(false);
    }
    let before = events[j - 3];
    lemma_payment_step_facts(config, stages[j - 3], before, stages[j - 2], actions[j - 2]);
    if j == 3 {
        assert(false);
    }
    let first = events[j - 4];
    lemma_payment_step_facts(config, stages[j - 4], first, stages[j - 3], actions[j - 3]);
}

/// Paying always ends: a run takes at most ten events, and `Finish` is the last
/// action of any run.
pub proof fn law_payment_run_is_short<H, T, S, P>(
    config: PaymentConfig,
    stages: Seq<PaymentStage<S>>,
    events: Seq<PaymentEvent<H, T, S, P>>,
    actions: Seq<PaymentAction<H, T, S, P>>,
)
    requires
        payment_run(config, stages, events, actions),
    ensures
        events.len() <= 10,
        forall|j: int| 0 <= j < actions.len() && (#[trigger] actions[j] is Finish) ==> j == events.len(),
{
    assert forall|k: int| 0 <= k <= events.len() implies stages[k].rank() >= k by {
        lemma_payment_rank_grows(config, stages, events, actions, k);
    }
    assert(stages[events.len() as int].rank() <= 10);
    assert forall|j: int| 0 <= j < actions.len() && (#[trigger] actions[j] is Finish) implies j == events.len() by {
        if j < events.len() {
            if j > 0 {
                let ev = events[j - 1];
                lemma_payment_step_facts(config, stages[j - 1], ev, stages[j], actions[j]);
            }
            let next_ev = events[j];
            assert(payment_step_spec(config, stages[j], next_ev, stages[j + 1], actions[j + 1]));
        }
    }
}

proof fn lemma_payment_rank_grows<H, T, S, P>(
    config: PaymentConfig,
    stages: Seq<PaymentStage<S>>,
    events: Seq<PaymentEvent<H, T, S, P>>,
    actions: Seq<PaymentAction<H, T, S, P>>,
    k: int,
)
    requires
        payment_run(config, stages, events, actions),
        0 <= k <= events.len(),
    ensures
        stages[k].rank() >= k,
    decreases k,
{
    if k > 0 {
        lemma_payment_rank_grows(config, stages, events, actions, k - 1);
        let ev = events[k - 1];
        lemma_payment_step_facts(config, stages[k - 1], ev, stages[k], actions[k]);
    }
}

/// A payment whose history sync fails goes on to pay only when the actor's message says
/// there was nothing new to sync ("No credits or debits found to sync to actor"); any
/// other sync failure ends the payment with the actor's error, unchanged, and nothing
/// is asked of the actor. This holds whatever the failure setting.
pub proof fn law_payment_sync_failure<H, T, S, P>(
    config: PaymentConfig,
    history: HistoryStage,
    message: String,
    next: PaymentStage<S>,
    action: PaymentAction<H, T, S, P>,
)
    requires
        payment_step_spec(
            config,
            PaymentStage::<S>::SyncingHistory(history),
            PaymentEvent::<H, T, S, P>::History(HistoryEvent::Synched(SyncOutcome::Failed(message))),
            next,
            action,
        ),
    ensures
        mentions_nothing_to_sync(message@) ==> next == PaymentStage::<S>::Transferring && (action
            == PaymentAction::<H, T, S, P>::Transfer { amount: COST_OF_PUT, to: config.section_key }),
        !mentions_nothing_to_sync(message@) ==> next == PaymentStage::<S>::Done && action
            == PaymentAction::<H, T, S, P>::Finish(Err(CoreError::TransferError(message))),
{
    let e = HistoryEvent::<H, T>::Synched(SyncOutcome::Failed(message));
    let (h_next, h_action) = choose|h_next: HistoryStage, h_action: HistoryAction<H, T>|
        #[trigger] history_step_spec(config.history, history, e, h_next, h_action)
            && payment_after_history(config, h_next, h_action, next, action);
    law_history_sync_failure(config.history, history, message, h_next, h_action);
}

/// A payment whose history retrieval fails to apply the synched transfers: the client's
/// payment ends with the actor's error, unchanged, and asks no transfer of the actor; the
/// transfer actor handle's payment passes the failure over and asks for the transfer of
/// the cost of a write to the section.
pub proof fn law_payment_apply_failure<H, T, S, P>(
    config: PaymentConfig,
    history: HistoryStage,
    message: String,
    next: PaymentStage<S>,
    action: PaymentAction<H, T, S, P>,
)
    requires
        payment_step_spec(
            config,
            PaymentStage::<S>::SyncingHistory(history),
            PaymentEvent::<H, T, S, P>::History(HistoryEvent::Applied(Err(message))),
            next,
            action,
        ),
    ensures
        config.history.failures == ActorFailures::Reported ==> next == PaymentStage::<S>::Done
            && action == PaymentAction::<H, T, S, P>::Finish(
            Err(CoreError::TransferError(message)),
        ),
        config.history.failures == ActorFailures::Ignored ==> next
            == PaymentStage::<S>::Transferring && (action == PaymentAction::<H, T, S, P>::Transfer {
            amount: COST_OF_PUT,
            to: config.section_key,
        }),
{
}

/// On an event of the history retrieval, the payment asks the actor for the transfer
/// exactly when that retrieval succeeds, and ends with an error exactly when it fails (the
/// very error, but for an unexpected reply, whose message is the same text); otherwise it
/// goes on with the retrieval's action.
pub proof fn law_payment_follows_history<H, T, S, P>(
    config: PaymentConfig,
    history: HistoryStage,
    event: HistoryEvent<H, T>,
    next: PaymentStage<S>,
    action: PaymentAction<H, T, S, P>,
    h_next: HistoryStage,
    h_action: HistoryAction<H, T>,
)
    requires
        payment_step_spec(
            config,
            PaymentStage::<S>::SyncingHistory(history),
            PaymentEvent::<H, T, S, P>::History(event),
            next,
            action,
        ),
        history_step_spec(config.history, history, event, h_next, h_action),
    ensures
        action is Transfer <==> h_action == HistoryAction::<H, T>::Finish(Ok(())),
        h_action matches HistoryAction::Finish(Err(_)) ==> next == PaymentStage::<S>::Done
            && action matches PaymentAction::Finish(Err(_)),
        h_action matches HistoryAction::Finish(Err(error)) ==> (error is Unexpected || action
            == PaymentAction::<H, T, S, P>::Finish(Err(error))),
        !(h_action is Finish) ==> next == PaymentStage::<S>::SyncingHistory(h_next) && action
            == PaymentAction::<H, T, S, P>::History(h_action),
{
    let (n, a) = choose|n: HistoryStage, a: HistoryAction<H, T>|
        #[trigger] history_step_spec(config.history, history, event, n, a)
            && payment_after_history(config, n, a, next, action);
    lemma_history_step_agrees(config.history, history, event, h_next, h_action, n, a);
}

} // verus!
