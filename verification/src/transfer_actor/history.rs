use vstd::prelude::*;
use vstd::string::*;
use crate::errors::CoreError;
use crate::text::{contains_text, occurs_in};

verus! {

/// The message of the transfer actor's error when the history holds nothing new to sync.
pub open spec fn nothing_to_sync_marker() -> Seq<char> {
    "No credits or debits found to sync to actor"@
}

/// The text that opens the error for an unexpected reply to the history query.
pub open spec fn unexpected_history_prefix() -> Seq<char> {
    "Unexpected response when retrieving account history "@
}

/// What an operation does when the local transfer actor fails to apply an event it was
/// handed (the synched transfers, or an initiated transfer).
#[derive(Debug, Clone, Copy, PartialEq, Eq, Structural)]
pub enum ActorFailures {
    /// The failure ends the operation with the actor's error (the client's operations).
    Reported,
    /// The failure is passed over and the operation goes on (the transfer actor handle's
    /// operations).
    Ignored,
}

/// What the history retrieval is run with: the client whose history it is, and what is
/// done with the actor's failures to apply.
pub struct HistoryConfig {
    /// The client's public key: the key the history is asked for.
    pub client_key: safe_nd::PublicKey,
    /// What is done with the actor's failures to apply.
    pub failures: ActorFailures,
}

/// The network's reply to the history query, as the decisions read it.
#[derive(Debug)]
pub enum HistoryReply<H> {
    /// The account's history.
    History(H),
    /// The network refused the query with this error.
    Refused(safe_nd::Error),
    /// A reply of another kind, by its debug text.
    Other(String),
}

/// What the local transfer actor reported when asked to sync a history.
#[derive(Debug)]
pub enum SyncOutcome<T> {
    /// There were new transfers; they are to be applied.
    Synched(T),
    /// The actor is up to date.
    UpToDate,
    /// The actor failed, with this message.
    Failed(String),
}

/// Where the retrieval of the account history stands.
#[derive(Debug, Clone, Copy, PartialEq, Eq, Structural)]
pub enum HistoryStage {
    /// The query message is being built (and signed).
    Building,
    /// The connection is bootstrapping.
    Bootstrapping,
    /// The history query has been sent.
    Querying,
    /// The actor is syncing the history.
    Synching,
    /// The synched transfers are being applied to the actor.
    Applying,
    /// Finished: no further event is accepted.
    Done,
}

/// What happened after the last action.
#[derive(Debug)]
pub enum HistoryEvent<H, T> {
    /// Building the query message ended with this result.
    QueryBuilt(Result<(), CoreError>),
    /// The bootstrap ended (its result is not used).
    Bootstrapped,
    /// Sending the query failed.
    QueryFailed(CoreError),
    /// The network replied to the query.
    Answered(HistoryReply<H>),
    /// The actor synced the history.
    Synched(SyncOutcome<T>),
    /// The actor applied the synched transfers.
    Applied(Result<(), String>),
}

/// What is to be done next.
#[derive(Debug)]
pub enum HistoryAction<H, T> {
    /// Build the message of the query for the history of the key `at`, from version
    /// `since_version`.
    BuildQuery { at: safe_nd::PublicKey, since_version: usize },
    /// Bootstrap the connection.
    Bootstrap,
    /// Send the built query message.
    SendQuery,
    /// Have the actor sync this history.
    Synch(H),
    /// Apply these synched transfers to the actor.
    Apply(T),
    /// The retrieval is over, with this result.
    Finish(Result<(), CoreError>),
}

impl HistoryStage {
    /// Whether the stage takes this event.
    pub open spec fn accepts<H, T>(self, event: HistoryEvent<H, T>) -> bool {
        match self {
            HistoryStage::Building => event is QueryBuilt,
            HistoryStage::Bootstrapping => event is Bootstrapped,
            HistoryStage::Querying => event is QueryFailed || event is Answered,
            HistoryStage::Synching => event is Synched,
            HistoryStage::Applying => event is Applied,
            HistoryStage::Done => false,
        }
    }

    /// Whether the stage takes this event; the executable form of `accepts`.
    pub fn takes<H, T>(&self, event: &HistoryEvent<H, T>) -> (taken: bool)
        ensures
            taken == self.accepts(*event),
    {
        match self {
            HistoryStage::Building => matches!(event, HistoryEvent::QueryBuilt(_)),
            HistoryStage::Bootstrapping => matches!(event, HistoryEvent::Bootstrapped),
            HistoryStage::Querying => matches!(
                event,
                HistoryEvent::QueryFailed(_) | HistoryEvent::Answered(_)
            ),
            HistoryStage::Synching => matches!(event, HistoryEvent::Synched(_)),
            HistoryStage::Applying => matches!(event, HistoryEvent::Applied(_)),
            HistoryStage::Done => false,
        }
    }

    /// How far along the retrieval is; every step raises it.
    pub open spec fn rank(self) -> nat {
        match self {
            HistoryStage::Building => 0,
            HistoryStage::Bootstrapping => 1,
            HistoryStage::Querying => 2,
            HistoryStage::Synching => 3,
            HistoryStage::Applying => 4,
            HistoryStage::Done => 5,
        }
    }
}

/// One step of the history retrieval run with `config`: from `stage`, `event` leads to
/// `next` and `action`.
pub open spec fn history_step_spec<H, T>(
    config: HistoryConfig,
    stage: HistoryStage,
    event: HistoryEvent<H, T>,
    next: HistoryStage,
    action: HistoryAction<H, T>,
) -> bool {
    &&& stage.accepts(event)
    &&& match event {
        HistoryEvent::QueryBuilt(Ok(())) => next == HistoryStage::Bootstrapping && action is Bootstrap,
        HistoryEvent::QueryBuilt(Err(error)) => next == HistoryStage::Done && action
            == HistoryAction::<H, T>::Finish(Err(error)),
        HistoryEvent::Bootstrapped => next == HistoryStage::Querying && action is SendQuery,
        HistoryEvent::QueryFailed(error) => next == HistoryStage::Done && action == HistoryAction::<
            H,
            T,
        >::Finish(Err(error)),
        HistoryEvent::Answered(reply) => match reply {
            HistoryReply::History(history) => next == HistoryStage::Synching && action
                == HistoryAction::<H, T>::Synch(history),
            HistoryReply::Refused(error) => next == HistoryStage::Done && action
                == HistoryAction::<H, T>::Finish(Err(CoreError::DataError(error))),
            HistoryReply::Other(text) => next == HistoryStage::Done && (action matches
                HistoryAction::Finish(Err(CoreError::Unexpected(message))) && message@
                == unexpected_history_prefix() + text@),
        },
        HistoryEvent::Synched(outcome) => match outcome {
            SyncOutcome::Synched(transfers) => next == HistoryStage::Applying && action
                == HistoryAction::<H, T>::Apply(transfers),
            SyncOutcome::UpToDate => next == HistoryStage::Done && action
                == HistoryAction::<H, T>::Finish(Ok(())),
            SyncOutcome::Failed(message) => next == HistoryStage::Done && if occurs_in(
                message@,
                nothing_to_sync_marker(),
            ) {
                action == HistoryAction::<H, T>::Finish(Ok(()))
            } else {
                action == HistoryAction::<H, T>::Finish(Err(CoreError::TransferError(message)))
            },
        },
        HistoryEvent::Applied(applied) => next == HistoryStage::Done && match applied {
            Ok(()) => action == HistoryAction::<H, T>::Finish(Ok(())),
            Err(message) => match config.failures {
                ActorFailures::Reported => action == HistoryAction::<H, T>::Finish(
                    Err(CoreError::TransferError(message)),
                ),
                ActorFailures::Ignored => action == HistoryAction::<H, T>::Finish(Ok(())),
            },
        },
    }
}

/// How the retrieval of the history begins: build the message of the query for the
/// client's own history, from version 0.
pub fn history_start<H, T>(config: &HistoryConfig) -> (start: (
    HistoryStage,
    HistoryAction<H, T>,
))
    ensures
        start.0 == HistoryStage::Building,
        (start.1 == HistoryAction::<H, T>::BuildQuery { at: config.client_key, since_version: 0 }),
{
    (HistoryStage::Building, HistoryAction::BuildQuery { at: config.client_key, since_version: 0 })
}

/// Decides what follows `event` in the retrieval of the account history and its
/// application to the local transfer actor.
pub fn history_step<H, T>(config: &HistoryConfig, stage: HistoryStage, event: HistoryEvent<H, T>) -> (step: (
    HistoryStage,
    HistoryAction<H, T>,
))
    requires
        stage.accepts(event),
    ensures
        history_step_spec(*config, stage, event, step.0, step.1),
{
    match event {
        HistoryEvent::QueryBuilt(built) => match built {
            Ok(()) => (HistoryStage::Bootstrapping, HistoryAction::Bootstrap),
            Err(error) => (HistoryStage::Done, HistoryAction::Finish(Err(error))),
        },
        HistoryEvent::Bootstrapped => (HistoryStage::Querying, HistoryAction::SendQuery),
        HistoryEvent::QueryFailed(error) => (HistoryStage::Done, HistoryAction::Finish(Err(error))),
        HistoryEvent::Answered(reply) => match reply {
            HistoryReply::History(history) => (HistoryStage::Synching, HistoryAction::Synch(history)),
            HistoryReply::Refused(error) => (
                HistoryStage::Done,
                HistoryAction::Finish(Err(CoreError::from(error))),
            ),
            HistoryReply::Other(text) => {
                let message = String::from_str(
                    "Unexpected response when retrieving account history ",
                ).concat(text.as_str());
                (HistoryStage::Done, HistoryAction::Finish(Err(CoreError::Unexpected(message))))
            },
        },
        HistoryEvent::Synched(outcome) => match outcome {
            SyncOutcome::Synched(transfers) => (HistoryStage::Applying, HistoryAction::Apply(transfers)),
            SyncOutcome::UpToDate => (HistoryStage::Done, HistoryAction::Finish(Ok(()))),
            SyncOutcome::Failed(message) => {
                if contains_text(message.as_str(), "No credits or debits found to sync to actor") {
                    (HistoryStage::Done, HistoryAction::Finish(Ok(())))
                } else {
                    (
                        HistoryStage::Done,
                        HistoryAction::Finish(Err(CoreError::TransferError(message))),
                    )
                }
            },
        },
        HistoryEvent::Applied(applied) => match applied {
            Ok(()) => (HistoryStage::Done, HistoryAction::Finish(Ok(()))),
            Err(message) => match config.failures {
                ActorFailures::Reported => (
                    HistoryStage::Done,
                    HistoryAction::Finish(Err(CoreError::TransferError(message))),
                ),
                ActorFailures::Ignored => (HistoryStage::Done, HistoryAction::Finish(Ok(()))),
            },
        },
    }
}

/// A run of the history retrieval: `stages[i]` is where it stood before `events[i]`,
/// `actions[0]` is the first action and `actions[i + 1]` the answer to `events[i]`.
pub open spec fn history_run<H, T>(
    config: HistoryConfig,
    stages: Seq<HistoryStage>,
    events: Seq<HistoryEvent<H, T>>,
    actions: Seq<HistoryAction<H, T>>,
) -> bool {
    &&& stages.len() == events.len() + 1
    &&& actions.len() == events.len() + 1
    &&& stages[0] == HistoryStage::Building
    &&& actions[0] == HistoryAction::<H, T>::BuildQuery {
        at: config.client_key,
        since_version: 0,
    }
    &&& forall|i: int|
        0 <= i < events.len() ==> history_step_spec(
            config,
            stages[i],
            #[trigger] events[i],
            stages[i + 1],
            actions[i + 1],
        )
}

/// Every step of the retrieval moves it further along.
pub proof fn lemma_history_step_advances<H, T>(
    config: HistoryConfig,
    stage: HistoryStage,
    event: HistoryEvent<H, T>,
    next: HistoryStage,
    action: HistoryAction<H, T>,
)
    requires
        history_step_spec(config, stage, event, next, action),
    ensures
        next.rank() > stage.rank(),
        next == HistoryStage::Done <==> action is Finish,
{
}

/// Synched transfers are applied only right after the actor was asked to sync the
/// history they came from: no transfer reaches the actor without a sync before it.
pub proof fn law_history_apply_follows_synch<H, T>(
    config: HistoryConfig,
    stages: Seq<HistoryStage>,
    events: Seq<HistoryEvent<H, T>>,
    actions: Seq<HistoryAction<H, T>>,
    j: int,
)
    requires
        history_run(config, stages, events, actions),
        0 <= j < actions.len(),
        actions[j] is Apply,
    ensures
        j >= 1,
        actions[j - 1] is Synch,
        stages[j] == HistoryStage::Applying,
{
    if j == 0 {
        assert(false);
    }
    let ev = events[j - 1];
    assert(history_step_spec(config, stages[j - 1], ev, stages[j], actions[j]));
    assert(stages[j - 1] == HistoryStage::Synching);
    if j == 1 {
        assert(false);
    }
    let prev = events[j - 2];
    assert(history_step_spec(config, stages[j - 2], prev, stages[j - 1], actions[j - 1]));
}

/// The retrieval always ends: a run takes at most five events, and `Finish` is the
/// last action of any run.
pub proof fn law_history_run_is_short<H, T>(
    config: HistoryConfig,
    stages: Seq<HistoryStage>,
    events: Seq<HistoryEvent<H, T>>,
    actions: Seq<HistoryAction<H, T>>,
)
    requires
        history_run(config, stages, events, actions),
    ensures
        events.len() <= 5,
        forall|j: int| 0 <= j < actions.len() && (#[trigger] actions[j] is Finish) ==> j == events.len(),
{
    assert forall|k: int| 0 <= k <= events.len() implies stages[k].rank() >= k by {
        lemma_history_rank_grows(config, stages, events, actions, k);
    }
    assert(stages[events.len() as int].rank() <= 5);
    assert forall|j: int| 0 <= j < actions.len() && (#[trigger] actions[j] is Finish) implies j == events.len() by {
        if j < events.len() {
            if j > 0 {
                let ev = events[j - 1];
                lemma_history_step_advances(config, stages[j - 1], ev, stages[j], actions[j]);
            }
            let next_ev = events[j];
            assert(history_step_spec(config, stages[j], next_ev, stages[j + 1], actions[j + 1]));
        }
    }
}

proof fn lemma_history_rank_grows<H, T>(
    config: HistoryConfig,
    stages: Seq<HistoryStage>,
    events: Seq<HistoryEvent<H, T>>,
    actions: Seq<HistoryAction<H, T>>,
    k: int,
)
    requires
        history_run(config, stages, events, actions),
        0 <= k <= events.len(),
    ensures
        stages[k].rank() >= k,
    decreases k,
{
    if k > 0 {
        lemma_history_rank_grows(config, stages, events, actions, k - 1);
        let ev = events[k - 1];
        lemma_history_step_advances(config, stages[k - 1], ev, stages[k], actions[k]);
    }
}

/// Whether the text `m` holds "No credits or debits found to sync to actor" as a run of
/// consecutive characters.
pub open spec fn mentions_nothing_to_sync(m: Seq<char>) -> bool {
    exists|i: int|
        0 <= i && i + "No credits or debits found to sync to actor"@.len() <= m.len() && (
        #[trigger] m.subrange(i, i + "No credits or debits found to sync to actor"@.len()))
            == "No credits or debits found to sync to actor"@
}

/// A failed sync always ends the retrieval, whatever the settings: when the actor's
/// message contains "No credits or debits found to sync to actor" (the message itself
/// among them) there was nothing new and the retrieval succeeds; any other message is
/// reported as the actor's error, unchanged. The failure setting plays no part here.
pub proof fn law_history_sync_failure<H, T>(
    config: HistoryConfig,
    stage: HistoryStage,
    message: String,
    next: HistoryStage,
    action: HistoryAction<H, T>,
)
    requires
        history_step_spec(
            config,
            stage,
            HistoryEvent::<H, T>::Synched(SyncOutcome::Failed(message)),
            next,
            action,
        ),
    ensures
        stage == HistoryStage::Synching,
        next == HistoryStage::Done,
        mentions_nothing_to_sync(message@) ==> action == HistoryAction::<H, T>::Finish(Ok(())),
        !mentions_nothing_to_sync(message@) ==> action == HistoryAction::<H, T>::Finish(
            Err(CoreError::TransferError(message)),
        ),
        message@ == "No credits or debits found to sync to actor"@ ==> action
            == HistoryAction::<H, T>::Finish(Ok(())),
{
    let marker = "No credits or debits found to sync to actor"@;
    if message@ == marker {
        assert(message@.subrange(0, marker.len() as int) =~= marker);
        assert(crate::text::occurs_at(message@, nothing_to_sync_marker(), 0));
    }
    if mentions_nothing_to_sync(message@) {
        let i = choose|i: int|
            0 <= i && i + marker.len() <= message@.len() && (#[trigger] message@.subrange(
                i,
                i + marker.len(),
            )) == marker;
        assert(crate::text::occurs_at(message@, nothing_to_sync_marker(), i));
    }
    if occurs_in(message@, nothing_to_sync_marker()) {
        let i = choose|i: int| #[trigger] crate::text::occurs_at(message@, nothing_to_sync_marker(), i);
        assert(message@.subrange(i, i + marker.len()) == marker);
    }
}

/// A failure of the actor to apply the synched transfers ends the retrieval: the client's
/// operations report it as the actor's error, unchanged; the transfer actor handle's pass
/// it over and succeed.
pub proof fn law_history_apply_failure<H, T>(
    config: HistoryConfig,
    stage: HistoryStage,
    message: String,
    next: HistoryStage,
    action: HistoryAction<H, T>,
)
    requires
        history_step_spec(config, stage, HistoryEvent::<H, T>::Applied(Err(message)), next, action),
    ensures
        stage == HistoryStage::Applying,
        next == HistoryStage::Done,
        config.failures == ActorFailures::Reported ==> action == HistoryAction::<H, T>::Finish(
            Err(CoreError::TransferError(message)),
        ),
        config.failures == ActorFailures::Ignored ==> action == HistoryAction::<H, T>::Finish(
            Ok(()),
        ),
{
}

/// Two steps from the same stage on the same event agree: on the next stage, and on
/// whether and how the retrieval finishes.
pub proof fn lemma_history_step_agrees<H, T>(
    config: HistoryConfig,
    stage: HistoryStage,
    event: HistoryEvent<H, T>,
    next1: HistoryStage,
    action1: HistoryAction<H, T>,
    next2: HistoryStage,
    action2: HistoryAction<H, T>,
)
    requires
        history_step_spec(config, stage, event, next1, action1),
        history_step_spec(config, stage, event, next2, action2),
    ensures
        next1 == next2,
        action1 == HistoryAction::<H, T>::Finish(Ok(())) <==> action2 == HistoryAction::<
            H,
            T,
        >::Finish(Ok(())),
        action1 matches HistoryAction::Finish(Err(_)) <==> action2 matches HistoryAction::Finish(
            Err(_),
        ),
        !(action1 is Finish) ==> action1 == action2,
        (action1 matches HistoryAction::Finish(Err(e1)) && !(e1 is Unexpected)) ==> action1
            == action2,
{
}

} // verus!
