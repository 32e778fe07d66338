use vstd::prelude::*;
use vstd::string::*;
use crate::errors::CoreError;

verus! {

/// The text that opens the error for an unexpected reply to the replica keys query.
pub open spec fn unexpected_keys_prefix() -> Seq<char> {
    "Unexpected response when retrieving account replica keys for "@
}

/// What safe_nd's `Debug` writes for a public key; it depends on the key alone.
pub uninterp spec fn key_debug_spec(key: safe_nd::PublicKey) -> Seq<char>;

/// `format!("{:?}", key)` for the network's public key type (safe_nd's `Debug` impl).
#[verifier::external_body]
fn key_debug_text(key: &safe_nd::PublicKey) -> (text: String)
    ensures
        text@ == key_debug_spec(*key),
{
    format!("{:?}", key)
}

/// The network's reply to the replica keys query, as the decisions read it.
#[derive(Debug)]
pub enum ReplicaKeysReply<K> {
    /// The replicas' public key set.
    Keys(K),
    /// The network refused the query with this error.
    Refused(safe_nd::Error),
    /// A reply of another kind.
    Other,
}

/// Where the retrieval of the replica keys stands. Each stage holds the client's public
/// key, which the query asks for and an unexpected reply is reported with.
#[derive(Debug)]
pub enum ReplicaKeysStage {
    /// The connection is bootstrapping.
    Bootstrapping(safe_nd::PublicKey),
    /// The replica keys query has been sent.
    Querying(safe_nd::PublicKey),
    /// Finished: no further event is accepted.
    Done,
}

/// What happened after the last action.
#[derive(Debug)]
pub enum ReplicaKeysEvent<K> {
    /// The bootstrap ended with this result.
    Bootstrapped(Result<(), CoreError>),
    /// Sending the query failed.
    QueryFailed(CoreError),
    /// The network replied to the query.
    Answered(ReplicaKeysReply<K>),
}

/// What is to be done next.
#[derive(Debug)]
pub enum ReplicaKeysAction<K> {
    /// Bootstrap the connection.
    Bootstrap,
    /// Send the query for the replica keys of this public key.
    SendQuery(safe_nd::PublicKey),
    /// The retrieval is over, with this result.
    Finish(Result<K, CoreError>),
}

impl ReplicaKeysStage {
    /// The client's key that the stage holds.
    pub open spec fn client_key(self) -> safe_nd::PublicKey {
        match self {
            ReplicaKeysStage::Bootstrapping(key) => key,
            ReplicaKeysStage::Querying(key) => key,
            ReplicaKeysStage::Done => arbitrary(),
        }
    }

    /// Whether the stage takes this event.
    pub open spec fn accepts<K>(self, event: ReplicaKeysEvent<K>) -> bool {
        match self {
            ReplicaKeysStage::Bootstrapping(_) => event is Bootstrapped,
            ReplicaKeysStage::Querying(_) => event is QueryFailed || event is Answered,
            ReplicaKeysStage::Done => false,
        }
    }

    /// Whether the stage takes this event; the executable form of `accepts`.
    pub fn takes<K>(&self, event: &ReplicaKeysEvent<K>) -> (taken: bool)
        ensures
            taken == self.accepts(*event),
    {
        match self {
            ReplicaKeysStage::Bootstrapping(_) => matches!(event, ReplicaKeysEvent::Bootstrapped(_)),
            ReplicaKeysStage::Querying(_) => matches!(
                event,
                ReplicaKeysEvent::QueryFailed(_) | ReplicaKeysEvent::Answered(_)
            ),
            ReplicaKeysStage::Done => false,
        }
    }
}

/// One step of the retrieval: from `stage`, `event` leads to `next` and `action`.
pub open spec fn replica_keys_step_spec<K>(
    stage: ReplicaKeysStage,
    event: ReplicaKeysEvent<K>,
    next: ReplicaKeysStage,
    action: ReplicaKeysAction<K>,
) -> bool {
    &&& stage.accepts(event)
    &&& match event {
        ReplicaKeysEvent::Bootstrapped(Ok(())) => next == ReplicaKeysStage::Querying(
            stage.client_key(),
        ) && action == ReplicaKeysAction::<K>::SendQuery(stage.client_key()),
        ReplicaKeysEvent::Bootstrapped(Err(error)) => next == ReplicaKeysStage::Done && action
            == ReplicaKeysAction::<K>::Finish(Err(error)),
        ReplicaKeysEvent::QueryFailed(error) => next == ReplicaKeysStage::Done && action
            == ReplicaKeysAction::<K>::Finish(Err(error)),
        ReplicaKeysEvent::Answered(reply) => next == ReplicaKeysStage::Done && match reply {
            ReplicaKeysReply::Keys(keys) => action == ReplicaKeysAction::<K>::Finish(Ok(keys)),
            ReplicaKeysReply::Refused(error) => action == ReplicaKeysAction::<K>::Finish(
                Err(CoreError::DataError(error)),
            ),
            ReplicaKeysReply::Other => action matches ReplicaKeysAction::Finish(
                Err(CoreError::Unexpected(message)),
            ) && message@ == unexpected_keys_prefix() + key_debug_spec(stage.client_key()),
        },
    }
}

/// How the retrieval of the replica keys for the client with this public key begins:
/// bootstrap the connection. The stage keeps the key.
pub fn replica_keys_start<K>(client_key: &safe_nd::PublicKey) -> (start: (
    ReplicaKeysStage,
    ReplicaKeysAction<K>,
))
    ensures
        start.0 == ReplicaKeysStage::Bootstrapping(*client_key),
        start.1 is Bootstrap,
{
    (ReplicaKeysStage::Bootstrapping(*client_key), ReplicaKeysAction::Bootstrap)
}

/// Decides what follows `event` in retrieving the replica keys: the query is sent only
/// after a successful bootstrap, and only a key set in the reply ends in success.
pub fn replica_keys_step<K>(stage: ReplicaKeysStage, event: ReplicaKeysEvent<K>) -> (step: (
    ReplicaKeysStage,
    ReplicaKeysAction<K>,
))
    requires
        stage.accepts(event),
    ensures
        replica_keys_step_spec(stage, event, step.0, step.1),
{
    match stage {
        ReplicaKeysStage::Bootstrapping(key) => match event {
            ReplicaKeysEvent::Bootstrapped(Ok(())) => (
                ReplicaKeysStage::Querying(key),
                ReplicaKeysAction::SendQuery(key),
            ),
            ReplicaKeysEvent::Bootstrapped(Err(error)) => (
                ReplicaKeysStage::Done,
                ReplicaKeysAction::Finish(Err(error)),
            ),
            _ => {
                assert(false);
                (ReplicaKeysStage::Done, ReplicaKeysAction::Bootstrap)
            },
        },
        ReplicaKeysStage::Querying(key) => match event {
            ReplicaKeysEvent::QueryFailed(error) => (
                ReplicaKeysStage::Done,
                ReplicaKeysAction::Finish(Err(error)),
            ),
            ReplicaKeysEvent::Answered(ReplicaKeysReply::Keys(keys)) => (
                ReplicaKeysStage::Done,
                ReplicaKeysAction::Finish(Ok(keys)),
            ),
            ReplicaKeysEvent::Answered(ReplicaKeysReply::Refused(error)) => (
                ReplicaKeysStage::Done,
                ReplicaKeysAction::Finish(Err(CoreError::from(error))),
            ),
            ReplicaKeysEvent::Answered(ReplicaKeysReply::Other) => {
                let text = key_debug_text(&key);
                let message = String::from_str(
                    "Unexpected response when retrieving account replica keys for ",
                ).concat(text.as_str());
                (ReplicaKeysStage::Done, ReplicaKeysAction::Finish(Err(CoreError::Unexpected(message))))
            },
            _ => {
                assert(false);
                (ReplicaKeysStage::Done, ReplicaKeysAction::Bootstrap)
            },
        },
        ReplicaKeysStage::Done => {
            assert(false);
            (ReplicaKeysStage::Done, ReplicaKeysAction::Bootstrap)
        },
    }
}

/// A run of the retrieval: `stages[i]` is where it stood before `events[i]`,
/// `actions[0]` is the first action and `actions[i + 1]` the answer to `events[i]`.
pub open spec fn replica_keys_run<K>(
    stages: Seq<ReplicaKeysStage>,
    events: Seq<ReplicaKeysEvent<K>>,
    actions: Seq<ReplicaKeysAction<K>>,
) -> bool {
    &&& stages.len() == events.len() + 1
    &&& actions.len() == events.len() + 1
    &&& stages[0] is Bootstrapping
    &&& actions[0] is Bootstrap
    &&& forall|i: int|
        0 <= i < events.len() ==> replica_keys_step_spec(
            stages[i],
            #[trigger] events[i],
            stages[i + 1],
            actions[i + 1],
        )
}

/// Replica keys are handed back only from the network's reply to the query, which is
/// sent only after the bootstrap succeeded: a successful run is exactly bootstrap, query,
/// keys, and the keys are those of the reply.
pub proof fn law_replica_keys_only_from_reply<K>(
    stages: Seq<ReplicaKeysStage>,
    events: Seq<ReplicaKeysEvent<K>>,
    actions: Seq<ReplicaKeysAction<K>>,
    j: int,
)
    requires
        replica_keys_run(stages, events, actions),
        0 <= j < actions.len(),
        actions[j] matches ReplicaKeysAction::Finish(Ok(_)),
    ensures
        j == 2,
        events.len() == 2,
        events[0] matches ReplicaKeysEvent::Bootstrapped(Ok(())),
        actions[1] == ReplicaKeysAction::<K>::SendQuery(stages[0].client_key()),
        events[1] == ReplicaKeysEvent::<K>::Answered(
            ReplicaKeysReply::Keys(actions[j]->Finish_0->Ok_0),
        ),
{
    if j == 0 {
        assert(false);
    }
    let ev = events[j - 1];
    assert(replica_keys_step_spec(stages[j - 1], ev, stages[j], actions[j]));
    if j == 1 {
        assert(false);
    }
    let prev = events[j - 2];
    assert(replica_keys_step_spec(stages[j - 2], prev, stages[j - 1], actions[j - 1]));
    if j >= 3 {
        let first = events[j - 3];
        assert(replica_keys_step_spec(stages[j - 3], first, stages[j - 2], actions[j - 2]));
        assert(false);
    }
    if events.len() > 2 {
        let after = events[2];
        assert(replica_keys_step_spec(stages[2], after, stages[3], actions[3]));
    }
}

} // verus!
