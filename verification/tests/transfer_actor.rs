use safe_core::errors::CoreError;
use safe_core::transfer_actor::history::{
    history_start, history_step, ActorFailures, HistoryAction, HistoryConfig, HistoryEvent,
    HistoryReply, HistoryStage, SyncOutcome,
};
use safe_core::transfer_actor::payment::{
    payment_config, payment_start, payment_step, try_payment_config, PaymentAction,
    PaymentConfig, PaymentEvent, PaymentStage, TransferOutcome, COST_OF_PUT,
};
use safe_core::transfer_actor::setup::{
    replica_keys_start, replica_keys_step, ReplicaKeysAction, ReplicaKeysEvent, ReplicaKeysReply,
    ReplicaKeysStage,
};
use safe_core::transfer_actor::validator::ClientTransferValidator;

type HEvent = HistoryEvent<Vec<u32>, Vec<u32>>;
type HAction = HistoryAction<Vec<u32>, Vec<u32>>;
type PEvent = PaymentEvent<Vec<u32>, Vec<u32>, &'static str, u64>;
type PAction = PaymentAction<Vec<u32>, Vec<u32>, &'static str, u64>;
type PStage = PaymentStage<&'static str>;

fn bls_key() -> safe_nd::PublicKey {
    safe_nd::PublicKey::Bls(threshold_crypto::SecretKey::random().public_key())
}

fn history_run_with(
    config: &HistoryConfig,
    events: Vec<HEvent>,
) -> (HistoryStage, Vec<HAction>) {
    // Every run here begins with the query message built; the runs' actions are given
    // from the answer to that event on.
    let (stage, first): (HistoryStage, HAction) = history_start(config);
    assert!(matches!(
        first,
        HistoryAction::BuildQuery { at, since_version: 0 } if at == config.client_key
    ));
    let (mut stage, first) = history_step(config, stage, HistoryEvent::QueryBuilt(Ok(())));
    let mut actions = vec![first];
    for event in events {
        assert!(stage.takes(&event));
        let (next, action) = history_step(config, stage, event);
        stage = next;
        actions.push(action);
    }
    (stage, actions)
}

fn history_run(events: Vec<HEvent>) -> (HistoryStage, Vec<HAction>) {
    let config = HistoryConfig { client_key: bls_key(), failures: ActorFailures::Reported };
    history_run_with(&config, events)
}

#[test]
fn validator_accepts_any_replica_group() {
    let validator = ClientTransferValidator {};
    assert!(validator.is_valid(bls_key()));
    assert!(validator.is_valid(bls_key()));
}

#[test]
fn history_with_new_transfers_is_synched_then_applied() {
    let (stage, actions) = history_run(vec![
        HistoryEvent::Bootstrapped,
        HistoryEvent::Answered(HistoryReply::History(vec![1, 2])),
        HistoryEvent::Synched(SyncOutcome::Synched(vec![7])),
        HistoryEvent::Applied(Ok(())),
    ]);
    assert_eq!(stage, HistoryStage::Done);
    assert!(matches!(actions[0], HistoryAction::Bootstrap));
    assert!(matches!(actions[1], HistoryAction::SendQuery));
    assert!(matches!(&actions[2], HistoryAction::Synch(h) if *h == vec![1, 2]));
    assert!(matches!(&actions[3], HistoryAction::Apply(t) if *t == vec![7]));
    assert!(matches!(actions[4], HistoryAction::Finish(Ok(()))));
}

#[test]
fn history_up_to_date_finishes_without_applying() {
    let (stage, actions) = history_run(vec![
        HistoryEvent::Bootstrapped,
        HistoryEvent::Answered(HistoryReply::History(vec![])),
        HistoryEvent::Synched(SyncOutcome::UpToDate),
    ]);
    assert_eq!(stage, HistoryStage::Done);
    assert_eq!(actions.len(), 4);
    assert!(matches!(actions[3], HistoryAction::Finish(Ok(()))));
}

#[test]
fn history_nothing_to_sync_error_is_tolerated() {
    let (_, actions) = history_run(vec![
        HistoryEvent::Bootstrapped,
        HistoryEvent::Answered(HistoryReply::History(vec![])),
        HistoryEvent::Synched(SyncOutcome::Failed(
            "InvalidOperation: No credits or debits found to sync to actor".to_string(),
        )),
    ]);
    assert!(matches!(actions[3], HistoryAction::Finish(Ok(()))));
}

#[test]
fn history_other_sync_error_is_reported() {
    let (_, actions) = history_run(vec![
        HistoryEvent::Bootstrapped,
        HistoryEvent::Answered(HistoryReply::History(vec![])),
        HistoryEvent::Synched(SyncOutcome::Failed("Debit is not sequential".to_string())),
    ]);
    assert!(matches!(
        &actions[3],
        HistoryAction::Finish(Err(CoreError::TransferError(m))) if m == "Debit is not sequential"
    ));
}

#[test]
fn history_unexpected_reply_is_reported_with_its_text() {
    let (stage, actions) = history_run(vec![
        HistoryEvent::Bootstrapped,
        HistoryEvent::Answered(HistoryReply::Other("GetBalance(Ok(Money(3)))".to_string())),
    ]);
    assert_eq!(stage, HistoryStage::Done);
    assert!(matches!(
        &actions[2],
        HistoryAction::Finish(Err(CoreError::Unexpected(m)))
            if m == "Unexpected response when retrieving account history GetBalance(Ok(Money(3)))"
    ));
}

#[test]
fn history_refusal_and_send_failure_end_in_errors() {
    let (_, actions) = history_run(vec![
        HistoryEvent::Bootstrapped,
        HistoryEvent::Answered(HistoryReply::Refused(safe_nd::Error::AccessDenied)),
    ]);
    assert!(matches!(
        actions[2],
        HistoryAction::Finish(Err(CoreError::DataError(safe_nd::Error::AccessDenied)))
    ));
    let (_, actions) = history_run(vec![
        HistoryEvent::Bootstrapped,
        HistoryEvent::QueryFailed(CoreError::Unexpected("timeout".to_string())),
    ]);
    assert!(matches!(
        &actions[2],
        HistoryAction::Finish(Err(CoreError::Unexpected(m))) if m == "timeout"
    ));
}

#[test]
fn history_apply_failure_is_reported() {
    let (_, actions) = history_run(vec![
        HistoryEvent::Bootstrapped,
        HistoryEvent::Answered(HistoryReply::History(vec![1])),
        HistoryEvent::Synched(SyncOutcome::Synched(vec![1])),
        HistoryEvent::Applied(Err("bad event".to_string())),
    ]);
    assert!(matches!(
        &actions[4],
        HistoryAction::Finish(Err(CoreError::TransferError(m))) if m == "bad event"
    ));
}

#[test]
fn history_query_asks_for_the_client_key_from_version_zero() {
    let key = bls_key();
    let config = HistoryConfig { client_key: key, failures: ActorFailures::Ignored };
    let (stage, first): (HistoryStage, HAction) = history_start(&config);
    assert_eq!(stage, HistoryStage::Building);
    assert!(matches!(first, HistoryAction::BuildQuery { at, since_version: 0 } if at == key));
    let (_, actions) = history_run_with(&config, vec![HistoryEvent::Bootstrapped]);
    assert!(matches!(actions[0], HistoryAction::Bootstrap));
    assert!(matches!(actions[1], HistoryAction::SendQuery));
}

#[test]
fn history_ends_when_the_query_message_cannot_be_built() {
    let config = HistoryConfig { client_key: bls_key(), failures: ActorFailures::Ignored };
    let (stage, _): (HistoryStage, HAction) = history_start(&config);
    let event: HEvent = HistoryEvent::QueryBuilt(Err(CoreError::Unexpected("unsigned".to_string())));
    assert!(stage.takes(&event));
    let (stage, action) = history_step(&config, stage, event);
    assert_eq!(stage, HistoryStage::Done);
    assert!(matches!(
        &action,
        HistoryAction::Finish(Err(CoreError::Unexpected(m))) if m == "unsigned"
    ));
}

#[test]
fn history_apply_failure_is_passed_over_when_failures_are_ignored() {
    let config = HistoryConfig { client_key: bls_key(), failures: ActorFailures::Ignored };
    let (stage, actions) = history_run_with(
        &config,
        vec![
            HistoryEvent::Bootstrapped,
            HistoryEvent::Answered(HistoryReply::History(vec![1])),
            HistoryEvent::Synched(SyncOutcome::Synched(vec![1])),
            HistoryEvent::Applied(Err("bad event".to_string())),
        ],
    );
    assert_eq!(stage, HistoryStage::Done);
    assert!(matches!(actions[4], HistoryAction::Finish(Ok(()))));
}

#[test]
fn done_history_takes_no_event() {
    let event: HEvent = HistoryEvent::Bootstrapped;
    assert!(!HistoryStage::Done.takes(&event));
    assert!(!HistoryStage::Querying.takes(&event));
    assert!(HistoryStage::Bootstrapping.takes(&event));
}

fn payment_config_to(key: safe_nd::PublicKey, failures: ActorFailures) -> PaymentConfig {
    PaymentConfig { history: HistoryConfig { client_key: bls_key(), failures }, section_key: key }
}

fn payment_run(key: safe_nd::PublicKey, events: Vec<PEvent>) -> (PStage, Vec<PAction>) {
    payment_run_with(&payment_config_to(key, ActorFailures::Reported), events)
}

fn payment_run_with(config: &PaymentConfig, events: Vec<PEvent>) -> (PStage, Vec<PAction>) {
    // As for the history runs: the actions are given from the answer to the built query
    // message on.
    let (stage, first): (PStage, PAction) = payment_start(config);
    assert!(matches!(
        first,
        PaymentAction::History(HistoryAction::BuildQuery { at, since_version: 0 })
            if at == config.history.client_key
    ));
    let (mut stage, first) =
        payment_step(config, stage, PaymentEvent::History(HistoryEvent::QueryBuilt(Ok(()))));
    let mut actions = vec![first];
    for event in events {
        assert!(stage.takes(&event));
        let (next, action) = payment_step(config, stage, event);
        stage = next;
        actions.push(action);
    }
    (stage, actions)
}

fn synced_history_events() -> Vec<PEvent> {
    vec![
        PaymentEvent::History(HistoryEvent::Bootstrapped),
        PaymentEvent::History(HistoryEvent::Answered(HistoryReply::History(vec![3]))),
        PaymentEvent::History(HistoryEvent::Synched(SyncOutcome::UpToDate)),
    ]
}

#[test]
fn payment_goes_through_history_transfer_record_and_validation() {
    let key = bls_key();
    let mut events = synced_history_events();
    events.push(PaymentEvent::Transferred(TransferOutcome::Initiated("signed")));
    events.push(PaymentEvent::EnvelopeBuilt(Ok(())));
    events.push(PaymentEvent::Recorded(Ok(())));
    events.push(PaymentEvent::Bootstrapped);
    events.push(PaymentEvent::Validated(Ok(42)));
    let (stage, actions) = payment_run(key, events);
    assert!(matches!(stage, PaymentStage::Done));
    assert_eq!(actions.len(), 9);
    assert!(matches!(actions[0], PaymentAction::History(HistoryAction::Bootstrap)));
    assert!(matches!(actions[1], PaymentAction::History(HistoryAction::SendQuery)));
    assert!(matches!(&actions[2], PaymentAction::History(HistoryAction::Synch(h)) if *h == vec![3]));
    assert!(matches!(
        &actions[3],
        PaymentAction::Transfer { amount, to } if *to == key && *amount == COST_OF_PUT
    ));
    assert_eq!(COST_OF_PUT, 1);
    assert!(matches!(actions[4], PaymentAction::BuildEnvelope));
    assert!(matches!(actions[5], PaymentAction::Record("signed")));
    assert!(matches!(actions[6], PaymentAction::Bootstrap));
    assert!(matches!(actions[7], PaymentAction::AwaitValidation));
    assert!(matches!(actions[8], PaymentAction::Finish(Ok(42))));
}

#[test]
fn payment_stops_when_history_fails() {
    let (stage, actions) = payment_run(
        bls_key(),
        vec![
            PaymentEvent::History(HistoryEvent::Bootstrapped),
            PaymentEvent::History(HistoryEvent::Answered(HistoryReply::Refused(
                safe_nd::Error::NoSuchBalance,
            ))),
        ],
    );
    assert!(matches!(stage, PaymentStage::Done));
    assert!(matches!(
        actions[2],
        PaymentAction::Finish(Err(CoreError::DataError(safe_nd::Error::NoSuchBalance)))
    ));
}

#[test]
fn payment_without_produced_transfer_fails() {
    let mut events = synced_history_events();
    events.push(PaymentEvent::Transferred(TransferOutcome::NothingProduced));
    let (_, actions) = payment_run(bls_key(), events);
    assert!(matches!(
        &actions[4],
        PaymentAction::Finish(Err(CoreError::Unexpected(m))) if m == "No transfer produced by actor."
    ));
}

#[test]
fn payment_transfer_and_record_failures_are_reported() {
    let mut events = synced_history_events();
    events.push(PaymentEvent::Transferred(TransferOutcome::Failed("InsufficientBalance".to_string())));
    let (_, actions) = payment_run(bls_key(), events);
    assert!(matches!(
        &actions[4],
        PaymentAction::Finish(Err(CoreError::TransferError(m))) if m == "InsufficientBalance"
    ));
    let mut events = synced_history_events();
    events.push(PaymentEvent::Transferred(TransferOutcome::Initiated("signed")));
    events.push(PaymentEvent::EnvelopeBuilt(Ok(())));
    events.push(PaymentEvent::Recorded(Err("already applied".to_string())));
    let (_, actions) = payment_run(bls_key(), events);
    assert!(matches!(
        &actions[6],
        PaymentAction::Finish(Err(CoreError::TransferError(m))) if m == "already applied"
    ));
}

#[test]
fn payment_validation_failure_is_passed_on() {
    let mut events = synced_history_events();
    events.push(PaymentEvent::Transferred(TransferOutcome::Initiated("signed")));
    events.push(PaymentEvent::EnvelopeBuilt(Ok(())));
    events.push(PaymentEvent::Recorded(Ok(())));
    events.push(PaymentEvent::Bootstrapped);
    events.push(PaymentEvent::Validated(Err(CoreError::Unexpected("rejected".to_string()))));
    let (_, actions) = payment_run(bls_key(), events);
    assert!(matches!(
        &actions[8],
        PaymentAction::Finish(Err(CoreError::Unexpected(m))) if m == "rejected"
    ));
}

#[test]
fn payment_record_failure_is_passed_over_when_failures_are_ignored() {
    let key = bls_key();
    let mut events = synced_history_events();
    events.push(PaymentEvent::Transferred(TransferOutcome::Initiated("signed")));
    events.push(PaymentEvent::EnvelopeBuilt(Ok(())));
    events.push(PaymentEvent::Recorded(Err("already applied".to_string())));
    events.push(PaymentEvent::Bootstrapped);
    events.push(PaymentEvent::Validated(Ok(5)));
    let (stage, actions) =
        payment_run_with(&payment_config_to(key, ActorFailures::Ignored), events);
    assert!(matches!(stage, PaymentStage::Done));
    assert!(matches!(actions[6], PaymentAction::Bootstrap));
    assert!(matches!(actions[7], PaymentAction::AwaitValidation));
    assert!(matches!(actions[8], PaymentAction::Finish(Ok(5))));
}

#[test]
fn payment_envelope_failure_ends_before_recording() {
    let mut events = synced_history_events();
    events.push(PaymentEvent::Transferred(TransferOutcome::Initiated("signed")));
    events.push(PaymentEvent::EnvelopeBuilt(Err(CoreError::Unexpected("no key".to_string()))));
    let (stage, actions) =
        payment_run_with(&payment_config_to(bls_key(), ActorFailures::Ignored), events);
    assert!(matches!(stage, PaymentStage::Done));
    assert_eq!(actions.len(), 6);
    assert!(matches!(actions[4], PaymentAction::BuildEnvelope));
    assert!(matches!(
        &actions[5],
        PaymentAction::Finish(Err(CoreError::Unexpected(m))) if m == "no key"
    ));
}

#[test]
fn payment_goes_to_the_replicas_section_key() {
    let replicas =
        threshold_crypto::PublicKeySet::from(threshold_crypto::poly::Poly::identity().commitment());
    let client = bls_key();
    let config = payment_config(client, ActorFailures::Reported, &replicas);
    assert!(config.history.client_key == client);
    assert_eq!(config.history.failures, ActorFailures::Reported);
    let expected = safe_nd::PublicKey::Bls(replicas.public_key());
    assert!(config.section_key == expected);
    let (mut stage, first): (PStage, PAction) = payment_start(&config);
    assert!(matches!(
        first,
        PaymentAction::History(HistoryAction::BuildQuery { at, since_version: 0 }) if at == client
    ));
    let mut last = first;
    let mut events = vec![PaymentEvent::History(HistoryEvent::QueryBuilt(Ok(())))];
    events.extend(synced_history_events());
    for event in events {
        let (next, action) = payment_step(&config, stage, event);
        stage = next;
        last = action;
    }
    assert!(matches!(last, PaymentAction::Transfer { amount: COST_OF_PUT, to } if to == expected));
}

#[test]
fn payment_config_is_refused_for_a_key_set_without_master_key() {
    let empty =
        threshold_crypto::PublicKeySet::from(threshold_crypto::poly::Poly::zero().commitment());
    assert!(try_payment_config(bls_key(), ActorFailures::Ignored, &empty).is_none());
    let replicas =
        threshold_crypto::PublicKeySet::from(threshold_crypto::poly::Poly::identity().commitment());
    let config = try_payment_config(bls_key(), ActorFailures::Ignored, &replicas).unwrap();
    assert!(config.section_key == safe_nd::PublicKey::Bls(replicas.public_key()));
    assert_eq!(config.history.failures, ActorFailures::Ignored);
}

#[test]
fn replica_keys_are_returned_after_bootstrap_and_query() {
    let key = bls_key();
    let (stage, first) = replica_keys_start::<u32>(&key);
    assert!(matches!(first, ReplicaKeysAction::Bootstrap));
    assert!(matches!(stage, ReplicaKeysStage::Bootstrapping(k) if k == key));
    let (stage, action) = replica_keys_step(stage, ReplicaKeysEvent::<u32>::Bootstrapped(Ok(())));
    assert!(matches!(action, ReplicaKeysAction::SendQuery(k) if k == key));
    assert!(matches!(stage, ReplicaKeysStage::Querying(k) if k == key));
    let (stage, action) =
        replica_keys_step(stage, ReplicaKeysEvent::Answered(ReplicaKeysReply::Keys(9)));
    assert!(matches!(stage, ReplicaKeysStage::Done));
    assert!(matches!(action, ReplicaKeysAction::Finish(Ok(9))));
}

#[test]
fn replica_keys_unexpected_reply_names_the_client_key() {
    let key = bls_key();
    let (stage, _) = replica_keys_start::<u32>(&key);
    let (stage, _) = replica_keys_step(stage, ReplicaKeysEvent::<u32>::Bootstrapped(Ok(())));
    let (_, action) =
        replica_keys_step(stage, ReplicaKeysEvent::Answered(ReplicaKeysReply::<u32>::Other));
    let expected = format!("Unexpected response when retrieving account replica keys for {:?}", key);
    assert!(expected.starts_with("Unexpected response when retrieving account replica keys for PublicKey::Bls("));
    assert!(matches!(
        &action,
        ReplicaKeysAction::Finish(Err(CoreError::Unexpected(m))) if *m == expected
    ));
}

#[test]
fn replica_keys_failures_end_the_retrieval() {
    let (stage, _) = replica_keys_start::<u32>(&bls_key());
    let (stage, action) = replica_keys_step(
        stage,
        ReplicaKeysEvent::<u32>::Bootstrapped(Err(CoreError::Unexpected("offline".to_string()))),
    );
    assert!(matches!(stage, ReplicaKeysStage::Done));
    assert!(matches!(&action, ReplicaKeysAction::Finish(Err(CoreError::Unexpected(m))) if m == "offline"));
    let (stage, _) = replica_keys_start::<u32>(&bls_key());
    let (stage, _) = replica_keys_step(stage, ReplicaKeysEvent::<u32>::Bootstrapped(Ok(())));
    let (_, action) = replica_keys_step(
        stage,
        ReplicaKeysEvent::Answered(ReplicaKeysReply::<u32>::Refused(safe_nd::Error::NoSuchKey)),
    );
    assert!(matches!(
        action,
        ReplicaKeysAction::Finish(Err(CoreError::DataError(safe_nd::Error::NoSuchKey)))
    ));
}
