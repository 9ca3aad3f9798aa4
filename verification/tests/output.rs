use crfty_core::output::{recover_output, validate_output_delta};
use crfty_core::{
    ArtifactIdentity, ArtifactObservation, ContentKey, DestructiveIdentity, DurableState,
    FileSystemFacts, FileSystemId, FileTimeNs, OutputDelta, OutputRecoveryAction, OutputState,
    OutputTransaction, RecoveryConflict, Replacement, RunId,
};

fn destructive(inode: u64, size: u64) -> DestructiveIdentity {
    DestructiveIdentity {
        file_id: FileSystemId::Unix { device: 1, inode },
        size,
        modified_ns: Some(FileTimeNs(size)),
    }
}

fn artifact(name: &str, inode: u64, size: u64) -> ArtifactIdentity {
    ArtifactIdentity {
        content_key: ContentKey(name.to_owned()),
        destructive: destructive(inode, size),
    }
}

fn transaction(state: OutputState, replacement: Replacement) -> OutputTransaction {
    OutputTransaction {
        run_id: RunId(9),
        input: "input.mkv".to_owned(),
        input_identity: artifact("input", 1, 10),
        staging: ".output.mkv.crfty-9.part".to_owned(),
        initial_staging_identity: artifact("empty", 2, 0),
        final_path: "output.mkv".to_owned(),
        final_preimage: None,
        replacement,
        state,
    }
}

fn facts(
    staging: ArtifactObservation,
    final_path: ArtifactObservation,
    original: ArtifactObservation,
) -> FileSystemFacts {
    FileSystemFacts {
        staging,
        final_path,
        original,
    }
}

fn conflict(reason: &str) -> OutputRecoveryAction {
    OutputRecoveryAction::Conflict(RecoveryConflict {
        reason: reason.to_owned(),
    })
}

use ArtifactObservation::{Absent, Present};

#[test]
fn recovery_of_a_started_transaction() {
    let started = transaction(OutputState::Started, Replacement::KeepOriginal);
    assert_eq!(
        recover_output(&started, &facts(Absent, Absent, Present(artifact("input", 1, 10)))),
        OutputRecoveryAction::Append(OutputDelta::Abandoned { run_id: RunId(9) })
    );
    assert_eq!(
        recover_output(&started, &facts(Present(artifact("empty", 2, 0)), Absent, Absent)),
        OutputRecoveryAction::Append(OutputDelta::AbandonStagingIntent {
            run_id: RunId(9),
            staging_identity: artifact("empty", 2, 0),
        })
    );
    assert_eq!(
        recover_output(&started, &facts(Present(artifact("partial", 2, 123)), Absent, Absent)),
        OutputRecoveryAction::Append(OutputDelta::AbandonStagingIntent {
            run_id: RunId(9),
            staging_identity: artifact("partial", 2, 123),
        })
    );
}

#[test]
fn recovery_of_a_ready_transaction_promotes_or_commits() {
    let staged = artifact("encoded", 2, 400);
    let ready = transaction(
        OutputState::Ready {
            staging_identity: staged.clone(),
        },
        Replacement::KeepOriginal,
    );
    assert_eq!(
        recover_output(&ready, &facts(Present(staged.clone()), Absent, Absent)),
        OutputRecoveryAction::Promote {
            staging: ".output.mkv.crfty-9.part".to_owned(),
            final_path: "output.mkv".to_owned(),
            expected_staging: staged.clone(),
            expected_final: None,
        }
    );
    let promoted = artifact("encoded", 3, 400);
    assert_eq!(
        recover_output(&ready, &facts(Absent, Present(promoted.clone()), Absent)),
        OutputRecoveryAction::Append(OutputDelta::OutputCommitted {
            run_id: RunId(9),
            final_identity: promoted,
        })
    );
    assert_eq!(
        recover_output(&ready, &facts(Present(staged), Present(artifact("other", 4, 1)), Absent)),
        conflict("output files do not match the recorded ready state")
    );
}

#[test]
fn recovery_of_committed_and_retiring_transactions() {
    let output = artifact("encoded", 3, 400);
    let keep = transaction(
        OutputState::Committed {
            final_identity: output.clone(),
        },
        Replacement::KeepOriginal,
    );
    assert_eq!(
        recover_output(&keep, &facts(Absent, Present(output.clone()), Absent)),
        OutputRecoveryAction::Nothing
    );
    assert_eq!(
        recover_output(&keep, &facts(Absent, Absent, Absent)),
        conflict("committed output identity changed")
    );
    let retire = transaction(
        OutputState::Committed {
            final_identity: output.clone(),
        },
        Replacement::RetireOriginal,
    );
    assert_eq!(
        recover_output(&retire, &facts(Absent, Present(output.clone()), Absent)),
        OutputRecoveryAction::Append(OutputDelta::RetireOriginalIntent { run_id: RunId(9) })
    );
    let intent = transaction(
        OutputState::RetireIntent {
            final_identity: output.clone(),
        },
        Replacement::RetireOriginal,
    );
    assert_eq!(
        recover_output(
            &intent,
            &facts(Absent, Present(output.clone()), Present(artifact("input", 1, 10)))
        ),
        OutputRecoveryAction::DeleteOriginal {
            path: "input.mkv".to_owned(),
            expected_original: artifact("input", 1, 10),
            expected_final: output.clone(),
        }
    );
    assert_eq!(
        recover_output(&intent, &facts(Absent, Present(output.clone()), Absent)),
        OutputRecoveryAction::Append(OutputDelta::OriginalRetired { run_id: RunId(9) })
    );
    assert_eq!(
        recover_output(
            &intent,
            &facts(Absent, Present(output), Present(artifact("input", 1, 11)))
        ),
        conflict("original changed before retirement")
    );
}

#[test]
fn recovery_of_an_abandonment_in_progress() {
    let staged = artifact("partial", 2, 50);
    let abandoning = transaction(
        OutputState::AbandonIntent {
            staging_identity: staged.clone(),
        },
        Replacement::KeepOriginal,
    );
    assert_eq!(
        recover_output(&abandoning, &facts(Absent, Absent, Absent)),
        OutputRecoveryAction::Append(OutputDelta::Abandoned { run_id: RunId(9) })
    );
    assert_eq!(
        recover_output(&abandoning, &facts(Present(staged.clone()), Absent, Absent)),
        OutputRecoveryAction::DeleteStaging {
            path: ".output.mkv.crfty-9.part".to_owned(),
            expected: staged,
        }
    );
}

#[test]
fn settled_transactions_need_no_recovery_whatever_is_on_disk() {
    let output = artifact("encoded", 3, 400);
    let settled = [
        transaction(
            OutputState::Retired {
                final_identity: output.clone(),
            },
            Replacement::RetireOriginal,
        ),
        transaction(OutputState::Abandoned, Replacement::KeepOriginal),
        transaction(
            OutputState::Conflict {
                reason: "fixture".to_owned(),
            },
            Replacement::KeepOriginal,
        ),
    ];
    for transaction in settled {
        assert!(transaction.is_settled());
        for disk in [
            facts(Absent, Absent, Absent),
            facts(Present(output.clone()), Present(output.clone()), Present(output.clone())),
        ] {
            assert_eq!(recover_output(&transaction, &disk), OutputRecoveryAction::Nothing);
        }
    }
}

#[test]
fn output_steps_must_follow_the_recorded_state() {
    let mut durable = DurableState::default();
    let started = transaction(OutputState::Started, Replacement::KeepOriginal);
    let begin = OutputDelta::EncodeStarted {
        transaction: Box::new(started.clone()),
    };
    assert_eq!(validate_output_delta(&durable, &begin), Ok(()));
    begin.fold_into(&mut durable.outputs);
    assert_eq!(
        validate_output_delta(&durable, &begin),
        Err("output transaction already exists")
    );
    let skipped = OutputDelta::OutputCommitted {
        run_id: RunId(9),
        final_identity: artifact("encoded", 3, 400),
    };
    assert_eq!(
        validate_output_delta(&durable, &skipped),
        Err("output transition does not follow the recorded state")
    );
    let missing = OutputDelta::Abandoned { run_id: RunId(10) };
    assert_eq!(
        validate_output_delta(&durable, &missing),
        Err("output transaction does not exist")
    );
    let ready = OutputDelta::OutputReady {
        run_id: RunId(9),
        staging_identity: artifact("encoded", 2, 400),
    };
    assert_eq!(validate_output_delta(&durable, &ready), Ok(()));
    ready.fold_into(&mut durable.outputs);
    assert!(matches!(durable.outputs[0].state, OutputState::Ready { .. }));
    assert_eq!(validate_output_delta(&durable, &skipped), Ok(()));
    skipped.fold_into(&mut durable.outputs);
    assert!(durable.outputs[0].is_settled());
    assert_eq!(
        durable.outputs[0].promoted_identity(),
        Some(&artifact("encoded", 3, 400))
    );
}

#[test]
fn recovery_covers_every_destructive_boundary() {
    let input = artifact("input", 1, 10);
    let started = transaction(OutputState::Started, Replacement::RetireOriginal);
    assert!(matches!(
        recover_output(&started, &facts(Present(artifact("empty", 2, 0)), Absent, Present(input.clone()))),
        OutputRecoveryAction::Append(OutputDelta::AbandonStagingIntent { .. })
    ));
    assert!(matches!(
        recover_output(&started, &facts(Present(artifact("partial", 2, 123)), Absent, Present(input.clone()))),
        OutputRecoveryAction::Append(OutputDelta::AbandonStagingIntent { .. })
    ));
    assert!(matches!(
        recover_output(&started, &facts(Absent, Absent, Present(input.clone()))),
        OutputRecoveryAction::Append(OutputDelta::Abandoned { .. })
    ));

    let staged = artifact("encoded", 2, 7);
    let ready = transaction(
        OutputState::Ready {
            staging_identity: staged.clone(),
        },
        Replacement::RetireOriginal,
    );
    let before_rename = facts(Present(staged.clone()), Absent, Present(input.clone()));
    assert!(matches!(recover_output(&ready, &before_rename), OutputRecoveryAction::Promote { .. }));
    let promoted = artifact("encoded", 3, 7);
    let after_rename = facts(Absent, Present(promoted.clone()), Present(input.clone()));
    assert!(matches!(
        recover_output(&ready, &after_rename),
        OutputRecoveryAction::Append(OutputDelta::OutputCommitted { .. })
    ));

    let committed = transaction(
        OutputState::Committed {
            final_identity: promoted.clone(),
        },
        Replacement::RetireOriginal,
    );
    assert!(matches!(
        recover_output(&committed, &after_rename),
        OutputRecoveryAction::Append(OutputDelta::RetireOriginalIntent { .. })
    ));
    let retire = transaction(
        OutputState::RetireIntent {
            final_identity: promoted.clone(),
        },
        Replacement::RetireOriginal,
    );
    assert!(matches!(recover_output(&retire, &after_rename), OutputRecoveryAction::DeleteOriginal { .. }));
    let after_delete = facts(Absent, Present(promoted), Absent);
    assert!(matches!(
        recover_output(&retire, &after_delete),
        OutputRecoveryAction::Append(OutputDelta::OriginalRetired { .. })
    ));
}
