use crfty_core::analysis::{
    apply_analysis_mutation, begin_analysis_generation, decide_freshness, fold_analysis,
    observation_stability,
};
use crfty_core::{
    AnalysisActivity, AnalysisDelta, AnalysisDisplayText, AnalysisFileScan, AnalysisGeneration,
    AnalysisGenerationId, AnalysisMutationError, AnalysisRow, AnalysisRowEntry, AnalysisRowId,
    AnalysisSnapshot, CurrentFileIdentity, DestructiveIdentity, FileSystemId, FileTimeNs,
    FreshnessDecision, FreshnessReason, ObservationStability, TimestampReliability,
};

fn identity(file: u64, size: u64, modified_ns: Option<u64>) -> DestructiveIdentity {
    DestructiveIdentity {
        file_id: FileSystemId::Unix {
            device: 1,
            inode: file,
        },
        size,
        modified_ns: modified_ns.map(FileTimeNs),
    }
}

fn text(value: &str) -> AnalysisDisplayText {
    AnalysisDisplayText {
        text: value.to_owned(),
        lossy: false,
    }
}

fn row(id: u64, name: &str) -> AnalysisRow {
    let display = text(name);
    AnalysisRow {
        id: AnalysisRowId(id),
        parent: None,
        entry: AnalysisRowEntry::File {
            scan: AnalysisFileScan::Discovered,
        },
        display_name: display.clone(),
        display_path: display,
    }
}

fn snapshot(generation: u64) -> AnalysisSnapshot {
    AnalysisSnapshot {
        current: Some(AnalysisGeneration {
            id: AnalysisGenerationId(generation),
            roots: vec![text("root")],
            activity: AnalysisActivity::Discovering,
            rows: Vec::new(),
        }),
    }
}

fn set_activity(state: &mut AnalysisSnapshot, activity: AnalysisActivity) {
    state.current.as_mut().expect("generation").activity = activity;
}

#[test]
fn reset_replaces_the_complete_standing_generation() {
    let mut state = snapshot(1);
    let replacement = snapshot(2);
    fold_analysis(
        &mut state,
        &AnalysisDelta::Reset {
            snapshot: Box::new(replacement.clone()),
        },
    );
    assert_eq!(state, replacement);
}

#[test]
fn reducer_allocates_generations_and_rejects_stale_mutations() {
    let mut state = AnalysisSnapshot::default();
    assert_eq!(
        begin_analysis_generation(&state, Vec::new()),
        Err(AnalysisMutationError::EmptyRoots)
    );
    let first = begin_analysis_generation(&state, vec![text("first")]).expect("first generation");
    assert!(matches!(
        first,
        AnalysisDelta::Reset { ref snapshot }
            if snapshot.current.as_ref().map(|generation| generation.id)
                == Some(AnalysisGenerationId(1))
    ));
    apply_analysis_mutation(&mut state, &first).expect("apply first generation");
    let second =
        begin_analysis_generation(&state, vec![text("second")]).expect("second generation");
    apply_analysis_mutation(&mut state, &second).expect("apply second generation");
    assert_eq!(
        state.current.as_ref().map(|generation| generation.id),
        Some(AnalysisGenerationId(2))
    );

    let stale = AnalysisDelta::RowsUpserted {
        generation: AnalysisGenerationId(1),
        rows: vec![row(1, "stale.mkv")],
    };
    assert_eq!(
        apply_analysis_mutation(&mut state, &stale),
        Err(AnalysisMutationError::StaleGeneration)
    );
    assert!(state
        .current
        .as_ref()
        .expect("current generation")
        .rows
        .is_empty());

    assert_eq!(
        apply_analysis_mutation(
            &mut state,
            &AnalysisDelta::Reset {
                snapshot: Box::new(snapshot(2)),
            },
        ),
        Err(AnalysisMutationError::ResetIsNotNext)
    );
    assert_eq!(
        apply_analysis_mutation(
            &mut state,
            &AnalysisDelta::Reset {
                snapshot: Box::default(),
            },
        ),
        Err(AnalysisMutationError::ResetIsNotNext)
    );
    let mut empty_roots = snapshot(3);
    empty_roots
        .current
        .as_mut()
        .expect("generation")
        .roots
        .clear();
    assert_eq!(
        apply_analysis_mutation(
            &mut state,
            &AnalysisDelta::Reset {
                snapshot: Box::new(empty_roots),
            },
        ),
        Err(AnalysisMutationError::EmptyRoots)
    );
    assert_eq!(
        begin_analysis_generation(&snapshot(u64::MAX), vec![text("exhausted")]),
        Err(AnalysisMutationError::GenerationExhausted)
    );
}

#[test]
fn live_deltas_apply_only_to_the_current_generation() {
    let mut state = snapshot(2);
    fold_analysis(
        &mut state,
        &AnalysisDelta::RowsUpserted {
            generation: AnalysisGenerationId(1),
            rows: vec![row(1, "stale.mkv")],
        },
    );
    fold_analysis(
        &mut state,
        &AnalysisDelta::RowsUpserted {
            generation: AnalysisGenerationId(2),
            rows: vec![row(2, "current.mkv")],
        },
    );
    fold_analysis(
        &mut state,
        &AnalysisDelta::ActivityChanged {
            generation: AnalysisGenerationId(1),
            activity: AnalysisActivity::Failed {
                detail: "stale".to_owned(),
            },
        },
    );

    let current = state.current.expect("current generation");
    assert_eq!(current.activity, AnalysisActivity::Discovering);
    assert_eq!(current.rows, vec![row(2, "current.mkv")]);
}

#[test]
fn activity_transitions_enforce_the_generation_lifecycle() {
    let allowed = [
        (AnalysisActivity::Discovering, AnalysisActivity::Discovered),
        (AnalysisActivity::Discovering, AnalysisActivity::Cancelled),
        (
            AnalysisActivity::Discovering,
            AnalysisActivity::Failed {
                detail: "discovery failed".to_owned(),
            },
        ),
        (AnalysisActivity::Discovered, AnalysisActivity::BasicScanning),
        (AnalysisActivity::Discovered, AnalysisActivity::Cancelled),
        (AnalysisActivity::BasicScanning, AnalysisActivity::Ready),
        (AnalysisActivity::BasicScanning, AnalysisActivity::Cancelled),
        (
            AnalysisActivity::BasicScanning,
            AnalysisActivity::Failed {
                detail: "scan failed".to_owned(),
            },
        ),
        (AnalysisActivity::Ready, AnalysisActivity::BasicScanning),
        (AnalysisActivity::Ready, AnalysisActivity::Cancelled),
    ];
    for (from, to) in allowed {
        let mut state = snapshot(1);
        set_activity(&mut state, from);
        assert_eq!(
            apply_analysis_mutation(
                &mut state,
                &AnalysisDelta::ActivityChanged {
                    generation: AnalysisGenerationId(1),
                    activity: to,
                },
            ),
            Ok(())
        );
    }

    for from in [
        AnalysisActivity::Cancelled,
        AnalysisActivity::Failed {
            detail: "terminal".to_owned(),
        },
    ] {
        let mut state = snapshot(1);
        set_activity(&mut state, from);
        assert_eq!(
            apply_analysis_mutation(
                &mut state,
                &AnalysisDelta::ActivityChanged {
                    generation: AnalysisGenerationId(1),
                    activity: AnalysisActivity::Discovering,
                },
            ),
            Err(AnalysisMutationError::InvalidActivityTransition)
        );
    }
}

#[test]
fn rows_are_allocated_while_producing_and_refreshed_while_live() {
    let mut state = snapshot(1);
    fold_analysis(
        &mut state,
        &AnalysisDelta::RowsUpserted {
            generation: AnalysisGenerationId(1),
            rows: vec![row(1, "known.mkv")],
        },
    );
    let known = AnalysisDelta::RowsUpserted {
        generation: AnalysisGenerationId(1),
        rows: vec![row(1, "known-refreshed.mkv")],
    };
    let unknown = AnalysisDelta::RowsUpserted {
        generation: AnalysisGenerationId(1),
        rows: vec![row(2, "too-late.mkv")],
    };
    for activity in [AnalysisActivity::Discovered, AnalysisActivity::Ready] {
        set_activity(&mut state, activity);
        assert_eq!(apply_analysis_mutation(&mut state, &known), Ok(()));
        assert_eq!(
            apply_analysis_mutation(&mut state, &unknown),
            Err(AnalysisMutationError::UnknownRow)
        );
    }
    for activity in [
        AnalysisActivity::Cancelled,
        AnalysisActivity::Failed {
            detail: "terminal".to_owned(),
        },
    ] {
        set_activity(&mut state, activity);
        assert_eq!(
            apply_analysis_mutation(&mut state, &known),
            Err(AnalysisMutationError::InvalidActivityTransition)
        );
    }
}

#[test]
fn observation_window_reports_the_stage_that_changed() {
    let before = identity(10, 100, Some(1_000));
    let after_probe = identity(11, 100, Some(1_000));
    let after_sampling = identity(10, 101, Some(1_000));
    assert_eq!(
        observation_stability(&before, &before, &before),
        ObservationStability::Stable
    );
    assert_eq!(
        observation_stability(&before, &after_probe, &after_probe),
        ObservationStability::ChangedAfterProbe
    );
    assert_eq!(
        observation_stability(&before, &before, &after_sampling),
        ObservationStability::ChangedDuringSampling
    );
}

#[test]
fn settled_output_identity_precedes_the_cached_source_binding() {
    let source = identity(10, 100, Some(1_000));
    let output = identity(20, 60, Some(2_000));
    assert_eq!(
        decide_freshness(
            &CurrentFileIdentity::Present(output.clone()),
            Some(&source),
            Some(&output),
            TimestampReliability::Reliable,
        ),
        FreshnessDecision::RecognizeSettledOutput
    );
}

#[test]
fn settled_identity_with_unknown_mtime_requires_reobservation() {
    let source = identity(10, 100, None);
    let output = identity(20, 60, None);
    assert_eq!(
        decide_freshness(
            &CurrentFileIdentity::Present(output.clone()),
            Some(&source),
            Some(&output),
            TimestampReliability::Unknown,
        ),
        FreshnessDecision::Reobserve(FreshnessReason::UnknownTimestamp)
    );
}

#[test]
fn same_stamp_with_a_different_file_id_requires_observation() {
    let cached = identity(10, 100, Some(1_000));
    let replacement = identity(20, 100, Some(1_000));
    assert_eq!(
        decide_freshness(
            &CurrentFileIdentity::Present(replacement),
            Some(&cached),
            None,
            TimestampReliability::Reliable,
        ),
        FreshnessDecision::Reobserve(FreshnessReason::FileIdentityChanged)
    );
}

#[test]
fn size_and_modified_time_changes_have_distinct_reasons() {
    let cached = identity(10, 100, Some(1_000));
    assert_eq!(
        decide_freshness(
            &CurrentFileIdentity::Present(identity(10, 101, Some(1_000))),
            Some(&cached),
            None,
            TimestampReliability::Reliable,
        ),
        FreshnessDecision::Reobserve(FreshnessReason::SizeChanged)
    );
    assert_eq!(
        decide_freshness(
            &CurrentFileIdentity::Present(identity(10, 100, Some(2_000))),
            Some(&cached),
            None,
            TimestampReliability::Reliable,
        ),
        FreshnessDecision::Reobserve(FreshnessReason::ModifiedTimeChanged)
    );
}

#[test]
fn size_and_mtime_alone_never_recognize_a_settled_output() {
    let settled = identity(10, 100, Some(1_000));
    let replacement = identity(20, 100, Some(1_000));
    assert_eq!(
        decide_freshness(
            &CurrentFileIdentity::Present(replacement.clone()),
            Some(&replacement),
            Some(&settled),
            TimestampReliability::Reliable,
        ),
        FreshnessDecision::ReuseObservation
    );
}

#[test]
fn unknown_and_coarse_timestamps_never_reuse_by_size() {
    let unknown = identity(10, 100, None);
    assert_eq!(
        decide_freshness(
            &CurrentFileIdentity::Present(unknown.clone()),
            Some(&unknown),
            None,
            TimestampReliability::Unknown,
        ),
        FreshnessDecision::Reobserve(FreshnessReason::UnknownTimestamp)
    );
    let known = identity(10, 100, Some(1_000));
    assert_eq!(
        decide_freshness(
            &CurrentFileIdentity::Present(known.clone()),
            Some(&known),
            None,
            TimestampReliability::CoarseOrRecent,
        ),
        FreshnessDecision::Reobserve(FreshnessReason::CoarseOrRecentTimestamp)
    );
}

#[test]
fn exact_reliable_destructive_identity_reuses_the_observation() {
    let known = identity(10, 100, Some(1_000));
    assert_eq!(
        decide_freshness(
            &CurrentFileIdentity::Present(known.clone()),
            Some(&known),
            None,
            TimestampReliability::Reliable,
        ),
        FreshnessDecision::ReuseObservation
    );
}

#[test]
fn unrelated_settled_output_with_unknown_mtime_does_not_poison_cache_reuse() {
    let known = identity(10, 100, Some(1_000));
    let unrelated = identity(20, 60, None);
    assert_eq!(
        decide_freshness(
            &CurrentFileIdentity::Present(known.clone()),
            Some(&known),
            Some(&unrelated),
            TimestampReliability::Reliable,
        ),
        FreshnessDecision::ReuseObservation
    );
}

#[test]
fn missing_unavailable_and_uncached_files_have_distinct_outcomes() {
    assert_eq!(
        decide_freshness(
            &CurrentFileIdentity::Missing,
            None,
            None,
            TimestampReliability::Unknown,
        ),
        FreshnessDecision::Missing
    );
    assert_eq!(
        decide_freshness(
            &CurrentFileIdentity::Unavailable,
            None,
            None,
            TimestampReliability::Unknown,
        ),
        FreshnessDecision::Unavailable
    );
    assert_eq!(
        decide_freshness(
            &CurrentFileIdentity::Present(identity(10, 100, Some(1_000))),
            None,
            None,
            TimestampReliability::Reliable,
        ),
        FreshnessDecision::Reobserve(FreshnessReason::NoBinding)
    );
}

#[test]
fn moved_and_duplicated_paths_reobserve_before_probable_content_join() {
    let current = CurrentFileIdentity::Present(identity(10, 100, Some(1_000)));
    for scenario in ["moved", "duplicated"] {
        assert_eq!(
            decide_freshness(&current, None, None, TimestampReliability::Reliable),
            FreshnessDecision::Reobserve(FreshnessReason::NoBinding),
            "{scenario}"
        );
    }
}

#[test]
fn a_refreshed_row_keeps_its_place_and_new_rows_append() {
    let mut state = snapshot(4);
    fold_analysis(
        &mut state,
        &AnalysisDelta::RowsUpserted {
            generation: AnalysisGenerationId(4),
            rows: vec![row(1, "a.mkv"), row(2, "b.mkv")],
        },
    );
    fold_analysis(
        &mut state,
        &AnalysisDelta::RowsUpserted {
            generation: AnalysisGenerationId(4),
            rows: vec![row(1, "a-refreshed.mkv"), row(3, "c.mkv")],
        },
    );
    assert_eq!(
        state.current.expect("generation").rows,
        vec![row(1, "a-refreshed.mkv"), row(2, "b.mkv"), row(3, "c.mkv")]
    );
}

#[test]
fn a_rejected_mutation_leaves_the_snapshot_unchanged() {
    let mut state = snapshot(1);
    set_activity(&mut state, AnalysisActivity::Cancelled);
    let before = state.clone();
    assert_eq!(
        apply_analysis_mutation(
            &mut state,
            &AnalysisDelta::RowsUpserted {
                generation: AnalysisGenerationId(1),
                rows: vec![row(1, "late.mkv")],
            },
        ),
        Err(AnalysisMutationError::InvalidActivityTransition)
    );
    assert_eq!(state, before);
}
