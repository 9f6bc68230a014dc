use plum_vendor::error::{ArtifactKind, PipelineError};
use plum_vendor::pipeline::{
    artifact_file_name, new_run, next_action, step, Action, Event, Pipeline, Stage,
};

#[test]
fn artifacts_live_under_the_upstream_file_names() {
    assert_eq!(
        artifact_file_name(ArtifactKind::SourceUnit),
        b"libplum.c".to_vec()
    );
    assert_eq!(
        artifact_file_name(ArtifactKind::HeaderUnit),
        b"libplum.h".to_vec()
    );
}

fn run_to_done(tree_present: bool) -> Pipeline {
    let mut p = new_run();
    assert_eq!(next_action(&p), Action::ReadDescriptor);
    p = step(
        p,
        Event::DescriptorRead {
            version: Some(b"0.1.0+v1.2".to_vec()),
        },
    );
    assert_eq!(p.stage, Stage::ProbeTree);
    assert_eq!(p.tag, Some(b"v1.2".to_vec()));
    assert_eq!(next_action(&p), Action::ProbeTreeDir);
    p = step(
        p,
        Event::TreeProbed {
            present: tree_present,
        },
    );
    if !tree_present {
        assert_eq!(p.stage, Stage::FetchSources);
        assert_eq!(next_action(&p), Action::RunFetch);
        p = step(p, Event::FetchFinished { success: true });
    }
    assert_eq!(p.stage, Stage::CheckoutTag);
    assert_eq!(next_action(&p), Action::RunCheckout);
    p = step(p, Event::CheckoutFinished { success: true });
    assert_eq!(p.stage, Stage::GenerateBasefiles);
    assert_eq!(next_action(&p), Action::RunGenerator);
    p = step(
        p,
        Event::GeneratorFinished {
            success: true,
            diagnostic: Vec::new(),
        },
    );
    assert_eq!(p.stage, Stage::ProbeArtifacts);
    assert_eq!(next_action(&p), Action::ProbeBuildOutputs);
    p = step(
        p,
        Event::ArtifactsProbed {
            source_present: true,
            header_present: true,
        },
    );
    assert_eq!(p.stage, Stage::MoveSourceUnit);
    assert_eq!(
        next_action(&p),
        Action::MoveArtifact {
            kind: ArtifactKind::SourceUnit
        }
    );
    p = step(p, Event::ArtifactMoved { success: true });
    assert_eq!(p.stage, Stage::MoveHeaderUnit);
    assert_eq!(
        next_action(&p),
        Action::MoveArtifact {
            kind: ArtifactKind::HeaderUnit
        }
    );
    p = step(p, Event::ArtifactMoved { success: true });
    assert_eq!(p.stage, Stage::Done);
    assert_eq!(next_action(&p), Action::Stop);
    p
}

#[test]
fn complete_run_relocates_both_artifacts() {
    let p = run_to_done(false);
    let source = p.world.dest.source_unit.as_ref().expect("source relocated");
    let header = p.world.dest.header_unit.as_ref().expect("header relocated");
    assert_eq!(source.tag, b"v1.2".to_vec());
    assert_eq!(source.kind, ArtifactKind::SourceUnit);
    assert_eq!(header.tag, b"v1.2".to_vec());
    assert_eq!(header.kind, ArtifactKind::HeaderUnit);
    assert!(p.world.build_output.source_unit.is_none());
    assert!(p.world.build_output.header_unit.is_none());
    assert_eq!(p.world.tree.at, Some(b"v1.2".to_vec()));
    assert!(p.failure.is_none());
}

#[test]
fn two_runs_to_the_same_tag_relocate_identical_artifacts() {
    let first = run_to_done(false);
    let second = run_to_done(true);
    assert_eq!(
        first.world.dest.source_unit.unwrap(),
        second.world.dest.source_unit.unwrap()
    );
    assert_eq!(
        first.world.dest.header_unit.unwrap(),
        second.world.dest.header_unit.unwrap()
    );
}

#[test]
fn second_sync_against_synchronized_tree_skips_the_fetch() {
    let first = run_to_done(false);
    let tag_before = first.world.tree.at.clone();
    let mut again = Pipeline {
        stage: Stage::ProbeTree,
        tag: first.tag,
        world: first.world,
        failure: None,
        diagnostic: None,
    };
    again = step(again, Event::TreeProbed { present: true });
    assert_eq!(again.stage, Stage::CheckoutTag);
    assert_ne!(again.stage, Stage::FetchSources);
    assert_eq!(again.world.tree.at, tag_before);
    again = step(again, Event::CheckoutFinished { success: true });
    assert_eq!(again.stage, Stage::GenerateBasefiles);
    assert_eq!(again.world.tree.at, tag_before);
}

#[test]
fn unparseable_descriptor_is_a_configuration_error() {
    let p = step(new_run(), Event::DescriptorRead { version: None });
    assert_eq!(p.stage, Stage::Failed);
    assert_eq!(p.failure, Some(PipelineError::Configuration));
}

#[test]
fn version_without_tag_is_a_configuration_error() {
    let p = step(
        new_run(),
        Event::DescriptorRead {
            version: Some(b"0.1.0".to_vec()),
        },
    );
    assert_eq!(p.stage, Stage::Failed);
    assert_eq!(p.failure, Some(PipelineError::Configuration));
}

#[test]
fn failed_fetch_aborts_the_run() {
    let mut p = new_run();
    p = step(
        p,
        Event::DescriptorRead {
            version: Some(b"0.1.0+v1.2".to_vec()),
        },
    );
    p = step(p, Event::TreeProbed { present: false });
    p = step(p, Event::FetchFinished { success: false });
    assert_eq!(p.stage, Stage::Failed);
    assert_eq!(p.failure, Some(PipelineError::SyncFetch));
}

#[test]
fn failed_checkout_aborts_the_run() {
    let mut p = new_run();
    p = step(
        p,
        Event::DescriptorRead {
            version: Some(b"0.1.0+no-such-tag".to_vec()),
        },
    );
    p = step(p, Event::TreeProbed { present: true });
    p = step(p, Event::CheckoutFinished { success: false });
    assert_eq!(p.stage, Stage::Failed);
    assert_eq!(p.failure, Some(PipelineError::SyncCheckout));
}

#[test]
fn failed_generator_keeps_its_diagnostic() {
    let mut p = new_run();
    p = step(
        p,
        Event::DescriptorRead {
            version: Some(b"0.1.0+v1.2".to_vec()),
        },
    );
    p = step(p, Event::TreeProbed { present: true });
    p = step(p, Event::CheckoutFinished { success: true });
    p = step(
        p,
        Event::GeneratorFinished {
            success: false,
            diagnostic: b"no rule to make target".to_vec(),
        },
    );
    assert_eq!(p.stage, Stage::Failed);
    assert_eq!(p.failure, Some(PipelineError::BuildTool));
    assert_eq!(p.diagnostic, Some(b"no rule to make target".to_vec()));
}

fn run_to_probe_artifacts() -> Pipeline {
    let mut p = new_run();
    p = step(
        p,
        Event::DescriptorRead {
            version: Some(b"0.1.0+v1.2".to_vec()),
        },
    );
    p = step(p, Event::TreeProbed { present: true });
    p = step(p, Event::CheckoutFinished { success: true });
    p = step(
        p,
        Event::GeneratorFinished {
            success: true,
            diagnostic: Vec::new(),
        },
    );
    assert_eq!(p.stage, Stage::ProbeArtifacts);
    p
}

#[test]
fn missing_source_artifact_fails_before_any_overwrite() {
    let p = run_to_probe_artifacts();
    let p = step(
        p,
        Event::ArtifactsProbed {
            source_present: false,
            header_present: true,
        },
    );
    assert_eq!(p.stage, Stage::Failed);
    assert_eq!(
        p.failure,
        Some(PipelineError::Relocation {
            kind: ArtifactKind::SourceUnit
        })
    );
    assert!(p.world.dest.source_unit.is_none());
    assert!(p.world.dest.header_unit.is_none());
}

#[test]
fn missing_header_artifact_fails_before_any_overwrite() {
    let p = run_to_probe_artifacts();
    let p = step(
        p,
        Event::ArtifactsProbed {
            source_present: true,
            header_present: false,
        },
    );
    assert_eq!(p.stage, Stage::Failed);
    assert_eq!(
        p.failure,
        Some(PipelineError::Relocation {
            kind: ArtifactKind::HeaderUnit
        })
    );
    assert!(p.world.dest.source_unit.is_none());
    assert!(p.world.dest.header_unit.is_none());
}

#[test]
fn failed_second_move_surfaces_the_degraded_state() {
    let p = run_to_probe_artifacts();
    let p = step(
        p,
        Event::ArtifactsProbed {
            source_present: true,
            header_present: true,
        },
    );
    let p = step(p, Event::ArtifactMoved { success: true });
    assert_eq!(p.stage, Stage::MoveHeaderUnit);
    let p = step(p, Event::ArtifactMoved { success: false });
    assert_eq!(p.stage, Stage::Failed);
    assert_eq!(
        p.failure,
        Some(PipelineError::Relocation {
            kind: ArtifactKind::HeaderUnit
        })
    );
    // The first artifact had already been moved; that state is surfaced,
    // not silently repaired.
    assert!(p.world.dest.source_unit.is_some());
    assert!(p.world.dest.header_unit.is_none());
    assert!(p.world.build_output.source_unit.is_none());
}
