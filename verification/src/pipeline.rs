//! The maintenance pipeline, as a verified stage machine.
//!
//! A run resolves the pinned release tag, synchronizes the upstream working
//! copy to exactly that tag (fetch only if the copy is absent, forced
//! checkout always), invokes the upstream generator for the two basefiles,
//! and relocates them — moves, not copies — into the wrapper's source tree.
//! Every stage's postcondition is the next stage's precondition, and any
//! failure aborts the run with no retry and no rollback.
//!
//! The machine only decides. An unverified driver performs the network,
//! process and filesystem work one [`Action`] at a time and reports each
//! outcome back as an [`Event`]; [`step`] then advances the run and updates
//! a model of the on-disk state, the [`World`]. The model identifies a
//! generated artifact's content by its provenance — the tag of the tree it
//! was generated from, and which basefile it is — because the upstream
//! generator is deterministic: equal tree states yield byte-identical
//! artifacts.

use vstd::prelude::*;

use crate::error::ArtifactKind;
use crate::error::PipelineError;
use crate::version::build_segment;
use crate::version::release_tag_of;

verus! {

/// The stages of a run, in the order a fully successful run walks them.
/// `FetchSources` is skipped when the working copy already exists.
#[derive(Clone, Copy, Debug, PartialEq, Eq, Structural)]
pub enum Stage {
    /// Read the wrapper's own version descriptor.
    ResolveVersion,
    /// Check whether the upstream working copy exists.
    ProbeTree,
    /// Fetch the full upstream repository into the working copy.
    FetchSources,
    /// Forcibly check out the pinned tag, discarding local modifications.
    CheckoutTag,
    /// Run the upstream build entry point for the basefiles.
    GenerateBasefiles,
    /// Check that both generated artifacts exist in the build output.
    ProbeArtifacts,
    /// Move the generated source unit into the wrapper's source tree.
    MoveSourceUnit,
    /// Move the generated header unit into the wrapper's source tree.
    MoveHeaderUnit,
    /// The run completed.
    Done,
    /// The run aborted; `Pipeline::failure` names the cause.
    Failed,
}

/// What the driver must do next to advance the run.
#[derive(Clone, Copy, Debug, PartialEq, Eq, Structural)]
pub enum Action {
    /// Query the wrapper's own package metadata, without resolving
    /// dependencies, and render the root package's version.
    ReadDescriptor,
    /// Check whether the upstream working copy directory exists.
    ProbeTreeDir,
    /// Fetch the full upstream repository history into the working copy.
    RunFetch,
    /// Forcibly check out the resolved tag in the working copy.
    RunCheckout,
    /// Invoke the upstream build tooling's basefiles target.
    RunGenerator,
    /// Check that both expected artifacts exist in the build output.
    ProbeBuildOutputs,
    /// Rename one generated artifact into the wrapper's source tree,
    /// overwriting any prior copy.
    MoveArtifact { kind: ArtifactKind },
    /// The run is over; there is nothing left to do.
    Stop,
}

/// One outcome, reported back by the driver.
pub enum Event {
    /// The rendered version of the root package, or `None` when the
    /// metadata could not be read as the pipeline's own root package.
    DescriptorRead { version: Option<Vec<u8>> },
    /// Whether the working copy directory exists.
    TreeProbed { present: bool },
    /// Whether the fetch succeeded.
    FetchFinished { success: bool },
    /// Whether the forced checkout succeeded.
    CheckoutFinished { success: bool },
    /// Whether the upstream build tooling exited successfully; on failure
    /// `diagnostic` carries the tool's own output for the operator.
    GeneratorFinished { success: bool, diagnostic: Vec<u8> },
    /// Which of the two expected artifacts exist in the build output.
    ArtifactsProbed { source_present: bool, header_present: bool },
    /// Whether the pending rename succeeded.
    ArtifactMoved { success: bool },
}

/// The mathematical value of an [`Event`].
pub enum EventModel {
    DescriptorRead { version: Option<Seq<u8>> },
    TreeProbed { present: bool },
    FetchFinished { success: bool },
    CheckoutFinished { success: bool },
    GeneratorFinished { success: bool, diagnostic: Seq<u8> },
    ArtifactsProbed { source_present: bool, header_present: bool },
    ArtifactMoved { success: bool },
}

impl View for Event {
    type V = EventModel;

    open spec fn view(&self) -> EventModel {
        match self {
            Event::DescriptorRead { version } => EventModel::DescriptorRead {
                version: match version {
                    Some(v) => Some(v@),
                    None => None,
                },
            },
            Event::TreeProbed { present } => EventModel::TreeProbed { present: *present },
            Event::FetchFinished { success } => EventModel::FetchFinished { success: *success },
            Event::CheckoutFinished { success } => EventModel::CheckoutFinished {
                success: *success,
            },
            Event::GeneratorFinished { success, diagnostic } => EventModel::GeneratorFinished {
                success: *success,
                diagnostic: diagnostic@,
            },
            Event::ArtifactsProbed { source_present, header_present } => {
                EventModel::ArtifactsProbed {
                    source_present: *source_present,
                    header_present: *header_present,
                }
            },
            Event::ArtifactMoved { success } => EventModel::ArtifactMoved { success: *success },
        }
    }
}

/// A generated artifact, identified by its provenance: the release tag of
/// the tree it was generated from, and which of the two basefiles it is.
/// Equal provenance means byte-identical content, because the upstream
/// generator is deterministic.
#[derive(Clone, Debug, PartialEq, Eq)]
pub struct ArtifactId {
    pub tag: Vec<u8>,
    pub kind: ArtifactKind,
}

/// The mathematical value of an [`ArtifactId`].
#[verifier::ext_equal]
pub struct ArtifactIdModel {
    pub tag: Seq<u8>,
    pub kind: ArtifactKind,
}

impl View for ArtifactId {
    type V = ArtifactIdModel;

    open spec fn view(&self) -> ArtifactIdModel {
        ArtifactIdModel { tag: self.tag@, kind: self.kind }
    }
}

/// One location that can hold the two generated artifacts: the upstream
/// build output, or the wrapper's permanent source directory. `None` means
/// the run has not established an artifact there.
#[derive(Debug)]
pub struct ArtifactStore {
    pub source_unit: Option<ArtifactId>,
    pub header_unit: Option<ArtifactId>,
}

/// The mathematical value of an [`ArtifactStore`].
#[verifier::ext_equal]
pub struct ArtifactStoreModel {
    pub source_unit: Option<ArtifactIdModel>,
    pub header_unit: Option<ArtifactIdModel>,
}

impl View for ArtifactStore {
    type V = ArtifactStoreModel;

    open spec fn view(&self) -> ArtifactStoreModel {
        ArtifactStoreModel {
            source_unit: match &self.source_unit {
                Some(a) => Some(a@),
                None => None,
            },
            header_unit: match &self.header_unit {
                Some(a) => Some(a@),
                None => None,
            },
        }
    }
}

/// What the run has established about the upstream working copy. `at` is
/// the tag the tree is known to match exactly, `None` when the tree is
/// absent or in an unknown state.
#[derive(Debug)]
pub struct SourceTree {
    pub present: bool,
    pub at: Option<Vec<u8>>,
}

/// The mathematical value of a [`SourceTree`].
#[verifier::ext_equal]
pub struct SourceTreeModel {
    pub present: bool,
    pub at: Option<Seq<u8>>,
}

impl View for SourceTree {
    type V = SourceTreeModel;

    open spec fn view(&self) -> SourceTreeModel {
        SourceTreeModel {
            present: self.present,
            at: match &self.at {
                Some(t) => Some(t@),
                None => None,
            },
        }
    }
}

/// What the run has established about the on-disk state it owns: the
/// upstream working copy, the generator's build output, and the wrapper's
/// permanent source directory.
#[derive(Debug)]
pub struct World {
    pub tree: SourceTree,
    pub build_output: ArtifactStore,
    pub dest: ArtifactStore,
}

/// The mathematical value of a [`World`].
#[verifier::ext_equal]
pub struct WorldModel {
    pub tree: SourceTreeModel,
    pub build_output: ArtifactStoreModel,
    pub dest: ArtifactStoreModel,
}

impl View for World {
    type V = WorldModel;

    open spec fn view(&self) -> WorldModel {
        WorldModel {
            tree: self.tree@,
            build_output: self.build_output@,
            dest: self.dest@,
        }
    }
}

/// One maintenance run: the current stage, the resolved tag once known,
/// the model of the on-disk state, and on abort the cause together with
/// any diagnostic output of the upstream build tooling.
#[derive(Debug)]
pub struct Pipeline {
    pub stage: Stage,
    pub tag: Option<Vec<u8>>,
    pub world: World,
    pub failure: Option<PipelineError>,
    pub diagnostic: Option<Vec<u8>>,
}

/// The mathematical value of a [`Pipeline`].
#[verifier::ext_equal]
pub struct PipelineModel {
    pub stage: Stage,
    pub tag: Option<Seq<u8>>,
    pub world: WorldModel,
    pub failure: Option<PipelineError>,
    pub diagnostic: Option<Seq<u8>>,
}

impl View for Pipeline {
    type V = PipelineModel;

    open spec fn view(&self) -> PipelineModel {
        PipelineModel {
            stage: self.stage,
            tag: match &self.tag {
                Some(t) => Some(t@),
                None => None,
            },
            world: self.world@,
            failure: self.failure,
            diagnostic: match &self.diagnostic {
                Some(d) => Some(d@),
                None => None,
            },
        }
    }
}

/// The upstream-determined file name of the generated source unit,
/// `libplum.c`.
pub open spec fn spec_source_unit_file_name() -> Seq<u8> {
    seq![
        'l' as u8,
        'i' as u8,
        'b' as u8,
        'p' as u8,
        'l' as u8,
        'u' as u8,
        'm' as u8,
        '.' as u8,
        'c' as u8,
    ]
}

/// The upstream-determined file name of the generated header unit,
/// `libplum.h`.
pub open spec fn spec_header_unit_file_name() -> Seq<u8> {
    seq![
        'l' as u8,
        'i' as u8,
        'b' as u8,
        'p' as u8,
        'l' as u8,
        'u' as u8,
        'm' as u8,
        '.' as u8,
        'h' as u8,
    ]
}

/// The file name a generated artifact lives under, both in the upstream
/// build output and in the wrapper's permanent source directory: the
/// names are upstream-determined and the relocation keeps them.
pub fn artifact_file_name(kind: ArtifactKind) -> (name: Vec<u8>)
    ensures
        kind == ArtifactKind::SourceUnit ==> name@ == spec_source_unit_file_name(),
        kind == ArtifactKind::HeaderUnit ==> name@ == spec_header_unit_file_name(),
{
    let mut name: Vec<u8> = Vec::new();
    name.push('l' as u8);
    name.push('i' as u8);
    name.push('b' as u8);
    name.push('p' as u8);
    name.push('l' as u8);
    name.push('u' as u8);
    name.push('m' as u8);
    name.push('.' as u8);
    match kind {
        ArtifactKind::SourceUnit => {
            name.push('c' as u8);
            proof {
                assert(name@ =~= spec_source_unit_file_name());
            }
        },
        ArtifactKind::HeaderUnit => {
            name.push('h' as u8);
            proof {
                assert(name@ =~= spec_header_unit_file_name());
            }
        },
    }
    name
}

/// The state a run starts from: nothing resolved, nothing established.
pub open spec fn init_model() -> PipelineModel {
    PipelineModel {
        stage: Stage::ResolveVersion,
        tag: None,
        world: WorldModel {
            tree: SourceTreeModel { present: false, at: None },
            build_output: ArtifactStoreModel { source_unit: None, header_unit: None },
            dest: ArtifactStoreModel { source_unit: None, header_unit: None },
        },
        failure: None,
        diagnostic: None,
    }
}

/// The action each stage waits on.
pub open spec fn spec_action(stage: Stage) -> Action {
    match stage {
        Stage::ResolveVersion => Action::ReadDescriptor,
        Stage::ProbeTree => Action::ProbeTreeDir,
        Stage::FetchSources => Action::RunFetch,
        Stage::CheckoutTag => Action::RunCheckout,
        Stage::GenerateBasefiles => Action::RunGenerator,
        Stage::ProbeArtifacts => Action::ProbeBuildOutputs,
        Stage::MoveSourceUnit => Action::MoveArtifact { kind: ArtifactKind::SourceUnit },
        Stage::MoveHeaderUnit => Action::MoveArtifact { kind: ArtifactKind::HeaderUnit },
        Stage::Done => Action::Stop,
        Stage::Failed => Action::Stop,
    }
}

/// Whether an event answers the action the stage waits on.
pub open spec fn event_fits(stage: Stage, e: EventModel) -> bool {
    match stage {
        Stage::ResolveVersion => e is DescriptorRead,
        Stage::ProbeTree => e is TreeProbed,
        Stage::FetchSources => e is FetchFinished,
        Stage::CheckoutTag => e is CheckoutFinished,
        Stage::GenerateBasefiles => e is GeneratorFinished,
        Stage::ProbeArtifacts => e is ArtifactsProbed,
        Stage::MoveSourceUnit => e is ArtifactMoved,
        Stage::MoveHeaderUnit => e is ArtifactMoved,
        Stage::Done => false,
        Stage::Failed => false,
    }
}

/// The run after aborting with `err`: only the stage and the cause change.
pub open spec fn spec_fail(p: PipelineModel, err: PipelineError) -> PipelineModel {
    PipelineModel { stage: Stage::Failed, failure: Some(err), ..p }
}

/// How one event advances a run: the transition relation of the machine,
/// one case per stage.
pub open spec fn spec_step(p: PipelineModel, e: EventModel) -> PipelineModel {
    match e {
        EventModel::DescriptorRead { version } => match version {
            None => spec_fail(p, PipelineError::Configuration),
            Some(v) => {
                let tag = build_segment(v);
                if tag.len() == 0 {
                    spec_fail(p, PipelineError::Configuration)
                } else {
                    PipelineModel { stage: Stage::ProbeTree, tag: Some(tag), ..p }
                }
            },
        },
        EventModel::TreeProbed { present } => PipelineModel {
            stage: if present {
                Stage::CheckoutTag
            } else {
                Stage::FetchSources
            },
            world: WorldModel {
                tree: SourceTreeModel {
                    present,
                    at: if present {
                        p.world.tree.at
                    } else {
                        None
                    },
                },
                ..p.world
            },
            ..p
        },
        EventModel::FetchFinished { success } => {
            if success {
                PipelineModel {
                    stage: Stage::CheckoutTag,
                    world: WorldModel {
                        tree: SourceTreeModel { present: true, at: None },
                        ..p.world
                    },
                    ..p
                }
            } else {
                spec_fail(p, PipelineError::SyncFetch)
            }
        },
        EventModel::CheckoutFinished { success } => {
            if success {
                PipelineModel {
                    stage: Stage::GenerateBasefiles,
                    world: WorldModel {
                        tree: SourceTreeModel { present: true, at: Some(p.tag->0) },
                        ..p.world
                    },
                    ..p
                }
            } else {
                spec_fail(p, PipelineError::SyncCheckout)
            }
        },
        EventModel::GeneratorFinished { success, diagnostic } => {
            if success {
                PipelineModel {
                    stage: Stage::ProbeArtifacts,
                    world: WorldModel {
                        build_output: ArtifactStoreModel { source_unit: None, header_unit: None },
                        ..p.world
                    },
                    ..p
                }
            } else {
                PipelineModel {
                    stage: Stage::Failed,
                    failure: Some(PipelineError::BuildTool),
                    diagnostic: Some(diagnostic),
                    ..p
                }
            }
        },
        EventModel::ArtifactsProbed { source_present, header_present } => {
            if source_present && header_present {
                PipelineModel {
                    stage: Stage::MoveSourceUnit,
                    world: WorldModel {
                        build_output: ArtifactStoreModel {
                            source_unit: Some(
                                ArtifactIdModel { tag: p.tag->0, kind: ArtifactKind::SourceUnit },
                            ),
                            header_unit: Some(
                                ArtifactIdModel { tag: p.tag->0, kind: ArtifactKind::HeaderUnit },
                            ),
                        },
                        ..p.world
                    },
                    ..p
                }
            } else {
                spec_fail(
                    p,
                    PipelineError::Relocation {
                        kind: if !source_present {
                            ArtifactKind::SourceUnit
                        } else {
                            ArtifactKind::HeaderUnit
                        },
                    },
                )
            }
        },
        EventModel::ArtifactMoved { success } => {
            if p.stage == Stage::MoveSourceUnit {
                if success {
                    PipelineModel {
                        stage: Stage::MoveHeaderUnit,
                        world: WorldModel {
                            build_output: ArtifactStoreModel {
                                source_unit: None,
                                ..p.world.build_output
                            },
                            dest: ArtifactStoreModel {
                                source_unit: p.world.build_output.source_unit,
                                ..p.world.dest
                            },
                            ..p.world
                        },
                        ..p
                    }
                } else {
                    spec_fail(p, PipelineError::Relocation { kind: ArtifactKind::SourceUnit })
                }
            } else {
                if success {
                    PipelineModel {
                        stage: Stage::Done,
                        world: WorldModel {
                            build_output: ArtifactStoreModel {
                                header_unit: None,
                                ..p.world.build_output
                            },
                            dest: ArtifactStoreModel {
                                header_unit: p.world.build_output.header_unit,
                                ..p.world.dest
                            },
                            ..p.world
                        },
                        ..p
                    }
                } else {
                    spec_fail(p, PipelineError::Relocation { kind: ArtifactKind::HeaderUnit })
                }
            }
        },
    }
}

/// The run's invariant: what holds of every reachable state. Past
/// resolution the tag is known and non-empty; a checkout has been verified
/// before anything is generated; the build output's artifacts carry the
/// run's own tag while the moves are pending; and a completed run holds
/// both relocated artifacts, stamped by the tag, with the build output
/// emptied — the artifacts were moved, not copied.
pub open spec fn inv(p: PipelineModel) -> bool {
    &&& (p.world.tree.at is Some ==> p.world.tree.present)
    &&& (p.stage == Stage::Failed <==> p.failure is Some)
    &&& (p.stage != Stage::ResolveVersion && p.stage != Stage::Failed ==> p.tag is Some
        && p.tag->0.len() > 0)
    &&& (p.stage == Stage::CheckoutTag ==> p.world.tree.present)
    &&& ((p.stage == Stage::GenerateBasefiles || p.stage == Stage::ProbeArtifacts || p.stage
        == Stage::MoveSourceUnit || p.stage == Stage::MoveHeaderUnit || p.stage == Stage::Done)
        ==> p.world.tree.at == p.tag)
    &&& (p.stage == Stage::MoveSourceUnit ==> p.world.build_output.source_unit == Some(
        ArtifactIdModel { tag: p.tag->0, kind: ArtifactKind::SourceUnit },
    ) && p.world.build_output.header_unit == Some(
        ArtifactIdModel { tag: p.tag->0, kind: ArtifactKind::HeaderUnit },
    ))
    &&& (p.stage == Stage::MoveHeaderUnit ==> p.world.build_output.source_unit is None
        && p.world.build_output.header_unit == Some(
        ArtifactIdModel { tag: p.tag->0, kind: ArtifactKind::HeaderUnit },
    ) && p.world.dest.source_unit == Some(
        ArtifactIdModel { tag: p.tag->0, kind: ArtifactKind::SourceUnit },
    ))
    &&& (p.stage == Stage::Done ==> p.world.build_output.source_unit is None
        && p.world.build_output.header_unit is None && p.world.dest.source_unit == Some(
        ArtifactIdModel { tag: p.tag->0, kind: ArtifactKind::SourceUnit },
    ) && p.world.dest.header_unit == Some(
        ArtifactIdModel { tag: p.tag->0, kind: ArtifactKind::HeaderUnit },
    ))
}

/// Every step taken from a reachable state lands in a reachable state.
pub proof fn lemma_step_preserves_inv(p: PipelineModel, e: EventModel)
    requires
        inv(p),
        event_fits(p.stage, e),
    ensures
        inv(spec_step(p, e)),
{
}

/// The initial state is reachable.
pub proof fn lemma_init_inv()
    ensures
        inv(init_model()),
{
}

/// Idempotence of synchronization: probing a working copy that already
/// exists moves the run straight to the checkout — the fetch stage is
/// skipped, and the probe changes nothing on disk — and when the tree is
/// already at the pinned tag, the forced checkout leaves it exactly where
/// it was.
pub proof fn lemma_sync_idempotent(p: PipelineModel)
    requires
        inv(p),
        p.stage == Stage::ProbeTree,
        p.world.tree.present,
        p.world.tree.at == p.tag,
    ensures
        spec_step(p, EventModel::TreeProbed { present: true }).stage == Stage::CheckoutTag,
        spec_step(p, EventModel::TreeProbed { present: true }).world == p.world,
        spec_step(
            spec_step(p, EventModel::TreeProbed { present: true }),
            EventModel::CheckoutFinished { success: true },
        ).world == p.world,
        spec_step(
            spec_step(p, EventModel::TreeProbed { present: true }),
            EventModel::CheckoutFinished { success: true },
        ).stage == Stage::GenerateBasefiles,
{
    assert(spec_step(p, EventModel::TreeProbed { present: true }).world =~= p.world);
    assert(spec_step(
        spec_step(p, EventModel::TreeProbed { present: true }),
        EventModel::CheckoutFinished { success: true },
    ).world =~= p.world);
}

/// Determinism: any two completed runs that resolved the same tag hold
/// byte-identical relocated artifacts — artifact content is a function of
/// the tag alone, whatever states the two runs started from.
pub proof fn lemma_relocation_deterministic(p1: PipelineModel, p2: PipelineModel)
    requires
        inv(p1),
        inv(p2),
        p1.stage == Stage::Done,
        p2.stage == Stage::Done,
        p1.tag == p2.tag,
    ensures
        p1.world.dest == p2.world.dest,
{
    assert(p1.world.dest =~= p2.world.dest);
}

/// Relocation totality: when either expected artifact is absent from the
/// build output, the run aborts with a relocation error naming a missing
/// artifact, and no destination file has been overwritten — the world,
/// and in particular the wrapper's source directory, is untouched.
pub proof fn lemma_relocation_totality(p: PipelineModel, source_present: bool, header_present: bool)
    requires
        inv(p),
        p.stage == Stage::ProbeArtifacts,
        !(source_present && header_present),
    ensures
        spec_step(p, EventModel::ArtifactsProbed { source_present, header_present }).stage
            == Stage::Failed,
        spec_step(p, EventModel::ArtifactsProbed { source_present, header_present }).failure
            == Some(
            PipelineError::Relocation {
                kind: if !source_present {
                    ArtifactKind::SourceUnit
                } else {
                    ArtifactKind::HeaderUnit
                },
            },
        ),
        spec_step(p, EventModel::ArtifactsProbed { source_present, header_present }).world
            == p.world,
{
}

/// A run in which every external step succeeds walks the stages in order —
/// including the fetch, when the working copy starts out absent — and ends
/// `Done`, holding both basefiles in the wrapper's source tree, stamped by
/// the tag resolved from the descriptor's build-metadata segment.
pub proof fn lemma_complete_run(version: Seq<u8>, diagnostic: Seq<u8>)
    requires
        build_segment(version).len() > 0,
    ensures
        ({
            let done = spec_step(
                spec_step(
                    spec_step(
                        spec_step(
                            spec_step(
                                spec_step(
                                    spec_step(
                                        init_model(),
                                        EventModel::DescriptorRead { version: Some(version) },
                                    ),
                                    EventModel::TreeProbed { present: false },
                                ),
                                EventModel::FetchFinished { success: true },
                            ),
                            EventModel::CheckoutFinished { success: true },
                        ),
                        EventModel::GeneratorFinished { success: true, diagnostic },
                    ),
                    EventModel::ArtifactsProbed { source_present: true, header_present: true },
                ),
                EventModel::ArtifactMoved { success: true },
            );
            let last = spec_step(done, EventModel::ArtifactMoved { success: true });
            &&& last.stage == Stage::Done
            &&& last.tag == Some(build_segment(version))
            &&& last.world.dest.source_unit == Some(
                ArtifactIdModel { tag: build_segment(version), kind: ArtifactKind::SourceUnit },
            )
            &&& last.world.dest.header_unit == Some(
                ArtifactIdModel { tag: build_segment(version), kind: ArtifactKind::HeaderUnit },
            )
            &&& last.world.build_output.source_unit is None
            &&& last.world.build_output.header_unit is None
        }),
{
}

/// A fresh run, waiting to resolve the pinned version.
pub fn new_run() -> (p: Pipeline)
    ensures
        p@ == init_model(),
        inv(p@),
{
    Pipeline {
        stage: Stage::ResolveVersion,
        tag: None,
        world: World {
            tree: SourceTree { present: false, at: None },
            build_output: ArtifactStore { source_unit: None, header_unit: None },
            dest: ArtifactStore { source_unit: None, header_unit: None },
        },
        failure: None,
        diagnostic: None,
    }
}

/// The action the driver must perform next.
pub fn next_action(p: &Pipeline) -> (a: Action)
    ensures
        a == spec_action(p@.stage),
{
    match p.stage {
        Stage::ResolveVersion => Action::ReadDescriptor,
        Stage::ProbeTree => Action::ProbeTreeDir,
        Stage::FetchSources => Action::RunFetch,
        Stage::CheckoutTag => Action::RunCheckout,
        Stage::GenerateBasefiles => Action::RunGenerator,
        Stage::ProbeArtifacts => Action::ProbeBuildOutputs,
        Stage::MoveSourceUnit => Action::MoveArtifact { kind: ArtifactKind::SourceUnit },
        Stage::MoveHeaderUnit => Action::MoveArtifact { kind: ArtifactKind::HeaderUnit },
        Stage::Done => Action::Stop,
        Stage::Failed => Action::Stop,
    }
}

/// The bytes of a tag, copied.
fn clone_bytes(v: &Vec<u8>) -> (r: Vec<u8>)
    ensures
        r@ == v@,
{
    let mut r: Vec<u8> = Vec::new();
    let mut i: usize = 0;
    while i < v.len()
        invariant
            0 <= i <= v@.len(),
            r@ =~= v@.subrange(0, i as int),
        decreases v@.len() - i,
    {
        r.push(v[i]);
        i += 1;
    }
    proof {
        assert(v@.subrange(0, v@.len() as int) =~= v@);
    }
    r
}

/// Advances the run by one observed outcome, exactly as [`spec_step`]
/// says.
pub fn step(p: Pipeline, e: Event) -> (r: Pipeline)
    requires
        inv(p@),
        event_fits(p@.stage, e@),
    ensures
        r@ == spec_step(p@, e@),
        inv(r@),
{
    proof {
        lemma_step_preserves_inv(p@, e@);
    }
    let Pipeline { stage, tag, world, failure, diagnostic } = p;
    match e {
        Event::DescriptorRead { version } => match version {
            None => Pipeline {
                stage: Stage::Failed,
                tag,
                world,
                failure: Some(PipelineError::Configuration),
                diagnostic,
            },
            Some(v) => {
                let resolved = release_tag_of(v.as_slice());
                if resolved.len() == 0 {
                    Pipeline {
                        stage: Stage::Failed,
                        tag,
                        world,
                        failure: Some(PipelineError::Configuration),
                        diagnostic,
                    }
                } else {
                    Pipeline {
                        stage: Stage::ProbeTree,
                        tag: Some(resolved),
                        world,
                        failure,
                        diagnostic,
                    }
                }
            },
        },
        Event::TreeProbed { present } => {
            let World { tree, build_output, dest } = world;
            Pipeline {
                stage: if present {
                    Stage::CheckoutTag
                } else {
                    Stage::FetchSources
                },
                tag,
                world: World {
                    tree: SourceTree {
                        present,
                        at: if present {
                            tree.at
                        } else {
                            None
                        },
                    },
                    build_output,
                    dest,
                },
                failure,
                diagnostic,
            }
        },
        Event::FetchFinished { success } => {
            if success {
                let World { tree: _, build_output, dest } = world;
                Pipeline {
                    stage: Stage::CheckoutTag,
                    tag,
                    world: World {
                        tree: SourceTree { present: true, at: None },
                        build_output,
                        dest,
                    },
                    failure,
                    diagnostic,
                }
            } else {
                Pipeline {
                    stage: Stage::Failed,
                    tag,
                    world,
                    failure: Some(PipelineError::SyncFetch),
                    diagnostic,
                }
            }
        },
        Event::CheckoutFinished { success } => {
            if success {
                let World { tree: _, build_output, dest } = world;
                let pinned = match &tag {
                    Some(t) => clone_bytes(t),
                    None => Vec::new(),
                };
                Pipeline {
                    stage: Stage::GenerateBasefiles,
                    tag,
                    world: World {
                        tree: SourceTree { present: true, at: Some(pinned) },
                        build_output,
                        dest,
                    },
                    failure,
                    diagnostic,
                }
            } else {
                Pipeline {
                    stage: Stage::Failed,
                    tag,
                    world,
                    failure: Some(PipelineError::SyncCheckout),
                    diagnostic,
                }
            }
        },
        Event::GeneratorFinished { success, diagnostic: output } => {
            if success {
                let World { tree, build_output: _, dest } = world;
                Pipeline {
                    stage: Stage::ProbeArtifacts,
                    tag,
                    world: World {
                        tree,
                        build_output: ArtifactStore { source_unit: None, header_unit: None },
                        dest,
                    },
                    failure,
                    diagnostic,
                }
            } else {
                Pipeline {
                    stage: Stage::Failed,
                    tag,
                    world,
                    failure: Some(PipelineError::BuildTool),
                    diagnostic: Some(output),
                }
            }
        },
        Event::ArtifactsProbed { source_present, header_present } => {
            if source_present && header_present {
                let World { tree, build_output: _, dest } = world;
                let source_tag = match &tag {
                    Some(t) => clone_bytes(t),
                    None => Vec::new(),
                };
                let header_tag = match &tag {
                    Some(t) => clone_bytes(t),
                    None => Vec::new(),
                };
                Pipeline {
                    stage: Stage::MoveSourceUnit,
                    tag,
                    world: World {
                        tree,
                        build_output: ArtifactStore {
                            source_unit: Some(
                                ArtifactId { tag: source_tag, kind: ArtifactKind::SourceUnit },
                            ),
                            header_unit: Some(
                                ArtifactId { tag: header_tag, kind: ArtifactKind::HeaderUnit },
                            ),
                        },
                        dest,
                    },
                    failure,
                    diagnostic,
                }
            } else {
                let kind = if !source_present {
                    ArtifactKind::SourceUnit
                } else {
                    ArtifactKind::HeaderUnit
                };
                Pipeline {
                    stage: Stage::Failed,
                    tag,
                    world,
                    failure: Some(PipelineError::Relocation { kind }),
                    diagnostic,
                }
            }
        },
        Event::ArtifactMoved { success } => {
            if stage == Stage::MoveSourceUnit {
                if success {
                    let World { tree, build_output, dest } = world;
                    let ArtifactStore { source_unit, header_unit } = build_output;
                    let ArtifactStore { source_unit: _, header_unit: dest_header } = dest;
                    Pipeline {
                        stage: Stage::MoveHeaderUnit,
                        tag,
                        world: World {
                            tree,
                            build_output: ArtifactStore { source_unit: None, header_unit },
                            dest: ArtifactStore {
                                source_unit,
                                header_unit: dest_header,
                            },
                        },
                        failure,
                        diagnostic,
                    }
                } else {
                    Pipeline {
                        stage: Stage::Failed,
                        tag,
                        world,
                        failure: Some(
                            PipelineError::Relocation { kind: ArtifactKind::SourceUnit },
                        ),
                        diagnostic,
                    }
                }
            } else {
                if success {
                    let World { tree, build_output, dest } = world;
                    let ArtifactStore { source_unit, header_unit } = build_output;
                    let ArtifactStore { source_unit: dest_source, header_unit: _ } = dest;
                    Pipeline {
                        stage: Stage::Done,
                        tag,
                        world: World {
                            tree,
                            build_output: ArtifactStore { source_unit, header_unit: None },
                            dest: ArtifactStore {
                                source_unit: dest_source,
                                header_unit,
                            },
                        },
                        failure,
                        diagnostic,
                    }
                } else {
                    Pipeline {
                        stage: Stage::Failed,
                        tag,
                        world,
                        failure: Some(
                            PipelineError::Relocation { kind: ArtifactKind::HeaderUnit },
                        ),
                        diagnostic,
                    }
                }
            }
        },
    }
}

} // verus!

