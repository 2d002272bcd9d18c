//! Runs: what a session asks for as outcomes come in, one after another,
//! and why every run comes to an end.

use vstd::prelude::*;
use crate::install::BuildStage;
use crate::launch::LaunchStage;
use crate::package::{ExportStage, PresetsStage};
use crate::platform::HostOs;
use crate::protocol::{Outcome, Step};
use crate::session::{fresh, Command, Phase, Session};
use crate::setup::SetupStage;

verus! {

/// What a run that started as `start` asks for once the first `i` of
/// `outcomes` were handed over.
pub open spec fn asked(start: Session, outcomes: Seq<Outcome>, i: int) -> Step {
    start.after(outcomes.take(i)).spec_step()
}

/// The most actions a phase of a run can still ask for, later phases of
/// the same command included.
pub open spec fn steps_left(command: Command, phase: Phase) -> nat {
    match phase {
        Phase::Setup(stage) => match stage {
            SetupStage::ProbeBinDir => 20,
            SetupStage::CreateBinDir => 19,
            SetupStage::FetchEditor => 18,
            SetupStage::OpenEditor => 17,
            SetupStage::UnpackEditor => 16,
            SetupStage::ProbeBinary => 15,
            SetupStage::FixPermissions => 14,
            SetupStage::Unquarantine => 13,
            SetupStage::ProbeTemplates => 12,
            SetupStage::FetchTemplates => 11,
            SetupStage::OpenTemplates => 10,
            SetupStage::ProbeScratch => 9,
            SetupStage::ClearScratch => 8,
            SetupStage::UnpackTemplates => 7,
            SetupStage::CreateTemplatesHome => 6,
            SetupStage::ProbeUnpacked => 5,
            SetupStage::MoveTemplates => 4,
            SetupStage::CreateVersionDir => 3,
            SetupStage::CopyTemplates => 2,
            SetupStage::RemoveScratch => 1,
            _ => 0,
        },
        Phase::Build(stage) => match stage {
            BuildStage::Compile => 16,
            BuildStage::ProbeLibraryRoot => 15,
            BuildStage::CreateLibraryRoot => 14,
            BuildStage::ProbeLibraryDir => 13,
            BuildStage::CreateLibraryDir => 12,
            BuildStage::ProbeArtifact => 11,
            BuildStage::CopyArtifact => 10,
            BuildStage::WriteDescriptor => 9,
            _ => 0,
        },
        Phase::Launch(stage) => match stage {
            LaunchStage::ProbeEngine => 8,
            LaunchStage::ProbeGameDir => 7,
            LaunchStage::CreateGameDir => 6,
            LaunchStage::ProbeProject => 5,
            LaunchStage::WriteProject => 4,
            LaunchStage::ResolveEngine => 3,
            LaunchStage::ResolveGameDir => 2,
            LaunchStage::Spawn => 1,
            _ => 0,
        },
        Phase::Presets(stage) => match stage {
            PresetsStage::ProbePresets => 8,
            PresetsStage::WritePresets => 7,
            _ => 0,
        },
        Phase::Export(stage) => match stage {
            ExportStage::ProbeBuilds => 6,
            ExportStage::CreateBuilds => 5,
            ExportStage::CreateExportDir => 4,
            ExportStage::ResolveEngine => 3,
            ExportStage::ResolveGameDir => 2,
            ExportStage::RunExport => 1,
            _ => 0,
        },
    }
}

/// Handing over one more outcome is one more step of the run.
pub proof fn lemma_after_one_more(start: Session, outcomes: Seq<Outcome>, i: int)
    requires
        0 <= i < outcomes.len(),
    ensures
        start.after(outcomes.take(i + 1)) == start.after(outcomes.take(i)).spec_advance(
            outcomes[i],
        ),
{
    let longer = outcomes.take(i + 1);
    assert(longer.drop_last() =~= outcomes.take(i));
    assert(longer.last() == outcomes[i]);
}

/// A run that has ended takes no notice of what it is handed: it stays as
/// it is.
pub proof fn lemma_ended_run_stays(session: Session, outcomes: Seq<Outcome>)
    requires
        session.ended(),
    ensures
        session.after(outcomes) == session,
    decreases outcomes.len(),
{
    if outcomes.len() > 0 {
        lemma_ended_run_stays(session, outcomes.drop_last());
    }
}

/// Every action a run asks for brings it nearer to its end: a run asks
/// for no more actions than `steps_left` says at its start.
pub proof fn lemma_every_step_counts_down(session: Session, outcome: Outcome)
    requires
        !session.ended(),
    ensures
        steps_left(session.command, session.spec_advance(outcome).phase) < steps_left(
            session.command,
            session.phase,
        ),
{
}

/// A run that is not over after some outcomes has used up as many of its
/// steps as it was handed outcomes.
pub proof fn lemma_run_counts_down(start: Session, outcomes: Seq<Outcome>)
    requires
        !start.after(outcomes).ended(),
    ensures
        steps_left(start.command, start.after(outcomes).phase) + outcomes.len() <= steps_left(
            start.command,
            start.phase,
        ),
        start.after(outcomes).command == start.command,
        start.after(outcomes).host == start.host,
    decreases outcomes.len(),
{
    if outcomes.len() > 0 {
        let before = start.after(outcomes.drop_last());
        lemma_run_counts_down(start, outcomes.drop_last());
        lemma_every_step_counts_down(before, outcomes.last());
    }
}

/// Every run ends: once a run was handed as many outcomes as `steps_left`
/// says at its start, it asks for nothing more.
pub proof fn lemma_every_run_ends(start: Session, outcomes: Seq<Outcome>)
    requires
        outcomes.len() >= steps_left(start.command, start.phase),
    ensures
        start.after(outcomes).ended(),
{
    if !start.after(outcomes).ended() {
        lemma_run_counts_down(start, outcomes);
        lemma_every_step_counts_down(start.after(outcomes), Outcome::Done);
    }
}

/// Handing over one sequence of outcomes and then another is handing over
/// the two in a row.
pub proof fn lemma_after_splits(start: Session, first: Seq<Outcome>, then: Seq<Outcome>)
    ensures
        start.after(first + then) == start.after(first).after(then),
    decreases then.len(),
{
    if then.len() == 0 {
        assert(first + then =~= first);
    } else {
        assert((first + then).drop_last() =~= first + then.drop_last());
        lemma_after_splits(start, first, then.drop_last());
    }
}

/// Once a run has ended it asks for the same at every later time.
pub proof fn lemma_ended_run_is_over(start: Session, outcomes: Seq<Outcome>, i: int, j: int)
    requires
        0 <= i <= j <= outcomes.len(),
        start.after(outcomes.take(i)).ended(),
    ensures
        start.after(outcomes.take(j)) == start.after(outcomes.take(i)),
{
    assert(outcomes.take(j) =~= outcomes.take(i) + outcomes.subrange(i, j));
    lemma_after_splits(start, outcomes.take(i), outcomes.subrange(i, j));
    lemma_ended_run_stays(start.after(outcomes.take(i)), outcomes.subrange(i, j));
}

/// While a run goes on, each earlier time had more steps left than each
/// later one.
pub proof fn lemma_earlier_is_further_from_end(
    start: Session,
    outcomes: Seq<Outcome>,
    k: int,
    i: int,
)
    requires
        0 <= k <= i <= outcomes.len(),
        !start.after(outcomes.take(i)).ended(),
    ensures
        steps_left(start.command, start.after(outcomes.take(i)).phase) + (i - k) <= steps_left(
            start.command,
            start.after(outcomes.take(k)).phase,
        ),
        start.after(outcomes.take(k)).command == start.command,
{
    let middle = start.after(outcomes.take(k));
    let rest = outcomes.subrange(k, i);
    assert(outcomes.take(i) =~= outcomes.take(k) + rest);
    lemma_after_splits(start, outcomes.take(k), rest);
    if middle.ended() {
        lemma_ended_run_stays(middle, rest);
    }
    lemma_run_counts_down(start, outcomes.take(k));
    lemma_run_counts_down(middle, rest);
}

/// Whether `phase` is one that a run of `command` passes through.
pub open spec fn fits(command: Command, phase: Phase) -> bool {
    match command {
        Command::Setup => phase is Setup,
        Command::Build { .. } => phase is Build,
        Command::Editor | Command::Run => phase is Launch || (phase is Build && phase
            != Phase::Build(BuildStage::Finished)),
        Command::Package => phase is Export || (phase is Build && phase != Phase::Build(
            BuildStage::Finished,
        )) || (phase is Presets && phase != Phase::Presets(PresetsStage::Finished)),
    }
}

/// A run stays inside the procedures of its command, on its host, and its
/// command never changes.
pub proof fn lemma_run_stays_fit(host: HostOs, command: Command, outcomes: Seq<Outcome>)
    ensures
        fits(command, fresh(host, command).after(outcomes).phase),
        fresh(host, command).after(outcomes).command == command,
        fresh(host, command).after(outcomes).host == host,
    decreases outcomes.len(),
{
    if outcomes.len() > 0 {
        lemma_run_stays_fit(host, command, outcomes.drop_last());
    }
}

} // verus!
