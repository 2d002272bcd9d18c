//! What holds of every run, whatever the outside world answers.

use vstd::prelude::*;
use crate::documents::{document_place, document_text, Document};
use crate::install::{build_next, BuildStage};
use crate::launch::{launch_next, LaunchStage};
use crate::layout::Place;
use crate::package::{export_next, presets_next, ExportStage, PresetsStage};
use crate::platform::HostOs;
use crate::protocol::{failure_has_cause, failure_place, Action, Failure, Outcome, Step};
use crate::release::Archive;
use crate::runs::{
    asked, fits, lemma_after_one_more, lemma_earlier_is_further_from_end,
    lemma_ended_run_is_over, lemma_run_stays_fit,
};
use crate::session::{editor_of, fresh, release_of, Command, Phase, Session};
use crate::setup::{setup_next, SetupStage};

verus! {

/// The templates are fetched only when they were just found to be missing:
/// wherever a run asks for the templates archive, it had asked for the
/// templates' directory right before and was told that it is absent.
pub proof fn lemma_templates_fetched_only_when_absent(
    host: HostOs,
    command: Command,
    outcomes: Seq<Outcome>,
    j: int,
)
    requires
        0 <= j <= outcomes.len(),
        asked(fresh(host, command), outcomes, j) == Step::Do(
            Action::Fetch(Archive::Templates),
        ),
    ensures
        j > 0,
        asked(fresh(host, command), outcomes, j - 1) == Step::Do(
            Action::Probe(Place::TemplatesVersion),
        ),
        outcomes[j - 1] == Outcome::Absent,
{
    let start = fresh(host, command);
    if j == 0 {
        assert(outcomes.take(0) =~= Seq::<Outcome>::empty());
    } else {
        lemma_after_one_more(start, outcomes, j - 1);
    }
}

/// Templates that are present end provisioning on the spot: once a run was
/// told that the templates' directory exists, it asks for nothing more, so
/// nothing is fetched, unpacked or moved for them.
pub proof fn lemma_present_templates_end_setup(
    start: Session,
    outcomes: Seq<Outcome>,
    i: int,
    j: int,
)
    requires
        0 <= i < j <= outcomes.len(),
        asked(start, outcomes, i) == Step::Do(Action::Probe(Place::TemplatesVersion)),
        outcomes[i] == Outcome::Present,
    ensures
        asked(start, outcomes, j) == Step::Finish,
{
    lemma_after_one_more(start, outcomes, i);
    lemma_ended_run_is_over(start, outcomes, i + 1, j);
}

/// The project's description and its export configuration are written only
/// when they were just found to be missing: wherever a run asks for one of
/// them to be written, it had asked for that file right before and was told
/// that it is absent. A file that is there is never replaced.
pub proof fn lemma_written_only_when_absent(
    host: HostOs,
    command: Command,
    outcomes: Seq<Outcome>,
    j: int,
    document: Document,
)
    requires
        0 <= j <= outcomes.len(),
        document != Document::Descriptor,
        asked(fresh(host, command), outcomes, j) == Step::Do(
            Action::Write(document),
        ),
    ensures
        j > 0,
        asked(fresh(host, command), outcomes, j - 1) == Step::Do(
            Action::Probe(document_place(document)),
        ),
        outcomes[j - 1] == Outcome::Absent,
{
    let start = fresh(host, command);
    if j == 0 {
        assert(outcomes.take(0) =~= Seq::<Outcome>::empty());
    } else {
        lemma_after_one_more(start, outcomes, j - 1);
    }
}

/// A file that is present is left alone: once a run was told that the
/// project's description or its export configuration exists, the next thing
/// it asks for is not to write it.
pub proof fn lemma_present_file_is_kept(
    start: Session,
    outcomes: Seq<Outcome>,
    i: int,
    document: Document,
)
    requires
        0 <= i < outcomes.len(),
        document != Document::Descriptor,
        asked(start, outcomes, i) == Step::Do(Action::Probe(document_place(document))),
        outcomes[i] == Outcome::Present,
    ensures
        asked(start, outcomes, i + 1) != Step::Do(Action::Write(document)),
{
    lemma_after_one_more(start, outcomes, i);
}

/// Whether `phase` lies behind a build that went well.
pub open spec fn build_is_behind(phase: Phase) -> bool {
    !(phase is Build) || phase == Phase::Build(BuildStage::Finished)
}

/// No run ever asks whether the descriptor exists, and the descriptor's
/// text is the same on every host.
pub proof fn lemma_descriptor_is_never_probed(session: Session, host: HostOs)
    ensures
        session.spec_step() != Step::Do(Action::Probe(Place::Descriptor)),
        document_text(host, Document::Descriptor)
            == document_text(session.host, Document::Descriptor),
{
}

/// Whether a run that started as `start` asked for the library to be
/// copied and then for the descriptor to be written, at the times `i - 1`
/// and `i`, and was told both times that it was done.
pub open spec fn installed_at(start: Session, outcomes: Seq<Outcome>, i: int) -> bool {
    &&& 0 < i < outcomes.len()
    &&& asked(start, outcomes, i - 1) == Step::Do(
        Action::CopyFile(
            Place::Artifact { release: release_of(start.command) },
            Place::InstalledLibrary,
        ),
    )
    &&& outcomes[i - 1] == Outcome::Done
    &&& asked(start, outcomes, i) == Step::Do(Action::Write(Document::Descriptor))
    &&& outcomes[i] == Outcome::Done
}

/// The descriptor is written right after the library was copied, and
/// a build is left behind right after the descriptor was written.
proof fn lemma_build_ends_in_order(session: Session, outcome: Outcome)
    requires
        session.command != Command::Setup,
        fits(session.command, session.phase),
    ensures
        session.spec_advance(outcome).spec_step() == Step::Do(Action::Write(Document::Descriptor))
            ==> session.spec_step() == Step::Do(
            Action::CopyFile(
                Place::Artifact { release: release_of(session.command) },
                Place::InstalledLibrary,
            ),
        ) && outcome == Outcome::Done,
        !build_is_behind(session.phase) && build_is_behind(session.spec_advance(outcome).phase)
            ==> session.spec_step() == Step::Do(Action::Write(Document::Descriptor)) && outcome
            == Outcome::Done,
        session.spec_advance(outcome).spec_step() == Step::Finish ==> build_is_behind(
            session.spec_advance(outcome).phase,
        ),
{
}

/// Every build that went well refreshed the library and the descriptor: a
/// run of any command but `Setup` that has its build behind it, and so
/// every such run that ends with `Finish`, copied the library into the
/// project and then wrote the descriptor, whatever was there before.
pub proof fn lemma_finished_build_wrote_descriptor(
    host: HostOs,
    command: Command,
    outcomes: Seq<Outcome>,
)
    requires
        command != Command::Setup,
        build_is_behind(fresh(host, command).after(outcomes).phase) || fresh(
            host,
            command,
        ).after(outcomes).spec_step() == Step::Finish,
    ensures
        exists|i: int| installed_at(fresh(host, command), outcomes, i),
    decreases outcomes.len(),
{
    let start = fresh(host, command);
    if outcomes.len() > 0 {
        let last = outcomes.len() - 1;
        let shorter = outcomes.drop_last();
        let before = start.after(shorter);
        lemma_run_stays_fit(host, command, shorter);
        lemma_build_ends_in_order(before, outcomes.last());
        if build_is_behind(before.phase) {
            lemma_finished_build_wrote_descriptor(host, command, shorter);
            let i = choose|i: int| installed_at(start, shorter, i);
            assert(shorter.take(i) =~= outcomes.take(i));
            assert(shorter.take(i - 1) =~= outcomes.take(i - 1));
            assert(installed_at(start, outcomes, i));
        } else {
            assert(outcomes.take(last) =~= shorter);
            if last == 0 {
                assert(shorter =~= Seq::<Outcome>::empty());
            } else {
                let earlier = start.after(outcomes.take(last - 1));
                lemma_after_one_more(start, outcomes, last - 1);
                lemma_run_stays_fit(host, command, outcomes.take(last - 1));
                lemma_build_ends_in_order(earlier, outcomes[last - 1]);
            }
            assert(installed_at(start, outcomes, last));
        }
    }
}

/// A library that is missing after the compiler reported success fails
/// the run: once a run was told that the library is absent, it gives up
/// with the diagnostic that names the library's place, and at no time of
/// such a run is the descriptor written.
pub proof fn lemma_missing_artifact_fails(
    host: HostOs,
    command: Command,
    outcomes: Seq<Outcome>,
    i: int,
    release: bool,
)
    requires
        0 <= i < outcomes.len(),
        asked(fresh(host, command), outcomes, i) == Step::Do(
            Action::Probe(Place::Artifact { release }),
        ),
        outcomes[i] == Outcome::Absent,
    ensures
        forall|j: int|
            i < j <= outcomes.len() ==> #[trigger] asked(
                fresh(host, command),
                outcomes,
                j,
            ) == Step::Fail(Failure::ArtifactMissing { release }),
        failure_place(Failure::ArtifactMissing { release }) == Some(Place::Artifact { release }),
        forall|k: int|
            0 <= k <= outcomes.len() ==> #[trigger] asked(
                fresh(host, command),
                outcomes,
                k,
            ) != Step::Do(Action::Write(Document::Descriptor)),
{
    let start = fresh(host, command);
    lemma_after_one_more(start, outcomes, i);
    assert forall|j: int| i < j <= outcomes.len() implies #[trigger] asked(start, outcomes, j)
        == Step::Fail(Failure::ArtifactMissing { release }) by {
        lemma_ended_run_is_over(start, outcomes, i + 1, j);
    }
    assert forall|k: int| 0 <= k <= outcomes.len() implies #[trigger] asked(start, outcomes, k)
        != Step::Do(Action::Write(Document::Descriptor)) by {
        if k <= i {
            lemma_earlier_is_further_from_end(start, outcomes, k, i);
        }
    }
}

/// Whether `step` asks for a file to be copied.
pub open spec fn copies_file(step: Step) -> bool {
    step matches Step::Do(action) && action is CopyFile
}

/// A compiler that reports failure fails the run before anything is
/// copied: the run gives up with the diagnostic of a failed build, and at no
/// time of such a run is a file copied.
pub proof fn lemma_failed_compile_copies_nothing(
    host: HostOs,
    command: Command,
    outcomes: Seq<Outcome>,
    i: int,
    release: bool,
)
    requires
        0 <= i < outcomes.len(),
        asked(fresh(host, command), outcomes, i) == Step::Do(Action::Compile { release }),
        outcomes[i] == Outcome::ExitedBad,
    ensures
        forall|j: int|
            i < j <= outcomes.len() ==> #[trigger] asked(fresh(host, command), outcomes, j)
                == Step::Fail(Failure::BuildFailed),
        forall|k: int|
            0 <= k <= outcomes.len() ==> !copies_file(
                #[trigger] asked(fresh(host, command), outcomes, k),
            ),
{
    let start = fresh(host, command);
    lemma_after_one_more(start, outcomes, i);
    assert forall|j: int| i < j <= outcomes.len() implies #[trigger] asked(start, outcomes, j)
        == Step::Fail(Failure::BuildFailed) by {
        lemma_ended_run_is_over(start, outcomes, i + 1, j);
    }
    assert forall|k: int| 0 <= k <= outcomes.len() implies !copies_file(
        #[trigger] asked(start, outcomes, k),
    ) by {
        if k <= i {
            lemma_earlier_is_further_from_end(start, outcomes, k, i);
        } else {
            lemma_ended_run_is_over(start, outcomes, i + 1, k);
        }
    }
}

/// An engine that was never provisioned fails the launch before the
/// project is touched: once a run of `Editor` or `Run` was told that the
/// engine's executable is absent, it gives up with the diagnostic of a
/// missing engine, and at no time of such a run is the project's directory
/// created or its description written.
pub proof fn lemma_missing_engine_fails_launch(
    host: HostOs,
    command: Command,
    outcomes: Seq<Outcome>,
    i: int,
)
    requires
        command is Editor || command is Run,
        0 <= i < outcomes.len(),
        asked(fresh(host, command), outcomes, i) == Step::Do(Action::Probe(Place::EngineBinary)),
        outcomes[i] == Outcome::Absent,
    ensures
        forall|j: int|
            i < j <= outcomes.len() ==> #[trigger] asked(fresh(host, command), outcomes, j)
                == Step::Fail(Failure::EngineMissing),
        forall|k: int|
            0 <= k <= outcomes.len() ==> #[trigger] asked(fresh(host, command), outcomes, k)
                != Step::Do(Action::CreateDirAll(Place::GameDir)) && asked(
                fresh(host, command),
                outcomes,
                k,
            ) != Step::Do(Action::Write(Document::Project)),
{
    let start = fresh(host, command);
    lemma_run_stays_fit(host, command, outcomes.take(i));
    lemma_after_one_more(start, outcomes, i);
    assert forall|j: int| i < j <= outcomes.len() implies #[trigger] asked(start, outcomes, j)
        == Step::Fail(Failure::EngineMissing) by {
        lemma_ended_run_is_over(start, outcomes, i + 1, j);
    }
    assert forall|k: int| 0 <= k <= outcomes.len() implies #[trigger] asked(start, outcomes, k)
        != Step::Do(Action::CreateDirAll(Place::GameDir)) && asked(start, outcomes, k) != Step::Do(
        Action::Write(Document::Project),
    ) by {
        if k <= i {
            lemma_earlier_is_further_from_end(start, outcomes, k, i);
            lemma_run_stays_fit(host, command, outcomes.take(k));
        } else {
            lemma_ended_run_is_over(start, outcomes, i + 1, k);
        }
    }
}

/// Whether a run goes on when `action` cannot be carried out: only taking
/// off the quarantine mark and moving the templates are such.
pub open spec fn may_fail(action: Action) -> bool {
    action is Unquarantine || action is Rename
}

/// The first failure ends the run: when outside work cannot be carried out,
/// the run gives up at once, with the outside error as the cause of its
/// diagnostic. The two exceptions are in `may_fail`.
pub proof fn lemma_first_failure_ends_run(session: Session, action: Action)
    requires
        session.spec_step() == Step::Do(action),
        !may_fail(action),
    ensures
        session.spec_advance(Outcome::Failed).spec_step() matches Step::Fail(failure)
            && failure_has_cause(failure),
{
    match session.phase {
        Phase::Setup(stage) => {
            assert(setup_next(session.host, stage, Outcome::Failed) == SetupStage::Failed(
                Failure::Outside,
            ));
        },
        Phase::Build(stage) => {
            assert(build_next(
                session.host,
                release_of(session.command),
                stage,
                Outcome::Failed,
            ) == BuildStage::Failed(Failure::Outside));
        },
        Phase::Launch(stage) => {
            assert(launch_next(editor_of(session.command), stage, Outcome::Failed)
                matches LaunchStage::Failed(failure) && failure_has_cause(failure));
        },
        Phase::Presets(stage) => {
            assert(presets_next(stage, Outcome::Failed) == PresetsStage::Failed(Failure::Outside));
        },
        Phase::Export(stage) => {
            assert(export_next(stage, Outcome::Failed) == ExportStage::Failed(Failure::Outside));
        },
    }
}

/// A quarantine mark that cannot be taken off stops nothing: the run goes
/// on as if it had been taken off.
pub proof fn lemma_quarantine_is_best_effort(session: Session, outcome: Outcome)
    requires
        session.spec_step() == Step::Do(Action::Unquarantine),
    ensures
        session.spec_advance(outcome) == session.spec_advance(Outcome::ExitedOk),
        session.spec_advance(outcome).spec_step() == Step::Do(
            Action::Probe(Place::TemplatesVersion),
        ),
{
}

/// Templates that cannot be moved are copied instead, and the scratch
/// directory is removed whichever way they came in: after the move, or
/// after the copy.
pub proof fn lemma_unmoved_templates_are_copied(session: Session)
    requires
        session.phase == Phase::Setup(SetupStage::MoveTemplates),
    ensures
        session.spec_step() == Step::Do(
            Action::Rename(Place::TemplatesUnpacked, Place::TemplatesVersion),
        ),
        session.spec_advance(Outcome::Done).spec_step() == Step::Do(
            Action::RemoveDirAll(Place::TemplatesScratch),
        ),
        asked(session, seq![Outcome::Failed, Outcome::Done, Outcome::Done], 1) == Step::Do(
            Action::CreateDirAll(Place::TemplatesVersion),
        ),
        asked(session, seq![Outcome::Failed, Outcome::Done, Outcome::Done], 2) == Step::Do(
            Action::CopyContents(Place::TemplatesUnpacked, Place::TemplatesVersion),
        ),
        asked(session, seq![Outcome::Failed, Outcome::Done, Outcome::Done], 3) == Step::Do(
            Action::RemoveDirAll(Place::TemplatesScratch),
        ),
{
    let outcomes = seq![Outcome::Failed, Outcome::Done, Outcome::Done];
    assert(outcomes.take(0) =~= Seq::<Outcome>::empty());
    lemma_after_one_more(session, outcomes, 0);
    lemma_after_one_more(session, outcomes, 1);
    lemma_after_one_more(session, outcomes, 2);
}

} // verus!
