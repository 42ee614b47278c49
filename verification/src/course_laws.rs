//! Which step of `nh system switch` and `nh system build` comes when: a run is at the
//! first step that is called for and that it has not done.

use crate::args::{DiffType, ElevationStrategy, SystemRebuildArgs};
use crate::error::{Context, ErrorModel};
use crate::installable::Installable;
use crate::os_text::{displayed, encoded, path_joined, OsText};
use crate::protocol::Reply;
use crate::rebuild::{
    rebuild_begun, Marks, RebuildModel, Stage, Standing, SystemRebuildVariant,
};
use crate::toplevel::{begun, Answer, ToplevelModel};
use vstd::prelude::*;
use vstd::utf8::encode_utf8;

verus! {

/// Whether the user wants the build activated.
pub open spec fn wants_activation(run: RebuildModel) -> bool {
    run.variant == SystemRebuildVariant::Switch && !run.args.common.dry
}

/// Whether the user gave a store path.
pub open spec fn gave_store_path(run: RebuildModel) -> bool {
    run.installable matches Some(installable) && installable is Store
}

/// Whether the step is called for, by what the user asked for and by what has been
/// found out.
pub open spec fn called_for(run: RebuildModel, stage: Stage) -> bool {
    let args = run.args;
    let other_hosts = args.build_host is Some || args.target_host is Some;
    let here = args.target_host is None;
    match stage {
        Stage::CheckSsh => other_hosts,
        Stage::MakeTempDir => args.common.out_link is None,
        Stage::ResolveInstallable => true,
        Stage::UpdateInputs => args.update_args.update_all
            || args.update_args.update_input is Some,
        Stage::FindHostname => args.configuration is None,
        Stage::InitSsh => other_hosts,
        Stage::ConnectBuildHost => args.build_host is Some,
        Stage::ConnectTargetHost => args.target_host is Some,
        Stage::NoteConfiguration => gave_store_path(run) && args.configuration is Some,
        Stage::ResolveStorePath => gave_store_path(run),
        Stage::Search => !gave_store_path(run),
        Stage::NoteRemoteBuild => !gave_store_path(run) && args.build_host is Some,
        Stage::BuildRemotely => !gave_store_path(run) && args.build_host is Some,
        Stage::BuildLocally => !gave_store_path(run) && args.build_host is None,
        Stage::ResolveOutLink => !gave_store_path(run) && args.build_host is None,
        Stage::CheckProfile => args.common.diff != DiffType::Never,
        Stage::ShowDiff => args.common.diff != DiffType::Never && run.marks.profile_exists
            == Some(true),
        Stage::NoteDryRun => !wants_activation(run) && args.common.ask,
        Stage::ProbeUid => wants_activation(run) && args.target_host is Some && run.elevation
            == ElevationStrategy::Elevate,
        Stage::Confirm => wants_activation(run) && args.common.ask,
        Stage::CopyClosure => wants_activation(run) && args.target_host is Some && (
        gave_store_path(run) || args.build_host is None || args.build_host->0.hostname@
            != args.target_host->0.hostname@),
        Stage::ValidateClosure => wants_activation(run) && args.target_host is Some,
        Stage::CheckEngine => wants_activation(run) && here,
        Stage::ActivateRemotely => wants_activation(run) && args.target_host is Some,
        Stage::Register => wants_activation(run) && here,
        Stage::Activate => wants_activation(run) && here,
    }
}

/// Whether the run has not done the step.
pub open spec fn undone(run: RebuildModel, stage: Stage) -> bool {
    match stage {
        Stage::CheckSsh => !run.marks.ssh_login_works,
        Stage::MakeTempDir => run.temp_dir is None,
        Stage::ResolveInstallable => run.installable is None,
        Stage::UpdateInputs => !run.marks.inputs_updated,
        Stage::FindHostname => run.hostname is None,
        Stage::InitSsh => !run.marks.ssh_initialised,
        Stage::ConnectBuildHost => !run.marks.build_host_connected,
        Stage::ConnectTargetHost => !run.marks.target_host_connected,
        Stage::NoteConfiguration => !run.marks.configuration_noted,
        Stage::ResolveStorePath => run.store_path is None,
        Stage::Search => !(run.search matches Some(ToplevelModel::Finished(_))),
        Stage::NoteRemoteBuild => !run.marks.remote_build_noted,
        Stage::BuildRemotely => run.store_path is None,
        Stage::BuildLocally => !run.marks.built_here,
        Stage::ResolveOutLink => run.store_path is None,
        Stage::CheckProfile => run.marks.profile_exists is None,
        Stage::ShowDiff => !run.marks.diff_shown,
        Stage::NoteDryRun => !run.marks.dry_run_noted,
        Stage::ProbeUid => run.marks.target_uid is None,
        Stage::Confirm => run.marks.confirmed is None,
        Stage::CopyClosure => !run.marks.copied,
        Stage::ValidateClosure => !run.marks.validated,
        Stage::CheckEngine => run.marks.engine_exists is None,
        Stage::ActivateRemotely => !run.marks.activated_remotely,
        Stage::Register => !run.marks.registered,
        Stage::Activate => !run.marks.activated,
    }
}

/// Whether the step, once done, ended the run: the search failed, the user declined, or
/// the build has no engine.
pub open spec fn fatal(run: RebuildModel, stage: Stage) -> bool {
    match stage {
        Stage::Search => run.search matches Some(ToplevelModel::Finished(Err(_))),
        Stage::Confirm => run.marks.confirmed == Some(false),
        Stage::CheckEngine => run.marks.engine_exists == Some(false),
        _ => false,
    }
}

/// Whether the run is past the step: it is not called for, or it is done and did not
/// end the run.
pub open spec fn past(run: RebuildModel, stage: Stage) -> bool {
    called_for(run, stage) ==> !undone(run, stage) && !fatal(run, stage)
}

/// Whether the run is past all the steps before the given one.
pub open spec fn past_all_before(run: RebuildModel, stage: Stage) -> bool {
    forall|earlier: Stage| earlier.rank() < stage.rank() ==> #[trigger] past(run, earlier)
}

/// Whether root runs the command without leave.
pub open spec fn root_without_leave(run: RebuildModel) -> bool {
    run.uid == 0 && !run.args.bypass_root_check
}

/// Whether the run is past what comes before the build.
spec fn prepared_past(run: RebuildModel) -> bool {
    &&& past(run, Stage::CheckSsh)
    &&& past(run, Stage::MakeTempDir)
    &&& past(run, Stage::ResolveInstallable)
    &&& past(run, Stage::UpdateInputs)
    &&& past(run, Stage::FindHostname)
    &&& past(run, Stage::InitSsh)
    &&& past(run, Stage::ConnectBuildHost)
    &&& past(run, Stage::ConnectTargetHost)
}

/// Whether the run is past the build.
spec fn built_past(run: RebuildModel) -> bool {
    &&& past(run, Stage::NoteConfiguration)
    &&& past(run, Stage::ResolveStorePath)
    &&& past(run, Stage::Search)
    &&& past(run, Stage::NoteRemoteBuild)
    &&& past(run, Stage::BuildRemotely)
    &&& past(run, Stage::BuildLocally)
    &&& past(run, Stage::ResolveOutLink)
}

/// Whether the run is past the comparison.
spec fn compared_past(run: RebuildModel) -> bool {
    &&& past(run, Stage::CheckProfile)
    &&& past(run, Stage::ShowDiff)
}

/// Whether the run is past the activation.
spec fn applied_past(run: RebuildModel) -> bool {
    &&& past(run, Stage::NoteDryRun)
    &&& past(run, Stage::ProbeUid)
    &&& past(run, Stage::Confirm)
    &&& past(run, Stage::CopyClosure)
    &&& past(run, Stage::ValidateClosure)
    &&& past(run, Stage::CheckEngine)
    &&& past(run, Stage::ActivateRemotely)
    &&& past(run, Stage::Register)
    &&& past(run, Stage::Activate)
}

/// Whether the run is past the steps before the given one in its part of the course.
spec fn past_in_part(run: RebuildModel, stage: Stage) -> bool {
    match stage {
        Stage::CheckSsh => true,
        Stage::MakeTempDir => {
            &&& past(run, Stage::CheckSsh)
        },
        Stage::ResolveInstallable => {
            &&& past(run, Stage::CheckSsh)
            &&& past(run, Stage::MakeTempDir)
        },
        Stage::UpdateInputs => {
            &&& past(run, Stage::CheckSsh)
            &&& past(run, Stage::MakeTempDir)
            &&& past(run, Stage::ResolveInstallable)
        },
        Stage::FindHostname => {
            &&& past(run, Stage::CheckSsh)
            &&& past(run, Stage::MakeTempDir)
            &&& past(run, Stage::ResolveInstallable)
            &&& past(run, Stage::UpdateInputs)
        },
        Stage::InitSsh => {
            &&& past(run, Stage::CheckSsh)
            &&& past(run, Stage::MakeTempDir)
            &&& past(run, Stage::ResolveInstallable)
            &&& past(run, Stage::UpdateInputs)
            &&& past(run, Stage::FindHostname)
        },
        Stage::ConnectBuildHost => {
            &&& past(run, Stage::CheckSsh)
            &&& past(run, Stage::MakeTempDir)
            &&& past(run, Stage::ResolveInstallable)
            &&& past(run, Stage::UpdateInputs)
            &&& past(run, Stage::FindHostname)
            &&& past(run, Stage::InitSsh)
        },
        Stage::ConnectTargetHost => {
            &&& past(run, Stage::CheckSsh)
            &&& past(run, Stage::MakeTempDir)
            &&& past(run, Stage::ResolveInstallable)
            &&& past(run, Stage::UpdateInputs)
            &&& past(run, Stage::FindHostname)
            &&& past(run, Stage::InitSsh)
            &&& past(run, Stage::ConnectBuildHost)
        },
        Stage::NoteConfiguration => true,
        Stage::ResolveStorePath => {
            &&& past(run, Stage::NoteConfiguration)
        },
        Stage::Search => {
            &&& past(run, Stage::NoteConfiguration)
            &&& past(run, Stage::ResolveStorePath)
        },
        Stage::NoteRemoteBuild => {
            &&& past(run, Stage::NoteConfiguration)
            &&& past(run, Stage::ResolveStorePath)
            &&& past(run, Stage::Search)
        },
        Stage::BuildRemotely => {
            &&& past(run, Stage::NoteConfiguration)
            &&& past(run, Stage::ResolveStorePath)
            &&& past(run, Stage::Search)
            &&& past(run, Stage::NoteRemoteBuild)
        },
        Stage::BuildLocally => {
            &&& past(run, Stage::NoteConfiguration)
            &&& past(run, Stage::ResolveStorePath)
            &&& past(run, Stage::Search)
            &&& past(run, Stage::NoteRemoteBuild)
            &&& past(run, Stage::BuildRemotely)
        },
        Stage::ResolveOutLink => {
            &&& past(run, Stage::NoteConfiguration)
            &&& past(run, Stage::ResolveStorePath)
            &&& past(run, Stage::Search)
            &&& past(run, Stage::NoteRemoteBuild)
            &&& past(run, Stage::BuildRemotely)
            &&& past(run, Stage::BuildLocally)
        },
        Stage::CheckProfile => true,
        Stage::ShowDiff => {
            &&& past(run, Stage::CheckProfile)
        },
        Stage::NoteDryRun => true,
        Stage::ProbeUid => {
            &&& past(run, Stage::NoteDryRun)
        },
        Stage::Confirm => {
            &&& past(run, Stage::NoteDryRun)
            &&& past(run, Stage::ProbeUid)
        },
        Stage::CopyClosure => {
            &&& past(run, Stage::NoteDryRun)
            &&& past(run, Stage::ProbeUid)
            &&& past(run, Stage::Confirm)
        },
        Stage::ValidateClosure => {
            &&& past(run, Stage::NoteDryRun)
            &&& past(run, Stage::ProbeUid)
            &&& past(run, Stage::Confirm)
            &&& past(run, Stage::CopyClosure)
        },
        Stage::CheckEngine => {
            &&& past(run, Stage::NoteDryRun)
            &&& past(run, Stage::ProbeUid)
            &&& past(run, Stage::Confirm)
            &&& past(run, Stage::CopyClosure)
            &&& past(run, Stage::ValidateClosure)
        },
        Stage::ActivateRemotely => {
            &&& past(run, Stage::NoteDryRun)
            &&& past(run, Stage::ProbeUid)
            &&& past(run, Stage::Confirm)
            &&& past(run, Stage::CopyClosure)
            &&& past(run, Stage::ValidateClosure)
            &&& past(run, Stage::CheckEngine)
        },
        Stage::Register => {
            &&& past(run, Stage::NoteDryRun)
            &&& past(run, Stage::ProbeUid)
            &&& past(run, Stage::Confirm)
            &&& past(run, Stage::CopyClosure)
            &&& past(run, Stage::ValidateClosure)
            &&& past(run, Stage::CheckEngine)
            &&& past(run, Stage::ActivateRemotely)
        },
        Stage::Activate => {
            &&& past(run, Stage::NoteDryRun)
            &&& past(run, Stage::ProbeUid)
            &&& past(run, Stage::Confirm)
            &&& past(run, Stage::CopyClosure)
            &&& past(run, Stage::ValidateClosure)
            &&& past(run, Stage::CheckEngine)
            &&& past(run, Stage::ActivateRemotely)
            &&& past(run, Stage::Register)
        },
    }
}

/// Whether the run is past the parts of the course before that of the given step.
spec fn past_parts(run: RebuildModel, stage: Stage) -> bool {
    &&& stage.rank() > 7 ==> prepared_past(run)
    &&& stage.rank() > 14 ==> built_past(run)
    &&& stage.rank() > 16 ==> compared_past(run)
}

/// Before the build, a run is at the first step that it is not past.
proof fn lemma_preparing_in_order(run: RebuildModel, stage: Stage)
    requires
        !root_without_leave(run),
    ensures
        run.preparing() == Some(Standing::Asking(stage)) <==> stage.rank() <= 7 && called_for(run, stage)
            && undone(run, stage) && past_in_part(run, stage),
        run.preparing() is None <==> prepared_past(run),
{
}

/// In the build, a run is at the first step that it is not past.
proof fn lemma_building_in_order(run: RebuildModel, stage: Stage)
    ensures
        run.building() == Some(Standing::Asking(stage)) <==> 8 <= stage.rank() <= 14 && called_for(run, stage)
            && undone(run, stage) && past_in_part(run, stage),
        run.building() is None <==> built_past(run),
{
}

/// In the comparison, a run is at the first step that it is not past.
proof fn lemma_comparing_in_order(run: RebuildModel, stage: Stage)
    ensures
        run.comparing() == Some(Standing::Asking(stage)) <==> 15 <= stage.rank() <= 16 && called_for(run, stage)
            && undone(run, stage) && past_in_part(run, stage),
        run.comparing() is None <==> compared_past(run),
{
}

/// In the activation, a run is at the first step that it is not past.
proof fn lemma_applying_in_order(run: RebuildModel, stage: Stage)
    ensures
        run.applying() == Standing::Asking(stage) <==> 17 <= stage.rank() && called_for(run, stage)
            && undone(run, stage) && past_in_part(run, stage),
        run.applying() is Finished <==> applied_past(run),
{
}

/// To be past all the steps before one is to be past the parts before its own and past
/// the steps before it there.
proof fn lemma_past_all_before(run: RebuildModel, stage: Stage)
    ensures
        past_all_before(run, stage) <==> past_parts(run, stage) && past_in_part(run, stage),
{
    if past_parts(run, stage) && past_in_part(run, stage) {
        assert forall|earlier: Stage| earlier.rank() < stage.rank() implies #[trigger] past(
            run,
            earlier,
        ) by {}
    }
}

/// To be past every step is to be past every part.
proof fn lemma_past_everything(run: RebuildModel)
    ensures
        (forall|stage: Stage| #[trigger] past(run, stage)) <==> prepared_past(run) && built_past(
            run,
        ) && compared_past(run) && applied_past(run),
{
    if prepared_past(run) && built_past(run) && compared_past(run) && applied_past(run) {
        assert forall|stage: Stage| #[trigger] past(run, stage) by {}
    }
}

/// Law: a run is at a step exactly if the step is called for, the run has not done it
/// and the run is past every step before it; unless something failed outside or root
/// runs the command without leave.
pub proof fn law_run_is_at_the_first_step_not_done(run: RebuildModel, stage: Stage)
    ensures
        run.standing() == Standing::Asking(stage) <==> {
            &&& run.failure is None
            &&& !root_without_leave(run)
            &&& called_for(run, stage)
            &&& undone(run, stage)
            &&& past_all_before(run, stage)
        },
{
    lemma_past_all_before(run, stage);
    lemma_comparing_in_order(run, stage);
    lemma_building_in_order(run, stage);
    lemma_applying_in_order(run, stage);
    if !root_without_leave(run) {
        lemma_preparing_in_order(run, stage);
    }
}

/// Law: a run has done its work exactly if it is past every step, nothing failed
/// outside, and it is not one of root's without leave.
pub proof fn law_run_is_over_when_it_is_past_every_step(run: RebuildModel)
    ensures
        run.standing() is Finished <==> {
            &&& run.failure is None
            &&& !root_without_leave(run)
            &&& forall|stage: Stage| #[trigger] past(run, stage)
        },
{
    lemma_past_everything(run);
    lemma_comparing_in_order(run, Stage::CheckProfile);
    lemma_building_in_order(run, Stage::Search);
    lemma_applying_in_order(run, Stage::Confirm);
    if !root_without_leave(run) {
        lemma_preparing_in_order(run, Stage::CheckSsh);
    }
}

/// Law: a run fails for what failed outside; for being root's without leave; and, at
/// the first step that it cannot get past, for what the search says, because the user
/// declined, or because the build has no engine where one should be.
pub proof fn law_run_fails_for_its_reason(run: RebuildModel)
    ensures
        run.failure matches Some(error) ==> run.standing() == Standing::Failed(error),
        run.failure is None && root_without_leave(run) ==> run.standing() == Standing::Failed(
            ErrorModel::RunningAsRoot,
        ),
        run.failure is None && !root_without_leave(run) ==> {
            &&& called_for(run, Stage::Search) && past_all_before(run, Stage::Search) ==> (
            run.search matches Some(ToplevelModel::Finished(Err(error))) ==> run.standing()
                == Standing::Failed(error))
            &&& called_for(run, Stage::Confirm) && past_all_before(run, Stage::Confirm)
                && run.marks.confirmed == Some(false) ==> run.standing() == Standing::Failed(
                ErrorModel::Rejected,
            )
            &&& called_for(run, Stage::CheckEngine) && past_all_before(run, Stage::CheckEngine)
                && run.marks.engine_exists == Some(false) ==> run.standing() == Standing::Failed(
                ErrorModel::EngineMissing(
                    displayed(
                        path_joined(
                            run.store_path->0,
                            encode_utf8("bin/system-manager-engine"@),
                        ),
                    ),
                ),
            )
        },
{
    lemma_past_all_before(run, Stage::Search);
    lemma_past_all_before(run, Stage::Confirm);
    lemma_past_all_before(run, Stage::CheckEngine);
    lemma_comparing_in_order(run, Stage::CheckProfile);
    lemma_building_in_order(run, Stage::Search);
    if !root_without_leave(run) {
        lemma_preparing_in_order(run, Stage::CheckSsh);
    }
}

/// Law: a run begins with what the user asked for and with nothing done and nothing
/// known.
pub proof fn law_run_begins_with_nothing_done(
    args: SystemRebuildArgs,
    variant: SystemRebuildVariant,
    elevation: ElevationStrategy,
    uid: u32,
    stage: Stage,
)
    ensures
        rebuild_begun(args, variant, elevation, uid).args == args,
        rebuild_begun(args, variant, elevation, uid).variant == variant,
        rebuild_begun(args, variant, elevation, uid).elevation == elevation,
        rebuild_begun(args, variant, elevation, uid).uid == uid,
        rebuild_begun(args, variant, elevation, uid).failure is None,
        rebuild_begun(args, variant, elevation, uid).search is None,
        undone(rebuild_begun(args, variant, elevation, uid), stage),
{
}

/// Law: every step has its own way of being reported when the outside fails at it; the
/// steps that are about this program's own state cannot fail.
pub proof fn law_failure_is_reported_by_its_step(stage: Stage)
    ensures
        stage.reported_as() == (match stage {
            Stage::ConnectBuildHost => Some(Context::ConnectBuildHost),
            Stage::ConnectTargetHost => Some(Context::ConnectTargetHost),
            Stage::ResolveStorePath => Some(Context::ResolveStorePath),
            Stage::BuildRemotely | Stage::BuildLocally => Some(Context::Build),
            Stage::ResolveOutLink => Some(Context::ResolveOutLink),
            Stage::CopyClosure => Some(Context::CopyClosure),
            Stage::ValidateClosure => Some(Context::ValidateClosure),
            Stage::CheckEngine => Some(Context::CheckEngine),
            Stage::Register => Some(Context::Register),
            Stage::Activate => Some(Context::Activate),
            _ => None,
        }),
        !stage.can_fail() <==> {
            ||| stage is InitSsh
            ||| stage is NoteConfiguration
            ||| stage is Search
            ||| stage is NoteRemoteBuild
            ||| stage is CheckProfile
            ||| stage is NoteDryRun
        },
{
}

/// Law: a run takes a reply exactly if the reply is one to the step that it is at, and
/// makes of it what that step makes of it.
pub proof fn law_reply_goes_to_the_step(run: RebuildModel, stage: Stage, reply: Reply)
    ensures
        run.standing() == Standing::Asking(stage) ==> run.told(reply) == run.learned(stage, reply),
        run.standing() == Standing::Asking(stage) ==> (run.takes(reply) <==> run.fits(
            stage,
            reply,
        )),
        !(run.standing() is Asking) ==> !run.takes(reply),
{
}

/// Law: every kind of reply belongs to its own steps: a yes or no to a question, a path
/// to a step that needs one, and so on; and only what can fail can be said to have
/// failed.
pub proof fn law_step_takes_its_own_replies(run: RebuildModel, stage: Stage, reply: Reply)
    ensures
        run.fits(stage, reply) <==> match reply {
            Reply::Failed(_) => stage.can_fail(),
            Reply::Flag(_) => stage is CheckProfile || stage is Confirm || stage is CheckEngine,
            Reply::Path(_) => stage is MakeTempDir || stage is ResolveStorePath
                || stage is BuildRemotely || stage is ResolveOutLink,
            Reply::Installable(_) => stage is ResolveInstallable,
            Reply::Text(_) => stage is FindHostname,
            Reply::Uid(_) => stage is ProbeUid,
            Reply::Search(answer) => stage is Search && run.search->0.takes(answer),
            Reply::Done => stage is CheckSsh || stage is UpdateInputs || stage is InitSsh
                || stage is ConnectBuildHost || stage is ConnectTargetHost
                || stage is NoteConfiguration || stage is NoteRemoteBuild || stage is BuildLocally
                || stage is ShowDiff || stage is NoteDryRun || stage is CopyClosure
                || stage is ValidateClosure || stage is ActivateRemotely || stage is Register
                || stage is Activate,
            Reply::Exit { .. } => false,
        },
{
}

/// The run with other marks.
pub open spec fn with_marks(run: RebuildModel, marks: Marks) -> RebuildModel {
    RebuildModel { marks, ..run }
}

/// Law: that a step is done is remembered of that step, and nothing is remembered of
/// any other.
pub proof fn law_done_is_remembered_of_the_step(run: RebuildModel)
    ensures
        run.learned(Stage::CheckSsh, Reply::Done) == with_marks(
            run,
            Marks { ssh_login_works: true, ..run.marks },
        ),
        run.learned(Stage::UpdateInputs, Reply::Done) == with_marks(
            run,
            Marks { inputs_updated: true, ..run.marks },
        ),
        run.learned(Stage::InitSsh, Reply::Done) == with_marks(
            run,
            Marks { ssh_initialised: true, ..run.marks },
        ),
        run.learned(Stage::ConnectBuildHost, Reply::Done) == with_marks(
            run,
            Marks { build_host_connected: true, ..run.marks },
        ),
        run.learned(Stage::ConnectTargetHost, Reply::Done) == with_marks(
            run,
            Marks { target_host_connected: true, ..run.marks },
        ),
        run.learned(Stage::NoteConfiguration, Reply::Done) == with_marks(
            run,
            Marks { configuration_noted: true, ..run.marks },
        ),
        run.learned(Stage::NoteRemoteBuild, Reply::Done) == with_marks(
            run,
            Marks { remote_build_noted: true, ..run.marks },
        ),
        run.learned(Stage::BuildLocally, Reply::Done) == with_marks(
            run,
            Marks { built_here: true, ..run.marks },
        ),
        run.learned(Stage::ShowDiff, Reply::Done) == with_marks(
            run,
            Marks { diff_shown: true, ..run.marks },
        ),
        run.learned(Stage::NoteDryRun, Reply::Done) == with_marks(
            run,
            Marks { dry_run_noted: true, ..run.marks },
        ),
        run.learned(Stage::CopyClosure, Reply::Done) == with_marks(
            run,
            Marks { copied: true, ..run.marks },
        ),
        run.learned(Stage::ValidateClosure, Reply::Done) == with_marks(
            run,
            Marks { validated: true, ..run.marks },
        ),
        run.learned(Stage::ActivateRemotely, Reply::Done) == with_marks(
            run,
            Marks { activated_remotely: true, ..run.marks },
        ),
        run.learned(Stage::Register, Reply::Done) == with_marks(
            run,
            Marks { registered: true, ..run.marks },
        ),
        run.learned(Stage::Activate, Reply::Done) == with_marks(
            run,
            Marks { activated: true, ..run.marks },
        ),
{
}

/// Law: a yes or no is remembered as the answer to the question that was asked, and as
/// nothing else.
pub proof fn law_flag_is_remembered_of_the_question(
    run: RebuildModel,
    flag: bool,
)
    ensures
        run.learned(Stage::CheckProfile, Reply::Flag(flag)) == (RebuildModel {
            marks: Marks { profile_exists: Some(flag), ..run.marks },
            ..run
        }),
        run.learned(Stage::Confirm, Reply::Flag(flag)) == (RebuildModel {
            marks: Marks { confirmed: Some(flag), ..run.marks },
            ..run
        }),
        run.learned(Stage::CheckEngine, Reply::Flag(flag)) == (RebuildModel {
            marks: Marks { engine_exists: Some(flag), ..run.marks },
            ..run
        }),
{
}

/// Law: a path is remembered as what the step was after: the temporary directory, or
/// the build; and the number of the user on the target host as that.
pub proof fn law_path_is_remembered_of_the_step(
    run: RebuildModel,
    stage: Stage,
    path: OsText,
    number: u32,
)
    requires
        run.fits(stage, Reply::Path(path)),
    ensures
        stage is MakeTempDir ==> run.learned(stage, Reply::Path(path)) == (RebuildModel {
            temp_dir: Some(path@),
            ..run
        }),
        !(stage is MakeTempDir) ==> run.learned(stage, Reply::Path(path)) == (RebuildModel {
            store_path: Some(path@),
            ..run
        }),
        run.learned(Stage::ProbeUid, Reply::Uid(number)) == (RebuildModel {
            marks: Marks { target_uid: Some(number), ..run.marks },
            ..run
        }),
{
}

/// Law: what fails is remembered as what failed, and changes nothing else; what the
/// build changes is not worth failing for.
pub proof fn law_failure_is_remembered_of_the_step(
    run: RebuildModel,
    stage: Stage,
    cause: String,
)
    ensures
        !(stage is ShowDiff) ==> run.learned(stage, Reply::Failed(cause)) == (RebuildModel {
            failure: Some(ErrorModel::Failed { context: stage.reported_as(), cause: cause@ }),
            ..run
        }),
        run.learned(Stage::ShowDiff, Reply::Failed(cause)) == run.learned(
            Stage::ShowDiff,
            Reply::Done,
        ),
{
}

/// Law: an answer to the search is told to the search and to nobody else.
pub proof fn law_answer_is_told_to_the_search(
    run: RebuildModel,
    search: ToplevelModel,
    answer: Answer,
)
    requires
        run.search == Some(search),
    ensures
        run.learned(Stage::Search, Reply::Search(answer)) == (RebuildModel {
            search: Some(search.told(answer)),
            ..run
        }),
{
}

/// Law: what the user wants built is remembered, and begins the search where the user
/// gave a name; and the name of the host is remembered, and begins the search where it
/// is known what is built. A store path begins none.
pub proof fn law_subject_begins_the_search(
    run: RebuildModel,
    installable: Installable,
    host: String,
)
    requires
        run.search is None,
    ensures
        ({
            let next = run.learned(Stage::ResolveInstallable, Reply::Installable(installable));
            let name = run.args.configuration.deep_view();
            &&& next == (RebuildModel {
                installable: Some(installable@),
                search: next.search,
                ..run
            })
            &&& installable is Store ==> next.search is None
            &&& !(installable is Store) && name is Some ==> next.search == Some(
                begun(installable@, encoded(run.args.extra_args.deep_view()), name, None),
            )
            &&& !(installable is Store) && name is None && run.hostname is Some ==> next.search
                == Some(
                begun(installable@, encoded(run.args.extra_args.deep_view()), None, run.hostname),
            )
            &&& name is None && run.hostname is None ==> next.search is None
        }),
        ({
            let next = run.learned(Stage::FindHostname, Reply::Text(host));
            let name = run.args.configuration.deep_view();
            &&& next == (RebuildModel { hostname: Some(host@), search: next.search, ..run })
            &&& run.installable is None ==> next.search is None
            &&& run.installable matches Some(place) ==> {
                &&& place is Store ==> next.search is None
                &&& !(place is Store) && name is None ==> next.search == Some(
                    begun(
                        place,
                        encoded(run.args.extra_args.deep_view()),
                        None,
                        Some(host@),
                    ),
                )
                &&& !(place is Store) && name is Some ==> next.search == Some(
                    begun(place, encoded(run.args.extra_args.deep_view()), name, None),
                )
            }
        }),
{
}

} // verus!
