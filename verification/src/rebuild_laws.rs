//! What holds of every run of `nh system switch` and `nh system build`.

use crate::args::{CommonRebuildArgs, ElevationStrategy, SystemRebuildArgs};
use crate::error::ErrorModel;
use crate::os_text::{encoded, OsText};
use crate::protocol::{Reply, RequestModel};
use crate::rebuild::{
    rebuild_begun, Marks, RebuildModel, Stage, Standing, SystemRebuildVariant,
};
use crate::toplevel::{Answer, ToplevelModel};
use crate::toplevel_laws::{
    keeps, law_place_is_kept, law_place_is_kept_at_first, law_search_begins, law_search_ends,
};
use vstd::prelude::*;

verus! {

impl Stage {
    /// The place of the step in the course.
    pub open spec fn rank(self) -> nat {
        match self {
            Stage::CheckSsh => 0,
            Stage::MakeTempDir => 1,
            Stage::ResolveInstallable => 2,
            Stage::UpdateInputs => 3,
            Stage::FindHostname => 4,
            Stage::InitSsh => 5,
            Stage::ConnectBuildHost => 6,
            Stage::ConnectTargetHost => 7,
            Stage::NoteConfiguration => 8,
            Stage::ResolveStorePath => 9,
            Stage::Search => 10,
            Stage::NoteRemoteBuild => 11,
            Stage::BuildRemotely => 12,
            Stage::BuildLocally => 13,
            Stage::ResolveOutLink => 14,
            Stage::CheckProfile => 15,
            Stage::ShowDiff => 16,
            Stage::NoteDryRun => 17,
            Stage::ProbeUid => 18,
            Stage::Confirm => 19,
            Stage::CopyClosure => 20,
            Stage::ValidateClosure => 21,
            Stage::CheckEngine => 22,
            Stage::ActivateRemotely => 23,
            Stage::Register => 24,
            Stage::Activate => 25,
        }
    }

    /// Whether the step belongs to the activation and not to the build.
    pub open spec fn is_activation(self) -> bool {
        match self {
            Stage::ProbeUid => true,
            Stage::Confirm => true,
            Stage::CopyClosure => true,
            Stage::ValidateClosure => true,
            Stage::CheckEngine => true,
            Stage::ActivateRemotely => true,
            Stage::Register => true,
            Stage::Activate => true,
            _ => false,
        }
    }

    /// Whether the step changes what a host runs or holds.
    pub open spec fn changes_a_host(self) -> bool {
        match self {
            Stage::CopyClosure => true,
            Stage::ActivateRemotely => true,
            Stage::Register => true,
            Stage::Activate => true,
            _ => false,
        }
    }
}

impl RebuildModel {
    /// Whether what the run knows fits together.
    pub open spec fn well_formed(self) -> bool {
        &&& self.searches()
        &&& self.search matches Some(search) ==> {
            &&& search.well_formed()
            &&& search.effort() <= 6
            &&& keeps(search, self.installable->0)
        }
    }

    /// How many replies the run can still need: one for each step that is left, but
    /// six for the search.
    pub open spec fn effort(self) -> nat {
        effort_at(self.standing(), self.search)
    }
}

/// How many replies a run can still need that stands where `standing` says.
pub open spec fn effort_at(standing: Standing, search: Option<ToplevelModel>) -> nat {
    match standing {
        Standing::Asking(Stage::Search) => (15 + search->0.effort()) as nat,
        Standing::Asking(stage) => if stage.rank() < Stage::Search.rank() {
            (31 - stage.rank()) as nat
        } else {
            (26 - stage.rank()) as nat
        },
        _ => 0,
    }
}

/// Law: what a run knows at its beginning fits together.
pub proof fn law_run_begins(
    args: SystemRebuildArgs,
    variant: SystemRebuildVariant,
    elevation: ElevationStrategy,
    uid: u32,
)
    ensures
        rebuild_begun(args, variant, elevation, uid).well_formed(),
{
}

/// Whether what the step would tell is not known yet.
spec fn is_open(run: RebuildModel, stage: Stage) -> bool {
    match stage {
        Stage::CheckSsh => !run.marks.ssh_login_works,
        Stage::MakeTempDir => run.temp_dir is None,
        Stage::ResolveInstallable => run.installable is None,
        Stage::UpdateInputs => !run.marks.inputs_updated,
        Stage::FindHostname => run.hostname is None && run.args.configuration is None,
        Stage::InitSsh => !run.marks.ssh_initialised,
        Stage::ConnectBuildHost => !run.marks.build_host_connected,
        Stage::ConnectTargetHost => !run.marks.target_host_connected,
        Stage::NoteConfiguration => !run.marks.configuration_noted,
        Stage::ResolveStorePath => run.store_path is None,
        Stage::Search => !run.given_store_path() && run.installable is Some && (
        run.args.configuration is Some || run.hostname is Some),
        Stage::NoteRemoteBuild => !run.marks.remote_build_noted,
        Stage::BuildRemotely => run.store_path is None,
        Stage::BuildLocally => !run.marks.built_here,
        Stage::ResolveOutLink => run.store_path is None,
        Stage::CheckProfile => run.marks.profile_exists is None,
        Stage::ShowDiff => !run.marks.diff_shown,
        Stage::NoteDryRun => !run.marks.dry_run_noted,
        Stage::ProbeUid => run.marks.target_uid is None,
        Stage::Confirm => run.marks.confirmed is None,
        Stage::CopyClosure => !run.marks.copied,
        Stage::ValidateClosure => !run.marks.validated,
        Stage::CheckEngine => run.marks.engine_exists is None,
        Stage::ActivateRemotely => !run.marks.activated_remotely,
        Stage::Register => !run.marks.registered,
        Stage::Activate => !run.marks.activated,
    }
}

/// A run asks only for what it does not know.
proof fn lemma_asked_is_open(run: RebuildModel, stage: Stage)
    requires
        run.standing() == Standing::Asking(stage),
    ensures
        is_open(run, stage),
        run.failure is None,
{
}

/// What a run knows fits together after a reply, if it did before.
proof fn lemma_reply_keeps_form(run: RebuildModel, stage: Stage, reply: Reply)
    requires
        run.well_formed(),
        is_open(run, stage),
        run.fits(stage, reply),
    ensures
        run.learned(stage, reply).well_formed(),
{
    if let Reply::Search(answer) = reply {
        law_search_ends(run.search->0, answer);
        law_place_is_kept(run.search->0, run.installable->0, answer);
    }
    let next = run.learned(stage, reply);
    if (reply is Installable || reply is Text) && next.search is Some {
        let extra_args = encoded(run.args.extra_args.deep_view());
        let name = run.args.configuration.deep_view();
        let hostname = if run.args.configuration is Some {
            None
        } else {
            next.hostname
        };
        law_search_begins(next.installable->0, extra_args, name, hostname);
        law_place_is_kept_at_first(next.installable->0, extra_args, name, hostname);
    }
}

/// The four parts of the course follow on one another.
proof fn lemma_parts_are_in_order(run: RebuildModel)
    ensures
        run.preparing() matches Some(Standing::Asking(stage)) ==> stage.rank() <= 7,
        run.building() matches Some(Standing::Asking(stage)) ==> 8 <= stage.rank() <= 14,
        run.comparing() matches Some(Standing::Asking(stage)) ==> 15 <= stage.rank() <= 16,
        run.applying() matches Standing::Asking(stage) ==> 17 <= stage.rank(),
{
}

/// Before the build, who knows more is further on.
proof fn lemma_knowing_more_prepares(run: RebuildModel, next: RebuildModel, stage: Stage)
    requires
        run.preparing() == Some(Standing::Asking(stage)),
        next.args == run.args,
        marks_kept(run.marks, next.marks),
        kept(run.temp_dir, next.temp_dir),
        kept(run.installable, next.installable),
        kept(run.hostname, next.hostname),
        !is_open(next, stage),
    ensures
        next.preparing() matches Some(Standing::Asking(later)) ==> stage.rank() < later.rank(),
{
}

/// A step that is done is not open any more.
proof fn lemma_done_closes(run: RebuildModel, stage: Stage)
    requires
        run.fits(stage, Reply::Done),
    ensures
        !is_open(run.learned(stage, Reply::Done), stage),
{
}

/// A step whose question has been answered is not open any more.
proof fn lemma_flag_closes(run: RebuildModel, stage: Stage, flag: bool)
    requires
        run.fits(stage, Reply::Flag(flag)),
    ensures
        !is_open(run.learned(stage, Reply::Flag(flag)), stage),
{
}

/// A step whose path is known is not open any more.
proof fn lemma_path_closes(run: RebuildModel, stage: Stage, path: OsText)
    requires
        run.fits(stage, Reply::Path(path)),
    ensures
        !is_open(run.learned(stage, Reply::Path(path)), stage),
{
}

/// A step about which the run has been told is not open any more.
proof fn lemma_reply_closes(run: RebuildModel, stage: Stage, reply: Reply)
    requires
        run.fits(stage, reply),
        !(reply is Failed),
        !(stage is Search),
    ensures
        !is_open(run.learned(stage, reply), stage),
{
    match reply {
        Reply::Done => lemma_done_closes(run, stage),
        Reply::Flag(flag) => lemma_flag_closes(run, stage, flag),
        Reply::Path(path) => lemma_path_closes(run, stage, path),
        _ => {},
    }
}

/// A reply before the build leads on.
proof fn lemma_preparing_goes_forward(run: RebuildModel, stage: Stage, reply: Reply)
    requires
        run.failure is None,
        run.preparing() == Some(Standing::Asking(stage)),
        run.fits(stage, reply),
        !(reply is Failed),
    ensures
        run.learned(stage, reply).preparing() matches Some(Standing::Asking(next)) ==> stage.rank()
            < next.rank(),
{
    lemma_parts_are_in_order(run);
    lemma_asked_is_open(run, stage);
    lemma_reply_keeps(run, stage, reply);
    lemma_reply_closes(run, stage, reply);
    lemma_knowing_more_prepares(run, run.learned(stage, reply), stage);
}

/// A reply in the build leads on, and leaves what was prepared.
proof fn lemma_building_goes_forward(run: RebuildModel, stage: Stage, reply: Reply)
    requires
        run.preparing() is None,
        run.building() == Some(Standing::Asking(stage)),
        run.fits(stage, reply),
        !(reply is Failed),
    ensures
        run.learned(stage, reply).preparing() is None,
        run.learned(stage, reply).building() matches Some(Standing::Asking(next)) ==> {
            ||| stage.rank() < next.rank()
            ||| stage is Search && next is Search
        },
{
}

/// A reply about what the build changes leads on, and leaves what was built.
proof fn lemma_comparing_goes_forward(run: RebuildModel, stage: Stage, reply: Reply)
    requires
        run.preparing() is None,
        run.building() is None,
        run.comparing() == Some(Standing::Asking(stage)),
        run.fits(stage, reply),
    ensures
        run.learned(stage, reply).preparing() is None,
        run.learned(stage, reply).building() is None,
        run.learned(stage, reply).comparing() matches Some(Standing::Asking(next)) ==> stage.rank()
            < next.rank() || reply is Failed && !(stage is ShowDiff),
{
}

/// A step of the activation that is done leads on, and leaves what went before.
proof fn lemma_done_applies(run: RebuildModel, stage: Stage)
    requires
        run.preparing() is None,
        run.building() is None,
        run.comparing() is None,
        run.applying() == Standing::Asking(stage),
        run.fits(stage, Reply::Done),
    ensures
        run.learned(stage, Reply::Done).preparing() is None,
        run.learned(stage, Reply::Done).building() is None,
        run.learned(stage, Reply::Done).comparing() is None,
        run.learned(stage, Reply::Done).applying() matches Standing::Asking(next) ==> stage.rank()
            < next.rank(),
{
}

/// A step of the activation whose question has been answered leads on, and leaves
/// what went before.
proof fn lemma_flag_applies(run: RebuildModel, stage: Stage, flag: bool)
    requires
        run.preparing() is None,
        run.building() is None,
        run.comparing() is None,
        run.applying() == Standing::Asking(stage),
        run.fits(stage, Reply::Flag(flag)),
    ensures
        run.learned(stage, Reply::Flag(flag)).preparing() is None,
        run.learned(stage, Reply::Flag(flag)).building() is None,
        run.learned(stage, Reply::Flag(flag)).comparing() is None,
        run.learned(stage, Reply::Flag(flag)).applying() matches Standing::Asking(next) ==> stage.rank()
            < next.rank(),
{
}

/// A reply in the activation leads on, and leaves what went before.
proof fn lemma_applying_goes_forward(run: RebuildModel, stage: Stage, reply: Reply)
    requires
        run.preparing() is None,
        run.building() is None,
        run.comparing() is None,
        run.applying() == Standing::Asking(stage),
        run.fits(stage, reply),
        !(reply is Failed),
    ensures
        run.learned(stage, reply).preparing() is None,
        run.learned(stage, reply).building() is None,
        run.learned(stage, reply).comparing() is None,
        run.learned(stage, reply).applying() matches Standing::Asking(next) ==> stage.rank()
            < next.rank(),
{
    match reply {
        Reply::Done => lemma_done_applies(run, stage),
        Reply::Flag(flag) => lemma_flag_applies(run, stage, flag),
        _ => {},
    }
}

/// Law: a run goes through its course from the first step to the last: what it
/// asks for after a reply comes later than what it asked for before. Only the
/// search may go on asking, and each of its answers brings it nearer to its end.
/// So a run ends, whatever the replies.
pub proof fn law_run_goes_forward(run: RebuildModel, stage: Stage, reply: Reply)
    requires
        run.well_formed(),
        run.standing() == Standing::Asking(stage),
        run.takes(reply),
    ensures
        run.told(reply).well_formed(),
        run.told(reply).standing() matches Standing::Asking(next) ==> {
            ||| stage.rank() < next.rank()
            ||| {
                &&& stage is Search
                &&& next is Search
                &&& run.told(reply).search->0.effort() < run.search->0.effort()
            }
        },
{
    lemma_asked_is_open(run, stage);
    lemma_reply_keeps_form(run, stage, reply);
    let next = run.learned(stage, reply);
    assert(run.told(reply) == next);
    lemma_parts_are_in_order(run);
    lemma_parts_are_in_order(next);
    if reply is Failed && !(stage is ShowDiff) {
        assert(next.failure is Some);
    } else if run.preparing() is Some {
        lemma_preparing_goes_forward(run, stage, reply);
    } else if run.building() is Some {
        lemma_building_goes_forward(run, stage, reply);
        if let Reply::Search(answer) = reply {
            law_search_ends(run.search->0, answer);
        }
    } else if run.comparing() is Some {
        lemma_comparing_goes_forward(run, stage, reply);
    } else {
        lemma_applying_goes_forward(run, stage, reply);
    }
}

/// A run that is at its search has one, which needs one to six answers.
proof fn lemma_search_asks(run: RebuildModel)
    requires
        run.well_formed(),
    ensures
        run.standing() == Standing::Asking(Stage::Search) ==> 1 <= run.search->0.effort() <= 6,
{
}

/// A run that goes forward needs fewer replies.
proof fn lemma_effort_falls(
    stage: Stage,
    search: Option<ToplevelModel>,
    after: Standing,
    search_after: Option<ToplevelModel>,
)
    requires
        stage is Search ==> 1 <= search->0.effort() <= 6,
        after == Standing::Asking(Stage::Search) ==> 1 <= search_after->0.effort() <= 6,
        after matches Standing::Asking(next) ==> {
            ||| stage.rank() < next.rank()
            ||| stage is Search && next is Search && search_after->0.effort() < search->0.effort()
        },
    ensures
        effort_at(Standing::Asking(stage), search) <= 31,
        effort_at(after, search_after) < effort_at(Standing::Asking(stage), search),
        effort_at(after, search_after) == 0 ==> !(after is Asking),
{
}

/// Law: every reply brings a run nearer to its end, and no run needs more than
/// thirty-one.
pub proof fn law_run_ends(run: RebuildModel, reply: Reply)
    requires
        run.well_formed(),
        run.takes(reply),
    ensures
        run.effort() <= 31,
        run.told(reply).effort() < run.effort(),
        run.told(reply).effort() == 0 ==> !(run.told(reply).standing() is Asking),
{
    let stage = run.standing()->Asking_0;
    law_run_goes_forward(run, stage, reply);
    let next = run.told(reply);
    lemma_search_asks(run);
    lemma_search_asks(next);
    lemma_effort_falls(stage, run.search, next.standing(), next.search);
}

/// Law: what is built is in the place that the user named, below
/// `systemConfigs`.
pub proof fn law_build_is_what_was_asked_for(run: RebuildModel, stage: Stage)
    requires
        run.well_formed(),
        run.standing() == Standing::Asking(stage),
        stage is BuildRemotely || stage is BuildLocally,
    ensures
        run.installable is Some,
        keeps(ToplevelModel::Finished(Ok(run.toplevel())), run.installable->0),
{
}

/// Law: where nothing is to be activated, because the run only builds or is a
/// dry run, nothing that belongs to the activation is asked for: no target host
/// is probed for its user, nothing is copied and nothing is changed.
pub proof fn law_build_activates_nothing(run: RebuildModel, stage: Stage)
    requires
        run.standing() == Standing::Asking(stage),
        !run.applies(),
    ensures
        !stage.is_activation(),
{
}

/// The same run with other values of `--ask` and `--dry`.
pub open spec fn with_ask_and_dry(run: RebuildModel, ask: bool, dry: bool) -> RebuildModel {
    RebuildModel {
        args: SystemRebuildArgs {
            common: CommonRebuildArgs { ask, dry, ..run.args.common },
            ..run.args
        },
        ..run
    }
}

/// Law: `--ask` and `--dry` have no effect on a run that only builds: it stands
/// where it would without them, but for the remark that it makes at its end.
pub proof fn law_build_ignores_ask_and_dry(run: RebuildModel, ask: bool, dry: bool)
    requires
        run.variant is Build,
        run.standing() != Standing::Asking(Stage::NoteDryRun),
    ensures
        ({
            let other = with_ask_and_dry(run, ask, dry).standing();
            ||| other == run.standing()
            ||| run.standing() is Finished && other == Standing::Asking(Stage::NoteDryRun)
        }),
{
}

/// That something is done is taken alike, whatever `--ask` and `--dry` say.
proof fn lemma_done_ignores_ask_and_dry(run: RebuildModel, stage: Stage, ask: bool, dry: bool)
    ensures
        with_ask_and_dry(run, ask, dry).learned(stage, Reply::Done) == with_ask_and_dry(
            run.learned(stage, Reply::Done),
            ask,
            dry,
        ),
{
}

/// A yes or no is taken alike, whatever `--ask` and `--dry` say.
proof fn lemma_flag_ignores_ask_and_dry(run: RebuildModel, stage: Stage, flag: bool, ask: bool, dry: bool)
    ensures
        with_ask_and_dry(run, ask, dry).learned(stage, Reply::Flag(flag)) == with_ask_and_dry(
            run.learned(stage, Reply::Flag(flag)),
            ask,
            dry,
        ),
{
}

/// A path is taken alike, whatever `--ask` and `--dry` say.
proof fn lemma_path_ignores_ask_and_dry(run: RebuildModel, stage: Stage, path: OsText, ask: bool, dry: bool)
    ensures
        with_ask_and_dry(run, ask, dry).learned(stage, Reply::Path(path)) == with_ask_and_dry(
            run.learned(stage, Reply::Path(path)),
            ask,
            dry,
        ),
{
}

/// An answer is taken alike, whatever `--ask` and `--dry` say.
proof fn lemma_answer_ignores_ask_and_dry(run: RebuildModel, stage: Stage, answer: Answer, ask: bool, dry: bool)
    ensures
        with_ask_and_dry(run, ask, dry).learned(stage, Reply::Search(answer)) == with_ask_and_dry(
            run.learned(stage, Reply::Search(answer)),
            ask,
            dry,
        ),
{
}

/// A failure is taken alike, whatever `--ask` and `--dry` say.
proof fn lemma_failure_ignores_ask_and_dry(run: RebuildModel, stage: Stage, cause: String, ask: bool, dry: bool)
    ensures
        with_ask_and_dry(run, ask, dry).learned(stage, Reply::Failed(cause)) == with_ask_and_dry(
            run.learned(stage, Reply::Failed(cause)),
            ask,
            dry,
        ),
{
}

/// What a run makes of a reply has nothing to do with `--ask` and `--dry`.
proof fn lemma_replies_ignore_ask_and_dry(
    run: RebuildModel,
    stage: Stage,
    reply: Reply,
    ask: bool,
    dry: bool,
)
    ensures
        with_ask_and_dry(run, ask, dry).learned(stage, reply) == with_ask_and_dry(
            run.learned(stage, reply),
            ask,
            dry,
        ),
{
    match reply {
        Reply::Done => lemma_done_ignores_ask_and_dry(run, stage, ask, dry),
        Reply::Flag(flag) => lemma_flag_ignores_ask_and_dry(run, stage, flag, ask, dry),
        Reply::Path(path) => lemma_path_ignores_ask_and_dry(run, stage, path, ask, dry),
        Reply::Search(answer) => lemma_answer_ignores_ask_and_dry(run, stage, answer, ask, dry),
        Reply::Failed(cause) => lemma_failure_ignores_ask_and_dry(run, stage, cause, ask, dry),
        Reply::Installable(installable) => {
            lemma_preparation_ignores_ask_and_dry(
                RebuildModel { installable: Some(installable@), ..run },
                ask,
                dry,
            );
        },
        Reply::Text(name) => {
            lemma_preparation_ignores_ask_and_dry(
                RebuildModel { hostname: Some(name@), ..run },
                ask,
                dry,
            );
        },
        _ => {},
    }
}

/// How a search begins has nothing to do with `--ask` and `--dry`.
proof fn lemma_preparation_ignores_ask_and_dry(run: RebuildModel, ask: bool, dry: bool)
    ensures
        with_ask_and_dry(run, ask, dry).prepared() == with_ask_and_dry(run.prepared(), ask, dry),
{
}

/// Law: `--ask` and `--dry` have no effect on what a run that only builds makes of
/// a reply, nor on which replies it takes, unless the reply is to the remark.
pub proof fn law_build_ignores_ask_and_dry_in_replies(
    run: RebuildModel,
    reply: Reply,
    ask: bool,
    dry: bool,
)
    requires
        run.variant is Build,
        run.standing() != Standing::Asking(Stage::NoteDryRun),
        run.takes(reply),
    ensures
        with_ask_and_dry(run, ask, dry).takes(reply),
        with_ask_and_dry(run, ask, dry).told(reply) == with_ask_and_dry(run.told(reply), ask, dry),
{
    law_build_ignores_ask_and_dry(run, ask, dry);
    lemma_replies_ignore_ask_and_dry(run, run.standing()->Asking_0, reply, ask, dry);
}

/// Whether each of the replies is one to what the run asks for when it gets it.
pub open spec fn takes_all(run: RebuildModel, replies: Seq<Reply>) -> bool
    decreases replies.len(),
{
    replies.len() > 0 ==> run.takes(replies[0]) && takes_all(
        run.told(replies[0]),
        replies.drop_first(),
    )
}

/// The run, once it has been told all the replies, one after the other.
pub open spec fn told_all(run: RebuildModel, replies: Seq<Reply>) -> RebuildModel
    decreases replies.len(),
{
    if replies.len() == 0 {
        run
    } else {
        told_all(run.told(replies[0]), replies.drop_first())
    }
}

/// Law: the replies that take a run that only builds to some point take it to the
/// same point with `--ask` and `--dry`. So the two make the same requests up to
/// there, and where the one has done its work, so has the other, or it has only its
/// remark to make.
pub proof fn law_build_is_the_same_with_ask_and_dry(
    run: RebuildModel,
    replies: Seq<Reply>,
    ask: bool,
    dry: bool,
)
    requires
        run.variant is Build,
        !run.args.common.ask,
        takes_all(run, replies),
    ensures
        takes_all(with_ask_and_dry(run, ask, dry), replies),
        told_all(with_ask_and_dry(run, ask, dry), replies) == with_ask_and_dry(
            told_all(run, replies),
            ask,
            dry,
        ),
        ({
            let end = told_all(run, replies).standing();
            let other = told_all(with_ask_and_dry(run, ask, dry), replies).standing();
            ||| other == end
            ||| end is Finished && other == Standing::Asking(Stage::NoteDryRun)
        }),
{
    lemma_build_keeps_pace(run, replies, ask, dry);
    lemma_unasked_makes_no_remark(told_all(run, replies));
    law_build_ignores_ask_and_dry(told_all(run, replies), ask, dry);
}

/// One reply takes a run that only builds as far with `--ask` and `--dry` as without.
proof fn lemma_build_keeps_pace_once(run: RebuildModel, reply: Reply, ask: bool, dry: bool)
    requires
        run.variant is Build,
        !run.args.common.ask,
        run.takes(reply),
    ensures
        with_ask_and_dry(run, ask, dry).takes(reply),
        with_ask_and_dry(run, ask, dry).told(reply) == with_ask_and_dry(run.told(reply), ask, dry),
        run.told(reply).variant is Build,
        !run.told(reply).args.common.ask,
{
    lemma_unasked_makes_no_remark(run);
    law_build_ignores_ask_and_dry_in_replies(run, reply, ask, dry);
    law_knowledge_is_kept(run, reply);
}

/// Replies take a run that only builds as far with `--ask` and `--dry` as without.
proof fn lemma_build_keeps_pace(
    run: RebuildModel,
    replies: Seq<Reply>,
    ask: bool,
    dry: bool,
)
    requires
        run.variant is Build,
        !run.args.common.ask,
        takes_all(run, replies),
    ensures
        takes_all(with_ask_and_dry(run, ask, dry), replies),
        told_all(with_ask_and_dry(run, ask, dry), replies) == with_ask_and_dry(
            told_all(run, replies),
            ask,
            dry,
        ),
        told_all(run, replies).variant is Build,
        !told_all(run, replies).args.common.ask,
    decreases replies.len(),
{
    if replies.len() > 0 {
        lemma_build_keeps_pace_once(run, replies[0], ask, dry);
        lemma_build_keeps_pace(run.told(replies[0]), replies.drop_first(), ask, dry);
    }
}

/// A run that was not to ask makes no remark about it.
proof fn lemma_unasked_makes_no_remark(run: RebuildModel)
    requires
        !run.args.common.ask,
    ensures
        run.standing() != Standing::Asking(Stage::NoteDryRun),
{
}

/// Law: where the user wants to be asked, no host is changed before they agreed.
pub proof fn law_user_agrees_first(run: RebuildModel, stage: Stage)
    requires
        run.standing() == Standing::Asking(stage),
        run.args.common.ask,
        stage.changes_a_host(),
    ensures
        run.marks.confirmed == Some(true),
{
}

/// Law: a user who does not agree ends the run, with nothing changed.
pub proof fn law_user_can_decline(run: RebuildModel)
    requires
        run.standing() == Standing::Asking(Stage::Confirm),
    ensures
        run.told(Reply::Flag(false)).standing() == Standing::Failed(ErrorModel::Rejected),
{
}

/// Law: on the target host a build is activated only when the host has it,
/// because it was copied there or was made there, and when it has been found
/// complete there.
pub proof fn law_target_has_the_build_first(run: RebuildModel)
    requires
        run.standing() == Standing::Asking(Stage::ActivateRemotely),
    ensures
        run.args.target_host is Some,
        run.marks.copied || run.already_on_target(),
        run.marks.validated,
{
}

/// Law: a build is copied to the target host only where that host did not make it.
pub proof fn law_nothing_is_copied_to_where_it_was_made(run: RebuildModel)
    requires
        run.standing() == Standing::Asking(Stage::CopyClosure),
    ensures
        !run.already_on_target(),
{
}

/// Law: a store path is built already: it is neither searched for nor built, and
/// what is made of it is the path that it stands for.
pub proof fn law_store_path_is_not_built(run: RebuildModel, stage: Stage)
    requires
        run.standing() == Standing::Asking(stage),
        run.given_store_path(),
    ensures
        !(stage is Search),
        !(stage is BuildRemotely),
        !(stage is BuildLocally),
        !(stage is ResolveOutLink),
        stage is ResolveStorePath ==> run.needs(stage) == (RequestModel::Canonicalize {
            path: run.installable->0->Store_path,
        }),
{
}

/// Law: here a build is registered only if it has an engine and is for this
/// host, and is activated only when it has been registered.
pub proof fn law_registered_before_activated(run: RebuildModel, stage: Stage)
    requires
        run.standing() == Standing::Asking(stage),
        stage is Register || stage is Activate,
    ensures
        run.args.target_host is None,
        run.marks.engine_exists == Some(true),
        stage is Activate ==> run.marks.registered,
{
}

/// Law: root gets nothing done without leave: a run that root begins has failed
/// before it asks for anything.
pub proof fn law_root_is_refused(
    args: SystemRebuildArgs,
    variant: SystemRebuildVariant,
    elevation: ElevationStrategy,
)
    requires
        !args.bypass_root_check,
    ensures
        rebuild_begun(args, variant, elevation, 0).standing() == Standing::Failed(
            ErrorModel::RunningAsRoot,
        ),
{
}

/// Law: a run that asks for anything is not one of root's, or has leave to be.
pub proof fn law_only_others_than_root_ask(run: RebuildModel, stage: Stage)
    requires
        run.standing() == Standing::Asking(stage),
    ensures
        run.uid != 0 || run.args.bypass_root_check,
{
}

/// Law: who the user is on the target host is asked only where the answer
/// matters: there is a target host, something is activated on it, and more
/// privileges are to be had.
pub proof fn law_uid_is_probed_only_where_it_matters(run: RebuildModel)
    requires
        run.standing() == Standing::Asking(Stage::ProbeUid),
    ensures
        run.args.target_host is Some,
        run.applies(),
        !(run.elevation is Disabled),
{
}

/// Law: the target host gets more privileges exactly where they are to be had
/// and its user is not root, and then by the strategy that the command was given.
pub proof fn law_only_others_than_root_are_elevated(run: RebuildModel)
    requires
        run.standing() == Standing::Asking(Stage::ActivateRemotely),
    ensures
        run.needs(Stage::ActivateRemotely) matches RequestModel::ActivateRemotely { config, .. }
            && config.elevation == (if !(run.elevation is Disabled) && run.marks.target_uid is Some
            && run.marks.target_uid != Some(0u32) {
            Some(run.elevation)
        } else {
            None
        }),
{
}

/// Law: every run of the engine here is elevated by the strategy that the command
/// was given.
pub proof fn law_engine_is_elevated_as_asked(run: RebuildModel, stage: Stage)
    requires
        run.standing() == Standing::Asking(stage),
        stage is Register || stage is Activate,
    ensures
        run.needs(stage) matches RequestModel::RunEngine(engine) && engine.elevation == Some(
            run.elevation,
        ),
{
}

/// Law: a named configuration makes the name of the host irrelevant.
pub proof fn law_named_configuration_needs_no_hostname(run: RebuildModel)
    requires
        run.args.configuration is Some,
    ensures
        run.standing() != Standing::Asking(Stage::FindHostname),
{
}

/// Law: a run without other hosts asks for no login, no connection and nothing
/// on another host.
pub proof fn law_local_run_stays_here(run: RebuildModel, stage: Stage)
    requires
        run.standing() == Standing::Asking(stage),
        !run.args.involves_remote(),
    ensures
        !(stage is CheckSsh),
        !(stage is InitSsh),
        !(stage is ConnectBuildHost),
        !(stage is ConnectTargetHost),
        !(stage is BuildRemotely),
        !(stage is ProbeUid),
        !(stage is CopyClosure),
        !(stage is ValidateClosure),
        !(stage is ActivateRemotely),
{
}

/// Law: what fails outside ends the run and is reported as what it was, with its
/// reason.
pub proof fn law_failure_ends_the_run(run: RebuildModel, stage: Stage, cause: String)
    requires
        run.standing() == Standing::Asking(stage),
        run.takes(Reply::Failed(cause)),
        !(stage is ShowDiff),
    ensures
        run.told(Reply::Failed(cause)).standing() == Standing::Failed(
            ErrorModel::Failed { context: stage.reported_as(), cause: cause@ },
        ),
{
}

/// Law: it makes no difference whether the user could be shown what the build
/// changes.
pub proof fn law_diff_cannot_fail_the_run(run: RebuildModel, cause: String)
    requires
        run.standing() == Standing::Asking(Stage::ShowDiff),
    ensures
        run.told(Reply::Failed(cause)) == run.told(Reply::Done),
{
}

/// Law: a run that has done its work has a build; and where it was to be
/// activated, the target host found it complete and activated it, or, without a
/// target host, it was registered and activated here.
pub proof fn law_success_means_done(run: RebuildModel)
    requires
        run.standing() is Finished,
    ensures
        run.store_path is Some,
        run.applies() && run.args.target_host is Some ==> run.marks.validated
            && run.marks.activated_remotely,
        run.applies() && run.args.target_host is None ==> run.marks.engine_exists == Some(true)
            && run.marks.registered && run.marks.activated,
        run.applies() && run.args.common.ask ==> run.marks.confirmed == Some(true),
{
}

/// Whether what is known in `before` is known in `after` too, and the same.
pub open spec fn kept<T>(before: Option<T>, after: Option<T>) -> bool {
    before is Some ==> after == before
}

/// Whether all that is marked in `before` is marked in `after` too, and the same.
pub open spec fn marks_kept(before: Marks, after: Marks) -> bool {
    &&& before.ssh_login_works ==> after.ssh_login_works
    &&& before.inputs_updated ==> after.inputs_updated
    &&& before.ssh_initialised ==> after.ssh_initialised
    &&& before.build_host_connected ==> after.build_host_connected
    &&& before.target_host_connected ==> after.target_host_connected
    &&& before.configuration_noted ==> after.configuration_noted
    &&& before.remote_build_noted ==> after.remote_build_noted
    &&& before.built_here ==> after.built_here
    &&& kept(before.profile_exists, after.profile_exists)
    &&& before.diff_shown ==> after.diff_shown
    &&& before.dry_run_noted ==> after.dry_run_noted
    &&& kept(before.target_uid, after.target_uid)
    &&& kept(before.confirmed, after.confirmed)
    &&& before.copied ==> after.copied
    &&& before.validated ==> after.validated
    &&& kept(before.engine_exists, after.engine_exists)
    &&& before.activated_remotely ==> after.activated_remotely
    &&& before.registered ==> after.registered
    &&& before.activated ==> after.activated
}

/// A reply at a step whose subject is not known takes nothing back.
proof fn lemma_reply_keeps(run: RebuildModel, stage: Stage, reply: Reply)
    requires
        is_open(run, stage),
        run.fits(stage, reply),
    ensures
        marks_kept(run.marks, run.learned(stage, reply).marks),
        kept(run.temp_dir, run.learned(stage, reply).temp_dir),
        kept(run.installable, run.learned(stage, reply).installable),
        kept(run.hostname, run.learned(stage, reply).hostname),
        kept(run.store_path, run.learned(stage, reply).store_path),
{
}

/// Law: a reply never takes back what a run knows, nor what it was begun with.
pub proof fn law_knowledge_is_kept(run: RebuildModel, reply: Reply)
    requires
        run.takes(reply),
    ensures
        run.told(reply).args == run.args,
        run.told(reply).variant == run.variant,
        run.told(reply).elevation == run.elevation,
        run.told(reply).uid == run.uid,
        marks_kept(run.marks, run.told(reply).marks),
        kept(run.temp_dir, run.told(reply).temp_dir),
        kept(run.installable, run.told(reply).installable),
        kept(run.hostname, run.told(reply).hostname),
        kept(run.store_path, run.told(reply).store_path),
{
    let stage = run.standing()->Asking_0;
    lemma_asked_is_open(run, stage);
    lemma_reply_keeps(run, stage, reply);
}

} // verus!
