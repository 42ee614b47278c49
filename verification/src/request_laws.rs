//! What every request of `nh system switch` and `nh system build` says, in terms of
//! what the user asked for and what has been found out.

use crate::args::{ElevationStrategy, SystemRebuildArgs};
use crate::installable::{InstallableModel, SourceModel};
use crate::os_text::{displayed, encoded, path_joined};
use crate::protocol::{
    ActivationType, HostRole, Notice, Platform, Reply, RequestModel,
};
use crate::rebuild::{rebuild_begun, RebuildModel, Stage, Standing, SystemRebuildVariant};
use crate::toplevel::{begun, ToplevelModel};
use crate::toplevel_laws::{answered, law_path_to_a_configuration_is_taken, law_search_stays_over};
use vstd::prelude::*;
use vstd::utf8::encode_utf8;

verus! {

/// Law: what is built, here or by another host, is what the search found, place and
/// path alike.
pub proof fn law_what_was_found_is_built(run: RebuildModel, resolved: InstallableModel)
    requires
        run.search == Some(ToplevelModel::Finished(Ok(resolved))),
    ensures
        run.needs(Stage::BuildLocally) matches RequestModel::BuildLocally { toplevel, .. }
            && toplevel == resolved,
        run.needs(Stage::BuildRemotely) matches RequestModel::BuildRemotely { toplevel, .. }
            && toplevel == resolved,
{
}

/// The search for what the user asked for, at its beginning.
pub open spec fn asked_search(run: RebuildModel) -> ToplevelModel {
    begun(
        run.installable->0,
        encoded(run.args.extra_args.deep_view()),
        run.args.configuration.deep_view(),
        if run.args.configuration is Some {
            None
        } else {
            run.hostname
        },
    )
}

/// Whether the search of a run is the one for what the user asked for, as far as it
/// has been answered.
pub open spec fn searches_as_asked(run: RebuildModel) -> bool {
    run.search matches Some(search) ==> exists|answers|
        search == #[trigger] answered(asked_search(run), answers)
}

/// Law: a run that has found out nothing has no search yet.
pub proof fn law_run_begins_without_a_search(
    args: SystemRebuildArgs,
    variant: SystemRebuildVariant,
    elevation: ElevationStrategy,
    uid: u32,
)
    ensures
        searches_as_asked(rebuild_begun(args, variant, elevation, uid)),
        rebuild_begun(args, variant, elevation, uid).search is None,
{
}

/// A reply at the given step leaves the search one for what the user asked for.
proof fn lemma_reply_keeps_the_search(run: RebuildModel, stage: Stage, reply: Reply)
    requires
        run.searches(),
        searches_as_asked(run),
        run.fits(stage, reply),
        stage is ResolveInstallable || stage is FindHostname ==> run.search is None,
        stage is Search ==> run.search is Some,
    ensures
        searches_as_asked(run.learned(stage, reply)),
{
    let next = run.learned(stage, reply);
    match reply {
        Reply::Search(answer) => {
            let answers = choose|answers| run.search->0 == #[trigger] answered(
                asked_search(run),
                answers,
            );
            assert(answers.push(answer).drop_last() =~= answers);
            assert(next.search->0 == answered(asked_search(next), answers.push(answer)));
        },
        Reply::Installable(_) => {
            if next.search is Some {
                assert(next.search->0 == answered(asked_search(next), seq![]));
            }
        },
        Reply::Text(_) => {
            if next.search is Some {
                assert(next.search->0 == answered(asked_search(next), seq![]));
            }
        },
        Reply::Failed(_) => {
            assert(asked_search(next) == asked_search(run));
        },
        _ => {
            assert(asked_search(next) == asked_search(run));
        },
    }
}

/// Law: the search of a run is the one for what the user asked for, at every step.
pub proof fn law_run_searches_as_asked(run: RebuildModel, reply: Reply)
    requires
        run.searches(),
        searches_as_asked(run),
        run.takes(reply),
    ensures
        searches_as_asked(run.told(reply)),
{
    let stage = run.standing()->Asking_0;
    lemma_search_comes_in_time(run, stage);
    lemma_reply_keeps_the_search(run, stage, reply);
}

/// A run has no search before it knows what is searched and by what name, and has one
/// when it asks for answers to it.
proof fn lemma_search_comes_in_time(run: RebuildModel, stage: Stage)
    requires
        run.searches(),
        run.standing() == Standing::Asking(stage),
    ensures
        stage is ResolveInstallable || stage is FindHostname ==> run.search is None,
        stage is Search ==> run.search is Some,
{
}

/// Law: where the user names a configuration by its attribute path, that is what is
/// built, with `systemConfigs` in front where the user left it out: nothing that was
/// found out on the way can change it.
pub proof fn law_named_path_is_built(
    run: RebuildModel,
    stage: Stage,
    source: SourceModel,
    given: Seq<Seq<char>>,
)
    requires
        run.searches(),
        searches_as_asked(run),
        run.standing() == Standing::Asking(stage),
        stage is BuildLocally || stage is BuildRemotely,
        run.args.configuration is None,
        run.installable == Some(source.at(given)),
        given.len() > 0,
        given[0] == "systemConfigs"@ ==> 2 <= given.len() <= 3,
        given[0] != "systemConfigs"@ ==> given.len() <= 2,
    ensures
        ({
            let asked = source.at(
                if given[0] == "systemConfigs"@ {
                    given
                } else {
                    seq!["systemConfigs"@] + given
                },
            );
            &&& run.needs(Stage::BuildLocally) matches RequestModel::BuildLocally { toplevel, .. }
                && toplevel == asked
            &&& run.needs(Stage::BuildRemotely) matches RequestModel::BuildRemotely {
                toplevel,
                ..
            } && toplevel == asked
        }),
{
    lemma_build_comes_after_the_search(run, stage);
    let answers = choose|answers| run.search->0 == #[trigger] answered(asked_search(run), answers);
    law_path_to_a_configuration_is_taken(
        source,
        given,
        encoded(run.args.extra_args.deep_view()),
        run.hostname,
    );
    let asked = source.at(
        if given[0] == "systemConfigs"@ {
            given
        } else {
            seq!["systemConfigs"@] + given
        },
    );
    assert(asked_search(run) == ToplevelModel::Finished(Ok(asked)));
    law_search_stays_over(Ok(asked), answers);
    law_what_was_found_is_built(run, asked);
}

/// A run builds when its search is over.
proof fn lemma_build_comes_after_the_search(run: RebuildModel, stage: Stage)
    requires
        run.searches(),
        run.standing() == Standing::Asking(stage),
        stage is BuildLocally || stage is BuildRemotely,
    ensures
        run.search is Some,
{
}

/// Law: the name by which a configuration is looked for is that of the host that it is
/// for: the target host's, if there is one, else that of this host. Which host builds
/// does not matter: two runs with the same target host ask for the same name.
pub proof fn law_hostname_is_that_of_the_target(run: RebuildModel, other: RebuildModel)
    ensures
        run.args.target_host matches Some(target) ==> run.needs(Stage::FindHostname) == (
        RequestModel::Hostname { host: Some(target.hostname@) }),
        run.args.target_host is None ==> run.needs(Stage::FindHostname) == (
        RequestModel::Hostname { host: None }),
        run.args.target_host == other.args.target_host ==> run.needs(Stage::FindHostname)
            == other.needs(Stage::FindHostname),
{
}

/// Law: the link to a build is left where the user wants it, or else as `result` in
/// the temporary directory.
pub proof fn law_link_is_left_where_the_user_wants_it(run: RebuildModel, dir: Seq<u8>)
    ensures
        run.args.common.out_link matches Some(path) ==> run.out_path() == path@,
        run.args.common.out_link is None && run.temp_dir == Some(dir) ==> run.out_path()
            == path_joined(dir, encode_utf8("result"@)),
{
}

/// Law: a build here is told where to leave its link and then all that the user wants
/// handed on, in the user's order; it is shown as the user wants it.
pub proof fn law_local_build_gets_what_the_user_gave(run: RebuildModel)
    ensures
        run.needs(Stage::BuildLocally) matches RequestModel::BuildLocally {
            extra_args,
            use_nom,
            message,
            ..
        } && {
            &&& extra_args.len() == run.args.extra_args.len() + 2
            &&& extra_args[0] == encode_utf8("--out-link"@)
            &&& extra_args[1] == run.out_path()
            &&& forall|i: int|
                0 <= i < run.args.extra_args.len() ==> #[trigger] extra_args[i + 2] == encode_utf8(
                    run.args.extra_args[i]@,
                )
            &&& use_nom <==> !run.args.common.no_nom
            &&& message == "Building System Manager configuration"@
        },
{
    let given = run.args.extra_args.deep_view();
    assert forall|i: int| 0 <= i < given.len() implies #[trigger] run.needs(
        Stage::BuildLocally,
    )->BuildLocally_extra_args[i + 2] == encode_utf8(given[i]) by {
        assert(encoded(given)[i] == encode_utf8(given[i]));
    }
}

/// Law: a build by another host gets all that the user wants handed on, first what the
/// user wrote and then the options for such builds; evaluation gets its own options;
/// it may fetch where it is to and nothing keeps Nix from the network.
pub proof fn law_remote_build_gets_what_the_user_gave(run: RebuildModel)
    ensures
        run.needs(Stage::BuildRemotely) matches RequestModel::BuildRemotely {
            use_nom,
            use_substitutes,
            execution_args,
            out_link,
            evaluation_args,
            ..
        } && {
            &&& execution_args == encoded(run.args.extra_args.deep_view())
                + run.args.common.passthrough.remote_build_args.deep_view()
            &&& evaluation_args == run.args.common.passthrough.evaluation_args.deep_view()
            &&& out_link == run.out_path()
            &&& use_nom <==> !run.args.common.no_nom
            &&& use_substitutes <==> run.args.common.passthrough.use_substitutes
                && !run.args.common.passthrough.network_restricted
        },
{
}

/// Law: what is prepared before a build is asked for by the user's own words: inputs
/// are updated in what is built, those that the user listed or all; and each
/// connection is to the host that the step is about.
pub proof fn law_preparations_are_the_user_s(run: RebuildModel, installable: InstallableModel)
    requires
        run.installable == Some(installable),
    ensures
        run.needs(Stage::CheckSsh) is SshKeyLogin,
        run.needs(Stage::MakeTempDir) == (RequestModel::TemporaryDirectory {
            prefix: "nh-system"@,
        }),
        run.needs(Stage::ResolveInstallable) is ResolveInstallable,
        run.needs(Stage::UpdateInputs) == (RequestModel::UpdateInputs {
            installable,
            inputs: run.args.update_args.update_input.deep_view(),
        }),
        run.needs(Stage::InitSsh) is InitSshControl,
        run.needs(Stage::ConnectBuildHost) == RequestModel::OpenSshMaster(HostRole::Build),
        run.needs(Stage::ConnectTargetHost) == RequestModel::OpenSshMaster(HostRole::Target),
{
}

/// Law: what a search asks is handed on as it asks it.
pub proof fn law_search_is_asked_through_the_run(run: RebuildModel, search: ToplevelModel)
    requires
        run.search == Some(search),
        search.question() is Some,
    ensures
        run.needs(Stage::Search) matches RequestModel::Search(query) && Some(query)
            == search.question(),
{
}

/// Law: every remark is made at its own step.
pub proof fn law_remarks_are_made_in_their_place(run: RebuildModel)
    ensures
        run.needs(Stage::NoteConfiguration) == RequestModel::Notify(
            Notice::StorePathIgnoresConfiguration,
        ),
        run.needs(Stage::NoteRemoteBuild) == RequestModel::Notify(Notice::BuildingRemotely),
        run.needs(Stage::NoteDryRun) == RequestModel::Notify(Notice::DryRunIgnoresAsk),
{
}

/// Law: the build is compared with the profile, the profile first.
pub proof fn law_build_is_compared_with_the_profile(run: RebuildModel, store_path: Seq<u8>)
    requires
        run.store_path == Some(store_path),
    ensures
        run.needs(Stage::CheckProfile) == (RequestModel::PathExists {
            path: encode_utf8("/nix/var/nix/profiles/system-manager-profiles/system-manager"@),
        }),
        run.needs(Stage::ShowDiff) == (RequestModel::ShowDiff {
            old: encode_utf8("/nix/var/nix/profiles/system-manager-profiles/system-manager"@),
            new: store_path,
        }),
{
}

/// Law: the build is the path that the user's store path, or else the link, stands
/// for.
pub proof fn law_path_is_resolved_as_given(run: RebuildModel, given: Seq<u8>)
    ensures
        run.installable == Some(InstallableModel::Store { path: given }) ==> run.needs(
            Stage::ResolveStorePath,
        ) == (RequestModel::Canonicalize { path: given }),
        run.needs(Stage::ResolveOutLink) == (RequestModel::Canonicalize { path: run.out_path() }),
{
}

/// Law: a user who is asked has to agree in so many words: no answer is none.
pub proof fn law_user_is_asked_to_agree(run: RebuildModel)
    ensures
        run.needs(Stage::ProbeUid) is RemoteUid,
        run.needs(Stage::Confirm) matches RequestModel::Confirm { prompt, default_answer }
            && prompt == "Apply the config?"@ && !default_answer,
{
}

/// Law: what is copied to the target host and looked over there is the build, with its
/// engine; where another host made it, the target's user is told which.
pub proof fn law_target_gets_the_build(run: RebuildModel, store_path: Seq<u8>)
    requires
        run.store_path == Some(store_path),
    ensures
        run.needs(Stage::CopyClosure) matches RequestModel::CopyToTarget {
            store_path: copied,
            use_substitutes,
            evaluation_args,
        } && {
            &&& copied == store_path
            &&& use_substitutes <==> run.args.common.passthrough.use_substitutes
                && !run.args.common.passthrough.network_restricted
            &&& evaluation_args == run.args.common.passthrough.evaluation_args.deep_view()
        },
        run.needs(Stage::ValidateClosure) matches RequestModel::ValidateOnTarget {
            store_path: checked,
            file,
            description,
            provenance,
        } && {
            &&& checked == store_path
            &&& file == "bin/system-manager-engine"@
            &&& description == "system-manager engine"@
            &&& run.args.build_host is None ==> provenance is None
            &&& run.args.build_host matches Some(host) ==> provenance == Some(
                "built on '"@ + host.text@ + "'"@,
            )
        },
{
}

/// Law: what is activated is the build: on the target host, where there is one, as the
/// user wants it, with more privileges exactly where they are to be had and the user
/// there is known and not root.
pub proof fn law_target_activates_the_build(run: RebuildModel, store_path: Seq<u8>)
    requires
        run.store_path == Some(store_path),
        run.args.target_host is Some,
    ensures
        run.needs(Stage::ActivateRemotely) matches RequestModel::ActivateRemotely {
            store_path: activated,
            config,
        } && {
            &&& activated == store_path
            &&& config.platform == Platform::SystemManager
            &&& config.activation_type == ActivationType::Switch
            &&& !config.install_bootloader
            &&& config.ephemeral <==> run.args.ephemeral
            &&& config.show_logs <==> run.args.show_activation_logs
            &&& config.elevation == (if run.elevation == ElevationStrategy::Elevate
                && run.marks.target_uid is Some && run.marks.target_uid != Some(0u32) {
                Some(run.elevation)
            } else {
                None
            })
        },
{
}

/// Law: without a target host the engine inside the build is looked for, and it is the
/// one that registers the build and activates it; it gets the path of the build, and
/// learns that the activation is not to last exactly if the user said so.
pub proof fn law_engine_of_the_build_activates_it(run: RebuildModel, store_path: Seq<u8>)
    requires
        run.store_path == Some(store_path),
        run.args.target_host is None,
    ensures
        ({
            let engine = path_joined(store_path, encode_utf8("bin/system-manager-engine"@));
            &&& run.needs(Stage::CheckEngine) == (RequestModel::TryExists { path: engine })
            &&& run.needs(Stage::Register) matches RequestModel::RunEngine(register) && {
                &&& register.engine == engine
                &&& register.args == seq!["register"@, "--store-path"@, displayed(store_path)]
                &&& register.elevation == Some(run.elevation)
                &&& register.show_output <==> run.args.show_activation_logs
                &&& register.message == "Registering System Manager profile"@
            }
            &&& run.needs(Stage::Activate) matches RequestModel::RunEngine(activate) && {
                &&& activate.engine == engine
                &&& activate.args.take(3) == seq![
                    "activate"@,
                    "--store-path"@,
                    displayed(store_path),
                ]
                &&& run.args.ephemeral ==> activate.args.skip(3) == seq!["--ephemeral"@]
                &&& !run.args.ephemeral ==> activate.args.len() == 3
                &&& activate.elevation == Some(run.elevation)
                &&& activate.show_output <==> run.args.show_activation_logs
                &&& activate.message == "Activating System Manager profile"@
            }
        }),
{
    let activate = run.needs(Stage::Activate)->RunEngine_0;
    assert(activate.args.take(3) =~= seq!["activate"@, "--store-path"@, displayed(store_path)]);
    if run.args.ephemeral {
        assert(activate.args.skip(3) =~= seq!["--ephemeral"@]);
    }
}

} // verus!
