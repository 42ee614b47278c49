use nh_system::args::{
    CommonRebuildArgs, DiffType, ElevationStrategy, Passthrough, RemoteHost, SystemRebuildArgs,
    UpdateArgs,
};
use nh_system::error::{Context, Error};
use nh_system::installable::Installable;
use nh_system::nix::{NixOutput, NixRun};
use nh_system::os_text::OsText;
use nh_system::protocol::{
    ActivationType, EngineRun, HostRole, Notice, Platform, RemoteActivation, Reply, Request,
};
use nh_system::rebuild::{Rebuild, SystemRebuildVariant};
use nh_system::toplevel::{Answer, Query};

const PROFILE: &str = "/nix/var/nix/profiles/system-manager-profiles/system-manager";

fn os(text: &str) -> OsText {
    OsText::from_text(text)
}

fn texts(list: &[&str]) -> Vec<OsText> {
    list.iter().map(|text| os(text)).collect()
}

fn host(text: &str, hostname: &str) -> Option<RemoteHost> {
    Some(RemoteHost { text: text.to_string(), hostname: hostname.to_string() })
}

/// Arguments as the command line has them when nothing is said.
fn plain() -> SystemRebuildArgs {
    SystemRebuildArgs {
        common: CommonRebuildArgs {
            ask: false,
            dry: false,
            no_nom: false,
            diff: DiffType::Shown,
            out_link: None,
            installable: None,
            passthrough: Passthrough {
                use_substitutes: true,
                network_restricted: false,
                remote_build_args: texts(&["--keep-going"]),
                evaluation_args: texts(&["--impure"]),
            },
        },
        update_args: UpdateArgs { update_all: false, update_input: None },
        configuration: None,
        extra_args: vec![String::from("-L")],
        bypass_root_check: false,
        ephemeral: false,
        show_activation_logs: false,
        build_host: None,
        target_host: None,
    }
}

fn flake(attribute: &[&str]) -> Installable {
    Installable::Flake {
        reference: String::from("."),
        attribute: attribute.iter().map(|segment| segment.to_string()).collect(),
    }
}

/// The outside, where all goes well.
struct World {
    installable: Installable,
    profile_exists: bool,
    uid: u32,
    agrees: bool,
    engine_exists: bool,
}

fn world() -> World {
    World {
        installable: flake(&["default"]),
        profile_exists: true,
        uid: 1000,
        agrees: true,
        engine_exists: true,
    }
}

impl World {
    fn reply(&self, request: &Request) -> Reply {
        match request {
            Request::TemporaryDirectory { .. } => Reply::Path(os("/tmp/nh-system-1")),
            Request::ResolveInstallable => Reply::Installable(self.installable.clone()),
            Request::Hostname { host } => {
                Reply::Text(host.clone().unwrap_or_else(|| String::from("here")))
            }
            Request::Canonicalize { .. } => Reply::Path(os("/nix/store/system")),
            Request::Search(Query::ParseAttribute(name)) => {
                Reply::Search(Answer::Parsed(Ok(vec![name.clone()])))
            }
            Request::Search(Query::Nix(_)) => {
                Reply::Search(Answer::Nix(NixRun::Ran(NixOutput {
                    success: true,
                    status: String::from("0"),
                    stdout: b"true\n".to_vec(),
                    stderr: Vec::new(),
                })))
            }
            Request::BuildRemotely { .. } => Reply::Path(os("/nix/store/system")),
            Request::PathExists { .. } => Reply::Flag(self.profile_exists),
            Request::RemoteUid => Reply::Uid(self.uid),
            Request::Confirm { .. } => Reply::Flag(self.agrees),
            Request::TryExists { .. } => Reply::Flag(self.engine_exists),
            _ => Reply::Done,
        }
    }
}

/// Drives a run to its end; what `fails` says of a request fails.
fn drive_with(
    mut run: Rebuild,
    world: &World,
    fails: fn(&Request) -> bool,
) -> (Vec<Request>, Result<(), Error>) {
    let mut asked = Vec::new();
    while let Some(request) = run.request() {
        let reply = if fails(&request) {
            Reply::Failed(String::from("broken"))
        } else {
            world.reply(&request)
        };
        assert!(run.accepts(&reply), "{request:?} {reply:?}");
        asked.push(request);
        run = run.resume(reply);
    }
    (asked, run.outcome().expect("the run should be over"))
}

fn drive(run: Rebuild, world: &World) -> (Vec<Request>, Result<(), Error>) {
    drive_with(run, world, |_| false)
}

fn switch(args: SystemRebuildArgs) -> Rebuild {
    args.rebuild_as(SystemRebuildVariant::Switch, ElevationStrategy::Elevate, 1000)
}

fn build(args: SystemRebuildArgs) -> Rebuild {
    args.rebuild_as(SystemRebuildVariant::Build, ElevationStrategy::Elevate, 1000)
}

fn engine_run(args: &[&str], message: &str) -> Request {
    Request::RunEngine(EngineRun {
        engine: os("/nix/store/system/bin/system-manager-engine"),
        args: args.iter().map(|arg| arg.to_string()).collect(),
        elevation: Some(ElevationStrategy::Elevate),
        show_output: false,
        message: message.to_string(),
    })
}

/// What is asked for up to the build of a flake's `default` here.
fn requests_of_local_build() -> Vec<Request> {
    vec![
        Request::TemporaryDirectory { prefix: String::from("nh-system") },
        Request::ResolveInstallable,
        Request::Hostname { host: None },
        Request::BuildLocally {
            toplevel: flake(&["systemConfigs", "default"]),
            extra_args: texts(&["--out-link", "/tmp/nh-system-1/result", "-L"]),
            use_nom: true,
            message: String::from("Building System Manager configuration"),
        },
        Request::Canonicalize { path: os("/tmp/nh-system-1/result") },
        Request::PathExists { path: os(PROFILE) },
        Request::ShowDiff { old: os(PROFILE), new: os("/nix/store/system") },
    ]
}

fn position(asked: &[Request], wanted: fn(&Request) -> bool) -> Option<usize> {
    asked.iter().position(wanted)
}

#[test]
fn a_local_switch_builds_registers_and_activates() {
    let (asked, result) = drive(switch(plain()), &world());
    let mut expected = requests_of_local_build();
    expected.push(Request::TryExists {
        path: os("/nix/store/system/bin/system-manager-engine"),
    });
    expected.push(engine_run(
        &["register", "--store-path", "/nix/store/system"],
        "Registering System Manager profile",
    ));
    expected.push(engine_run(
        &["activate", "--store-path", "/nix/store/system"],
        "Activating System Manager profile",
    ));
    assert_eq!(asked, expected);
    assert_eq!(result, Ok(()));
}

#[test]
fn a_build_activates_nothing() {
    let (asked, result) = drive(build(plain()), &world());
    assert_eq!(asked, requests_of_local_build());
    assert_eq!(result, Ok(()));
}

#[test]
fn a_dry_run_activates_nothing_and_asks_nobody() {
    let mut args = plain();
    args.common.dry = true;
    args.common.ask = true;
    let (asked, result) = drive(switch(args), &world());
    let mut expected = requests_of_local_build();
    expected.push(Request::Notify(Notice::DryRunIgnoresAsk));
    assert_eq!(asked, expected);
    assert_eq!(result, Ok(()));
    assert_eq!(
        Notice::DryRunIgnoresAsk.message(),
        "--ask has no effect as dry run was requested"
    );
}

#[test]
fn a_build_ignores_dry() {
    let mut args = plain();
    args.common.dry = true;
    assert_eq!(drive(build(args), &world()), drive(build(plain()), &world()));
}

#[test]
fn a_build_that_should_ask_only_says_that_it_does_not() {
    let mut args = plain();
    args.common.ask = true;
    let (asked, result) = drive(build(args), &world());
    let mut expected = requests_of_local_build();
    expected.push(Request::Notify(Notice::DryRunIgnoresAsk));
    assert_eq!(asked, expected);
    assert_eq!(result, Ok(()));
}

#[test]
fn root_is_refused_before_anything_is_asked() {
    let run = plain().rebuild_as(SystemRebuildVariant::Switch, ElevationStrategy::Elevate, 0);
    assert_eq!(run.request(), None);
    let error = run.outcome().unwrap().unwrap_err();
    assert_eq!(error, Error::RunningAsRoot);
    assert_eq!(
        error.message(),
        "Don't run nh system as root. I will call sudo internally as needed"
    );
}

#[test]
fn root_may_have_leave() {
    let mut args = plain();
    args.bypass_root_check = true;
    let run = args.rebuild_as(SystemRebuildVariant::Build, ElevationStrategy::Elevate, 0);
    let (asked, result) = drive(run, &world());
    assert_eq!(asked, requests_of_local_build());
    assert_eq!(result, Ok(()));
}

#[test]
fn a_run_is_that_of_the_user_who_runs_the_process() {
    let uid = nix::unistd::Uid::effective().as_raw();
    assert_eq!(
        plain().rebuild(SystemRebuildVariant::Switch, ElevationStrategy::Disabled),
        plain().rebuild_as(SystemRebuildVariant::Switch, ElevationStrategy::Disabled, uid)
    );
}

#[test]
fn a_user_can_agree() {
    let mut args = plain();
    args.common.ask = true;
    let (asked, result) = drive(switch(args), &world());
    let confirm = position(&asked, |request| matches!(request, Request::Confirm { .. })).unwrap();
    assert_eq!(
        asked[confirm],
        Request::Confirm { prompt: String::from("Apply the config?"), default_answer: false }
    );
    assert!(matches!(asked[confirm + 1], Request::TryExists { .. }));
    assert_eq!(result, Ok(()));
}

#[test]
fn a_user_can_decline() {
    let mut args = plain();
    args.common.ask = true;
    args.target_host = host("me@there", "there");
    let (asked, result) = drive(switch(args), &World { agrees: false, ..world() });
    assert!(matches!(asked.last(), Some(Request::Confirm { .. })));
    let error = result.unwrap_err();
    assert_eq!(error, Error::Rejected);
    assert_eq!(error.chain(), vec!["User rejected the new config"]);
}

#[test]
fn a_build_without_an_engine_is_not_activated() {
    let (asked, result) = drive(switch(plain()), &World { engine_exists: false, ..world() });
    assert!(matches!(asked.last(), Some(Request::TryExists { .. })));
    let error = result.unwrap_err();
    assert_eq!(
        error.message(),
        "Built output does not contain system-manager-engine at /nix/store/system/bin/system-manager-engine"
    );
}

#[test]
fn options_of_the_activation_are_handed_on() {
    let mut args = plain();
    args.ephemeral = true;
    args.show_activation_logs = true;
    let (asked, _) = drive(switch(args), &world());
    let engine = os("/nix/store/system/bin/system-manager-engine");
    assert_eq!(
        asked.last(),
        Some(&Request::RunEngine(EngineRun {
            engine: engine.clone(),
            args: vec![
                String::from("activate"),
                String::from("--store-path"),
                String::from("/nix/store/system"),
                String::from("--ephemeral"),
            ],
            elevation: Some(ElevationStrategy::Elevate),
            show_output: true,
            message: String::from("Activating System Manager profile"),
        }))
    );
    assert_eq!(
        asked[asked.len() - 2],
        Request::RunEngine(EngineRun {
            engine,
            args: vec![
                String::from("register"),
                String::from("--store-path"),
                String::from("/nix/store/system"),
            ],
            elevation: Some(ElevationStrategy::Elevate),
            show_output: true,
            message: String::from("Registering System Manager profile"),
        })
    );
}

#[test]
fn a_given_link_needs_no_temporary_directory() {
    let mut args = plain();
    args.common.out_link = Some(os("/home/me/result"));
    args.common.no_nom = true;
    let (asked, _) = drive(build(args), &world());
    assert_eq!(asked[0], Request::ResolveInstallable);
    assert_eq!(
        asked[2],
        Request::BuildLocally {
            toplevel: flake(&["systemConfigs", "default"]),
            extra_args: texts(&["--out-link", "/home/me/result", "-L"]),
            use_nom: false,
            message: String::from("Building System Manager configuration"),
        }
    );
    assert_eq!(asked[3], Request::Canonicalize { path: os("/home/me/result") });
}

#[test]
fn inputs_are_updated_before_anything_is_looked_up() {
    let mut args = plain();
    args.update_args.update_input = Some(vec![String::from("nixpkgs")]);
    let (asked, _) = drive(build(args), &world());
    assert_eq!(
        asked[2],
        Request::UpdateInputs {
            installable: flake(&["default"]),
            inputs: Some(vec![String::from("nixpkgs")]),
        }
    );
    assert_eq!(asked[3], Request::Hostname { host: None });
    let mut args = plain();
    args.update_args.update_all = true;
    let (asked, _) = drive(build(args), &world());
    assert_eq!(
        asked[2],
        Request::UpdateInputs { installable: flake(&["default"]), inputs: None }
    );
}

#[test]
fn the_diff_can_be_left_out() {
    let mut args = plain();
    args.common.diff = DiffType::Never;
    let (asked, result) = drive(build(args), &world());
    assert_eq!(asked, requests_of_local_build()[..5].iter().map(copy).collect::<Vec<_>>());
    assert_eq!(result, Ok(()));
    let (asked, result) = drive(build(plain()), &World { profile_exists: false, ..world() });
    assert_eq!(asked, requests_of_local_build()[..6].iter().map(copy).collect::<Vec<_>>());
    assert_eq!(result, Ok(()));
}

/// A copy of a request of a local build.
fn copy(request: &Request) -> Request {
    requests_of_local_build().into_iter().find(|other| other == request).unwrap()
}

#[test]
fn a_diff_that_fails_changes_nothing() {
    let fails = drive_with(switch(plain()), &world(), |request| {
        matches!(request, Request::ShowDiff { .. })
    });
    assert_eq!(fails, drive(switch(plain()), &world()));
}

#[test]
fn a_named_configuration_is_searched_for_without_the_name_of_the_host() {
    let mut args = plain();
    args.configuration = Some(String::from("web"));
    let (asked, result) = drive(build(args), &World { installable: flake(&[]), ..world() });
    assert_eq!(position(&asked, |request| matches!(request, Request::Hostname { .. })), None);
    assert_eq!(asked[2], Request::Search(Query::ParseAttribute(String::from("web"))));
    assert!(matches!(&asked[3], Request::Search(Query::Nix(_))));
    assert_eq!(result, Ok(()));
}

#[test]
fn a_search_that_fails_ends_the_run() {
    let mut args = plain();
    args.configuration = Some(String::from("web"));
    let (asked, result) = drive(build(args), &world());
    assert!(matches!(asked.last(), Some(Request::Search(_))));
    assert_eq!(result, Err(Error::ConfigurationWithAttribute));
}

#[test]
fn a_store_path_is_not_built() {
    let store = World {
        installable: Installable::Store { path: os("/nix/store/link") },
        ..world()
    };
    let mut args = plain();
    args.configuration = Some(String::from("web"));
    let (asked, result) = drive(switch(args), &store);
    assert_eq!(
        asked[2],
        Request::Notify(Notice::StorePathIgnoresConfiguration)
    );
    assert_eq!(asked[3], Request::Canonicalize { path: os("/nix/store/link") });
    assert_eq!(asked[4], Request::PathExists { path: os(PROFILE) });
    assert_eq!(result, Ok(()));
    assert_eq!(
        Notice::StorePathIgnoresConfiguration.message(),
        "Ignoring --configuration because store path installables already point to an exact build output"
    );
}

#[test]
fn a_remote_switch_copies_validates_and_activates() {
    let mut args = plain();
    args.build_host = host("me@builder", "builder");
    args.target_host = host("me@target", "target");
    let (asked, result) = drive(switch(args), &world());
    assert_eq!(
        asked,
        vec![
            Request::SshKeyLogin,
            Request::TemporaryDirectory { prefix: String::from("nh-system") },
            Request::ResolveInstallable,
            Request::Hostname { host: Some(String::from("target")) },
            Request::InitSshControl,
            Request::OpenSshMaster(HostRole::Build),
            Request::OpenSshMaster(HostRole::Target),
            Request::Notify(Notice::BuildingRemotely),
            Request::BuildRemotely {
                toplevel: flake(&["systemConfigs", "default"]),
                use_nom: true,
                use_substitutes: true,
                execution_args: texts(&["-L", "--keep-going"]),
                out_link: os("/tmp/nh-system-1/result"),
                evaluation_args: texts(&["--impure"]),
            },
            Request::PathExists { path: os(PROFILE) },
            Request::ShowDiff { old: os(PROFILE), new: os("/nix/store/system") },
            Request::RemoteUid,
            Request::CopyToTarget {
                store_path: os("/nix/store/system"),
                use_substitutes: true,
                evaluation_args: texts(&["--impure"]),
            },
            Request::ValidateOnTarget {
                store_path: os("/nix/store/system"),
                file: String::from("bin/system-manager-engine"),
                description: String::from("system-manager engine"),
                provenance: Some(String::from("built on 'me@builder'")),
            },
            Request::ActivateRemotely {
                store_path: os("/nix/store/system"),
                config: RemoteActivation {
                    platform: Platform::SystemManager,
                    activation_type: ActivationType::Switch,
                    install_bootloader: false,
                    ephemeral: false,
                    show_logs: false,
                    elevation: Some(ElevationStrategy::Elevate),
                },
            },
        ]
    );
    assert_eq!(result, Ok(()));
    assert_eq!(Notice::BuildingRemotely.message(), "Building System Manager configuration");
}

#[test]
fn a_host_that_builds_for_itself_needs_no_copy() {
    let mut args = plain();
    args.build_host = host("me@there", "there");
    args.target_host = host("root@there", "there");
    let (asked, result) = drive(switch(args), &world());
    let uid = position(&asked, |request| *request == Request::RemoteUid).unwrap();
    assert!(matches!(asked[uid + 1], Request::ValidateOnTarget { .. }));
    assert_eq!(result, Ok(()));
}

#[test]
fn a_store_path_is_copied_even_to_the_host_that_builds() {
    let mut args = plain();
    args.build_host = host("me@there", "there");
    args.target_host = host("me@there", "there");
    let store = World {
        installable: Installable::Store { path: os("/nix/store/link") },
        ..world()
    };
    let (asked, _) = drive(switch(args), &store);
    let uid = position(&asked, |request| *request == Request::RemoteUid).unwrap();
    assert!(matches!(asked[uid + 1], Request::CopyToTarget { .. }));
}

#[test]
fn a_local_build_for_another_host_has_no_provenance() {
    let mut args = plain();
    args.target_host = host("me@target", "target");
    args.common.passthrough.network_restricted = true;
    let (asked, _) = drive(switch(args), &world());
    assert_eq!(
        position(&asked, |request| matches!(request, Request::OpenSshMaster(HostRole::Build))),
        None
    );
    let copied =
        position(&asked, |request| matches!(request, Request::CopyToTarget { .. })).unwrap();
    assert_eq!(
        asked[copied],
        Request::CopyToTarget {
            store_path: os("/nix/store/system"),
            use_substitutes: false,
            evaluation_args: texts(&["--impure"]),
        }
    );
    assert_eq!(
        asked[copied + 1],
        Request::ValidateOnTarget {
            store_path: os("/nix/store/system"),
            file: String::from("bin/system-manager-engine"),
            description: String::from("system-manager engine"),
            provenance: None,
        }
    );
}

fn last_elevation(elevation: ElevationStrategy, uid: u32) -> (bool, Option<ElevationStrategy>) {
    let mut args = plain();
    args.target_host = host("me@target", "target");
    let run = args.rebuild_as(SystemRebuildVariant::Switch, elevation, 1000);
    let (asked, _) = drive(run, &World { uid, ..world() });
    let probed = position(&asked, |request| *request == Request::RemoteUid).is_some();
    match asked.last() {
        Some(Request::ActivateRemotely { config, .. }) => (probed, config.elevation),
        other => panic!("{other:?}"),
    }
}

#[test]
fn only_users_other_than_root_are_elevated() {
    assert_eq!(
        last_elevation(ElevationStrategy::Elevate, 1000),
        (true, Some(ElevationStrategy::Elevate))
    );
    assert_eq!(last_elevation(ElevationStrategy::Elevate, 0), (true, None));
    assert_eq!(last_elevation(ElevationStrategy::Disabled, 1000), (false, None));
}

#[test]
fn both_runs_of_the_engine_are_elevated_as_asked() {
    for elevation in [ElevationStrategy::Disabled, ElevationStrategy::Elevate] {
        let run = plain().rebuild_as(SystemRebuildVariant::Switch, elevation, 1000);
        let (asked, _) = drive(run, &world());
        let elevations: Vec<_> = asked
            .iter()
            .filter_map(|request| match request {
                Request::RunEngine(engine) => Some(engine.elevation),
                _ => None,
            })
            .collect();
        assert_eq!(elevations, vec![Some(elevation), Some(elevation)]);
    }
}

#[test]
fn a_build_for_another_host_probes_no_user() {
    let mut args = plain();
    args.target_host = host("me@target", "target");
    let (asked, result) = drive(build(args), &world());
    assert_eq!(position(&asked, |request| *request == Request::RemoteUid), None);
    assert!(matches!(asked.last(), Some(Request::ShowDiff { .. })));
    assert_eq!(result, Ok(()));
}

/// What a switch comes to when the given request fails.
fn failing(args: SystemRebuildArgs, fails: fn(&Request) -> bool) -> Vec<String> {
    let (asked, result) = drive_with(switch(args), &world(), fails);
    assert!(fails(asked.last().unwrap()));
    result.unwrap_err().chain()
}

#[test]
fn what_fails_on_another_host_is_reported() {
    let remote = || {
        let mut args = plain();
        args.build_host = host("me@builder", "builder");
        args.target_host = host("me@target", "target");
        args
    };
    assert_eq!(
        failing(remote(), |request| matches!(request, Request::SshKeyLogin)),
        vec!["broken"]
    );
    assert_eq!(
        failing(remote(), |request| matches!(request, Request::OpenSshMaster(HostRole::Build))),
        vec!["Failed to establish SSH connection to build host", "broken"]
    );
    assert_eq!(
        failing(remote(), |request| matches!(request, Request::OpenSshMaster(HostRole::Target))),
        vec!["Failed to establish SSH connection to target host", "broken"]
    );
    assert_eq!(
        failing(remote(), |request| matches!(request, Request::BuildRemotely { .. })),
        vec!["Failed to build System Manager configuration", "broken"]
    );
    assert_eq!(failing(remote(), |request| matches!(request, Request::RemoteUid)), vec!["broken"]);
    assert_eq!(
        failing(remote(), |request| matches!(request, Request::CopyToTarget { .. })),
        vec!["Failed to copy system-manager closure to target host", "broken"]
    );
    assert_eq!(
        failing(remote(), |request| matches!(request, Request::ValidateOnTarget { .. })),
        vec!["Failed to validate system-manager closure on target host", "broken"]
    );
    assert_eq!(
        failing(remote(), |request| matches!(request, Request::ActivateRemotely { .. })),
        vec!["broken"]
    );
}

#[test]
fn what_fails_here_is_reported() {
    assert_eq!(
        failing(plain(), |request| matches!(request, Request::TemporaryDirectory { .. })),
        vec!["broken"]
    );
    assert_eq!(
        failing(plain(), |request| matches!(request, Request::ResolveInstallable)),
        vec!["broken"]
    );
    assert_eq!(
        failing(plain(), |request| matches!(request, Request::Hostname { .. })),
        vec!["broken"]
    );
    assert_eq!(
        failing(plain(), |request| matches!(request, Request::BuildLocally { .. })),
        vec!["Failed to build System Manager configuration", "broken"]
    );
    assert_eq!(
        failing(plain(), |request| matches!(request, Request::Canonicalize { .. })),
        vec!["Failed to resolve output path to actual store path", "broken"]
    );
    assert_eq!(
        failing(plain(), |request| matches!(request, Request::TryExists { .. })),
        vec!["Failed to check if system-manager-engine exists", "broken"]
    );
    assert_eq!(
        failing(plain(), |request| matches!(request, Request::RunEngine(_))),
        vec!["Failed to register System Manager profile", "broken"]
    );
    assert_eq!(
        failing(plain(), |request| match request {
            Request::RunEngine(run) => run.args[0] == "activate",
            _ => false,
        }),
        vec!["System Manager activation failed", "broken"]
    );
}

#[test]
fn a_prompt_that_fails_is_reported() {
    let mut args = plain();
    args.common.ask = true;
    assert_eq!(
        failing(args, |request| matches!(request, Request::Confirm { .. })),
        vec!["broken"]
    );
}

#[test]
fn an_update_that_fails_is_reported() {
    let mut args = plain();
    args.update_args.update_all = true;
    assert_eq!(
        failing(args, |request| matches!(request, Request::UpdateInputs { .. })),
        vec!["broken"]
    );
}

#[test]
fn a_store_path_that_is_not_there_is_reported() {
    let store = World {
        installable: Installable::Store { path: os("/nix/store/link") },
        ..world()
    };
    let (_, result) = drive_with(switch(plain()), &store, |request| {
        matches!(request, Request::Canonicalize { .. })
    });
    assert_eq!(
        result,
        Err(Error::Failed {
            context: Some(Context::ResolveStorePath),
            cause: String::from("broken"),
        })
    );
    assert_eq!(
        Context::ResolveStorePath.message(),
        "Failed to resolve store path installable to canonical store path"
    );
}

#[test]
fn replies_to_other_requests_are_not_accepted() {
    let run = switch(plain());
    assert!(run.accepts(&Reply::Path(os("/tmp/x"))));
    assert!(run.accepts(&Reply::Failed(String::new())));
    assert!(!run.accepts(&Reply::Done));
    assert!(!run.accepts(&Reply::Flag(true)));
    assert!(!run.accepts(&Reply::Uid(0)));
    assert!(!run.accepts(&Reply::Text(String::new())));
    assert!(!run.accepts(&Reply::Installable(flake(&[]))));
    assert!(!run.accepts(&Reply::Search(Answer::Parsed(Ok(Vec::new())))));
    assert!(!run.accepts(&Reply::Exit { success: true, status: String::new() }));
    assert_eq!(run.outcome(), None);
}

#[test]
fn bytes_of_a_store_path_that_are_no_text_are_replaced_for_the_engine() {
    let mut run = switch(plain());
    while let Some(request) = run.request() {
        let reply = match request {
            Request::Canonicalize { .. } => Reply::Path(OsText::from_bytes(vec![b'/', 0xff])),
            Request::RunEngine(engine) => {
                assert_eq!(
                    engine.args,
                    vec![
                        String::from("register"),
                        String::from("--store-path"),
                        String::from("/\u{fffd}"),
                    ]
                );
                let mut path = vec![b'/', 0xff];
                path.extend_from_slice(b"/bin/system-manager-engine");
                assert_eq!(engine.engine, OsText::from_bytes(path));
                return;
            }
            other => world().reply(&other),
        };
        run = run.resume(reply);
    }
    unreachable!("the engine should be run");
}
