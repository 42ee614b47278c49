use nh_system::args::{
    resolve_discovery_hostname, CommonRebuildArgs, DiffType, DiscoveryHostname, ElevationStrategy,
    FeatureRequirements, Passthrough, RemoteHost, SystemArgs, SystemRebuildArgs, SystemReplArgs,
    SystemSubcommand, UpdateArgs,
};
use nh_system::installable::Installable;
use nh_system::os_text::OsText;
use nh_system::protocol::{
    Activation, ActivationType, EngineRun, Notice, Platform, RemoteActivation,
};
use nh_system::rebuild::SystemRebuildVariant;
use nh_system::session::Session;

fn rebuild_args(installable: Option<Installable>) -> SystemRebuildArgs {
    SystemRebuildArgs {
        common: CommonRebuildArgs {
            ask: false,
            dry: false,
            no_nom: false,
            diff: DiffType::Never,
            out_link: None,
            installable,
            passthrough: Passthrough {
                use_substitutes: false,
                network_restricted: false,
                remote_build_args: Vec::new(),
                evaluation_args: Vec::new(),
            },
        },
        update_args: UpdateArgs { update_all: false, update_input: None },
        configuration: None,
        extra_args: Vec::new(),
        bypass_root_check: false,
        ephemeral: false,
        show_activation_logs: false,
        build_host: None,
        target_host: None,
    }
}

fn flake() -> Option<Installable> {
    Some(Installable::Flake { reference: String::from("."), attribute: Vec::new() })
}

fn file() -> Option<Installable> {
    Some(Installable::File { path: OsText::from_text("system.nix"), attribute: Vec::new() })
}

fn target() -> Option<RemoteHost> {
    Some(RemoteHost { text: String::from("me@there"), hostname: String::from("there") })
}

#[test]
fn a_flake_on_the_command_line_uses_flakes() {
    assert!(rebuild_args(flake()).uses_flakes(&None));
    assert!(!rebuild_args(file()).uses_flakes(&None));
    assert!(!rebuild_args(None).uses_flakes(&None));
}

#[test]
fn a_flake_in_the_environment_uses_flakes() {
    assert!(rebuild_args(file()).uses_flakes(&Some(String::from("."))));
    assert!(!rebuild_args(file()).uses_flakes(&Some(String::new())));
    assert!(rebuild_args(flake()).uses_flakes(&Some(String::new())));
}

#[test]
fn flakes_need_features() {
    let switch = SystemArgs { subcommand: SystemSubcommand::Switch(rebuild_args(flake())) };
    assert_eq!(switch.get_feature_requirements(&None), FeatureRequirements::FlakeFeatures);
    let build = SystemArgs { subcommand: SystemSubcommand::Build(rebuild_args(file())) };
    assert_eq!(build.get_feature_requirements(&None), FeatureRequirements::LegacyFeatures);
    assert_eq!(
        build.get_feature_requirements(&Some(String::from("."))),
        FeatureRequirements::FlakeFeatures
    );
}

#[test]
fn the_target_host_gives_its_name_unless_a_configuration_is_named() {
    let named = Some(String::from("web"));
    assert_eq!(resolve_discovery_hostname(&named, &target()), DiscoveryHostname::NotNeeded);
    assert_eq!(resolve_discovery_hostname(&named, &None), DiscoveryHostname::NotNeeded);
    assert_eq!(
        resolve_discovery_hostname(&None, &target()),
        DiscoveryHostname::Of(Some(String::from("there")))
    );
    assert_eq!(resolve_discovery_hostname(&None, &None), DiscoveryHostname::Of(None));
}

#[test]
fn substituters_are_used_only_with_a_network() {
    let mut args = rebuild_args(None);
    assert!(!args.substitutes());
    args.common.passthrough.use_substitutes = true;
    assert!(args.substitutes());
    args.common.passthrough.network_restricted = true;
    assert!(!args.substitutes());
}

#[test]
fn elevation_is_decided_by_the_user_on_the_target_host() {
    let mut args = rebuild_args(None);
    assert_eq!(args.determine_remote_elevation(ElevationStrategy::Elevate, None), Some(false));
    args.target_host = target();
    assert_eq!(args.determine_remote_elevation(ElevationStrategy::Disabled, None), Some(false));
    assert_eq!(args.determine_remote_elevation(ElevationStrategy::Elevate, None), None);
    assert_eq!(args.determine_remote_elevation(ElevationStrategy::Elevate, Some(0)), Some(false));
    assert_eq!(args.determine_remote_elevation(ElevationStrategy::Elevate, Some(7)), Some(true));
}

#[test]
fn the_target_host_activates_if_there_is_one() {
    let mut args = rebuild_args(None);
    args.ephemeral = true;
    let store_path = OsText::from_text("/nix/store/x");
    let engine = OsText::from_text("/nix/store/x/bin/system-manager-engine");
    assert_eq!(
        args.register_and_activate(
            &store_path,
            &engine,
            &target(),
            true,
            ElevationStrategy::Elevate
        ),
        Activation::Remote {
            store_path: store_path.clone(),
            config: RemoteActivation {
                platform: Platform::SystemManager,
                activation_type: ActivationType::Switch,
                install_bootloader: false,
                ephemeral: true,
                show_logs: false,
                elevation: Some(ElevationStrategy::Elevate),
            },
        }
    );
    let words = |list: &[&str]| list.iter().map(|word| word.to_string()).collect::<Vec<_>>();
    assert_eq!(
        args.register_and_activate(
            &store_path,
            &engine,
            &None,
            false,
            ElevationStrategy::Disabled
        ),
        Activation::Local {
            register: EngineRun {
                engine: engine.clone(),
                args: words(&["register", "--store-path", "/nix/store/x"]),
                elevation: Some(ElevationStrategy::Disabled),
                show_output: false,
                message: String::from("Registering System Manager profile"),
            },
            activate: EngineRun {
                engine: engine.clone(),
                args: words(&["activate", "--store-path", "/nix/store/x", "--ephemeral"]),
                elevation: Some(ElevationStrategy::Disabled),
                show_output: false,
                message: String::from("Activating System Manager profile"),
            },
        }
    );
}

#[test]
fn every_command_begins_what_it_says() {
    let elevation = ElevationStrategy::Elevate;
    let switch = SystemArgs { subcommand: SystemSubcommand::Switch(rebuild_args(None)) };
    let launch = switch.run(elevation);
    assert_eq!(launch.notice, None);
    assert_eq!(
        launch.session,
        Session::Rebuild(rebuild_args(None).rebuild(SystemRebuildVariant::Switch, elevation))
    );
    let repl_args = || SystemReplArgs {
        installable: flake(),
        configuration: None,
        extra_args: Vec::new(),
    };
    let launch = SystemArgs { subcommand: SystemSubcommand::Repl(repl_args()) }.run(elevation);
    assert_eq!(launch.notice, None);
    assert_eq!(launch.session, Session::Repl(repl_args().run()));
}

fn build_launch(ask: bool, dry: bool) -> Option<Notice> {
    let args = || {
        let mut args = rebuild_args(None);
        args.common.ask = ask;
        args.common.dry = dry;
        args
    };
    let launch = SystemArgs { subcommand: SystemSubcommand::Build(args()) }
        .run(ElevationStrategy::Disabled);
    assert_eq!(
        launch.session,
        Session::Rebuild(args().rebuild(SystemRebuildVariant::Build, ElevationStrategy::Disabled))
    );
    launch.notice
}

#[test]
fn a_build_says_what_it_ignores() {
    assert_eq!(build_launch(false, false), None);
    for (ask, dry) in [(true, false), (false, true), (true, true)] {
        assert_eq!(build_launch(ask, dry), Some(Notice::BuildIgnoresAskAndDry));
    }
    assert_eq!(
        Notice::BuildIgnoresAskAndDry.message(),
        "`--ask` and `--dry` have no effect for `nh system build`"
    );
}
