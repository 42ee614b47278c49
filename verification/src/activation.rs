//! How a build is brought to life.

use crate::args::{ElevationStrategy, RemoteHost, SystemRebuildArgs};
use crate::os_text::{displayed, OsText};
use crate::protocol::{
    Activation, ActivationModel, ActivationType, EngineRun, EngineRunModel, Platform,
    RemoteActivation,
};
use vstd::prelude::*;

verus! {

/// The profile that holds what is active.
pub const SYSTEM_MANAGER_PROFILE: &'static str =
    "/nix/var/nix/profiles/system-manager-profiles/system-manager";

/// Where a build has its engine.
pub const ENGINE_BIN: &'static str = "bin/system-manager-engine";

/// What the user knows the engine as.
pub const ENGINE_DESCRIPTION: &'static str = "system-manager engine";

impl SystemRebuildArgs {
    /// Whether the target host needs more privileges, given the number of the
    /// user there; nothing where that number must be asked for first.
    pub open spec fn remote_elevation(
        self,
        elevation: ElevationStrategy,
        uid: Option<u32>,
    ) -> Option<bool> {
        if self.target_host is None || elevation is Disabled {
            Some(false)
        } else {
            match uid {
                Some(number) => Some(number != 0),
                None => None,
            }
        }
    }

    /// Decides whether the target host needs more privileges. Without a target
    /// host, or where privileges are not to be had, it does not, and nobody needs
    /// to know who the user is there; else every user but root needs them.
    pub fn determine_remote_elevation(
        &self,
        elevation: ElevationStrategy,
        uid: Option<u32>,
    ) -> (result: Option<bool>)
        ensures
            result == self.remote_elevation(elevation, uid),
    {
        if self.target_host.is_none() {
            return Some(false);
        }
        if matches!(elevation, ElevationStrategy::Disabled) {
            return Some(false);
        }
        match uid {
            Some(number) => Some(number != 0),
            None => None,
        }
    }

    /// How the build at the path that reads `path` is brought to life here: the
    /// engine registers it and then activates it, elevated both times.
    pub open spec fn local_activation(
        self,
        engine_path: Seq<u8>,
        path: Seq<char>,
        elevation: ElevationStrategy,
    ) -> ActivationModel {
        ActivationModel::Local {
            register: EngineRunModel {
                engine: engine_path,
                args: seq!["register"@, "--store-path"@, path],
                elevation: Some(elevation),
                show_output: self.show_activation_logs,
                message: "Registering System Manager profile"@,
            },
            activate: EngineRunModel {
                engine: engine_path,
                args: seq!["activate"@, "--store-path"@, path] + (if self.ephemeral {
                    seq!["--ephemeral"@]
                } else {
                    seq![]
                }),
                elevation: Some(elevation),
                show_output: self.show_activation_logs,
                message: "Activating System Manager profile"@,
            },
        }
    }

    /// How the build at `store_path` is brought to life: on the target host, if
    /// there is one, elevated if `remote_elevate` says so, else here.
    pub open spec fn activation(
        self,
        store_path: Seq<u8>,
        engine_path: Seq<u8>,
        on_target: bool,
        remote_elevate: bool,
        elevation: ElevationStrategy,
    ) -> ActivationModel {
        if on_target {
            ActivationModel::Remote {
                store_path,
                config: RemoteActivation {
                    platform: Platform::SystemManager,
                    activation_type: ActivationType::Switch,
                    install_bootloader: false,
                    ephemeral: self.ephemeral,
                    show_logs: self.show_activation_logs,
                    elevation: if remote_elevate {
                        Some(elevation)
                    } else {
                        None
                    },
                },
            }
        } else {
            self.local_activation(engine_path, displayed(store_path), elevation)
        }
    }

    /// Says how the build at the path that reads `path` is brought to life here.
    pub fn activate_here(
        &self,
        engine_path: &OsText,
        path: String,
        elevation: ElevationStrategy,
    ) -> (result: Activation)
        ensures
            result@ == self.local_activation(engine_path@, path@, elevation),
    {
        let register_args = vec![
            "register".to_owned(),
            "--store-path".to_owned(),
            path.clone(),
        ];
        assert(register_args.deep_view() =~= seq!["register"@, "--store-path"@, path@]);
        let mut activate_args = vec!["activate".to_owned(), "--store-path".to_owned(), path];
        assert(activate_args.deep_view() =~= seq!["activate"@, "--store-path"@, path@]);
        if self.ephemeral {
            activate_args.push("--ephemeral".to_owned());
        }
        assert(activate_args.deep_view() =~= seq!["activate"@, "--store-path"@, path@] + (
        if self.ephemeral {
            seq!["--ephemeral"@]
        } else {
            seq![]
        }));
        Activation::Local {
            register: EngineRun {
                engine: engine_path.clone(),
                args: register_args,
                elevation: Some(elevation),
                show_output: self.show_activation_logs,
                message: "Registering System Manager profile".to_owned(),
            },
            activate: EngineRun {
                engine: engine_path.clone(),
                args: activate_args,
                elevation: Some(elevation),
                show_output: self.show_activation_logs,
                message: "Activating System Manager profile".to_owned(),
            },
        }
    }

    /// Says how the build is brought to life.
    pub fn register_and_activate(
        &self,
        store_path: &OsText,
        engine_path: &OsText,
        target_host: &Option<RemoteHost>,
        remote_elevate: bool,
        elevation: ElevationStrategy,
    ) -> (result: Activation)
        ensures
            result@ == self.activation(
                store_path@,
                engine_path@,
                target_host is Some,
                remote_elevate,
                elevation,
            ),
    {
        if target_host.is_some() {
            return Activation::Remote {
                store_path: store_path.clone(),
                config: RemoteActivation {
                    platform: Platform::SystemManager,
                    activation_type: ActivationType::Switch,
                    install_bootloader: false,
                    ephemeral: self.ephemeral,
                    show_logs: self.show_activation_logs,
                    elevation: if remote_elevate {
                        Some(elevation)
                    } else {
                        None
                    },
                },
            };
        }
        self.activate_here(engine_path, store_path.to_text(), elevation)
    }
}

} // verus!
