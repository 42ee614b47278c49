//! The commands of `nh system`, as what they begin.

use crate::args::{ElevationStrategy, SystemArgs, SystemSubcommand};
use crate::protocol::Notice;
use crate::rebuild::{rebuild_begun, Rebuild, SystemRebuildVariant};
use crate::repl::{repl_begun, Repl};
use vstd::prelude::*;

verus! {

/// What a command does.
#[derive(Debug, PartialEq, Eq)]
pub enum Session {
    Rebuild(Rebuild),
    Repl(Repl),
}

/// A command that has begun.
#[derive(Debug, PartialEq, Eq)]
pub struct Launch {
    /// What the user is told first.
    pub notice: Option<Notice>,
    pub session: Session,
}

impl SystemArgs {
    /// What the user is told before the command does anything.
    pub open spec fn first_remark(self) -> Option<Notice> {
        match self.subcommand {
            SystemSubcommand::Build(args) => if args.common.ask || args.common.dry {
                Some(Notice::BuildIgnoresAskAndDry)
            } else {
                None
            },
            _ => None,
        }
    }

    /// Begins the command that the user gave. One that only builds has no use for
    /// `--ask` and `--dry`, and says so. Which number the user of a command that
    /// builds has is for the operating system to say.
    pub fn run(self, elevation: ElevationStrategy) -> (result: Launch)
        ensures
            match (self.subcommand, result.session) {
                (SystemSubcommand::Switch(args), Session::Rebuild(run)) => {
                    &&& result.notice is None
                    &&& exists|uid: u32|
                        run@ == #[trigger] rebuild_begun(
                            args,
                            SystemRebuildVariant::Switch,
                            elevation,
                            uid,
                        )
                },
                (SystemSubcommand::Build(args), Session::Rebuild(run)) => {
                    &&& result.notice == (if args.common.ask || args.common.dry {
                        Some(Notice::BuildIgnoresAskAndDry)
                    } else {
                        None
                    })
                    &&& exists|uid: u32|
                        run@ == #[trigger] rebuild_begun(
                            args,
                            SystemRebuildVariant::Build,
                            elevation,
                            uid,
                        )
                },
                (SystemSubcommand::Repl(args), Session::Repl(session)) => {
                    &&& result.notice is None
                    &&& session@ == repl_begun(args)
                },
                _ => false,
            },
            result.notice == self.first_remark(),
    {
        match self.subcommand {
            SystemSubcommand::Switch(args) => Launch {
                notice: None,
                session: Session::Rebuild(args.rebuild(SystemRebuildVariant::Switch, elevation)),
            },
            SystemSubcommand::Build(args) => {
                let notice = if args.common.ask || args.common.dry {
                    Some(Notice::BuildIgnoresAskAndDry)
                } else {
                    None
                };
                Launch {
                    notice,
                    session: Session::Rebuild(args.rebuild(SystemRebuildVariant::Build, elevation)),
                }
            },
            SystemSubcommand::Repl(args) => Launch {
                notice: None,
                session: Session::Repl(args.run()),
            },
        }
    }
}

} // verus!
