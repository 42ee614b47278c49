//! The course of `nh system repl`.
//!
//! A session is a record of what is known so far, as a run of a build is.

use crate::args::{resolve_discovery_hostname, DiscoveryHostname, SystemReplArgs};
use crate::error::{Error, ErrorModel};
use crate::installable::{Installable, InstallableModel};
use crate::nix::{CommandKind, NixCall, NixCallModel};
use crate::os_text::{encoded, OsText};
use crate::protocol::{Reply, Request, RequestModel};
use crate::text::copy_option;
use crate::toplevel::{begin_if_ready, begun_if_ready, can_begin, Toplevel, ToplevelModel};
use crate::toplevel_laws::{
    keeps, law_place_is_kept, law_place_is_kept_at_first, law_search_begins, law_search_ends,
};
use vstd::prelude::*;

verus! {

/// The steps of the course.
#[derive(Debug, Clone, Copy, PartialEq, Eq, Structural)]
pub enum ReplStage {
    ResolveInstallable,
    FindHostname,
    Search,
    Run,
}

/// What a session knows.
#[verifier::ext_equal]
pub struct ReplModel {
    pub args: SystemReplArgs,
    pub installable: Option<InstallableModel>,
    pub hostname: Option<Seq<char>>,
    /// The search for the configuration, once it has what it begins with.
    pub search: Option<ToplevelModel>,
    /// Whether Nix ended well, and its exit status.
    pub exit: Option<(bool, Seq<char>)>,
    /// What went wrong outside.
    pub failure: Option<ErrorModel>,
}

/// Where a session stands.
#[verifier::ext_equal]
pub enum ReplStanding {
    /// It asks for what the step needs.
    Asking(ReplStage),
    /// It has failed.
    Failed(ErrorModel),
    /// It is over.
    Finished,
}

impl ReplModel {
    /// Where the session stands. A store path cannot be loaded.
    pub open spec fn standing(self) -> ReplStanding {
        if self.failure is Some {
            ReplStanding::Failed(self.failure->0)
        } else if self.installable is None {
            ReplStanding::Asking(ReplStage::ResolveInstallable)
        } else if self.installable->0 is Store {
            ReplStanding::Failed(ErrorModel::StoreInRepl)
        } else if self.args.configuration is None && self.hostname is None {
            ReplStanding::Asking(ReplStage::FindHostname)
        } else {
            match self.search {
                Some(ToplevelModel::Finished(Err(error))) => ReplStanding::Failed(error),
                Some(ToplevelModel::Finished(Ok(_))) => match self.exit {
                    None => ReplStanding::Asking(ReplStage::Run),
                    Some((true, _)) => ReplStanding::Finished,
                    Some((false, status)) => ReplStanding::Failed(ErrorModel::ReplFailed(status)),
                },
                _ => ReplStanding::Asking(ReplStage::Search),
            }
        }
    }

    /// What the step needs.
    pub open spec fn needs(self, stage: ReplStage) -> RequestModel {
        match stage {
            ReplStage::ResolveInstallable => RequestModel::ResolveInstallable,
            ReplStage::FindHostname => RequestModel::Hostname { host: None },
            ReplStage::Search => RequestModel::Search(self.search->0.question()->0),
            ReplStage::Run => RequestModel::Repl(
                NixCallModel {
                    kind: CommandKind::Repl,
                    args: seq![],
                    installable: match self.search {
                        Some(ToplevelModel::Finished(Ok(installable))) => Some(installable),
                        _ => None,
                    },
                },
            ),
        }
    }

    /// Whether the reply is one to what the step needs.
    pub open spec fn fits(self, stage: ReplStage, reply: Reply) -> bool {
        match stage {
            ReplStage::ResolveInstallable => reply is Installable || reply is Failed,
            ReplStage::FindHostname => reply is Text || reply is Failed,
            ReplStage::Search => reply matches Reply::Search(answer) && self.search->0.takes(answer),
            ReplStage::Run => reply is Exit || reply is Failed,
        }
    }

    /// Whether the reply is one to what the session asks for.
    pub open spec fn takes(self, reply: Reply) -> bool {
        self.standing() matches ReplStanding::Asking(stage) && self.fits(stage, reply)
    }

    /// The session, with the search begun once it is known what is loaded and by
    /// what name the configuration goes.
    pub open spec fn prepared(self) -> ReplModel {
        if self.search is None {
            ReplModel {
                search: begun_if_ready(
                    self.installable,
                    self.args.extra_args.deep_view(),
                    self.args.configuration.deep_view(),
                    self.hostname,
                ),
                ..self
            }
        } else {
            self
        }
    }

    /// The session, once it has been told what it asked for.
    pub open spec fn told(self, reply: Reply) -> ReplModel {
        match reply {
            Reply::Failed(cause) => ReplModel {
                failure: Some(ErrorModel::Failed { context: None, cause: cause@ }),
                ..self
            },
            Reply::Installable(installable) => (ReplModel {
                installable: Some(installable@),
                ..self
            }).prepared(),
            Reply::Text(name) => (ReplModel { hostname: Some(name@), ..self }).prepared(),
            Reply::Search(answer) => ReplModel {
                search: Some(self.search->0.told(answer)),
                ..self
            },
            Reply::Exit { success, status } => ReplModel {
                exit: Some((success, status@)),
                ..self
            },
            _ => self,
        }
    }

    /// Whether a search has begun exactly when it has what it begins with.
    pub open spec fn searches(self) -> bool {
        self.search is Some <==> can_begin(
            self.installable,
            self.args.configuration.deep_view(),
            self.hostname,
        )
    }
}

/// A session at its beginning.
pub open spec fn repl_begun(args: SystemReplArgs) -> ReplModel {
    ReplModel {
        args,
        installable: None,
        hostname: None,
        search: None,
        exit: None,
        failure: None,
    }
}

/// A run of `nh system repl`.
#[derive(Debug, PartialEq, Eq)]
pub struct Repl {
    args: SystemReplArgs,
    installable: Option<Installable>,
    hostname: Option<String>,
    search: Option<Toplevel>,
    exit: Option<(bool, String)>,
    failure: Option<Error>,
}

impl View for Repl {
    type V = ReplModel;

    closed spec fn view(&self) -> ReplModel {
        ReplModel {
            args: self.args,
            installable: self.installable.deep_view(),
            hostname: self.hostname.deep_view(),
            search: match self.search {
                Some(search) => Some(search@),
                None => None,
            },
            exit: match self.exit {
                Some((success, status)) => Some((success, status@)),
                None => None,
            },
            failure: match self.failure {
                Some(error) => Some(error@),
                None => None,
            },
        }
    }
}

impl Repl {
    #[verifier::type_invariant]
    spec fn inv(self) -> bool {
        self@.searches()
    }

    /// The step that the session is at, unless it is over.
    fn stage(&self) -> (result: Option<ReplStage>)
        ensures
            match result {
                Some(stage) => self@.standing() == ReplStanding::Asking(stage),
                None => !(self@.standing() is Asking),
            },
    {
        if self.failure.is_some() {
            return None;
        }
        match &self.installable {
            None => {
                return Some(ReplStage::ResolveInstallable);
            },
            Some(Installable::Store { .. }) => {
                return None;
            },
            _ => {},
        }
        if self.args.configuration.is_none() && self.hostname.is_none() {
            return Some(ReplStage::FindHostname);
        }
        match &self.search {
            None => Some(ReplStage::Search),
            Some(search) => {
                if !search.is_finished() {
                    Some(ReplStage::Search)
                } else if search.resolved().is_some() && self.exit.is_none() {
                    Some(ReplStage::Run)
                } else {
                    None
                }
            },
        }
    }

    /// What the session asks for next; nothing when it is over.
    pub fn request(&self) -> (result: Option<Request>)
        ensures
            match (self@.standing(), result) {
                (ReplStanding::Asking(stage), Some(request)) => request@ == self@.needs(stage),
                (ReplStanding::Asking(_), None) => false,
                (_, request) => request is None,
            },
    {
        proof {
            use_type_invariant(self);
        }
        let stage = match self.stage() {
            Some(stage) => stage,
            None => {
                return None;
            },
        };
        Some(
            match stage {
                ReplStage::ResolveInstallable => Request::ResolveInstallable,
                ReplStage::FindHostname => Request::Hostname {
                    host: match resolve_discovery_hostname(&self.args.configuration, &None) {
                        DiscoveryHostname::Of(host) => host,
                        DiscoveryHostname::NotNeeded => None,
                    },
                },
                ReplStage::Search => Request::Search(
                    self.search.as_ref().unwrap().question().unwrap(),
                ),
                ReplStage::Run => {
                    let args: Vec<OsText> = Vec::new();
                    assert(args.deep_view() =~= seq![]);
                    Request::Repl(
                        NixCall {
                            kind: CommandKind::Repl,
                            args,
                            installable: Some(
                                self.search.as_ref().unwrap().resolved().unwrap().clone(),
                            ),
                        },
                    )
                },
            },
        )
    }

    /// Whether the reply is one to what the session asks for.
    pub fn accepts(&self, reply: &Reply) -> (result: bool)
        ensures
            result == self@.takes(*reply),
    {
        proof {
            use_type_invariant(self);
        }
        match (self.stage(), reply) {
            (Some(ReplStage::ResolveInstallable), Reply::Installable(_)) => true,
            (Some(ReplStage::FindHostname), Reply::Text(_)) => true,
            (Some(ReplStage::Search), Reply::Search(answer)) => {
                self.search.as_ref().unwrap().accepts(answer)
            },
            (Some(ReplStage::Search), _) => false,
            (Some(ReplStage::Run), Reply::Exit { .. }) => true,
            (Some(_), Reply::Failed(_)) => true,
            _ => false,
        }
    }

    /// The session with what is loaded and by what name the configuration goes,
    /// and with the search begun once both are known.
    fn with_subject(self, installable: Option<Installable>, hostname: Option<String>) -> (result:
        Repl)
        requires
            self@.search is None,
        ensures
            result@ == (ReplModel {
                installable: installable.deep_view(),
                hostname: hostname.deep_view(),
                ..self@
            }).prepared(),
    {
        let search = begin_if_ready(
            &installable,
            &self.args.extra_args,
            &self.args.configuration,
            &hostname,
        );
        Repl { installable, hostname, search, ..self }
    }

    /// Takes the reply to what the session asked for.
    pub fn resume(self, reply: Reply) -> (result: Repl)
        requires
            self@.takes(reply),
        ensures
            result@ == self@.told(reply),
    {
        proof {
            use_type_invariant(&self);
        }
        match reply {
            Reply::Failed(cause) => Repl {
                failure: Some(Error::Failed { context: None, cause }),
                ..self
            },
            Reply::Installable(installable) => {
                let hostname = copy_option(&self.hostname);
                self.with_subject(Some(installable), hostname)
            },
            Reply::Text(name) => {
                let installable = match &self.installable {
                    Some(installable) => Some(installable.clone()),
                    None => None,
                };
                self.with_subject(installable, Some(name))
            },
            Reply::Search(answer) => {
                let search = match self.search {
                    Some(search) => Some(search.resume(answer)),
                    None => None,
                };
                Repl { search, ..self }
            },
            Reply::Exit { success, status } => Repl { exit: Some((success, status)), ..self },
            _ => self,
        }
    }

    /// What the session came to; nothing while it is under way.
    pub fn outcome(self) -> (result: Option<Result<(), Error>>)
        ensures
            match result {
                Some(Ok(_)) => self@.standing() is Finished,
                Some(Err(error)) => self@.standing() == ReplStanding::Failed(error@),
                None => self@.standing() is Asking,
            },
    {
        if self.stage().is_some() {
            return None;
        }
        if let Some(error) = self.failure {
            return Some(Err(error));
        }
        if let Some(Installable::Store { .. }) = &self.installable {
            return Some(Err(Error::StoreInRepl));
        }
        match self.search.unwrap().outcome().unwrap() {
            Err(error) => Some(Err(error)),
            Ok(_) => match self.exit.unwrap() {
                (true, _) => Some(Ok(())),
                (false, status) => Some(Err(Error::ReplFailed(status))),
            },
        }
    }
}

impl SystemReplArgs {
    /// Begins to load a configuration in an interactive session.
    pub fn run(self) -> (result: Repl)
        ensures
            result@ == repl_begun(self),
    {
        Repl {
            args: self,
            installable: None,
            hostname: None,
            search: None,
            exit: None,
            failure: None,
        }
    }
}

impl ReplStage {
    /// The place of the step in the course.
    pub open spec fn rank(self) -> nat {
        match self {
            ReplStage::ResolveInstallable => 0,
            ReplStage::FindHostname => 1,
            ReplStage::Search => 2,
            ReplStage::Run => 3,
        }
    }
}

impl ReplModel {
    /// Whether what the session knows fits together.
    pub open spec fn well_formed(self) -> bool {
        &&& self.searches()
        &&& self.search matches Some(search) ==> {
            &&& search.well_formed()
            &&& search.effort() <= 6
            &&& keeps(search, self.installable->0)
        }
    }

    /// How many replies the session can still need: one for each step that is left,
    /// but six for the search.
    pub open spec fn effort(self) -> nat {
        match self.standing() {
            ReplStanding::Asking(ReplStage::ResolveInstallable) => 9,
            ReplStanding::Asking(ReplStage::FindHostname) => 8,
            ReplStanding::Asking(ReplStage::Search) => 1 + self.search->0.effort(),
            ReplStanding::Asking(ReplStage::Run) => 1,
            _ => 0,
        }
    }
}

/// Law: what a session knows at its beginning fits together.
pub proof fn law_session_begins(args: SystemReplArgs)
    ensures
        repl_begun(args).well_formed(),
{
}

/// Law: a session goes through its course from the first step to the last; only
/// the search may go on asking, and each of its answers brings it nearer to its
/// end.
pub proof fn law_session_goes_forward(session: ReplModel, stage: ReplStage, reply: Reply)
    requires
        session.well_formed(),
        session.standing() == ReplStanding::Asking(stage),
        session.takes(reply),
    ensures
        session.told(reply).well_formed(),
        session.told(reply).standing() matches ReplStanding::Asking(next) ==> {
            ||| stage.rank() < next.rank()
            ||| {
                &&& stage is Search
                &&& next is Search
                &&& session.told(reply).search->0.effort() < session.search->0.effort()
            }
        },
{
    if let Reply::Search(answer) = reply {
        law_search_ends(session.search->0, answer);
        law_place_is_kept(session.search->0, session.installable->0, answer);
    }
    let next = session.told(reply);
    if (reply is Installable || reply is Text) && next.search is Some {
        let extra_args = encoded(session.args.extra_args.deep_view());
        let name = session.args.configuration.deep_view();
        let hostname = if session.args.configuration is Some {
            None
        } else {
            next.hostname
        };
        law_search_begins(next.installable->0, extra_args, name, hostname);
        law_place_is_kept_at_first(next.installable->0, extra_args, name, hostname);
    }
}

/// Law: every reply brings a session nearer to its end, and no session needs more
/// than nine.
pub proof fn law_session_ends(session: ReplModel, reply: Reply)
    requires
        session.well_formed(),
        session.takes(reply),
    ensures
        session.effort() <= 9,
        session.told(reply).effort() < session.effort(),
        session.told(reply).effort() == 0 ==> !(session.told(reply).standing() is Asking),
{
    law_session_goes_forward(session, session.standing()->Asking_0, reply);
}

/// Law: a named configuration makes the name of the host irrelevant.
pub proof fn law_named_configuration_needs_no_hostname(session: ReplModel)
    requires
        session.args.configuration is Some,
    ensures
        session.standing() != ReplStanding::Asking(ReplStage::FindHostname),
{
}

/// Law: what fails outside ends the session and is reported with its reason.
pub proof fn law_failure_ends_the_session(session: ReplModel, cause: String)
    ensures
        session.told(Reply::Failed(cause)).standing() == ReplStanding::Failed(
            ErrorModel::Failed { context: None, cause: cause@ },
        ),
{
}

/// Law: a store path ends a session at once, whatever else the user asked for.
pub proof fn law_store_path_is_refused(args: SystemReplArgs, path: OsText)
    ensures
        repl_begun(args).told(Reply::Installable(Installable::Store { path })).standing()
            == ReplStanding::Failed(ErrorModel::StoreInRepl),
{
}

/// Law: a session that is over without an error ran Nix, which ended well.
pub proof fn law_session_over_means_nix_ended_well(session: ReplModel)
    requires
        session.standing() is Finished,
    ensures
        session.search matches Some(ToplevelModel::Finished(Ok(_))),
        session.exit matches Some((success, _)) && success,
{
}

} // verus!
